use snapparse::geometry::{
    Logical, MonitorDescriptor, PhysicalCaptureRect, PhysicalPosition, PhysicalSize,
};
use snapparse::ocr::error::OcrError;
use snapparse::ocr::transform::{
    clamp_rect_to_monitor, logical_point_to_physical, logical_region_to_physical_from_monitor,
    physical_to_logical_rect, CapturePoint, LogicalRectPayload, OcrCaptureRegion,
};

fn logical(value: f64) -> Logical {
    Logical::Finite((value * 65536.0).round() as i64)
}

fn monitor(x: i32, y: i32, width: u32, height: u32, scale: f64) -> MonitorDescriptor {
    MonitorDescriptor::new(PhysicalPosition { x, y }, PhysicalSize { width, height }, logical(scale))
        .expect("monitor should be usable")
}

fn region(x: f64, y: f64, width: f64, height: f64, scale: f64) -> OcrCaptureRegion {
    OcrCaptureRegion {
        x: logical(x),
        y: logical(y),
        width: logical(width),
        height: logical(height),
        scale_factor: logical(scale),
    }
}

fn rect(x: i32, y: i32, width: u32, height: u32) -> PhysicalCaptureRect {
    PhysicalCaptureRect { x, y, width, height }
}

fn value(measure: Logical) -> f64 {
    match measure {
        Logical::Finite(raw) => raw as f64 / 65536.0,
        _ => panic!("not a number"),
    }
}

#[test]
fn region_on_scaled_monitor_gives_expected_physical_rect() {
    let m = monitor(0, 0, 1920, 1080, 1.5);
    let r = logical_region_to_physical_from_monitor(&m, &region(100.0, 50.0, 200.0, 150.0, 1.5));
    assert_eq!(r.unwrap(), rect(150, 75, 300, 225));
}

#[test]
fn region_is_offset_by_the_monitor_origin() {
    let m = monitor(-1920, 200, 1920, 1080, 1.0);
    let r = logical_region_to_physical_from_monitor(&m, &region(10.0, 20.0, 30.0, 40.0, 1.0));
    assert_eq!(r.unwrap(), rect(-1910, 220, 30, 40));
}

#[test]
fn region_outside_or_oversized_is_brought_onto_the_monitor() {
    let m = monitor(0, 0, 1920, 1080, 1.0);
    let cases = [
        region(-50.0, -60.0, 100.0, 100.0, 1.0),
        region(5_000.0, 5_000.0, 10.0, 10.0, 1.0),
        region(100.0, 100.0, 50_000.0, 50_000.0, 1.0),
        region(1_919.6, 1_079.6, 0.2, 0.2, 1.0),
        region(1e12, 1e12, 1e12, 1e12, 1.0),
        region(0.0, 0.0, 0.0001, 0.0001, 1.0),
        region(1_000.0, 500.0, 2_000.0, 1_000.0, 3.0),
    ];
    for case in cases {
        let r = logical_region_to_physical_from_monitor(&m, &case).unwrap();
        assert!(r.x >= 0 && r.y >= 0);
        assert!(r.width >= 1 && r.height >= 1);
        assert!(r.x as i64 + r.width as i64 <= 1920);
        assert!(r.y as i64 + r.height as i64 <= 1080);
    }
    let r = logical_region_to_physical_from_monitor(&m, &region(-50.0, -60.0, 100.0, 100.0, 1.0));
    assert_eq!(r.unwrap(), rect(0, 0, 100, 100));
    let r = logical_region_to_physical_from_monitor(&m, &region(5_000.0, 5_000.0, 10.0, 10.0, 1.0));
    assert_eq!(r.unwrap(), rect(1919, 1079, 1, 1));
    let r = logical_region_to_physical_from_monitor(&m, &region(100.0, 100.0, 50_000.0, 50_000.0, 1.0));
    assert_eq!(r.unwrap(), rect(100, 100, 1820, 980));
}

#[test]
fn region_without_positive_size_is_invalid() {
    let m = monitor(0, 0, 1920, 1080, 1.0);
    let mut cases = vec![
        region(0.0, 0.0, 0.0, 10.0, 1.0),
        region(0.0, 0.0, 10.0, 0.0, 1.0),
        region(0.0, 0.0, -1.0, 10.0, 1.0),
        region(0.0, 0.0, 10.0, -1.0, 1.0),
    ];
    for bad in [Logical::NotANumber, Logical::PositiveInfinity, Logical::NegativeInfinity] {
        let mut wide = region(0.0, 0.0, 10.0, 10.0, 1.0);
        wide.width = bad;
        cases.push(wide);
        let mut high = region(0.0, 0.0, 10.0, 10.0, 1.0);
        high.height = bad;
        cases.push(high);
    }
    for case in cases {
        let r = logical_region_to_physical_from_monitor(&m, &case);
        assert!(matches!(r, Err(OcrError::InvalidRegion)));
    }
}

#[test]
fn unusable_scale_gives_way_to_the_monitor_scale() {
    let m = monitor(0, 0, 3840, 2160, 2.0);
    for bad in [
        logical(0.0),
        logical(-1.5),
        Logical::NotANumber,
        Logical::PositiveInfinity,
        Logical::NegativeInfinity,
    ] {
        let mut case = region(100.0, 50.0, 200.0, 150.0, 1.0);
        case.scale_factor = bad;
        let r = logical_region_to_physical_from_monitor(&m, &case);
        assert_eq!(r.unwrap(), rect(200, 100, 400, 300));
    }
    let r = logical_region_to_physical_from_monitor(&m, &region(100.0, 50.0, 200.0, 150.0, 1.25));
    assert_eq!(r.unwrap(), rect(125, 63, 250, 188));
}

#[test]
fn origin_that_is_no_number_counts_as_zero_and_infinity_as_the_far_edge() {
    let m = monitor(0, 0, 800, 600, 1.0);
    let mut case = region(0.0, 0.0, 10.0, 10.0, 1.0);
    case.x = Logical::NotANumber;
    case.y = Logical::NegativeInfinity;
    let r = logical_region_to_physical_from_monitor(&m, &case);
    assert_eq!(r.unwrap(), rect(0, 0, 10, 10));
    case.x = Logical::PositiveInfinity;
    case.y = Logical::PositiveInfinity;
    let r = logical_region_to_physical_from_monitor(&m, &case);
    assert_eq!(r.unwrap(), rect(799, 599, 1, 1));
}

#[test]
fn half_pixels_round_away_from_zero() {
    let m = monitor(0, 0, 1000, 1000, 1.5);
    // 1 * 1.5 = 1.5 -> 2; 3 * 1.5 = 4.5 -> 5; 0.3 * 1.5 = 0.45 -> 0 -> at least 1.
    let r = logical_region_to_physical_from_monitor(&m, &region(1.0, 3.0, 1.0, 0.3, 1.5));
    assert_eq!(r.unwrap(), rect(2, 5, 2, 1));
    assert_eq!(Logical::Finite(65536).scale(Logical::Finite(32768)), 1);
    assert_eq!(Logical::Finite(-65536).scale(Logical::Finite(32768)), -1);
    assert_eq!(Logical::Finite(65536).scale(Logical::Finite(32767)), 0);
    assert_eq!(Logical::Finite(i64::MAX).scale(Logical::Finite(i64::MAX)), i32::MAX);
    assert_eq!(Logical::Finite(i64::MIN).scale(Logical::Finite(i64::MAX)), i32::MIN);
    assert_eq!(Logical::Finite(i64::MIN).scale(Logical::Finite(i64::MIN)), i32::MAX);
}

#[test]
fn products_with_what_is_no_number() {
    let two = logical(2.0);
    assert_eq!(Logical::NotANumber.scale(two), 0);
    assert_eq!(two.scale(Logical::NotANumber), 0);
    assert_eq!(Logical::PositiveInfinity.scale(two), i32::MAX);
    assert_eq!(Logical::PositiveInfinity.scale(logical(-2.0)), i32::MIN);
    assert_eq!(Logical::NegativeInfinity.scale(two), i32::MIN);
    assert_eq!(Logical::PositiveInfinity.scale(logical(0.0)), 0);
    assert_eq!(logical(0.0).scale(Logical::NegativeInfinity), 0);
    assert_eq!(Logical::NegativeInfinity.scale(Logical::NegativeInfinity), i32::MAX);
    assert_eq!(Logical::NegativeInfinity.at_least_zero(), Logical::Finite(0));
    assert_eq!(Logical::NotANumber.at_least_zero(), Logical::Finite(0));
    assert_eq!(logical(-4.0).at_least_zero(), Logical::Finite(0));
    assert_eq!(logical(4.0).at_least_zero(), logical(4.0));
    assert_eq!(Logical::PositiveInfinity.at_least_zero(), Logical::PositiveInfinity);
    assert_eq!(logical(0.0).effective_scale(two), two);
    assert_eq!(logical(3.0).effective_scale(two), logical(3.0));
}

#[test]
fn region_inside_monitor_comes_back_within_one_pixel() {
    for scale in [1.0, 1.25, 1.5, 1.75, 2.0, 3.0, 0.5, 7.0] {
        let m = monitor(100, -50, 2560, 1440, scale);
        let cases = [
            region(0.0, 0.0, 10.0, 10.0, scale),
            region(100.3, 50.7, 200.2, 150.9, scale),
            region(33.333, 66.667, 123.456, 78.9, scale),
            region(2559.0 / scale - 5.0, 1439.0 / scale - 5.0, 4.0, 4.0, scale),
        ];
        for case in cases {
            let physical = logical_region_to_physical_from_monitor(&m, &case).unwrap();
            let back = physical_to_logical_rect(physical, &m);
            let tolerance = 1.0 / scale;
            assert!((value(back.x) - value(case.x)).abs() <= tolerance);
            assert!((value(back.y) - value(case.y)).abs() <= tolerance);
            assert!((value(back.width) - value(case.width)).abs() <= tolerance);
            assert!((value(back.height) - value(case.height)).abs() <= tolerance);
        }
    }
}

#[test]
fn physical_rect_in_logical_pixels() {
    let m = monitor(0, 0, 1920, 1080, 1.5);
    let back = physical_to_logical_rect(rect(150, 75, 300, 225), &m);
    assert_eq!(
        back,
        LogicalRectPayload {
            x: logical(100.0),
            y: logical(50.0),
            width: logical(200.0),
            height: logical(150.0),
        }
    );
    let shifted = monitor(-1000, 500, 1920, 1080, 2.0);
    let back = physical_to_logical_rect(rect(-900, 501, 3, 5), &shifted);
    assert_eq!(
        back,
        LogicalRectPayload {
            x: logical(50.0),
            y: logical(0.5),
            width: logical(1.5),
            height: logical(2.5),
        }
    );
    // 1 / 3 is rounded to the nearest step: 21845.33 -> 21845.
    let third = monitor(0, 0, 100, 100, 3.0);
    let back = physical_to_logical_rect(rect(1, 2, 3, 4), &third);
    assert_eq!(back.x, Logical::Finite(21845));
    assert_eq!(back.y, Logical::Finite(43691));
    assert_eq!(back.width, Logical::Finite(65536));
    assert_eq!(back.height, Logical::Finite(87381));
}

#[test]
fn monitor_without_usable_scale_counts_as_unscaled_on_the_way_back() {
    for bad in [Logical::NotANumber, Logical::Finite(0), Logical::Finite(-5), Logical::PositiveInfinity] {
        let m = MonitorDescriptor::new(
            PhysicalPosition { x: 10, y: 20 },
            PhysicalSize { width: 100, height: 100 },
            bad,
        )
        .unwrap();
        let back = physical_to_logical_rect(rect(15, 27, 30, 40), &m);
        assert_eq!(
            back,
            LogicalRectPayload {
                x: logical(5.0),
                y: logical(7.0),
                width: logical(30.0),
                height: logical(40.0),
            }
        );
    }
}

#[test]
fn monitor_must_have_pixels_and_fit_the_coordinates() {
    let one = logical(1.0);
    let at = |x: i32, y: i32| PhysicalPosition { x, y };
    let of = |width: u32, height: u32| PhysicalSize { width, height };
    assert!(MonitorDescriptor::new(at(0, 0), of(0, 100), one).is_none());
    assert!(MonitorDescriptor::new(at(0, 0), of(100, 0), one).is_none());
    assert!(MonitorDescriptor::new(at(i32::MAX - 99, 0), of(100, 100), one).is_none());
    assert!(MonitorDescriptor::new(at(0, i32::MAX - 99), of(100, 100), one).is_none());
    assert!(MonitorDescriptor::new(at(i32::MAX - 100, i32::MAX - 100), of(100, 100), one).is_some());
    assert!(MonitorDescriptor::new(at(i32::MIN, i32::MIN), of(u32::MAX, u32::MAX), one).is_some());
    let m = MonitorDescriptor::new(at(-5, 7), of(640, 480), logical(1.25)).unwrap();
    assert_eq!(m.position(), at(-5, 7));
    assert_eq!(m.size(), of(640, 480));
    assert_eq!(m.scale_factor(), logical(1.25));
    assert_eq!(m.bounds(), rect(-5, 7, 640, 480));
}

#[test]
fn rect_is_cut_to_the_monitor() {
    let m = monitor(100, 100, 800, 600, 1.0);
    assert_eq!(clamp_rect_to_monitor(rect(200, 200, 50, 60), &m), rect(200, 200, 50, 60));
    assert_eq!(clamp_rect_to_monitor(rect(50, 60, 100, 100), &m), rect(100, 100, 50, 60));
    assert_eq!(clamp_rect_to_monitor(rect(850, 650, 100, 100), &m), rect(850, 650, 50, 50));
    assert_eq!(clamp_rect_to_monitor(rect(0, 0, 5_000, 5_000), &m), rect(100, 100, 800, 600));
    let beside = clamp_rect_to_monitor(rect(1_000, 200, 50, 60), &m);
    assert_eq!(beside.width, 0);
    let above = clamp_rect_to_monitor(rect(200, -500, 50, 60), &m);
    assert_eq!(above.height, 0);
    let huge = clamp_rect_to_monitor(rect(i32::MAX, i32::MAX, u32::MAX, u32::MAX), &m);
    assert_eq!((huge.width, huge.height), (0, 0));
    let wrapping = clamp_rect_to_monitor(rect(i32::MIN, i32::MIN, u32::MAX, u32::MAX), &m);
    assert_eq!(wrapping, rect(100, 100, 800, 600));
}

#[test]
fn point_is_scaled_and_kept_on_the_monitor() {
    let m = monitor(1920, 0, 2560, 1440, 1.25);
    let at = |x: f64, y: f64, scale: f64| CapturePoint {
        x: logical(x),
        y: logical(y),
        scale_factor: logical(scale),
    };
    assert_eq!(
        logical_point_to_physical(&m, &at(100.0, 200.0, 1.25)),
        PhysicalPosition { x: 1920 + 125, y: 250 }
    );
    assert_eq!(
        logical_point_to_physical(&m, &at(100.0, 200.0, 0.0)),
        PhysicalPosition { x: 1920 + 125, y: 250 }
    );
    assert_eq!(
        logical_point_to_physical(&m, &at(-10.0, -10.0, 1.25)),
        PhysicalPosition { x: 1920, y: 0 }
    );
    assert_eq!(
        logical_point_to_physical(&m, &at(1e9, 1e9, 1.25)),
        PhysicalPosition { x: 1920 + 2559, y: 1439 }
    );
}
