use snapparse::geometry::{
    Logical, MonitorDescriptor, PhysicalCaptureRect, PhysicalPosition, PhysicalSize,
};
use snapparse::ocr::capture::{
    capture_window_and_monitor, data_url_from_base64, parse_capture_mode, plan_capture,
    png_data_url, preview_payload, window_capture_hint, window_capture_rect, CaptureStep,
    MonitorReport, ScreenshotCaptureRequest,
};
use snapparse::ocr::error::OcrError;
use snapparse::ocr::transform::{CapturePoint, LogicalRectPayload, OcrCaptureRegion};
use snapparse::ocr::window_lookup::{resolve_window_rect_at_point, NativeRect, WindowCandidate};
use snapparse::settings::model::CaptureMode;

fn whole(value: i64) -> Logical {
    Logical::Finite(value * 65536)
}

fn full_hd() -> MonitorDescriptor {
    MonitorDescriptor::new(
        PhysicalPosition { x: 0, y: 0 },
        PhysicalSize { width: 1920, height: 1080 },
        Logical::Finite(98304),
    )
    .unwrap()
}

fn request(mode: &str) -> ScreenshotCaptureRequest {
    ScreenshotCaptureRequest { mode: mode.to_string(), region: None, point: None }
}

fn candidate(process_id: u32, bounds: (i32, i32, i32, i32)) -> WindowCandidate {
    WindowCandidate {
        process_id,
        visible: true,
        minimized: false,
        bounds: Some(NativeRect {
            left: bounds.0,
            top: bounds.1,
            right: bounds.2,
            bottom: bounds.3,
        }),
    }
}

#[test]
fn capture_mode_tags_are_read_letter_for_letter() {
    assert_eq!(parse_capture_mode("region"), Some(CaptureMode::Region));
    assert_eq!(parse_capture_mode("fullscreen"), Some(CaptureMode::Fullscreen));
    assert_eq!(parse_capture_mode("window"), Some(CaptureMode::Window));
    assert_eq!(parse_capture_mode("Region"), None);
    assert_eq!(parse_capture_mode(" window"), None);
    assert_eq!(parse_capture_mode(""), None);
}

#[test]
fn region_request_gives_the_rect_to_capture() {
    let mut r = request("region");
    r.region = Some(OcrCaptureRegion {
        x: whole(100),
        y: whole(50),
        width: whole(200),
        height: whole(150),
        scale_factor: Logical::Finite(98304),
    });
    let step = plan_capture(&full_hd(), &r).unwrap();
    assert_eq!(
        step,
        CaptureStep::Capture(PhysicalCaptureRect { x: 150, y: 75, width: 300, height: 225 })
    );
}

#[test]
fn fullscreen_request_gives_the_whole_monitor() {
    let step = plan_capture(&full_hd(), &request("fullscreen")).unwrap();
    assert_eq!(
        step,
        CaptureStep::Capture(PhysicalCaptureRect { x: 0, y: 0, width: 1920, height: 1080 })
    );
}

#[test]
fn window_request_asks_for_the_window_under_the_pixel() {
    let mut r = request("window");
    r.point = Some(CapturePoint { x: whole(100), y: whole(200), scale_factor: Logical::NotANumber });
    let step = plan_capture(&full_hd(), &r).unwrap();
    assert_eq!(step, CaptureStep::FindWindow(PhysicalPosition { x: 150, y: 300 }));
}

#[test]
fn unknown_mode_is_unsupported() {
    match plan_capture(&full_hd(), &request("lasso")) {
        Err(OcrError::UnsupportedMode(mode)) => assert_eq!(mode, "lasso"),
        other => panic!("unexpected outcome: {:?}", other),
    }
}

#[test]
fn request_without_what_its_mode_needs_is_an_invalid_region() {
    assert!(matches!(plan_capture(&full_hd(), &request("region")), Err(OcrError::InvalidRegion)));
    assert!(matches!(plan_capture(&full_hd(), &request("window")), Err(OcrError::InvalidRegion)));
    let mut r = request("region");
    r.region = Some(OcrCaptureRegion {
        x: whole(0),
        y: whole(0),
        width: whole(0),
        height: whole(10),
        scale_factor: whole(1),
    });
    assert!(matches!(plan_capture(&full_hd(), &r), Err(OcrError::InvalidRegion)));
}

#[test]
fn window_mode_over_no_foreign_window_is_window_not_found() {
    let monitor = full_hd();
    let mut r = request("window");
    r.point = Some(CapturePoint { x: whole(10), y: whole(10), scale_factor: whole(1) });
    let step = plan_capture(&monitor, &r).unwrap();
    assert!(matches!(step, CaptureStep::FindWindow(_)));
    let own_only = vec![candidate(77, (0, 0, 500, 500))];
    let found = resolve_window_rect_at_point(&own_only, 77);
    assert_eq!(found, None);
    assert!(matches!(window_capture_rect(&monitor, found), Err(OcrError::WindowNotFound)));
    let nothing = resolve_window_rect_at_point(&Vec::new(), 77);
    assert!(matches!(window_capture_rect(&monitor, nothing), Err(OcrError::WindowNotFound)));
    assert_eq!(window_capture_hint(&monitor, None), None);
}

#[test]
fn found_window_is_cut_to_the_monitor() {
    let monitor = full_hd();
    let found = Some(PhysicalCaptureRect { x: -8, y: -8, width: 1936, height: 1056 });
    let rect = window_capture_rect(&monitor, found).unwrap();
    assert_eq!(rect, PhysicalCaptureRect { x: 0, y: 0, width: 1920, height: 1048 });
    let hint = window_capture_hint(&monitor, found).unwrap();
    assert_eq!(
        hint,
        LogicalRectPayload {
            x: whole(0),
            y: whole(0),
            width: whole(1280),
            height: Logical::Finite(1048 * 65536 * 2 / 3 + 1),
        }
    );
}

#[test]
fn window_off_the_monitor_is_an_invalid_region() {
    let monitor = full_hd();
    let found = Some(PhysicalCaptureRect { x: 5_000, y: 10, width: 300, height: 300 });
    assert!(matches!(window_capture_rect(&monitor, found), Err(OcrError::InvalidRegion)));
    assert_eq!(window_capture_hint(&monitor, found), None);
}

#[test]
fn first_qualifying_window_is_taken() {
    let windows = vec![
        candidate(1, (0, 0, 100, 100)),
        WindowCandidate { visible: false, ..candidate(2, (0, 0, 200, 200)) },
        WindowCandidate { minimized: true, ..candidate(3, (0, 0, 300, 300)) },
        WindowCandidate { bounds: None, ..candidate(4, (0, 0, 0, 0)) },
        candidate(5, (10, 10, 12, 400)),
        candidate(6, (10, 10, 400, 12)),
        candidate(7, (10, 20, 13, 23)),
        candidate(8, (0, 0, 900, 900)),
    ];
    assert_eq!(
        resolve_window_rect_at_point(&windows, 1),
        Some(PhysicalCaptureRect { x: 10, y: 20, width: 3, height: 3 })
    );
    assert_eq!(
        resolve_window_rect_at_point(&windows, 7),
        Some(PhysicalCaptureRect { x: 0, y: 0, width: 100, height: 100 })
    );
    assert_eq!(
        windows[7].capture_rect(1),
        Some(PhysicalCaptureRect { x: 0, y: 0, width: 900, height: 900 })
    );
    assert_eq!(windows[7].capture_rect(8), None);
}

#[test]
fn window_extent_stops_at_the_range_of_the_coordinates() {
    let wide = candidate(2, (i32::MIN, i32::MIN, i32::MAX, i32::MAX));
    assert_eq!(
        wide.capture_rect(1),
        Some(PhysicalCaptureRect {
            x: i32::MIN,
            y: i32::MIN,
            width: i32::MAX as u32,
            height: i32::MAX as u32,
        })
    );
    let inverted = candidate(2, (100, 100, 0, 0));
    assert_eq!(inverted.capture_rect(1), None);
}

#[test]
fn picture_becomes_a_data_url() {
    assert_eq!(png_data_url(b"hello"), "data:image/png;base64,aGVsbG8=");
    assert_eq!(png_data_url(b""), "data:image/png;base64,");
    assert_eq!(png_data_url(&[0xfb, 0xff, 0xfe]), "data:image/png;base64,+//+");
    assert_eq!(data_url_from_base64("QUJD"), "data:image/png;base64,QUJD");
    let payload = preview_payload(
        &full_hd(),
        PhysicalCaptureRect { x: 150, y: 75, width: 300, height: 225 },
        b"ab",
    );
    assert_eq!(payload.data_url, "data:image/png;base64,YWI=");
    assert_eq!(
        payload.logical_rect,
        LogicalRectPayload { x: whole(100), y: whole(50), width: whole(200), height: whole(150) }
    );
}

#[test]
fn every_capture_error_has_its_message() {
    let detail = || String::from("boom");
    let cases = [
        (OcrError::Disabled, "OCR 未启用，请先在设置中开启"),
        (OcrError::EmptyApiKey, "OCR API Key 为空"),
        (OcrError::EmptyModel, "OCR 模型名称为空"),
        (OcrError::InvalidRegion, "OCR 选区无效"),
        (OcrError::UnsupportedMode(detail()), "截屏模式不支持：boom"),
        (OcrError::WindowNotFound, "未找到可截取窗口"),
        (OcrError::CaptureWindowUnavailable, "OCR 截图窗口不可用"),
        (OcrError::MonitorUnavailable, "当前未找到可用显示器"),
        (OcrError::CaptureFailure(detail()), "截图失败：boom"),
        (OcrError::Http(detail()), "网络请求失败：boom"),
        (OcrError::Encode(detail()), "图像编码失败：boom"),
        (OcrError::EmptyResponse, "OCR 响应为空"),
        (OcrError::Settings(detail()), "读取设置失败：boom"),
    ];
    for (error, expected) in cases {
        assert_eq!(error.message(), expected);
    }
}

#[test]
fn monitor_of_the_overlay_is_checked_before_anything_is_captured() {
    let report = MonitorReport {
        position: PhysicalPosition { x: 10, y: 20 },
        size: PhysicalSize { width: 800, height: 600 },
        scale_factor: Logical::Finite(65536),
    };
    let monitor = capture_window_and_monitor(true, Ok(Some(report))).unwrap();
    assert_eq!(monitor.position(), report.position);
    assert_eq!(monitor.size(), report.size);
    assert_eq!(monitor.scale_factor(), report.scale_factor);

    assert!(matches!(
        capture_window_and_monitor(false, Ok(Some(report))),
        Err(OcrError::CaptureWindowUnavailable)
    ));
    assert!(matches!(
        capture_window_and_monitor(false, Err(String::from("gone"))),
        Err(OcrError::CaptureWindowUnavailable)
    ));
    match capture_window_and_monitor(true, Err(String::from("gone"))) {
        Err(OcrError::CaptureFailure(reason)) => assert_eq!(reason, "gone"),
        other => panic!("unexpected outcome: {:?}", other.map(|m| m.bounds())),
    }
    assert!(matches!(capture_window_and_monitor(true, Ok(None)), Err(OcrError::MonitorUnavailable)));
    let empty = MonitorReport { size: PhysicalSize { width: 0, height: 600 }, ..report };
    assert!(matches!(
        capture_window_and_monitor(true, Ok(Some(empty))),
        Err(OcrError::MonitorUnavailable)
    ));
}
