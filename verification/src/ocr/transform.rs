//! From a logical region or point to the physical pixels of a monitor, and
//! back.

use crate::geometry::{
    clamp_between, round_ratio, saturate_i64, Logical, MonitorDescriptor, MonitorView,
    PhysicalCaptureRect, PhysicalPosition, LOGICAL_UNIT,
};
use crate::ocr::error::OcrError;
use vstd::prelude::*;

verus! {

/// A region that the user marked, in logical pixels from the monitor's first
/// pixel, with the scale factor that the marking side believed in.
#[derive(Debug, Clone, Copy, PartialEq, Eq, Structural)]
pub struct OcrCaptureRegion {
    pub x: Logical,
    pub y: Logical,
    pub width: Logical,
    pub height: Logical,
    pub scale_factor: Logical,
}

/// A point in logical pixels from the monitor's first pixel, with the scale
/// factor that the pointing side believed in.
#[derive(Debug, Clone, Copy, PartialEq, Eq, Structural)]
pub struct CapturePoint {
    pub x: Logical,
    pub y: Logical,
    pub scale_factor: Logical,
}

/// A rectangle in logical pixels from the monitor's first pixel.
#[derive(Debug, Clone, Copy, PartialEq, Eq, Structural)]
pub struct LogicalRectPayload {
    pub x: Logical,
    pub y: Logical,
    pub width: Logical,
    pub height: Logical,
}

impl OcrCaptureRegion {
    /// A region can be captured where its width and its height are numbers
    /// greater than 0.
    pub open spec fn is_valid(self) -> bool {
        self.width.is_positive_finite() && self.height.is_positive_finite()
    }
}

/// The offset within `extent` pixels at which a logical coordinate lies once
/// scaled: never before the first pixel nor behind the last.
pub open spec fn offset_within(extent: int, start: Logical, scale: Logical) -> int {
    clamp_between(start.or_zero().scaled_by(scale), 0, extent - 1)
}

/// The number of pixels that a logical length covers once scaled, from
/// `offset` on: at least 1, and no more than are left of `extent`.
pub open spec fn length_within(extent: int, offset: int, length: Logical, scale: Logical) -> int {
    let wanted = if length.scaled_by(scale) < 1 {
        1
    } else {
        length.scaled_by(scale)
    };
    if wanted > extent - offset {
        extent - offset
    } else {
        wanted
    }
}

/// The physical rectangle of a valid region on a monitor.
pub open spec fn region_on_monitor(monitor: MonitorView, region: OcrCaptureRegion) -> PhysicalCaptureRect {
    let scale = region.scale_factor.scale_or(monitor.scale_factor);
    let left = offset_within(monitor.extent_x(), region.x, scale);
    let top = offset_within(monitor.extent_y(), region.y, scale);
    PhysicalCaptureRect {
        x: (monitor.position.x + left) as i32,
        y: (monitor.position.y + top) as i32,
        width: length_within(monitor.extent_x(), left, region.width, scale) as u32,
        height: length_within(monitor.extent_y(), top, region.height, scale) as u32,
    }
}

/// The physical pixel of a logical point on a monitor.
pub open spec fn point_on_monitor(monitor: MonitorView, point: CapturePoint) -> PhysicalPosition {
    let scale = point.scale_factor.scale_or(monitor.scale_factor);
    PhysicalPosition {
        x: (monitor.position.x + offset_within(monitor.extent_x(), point.x, scale)) as i32,
        y: (monitor.position.y + offset_within(monitor.extent_y(), point.y, scale)) as i32,
    }
}

/// A number of physical pixels as a logical measure at scale `scale / 65536`:
/// the nearest step, a tie away from zero.
pub open spec fn to_logical(pixels: int, scale: int) -> Logical
    recommends
        scale > 0,
{
    Logical::Finite(
        saturate_i64(round_ratio(pixels * LOGICAL_UNIT * LOGICAL_UNIT, scale)) as i64,
    )
}

/// The logical rectangle of a physical one, seen from the monitor's first
/// pixel.
pub open spec fn rect_in_logical(monitor: MonitorView, rect: PhysicalCaptureRect) -> LogicalRectPayload {
    LogicalRectPayload {
        x: to_logical(rect.x - monitor.position.x, monitor.unit_scale()),
        y: to_logical(rect.y - monitor.position.y, monitor.unit_scale()),
        width: to_logical(rect.width as int, monitor.unit_scale()),
        height: to_logical(rect.height as int, monitor.unit_scale()),
    }
}

/// The part of `rect` that lies on the monitor. Where they share no pixel,
/// the width or the height is 0.
pub open spec fn rect_on_monitor(monitor: MonitorView, rect: PhysicalCaptureRect) -> PhysicalCaptureRect {
    let left = if rect.x > monitor.position.x {
        rect.x
    } else {
        monitor.position.x
    };
    let top = if rect.y > monitor.position.y {
        rect.y
    } else {
        monitor.position.y
    };
    let right = if rect.x + rect.width < monitor.position.x + monitor.size.width {
        rect.x + rect.width
    } else {
        monitor.position.x + monitor.size.width
    };
    let bottom = if rect.y + rect.height < monitor.position.y + monitor.size.height {
        rect.y + rect.height
    } else {
        monitor.position.y + monitor.size.height
    };
    PhysicalCaptureRect {
        x: left,
        y: top,
        width: if right > left {
            (right - left) as u32
        } else {
            0
        },
        height: if bottom > top {
            (bottom - top) as u32
        } else {
            0
        },
    }
}

fn extent_of(size: u32) -> (extent: i64)
    ensures
        extent == if size > i32::MAX {
            i32::MAX as int
        } else {
            size as int
        },
{
    if size > i32::MAX as u32 {
        i32::MAX as i64
    } else {
        size as i64
    }
}

fn offset_in(extent: i64, start: Logical, scale: Logical) -> (offset: i64)
    requires
        1 <= extent <= i32::MAX,
    ensures
        offset == offset_within(extent as int, start, scale),
        0 <= offset < extent,
{
    let raw: i64 = start.at_least_zero().scale(scale) as i64;
    if raw < 0 {
        0
    } else if raw > extent - 1 {
        extent - 1
    } else {
        raw
    }
}

fn length_in(extent: i64, offset: i64, length: Logical, scale: Logical) -> (pixels: i64)
    requires
        1 <= extent <= i32::MAX,
        0 <= offset < extent,
    ensures
        pixels == length_within(extent as int, offset as int, length, scale),
        1 <= pixels <= extent - offset,
{
    let raw: i64 = length.scale(scale) as i64;
    let wanted: i64 = if raw < 1 {
        1
    } else {
        raw
    };
    if wanted > extent - offset {
        extent - offset
    } else {
        wanted
    }
}

fn is_positive(value: Logical) -> (positive: bool)
    ensures
        positive == value.is_positive_finite(),
{
    match value {
        Logical::Finite(raw) => raw > 0,
        _ => false,
    }
}

/// Turns a logical region into the physical rectangle to capture.
///
/// A region whose width or height is no number, or not above 0, is refused.
/// Any other region gives a rectangle of at least one pixel each way that
/// lies on the monitor: the origin is moved onto the monitor, and the size is
/// cut to what is left of the monitor from there.
pub fn logical_region_to_physical_from_monitor(
    monitor: &MonitorDescriptor,
    region: &OcrCaptureRegion,
) -> (result: Result<PhysicalCaptureRect, OcrError>)
    ensures
        region.is_valid() ==> result == Ok::<PhysicalCaptureRect, OcrError>(
            region_on_monitor(monitor@, *region),
        ),
        region.is_valid() ==> monitor@.contains(region_on_monitor(monitor@, *region)),
        !region.is_valid() ==> result == Err::<PhysicalCaptureRect, OcrError>(
            OcrError::InvalidRegion,
        ),
{
    if !is_positive(region.width) || !is_positive(region.height) {
        return Err(OcrError::InvalidRegion);
    }
    let scale = region.scale_factor.effective_scale(monitor.scale_factor());
    let position = monitor.position();
    let size = monitor.size();
    let extent_x = extent_of(size.width);
    let extent_y = extent_of(size.height);

    let left = offset_in(extent_x, region.x, scale);
    let top = offset_in(extent_y, region.y, scale);
    let width = length_in(extent_x, left, region.width, scale);
    let height = length_in(extent_y, top, region.height, scale);

    Ok(
        PhysicalCaptureRect {
            x: (position.x as i64 + left) as i32,
            y: (position.y as i64 + top) as i32,
            width: width as u32,
            height: height as u32,
        },
    )
}

/// Turns a logical point into the physical pixel under it, which is always a
/// pixel of the monitor.
pub fn logical_point_to_physical(monitor: &MonitorDescriptor, point: &CapturePoint) -> (pixel:
    PhysicalPosition)
    ensures
        pixel == point_on_monitor(monitor@, *point),
        monitor@.position.x <= pixel.x < monitor@.position.x + monitor@.size.width,
        monitor@.position.y <= pixel.y < monitor@.position.y + monitor@.size.height,
{
    let scale = point.scale_factor.effective_scale(monitor.scale_factor());
    let position = monitor.position();
    let size = monitor.size();
    let left = offset_in(extent_of(size.width), point.x, scale);
    let top = offset_in(extent_of(size.height), point.y, scale);
    PhysicalPosition { x: (position.x as i64 + left) as i32, y: (position.y as i64 + top) as i32 }
}

/// Cuts a physical rectangle to the part of it that lies on the monitor.
pub fn clamp_rect_to_monitor(rect: PhysicalCaptureRect, monitor: &MonitorDescriptor) -> (clamped:
    PhysicalCaptureRect)
    ensures
        clamped == rect_on_monitor(monitor@, rect),
        clamped.width > 0 && clamped.height > 0 ==> monitor@.contains(clamped),
        clamped.width <= rect.width,
        clamped.height <= rect.height,
{
    let position = monitor.position();
    let size = monitor.size();
    let monitor_right: i64 = position.x as i64 + size.width as i64;
    let monitor_bottom: i64 = position.y as i64 + size.height as i64;
    let rect_right: i64 = rect.x as i64 + rect.width as i64;
    let rect_bottom: i64 = rect.y as i64 + rect.height as i64;

    let left: i32 = if rect.x > position.x {
        rect.x
    } else {
        position.x
    };
    let top: i32 = if rect.y > position.y {
        rect.y
    } else {
        position.y
    };
    let right: i64 = if rect_right < monitor_right {
        rect_right
    } else {
        monitor_right
    };
    let bottom: i64 = if rect_bottom < monitor_bottom {
        rect_bottom
    } else {
        monitor_bottom
    };

    PhysicalCaptureRect {
        x: left,
        y: top,
        width: if right > left as i64 {
            (right - left as i64) as u32
        } else {
            0
        },
        height: if bottom > top as i64 {
            (bottom - top as i64) as u32
        } else {
            0
        },
    }
}

fn unit_scale_of(monitor: &MonitorDescriptor) -> (scale: i64)
    ensures
        scale == monitor@.unit_scale(),
        scale > 0,
{
    match monitor.scale_factor() {
        Logical::Finite(raw) => if raw > 0 {
            raw
        } else {
            LOGICAL_UNIT
        },
        _ => LOGICAL_UNIT,
    }
}

fn pixels_to_logical(pixels: i64, scale: i64) -> (value: Logical)
    requires
        -0x1_0000_0000 <= pixels <= 0x1_0000_0000,
        scale > 0,
    ensures
        value == to_logical(pixels as int, scale as int),
{
    let numerator: i128 = (pixels as i128) * 0x1_0000_0000;
    let divisor: i128 = 2 * (scale as i128);
    let rounded: i128 = if numerator >= 0 {
        (2 * numerator + scale as i128) / divisor
    } else {
        -((2 * (-numerator) + scale as i128) / divisor)
    };
    if rounded < i64::MIN as i128 {
        Logical::Finite(i64::MIN)
    } else if rounded > i64::MAX as i128 {
        Logical::Finite(i64::MAX)
    } else {
        Logical::Finite(rounded as i64)
    }
}

/// Turns a physical rectangle into logical pixels from the monitor's first
/// pixel, at the monitor's scale factor; at 1 where the monitor reports a
/// scale that is no number or not above 0.
pub fn physical_to_logical_rect(rect: PhysicalCaptureRect, monitor: &MonitorDescriptor) -> (logical:
    LogicalRectPayload)
    ensures
        logical == rect_in_logical(monitor@, rect),
{
    let scale = unit_scale_of(monitor);
    let position = monitor.position();
    LogicalRectPayload {
        x: pixels_to_logical(rect.x as i64 - position.x as i64, scale),
        y: pixels_to_logical(rect.y as i64 - position.y as i64, scale),
        width: pixels_to_logical(rect.width as i64, scale),
        height: pixels_to_logical(rect.height as i64, scale),
    }
}

/// Whatever pixels a valid region asks for, the rectangle that is captured
/// has at least one pixel each way and lies on the monitor: seen from the
/// monitor's first pixel, `0 <= x`, `0 <= y`, `x + width` is at most the
/// monitor's width and `y + height` at most its height.
pub proof fn lemma_region_lies_on_monitor(monitor: MonitorView, region: OcrCaptureRegion)
    requires
        monitor.well_formed(),
        region.is_valid(),
    ensures
        monitor.contains(region_on_monitor(monitor, region)),
        0 <= region_on_monitor(monitor, region).x - monitor.position.x,
        0 <= region_on_monitor(monitor, region).y - monitor.position.y,
        region_on_monitor(monitor, region).x - monitor.position.x + region_on_monitor(
            monitor,
            region,
        ).width <= monitor.size.width,
        region_on_monitor(monitor, region).y - monitor.position.y + region_on_monitor(
            monitor,
            region,
        ).height <= monitor.size.height,
{
}

/// Whether `back` lies within one physical pixel of `before`, that is within
/// `1 / scale` logical pixels. Both are numbers; `scale` counts steps of
/// 1/65536.
pub open spec fn within_one_pixel(before: Logical, back: Logical, scale: int) -> bool {
    match (before, back) {
        (Logical::Finite(a), Logical::Finite(b)) => {
            &&& (b - a) * scale <= LOGICAL_UNIT * LOGICAL_UNIT
            &&& (a - b) * scale <= LOGICAL_UNIT * LOGICAL_UNIT
        },
        _ => false,
    }
}

/// Whether the stretch from `start` over `length`, at `scale`, ends within
/// `extent` physical pixels. All three are numbers; `start` is not below 0.
pub open spec fn stretch_fits(extent: int, start: Logical, length: Logical, scale: Logical) -> bool {
    match (start, length, scale) {
        (Logical::Finite(a), Logical::Finite(l), Logical::Finite(s)) => {
            &&& a >= 0
            &&& (a + l) * s <= extent * LOGICAL_UNIT * LOGICAL_UNIT
        },
        _ => false,
    }
}

proof fn lemma_round_ratio_error(n: int, d: int)
    by (nonlinear_arith)
    requires
        d > 0,
    ensures
        -d <= 2 * (round_ratio(n, d) * d - n) <= d,
        n >= 0 ==> round_ratio(n, d) >= 0,
{
    if n >= 0 {
        let q = (2 * n + d) / (2 * d);
        assert(2 * d * q <= 2 * n + d < 2 * d * q + 2 * d);
    } else {
        let q = (2 * (-n) + d) / (2 * d);
        assert(2 * d * q <= 2 * (-n) + d < 2 * d * q + 2 * d);
    }
}

proof fn lemma_products(a: int, l: int, s: int)
    by (nonlinear_arith)
    requires
        a >= 0,
        l >= 1,
        s >= 1,
    ensures
        a * s >= 0,
        l * s >= s,
        (a + l) * s == a * s + l * s,
{
}

proof fn lemma_scale_difference(a: int, b: int, c: int, s: int)
    by (nonlinear_arith)
    requires
        s >= 1,
        (a <= c <= b) || (b <= c <= a),
    ensures
        (b - a) * s == b * s - a * s,
        (a - b) * s == -((b - a) * s),
        (a - c) * s == -((c - a) * s),
        (b - a) >= 0 ==> 0 <= (c - a) * s <= (b - a) * s,
        (b - a) <= 0 ==> 0 <= (a - c) * s <= (a - b) * s,
{
}

/// A ratio that lies less than a half from a whole number rounds to it.
proof fn lemma_round_ratio_near(n: int, d: int, a: int)
    by (nonlinear_arith)
    requires
        d > 0,
        -d < 2 * (n - a * d) < d,
    ensures
        round_ratio(n, d) == a,
{
    if n >= 0 {
        let q = (2 * n + d) / (2 * d);
        assert(2 * d * q <= 2 * n + d < 2 * d * q + 2 * d);
        assert(2 * d * a < 2 * n + d < 2 * d * a + 2 * d);
        assert(q == a) by {
            if q < a {
                assert(2 * d * (q + 1) <= 2 * d * a);
            }
            if q > a {
                assert(2 * d * (a + 1) <= 2 * d * q);
            }
        }
    } else {
        let q = (2 * (-n) + d) / (2 * d);
        assert(2 * d * q <= 2 * (-n) + d < 2 * d * q + 2 * d);
        assert(2 * d * (-a) < 2 * (-n) + d < 2 * d * (-a) + 2 * d);
        assert(q == -a) by {
            if q < -a {
                assert(2 * d * (q + 1) <= 2 * d * (-a));
            }
            if q > -a {
                assert(2 * d * (-a + 1) <= 2 * d * q);
            }
        }
    }
}

/// How far the pixels of a stretch that fits can lie from the exact product:
/// half a pixel, or a pixel less one step of the scale where the stretch was
/// moved or cut to stay on the monitor.
spec fn pixel_slack(s: int) -> int {
    let unit = LOGICAL_UNIT * LOGICAL_UNIT;
    if 2 * s <= unit {
        unit - s
    } else {
        unit / 2
    }
}

/// One axis of the way there and back: a stretch that fits comes back within
/// one physical pixel.
proof fn lemma_axis_round_trip(extent: int, a: i64, l: i64, s: i64)
    requires
        1 <= extent <= i32::MAX,
        a >= 0,
        l >= 1,
        s >= 1,
        (a + l) * s <= extent * LOGICAL_UNIT * LOGICAL_UNIT,
    ensures
        ({
            let offset = offset_within(extent, Logical::Finite(a), Logical::Finite(s));
            let length = length_within(extent, offset, Logical::Finite(l), Logical::Finite(s));
            &&& within_one_pixel(Logical::Finite(a), to_logical(offset, s as int), s as int)
            &&& within_one_pixel(Logical::Finite(l), to_logical(length, s as int), s as int)
        }),
{
    let unit = LOGICAL_UNIT * LOGICAL_UNIT;
    assert(unit == 0x1_0000_0000);
    let a_s = a * s;
    let l_s = l * s;
    lemma_products(a as int, l as int, s as int);
    let scale = Logical::Finite(s);
    lemma_round_ratio_error(a_s, unit);
    lemma_round_ratio_error(l_s, unit);
    let offset = offset_within(extent, Logical::Finite(a), scale);
    let length = length_within(extent, offset, Logical::Finite(l), scale);
    assert(-pixel_slack(s as int) <= offset * unit - a_s <= pixel_slack(s as int));
    assert(-pixel_slack(s as int) <= length * unit - l_s <= pixel_slack(s as int));

    lemma_back_within(a as int, offset, s as int);
    lemma_back_within(l as int, length, s as int);
}

/// A number of pixels that lies as close to `a * s / 2^32` as a stretch that
/// fits comes back within one pixel of `a`.
proof fn lemma_back_within(a: int, pixels: int, s: int)
    requires
        i64::MIN <= a <= i64::MAX,
        s >= 1,
        -pixel_slack(s) <= pixels * (LOGICAL_UNIT * LOGICAL_UNIT) - a * s <= pixel_slack(s),
    ensures
        within_one_pixel(Logical::Finite(a as i64), to_logical(pixels, s), s),
{
    let unit = LOGICAL_UNIT * LOGICAL_UNIT;
    assert(unit == 0x1_0000_0000);
    let n = pixels * LOGICAL_UNIT * LOGICAL_UNIT;
    assert(n == pixels * unit) by (nonlinear_arith)
        requires
            n == pixels * LOGICAL_UNIT * LOGICAL_UNIT,
            unit == LOGICAL_UNIT * LOGICAL_UNIT,
    ;
    let exact = round_ratio(n, s);
    let back = saturate_i64(exact);
    if s <= unit {
        lemma_round_ratio_error(n, s);
        assert(exact * s - a * s <= unit);
        assert(a * s - exact * s <= unit);
        lemma_scale_difference(a, exact, back, s);
    } else {
        // A step of the logical measure is larger than a pixel: the way back
        // is exact.
        lemma_round_ratio_near(n, s, a);
        assert((back - a) * s == 0 && (a - back) * s == 0) by (nonlinear_arith)
            requires
                back == a,
        ;
    }
}

/// A region that lies on the monitor, taken to physical pixels and back at
/// the monitor's scale factor, comes back within one physical pixel, that is
/// within `1 / scale` logical pixels, in its origin and in its size.
pub proof fn lemma_round_trip(monitor: MonitorView, region: OcrCaptureRegion)
    requires
        monitor.well_formed(),
        monitor.scale_factor.is_positive_finite(),
        region.is_valid(),
        region.scale_factor.scale_or(monitor.scale_factor) == monitor.scale_factor,
        stretch_fits(monitor.extent_x(), region.x, region.width, monitor.scale_factor),
        stretch_fits(monitor.extent_y(), region.y, region.height, monitor.scale_factor),
    ensures
        ({
            let back = rect_in_logical(monitor, region_on_monitor(monitor, region));
            &&& within_one_pixel(region.x, back.x, monitor.unit_scale())
            &&& within_one_pixel(region.y, back.y, monitor.unit_scale())
            &&& within_one_pixel(region.width, back.width, monitor.unit_scale())
            &&& within_one_pixel(region.height, back.height, monitor.unit_scale())
        }),
{
    let s = monitor.scale_factor->Finite_0;
    lemma_axis_round_trip(monitor.extent_x(), region.x->Finite_0, region.width->Finite_0, s);
    lemma_axis_round_trip(monitor.extent_y(), region.y->Finite_0, region.height->Finite_0, s);
}

} // verus!
