//! From a capture request to the rectangle whose pixels are taken, and from
//! the pixels to what is shown of them.

use crate::geometry::{
    Logical, MonitorDescriptor, MonitorView, PhysicalCaptureRect, PhysicalPosition, PhysicalSize,
};
use crate::ocr::error::OcrError;
use crate::ocr::hotkeys::capture_mode_tag;
use crate::ocr::transform::{
    clamp_rect_to_monitor, logical_point_to_physical, logical_region_to_physical_from_monitor,
    physical_to_logical_rect, point_on_monitor, rect_in_logical, rect_on_monitor,
    region_on_monitor, CapturePoint, LogicalRectPayload, OcrCaptureRegion,
};
use crate::settings::model::CaptureMode;
use crate::text::str_eq;
use base64::Engine;
use vstd::prelude::*;
use vstd::string::StringExecFns;

verus! {

/// A request for a capture: the tag of a mode, and what that mode needs.
#[derive(Debug, Clone)]
pub struct ScreenshotCaptureRequest {
    /// `region`, `fullscreen` or `window`.
    pub mode: String,
    /// The region to take, for the mode `region`.
    pub region: Option<OcrCaptureRegion>,
    /// The point whose window to take, for the mode `window`.
    pub point: Option<CapturePoint>,
}

/// A captured picture and the place it was taken from.
#[derive(Debug, Clone)]
pub struct ScreenshotPreviewPayload {
    pub data_url: String,
    pub logical_rect: LogicalRectPayload,
}

/// What to do next for a request.
#[derive(Debug, Clone, Copy, PartialEq, Eq, Structural)]
pub enum CaptureStep {
    /// Take the pixels of this rectangle.
    Capture(PhysicalCaptureRect),
    /// Look for the window under this pixel; see [`window_capture_rect`].
    FindWindow(PhysicalPosition),
}

/// What the windowing layer reports of the monitor that shows the overlay.
#[derive(Debug, Clone, Copy, PartialEq, Eq, Structural)]
pub struct MonitorReport {
    pub position: PhysicalPosition,
    pub size: PhysicalSize,
    pub scale_factor: Logical,
}

impl MonitorReport {
    /// The report as a monitor.
    pub open spec fn as_monitor(self) -> MonitorView {
        MonitorView {
            position: self.position,
            size: self.size,
            scale_factor: self.scale_factor,
        }
    }
}

/// The monitor to capture from, given whether the overlay's window exists
/// and what the search for its monitor gave: a failure with its reason, no
/// monitor, or a report.
///
/// Without the window nothing can be captured. A failed search is a failure
/// of the capture. No monitor, or one that has no pixel or reaches beyond the
/// coordinates, is no monitor to capture from.
pub fn capture_window_and_monitor(
    window_found: bool,
    search: Result<Option<MonitorReport>, String>,
) -> (monitor: Result<MonitorDescriptor, OcrError>)
    ensures
        match monitor {
            Ok(m) => window_found && search == Ok::<Option<MonitorReport>, String>(
                Some(
                    MonitorReport {
                        position: m@.position,
                        size: m@.size,
                        scale_factor: m@.scale_factor,
                    },
                ),
            ) && m@.well_formed(),
            Err(OcrError::CaptureWindowUnavailable) => !window_found,
            Err(OcrError::CaptureFailure(reason)) => window_found && search == Err::<
                Option<MonitorReport>,
                String,
            >(reason),
            Err(OcrError::MonitorUnavailable) => window_found && match search {
                Ok(None) => true,
                Ok(Some(report)) => !report.as_monitor().well_formed(),
                Err(_) => false,
            },
            Err(_) => false,
        },
{
    if !window_found {
        return Err(OcrError::CaptureWindowUnavailable);
    }
    match search {
        Err(reason) => Err(OcrError::CaptureFailure(reason)),
        Ok(None) => Err(OcrError::MonitorUnavailable),
        Ok(Some(report)) => match MonitorDescriptor::new(
            report.position,
            report.size,
            report.scale_factor,
        ) {
            Some(monitor) => Ok(monitor),
            None => Err(OcrError::MonitorUnavailable),
        },
    }
}

/// The mode that a tag names, if any.
pub open spec fn mode_of_tag(tag: Seq<char>) -> Option<CaptureMode> {
    if tag == capture_mode_tag(CaptureMode::Region) {
        Some(CaptureMode::Region)
    } else if tag == capture_mode_tag(CaptureMode::Fullscreen) {
        Some(CaptureMode::Fullscreen)
    } else if tag == capture_mode_tag(CaptureMode::Window) {
        Some(CaptureMode::Window)
    } else {
        None
    }
}

/// Reads the tag of a capture mode.
pub fn parse_capture_mode(tag: &str) -> (mode: Option<CaptureMode>)
    ensures
        mode == mode_of_tag(tag@),
{
    if str_eq(tag, "region") {
        Some(CaptureMode::Region)
    } else if str_eq(tag, "fullscreen") {
        Some(CaptureMode::Fullscreen)
    } else if str_eq(tag, "window") {
        Some(CaptureMode::Window)
    } else {
        None
    }
}

/// The outcome of the first step for a request on a monitor.
pub open spec fn capture_step(monitor: MonitorView, request: ScreenshotCaptureRequest) -> Result<
    CaptureStep,
    OcrError,
> {
    match mode_of_tag(request.mode@) {
        None => Err(OcrError::UnsupportedMode(request.mode)),
        Some(CaptureMode::Region) => match request.region {
            Some(region) => if region.is_valid() {
                Ok(CaptureStep::Capture(region_on_monitor(monitor, region)))
            } else {
                Err(OcrError::InvalidRegion)
            },
            None => Err(OcrError::InvalidRegion),
        },
        Some(CaptureMode::Fullscreen) => Ok(
            CaptureStep::Capture(
                PhysicalCaptureRect {
                    x: monitor.position.x,
                    y: monitor.position.y,
                    width: monitor.size.width,
                    height: monitor.size.height,
                },
            ),
        ),
        Some(CaptureMode::Window) => match request.point {
            Some(point) => Ok(CaptureStep::FindWindow(point_on_monitor(monitor, point))),
            None => Err(OcrError::InvalidRegion),
        },
    }
}

/// Decides what a request asks for on the monitor that shows the overlay.
///
/// A region or the whole screen gives the rectangle to capture, which lies
/// on the monitor. A window gives the pixel under which to look for it. A
/// tag that names no mode is refused as unsupported; a request without the
/// region or point that its mode needs, or with a region that cannot be
/// captured, as an invalid region.
pub fn plan_capture(monitor: &MonitorDescriptor, request: &ScreenshotCaptureRequest) -> (step:
    Result<CaptureStep, OcrError>)
    ensures
        step == capture_step(monitor@, *request),
        step matches Ok(CaptureStep::Capture(rect)) ==> monitor@.contains(rect),
{
    match parse_capture_mode(request.mode.as_str()) {
        None => Err(OcrError::UnsupportedMode(request.mode.clone())),
        Some(CaptureMode::Region) => match &request.region {
            Some(region) => {
                match logical_region_to_physical_from_monitor(monitor, region) {
                    Ok(rect) => Ok(CaptureStep::Capture(rect)),
                    Err(error) => Err(error),
                }
            },
            None => Err(OcrError::InvalidRegion),
        },
        Some(CaptureMode::Fullscreen) => Ok(CaptureStep::Capture(monitor.bounds())),
        Some(CaptureMode::Window) => match &request.point {
            Some(point) => Ok(CaptureStep::FindWindow(logical_point_to_physical(monitor, point))),
            None => Err(OcrError::InvalidRegion),
        },
    }
}

/// The rectangle to capture for a window, given what the search under the
/// pixel found.
pub open spec fn window_rect(monitor: MonitorView, found: Option<PhysicalCaptureRect>) -> Result<
    PhysicalCaptureRect,
    OcrError,
> {
    match found {
        None => Err(OcrError::WindowNotFound),
        Some(rect) => {
            let clamped = rect_on_monitor(monitor, rect);
            if clamped.width == 0 || clamped.height == 0 {
                Err(OcrError::InvalidRegion)
            } else {
                Ok(clamped)
            }
        },
    }
}

/// Finishes a capture of a window: no window is an error of its own; a
/// window is cut to the monitor, and one with no pixel on the monitor is an
/// invalid region.
pub fn window_capture_rect(monitor: &MonitorDescriptor, found: Option<PhysicalCaptureRect>) -> (result:
    Result<PhysicalCaptureRect, OcrError>)
    ensures
        result == window_rect(monitor@, found),
        result matches Ok(rect) ==> monitor@.contains(rect),
{
    match found {
        None => Err(OcrError::WindowNotFound),
        Some(rect) => {
            let clamped = clamp_rect_to_monitor(rect, monitor);
            if clamped.width == 0 || clamped.height == 0 {
                Err(OcrError::InvalidRegion)
            } else {
                Ok(clamped)
            }
        },
    }
}

/// The hint to show for the window under the pointer, given what the search
/// found: the part of the window on the monitor, in logical pixels, or
/// nothing where there is no window or none of it is on the monitor.
pub fn window_capture_hint(monitor: &MonitorDescriptor, found: Option<PhysicalCaptureRect>) -> (hint:
    Option<LogicalRectPayload>)
    ensures
        hint == match window_rect(monitor@, found) {
            Ok(rect) => Some(rect_in_logical(monitor@, rect)),
            Err(_) => None,
        },
{
    match window_capture_rect(monitor, found) {
        Ok(rect) => Some(physical_to_logical_rect(rect, monitor)),
        Err(_) => None,
    }
}

/// The text of `bytes` in base64, with the standard alphabet and padding.
pub uninterp spec fn base64_standard(bytes: Seq<u8>) -> Seq<char>;

/// `Engine::encode` of `base64::engine::general_purpose::STANDARD`: the bytes
/// in base64. The call fails where the length of the text does not fit in
/// `usize`, which `requires` leaves out.
#[verifier::external_body]
fn encode_base64(bytes: &[u8]) -> (encoded: String)
    requires
        bytes@.len() / 3 * 4 + 4 <= usize::MAX,
    ensures
        encoded@ == base64_standard(bytes@),
{
    base64::engine::general_purpose::STANDARD.encode(bytes)
}

/// A PNG picture, given in base64, as a URL that holds it.
pub fn data_url_from_base64(encoded: &str) -> (url: String)
    ensures
        url@ == "data:image/png;base64,"@ + encoded@,
{
    let mut url = "data:image/png;base64,".to_owned();
    url.append(encoded);
    url
}

/// A PNG picture as a URL that holds it.
pub fn png_data_url(png: &[u8]) -> (url: String)
    requires
        png@.len() / 3 * 4 + 4 <= usize::MAX,
    ensures
        url@ == "data:image/png;base64,"@ + base64_standard(png@),
{
    let encoded = encode_base64(png);
    data_url_from_base64(encoded.as_str())
}

/// What is shown of a capture: the picture and the place it was taken from,
/// in logical pixels.
pub fn preview_payload(monitor: &MonitorDescriptor, rect: PhysicalCaptureRect, png: &[u8]) -> (payload:
    ScreenshotPreviewPayload)
    requires
        png@.len() / 3 * 4 + 4 <= usize::MAX,
    ensures
        payload.data_url@ == "data:image/png;base64,"@ + base64_standard(png@),
        payload.logical_rect == rect_in_logical(monitor@, rect),
{
    ScreenshotPreviewPayload {
        data_url: png_data_url(png),
        logical_rect: physical_to_logical_rect(rect, monitor),
    }
}

} // verus!
