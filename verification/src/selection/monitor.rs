//! What a release means: a drag, the second click of a double click, or neither.

use crate::geometry::{
    clamp_between, round_ratio, saturate_i32, MonitorDescriptor, MonitorView, PhysicalPosition,
    PhysicalSize,
};
use crate::selection::state::{SelectionPoint, SelectionRuntimeState};
use crate::text::{trim, trimmed};
use crate::windows::ids::WindowKind;
use vstd::prelude::*;
use vstd::string::StringExecFns;

verus! {

/// A press held for longer than this, in milliseconds, may be a drag.
pub const DRAG_TIME_THRESHOLD_MS: u128 = 300;

/// A drag moves the pointer by more than this many pixels.
pub const DRAG_DISTANCE_THRESHOLD: u32 = 20;

/// Two releases closer in time than this, in milliseconds, may be a double click.
pub const DOUBLE_CLICK_TIME_THRESHOLD_MS: u128 = 700;

/// The two releases of a double click lie less than this many pixels apart.
pub const DOUBLE_CLICK_DISTANCE_THRESHOLD: u32 = 10;

/// The width assumed for the action bar while its window cannot be measured.
pub const ACTION_BAR_DEFAULT_WIDTH: u32 = 402;

/// The height assumed for the action bar while its window cannot be measured.
pub const ACTION_BAR_DEFAULT_HEIGHT: u32 = 62;

/// The gap between the action bar and the pointer below it.
pub const ACTION_BAR_ABOVE_GAP: i64 = 14;

/// The gap between the pointer and the action bar below it.
pub const ACTION_BAR_BELOW_GAP: i64 = 18;

/// The least distance of the action bar from the edge of the monitor.
pub const ACTION_BAR_MIN_PADDING: i64 = 10;

/// What a release was taken for.
#[derive(Debug, Clone, Copy, PartialEq, Eq, Structural)]
pub struct ReleaseJudgement {
    /// The release ends a drag or completes a double click.
    pub is_selection_candidate: bool,
    /// The button was held long enough and moved far enough.
    pub is_drag_selection: bool,
    /// The release follows the previous one closely in time and place.
    pub is_double_click_selection: bool,
}

/// Why the selection monitor could not start or go on.
#[derive(Debug)]
pub enum SelectionMonitorError {
    AlreadyInitialized,
    LockPoisoned,
    HookInstall(String),
}

impl SelectionMonitorError {
    /// The text of the message, as a sequence of characters.
    pub open spec fn message_text(self) -> Seq<char> {
        match self {
            SelectionMonitorError::AlreadyInitialized => "mouse hook is already initialized"@,
            SelectionMonitorError::LockPoisoned => "failed to lock selection state"@,
            SelectionMonitorError::HookInstall(detail) => "failed to install mouse hook: "@ + detail@,
        }
    }

    /// The message to show for this error.
    pub fn message(&self) -> (text: String)
        ensures
            text@ == self.message_text(),
    {
        match self {
            SelectionMonitorError::AlreadyInitialized => "mouse hook is already initialized".to_owned(),
            SelectionMonitorError::LockPoisoned => "failed to lock selection state".to_owned(),
            SelectionMonitorError::HookInstall(detail) => {
                let mut text = "failed to install mouse hook: ".to_owned();
                text.append(detail.as_str());
                text
            },
        }
    }
}

/// Whether the mouse hook was asked for already. It is installed once in the
/// life of the process.
#[derive(Debug)]
pub struct HookStartup {
    started: bool,
}

impl HookStartup {
    /// Whether the hook was asked for.
    pub closed spec fn started(self) -> bool {
        self.started
    }

    /// The state before the hook was asked for.
    pub fn new() -> (startup: Self)
        ensures
            !startup.started(),
    {
        HookStartup { started: false }
    }

    /// Claims the installation of the hook: granted the first time, refused
    /// ever after, whether or not the installation came about.
    pub fn claim(&mut self) -> (result: Result<(), SelectionMonitorError>)
        ensures
            final(self).started(),
            old(self).started() ==> result == Err::<(), SelectionMonitorError>(
                SelectionMonitorError::AlreadyInitialized,
            ),
            !old(self).started() ==> result is Ok,
    {
        if self.started {
            Err(SelectionMonitorError::AlreadyInitialized)
        } else {
            self.started = true;
            Ok(())
        }
    }
}

/// The square of the distance between two points.
pub open spec fn distance_squared(ax: int, ay: int, bx: int, by: int) -> int {
    (bx - ax) * (bx - ax) + (by - ay) * (by - ay)
}

/// The time between two releases; 0 when the clock ran backwards.
pub open spec fn release_interval(previous_ms: int, current_ms: int) -> int {
    if current_ms >= previous_ms {
        current_ms - previous_ms
    } else {
        0
    }
}

/// A drag: held for more than 300 ms and moved by more than 20 pixels,
/// measured in a straight line from the press to the release.
pub open spec fn is_drag(press_x: int, press_y: int, current_x: int, current_y: int, pressed_time_ms: int) -> bool {
    &&& pressed_time_ms > DRAG_TIME_THRESHOLD_MS
    &&& distance_squared(press_x, press_y, current_x, current_y) > DRAG_DISTANCE_THRESHOLD
        * DRAG_DISTANCE_THRESHOLD
}

/// A double click: less than 700 ms and less than 10 pixels from the previous
/// release.
pub open spec fn is_double_click(
    previous_release_x: int,
    previous_release_y: int,
    current_x: int,
    current_y: int,
    previous_release_time_ms: int,
    current_release_time_ms: int,
) -> bool {
    &&& release_interval(previous_release_time_ms, current_release_time_ms)
        < DOUBLE_CLICK_TIME_THRESHOLD_MS
    &&& distance_squared(previous_release_x, previous_release_y, current_x, current_y)
        < DOUBLE_CLICK_DISTANCE_THRESHOLD * DOUBLE_CLICK_DISTANCE_THRESHOLD
}

/// The judgement of a release, over unbounded integers.
pub open spec fn judgement(
    press_x: int,
    press_y: int,
    previous_release_x: int,
    previous_release_y: int,
    current_x: int,
    current_y: int,
    pressed_time_ms: int,
    previous_release_time_ms: int,
    current_release_time_ms: int,
) -> ReleaseJudgement {
    let drag = is_drag(press_x, press_y, current_x, current_y, pressed_time_ms);
    let double_click = is_double_click(
        previous_release_x,
        previous_release_y,
        current_x,
        current_y,
        previous_release_time_ms,
        current_release_time_ms,
    );
    ReleaseJudgement {
        is_selection_candidate: drag || double_click,
        is_drag_selection: drag,
        is_double_click_selection: double_click,
    }
}

proof fn lemma_square_bounds(d: int)
    by (nonlinear_arith)
    requires
        -0x1_0000_0000 < d < 0x1_0000_0000,
    ensures
        0 <= d * d <= 0x1_0000_0000_0000_0000,
{
}

/// The square of the distance between two points of the screen.
fn squared_distance(ax: i32, ay: i32, bx: i32, by: i32) -> (d: u128)
    ensures
        d == distance_squared(ax as int, ay as int, bx as int, by as int),
{
    let dx: i128 = bx as i128 - ax as i128;
    let dy: i128 = by as i128 - ay as i128;
    proof {
        lemma_square_bounds(dx as int);
        lemma_square_bounds(dy as int);
    }
    (dx * dx + dy * dy) as u128
}

/// Judges the release at `(current_x, current_y)`.
///
/// `pressed_time_ms` is the time for which the button was held; the two
/// release times are readings of one clock.
pub fn judge_release(
    press_x: i32,
    press_y: i32,
    previous_release_x: i32,
    previous_release_y: i32,
    current_x: i32,
    current_y: i32,
    pressed_time_ms: u128,
    previous_release_time_ms: u128,
    current_release_time_ms: u128,
) -> (result: ReleaseJudgement)
    ensures
        result == judgement(
            press_x as int,
            press_y as int,
            previous_release_x as int,
            previous_release_y as int,
            current_x as int,
            current_y as int,
            pressed_time_ms as int,
            previous_release_time_ms as int,
            current_release_time_ms as int,
        ),
{
    let drag_distance_squared = squared_distance(press_x, press_y, current_x, current_y);
    let release_distance_squared = squared_distance(
        previous_release_x,
        previous_release_y,
        current_x,
        current_y,
    );
    let release_interval = current_release_time_ms.saturating_sub(previous_release_time_ms);

    let drag_limit: u128 = DRAG_DISTANCE_THRESHOLD as u128;
    let double_click_limit: u128 = DOUBLE_CLICK_DISTANCE_THRESHOLD as u128;

    let is_drag_selection = pressed_time_ms > DRAG_TIME_THRESHOLD_MS && drag_distance_squared
        > drag_limit * drag_limit;
    let is_double_click_selection = release_interval < DOUBLE_CLICK_TIME_THRESHOLD_MS
        && release_distance_squared < double_click_limit * double_click_limit;

    ReleaseJudgement {
        is_selection_candidate: is_drag_selection || is_double_click_selection,
        is_drag_selection,
        is_double_click_selection,
    }
}

/// A press held for more than 300 ms that ends more than 20 pixels away is a
/// drag, whatever the previous release was and whenever it happened.
pub proof fn lemma_long_far_press_is_drag(
    press_x: int,
    press_y: int,
    previous_release_x: int,
    previous_release_y: int,
    current_x: int,
    current_y: int,
    pressed_time_ms: int,
    previous_release_time_ms: int,
    current_release_time_ms: int,
)
    requires
        pressed_time_ms > 300,
        distance_squared(press_x, press_y, current_x, current_y) > 20 * 20,
    ensures
        judgement(
            press_x,
            press_y,
            previous_release_x,
            previous_release_y,
            current_x,
            current_y,
            pressed_time_ms,
            previous_release_time_ms,
            current_release_time_ms,
        ).is_drag_selection,
        judgement(
            press_x,
            press_y,
            previous_release_x,
            previous_release_y,
            current_x,
            current_y,
            pressed_time_ms,
            previous_release_time_ms,
            current_release_time_ms,
        ).is_selection_candidate,
{
}

/// A release less than 700 ms and less than 10 pixels after the previous one
/// is a double click, wherever the press was and however long it was held.
pub proof fn lemma_quick_near_release_is_double_click(
    press_x: int,
    press_y: int,
    previous_release_x: int,
    previous_release_y: int,
    current_x: int,
    current_y: int,
    pressed_time_ms: int,
    previous_release_time_ms: int,
    current_release_time_ms: int,
)
    requires
        release_interval(previous_release_time_ms, current_release_time_ms) < 700,
        distance_squared(previous_release_x, previous_release_y, current_x, current_y) < 10 * 10,
    ensures
        judgement(
            press_x,
            press_y,
            previous_release_x,
            previous_release_y,
            current_x,
            current_y,
            pressed_time_ms,
            previous_release_time_ms,
            current_release_time_ms,
        ).is_double_click_selection,
        judgement(
            press_x,
            press_y,
            previous_release_x,
            previous_release_y,
            current_x,
            current_y,
            pressed_time_ms,
            previous_release_time_ms,
            current_release_time_ms,
        ).is_selection_candidate,
{
}

/// Moving every point by the same offset, and both release times by the same
/// amount, leaves the judgement unchanged.
pub proof fn lemma_judgement_is_translation_invariant(
    press_x: int,
    press_y: int,
    previous_release_x: int,
    previous_release_y: int,
    current_x: int,
    current_y: int,
    pressed_time_ms: int,
    previous_release_time_ms: int,
    current_release_time_ms: int,
    shift_x: int,
    shift_y: int,
    shift_ms: int,
)
    ensures
        judgement(
            press_x + shift_x,
            press_y + shift_y,
            previous_release_x + shift_x,
            previous_release_y + shift_y,
            current_x + shift_x,
            current_y + shift_y,
            pressed_time_ms,
            previous_release_time_ms + shift_ms,
            current_release_time_ms + shift_ms,
        ) == judgement(
            press_x,
            press_y,
            previous_release_x,
            previous_release_y,
            current_x,
            current_y,
            pressed_time_ms,
            previous_release_time_ms,
            current_release_time_ms,
        ),
{
}

/// The size of the action bar: as measured, or the default where its window
/// is missing or cannot be measured.
pub fn action_bar_window_size(measured: Option<PhysicalSize>) -> (size: PhysicalSize)
    ensures
        size == match measured {
            Some(m) => m,
            None => PhysicalSize {
                width: ACTION_BAR_DEFAULT_WIDTH,
                height: ACTION_BAR_DEFAULT_HEIGHT,
            },
        },
{
    match measured {
        Some(m) => m,
        None => PhysicalSize { width: ACTION_BAR_DEFAULT_WIDTH, height: ACTION_BAR_DEFAULT_HEIGHT },
    }
}

/// Twice the horizontal position of the action bar, so that half pixels are
/// whole: centred on the pointer, then kept within the padded monitor, the
/// left bound winning where the bar is wider than the room.
pub open spec fn action_bar_doubled_x(anchor_x: int, width: int, monitor: Option<MonitorView>) -> int {
    let centred = 2 * anchor_x - width;
    match monitor {
        Some(m) => {
            let low = m.position.x + ACTION_BAR_MIN_PADDING;
            let high = m.position.x + m.size.width - width - ACTION_BAR_MIN_PADDING;
            clamp_between(centred, 2 * low, 2 * high)
        },
        None => if centred < 2 * ACTION_BAR_MIN_PADDING {
            2 * ACTION_BAR_MIN_PADDING
        } else {
            centred
        },
    }
}

/// The vertical position of the action bar: above the pointer; below it
/// where the bar would come closer to the monitor's top than the padding;
/// then kept within the padded monitor, the bound at the top winning where
/// the bar is higher than the room.
pub open spec fn action_bar_y(anchor_y: int, height: int, monitor: Option<MonitorView>) -> int {
    let above = anchor_y - height - ACTION_BAR_ABOVE_GAP;
    let below = anchor_y + ACTION_BAR_BELOW_GAP;
    match monitor {
        Some(m) => {
            let low = m.position.y + ACTION_BAR_MIN_PADDING;
            let high = m.position.y + m.size.height - height - ACTION_BAR_MIN_PADDING;
            clamp_between(
                if above < low {
                    below
                } else {
                    above
                },
                low,
                high,
            )
        },
        None => if above < ACTION_BAR_MIN_PADDING {
            below
        } else {
            above
        },
    }
}

/// Where the action bar goes, in whole physical pixels: half a pixel is
/// rounded away from zero, and the result is brought into the range of `i32`.
pub open spec fn action_bar_position(
    anchor: SelectionPoint,
    size: PhysicalSize,
    monitor: Option<MonitorView>,
) -> PhysicalPosition {
    PhysicalPosition {
        x: saturate_i32(
            round_ratio(action_bar_doubled_x(anchor.x as int, size.width as int, monitor), 2),
        ) as i32,
        y: saturate_i32(action_bar_y(anchor.y as int, size.height as int, monitor)) as i32,
    }
}

fn clamp_i64(v: i64, low: i64, high: i64) -> (r: i64)
    ensures
        r == clamp_between(v as int, low as int, high as int),
{
    if v < low || high < low {
        low
    } else if v > high {
        high
    } else {
        v
    }
}

fn saturate_to_i32(v: i64) -> (r: i32)
    ensures
        r == saturate_i32(v as int),
{
    if v < i32::MIN as i64 {
        i32::MIN
    } else if v > i32::MAX as i64 {
        i32::MAX
    } else {
        v as i32
    }
}

/// Places the action bar for a release at `anchor`, on the monitor under the
/// pointer if one was found.
pub fn compute_action_bar_position(
    anchor: SelectionPoint,
    size: PhysicalSize,
    monitor: Option<&MonitorDescriptor>,
) -> (position: PhysicalPosition)
    ensures
        position == action_bar_position(
            anchor,
            size,
            match monitor {
                Some(m) => Some(m@),
                None => None,
            },
        ),
{
    let width: i64 = size.width as i64;
    let height: i64 = size.height as i64;
    let centred: i64 = 2 * (anchor.x as i64) - width;
    let above: i64 = anchor.y as i64 - height - ACTION_BAR_ABOVE_GAP;
    let below: i64 = anchor.y as i64 + ACTION_BAR_BELOW_GAP;

    let (doubled_x, y): (i64, i64) = match monitor {
        Some(m) => {
            let origin = m.position();
            let extent = m.size();
            let low_x: i64 = origin.x as i64 + ACTION_BAR_MIN_PADDING;
            let high_x: i64 = origin.x as i64 + extent.width as i64 - width
                - ACTION_BAR_MIN_PADDING;
            let low_y: i64 = origin.y as i64 + ACTION_BAR_MIN_PADDING;
            let high_y: i64 = origin.y as i64 + extent.height as i64 - height
                - ACTION_BAR_MIN_PADDING;
            let wanted_y: i64 = if above < low_y {
                below
            } else {
                above
            };
            (clamp_i64(centred, 2 * low_x, 2 * high_x), clamp_i64(wanted_y, low_y, high_y))
        },
        None => {
            let x: i64 = if centred < 2 * ACTION_BAR_MIN_PADDING {
                2 * ACTION_BAR_MIN_PADDING
            } else {
                centred
            };
            let y: i64 = if above < ACTION_BAR_MIN_PADDING {
                below
            } else {
                above
            };
            (x, y)
        },
    };
    let rounded_x: i64 = if doubled_x >= 0 {
        (2 * doubled_x + 2) / 4
    } else {
        -((2 * (-doubled_x) + 2) / 4)
    };
    PhysicalPosition { x: saturate_to_i32(rounded_x), y: saturate_to_i32(y) }
}

/// An action bar that has room on the monitor, padding included, is placed
/// wholly within the padded monitor.
pub proof fn lemma_action_bar_stays_on_monitor(
    anchor: SelectionPoint,
    size: PhysicalSize,
    monitor: MonitorView,
)
    requires
        monitor.well_formed(),
        size.width + 2 * ACTION_BAR_MIN_PADDING <= monitor.size.width,
        size.height + 2 * ACTION_BAR_MIN_PADDING <= monitor.size.height,
    ensures
        ({
            let position = action_bar_position(anchor, size, Some(monitor));
            &&& monitor.position.x + ACTION_BAR_MIN_PADDING <= position.x
            &&& position.x + size.width + ACTION_BAR_MIN_PADDING <= monitor.position.x
                + monitor.size.width
            &&& monitor.position.y + ACTION_BAR_MIN_PADDING <= position.y
            &&& position.y + size.height + ACTION_BAR_MIN_PADDING <= monitor.position.y
                + monitor.size.height
        }),
{
}

/// What could be learned of one of the application's windows.
#[derive(Debug, Clone, Copy, PartialEq, Eq, Structural)]
pub struct WindowProbe {
    /// Whether the window is shown, where that could be read.
    pub visible: Option<bool>,
    /// The window's outer position, where it could be read.
    pub position: Option<PhysicalPosition>,
    /// The window's outer size, where it could be read.
    pub size: Option<PhysicalSize>,
}

/// Whether the point lies on the window: the window exists, is known to be
/// shown, its position and size are known, and the point lies within its
/// outer bounds, the edges included.
pub open spec fn window_is_hit(probe: Option<WindowProbe>, point: SelectionPoint) -> bool {
    match probe {
        Some(WindowProbe { visible: Some(true), position: Some(position), size: Some(size) }) => {
            &&& position.x <= point.x <= position.x + size.width
            &&& position.y <= point.y <= position.y + size.height
        },
        _ => false,
    }
}

/// Whether the point lies on the window that the probe describes; `None`
/// stands for a window that does not exist.
pub fn point_hits_window(probe: Option<WindowProbe>, point: SelectionPoint) -> (hit: bool)
    ensures
        hit == window_is_hit(probe, point),
{
    match probe {
        Some(WindowProbe { visible: Some(true), position: Some(position), size: Some(size) }) => {
            let left: i64 = position.x as i64;
            let top: i64 = position.y as i64;
            let right: i64 = left + size.width as i64;
            let bottom: i64 = top + size.height as i64;
            let x: i64 = point.x as i64;
            let y: i64 = point.y as i64;
            x >= left && x <= right && y >= top && y <= bottom
        },
        _ => false,
    }
}

/// The application's windows, other than the action bar, that swallow a
/// release on them.
pub open spec fn own_window_kinds() -> Seq<WindowKind> {
    seq![
        WindowKind::Settings,
        WindowKind::Translate,
        WindowKind::Summary,
        WindowKind::Explain,
        WindowKind::Optimize,
        WindowKind::OcrCapture,
        WindowKind::Main,
    ]
}

/// The kinds of window to probe after a release, in the order of
/// [`own_window_kinds`].
pub fn windows_to_probe() -> (kinds: Vec<WindowKind>)
    ensures
        kinds@ == own_window_kinds(),
{
    let kinds = vec![
        WindowKind::Settings,
        WindowKind::Translate,
        WindowKind::Summary,
        WindowKind::Explain,
        WindowKind::Optimize,
        WindowKind::OcrCapture,
        WindowKind::Main,
    ];
    kinds
}

/// Whether the point lies on one of the windows that the probes describe.
pub fn point_hits_snapparse_windows(probes: &Vec<Option<WindowProbe>>, point: SelectionPoint) -> (hit:
    bool)
    ensures
        hit == exists|i: int| 0 <= i < probes@.len() && window_is_hit(#[trigger] probes@[i], point),
{
    let mut i: usize = 0;
    while i < probes.len()
        invariant
            i <= probes@.len(),
            forall|j: int| 0 <= j < i ==> !window_is_hit(#[trigger] probes@[j], point),
        decreases probes@.len() - i,
    {
        if point_hits_window(probes[i], point) {
            return true;
        }
        i += 1;
    }
    false
}

/// A button of the pointing device.
#[derive(Debug, Clone, Copy, PartialEq, Eq, Structural)]
pub enum PointerButton {
    Left,
    Middle,
    Right,
}

/// What the hook reports of the pointing device.
#[derive(Debug, Clone, Copy, PartialEq, Eq, Structural)]
pub enum PointerEvent {
    AbsoluteMove,
    RelativeMove,
    Press(PointerButton),
    Release(PointerButton),
    Scroll,
}

/// What the hook's callback does with an event.
#[derive(Debug, Clone, Copy, PartialEq, Eq, Structural)]
pub enum HookAction {
    /// Nothing.
    Ignore,
    /// Record the press at the pointer's position, at once.
    RecordPress,
    /// Hand the release to a worker, so that the callback returns at once.
    HandleRelease,
}

/// Decides what the hook's callback does: only the left button counts.
pub fn handle_mouse_event(event: PointerEvent) -> (action: HookAction)
    ensures
        action == match event {
            PointerEvent::Press(PointerButton::Left) => HookAction::RecordPress,
            PointerEvent::Release(PointerButton::Left) => HookAction::HandleRelease,
            _ => HookAction::Ignore,
        },
{
    match event {
        PointerEvent::Press(PointerButton::Left) => HookAction::RecordPress,
        PointerEvent::Release(PointerButton::Left) => HookAction::HandleRelease,
        _ => HookAction::Ignore,
    }
}

/// Whether `release_id` is the id of the newest release, as far as the state
/// can be read: a state that cannot be reached counts as having moved on.
pub fn is_latest_release_id(state: Option<&SelectionRuntimeState>, release_id: u64) -> (latest:
    bool)
    ensures
        latest == match state {
            Some(s) => s@.epoch == release_id,
            None => false,
        },
{
    match state {
        Some(s) => s.is_latest_release(release_id),
        None => false,
    }
}

/// The text of a selection that counts: what was read, without surrounding
/// white space, unless nothing is left of it.
pub open spec fn usable_selection(read: Option<Seq<char>>) -> Option<Seq<char>> {
    match read {
        Some(text) => if trimmed(text).len() > 0 {
            Some(trimmed(text))
        } else {
            None
        },
        None => None,
    }
}

/// Cleans what was read of the selection; `None` stands for a read that
/// failed.
pub fn capture_selected_text(read: Option<&str>) -> (text: Option<String>)
    ensures
        match text {
            Some(t) => usable_selection(
                match read {
                    Some(r) => Some(r@),
                    None => None,
                },
            ) == Some(t@),
            None => usable_selection(
                match read {
                    Some(r) => Some(r@),
                    None => None,
                },
            ) is None,
        },
{
    match read {
        Some(raw) => {
            let text = trim(raw);
            if text.is_empty() {
                None
            } else {
                Some(text.to_owned())
            }
        },
        None => None,
    }
}

} // verus!
