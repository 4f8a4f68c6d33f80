//! Which window of another program lies under a point.
//!
//! The operating system is asked for the windows at the point, from the
//! front to the back; for each it reports the process that owns it and the
//! state and bounds of its top-level ancestor. The first that qualifies is
//! the window to capture.

use crate::geometry::PhysicalCaptureRect;
use vstd::prelude::*;

verus! {

/// A window must be wider and higher than this many pixels to be captured.
pub const MIN_WINDOW_EXTENT: i32 = 2;

/// The bounds of a window as the operating system gives them: the edges, the
/// right and the bottom one just outside the window.
#[derive(Debug, Clone, Copy, PartialEq, Eq, Structural)]
pub struct NativeRect {
    pub left: i32,
    pub top: i32,
    pub right: i32,
    pub bottom: i32,
}

/// What the operating system reports of one window at the point.
#[derive(Debug, Clone, Copy, PartialEq, Eq, Structural)]
pub struct WindowCandidate {
    /// The process that owns the window.
    pub process_id: u32,
    /// Whether the window's top-level ancestor is visible.
    pub visible: bool,
    /// Whether the window's top-level ancestor is minimized.
    pub minimized: bool,
    /// The bounds of the window's top-level ancestor, where they could be read.
    pub bounds: Option<NativeRect>,
}

/// `high - low`, brought into the range of `i32`.
pub open spec fn saturating_extent(low: int, high: int) -> int {
    if high - low > i32::MAX {
        i32::MAX as int
    } else if high - low < i32::MIN {
        i32::MIN as int
    } else {
        high - low
    }
}

fn extent_between(low: i32, high: i32) -> (extent: i32)
    ensures
        extent == saturating_extent(low as int, high as int),
{
    let exact: i64 = high as i64 - low as i64;
    if exact > i32::MAX as i64 {
        i32::MAX
    } else if exact < i32::MIN as i64 {
        i32::MIN
    } else {
        exact as i32
    }
}

impl NativeRect {
    /// The width, brought into the range of `i32`.
    pub open spec fn width(self) -> int {
        saturating_extent(self.left as int, self.right as int)
    }

    /// The height, brought into the range of `i32`.
    pub open spec fn height(self) -> int {
        saturating_extent(self.top as int, self.bottom as int)
    }
}

impl WindowCandidate {
    /// A window qualifies where another process owns it, it is visible and
    /// not minimized, and it is wider and higher than 2 pixels.
    pub open spec fn qualifies(self, current_process_id: u32) -> bool {
        &&& self.process_id != current_process_id
        &&& self.visible
        &&& !self.minimized
        &&& self.bounds matches Some(bounds) && bounds.width() > MIN_WINDOW_EXTENT
            && bounds.height() > MIN_WINDOW_EXTENT
    }

    /// The rectangle of a window that qualifies.
    pub open spec fn rect(self) -> PhysicalCaptureRect {
        let bounds = self.bounds->0;
        PhysicalCaptureRect {
            x: bounds.left,
            y: bounds.top,
            width: bounds.width() as u32,
            height: bounds.height() as u32,
        }
    }

    /// The rectangle to capture if this window qualifies, else `None`.
    pub fn capture_rect(&self, current_process_id: u32) -> (rect: Option<PhysicalCaptureRect>)
        ensures
            rect == if self.qualifies(current_process_id) {
                Some(self.rect())
            } else {
                None
            },
    {
        if self.process_id == current_process_id || !self.visible || self.minimized {
            return None;
        }
        match self.bounds {
            Some(bounds) => {
                let width = extent_between(bounds.left, bounds.right);
                let height = extent_between(bounds.top, bounds.bottom);
                if width > MIN_WINDOW_EXTENT && height > MIN_WINDOW_EXTENT {
                    Some(
                        PhysicalCaptureRect {
                            x: bounds.left,
                            y: bounds.top,
                            width: width as u32,
                            height: height as u32,
                        },
                    )
                } else {
                    None
                }
            },
            None => None,
        }
    }
}

/// Whether `k` is the first of `candidates` that qualifies.
pub open spec fn is_first_qualifying(
    candidates: Seq<WindowCandidate>,
    current_process_id: u32,
    k: int,
) -> bool {
    &&& 0 <= k < candidates.len()
    &&& candidates[k].qualifies(current_process_id)
    &&& forall|j: int| 0 <= j < k ==> !(#[trigger] candidates[j]).qualifies(current_process_id)
}

/// Finds the window to capture among the windows at a point, given from the
/// front to the back: the first that qualifies. Where none does, and so
/// where the platform reports no windows at all, there is nothing to capture.
pub fn resolve_window_rect_at_point(candidates: &Vec<WindowCandidate>, current_process_id: u32) -> (found:
    Option<PhysicalCaptureRect>)
    ensures
        found is None <==> forall|j: int|
            0 <= j < candidates@.len() ==> !(#[trigger] candidates@[j]).qualifies(
                current_process_id,
            ),
        found matches Some(rect) ==> exists|k: int|
            is_first_qualifying(candidates@, current_process_id, k) && rect
                == candidates@[k].rect(),
        found matches Some(rect) ==> rect.width > MIN_WINDOW_EXTENT && rect.height
            > MIN_WINDOW_EXTENT,
{
    let mut i: usize = 0;
    while i < candidates.len()
        invariant
            i <= candidates@.len(),
            forall|j: int| 0 <= j < i ==> !(#[trigger] candidates@[j]).qualifies(current_process_id),
        decreases candidates@.len() - i,
    {
        match candidates[i].capture_rect(current_process_id) {
            Some(rect) => {
                assert(is_first_qualifying(candidates@, current_process_id, i as int));
                return Some(rect);
            },
            None => {},
        }
        i += 1;
    }
    None
}

} // verus!
