//! The record of the last press and the last release, and the counter that
//! tells the newest release from every earlier one.

use std::time::{Duration, Instant};
use vstd::prelude::*;

verus! {

/// A position on the screen, in physical pixels.
#[derive(Debug, Clone, Copy, Default, PartialEq, Eq, Structural)]
pub struct SelectionPoint {
    pub x: i32,
    pub y: i32,
}

/// What was known at the moment of one release.
#[derive(Debug, Clone, Copy)]
pub struct ReleaseSnapshot {
    pub release_id: u64,
    pub press_position: SelectionPoint,
    pub previous_release_time_ms: u128,
    pub previous_release_position: SelectionPoint,
    pub pressed_duration_ms: u128,
}

/// How far back the previous release is assumed to lie when there was none.
pub const FIRST_RELEASE_LOOKBACK_MS: u128 = 10_000;

#[verifier::external_type_specification]
#[verifier::external_body]
pub struct ExInstant(Instant);

/// `Instant::now`: some reading of the monotonic clock. Nothing is claimed of
/// it.
pub assume_specification[ Instant::now ]() -> Instant;

/// `Instant::elapsed`: the time that has passed since the reading. It depends
/// on the clock, so nothing is claimed of it.
pub assume_specification[ Instant::elapsed ](instant: &Instant) -> Duration;

/// `Duration::as_millis`: a duration in whole milliseconds. Nothing is read of
/// a duration here but this number, so nothing is claimed of it.
pub assume_specification[ Duration::as_millis ](duration: &Duration) -> u128;

/// The part of [`SelectionRuntimeState`] that contracts speak of.
pub struct SelectionStateView {
    /// Where the last press happened, if any was recorded.
    pub press_position: Option<SelectionPoint>,
    /// Where the last release happened, if there was one.
    pub release_position: Option<SelectionPoint>,
    /// When the last release happened, if there was one.
    pub release_time_ms: Option<u128>,
    /// The id given to the last release; 0 before the first.
    pub epoch: u64,
}

impl SelectionStateView {
    /// The state before any press or release.
    pub open spec fn initial() -> SelectionStateView {
        SelectionStateView {
            press_position: None,
            release_position: None,
            release_time_ms: None,
            epoch: 0,
        }
    }

    /// The id that the next release gets.
    pub open spec fn next_epoch(self) -> u64 {
        if self.epoch == u64::MAX {
            0
        } else {
            (self.epoch + 1) as u64
        }
    }

    /// The state after a press at `point`.
    pub open spec fn after_press(self, point: SelectionPoint) -> SelectionStateView {
        SelectionStateView { press_position: Some(point), ..self }
    }

    /// The state after a release at `current`, at time `now_ms`.
    pub open spec fn after_release(self, current: SelectionPoint, now_ms: u128) -> SelectionStateView {
        SelectionStateView {
            press_position: self.press_position,
            release_position: Some(current),
            release_time_ms: Some(now_ms),
            epoch: self.next_epoch(),
        }
    }

    /// The time that stands for the previous release.
    pub open spec fn previous_release_time(self, now_ms: u128) -> u128 {
        match self.release_time_ms {
            Some(t) => t,
            None => if now_ms >= FIRST_RELEASE_LOOKBACK_MS {
                (now_ms - FIRST_RELEASE_LOOKBACK_MS) as u128
            } else {
                0
            },
        }
    }

    /// The snapshot that a release at `current`, at time `now_ms`, hands out,
    /// given the time for which the button was held.
    pub open spec fn snapshot(self, current: SelectionPoint, now_ms: u128, pressed_duration_ms: u128) -> ReleaseSnapshot {
        ReleaseSnapshot {
            release_id: self.next_epoch(),
            press_position: match self.press_position {
                Some(p) => p,
                None => current,
            },
            previous_release_time_ms: self.previous_release_time(now_ms),
            previous_release_position: match self.release_position {
                Some(p) => p,
                None => current,
            },
            pressed_duration_ms,
        }
    }
}

/// The last press, the last release and the release counter.
#[derive(Debug)]
pub struct SelectionRuntimeState {
    previous_press_instant: Option<Instant>,
    previous_press_position: Option<SelectionPoint>,
    previous_release_time_ms: Option<u128>,
    previous_release_position: Option<SelectionPoint>,
    release_thread_id: u64,
}

impl View for SelectionRuntimeState {
    type V = SelectionStateView;

    closed spec fn view(&self) -> SelectionStateView {
        SelectionStateView {
            press_position: self.previous_press_position,
            release_position: self.previous_release_position,
            release_time_ms: self.previous_release_time_ms,
            epoch: self.release_thread_id,
        }
    }
}

impl Default for SelectionRuntimeState {
    fn default() -> (state: Self)
        ensures
            state@ == SelectionStateView::initial(),
    {
        SelectionRuntimeState {
            previous_press_instant: None,
            previous_press_position: None,
            previous_release_time_ms: None,
            previous_release_position: None,
            release_thread_id: 0,
        }
    }
}

impl SelectionRuntimeState {
    #[verifier::type_invariant]
    spec fn well_formed(self) -> bool {
        &&& self.previous_press_instant is Some <==> self.previous_press_position is Some
        &&& self.previous_release_time_ms is Some <==> self.previous_release_position is Some
    }

    /// Remembers a press at `point`, together with the clock's reading.
    pub fn record_press(&mut self, point: SelectionPoint)
        ensures
            final(self)@ == old(self)@.after_press(point),
    {
        proof {
            use_type_invariant(&*self);
        }
        *self = SelectionRuntimeState {
            previous_press_instant: Some(Instant::now()),
            previous_press_position: Some(point),
            previous_release_time_ms: self.previous_release_time_ms,
            previous_release_position: self.previous_release_position,
            release_thread_id: self.release_thread_id,
        };
    }

    /// Registers a release whose held time the caller has measured.
    ///
    /// The snapshot holds what was known before this release; the state then
    /// remembers this release as the previous one.
    pub fn begin_release_with_duration(
        &mut self,
        current: SelectionPoint,
        now_ms: u128,
        pressed_duration_ms: u128,
    ) -> (snapshot: ReleaseSnapshot)
        ensures
            snapshot == old(self)@.snapshot(current, now_ms, pressed_duration_ms),
            final(self)@ == old(self)@.after_release(current, now_ms),
    {
        proof {
            use_type_invariant(&*self);
        }
        let release_id = self.release_thread_id.wrapping_add(1);

        let press_position = match self.previous_press_position {
            Some(p) => p,
            None => current,
        };
        let previous_release_position = match self.previous_release_position {
            Some(p) => p,
            None => current,
        };
        let previous_release_time_ms = match self.previous_release_time_ms {
            Some(t) => t,
            None => now_ms.saturating_sub(FIRST_RELEASE_LOOKBACK_MS),
        };

        *self = SelectionRuntimeState {
            previous_press_instant: self.previous_press_instant,
            previous_press_position: self.previous_press_position,
            previous_release_time_ms: Some(now_ms),
            previous_release_position: Some(current),
            release_thread_id: release_id,
        };

        ReleaseSnapshot {
            release_id,
            press_position,
            previous_release_time_ms,
            previous_release_position,
            pressed_duration_ms,
        }
    }

    /// Registers a release at `current`, at time `now_ms`.
    ///
    /// The held time is read from the clock when a press was recorded, and is
    /// 0 when none was; everything else is fixed by the state before the call.
    pub fn begin_release(&mut self, current: SelectionPoint, now_ms: u128) -> (snapshot: ReleaseSnapshot)
        ensures
            snapshot == old(self)@.snapshot(current, now_ms, snapshot.pressed_duration_ms),
            old(self)@.press_position is None ==> snapshot.pressed_duration_ms == 0,
            final(self)@ == old(self)@.after_release(current, now_ms),
    {
        proof {
            use_type_invariant(&*self);
        }
        let pressed_duration_ms = match &self.previous_press_instant {
            Some(instant) => instant.elapsed().as_millis(),
            None => 0,
        };
        self.begin_release_with_duration(current, now_ms, pressed_duration_ms)
    }

    /// Whether `release_id` is the id of the newest release.
    pub fn is_latest_release(&self, release_id: u64) -> (latest: bool)
        ensures
            latest == (self@.epoch == release_id),
    {
        self.release_thread_id == release_id
    }
}

/// The state after the given releases, each a point and a time, in order.
pub open spec fn after_releases(
    start: SelectionStateView,
    releases: Seq<(SelectionPoint, u128)>,
) -> SelectionStateView
    decreases releases.len(),
{
    if releases.len() == 0 {
        start
    } else {
        after_releases(start, releases.drop_last()).after_release(
            releases.last().0,
            releases.last().1,
        )
    }
}

/// After `n` releases from the start the counter stands at `n`.
pub proof fn lemma_epoch_counts_releases(releases: Seq<(SelectionPoint, u128)>)
    requires
        releases.len() <= u64::MAX,
    ensures
        after_releases(SelectionStateView::initial(), releases).epoch == releases.len(),
    decreases releases.len(),
{
    if releases.len() > 0 {
        lemma_epoch_counts_releases(releases.drop_last());
    }
}

/// Of `n` releases in a row from the start, the `k`-th gets the id `k`, and
/// once all have happened only the id of the last is the latest.
pub proof fn lemma_only_the_last_release_is_latest(
    releases: Seq<(SelectionPoint, u128)>,
    k: int,
    pressed_duration_ms: u128,
)
    requires
        1 <= k <= releases.len() <= u64::MAX,
    ensures
        after_releases(SelectionStateView::initial(), releases.take(k - 1)).snapshot(
            releases[k - 1].0,
            releases[k - 1].1,
            pressed_duration_ms,
        ).release_id == k,
        after_releases(SelectionStateView::initial(), releases.take(k)).epoch == k,
        (after_releases(SelectionStateView::initial(), releases).epoch == k) <==> k
            == releases.len(),
{
    lemma_epoch_counts_releases(releases.take(k - 1));
    lemma_epoch_counts_releases(releases.take(k));
    lemma_epoch_counts_releases(releases);
}

} // verus!
