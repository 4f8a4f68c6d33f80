//! What happens after a release, step by step.
//!
//! The work after a release is slow: windows are probed and the selected text
//! is read, more than once if need be. Meanwhile a newer release may come in.
//! So the work is cut into steps. After each step the outcome is handed to
//! [`ReleasePipeline::advance`], which says what to do next; before anything
//! is shown, it asks whether the release is still the newest.

use crate::selection::monitor::{capture_selected_text, usable_selection, ReleaseJudgement};
use vstd::prelude::*;

verus! {

/// How often the selected text is read at most.
pub const SELECTION_READ_ATTEMPTS: u8 = 3;

/// How much longer the wait before each further read is, in milliseconds.
pub const SELECTION_RETRY_STEP_MS: u64 = 40;

/// What is announced when a selection was captured.
#[derive(Debug, Clone)]
pub struct SelectedTextPayload {
    pub text: String,
    pub source: &'static str,
}

/// Where the work after one release stands.
#[derive(Debug)]
pub enum ReleasePipeline {
    /// Waiting to hear whether the release is still the newest.
    Registered { judgement: ReleaseJudgement },
    /// Waiting to hear whether the pointer is on the action bar.
    ProbingActionBar { judgement: ReleaseJudgement },
    /// Waiting to hear whether the pointer is on another window of the
    /// application.
    ProbingOwnWindows { judgement: ReleaseJudgement },
    /// Waiting to hear, before the text is read, whether the release is
    /// still the newest.
    BeforeReading,
    /// Waiting for a read of the selected text; `attempt` counts the reads
    /// before it.
    Reading { attempt: u8 },
    /// Waiting to hear, with the text at hand, whether the release is still
    /// the newest.
    BeforeShowing { text: String },
    /// Nothing is left to do.
    Finished,
}

/// What was found out in one step.
#[derive(Debug)]
pub enum ReleaseEvent {
    /// Whether the release is still the newest.
    Latest(bool),
    /// Whether the pointer is on the window or windows that were probed.
    Hit(bool),
    /// What was read of the selection; `None` where the read failed.
    Selection(Option<String>),
}

/// What to do next.
#[derive(Debug)]
pub enum ReleaseAction {
    /// Ask whether the release is still the newest.
    CheckLatest,
    /// Probe the action bar's window.
    ProbeActionBar,
    /// Probe the application's other windows.
    ProbeOwnWindows,
    /// Wait for `delay_ms`, then read the selected text.
    ReadSelection { delay_ms: u64 },
    /// Hide the action bar; the work is over.
    HideActionBar,
    /// Place and show the action bar and announce the text; the work is over.
    ShowActionBar { text: String },
    /// Do nothing; the work is over.
    Stop,
}

/// [`ReleasePipeline`] with its text as a sequence of characters.
pub enum PipelineView {
    Registered { judgement: ReleaseJudgement },
    ProbingActionBar { judgement: ReleaseJudgement },
    ProbingOwnWindows { judgement: ReleaseJudgement },
    BeforeReading,
    Reading { attempt: u8 },
    BeforeShowing { text: Seq<char> },
    Finished,
}

/// [`ReleaseEvent`] with its text as a sequence of characters.
pub enum EventView {
    Latest(bool),
    Hit(bool),
    Selection(Option<Seq<char>>),
}

/// [`ReleaseAction`] with its text as a sequence of characters.
pub enum ActionView {
    CheckLatest,
    ProbeActionBar,
    ProbeOwnWindows,
    ReadSelection { delay_ms: u64 },
    HideActionBar,
    ShowActionBar { text: Seq<char> },
    Stop,
}

impl View for ReleasePipeline {
    type V = PipelineView;

    open spec fn view(&self) -> PipelineView {
        match *self {
            ReleasePipeline::Registered { judgement } => PipelineView::Registered { judgement },
            ReleasePipeline::ProbingActionBar { judgement } => PipelineView::ProbingActionBar {
                judgement,
            },
            ReleasePipeline::ProbingOwnWindows { judgement } => PipelineView::ProbingOwnWindows {
                judgement,
            },
            ReleasePipeline::BeforeReading => PipelineView::BeforeReading,
            ReleasePipeline::Reading { attempt } => PipelineView::Reading { attempt },
            ReleasePipeline::BeforeShowing { text } => PipelineView::BeforeShowing { text: text@ },
            ReleasePipeline::Finished => PipelineView::Finished,
        }
    }
}

impl View for ReleaseEvent {
    type V = EventView;

    open spec fn view(&self) -> EventView {
        match *self {
            ReleaseEvent::Latest(latest) => EventView::Latest(latest),
            ReleaseEvent::Hit(hit) => EventView::Hit(hit),
            ReleaseEvent::Selection(Some(text)) => EventView::Selection(Some(text@)),
            ReleaseEvent::Selection(None) => EventView::Selection(None),
        }
    }
}

impl View for ReleaseAction {
    type V = ActionView;

    open spec fn view(&self) -> ActionView {
        match *self {
            ReleaseAction::CheckLatest => ActionView::CheckLatest,
            ReleaseAction::ProbeActionBar => ActionView::ProbeActionBar,
            ReleaseAction::ProbeOwnWindows => ActionView::ProbeOwnWindows,
            ReleaseAction::ReadSelection { delay_ms } => ActionView::ReadSelection { delay_ms },
            ReleaseAction::HideActionBar => ActionView::HideActionBar,
            ReleaseAction::ShowActionBar { text } => ActionView::ShowActionBar { text: text@ },
            ReleaseAction::Stop => ActionView::Stop,
        }
    }
}

/// The wait before the read that `attempt` reads precede: none before the
/// first, then 40 ms more each time.
pub open spec fn retry_delay_ms(attempt: u8) -> u64 {
    (attempt * SELECTION_RETRY_STEP_MS) as u64
}

/// The state and the action that follow from a state and an event.
///
/// An event that the state does not wait for ends the work in silence.
pub open spec fn next_step(state: PipelineView, event: EventView) -> (PipelineView, ActionView) {
    match (state, event) {
        (PipelineView::Registered { judgement }, EventView::Latest(true)) => (
            PipelineView::ProbingActionBar { judgement },
            ActionView::ProbeActionBar,
        ),
        (PipelineView::ProbingActionBar { judgement }, EventView::Hit(false)) => (
            PipelineView::ProbingOwnWindows { judgement },
            ActionView::ProbeOwnWindows,
        ),
        (PipelineView::ProbingOwnWindows { judgement }, EventView::Hit(hit)) => if hit
            || !judgement.is_selection_candidate {
            (PipelineView::Finished, ActionView::HideActionBar)
        } else {
            (PipelineView::BeforeReading, ActionView::CheckLatest)
        },
        (PipelineView::BeforeReading, EventView::Latest(true)) => (
            PipelineView::Reading { attempt: 0 },
            ActionView::ReadSelection { delay_ms: retry_delay_ms(0) },
        ),
        (PipelineView::Reading { attempt }, EventView::Selection(read)) => match usable_selection(
            read,
        ) {
            Some(text) => (PipelineView::BeforeShowing { text }, ActionView::CheckLatest),
            None => if attempt + 1 < SELECTION_READ_ATTEMPTS {
                (
                    PipelineView::Reading { attempt: (attempt + 1) as u8 },
                    ActionView::ReadSelection { delay_ms: retry_delay_ms((attempt + 1) as u8) },
                )
            } else {
                (PipelineView::Finished, ActionView::HideActionBar)
            },
        },
        (PipelineView::BeforeShowing { text }, EventView::Latest(true)) => (
            PipelineView::Finished,
            ActionView::ShowActionBar { text },
        ),
        _ => (PipelineView::Finished, ActionView::Stop),
    }
}

impl ReleasePipeline {
    /// Starts the work after a release that was judged: the first thing to do
    /// is to ask whether it is still the newest.
    pub fn start(judgement: ReleaseJudgement) -> (started: (ReleasePipeline, ReleaseAction))
        ensures
            started.0@ == (PipelineView::Registered { judgement }),
            started.1@ == ActionView::CheckLatest,
    {
        (ReleasePipeline::Registered { judgement }, ReleaseAction::CheckLatest)
    }

    /// Takes in the outcome of the last action and says what to do next.
    pub fn advance(self, event: ReleaseEvent) -> (next: (ReleasePipeline, ReleaseAction))
        ensures
            (next.0@, next.1@) == next_step(self@, event@),
    {
        match (self, event) {
            (ReleasePipeline::Registered { judgement }, ReleaseEvent::Latest(true)) => (
                ReleasePipeline::ProbingActionBar { judgement },
                ReleaseAction::ProbeActionBar,
            ),
            (ReleasePipeline::ProbingActionBar { judgement }, ReleaseEvent::Hit(false)) => (
                ReleasePipeline::ProbingOwnWindows { judgement },
                ReleaseAction::ProbeOwnWindows,
            ),
            (ReleasePipeline::ProbingOwnWindows { judgement }, ReleaseEvent::Hit(hit)) => {
                if hit || !judgement.is_selection_candidate {
                    (ReleasePipeline::Finished, ReleaseAction::HideActionBar)
                } else {
                    (ReleasePipeline::BeforeReading, ReleaseAction::CheckLatest)
                }
            },
            (ReleasePipeline::BeforeReading, ReleaseEvent::Latest(true)) => (
                ReleasePipeline::Reading { attempt: 0 },
                ReleaseAction::ReadSelection { delay_ms: 0 },
            ),
            (ReleasePipeline::Reading { attempt }, ReleaseEvent::Selection(read)) => {
                let usable = match &read {
                    Some(raw) => capture_selected_text(Some(raw.as_str())),
                    None => capture_selected_text(None),
                };
                match usable {
                    Some(text) => (
                        ReleasePipeline::BeforeShowing { text },
                        ReleaseAction::CheckLatest,
                    ),
                    None => {
                        if attempt < SELECTION_READ_ATTEMPTS - 1 {
                            let again: u8 = attempt + 1;
                            (
                                ReleasePipeline::Reading { attempt: again },
                                ReleaseAction::ReadSelection {
                                    delay_ms: again as u64 * SELECTION_RETRY_STEP_MS,
                                },
                            )
                        } else {
                            (ReleasePipeline::Finished, ReleaseAction::HideActionBar)
                        }
                    },
                }
            },
            (ReleasePipeline::BeforeShowing { text }, ReleaseEvent::Latest(true)) => (
                ReleasePipeline::Finished,
                ReleaseAction::ShowActionBar { text },
            ),
            _ => (ReleasePipeline::Finished, ReleaseAction::Stop),
        }
    }
}

/// What is announced for a captured selection.
pub fn selected_text_payload(text: String) -> (payload: SelectedTextPayload)
    ensures
        payload.text@ == text@,
        payload.source@ == "selection-monitor"@,
{
    SelectedTextPayload { text, source: "selection-monitor" }
}

/// Nothing is shown unless the release was found to be the newest in the
/// step just before, with the text already at hand.
pub proof fn lemma_shows_only_the_latest(state: PipelineView, event: EventView)
    requires
        next_step(state, event).1 is ShowActionBar,
    ensures
        event == EventView::Latest(true),
        state is BeforeShowing,
        next_step(state, event).1->ShowActionBar_text == state->BeforeShowing_text,
{
}

/// A release that is no longer the newest ends the work without a trace.
pub proof fn lemma_stale_release_is_silent(state: PipelineView)
    ensures
        next_step(state, EventView::Latest(false)) == (PipelineView::Finished, ActionView::Stop),
{
}

/// The selected text is read with waits of 0, 40 and 80 ms, and no fourth
/// time.
pub proof fn lemma_reads_are_bounded(state: PipelineView, event: EventView)
    requires
        next_step(state, event).1 is ReadSelection,
    ensures
        ({
            let delay = next_step(state, event).1->ReadSelection_delay_ms;
            let following = next_step(state, event).0;
            &&& following is Reading
            &&& following->Reading_attempt < SELECTION_READ_ATTEMPTS
            &&& delay == following->Reading_attempt * SELECTION_RETRY_STEP_MS
            &&& state is Reading ==> following->Reading_attempt == state->Reading_attempt + 1
            &&& !(state is Reading) ==> following->Reading_attempt == 0
        }),
{
}

} // verus!
