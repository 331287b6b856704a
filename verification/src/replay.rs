//! Whole fetches: a state machine run over the outcomes of its requests.

use crate::calendar::{ContributionCalendar, ContributionDay};
use crate::error::{ErrorView, UpstreamError};
use crate::fetcher::{FetchModel, FetchState, Step, StepView};
use crate::transport::TransportEvent;
use vstd::prelude::*;

verus! {

/// Where a fetch stands after a sequence of events.
pub enum RunView {
    /// Every event was used and the fetch asks for more.
    Pending { state: FetchModel },
    /// The fetch was complete after `used` events.
    Finished { days: Seq<ContributionDay>, used: nat },
    /// The fetch had failed after `used` events.
    Failed { error: ErrorView, used: nat },
}

/// The fetch that is in `state` when `events[at]` arrives, carried on until it
/// ends or the events run out.
pub open spec fn run(state: FetchModel, events: Seq<TransportEvent>, at: nat) -> RunView
    decreases events.len() - at,
{
    if at >= events.len() {
        RunView::Pending { state }
    } else {
        match state.step(events[at as int]) {
            StepView::Continue { state: next, .. } => run(next, events, at + 1),
            StepView::Finished { days } => RunView::Finished { days, used: at + 1 },
            StepView::Failed { error } => RunView::Failed { error, used: at + 1 },
        }
    }
}

/// Where a fetch stands after a sequence of events.
#[derive(Debug)]
pub enum Replay {
    /// Every event was used and the fetch asks for more.
    Pending { state: FetchState },
    /// The fetch was complete after `used` events.
    Finished { calendar: ContributionCalendar, used: usize },
    /// The fetch had failed after `used` events.
    Failed { error: UpstreamError, used: usize },
}

impl View for Replay {
    type V = RunView;

    open spec fn view(&self) -> RunView {
        match self {
            Replay::Pending { state } => RunView::Pending { state: state@ },
            Replay::Finished { calendar, used } => RunView::Finished {
                days: calendar@,
                used: *used as nat,
            },
            Replay::Failed { error, used } => RunView::Failed { error: error@, used: *used as nat },
        }
    }
}

/// Carries a fetch through the outcomes of its requests, in the order in
/// which they arrived, until it ends or the outcomes run out. The waits
/// between the requests are not made.
pub fn replay(state: FetchState, events: &Vec<TransportEvent>) -> (outcome: Replay)
    ensures
        outcome@ == run(state@, events@, 0),
        outcome matches Replay::Pending { state: last } ==> last@.wf(),
        outcome matches Replay::Finished { calendar, .. } ==> calendar.wf(),
{
    proof {
        use_type_invariant(&state);
    }
    let ghost first = state@;
    let mut current = state;
    let mut at: usize = 0;
    while at < events.len()
        invariant
            at <= events.len(),
            current@.wf(),
            first == state@,
            run(first, events@, 0) == run(current@, events@, at as nat),
        decreases events.len() - at,
    {
        match current.on_event(&events[at]) {
            Step::Continue { state: next, .. } => {
                current = next;
            },
            Step::Finished { calendar } => {
                return Replay::Finished { calendar, used: at + 1 };
            },
            Step::Failed { error } => {
                return Replay::Failed { error, used: at + 1 };
            },
        }
        at = at + 1;
    }
    Replay::Pending { state: current }
}

} // verus!
