//! The pagination protocol as a state machine.
//!
//! A fetch starts with [`FetchState::start`]. The caller sends the request
//! that [`FetchState::request`] describes, and hands what came back to
//! [`FetchState::on_event`], which says how the fetch goes on: with another
//! request after a wait, or not at all, because the calendar is complete or
//! the fetch has failed.

use crate::calendar::{absorb, all_valid, strictly_ascending, ContributionCalendar, ContributionDay};
use crate::error::{ErrorView, MalformedDetail, UpstreamError};
use crate::retry::RetryPolicy;
use crate::transport::{RawPage, RawResponse, TransportEvent, TransportFailure};
use vstd::prelude::*;

verus! {

/// The variables of one query: whose contributions, and from where on.
#[derive(Clone, Debug, PartialEq, Eq)]
pub struct Request {
    pub login: String,
    pub cursor: Option<String>,
}

/// What one fetch knows between two requests.
#[derive(Debug)]
pub struct FetchState {
    user: String,
    policy: RetryPolicy,
    cursor: Option<String>,
    seen: Vec<String>,
    calendar: ContributionCalendar,
    attempts: u32,
}

/// The characters of each text of a sequence.
pub open spec fn texts(strings: Seq<String>) -> Seq<Seq<char>> {
    Seq::new(strings.len(), |i: int| strings[i]@)
}

/// The characters of a text that may be absent.
pub open spec fn option_text(text: Option<String>) -> Option<Seq<char>> {
    match text {
        Some(text) => Some(text@),
        None => None,
    }
}

/// A [`FetchState`] as plain values.
pub struct FetchModel {
    /// The user whose contributions are fetched.
    pub user: Seq<char>,
    /// The retry policy of the fetch.
    pub policy: RetryPolicy,
    /// Where the next request resumes; `None` is the beginning.
    pub cursor: Option<Seq<char>>,
    /// The cursors that the fetch has followed, in the order in which the
    /// pages named them.
    pub seen: Seq<Seq<char>>,
    /// The entries of the pages merged so far.
    pub days: Seq<ContributionDay>,
    /// How many attempts at the current page have failed.
    pub attempts: nat,
}

/// How a fetch goes on after an event.
pub enum StepView {
    /// Wait `delay_ms` milliseconds, then send the request of `state`.
    Continue { state: FetchModel, delay_ms: nat },
    /// The calendar is complete.
    Finished { days: Seq<ContributionDay> },
    /// The fetch has failed.
    Failed { error: ErrorView },
}

/// Whether the fetch goes on behind a page that was merged: the page says
/// that more follow, it held at least one entry, and it names a cursor that
/// the fetch has not followed yet.
pub open spec fn continues(page: RawPage, seen: Seq<Seq<char>>) -> bool {
    &&& page.has_next_page
    &&& page.days@.len() > 0
    &&& page.end_cursor matches Some(cursor)
    &&& !seen.contains(cursor@)
}

impl FetchModel {
    /// The state before the first request.
    pub open spec fn initial(user: Seq<char>, policy: RetryPolicy) -> FetchModel {
        FetchModel {
            user,
            policy,
            cursor: None,
            seen: Seq::empty(),
            days: Seq::empty(),
            attempts: 0,
        }
    }

    /// What holds of every state that a fetch reaches.
    pub open spec fn wf(self) -> bool {
        &&& strictly_ascending(self.days)
        &&& all_valid(self.days)
        &&& self.attempts == 0 || self.attempts < self.policy.max_attempts
        &&& self.seen.no_duplicates()
        &&& match self.cursor {
            Some(cursor) => self.seen.len() > 0 && self.seen.last() == cursor,
            None => self.seen.len() == 0,
        }
    }

    /// The number of pages merged so far.
    pub open spec fn pages(self) -> nat {
        self.seen.len()
    }

    /// After a failed request: a transient failure is answered by another
    /// attempt while the budget allows one; any other failure, and the last
    /// transient one, ends the fetch with the error that it stands for.
    pub open spec fn on_failure(self, failure: TransportFailure) -> StepView {
        if failure.is_transient() && self.attempts + 1 < self.policy.max_attempts {
            StepView::Continue {
                state: FetchModel { attempts: self.attempts + 1, ..self },
                delay_ms: self.policy.backoff(self.attempts + 1),
            }
        } else {
            StepView::Failed { error: failure.classified() }
        }
    }

    /// After an answer: without a user the fetch fails as not found; without
    /// a page, or with one that cannot be merged, as malformed. Otherwise the
    /// page is merged, and the fetch goes on from the page's cursor at once
    /// or is complete.
    pub open spec fn on_answer(self, answer: RawResponse) -> StepView {
        match answer.user {
            None => StepView::Failed { error: ErrorView::NotFound { user: self.user } },
            Some(user) => match user.page {
                None => StepView::Failed {
                    error: ErrorView::Malformed { detail: MalformedDetail::MissingPage },
                },
                Some(page) => match absorb(self.days, page.days@) {
                    Err(detail) => StepView::Failed { error: ErrorView::Malformed { detail } },
                    Ok(days) => if continues(page, self.seen) {
                        StepView::Continue {
                            state: FetchModel {
                                cursor: option_text(page.end_cursor),
                                seen: self.seen.push(page.end_cursor->0@),
                                days,
                                attempts: 0,
                                ..self
                            },
                            delay_ms: 0,
                        }
                    } else {
                        StepView::Finished { days }
                    },
                },
            },
        }
    }

    /// How the fetch goes on after `event`. A payload that cannot be read
    /// ends it as malformed.
    pub open spec fn step(self, event: TransportEvent) -> StepView {
        match event {
            TransportEvent::Answer(answer) => self.on_answer(answer),
            TransportEvent::Unreadable => StepView::Failed {
                error: ErrorView::Malformed { detail: MalformedDetail::Unreadable },
            },
            TransportEvent::Failure(failure) => self.on_failure(failure),
        }
    }
}

impl View for FetchState {
    type V = FetchModel;

    closed spec fn view(&self) -> FetchModel {
        FetchModel {
            user: self.user@,
            policy: self.policy,
            cursor: option_text(self.cursor),
            seen: texts(self.seen@),
            days: self.calendar@,
            attempts: self.attempts as nat,
        }
    }
}

/// How a fetch goes on after an event.
#[derive(Debug)]
pub enum Step {
    /// Wait `delay_ms` milliseconds, then send the request of `state`.
    Continue { state: FetchState, delay_ms: u64 },
    /// The calendar is complete.
    Finished { calendar: ContributionCalendar },
    /// The fetch has failed.
    Failed { error: UpstreamError },
}

impl View for Step {
    type V = StepView;

    open spec fn view(&self) -> StepView {
        match self {
            Step::Continue { state, delay_ms } => StepView::Continue {
                state: state@,
                delay_ms: *delay_ms as nat,
            },
            Step::Finished { calendar } => StepView::Finished { days: calendar@ },
            Step::Failed { error } => StepView::Failed { error: error@ },
        }
    }
}

/// A step keeps what holds of every state of a fetch, and a calendar that it
/// declares complete is in chronological order with every date valid.
pub proof fn law_step_keeps_wf(state: FetchModel, event: TransportEvent)
    requires
        state.wf(),
    ensures
        state.step(event) matches StepView::Continue { state: next, .. } ==> next.wf(),
        state.step(event) matches StepView::Finished { days } ==> strictly_ascending(days)
            && all_valid(days),
{
    match event {
        TransportEvent::Failure(failure) => {},
        TransportEvent::Unreadable => {},
        TransportEvent::Answer(answer) => {
            if let Some(user) = answer.user {
                if let Some(page) = user.page {
                    if absorb(state.days, page.days@) is Ok {
                        crate::calendar::law_absorb_appends_in_order(state.days, page.days@);
                        if continues(page, state.seen) {
                            let cursor = page.end_cursor->0@;
                            let grown = state.seen.push(cursor);
                            assert forall|i: int, j: int|
                                0 <= i < grown.len() && 0 <= j < grown.len() && i != j implies grown[i]
                                != grown[j] by {
                                if i < state.seen.len() && j < state.seen.len() {
                                } else if i < state.seen.len() {
                                    assert(state.seen.contains(state.seen[i]));
                                } else {
                                    assert(state.seen.contains(state.seen[j]));
                                }
                            }
                        }
                    }
                }
            }
        },
    }
}

/// Decides whether `cursor` is one of `seen`.
fn is_seen(seen: &Vec<String>, cursor: &String) -> (found: bool)
    ensures
        found == texts(seen@).contains(cursor@),
{
    let mut i: usize = 0;
    while i < seen.len()
        invariant
            i <= seen.len(),
            forall|k: int| 0 <= k < i ==> texts(seen@)[k] != cursor@,
        decreases seen.len() - i,
    {
        if seen[i] == *cursor {
            assert(texts(seen@)[i as int] == cursor@);
            return true;
        }
        i = i + 1;
    }
    false
}

impl FetchState {
    /// What holds of every state of a fetch.
    #[verifier::type_invariant]
    pub open spec fn wf(&self) -> bool {
        self@.wf()
    }

    /// The state of a fetch for `user` before its first request.
    pub fn start(user: String, policy: RetryPolicy) -> (state: FetchState)
        ensures
            state@ == FetchModel::initial(user@, policy),
            state@.wf(),
    {
        let state = FetchState {
            user,
            policy,
            cursor: None,
            seen: Vec::new(),
            calendar: ContributionCalendar::new(),
            attempts: 0,
        };
        assert(texts(state.seen@) == Seq::<Seq<char>>::empty());
        state
    }

    /// The variables of the request to send now: the user's name as it was
    /// given, and the cursor to resume from.
    pub fn request(&self) -> (request: Request)
        ensures
            request.login@ == self@.user,
            option_text(request.cursor) == self@.cursor,
    {
        let cursor = match &self.cursor {
            Some(cursor) => Some(cursor.clone()),
            None => None,
        };
        Request { login: self.user.clone(), cursor }
    }

    /// The number of pages merged so far.
    pub fn pages(&self) -> (n: usize)
        ensures
            n == self@.pages(),
    {
        self.seen.len()
    }

    /// How many attempts at the current page have failed.
    pub fn attempts(&self) -> (n: u32)
        ensures
            n == self@.attempts,
    {
        self.attempts
    }

    fn on_failure(self, failure: &TransportFailure) -> (step: Step)
        ensures
            step@ == self@.on_failure(*failure),
    {
        proof {
            use_type_invariant(&self);
        }
        if failure.transient() && self.attempts < self.policy.max_attempts && self.attempts + 1
            < self.policy.max_attempts {
            let failures = self.attempts + 1;
            let delay_ms = self.policy.delay_after(failures);
            let state = FetchState {
                user: self.user,
                policy: self.policy,
                cursor: self.cursor,
                seen: self.seen,
                calendar: self.calendar,
                attempts: failures,
            };
            Step::Continue { state, delay_ms }
        } else {
            Step::Failed { error: failure.classify() }
        }
    }

    fn on_answer(self, answer: &RawResponse) -> (step: Step)
        ensures
            step@ == self@.on_answer(*answer),
    {
        proof {
            use_type_invariant(&self);
            law_step_keeps_wf(self@, TransportEvent::Answer(*answer));
        }
        let user = match &answer.user {
            None => { return Step::Failed { error: UpstreamError::NotFound { user: self.user } }; },
            Some(user) => user,
        };
        let page = match &user.page {
            None => {
                return Step::Failed {
                    error: UpstreamError::Malformed { detail: MalformedDetail::MissingPage },
                };
            },
            Some(page) => page,
        };
        let mut calendar = self.calendar;
        match calendar.merge(&page.days) {
            Err(detail) => { return Step::Failed { error: UpstreamError::Malformed { detail } }; },
            Ok(()) => {},
        }
        if page.has_next_page && page.days.len() > 0 {
            match &page.end_cursor {
                Some(cursor) => {
                    if !is_seen(&self.seen, cursor) {
                        let mut seen = self.seen;
                        let ghost before = texts(seen@);
                        seen.push(cursor.clone());
                        assert(texts(seen@) == before.push(cursor@));
                        let state = FetchState {
                            user: self.user,
                            policy: self.policy,
                            cursor: Some(cursor.clone()),
                            seen,
                            calendar,
                            attempts: 0,
                        };
                        return Step::Continue { state, delay_ms: 0 };
                    }
                },
                None => {},
            }
        }
        Step::Finished { calendar }
    }

    /// Decides how the fetch goes on after `event`, the outcome of the request
    /// that [`FetchState::request`] described.
    pub fn on_event(self, event: &TransportEvent) -> (step: Step)
        ensures
            step@ == self@.step(*event),
            step matches Step::Continue { state, .. } ==> state@.wf(),
            step matches Step::Finished { calendar } ==> calendar.wf(),
    {
        proof {
            use_type_invariant(&self);
            law_step_keeps_wf(self@, *event);
        }
        match event {
            TransportEvent::Answer(answer) => self.on_answer(answer),
            TransportEvent::Unreadable => Step::Failed {
                error: UpstreamError::Malformed { detail: MalformedDetail::Unreadable },
            },
            TransportEvent::Failure(failure) => self.on_failure(failure),
        }
    }
}

} // verus!
