//! What holds of every fetch.

use crate::calendar::{absorb, all_valid, law_absorb_appends_in_order, strictly_ascending};
use crate::decimal::{decimal_text, law_parse_inverts_decimal_text};
use crate::error::ErrorView;
use crate::fetcher::{continues, law_step_keeps_wf, FetchModel, StepView};
use crate::replay::{run, RunView};
use crate::service::{response_to_error, DEFAULT_RETRY_AFTER_SECS};
use crate::transport::{interpreted, RawResponse, TransportEvent, TransportFailure};
use vstd::prelude::*;

verus! {

/// The cursor that an event hands back: that of the page of an answer.
pub open spec fn returned_cursor(event: TransportEvent) -> Option<Seq<char>> {
    match event {
        TransportEvent::Answer(answer) => match answer.user {
            Some(user) => match user.page {
                Some(page) => match page.end_cursor {
                    Some(cursor) => Some(cursor@),
                    None => None,
                },
                None => None,
            },
            None => None,
        },
        _ => None,
    }
}

/// Whether no fetch goes on behind the event, whatever its state: an answer
/// that lacks the user or the page, or whose page says that it is the last,
/// holds no entry or names no cursor; a payload that cannot be read; a
/// failure that is not transient.
pub open spec fn is_closing(event: TransportEvent) -> bool {
    match event {
        TransportEvent::Answer(answer) => match answer.user {
            Some(user) => match user.page {
                Some(page) => !page.has_next_page || page.days@.len() == 0 || page.end_cursor
                    is None,
                None => true,
            },
            None => true,
        },
        TransportEvent::Unreadable => true,
        TransportEvent::Failure(failure) => !failure.is_transient(),
    }
}

/// Whether an event is a failure that another attempt may mend.
pub open spec fn is_transient_failure(event: TransportEvent) -> bool {
    event matches TransportEvent::Failure(failure) && failure.is_transient()
}

/// Whether `prefix` is the beginning of `whole`.
pub open spec fn begins<T>(whole: Seq<T>, prefix: Seq<T>) -> bool {
    prefix.len() <= whole.len() && whole.subrange(0, prefix.len() as int) == prefix
}

/// A step that goes on keeps every cursor seen and every entry merged.
proof fn lemma_step_keeps_progress(state: FetchModel, event: TransportEvent)
    requires
        state.wf(),
    ensures
        state.step(event) matches StepView::Continue { state: next, .. } ==> begins(
            next.seen,
            state.seen,
        ) && begins(next.days, state.days) && next.policy == state.policy && next.user
            == state.user,
        state.step(event) matches StepView::Finished { days } ==> begins(days, state.days),
{
    assert(state.seen.subrange(0, state.seen.len() as int) == state.seen);
    assert(state.days.subrange(0, state.days.len() as int) == state.days);
    if let TransportEvent::Answer(answer) = event {
        if let Some(user) = answer.user {
            if let Some(page) = user.page {
                if let Ok(days) = absorb(state.days, page.days@) {
                    law_absorb_appends_in_order(state.days, page.days@);
                    assert(days.subrange(0, state.days.len() as int) == state.days);
                    if continues(page, state.seen) {
                        let grown = state.seen.push(page.end_cursor->0@);
                        assert(grown.subrange(0, state.seen.len() as int) == state.seen);
                    }
                }
            }
        }
    }
}

/// The calendar of a completed fetch is in chronological order, holds no
/// date twice and only days that exist, and begins with the entries that were
/// merged before.
pub proof fn law_result_is_ordered(state: FetchModel, events: Seq<TransportEvent>, at: nat)
    requires
        state.wf(),
        run(state, events, at) is Finished,
    ensures
        strictly_ascending(run(state, events, at)->days),
        all_valid(run(state, events, at)->days),
        forall|i: int, j: int|
            #![trigger run(state, events, at)->days[i], run(state, events, at)->days[j]]
            0 <= i < j < run(state, events, at)->days.len() ==> run(state, events, at)->days[i].date
                != run(state, events, at)->days[j].date,
        begins(run(state, events, at)->days, state.days),
    decreases events.len() - at,
{
    let event = events[at as int];
    law_step_keeps_wf(state, event);
    lemma_step_keeps_progress(state, event);
    match state.step(event) {
        StepView::Continue { state: next, .. } => {
            law_result_is_ordered(next, events, at + 1);
            let days = run(state, events, at)->days;
            assert(days.subrange(0, state.days.len() as int) == next.days.subrange(
                0,
                state.days.len() as int,
            ));
        },
        _ => {},
    }
    let days = run(state, events, at)->days;
    assert forall|i: int, j: int| 0 <= i < j < days.len() implies days[i].date
        != days[j].date by {
        assert(days[i].date.before(days[j].date));
    }
}

/// A fetch ends with the first closing event at the latest: no request is
/// sent behind it. So a fetch of pages of which one says that it is the last
/// ends with that page.
pub proof fn law_closing_event_ends_fetch(
    state: FetchModel,
    events: Seq<TransportEvent>,
    at: nat,
    last: nat,
)
    requires
        state.wf(),
        at <= last < events.len(),
        is_closing(events[last as int]),
    ensures
        !(run(state, events, at) is Pending),
        run(state, events, at) matches RunView::Finished { used, .. } ==> at < used <= last + 1,
        run(state, events, at) matches RunView::Failed { used, .. } ==> at < used <= last + 1,
    decreases last - at,
{
    let event = events[at as int];
    law_step_keeps_wf(state, event);
    if let StepView::Continue { state: next, .. } = state.step(event) {
        law_closing_event_ends_fetch(next, events, at + 1, last);
    }
}

/// A fetch ends, at the latest, with an answer whose cursor it has already
/// followed.
pub proof fn law_seen_cursor_ends_fetch(
    state: FetchModel,
    events: Seq<TransportEvent>,
    at: nat,
    last: nat,
)
    requires
        state.wf(),
        at <= last < events.len(),
        returned_cursor(events[last as int]) matches Some(cursor) && state.seen.contains(cursor),
    ensures
        !(run(state, events, at) is Pending),
        run(state, events, at) matches RunView::Finished { used, .. } ==> at < used <= last + 1,
        run(state, events, at) matches RunView::Failed { used, .. } ==> at < used <= last + 1,
    decreases last - at,
{
    let event = events[at as int];
    let cursor = returned_cursor(events[last as int])->0;
    law_step_keeps_wf(state, event);
    lemma_step_keeps_progress(state, event);
    if let StepView::Continue { state: next, .. } = state.step(event) {
        let i = choose|i: int| 0 <= i < state.seen.len() && state.seen[i] == cursor;
        assert(next.seen.subrange(0, state.seen.len() as int)[i] == cursor);
        assert(next.seen[i] == cursor);
        law_seen_cursor_ends_fetch(next, events, at + 1, last);
    }
}

/// No cursor is followed twice: when two answers hand back the same cursor,
/// the fetch ends with the second at the latest.
pub proof fn law_repeated_cursor_ends_fetch(
    state: FetchModel,
    events: Seq<TransportEvent>,
    at: nat,
    first: nat,
    second: nat,
)
    requires
        state.wf(),
        at <= first < second < events.len(),
        returned_cursor(events[first as int]) is Some,
        returned_cursor(events[first as int]) == returned_cursor(events[second as int]),
    ensures
        !(run(state, events, at) is Pending),
        run(state, events, at) matches RunView::Finished { used, .. } ==> at < used <= second + 1,
        run(state, events, at) matches RunView::Failed { used, .. } ==> at < used <= second + 1,
    decreases first - at,
{
    let event = events[at as int];
    law_step_keeps_wf(state, event);
    if let StepView::Continue { state: next, .. } = state.step(event) {
        if at < first {
            law_repeated_cursor_ends_fetch(next, events, at + 1, first, second);
        } else {
            let cursor = returned_cursor(event)->0;
            assert(next.seen.last() == cursor);
            assert(next.seen.contains(cursor));
            law_seen_cursor_ends_fetch(next, events, at + 1, second);
        }
    }
}

/// Each request either ends the fetch, brings one page more, or uses up one
/// of the attempts that the page has left. So a fetch that still goes on has
/// sent no more requests than the budget allows for the pages it has merged
/// and the one it is at.
pub proof fn law_requests_are_bounded(state: FetchModel, events: Seq<TransportEvent>, at: nat)
    requires
        state.wf(),
        state.policy.wf(),
        at <= events.len(),
        run(state, events, at) is Pending,
    ensures
        (events.len() - at) + state.pages() * state.policy.max_attempts + state.attempts
            <= run(state, events, at)->state.pages() * state.policy.max_attempts + run(
            state,
            events,
            at,
        )->state.attempts,
        run(state, events, at)->state.attempts < state.policy.max_attempts,
    decreases events.len() - at,
{
    if at < events.len() {
        let event = events[at as int];
        let budget = state.policy.max_attempts as int;
        law_step_keeps_wf(state, event);
        lemma_step_keeps_progress(state, event);
        let next = state.step(event)->Continue_state;
        law_requests_are_bounded(next, events, at + 1);
        assert((state.pages() + 1) * budget == state.pages() * budget + budget)
            by (nonlinear_arith);
    }
}

/// An answer is judged alike whether or not attempts at its page have failed
/// before; only the count of failed attempts is forgotten.
pub proof fn law_answer_ignores_failed_attempts(
    state: FetchModel,
    attempts: nat,
    event: TransportEvent,
)
    requires
        event is Answer,
    ensures
        (FetchModel { attempts, ..state }).step(event) == state.step(event),
{
}

/// A page is given as many attempts as the policy allows: while fewer have
/// failed, transient failures are answered by another attempt at the same
/// page, and the answer that then arrives counts as if none had failed.
pub proof fn law_transient_failures_are_retried(
    state: FetchModel,
    events: Seq<TransportEvent>,
    at: nat,
    failures: nat,
)
    requires
        state.wf(),
        state.attempts + failures < state.policy.max_attempts,
        at + failures <= events.len(),
        forall|i: int| at <= i < at + failures ==> is_transient_failure(#[trigger] events[i]),
    ensures
        run(state, events, at) == run(
            FetchModel { attempts: state.attempts + failures, ..state },
            events,
            at + failures,
        ),
    decreases failures,
{
    if failures > 0 {
        let event = events[at as int];
        assert(is_transient_failure(event));
        let next = FetchModel { attempts: state.attempts + 1, ..state };
        assert(state.step(event) matches StepView::Continue { state: s, .. } && s == next);
        law_transient_failures_are_retried(next, events, at + 1, (failures - 1) as nat);
    } else {
        assert(FetchModel { attempts: state.attempts + failures, ..state } == state);
    }
}

/// The retry budget is exact: when every attempt at a page fails
/// transiently, the fetch fails with the transport error of the attempt that
/// used the budget up, and with no attempt more.
pub proof fn law_retry_budget_is_exact(state: FetchModel, events: Seq<TransportEvent>, at: nat)
    requires
        state.wf(),
        state.policy.wf(),
        state.attempts == 0,
        at + state.policy.max_attempts <= events.len(),
        forall|i: int|
            at <= i < at + state.policy.max_attempts ==> is_transient_failure(
                #[trigger] events[i],
            ),
    ensures
        run(state, events, at) == (RunView::Failed {
            error: events[at + state.policy.max_attempts - 1]->Failure_0.classified(),
            used: at + state.policy.max_attempts as nat,
        }),
        events[at + state.policy.max_attempts - 1]->Failure_0.classified() is Transport,
{
    let budget = state.policy.max_attempts as nat;
    let spent = (budget - 1) as nat;
    law_transient_failures_are_retried(state, events, at, spent);
    let worn = FetchModel { attempts: spent, ..state };
    let event = events[(at + spent) as int];
    assert(is_transient_failure(event));
    assert(worn.step(event) == StepView::Failed { error: event->Failure_0.classified() });
    assert(run(worn, events, at + spent) == RunView::Failed {
        error: event->Failure_0.classified(),
        used: at + spent + 1,
    });
}

/// Only a timeout or a reset connection is ever answered by another attempt:
/// a refused credential, a rate limit and every other failure end the fetch
/// at once, with the error that the failure stands for.
pub proof fn law_only_transient_failures_are_retried(state: FetchModel, failure: TransportFailure)
    requires
        !failure.is_transient(),
    ensures
        state.step(TransportEvent::Failure(failure)) == (StepView::Failed {
            error: failure.classified(),
        }),
{
}

/// A rate limit reaches the caller as it came: a failure with status 429, or
/// one whose payload reports a rate limit under a status other than 401 and
/// 403, ends the fetch as rate limited, and the response is a 503 whose
/// `Retry-After` header holds the seconds that upstream named, or the default
/// where it named none.
pub proof fn law_rate_limit_reaches_header(
    state: FetchModel,
    code: u16,
    rate_limited: bool,
    retry_after: Option<u64>,
)
    requires
        code == 429 || (rate_limited && code != 401 && code != 403),
    ensures
        state.step(
            TransportEvent::Failure(TransportFailure::Status { code, rate_limited, retry_after }),
        ) == (StepView::Failed { error: ErrorView::RateLimited { retry_after } }),
        response_to_error(ErrorView::RateLimited { retry_after }).status == 503,
        response_to_error(ErrorView::RateLimited { retry_after }).retry_after == Some(
            match retry_after {
                Some(seconds) => seconds,
                None => DEFAULT_RETRY_AFTER_SECS,
            },
        ),
{
}

/// The wait that upstream asks for reaches the caller unchanged: when a
/// response of status 429 names a number of seconds in its `Retry-After`
/// header, the fetch ends as rate limited, and the `Retry-After` header of the
/// 503 that answers the caller holds that number.
pub proof fn law_retry_after_is_handed_on(
    state: FetchModel,
    seconds: u64,
    header: &str,
    rate_limited: bool,
    payload: Option<RawResponse>,
)
    requires
        header@ == decimal_text(seconds as nat),
    ensures
        state.step(interpreted(429, rate_limited, Some(header), payload)) == (StepView::Failed {
            error: ErrorView::RateLimited { retry_after: Some(seconds) },
        }),
        response_to_error(ErrorView::RateLimited { retry_after: Some(seconds) }).status == 503,
        response_to_error(ErrorView::RateLimited { retry_after: Some(seconds) }).retry_after
            == Some(seconds),
{
    law_parse_inverts_decimal_text(seconds as nat);
}

/// An answer without a user ends the fetch as not found, under the name that
/// the fetch was started with, and the response is a 404.
pub proof fn law_missing_user_is_not_found(state: FetchModel, answer: RawResponse)
    requires
        answer.user is None,
    ensures
        state.step(TransportEvent::Answer(answer)) == (StepView::Failed {
            error: ErrorView::NotFound { user: state.user },
        }),
        response_to_error(ErrorView::NotFound { user: state.user }).status == 404,
{
}

/// The name that a fetch was started with is the name of each of its
/// requests: no step changes it.
pub proof fn law_user_is_passed_through(state: FetchModel, events: Seq<TransportEvent>, at: nat)
    requires
        state.wf(),
    ensures
        run(state, events, at) matches RunView::Pending { state: last } ==> last.user
            == state.user,
    decreases events.len() - at,
{
    if at < events.len() {
        let event = events[at as int];
        law_step_keeps_wf(state, event);
        lemma_step_keeps_progress(state, event);
        if let StepView::Continue { state: next, .. } = state.step(event) {
            law_user_is_passed_through(next, events, at + 1);
        }
    }
}

} // verus!
