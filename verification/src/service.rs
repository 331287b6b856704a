//! The HTTP face of a fetch: which request is served, and how the outcome of
//! its fetch is rendered.

use crate::calendar::{ContributionCalendar, ContributionDay};
use crate::date::iso_text;
use crate::error::{ErrorView, UpstreamError};
use crate::fetcher::{FetchModel, FetchState};
use crate::retry::RetryPolicy;
use vstd::prelude::*;

verus! {

/// The seconds that a rate-limited response asks to wait when upstream named
/// none.
pub const DEFAULT_RETRY_AFTER_SECS: u64 = 60;

/// One day of a response body.
#[derive(Clone, Debug, PartialEq, Eq)]
pub struct RenderedDay {
    /// The day as `YYYY-MM-DD`.
    pub date: String,
    pub count: u64,
}

/// The body of a response.
#[derive(Clone, Debug, PartialEq, Eq)]
pub enum ResponseBody {
    /// The calendar, earliest day first.
    Days { days: Vec<RenderedDay> },
    /// The kind of an error and a sentence on it.
    Error { kind: String, message: String },
}

/// A response: the status, the seconds of its `Retry-After` header where it
/// has one, and the body.
#[derive(Clone, Debug, PartialEq, Eq)]
pub struct HttpResponse {
    pub status: u16,
    pub retry_after: Option<u64>,
    pub body: ResponseBody,
}

/// A [`ResponseBody`] as plain values.
pub enum BodyView {
    Days { days: Seq<(Seq<char>, u64)> },
    Error { kind: Seq<char>, message: Seq<char> },
}

/// An [`HttpResponse`] as plain values.
pub struct ResponseView {
    pub status: u16,
    pub retry_after: Option<u64>,
    pub body: BodyView,
}

impl View for RenderedDay {
    type V = (Seq<char>, u64);

    open spec fn view(&self) -> (Seq<char>, u64) {
        (self.date@, self.count)
    }
}

impl View for ResponseBody {
    type V = BodyView;

    open spec fn view(&self) -> BodyView {
        match self {
            ResponseBody::Days { days } => BodyView::Days {
                days: Seq::new(days@.len(), |i: int| days@[i]@),
            },
            ResponseBody::Error { kind, message } => BodyView::Error {
                kind: kind@,
                message: message@,
            },
        }
    }
}

impl View for HttpResponse {
    type V = ResponseView;

    open spec fn view(&self) -> ResponseView {
        ResponseView { status: self.status, retry_after: self.retry_after, body: self.body@ }
    }
}

/// The status that an error is answered with: 404 for an unknown user, 503
/// for a rate limit, 502 for every other error, all of which are faults on
/// the way to upstream.
pub open spec fn status_of(error: ErrorView) -> u16 {
    match error {
        ErrorView::NotFound { .. } => 404,
        ErrorView::RateLimited { .. } => 503,
        ErrorView::Unauthorized => 502,
        ErrorView::Transport { .. } => 502,
        ErrorView::Malformed { .. } => 502,
    }
}

/// The seconds of the `Retry-After` header of an error's response: for a rate
/// limit the wait that upstream named, or the default where it named none;
/// no header for any other error.
pub open spec fn retry_after_of(error: ErrorView) -> Option<u64> {
    match error {
        ErrorView::RateLimited { retry_after: Some(seconds) } => Some(seconds),
        ErrorView::RateLimited { retry_after: None } => Some(DEFAULT_RETRY_AFTER_SECS),
        _ => None,
    }
}

/// The entries of a calendar as they stand in a body.
pub open spec fn rendered_days(days: Seq<ContributionDay>) -> Seq<(Seq<char>, u64)> {
    Seq::new(days.len(), |i: int| (iso_text(days[i].date), days[i].count))
}

/// The response to a fetch that completed: 200 with the calendar.
pub open spec fn response_to_calendar(days: Seq<ContributionDay>) -> ResponseView {
    ResponseView { status: 200, retry_after: None, body: BodyView::Days { days: rendered_days(days) } }
}

/// The response to a fetch that failed.
pub open spec fn response_to_error(error: ErrorView) -> ResponseView {
    ResponseView {
        status: status_of(error),
        retry_after: retry_after_of(error),
        body: BodyView::Error { kind: error.kind(), message: error.message() },
    }
}

/// The response to a request that names no user: 400.
pub open spec fn response_to_empty_name() -> ResponseView {
    ResponseView {
        status: 400,
        retry_after: None,
        body: BodyView::Error { kind: "bad_request"@, message: "user name is empty"@ },
    }
}

/// Computes the status that an error is answered with.
pub fn http_status(error: &UpstreamError) -> (status: u16)
    ensures
        status == status_of(error@),
{
    match error {
        UpstreamError::NotFound { .. } => 404,
        UpstreamError::RateLimited { .. } => 503,
        UpstreamError::Unauthorized => 502,
        UpstreamError::Transport { .. } => 502,
        UpstreamError::Malformed { .. } => 502,
    }
}

/// Computes the seconds of the `Retry-After` header of an error's response.
pub fn retry_after_seconds(error: &UpstreamError) -> (seconds: Option<u64>)
    ensures
        seconds == retry_after_of(error@),
{
    match error {
        UpstreamError::RateLimited { retry_after: Some(seconds) } => Some(*seconds),
        UpstreamError::RateLimited { retry_after: None } => Some(DEFAULT_RETRY_AFTER_SECS),
        _ => None,
    }
}

/// Renders a calendar's entries for a body, each date as `YYYY-MM-DD`.
pub fn render_days(calendar: &ContributionCalendar) -> (days: Vec<RenderedDay>)
    ensures
        (ResponseBody::Days { days })@ == (BodyView::Days { days: rendered_days(calendar@) }),
{
    let entries = calendar.days();
    let mut days: Vec<RenderedDay> = Vec::new();
    let mut i: usize = 0;
    while i < entries.len()
        invariant
            i <= entries.len(),
            entries@ == calendar@,
            days@.len() == i,
            forall|k: int| 0 <= k < i ==> (#[trigger] days@[k])@ == rendered_days(calendar@)[k],
        decreases entries.len() - i,
    {
        let entry = entries[i];
        days.push(RenderedDay { date: entry.date.to_iso_string(), count: entry.count });
        i = i + 1;
    }
    assert(Seq::new(days@.len(), |i: int| days@[i]@) =~= rendered_days(calendar@));
    days
}

/// Renders the response to a fetch that completed.
pub fn respond_with_calendar(calendar: &ContributionCalendar) -> (response: HttpResponse)
    ensures
        response@ == response_to_calendar(calendar@),
{
    HttpResponse {
        status: 200,
        retry_after: None,
        body: ResponseBody::Days { days: render_days(calendar) },
    }
}

/// Renders the response to a fetch that failed.
pub fn respond_with_error(error: &UpstreamError) -> (response: HttpResponse)
    ensures
        response@ == response_to_error(error@),
{
    HttpResponse {
        status: http_status(error),
        retry_after: retry_after_seconds(error),
        body: ResponseBody::Error {
            kind: String::from_str(error.kind()),
            message: error.message(),
        },
    }
}

/// Renders the response to the outcome of a fetch.
pub fn respond(outcome: &Result<ContributionCalendar, UpstreamError>) -> (response: HttpResponse)
    ensures
        response@ == match outcome {
            Ok(calendar) => response_to_calendar(calendar@),
            Err(error) => response_to_error(error@),
        },
{
    match outcome {
        Ok(calendar) => respond_with_calendar(calendar),
        Err(error) => respond_with_error(error),
    }
}

/// Takes up the request for the user `name`: an empty name is answered with
/// 400 at once; for any other a fetch starts, with the name as it was given.
pub fn accept(name: String, policy: RetryPolicy) -> (taken: Result<FetchState, HttpResponse>)
    ensures
        match taken {
            Ok(state) => name@.len() > 0 && state@ == FetchModel::initial(name@, policy)
                && state@.wf(),
            Err(response) => name@.len() == 0 && response@ == response_to_empty_name(),
        },
{
    if name.as_str().is_empty() {
        Err(
            HttpResponse {
                status: 400,
                retry_after: None,
                body: ResponseBody::Error {
                    kind: String::from_str("bad_request"),
                    message: String::from_str("user name is empty"),
                },
            },
        )
    } else {
        Ok(FetchState::start(name, policy))
    }
}

} // verus!
