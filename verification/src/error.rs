//! The errors of a fetch.

use vstd::prelude::*;

verus! {

/// Why a request got no usable answer.
#[derive(Clone, Copy, Debug, PartialEq, Eq, Structural)]
pub enum TransportCause {
    /// The request ran into its time limit.
    Timeout,
    /// The connection was reset while the request was under way.
    ConnectionReset,
    /// The upstream API answered with a status that is no success.
    Status { code: u16 },
    /// Any other failure of the transport.
    Other,
}

/// What is wrong with an answer that arrived.
#[derive(Clone, Copy, Debug, PartialEq, Eq, Structural)]
pub enum MalformedDetail {
    /// The payload cannot be read as an answer at all.
    Unreadable,
    /// The user is there, the contribution page is not.
    MissingPage,
    /// An entry is not dated by a calendar day written as `YYYY-MM-DD`.
    NotADay,
    /// An entry counts fewer than zero contributions.
    NegativeCount,
    /// An entry's date is already in the calendar.
    DuplicateDate,
    /// An entry's date is new, but not later than the entry before it.
    OutOfOrder,
}

/// The ways in which a fetch fails.
#[derive(Clone, Debug, PartialEq, Eq)]
pub enum UpstreamError {
    /// The upstream API refused the credential.
    Unauthorized,
    /// The upstream API asks to slow down, perhaps saying for how many seconds.
    RateLimited { retry_after: Option<u64> },
    /// The upstream API knows no user of this name.
    NotFound { user: String },
    /// The request failed on its way.
    Transport { cause: TransportCause },
    /// The answer is not of the agreed shape.
    Malformed { detail: MalformedDetail },
}

/// An [`UpstreamError`] with the user's name as a sequence of characters.
pub enum ErrorView {
    Unauthorized,
    RateLimited { retry_after: Option<u64> },
    NotFound { user: Seq<char> },
    Transport { cause: TransportCause },
    Malformed { detail: MalformedDetail },
}

impl View for UpstreamError {
    type V = ErrorView;

    open spec fn view(&self) -> ErrorView {
        match self {
            UpstreamError::Unauthorized => ErrorView::Unauthorized,
            UpstreamError::RateLimited { retry_after } => ErrorView::RateLimited {
                retry_after: *retry_after,
            },
            UpstreamError::NotFound { user } => ErrorView::NotFound { user: user@ },
            UpstreamError::Transport { cause } => ErrorView::Transport { cause: *cause },
            UpstreamError::Malformed { detail } => ErrorView::Malformed { detail: *detail },
        }
    }
}

impl ErrorView {
    /// The word that names the error's variant in an error body.
    pub open spec fn kind(self) -> Seq<char> {
        match self {
            ErrorView::Unauthorized => "unauthorized"@,
            ErrorView::RateLimited { .. } => "rate_limited"@,
            ErrorView::NotFound { .. } => "not_found"@,
            ErrorView::Transport { .. } => "transport"@,
            ErrorView::Malformed { .. } => "malformed"@,
        }
    }

    /// The sentence that describes the error in an error body.
    pub open spec fn message(self) -> Seq<char> {
        match self {
            ErrorView::Unauthorized => "upstream refused the credential"@,
            ErrorView::RateLimited { .. } => "upstream rate limit reached"@,
            ErrorView::NotFound { user } => "no such user: "@ + user,
            ErrorView::Transport { cause } => match cause {
                TransportCause::Timeout => "upstream request timed out"@,
                TransportCause::ConnectionReset => "connection to upstream was reset"@,
                TransportCause::Status { .. } => "upstream answered with an error status"@,
                TransportCause::Other => "upstream request failed"@,
            },
            ErrorView::Malformed { detail } => match detail {
                MalformedDetail::Unreadable => "answer cannot be read"@,
                MalformedDetail::MissingPage => "answer holds no contribution page"@,
                MalformedDetail::NotADay => "entry is not dated by a calendar day"@,
                MalformedDetail::NegativeCount => "entry has a negative count"@,
                MalformedDetail::DuplicateDate => "entry repeats a date"@,
                MalformedDetail::OutOfOrder => "entries are not in chronological order"@,
            },
        }
    }
}

impl UpstreamError {
    /// The word that names the error's variant in an error body.
    pub fn kind(&self) -> (word: &'static str)
        ensures
            word@ == self@.kind(),
    {
        match self {
            UpstreamError::Unauthorized => "unauthorized",
            UpstreamError::RateLimited { .. } => "rate_limited",
            UpstreamError::NotFound { .. } => "not_found",
            UpstreamError::Transport { .. } => "transport",
            UpstreamError::Malformed { .. } => "malformed",
        }
    }

    /// The sentence that describes the error in an error body.
    pub fn message(&self) -> (sentence: String)
        ensures
            sentence@ == self@.message(),
    {
        match self {
            UpstreamError::Unauthorized => String::from_str("upstream refused the credential"),
            UpstreamError::RateLimited { .. } => String::from_str("upstream rate limit reached"),
            UpstreamError::NotFound { user } => {
                String::from_str("no such user: ").concat(user.as_str())
            },
            UpstreamError::Transport { cause } => match cause {
                TransportCause::Timeout => String::from_str("upstream request timed out"),
                TransportCause::ConnectionReset => String::from_str(
                    "connection to upstream was reset",
                ),
                TransportCause::Status { .. } => String::from_str(
                    "upstream answered with an error status",
                ),
                TransportCause::Other => String::from_str("upstream request failed"),
            },
            UpstreamError::Malformed { detail } => match detail {
                MalformedDetail::Unreadable => String::from_str("answer cannot be read"),
                MalformedDetail::MissingPage => String::from_str(
                    "answer holds no contribution page",
                ),
                MalformedDetail::NotADay => String::from_str(
                    "entry is not dated by a calendar day",
                ),
                MalformedDetail::NegativeCount => String::from_str("entry has a negative count"),
                MalformedDetail::DuplicateDate => String::from_str("entry repeats a date"),
                MalformedDetail::OutOfOrder => String::from_str(
                    "entries are not in chronological order",
                ),
            },
        }
    }
}

} // verus!
