//! What comes back from one request to the upstream API.

use crate::decimal::{parse_decimal, parsed_decimal};
use crate::error::{ErrorView, TransportCause, UpstreamError};
use vstd::prelude::*;

verus! {

/// One entry of a contribution page as the upstream API sent it.
#[derive(Clone, Debug, PartialEq, Eq)]
pub struct RawDay {
    pub date: String,
    pub count: i64,
}

/// One page of the contribution collection as the upstream API sent it.
#[derive(Clone, Debug, PartialEq, Eq)]
pub struct RawPage {
    pub days: Vec<RawDay>,
    pub has_next_page: bool,
    pub end_cursor: Option<String>,
}

/// The user object of an answer.
#[derive(Clone, Debug, PartialEq, Eq)]
pub struct RawUser {
    pub page: Option<RawPage>,
}

/// The payload of an answer that the transport delivered as a success.
#[derive(Clone, Debug, PartialEq, Eq)]
pub struct RawResponse {
    pub user: Option<RawUser>,
}

/// A request that brought no success.
#[derive(Clone, Copy, Debug, PartialEq, Eq, Structural)]
pub enum TransportFailure {
    /// The request ran into its time limit.
    Timeout,
    /// The connection was reset while the request was under way.
    ConnectionReset,
    /// The upstream API answered, but not with a success: `code` is the HTTP
    /// status, `rate_limited` says whether the payload reports a rate limit,
    /// and `retry_after` is the number of seconds it asks to wait, if it
    /// names one.
    Status { code: u16, rate_limited: bool, retry_after: Option<u64> },
    /// Any other failure of the transport.
    Other,
}

/// The outcome of one request.
#[derive(Clone, Debug, PartialEq, Eq)]
pub enum TransportEvent {
    /// The upstream API answered with a success, and this is its payload.
    Answer(RawResponse),
    /// The upstream API answered with a success whose payload cannot be read.
    Unreadable,
    /// The request brought no success.
    Failure(TransportFailure),
}

/// Whether a status is a success: 200 to 299.
pub open spec fn is_success(code: u16) -> bool {
    200 <= code <= 299
}

/// The seconds that a `Retry-After` header names, where there is one and it
/// is a number of seconds.
pub open spec fn named_seconds(retry_after: Option<&str>) -> Option<u64> {
    match retry_after {
        Some(text) => parsed_decimal(text@),
        None => None,
    }
}

/// What an HTTP response of the upstream API amounts to. A success whose
/// payload reports no rate limit is an answer, or unreadable where the
/// payload could not be read. Everything else is a failure by status.
pub open spec fn interpreted(
    code: u16,
    rate_limited: bool,
    retry_after: Option<&str>,
    payload: Option<RawResponse>,
) -> TransportEvent {
    if is_success(code) && !rate_limited {
        match payload {
            Some(answer) => TransportEvent::Answer(answer),
            None => TransportEvent::Unreadable,
        }
    } else {
        TransportEvent::Failure(
            TransportFailure::Status {
                code,
                rate_limited,
                retry_after: named_seconds(retry_after),
            },
        )
    }
}

/// Turns an HTTP response of the upstream API into an event: `code` is its
/// status, `rate_limited` says whether its payload reports a rate limit,
/// `retry_after` is the text of its `Retry-After` header, and `payload` is
/// what was read from its body, if it could be read.
pub fn interpret(
    code: u16,
    rate_limited: bool,
    retry_after: Option<&str>,
    payload: Option<RawResponse>,
) -> (event: TransportEvent)
    ensures
        event == interpreted(code, rate_limited, retry_after, payload),
{
    if 200 <= code && code <= 299 && !rate_limited {
        match payload {
            Some(answer) => TransportEvent::Answer(answer),
            None => TransportEvent::Unreadable,
        }
    } else {
        let seconds = match retry_after {
            Some(text) => parse_decimal(text),
            None => None,
        };
        TransportEvent::Failure(
            TransportFailure::Status { code, rate_limited, retry_after: seconds },
        )
    }
}

impl TransportFailure {
    /// Whether trying again may help: a timeout or a reset connection.
    pub open spec fn is_transient(self) -> bool {
        self is Timeout || self is ConnectionReset
    }

    /// The error that the failure stands for. A status of 401 or 403 is a
    /// refused credential; otherwise a status of 429, or a payload that
    /// reports a rate limit, is a rate limit with the wait it names; every
    /// other failure is a transport error with its cause.
    pub open spec fn classified(self) -> ErrorView {
        match self {
            TransportFailure::Timeout => ErrorView::Transport { cause: TransportCause::Timeout },
            TransportFailure::ConnectionReset => ErrorView::Transport {
                cause: TransportCause::ConnectionReset,
            },
            TransportFailure::Status { code, rate_limited, retry_after } => {
                if code == 401 || code == 403 {
                    ErrorView::Unauthorized
                } else if code == 429 || rate_limited {
                    ErrorView::RateLimited { retry_after }
                } else {
                    ErrorView::Transport { cause: TransportCause::Status { code } }
                }
            },
            TransportFailure::Other => ErrorView::Transport { cause: TransportCause::Other },
        }
    }

    /// Decides whether trying again may help.
    pub fn transient(&self) -> (retryable: bool)
        ensures
            retryable == self.is_transient(),
    {
        match self {
            TransportFailure::Timeout => true,
            TransportFailure::ConnectionReset => true,
            _ => false,
        }
    }

    /// Turns the failure into the error that it stands for.
    pub fn classify(&self) -> (error: UpstreamError)
        ensures
            error@ == self.classified(),
    {
        match self {
            TransportFailure::Timeout => UpstreamError::Transport { cause: TransportCause::Timeout },
            TransportFailure::ConnectionReset => UpstreamError::Transport {
                cause: TransportCause::ConnectionReset,
            },
            TransportFailure::Status { code, rate_limited, retry_after } => {
                if *code == 401 || *code == 403 {
                    UpstreamError::Unauthorized
                } else if *code == 429 || *rate_limited {
                    UpstreamError::RateLimited { retry_after: *retry_after }
                } else {
                    UpstreamError::Transport { cause: TransportCause::Status { code: *code } }
                }
            },
            TransportFailure::Other => UpstreamError::Transport { cause: TransportCause::Other },
        }
    }
}

} // verus!
