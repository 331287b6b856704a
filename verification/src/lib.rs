//! Cursor-paginated retrieval of a user's public contribution history.
//!
//! The crate holds the decisions of the fetch protocol: which request to send
//! next, how an answer of the upstream API is validated and merged into one
//! ordered calendar, when the pagination ends, how failures are classified and
//! retried, and how the outcome is rendered as an HTTP response. Sending the
//! requests and serving HTTP is left to the caller, who feeds the outcome of
//! each request back into [`fetcher::FetchState::on_event`].
//!
//! - [`date`]: calendar days and their text form.
//! - [`decimal`]: numbers in decimal digits.
//! - [`calendar`]: the ordered calendar and the merging of a page.
//! - [`transport`]: what one request brings back, and the classification of
//!   failures.
//! - [`retry`]: the retry budget and the waits between attempts.
//! - [`fetcher`]: the state machine of one fetch.
//! - [`replay`]: a fetch run over recorded outcomes.
//! - [`service`]: the responses of the HTTP surface.
//! - [`config`]: what the server is started with.
//! - [`laws`]: what holds of every fetch.

pub mod calendar;
pub mod config;
pub mod date;
pub mod decimal;
pub mod error;
pub mod fetcher;
pub mod laws;
pub mod replay;
pub mod retry;
pub mod service;
pub mod transport;

pub use config::{AppState, ServerConfig};
