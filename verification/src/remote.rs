//! What is exchanged with the remote service, as plain values.
//!
//! The requests are sent by the caller. This module says what a request
//! holds and what an answer means.

use vstd::prelude::*;
use vstd::string::StringExecFns;

verus! {

/// How a request to the remote service ended.
#[derive(Debug)]
pub enum HttpOutcome {
    /// An answer was received.
    Response { status: u16, body: String },
    /// The request could not be sent, or no answer came back.
    Unreachable,
}

/// The mathematical content of an [`HttpOutcome`].
pub enum HttpOutcomeView {
    Response { status: u16, body: Seq<char> },
    Unreachable,
}

impl View for HttpOutcome {
    type V = HttpOutcomeView;

    open spec fn view(&self) -> HttpOutcomeView {
        match *self {
            HttpOutcome::Response { status, body } => HttpOutcomeView::Response {
                status,
                body: body@,
            },
            HttpOutcome::Unreachable => HttpOutcomeView::Unreachable,
        }
    }
}

/// Whether `status` reports success: it lies in 200..=299.
pub open spec fn status_is_success(status: u16) -> bool {
    200 <= status <= 299
}

/// Whether `status` reports success.
pub fn is_success(status: u16) -> (success: bool)
    ensures
        success == status_is_success(status),
{
    200 <= status && status <= 299
}

/// The value of the authorization header for the credential `key`.
pub open spec fn bearer_header(key: Seq<char>) -> Seq<char> {
    "Bearer "@ + key
}

/// The value of the authorization header for the credential `key`.
pub fn bearer(key: &str) -> (header: String)
    ensures
        header@ == bearer_header(key@),
{
    let mut header: String = "Bearer ".to_string();
    header.append(key);
    header
}

} // verus!
