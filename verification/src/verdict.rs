//! The verdict returned for one admission request, and the errors that a
//! malformed payload produces instead of a verdict.

use vstd::prelude::*;

verus! {

/// The accept/reject decision for one admission request.
///
/// The message is absent exactly when the request is accepted; a rejection
/// always carries the reason.
#[derive(Debug)]
pub struct ValidationResponse {
    pub accepted: bool,
    pub message: Option<String>,
}

/// A payload that could not be decoded at all. Such a failure never turns
/// into an accept or reject verdict; it is reported to the caller as is.
#[derive(Debug, PartialEq, Eq, Structural)]
pub enum PayloadError {
    /// The JSON parser refused the request text.
    Malformed,
}

impl ValidationResponse {
    /// The shape every verdict keeps: a rejection carries a message and
    /// an acceptance carries none.
    pub open spec fn wf(self) -> bool {
        self.accepted <==> self.message is None
    }

    /// An accepting verdict, which never carries a message.
    pub fn accept() -> (r: ValidationResponse)
        ensures
            r.accepted,
            r.message is None,
            r.wf(),
    {
        ValidationResponse { accepted: true, message: None }
    }

    /// A rejecting verdict carrying the given reason.
    pub fn reject(message: String) -> (r: ValidationResponse)
        ensures
            !r.accepted,
            r.message == Some(message),
            r.wf(),
    {
        ValidationResponse { accepted: false, message: Some(message) }
    }
}

} // verus!
