//! The one error type through which every failure of the adapter is reported.
use vstd::prelude::*;

verus! {

/// Declares `reqwest::Error` so that it can be carried through verified code.
#[verifier::external_type_specification]
#[verifier::external_body]
pub struct ExReqwestError(reqwest::Error);

/// Every failure of a call made through the adapter.
#[derive(Debug)]
pub enum CallError {
    /// The generic request could not be turned into a native request (for
    /// example its target is not an absolute URL); nothing was sent and the
    /// inner executor was not called.
    Translation(reqwest::Error),
    /// The inner executor was called and its future resolved to a failure.
    Client(reqwest::Error),
}

impl CallError {
    /// Whether the request failed before the inner executor was called.
    pub fn is_translation(&self) -> (r: bool)
        ensures
            r == (self is Translation),
    {
        match self {
            CallError::Translation(_) => true,
            CallError::Client(_) => false,
        }
    }

    /// The error reported by `reqwest`, whichever stage produced it.
    pub fn into_inner(self) -> (r: reqwest::Error)
        ensures
            match self {
                CallError::Translation(e) => r == e,
                CallError::Client(e) => r == e,
            },
    {
        match self {
            CallError::Translation(e) => e,
            CallError::Client(e) => e,
        }
    }
}

/// An error of the inner executor is a client failure.
impl From<reqwest::Error> for CallError {
    fn from(e: reqwest::Error) -> (r: CallError)
        ensures
            r == CallError::Client(e),
    {
        CallError::Client(e)
    }
}

impl vstd::std_specs::convert::FromSpecImpl<reqwest::Error> for CallError {
    open spec fn obeys_from_spec() -> bool {
        true
    }

    open spec fn from_spec(e: reqwest::Error) -> CallError {
        CallError::Client(e)
    }
}

} // verus!
