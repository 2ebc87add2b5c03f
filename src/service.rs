//! The adapter service: it translates a generic request into a native one and
//! hands it to the inner executor, or keeps the translation error for later.
use vstd::prelude::*;

use crate::error::CallError;
use crate::future::{ExecuteRequestFuture, Inner, Poll};

verus! {

/// Declares `http::Request` so that generic requests can pass through.
#[verifier::external_type_specification]
#[verifier::external_body]
#[verifier::reject_recursive_types(T)]
pub struct ExHttpRequest<T>(http::Request<T>);

/// Declares `reqwest::Request`, the inner executor's native request.
#[verifier::external_type_specification]
#[verifier::external_body]
pub struct ExReqwestRequest(reqwest::Request);

/// Declares `reqwest::Body`, the body of a native request.
#[verifier::external_type_specification]
#[verifier::external_body]
pub struct ExReqwestBody(reqwest::Body);

/// The native request that a generic request translates to, or the error that
/// keeps it from being one. It depends on the request alone: `reqwest` parses
/// the target's text as a URL and moves the other parts over.
pub uninterp spec fn translation_of(req: http::Request<reqwest::Body>) -> Result<reqwest::Request, reqwest::Error>;

/// Relies on `reqwest::Request::try_from` for `http::Request<reqwest::Body>`:
/// method, headers, version, extensions and body move over unchanged, and the
/// target is parsed as a URL, which fails on a relative or malformed target.
/// The outcome is a function of the request alone.
#[verifier::external_body]
fn native_request(req: http::Request<reqwest::Body>) -> (r: Result<reqwest::Request, reqwest::Error>)
    ensures
        r == translation_of(req),
{
    reqwest::Request::try_from(req)
}

/// Adapter that serves a generic HTTP service through an inner executor of
/// native `reqwest` requests, such as `reqwest::Client`.
#[derive(Debug)]
pub struct HttpClientService<S>(pub S);

/// Hands a translated request to the inner executor, or keeps the error that
/// translation gave: the executor is called once on success and not at all on
/// failure.
pub fn dispatch<S, F, D>(inner: &mut S, translated: Result<reqwest::Request, reqwest::Error>, execute: D) -> (r: ExecuteRequestFuture<F>) where
    D: FnOnce(&mut S, reqwest::Request) -> F,
    requires
        forall|s: &mut S, n: reqwest::Request| #[trigger] execute.requires((s, n)),
    ensures
        match translated {
            Ok(req) => exists|s: &mut S, fut: F| #[trigger] execute.ensures((s, req), fut)
                && *s == *old(inner) && *final(s) == *final(inner) && r.state() == (Inner::Future { fut }),
            Err(e) => r.state() == (Inner::<F>::Error { error: CallError::Translation(e) })
                && *final(inner) == *old(inner),
        },
{
    let future = match translated {
        Ok(req) => Ok(execute(inner, req)),
        Err(e) => Err(e),
    };
    ExecuteRequestFuture::new(future)
}

impl<S> HttpClientService<S> {
    /// The adapter is always ready: translation happens inside the call and
    /// any backpressure is the inner executor's own.
    pub fn poll_ready(&mut self) -> (r: Poll<Result<(), CallError>>)
        ensures
            r == Poll::<Result<(), CallError>>::Ready(Ok(())),
            *final(self) == *old(self),
    {
        Poll::Ready(Ok(()))
    }

    /// Translates `req` and, when that succeeds, hands the native request to
    /// the inner executor through `execute`, once. Never fails itself: a
    /// translation error is stored in the returned future and the inner
    /// executor is left alone.
    pub fn call<F, D>(&mut self, req: http::Request<reqwest::Body>, execute: D) -> (r: ExecuteRequestFuture<F>) where
        D: FnOnce(&mut S, reqwest::Request) -> F,
        requires
            forall|s: &mut S, n: reqwest::Request| #[trigger] execute.requires((s, n)),
        ensures
            match translation_of(req) {
                Ok(n) => exists|s: &mut S, fut: F| #[trigger] execute.ensures((s, n), fut)
                    && *s == old(self).0 && *final(s) == final(self).0 && r.state() == (Inner::Future { fut }),
                Err(e) => r.state() == (Inner::<F>::Error { error: CallError::Translation(e) })
                    && *final(self) == *old(self),
            },
    {
        let translated = native_request(req);
        dispatch(&mut self.0, translated, execute)
    }
}

} // verus!
