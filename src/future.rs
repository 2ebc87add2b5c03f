//! The execution result of one call: a future that is either still in flight
//! at the inner executor or already failed before dispatch.
use vstd::prelude::*;

use crate::error::CallError;

verus! {

/// Outcome of one poll, as `std::task::Poll` has it.
#[derive(Debug)]
pub enum Poll<T> {
    Ready(T),
    Pending,
}

/// The states of an execution result.
#[derive(Debug)]
pub enum Inner<F> {
    /// The native request went to the inner executor; this is its future.
    Future { fut: F },
    /// Translation failed; the error is handed out by the first poll.
    Error { error: CallError },
    /// The result was handed out: the future must not be polled again.
    Resolved,
}

/// What the inner executor's outcome becomes: its response is passed through,
/// its failure becomes a client error.
pub open spec fn lifted<R>(p: Poll<Result<R, reqwest::Error>>) -> Poll<Result<R, CallError>> {
    match p {
        Poll::Pending => Poll::Pending,
        Poll::Ready(Ok(v)) => Poll::Ready(Ok(v)),
        Poll::Ready(Err(e)) => Poll::Ready(Err(CallError::Client(e))),
    }
}

/// What a poll in state `s` hands out, where `p` is what polling the inner
/// future gave (looked at only while in flight).
pub open spec fn poll_output<F, R>(s: Inner<F>, p: Poll<Result<R, reqwest::Error>>) -> Poll<Result<R, CallError>> {
    match s {
        Inner::Future { .. } => lifted(p),
        Inner::Error { error } => Poll::Ready(Err(error)),
        Inner::Resolved => Poll::Pending,
    }
}

/// Future that resolves to the response or failure to connect.
#[derive(Debug)]
pub struct ExecuteRequestFuture<F> {
    inner: Inner<F>,
}

impl<F> ExecuteRequestFuture<F> {
    /// The state the execution result is in.
    pub closed spec fn state(&self) -> Inner<F> {
        self.inner
    }

    /// The state that a call starts in, from the outcome of translation and
    /// dispatch.
    pub open spec fn new_state(future: Result<F, reqwest::Error>) -> Inner<F> {
        match future {
            Ok(fut) => Inner::Future { fut },
            Err(e) => Inner::Error { error: CallError::Translation(e) },
        }
    }

    /// Starts from the outcome of translation and dispatch: the inner
    /// executor's future, or the error that kept the request from being sent.
    pub fn new(future: Result<F, reqwest::Error>) -> (r: Self)
        ensures
            r.state() == Self::new_state(future),
    {
        let inner = match future {
            Ok(fut) => Inner::Future { fut },
            Err(error) => Inner::Error { error: CallError::Translation(error) },
        };
        ExecuteRequestFuture { inner }
    }

    /// Whether the result was already handed out, so that polling again would
    /// be a misuse.
    pub fn is_terminated(&self) -> (r: bool)
        ensures
            r == (self.state() is Resolved),
    {
        match self.inner {
            Inner::Resolved => true,
            _ => false,
        }
    }

    /// Polls once. In flight, `poll_inner` polls the inner executor's future
    /// (it takes the future and gives it back) and its outcome is lifted into
    /// the adapter's types; a stored translation error is handed out at once.
    /// Once a poll is ready the future is resolved for good.
    pub fn poll<R, P>(&mut self, poll_inner: P) -> (r: Poll<Result<R, CallError>>) where
        P: FnOnce(F) -> (F, Poll<Result<R, reqwest::Error>>),
        requires
            !(old(self).state() is Resolved),
            old(self).state() is Future ==> poll_inner.requires((old(self).state()->fut,)),
        ensures
            match old(self).state() {
                Inner::Future { fut } => exists|g: F, p: Poll<Result<R, reqwest::Error>>|
                    #[trigger] poll_inner.ensures((fut,), (g, p)) && r == poll_output(old(self).state(), p)
                    && (p is Pending ==> final(self).state() == (Inner::Future { fut: g })),
                _ => r == poll_output(old(self).state(), Poll::<Result<R, reqwest::Error>>::Pending),
            },
            (r is Ready) == (final(self).state() is Resolved),
    {
        let mut state = Inner::Resolved;
        std::mem::swap(&mut state, &mut self.inner);
        match state {
            Inner::Future { fut } => {
                let (fut, p) = poll_inner(fut);
                match p {
                    Poll::Pending => {
                        self.inner = Inner::Future { fut };
                        Poll::Pending
                    },
                    Poll::Ready(Ok(v)) => Poll::Ready(Ok(v)),
                    Poll::Ready(Err(e)) => Poll::Ready(Err(CallError::Client(e))),
                }
            },
            Inner::Error { error } => Poll::Ready(Err(error)),
            Inner::Resolved => Poll::Pending,
        }
    }
}

/// A request whose translation failed resolves on its first poll to that very
/// translation error, whatever polling an inner future would have given: the
/// inner executor plays no part.
pub proof fn lemma_translation_failure_resolves_at_once<F, R>(e: reqwest::Error, p: Poll<Result<R, reqwest::Error>>)
    ensures
        poll_output(ExecuteRequestFuture::<F>::new_state(Err(e)), p) == Poll::<Result<R, CallError>>::Ready(
            Err(CallError::Translation(e)),
        ),
{
}

/// The response that the inner executor's future resolves to is handed out
/// unchanged, and its failure as a client error.
pub proof fn lemma_inner_outcome_passes_through<F, R>(fut: F, p: Poll<Result<R, reqwest::Error>>)
    ensures
        poll_output(ExecuteRequestFuture::<F>::new_state(Ok(fut)), p) == lifted(p),
        p matches Poll::Ready(Ok(v)) ==> poll_output(ExecuteRequestFuture::<F>::new_state(Ok(fut)), p) == Poll::<
            Result<R, CallError>,
        >::Ready(Ok(v)),
{
}

} // verus!
