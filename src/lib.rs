//! Adapter that lets a generic HTTP request/response service be served by a
//! `reqwest` client.
//!
//! The adapter translates a generic `http::Request` into a `reqwest::Request`,
//! hands it to the inner executor and returns an [`ExecuteRequestFuture`]. A
//! translation failure never surfaces from the call itself: it is stored in the
//! returned future and handed out on its first poll.
pub mod error;
pub mod future;
pub mod service;

pub use error::CallError;
pub use future::{ExecuteRequestFuture, Inner, Poll};
pub use service::{dispatch, HttpClientService};
