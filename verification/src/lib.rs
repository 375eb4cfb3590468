//! A seam between an OAuth2 protocol engine and the HTTP transport that moves its bytes.
//!
//! The engine (the `oauth2` crate) builds requests and reads responses. A transport, supplied
//! by the caller, performs one HTTP exchange at a time over whatever client it wraps.
//! [`OAuth2Client`] stands between the two and adds nothing of its own: no retry, no cache,
//! no deadline, no second look at a status code.
//!
//! One call through the adapter has three steps. This crate holds the two that decide
//! anything, and proves what they decide:
//!
//! 1. [`OAuth2Client::dispatch`] sets the exchange up. It duplicates the transport handle that
//!    the adapter holds and pairs the duplicate with the request, which it leaves as the
//!    engine built it.
//! 2. The transport performs the exchange. That is network I/O and happens outside this
//!    crate, on the duplicate, so that the exchange outlives any borrow of the adapter.
//! 3. [`resolve`] turns what the transport answered into what the call yields: the response
//!    as the transport built it, or the transport's failure.
//!
//! The module [`laws`] states, as proved theorems, what follows for a whole exchange and for
//! exchanges that share one adapter.
pub mod adapter;
pub mod laws;
pub mod message;

pub use adapter::{resolve, Dispatch, OAuth2Client};
