//! The closed set of error kinds the client can return.

use vstd::prelude::*;

verus! {

/// Failure to establish a client handle; wraps the transport library's
/// error (malformed address, unacceptable URL).
#[derive(Debug)]
pub struct ConnectionError {
    pub inner: redis::RedisError,
}

/// Failure of a cache operation.
#[derive(Debug)]
pub enum OperationError {
    /// The client holds no live handle: it was never connected, or it was
    /// already closed.
    Unavailable,
    /// The cache reported no value for the requested key: the key was never
    /// set, or its expiry has elapsed.
    NotFound,
    /// A transport or protocol failure, surfaced verbatim from the
    /// underlying library.
    Transport(redis::RedisError),
}

} // verus!
