//! Trusted declarations for the transport library.
//!
//! The client handle and error types are opaque to the verifier; the one
//! call made from verified code, `redis::Client::open`, only parses the
//! connection URL and opens no connection.

use vstd::prelude::*;

verus! {

#[verifier::external_type_specification]
#[verifier::external_body]
pub struct ExRedisClient(redis::Client);

#[verifier::external_type_specification]
#[verifier::external_body]
pub struct ExRedisError(redis::RedisError);

/// Whether `redis::Client::open` accepts a given connection URL. The call
/// only parses its argument, so the outcome is a function of the URL text
/// alone.
pub uninterp spec fn open_accepts(url: Seq<char>) -> bool;

/// Relies on `redis::Client::open`: it parses the URL into connection
/// information and opens no connection, so it succeeds exactly when the URL
/// text is acceptable to its parser.
#[verifier::external_body]
pub(crate) fn open_client(url: &str) -> (r: Result<redis::Client, redis::RedisError>)
    ensures
        r is Ok <==> open_accepts(url@),
{
    redis::Client::open(url)
}

} // verus!
