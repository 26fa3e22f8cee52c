//! The cache client: a two-state machine (disconnected, connected) over an
//! opaque transport handle.
//!
//! The verified core decides every operation: `connect` builds the
//! connection URL and obtains a handle, `set_key` and `get_key` check the
//! state and produce the request to transmit, `close_connection` releases
//! the handle. Transmitting a request over the network is left to the
//! caller; `complete_set` and `complete_get` interpret the transport's
//! outcome. A key the cache reports no value for (missing or expired) is
//! surfaced as the not-found error.

use vstd::prelude::*;
use vstd::string::StringExecFns;

use crate::errors::{ConnectionError, OperationError};
use crate::fmt::{i64_to_dec, signed_dec_rep};
use crate::redis_api::{open_accepts, open_client};

verus! {

/// Connection options: host and port, consumed by `connect`.
pub struct RedicClientOptions {
    pub connection_address: String,
    pub port: i64,
}

/// The cache client: holds a live handle while connected, nothing after
/// close.
pub struct Redis {
    pub client: Option<redis::Client>,
}

impl Redis {
    /// Whether the client holds a live handle.
    pub open spec fn connected(self) -> bool {
        self.client is Some
    }
}

/// A set-with-expiry request, ready for transmission.
pub struct SetExCommand {
    pub key: String,
    pub value: String,
    pub ttl_seconds: usize,
}

/// A get request, ready for transmission.
pub struct GetCommand {
    pub key: String,
}

/// The connection URL built from host and port:
/// `redis://:@host:port`, with an empty credential segment.
pub open spec fn uri_chars(host: Seq<char>, port: int) -> Seq<char> {
    "redis://:@"@ + host + ":"@ + signed_dec_rep(port)
}

/// What `connect` returns: a connected client exactly when the transport
/// library accepts the URL built from the options.
pub open spec fn connect_behavior(
    options: RedicClientOptions,
    r: Result<Redis, ConnectionError>,
) -> bool {
    &&& r is Ok <==> open_accepts(uri_chars(options.connection_address@, options.port as int))
    &&& r matches Ok(c) ==> c.connected()
}

/// What `set_key` returns: on a connected client, the request carrying
/// exactly the given key, value and expiry; on a disconnected client, the
/// "client unavailable" error and no request.
pub open spec fn set_key_behavior(
    client: Redis,
    key: Seq<char>,
    value: Seq<char>,
    ttl_seconds: nat,
    res: Result<SetExCommand, OperationError>,
) -> bool {
    if client.connected() {
        res matches Ok(c) && c.key@ == key && c.value@ == value && c.ttl_seconds == ttl_seconds
    } else {
        res matches Err(e) && e is Unavailable
    }
}

/// What `get_key` returns: on a connected client, the request carrying
/// exactly the given key; on a disconnected client, the "client
/// unavailable" error and no request.
pub open spec fn get_key_behavior(
    client: Redis,
    key: Seq<char>,
    res: Result<GetCommand, OperationError>,
) -> bool {
    if client.connected() {
        res matches Ok(g) && g.key@ == key
    } else {
        res matches Err(e) && e is Unavailable
    }
}

/// The confirmation text a successful close returns.
pub open spec fn closed_message() -> Seq<char> {
    "connection has been closed"@
}

/// What `close_connection` does: on a connected client, it releases the
/// handle and returns the confirmation text; on a disconnected client, it
/// fails with the "client unavailable" error and changes nothing.
pub open spec fn close_behavior(
    pre: Redis,
    post: Redis,
    res: Result<&str, OperationError>,
) -> bool {
    if pre.connected() {
        &&& res matches Ok(m) && m@ == closed_message()
        &&& !post.connected()
    } else {
        &&& res matches Err(e) && e is Unavailable
        &&& post == pre
    }
}

/// What `complete_set` returns for each transport outcome: success is
/// passed through, a transport error is wrapped verbatim.
pub open spec fn complete_set_behavior(
    outcome: Result<(), redis::RedisError>,
    res: Result<(), OperationError>,
) -> bool {
    match outcome {
        Ok(_) => res is Ok,
        Err(t) => res matches Err(e) && e matches OperationError::Transport(inner) && inner == t,
    }
}

/// What `complete_get` returns for each transport outcome: a reported
/// value is passed through verbatim, an absent value becomes the
/// not-found error, a transport error is wrapped verbatim.
pub open spec fn complete_get_behavior(
    outcome: Result<Option<String>, redis::RedisError>,
    res: Result<String, OperationError>,
) -> bool {
    match outcome {
        Ok(fetched) => match fetched {
            Some(v) => res matches Ok(s) && s@ == v@,
            None => res matches Err(e) && e is NotFound,
        },
        Err(t) => res matches Err(e) && e matches OperationError::Transport(inner) && inner == t,
    }
}

/// Builds the connection URL from the options.
pub fn redis_url(options: &RedicClientOptions) -> (r: String)
    ensures
        r@ == uri_chars(options.connection_address@, options.port as int),
{
    let mut s = String::from_str("redis://:@");
    s.append(options.connection_address.as_str());
    s.append(":");
    let port = i64_to_dec(options.port);
    s.append(port.as_str());
    s
}

impl Redis {
    /// Builds the connection URL from the options and asks the transport
    /// library for a client handle; no connection is opened yet. Succeeds
    /// with a connected client exactly when the library accepts the URL.
    pub fn connect(client_options: RedicClientOptions) -> (r: Result<Redis, ConnectionError>)
        ensures
            connect_behavior(client_options, r),
    {
        let redis_url: String = redis_url(&client_options);
        match open_client(redis_url.as_str()) {
            Ok(client) => Ok(Redis { client: Some(client) }),
            Err(e) => Err(ConnectionError { inner: e }),
        }
    }

    /// Produces the set-with-expiry request for the given key, value and
    /// expiry, or fails with the "client unavailable" error when no live
    /// handle is held.
    pub fn set_key(&self, key_name: &str, value: &str, time_out: usize) -> (res: Result<
        SetExCommand,
        OperationError,
    >)
        ensures
            set_key_behavior(*self, key_name@, value@, time_out as nat, res),
    {
        if self.client.is_none() {
            return Err(OperationError::Unavailable);
        }
        Ok(SetExCommand { key: key_name.to_owned(), value: value.to_owned(), ttl_seconds: time_out })
    }

    /// Produces the get request for the given key, or fails with the
    /// "client unavailable" error when no live handle is held.
    pub fn get_key(&self, key_name: String) -> (res: Result<GetCommand, OperationError>)
        ensures
            get_key_behavior(*self, key_name@, res),
    {
        if self.client.is_none() {
            return Err(OperationError::Unavailable);
        }
        Ok(GetCommand { key: key_name })
    }

    /// Releases the handle and returns the confirmation text, or fails
    /// with the "client unavailable" error when no live handle is held. A
    /// second close on the same client therefore fails: the handle is
    /// gone, by design.
    pub fn close_connection(&mut self) -> (res: Result<&'static str, OperationError>)
        ensures
            close_behavior(*old(self), *final(self), res),
    {
        if self.client.is_none() {
            return Err(OperationError::Unavailable);
        }
        self.client = None;
        Ok("connection has been closed")
    }
}

/// Interprets the transport outcome of a transmitted set request.
pub fn complete_set(outcome: Result<(), redis::RedisError>) -> (res: Result<(), OperationError>)
    ensures
        complete_set_behavior(outcome, res),
{
    match outcome {
        Ok(_) => Ok(()),
        Err(e) => Err(OperationError::Transport(e)),
    }
}

/// Interprets the transport outcome of a transmitted get request. An
/// absent value (missing key, or expiry elapsed) is surfaced as the
/// not-found error.
pub fn complete_get(outcome: Result<Option<String>, redis::RedisError>) -> (res: Result<
    String,
    OperationError,
>)
    ensures
        complete_get_behavior(outcome, res),
{
    match outcome {
        Ok(fetched) => match fetched {
            Some(v) => Ok(v),
            None => Err(OperationError::NotFound),
        },
        Err(e) => Err(OperationError::Transport(e)),
    }
}

} // verus!
