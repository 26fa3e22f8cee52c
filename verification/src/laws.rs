//! Laws of the client, proved from the operations' contracts.

use vstd::prelude::*;

use crate::client::{
    close_behavior, complete_get_behavior, connect_behavior, get_key_behavior, set_key_behavior,
    GetCommand, Redis, RedicClientOptions, SetExCommand,
};
use crate::errors::{ConnectionError, OperationError};

verus! {

/// Law: connecting and then immediately closing succeeds and leaves the
/// client in the disconnected state.
pub proof fn lemma_connect_then_close(
    options: RedicClientOptions,
    outcome: Result<Redis, ConnectionError>,
    after_close: Redis,
    close_res: Result<&str, OperationError>,
)
    requires
        connect_behavior(options, outcome),
        outcome is Ok,
        close_behavior(outcome->Ok_0, after_close, close_res),
    ensures
        close_res is Ok,
        !after_close.connected(),
{
}

/// Law: a set request followed by a get of the same key passes the stored
/// value through unchanged. The set request carries exactly the key, value
/// and expiry given; the get request carries exactly the key; and when the
/// cache then reports that value back, it is returned verbatim.
pub proof fn lemma_set_then_get_returns_value(
    client: Redis,
    key: Seq<char>,
    value: Seq<char>,
    ttl_seconds: nat,
    set_res: Result<SetExCommand, OperationError>,
    get_res: Result<GetCommand, OperationError>,
    fetched: String,
    final_res: Result<String, OperationError>,
)
    requires
        client.connected(),
        ttl_seconds > 0,
        set_key_behavior(client, key, value, ttl_seconds, set_res),
        get_key_behavior(client, key, get_res),
        fetched@ == value,
        complete_get_behavior(Ok(Some(fetched)), final_res),
    ensures
        set_res matches Ok(c) && c.key@ == key && c.value@ == value && c.ttl_seconds
            == ttl_seconds,
        get_res matches Ok(g) && g.key@ == key,
        final_res matches Ok(v) && v@ == value,
{
}

/// Law: on a disconnected client (never connected, or already closed)
/// every operation fails with the "client unavailable" error, the client
/// is left unchanged, and no request for the transport is produced.
pub proof fn lemma_disconnected_ops_fail(
    client: Redis,
    key: Seq<char>,
    value: Seq<char>,
    ttl_seconds: nat,
    set_res: Result<SetExCommand, OperationError>,
    get_res: Result<GetCommand, OperationError>,
    after_close: Redis,
    close_res: Result<&str, OperationError>,
)
    requires
        !client.connected(),
        set_key_behavior(client, key, value, ttl_seconds, set_res),
        get_key_behavior(client, key, get_res),
        close_behavior(client, after_close, close_res),
    ensures
        set_res matches Err(e) && e is Unavailable,
        get_res matches Err(e) && e is Unavailable,
        close_res matches Err(e) && e is Unavailable,
        after_close == client,
{
}

/// Law: close is deliberately not idempotent. After a successful close,
/// a second close on the same client fails with the "client unavailable"
/// error rather than succeeding silently.
pub proof fn lemma_close_twice_fails(
    pre: Redis,
    mid: Redis,
    post: Redis,
    first: Result<&str, OperationError>,
    second: Result<&str, OperationError>,
)
    requires
        pre.connected(),
        close_behavior(pre, mid, first),
        close_behavior(mid, post, second),
    ensures
        first is Ok,
        second matches Err(e) && e is Unavailable,
{
}

/// Law: when the cache reports no value for a key (never set, or its
/// expiry has elapsed), get surfaces the not-found error and never a
/// stale value.
pub proof fn lemma_absent_key_not_returned(res: Result<String, OperationError>)
    requires
        complete_get_behavior(Ok(None), res),
    ensures
        res matches Err(e) && e is NotFound,
{
}

} // verus!
