use cache_client::client::{complete_get, complete_set, redis_url, Redis, RedicClientOptions};
use cache_client::errors::OperationError;

fn localhost_options() -> RedicClientOptions {
    RedicClientOptions { connection_address: "localhost".to_string(), port: 6379 }
}

fn transport_error() -> redis::RedisError {
    redis::RedisError::from((redis::ErrorKind::Io, "transport failure"))
}

#[test]
fn end_to_end_scenario() {
    let mut client = Redis::connect(localhost_options()).expect("localhost:6379 must be accepted");

    let set_cmd = client.set_key("dbApp", "MongoDB", 1).expect("set on a connected client");
    assert_eq!(set_cmd.key, "dbApp");
    assert_eq!(set_cmd.value, "MongoDB");
    assert_eq!(set_cmd.ttl_seconds, 1);
    assert!(matches!(complete_set(Ok(())), Ok(())));

    let get_cmd = client.get_key("dbApp".to_string()).expect("get on a connected client");
    assert_eq!(get_cmd.key, "dbApp");
    let fetched = complete_get(Ok(Some("MongoDB".to_string()))).expect("a reported value");
    assert_eq!(fetched, "MongoDB");

    let confirmation = client.close_connection().expect("close on a connected client");
    assert_eq!(confirmation, "connection has been closed");

    assert!(matches!(
        client.get_key("dbApp".to_string()),
        Err(OperationError::Unavailable)
    ));
}

#[test]
fn connect_then_close_disconnects() {
    let mut client = Redis::connect(localhost_options()).expect("localhost:6379 must be accepted");
    assert!(client.client.is_some());
    assert!(client.close_connection().is_ok());
    assert!(client.client.is_none());
}

#[test]
fn never_connected_ops_fail() {
    let mut client = Redis { client: None };
    assert!(matches!(
        client.set_key("dbApp", "MongoDB", 1),
        Err(OperationError::Unavailable)
    ));
    assert!(matches!(
        client.get_key("dbApp".to_string()),
        Err(OperationError::Unavailable)
    ));
    assert!(matches!(client.close_connection(), Err(OperationError::Unavailable)));
    assert!(client.client.is_none());
}

#[test]
fn close_twice_fails() {
    let mut client = Redis::connect(localhost_options()).expect("localhost:6379 must be accepted");
    assert_eq!(client.close_connection().unwrap(), "connection has been closed");
    assert!(matches!(client.close_connection(), Err(OperationError::Unavailable)));
}

#[test]
fn absent_value_is_not_found() {
    assert!(matches!(complete_get(Ok(None)), Err(OperationError::NotFound)));
}

#[test]
fn set_transport_error_is_wrapped() {
    assert!(matches!(
        complete_set(Err(transport_error())),
        Err(OperationError::Transport(_))
    ));
}

#[test]
fn get_transport_error_is_wrapped() {
    assert!(matches!(
        complete_get(Err(transport_error())),
        Err(OperationError::Transport(_))
    ));
}

#[test]
fn connect_rejects_malformed_address() {
    let options = RedicClientOptions { connection_address: "bad host".to_string(), port: 6379 };
    assert!(Redis::connect(options).is_err());
}

#[test]
fn connect_rejects_negative_port() {
    let options = RedicClientOptions { connection_address: "localhost".to_string(), port: -1 };
    assert!(Redis::connect(options).is_err());
}

#[test]
fn url_has_empty_credentials_host_and_port() {
    assert_eq!(redis_url(&localhost_options()), "redis://:@localhost:6379");
    let other = RedicClientOptions { connection_address: "cache.example".to_string(), port: 7000 };
    assert_eq!(redis_url(&other), "redis://:@cache.example:7000");
}
