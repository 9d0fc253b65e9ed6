use balance_consultor::connection::EthConnection;
use balance_consultor::errors::ConnectionError;

const GOOD_ENDPOINT: &str = "http://localhost:8545";
const BAD_ENDPOINT: &str = "not a url";

#[test]
fn connect_succeeds_on_valid_endpoint() {
    let mut conn = EthConnection::new(GOOD_ENDPOINT.to_string());
    assert!(!conn.is_connected());
    assert!(conn.connect().is_ok());
    assert!(conn.is_connected());
}

#[test]
fn connect_twice_yields_already_connected() {
    let mut conn = EthConnection::new(GOOD_ENDPOINT.to_string());
    assert!(conn.connect().is_ok());
    let second = conn.connect();
    assert!(matches!(second, Err(ConnectionError::AlreadyConnected)));
    // The state and the original handle are untouched.
    assert!(conn.is_connected());
    assert!(conn.query_handle().is_ok());
}

#[test]
fn disconnect_when_never_connected_yields_not_connected() {
    let mut conn = EthConnection::new(GOOD_ENDPOINT.to_string());
    let r = conn.disconnect();
    assert!(matches!(r, Err(ConnectionError::NotConnected)));
    assert!(!conn.is_connected());
}

#[test]
fn disconnect_when_already_disconnected_yields_not_connected() {
    let mut conn = EthConnection::new(GOOD_ENDPOINT.to_string());
    assert!(conn.connect().is_ok());
    assert!(conn.disconnect().is_ok());
    let again = conn.disconnect();
    assert!(matches!(again, Err(ConnectionError::NotConnected)));
    assert!(!conn.is_connected());
}

#[test]
fn balance_query_while_disconnected_yields_not_connected_without_io() {
    // The query refuses before any handle is handed out, so the transport
    // is never invoked: no handle was ever constructed here.
    let conn = EthConnection::new(GOOD_ENDPOINT.to_string());
    let r = conn.query_handle();
    assert!(matches!(r, Err(ConnectionError::NotConnected)));
}

#[test]
fn balance_query_after_disconnect_yields_not_connected() {
    let mut conn = EthConnection::new(GOOD_ENDPOINT.to_string());
    assert!(conn.connect().is_ok());
    assert!(conn.disconnect().is_ok());
    let r = conn.query_handle();
    assert!(matches!(r, Err(ConnectionError::NotConnected)));
}

#[test]
fn end_to_end_query_cycle() {
    let mut conn = EthConnection::new(GOOD_ENDPOINT.to_string());

    assert!(conn.connect().is_ok());
    assert!(conn.is_connected());

    // The handle is available for the remote call; a stubbed outcome of
    // that call passes through unmodified.
    assert!(conn.query_handle().is_ok());
    let stubbed = ethers::types::U256::from(7u64);
    let settled = EthConnection::balance_of_outcome(Ok(stubbed));
    assert_eq!(settled.unwrap(), stubbed);

    assert!(conn.disconnect().is_ok());
    assert!(!conn.is_connected());

    let again = conn.disconnect();
    assert!(matches!(again, Err(ConnectionError::NotConnected)));
}

#[test]
fn end_to_end_failed_setup() {
    let mut conn = EthConnection::new(BAD_ENDPOINT.to_string());

    let r = conn.connect();
    assert!(matches!(r, Err(ConnectionError::ConnectionSetupError(_))));
    assert!(!conn.is_connected());

    // No handle was stored: the query reports NotConnected, not
    // HandleUnavailable.
    let q = conn.query_handle();
    assert!(matches!(q, Err(ConnectionError::NotConnected)));
}

#[test]
fn balance_query_follows_the_latest_lifecycle_call() {
    // Across a mixed sequence of calls, the query succeeds exactly while
    // the most recent state-setting call was a successful connect.
    let mut conn = EthConnection::new(GOOD_ENDPOINT.to_string());
    assert!(conn.query_handle().is_err());

    assert!(conn.connect().is_ok());
    assert!(conn.query_handle().is_ok());

    assert!(conn.connect().is_err()); // AlreadyConnected: state untouched
    assert!(conn.query_handle().is_ok());

    assert!(conn.disconnect().is_ok());
    assert!(conn.query_handle().is_err());

    assert!(conn.connect().is_ok()); // reconnect enables the query again
    assert!(conn.query_handle().is_ok());

    assert!(conn.disconnect().is_ok());
    assert!(matches!(conn.query_handle(), Err(ConnectionError::NotConnected)));
}

#[test]
fn failed_connect_can_be_retried_with_same_manager() {
    let mut conn = EthConnection::new(BAD_ENDPOINT.to_string());
    assert!(conn.connect().is_err());
    assert!(conn.connect().is_err());
    assert!(!conn.is_connected());
}

#[test]
fn remote_failure_is_surfaced_as_remote_query_error() {
    let cause = ethers::providers::ProviderError::CustomError("timed out".to_string());
    let settled = EthConnection::balance_of_outcome(Err(cause));
    match settled {
        Err(ConnectionError::RemoteQueryError(ethers::providers::ProviderError::CustomError(
            text,
        ))) => assert_eq!(text, "timed out"),
        other => panic!("expected a RemoteQueryError, got {:?}", other),
    }
}
