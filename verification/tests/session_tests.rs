use mcp_protocol_sdk::client::{McpClient, McpClientBuilder};
use mcp_protocol_sdk::error::McpError;
use mcp_protocol_sdk::session::{reconnect_delay, ClientSession, SessionConfig, SessionState};
use mcp_protocol_sdk::types::{JsonRpcResponse, RequestId};

#[test]
fn test_session_creation() {
    let session = ClientSession::new();
    assert_eq!(session.state(), SessionState::Disconnected);
    assert!(!session.is_connected());
    assert!(session.uptime(1000).is_none());
}

#[test]
fn test_session_config() {
    let config = SessionConfig {
        auto_reconnect: false,
        max_reconnect_attempts: 10,
        reconnect_delay_ms: 2000,
        ..Default::default()
    };
    let session = ClientSession::with_config(config.clone());

    assert!(!session.config().auto_reconnect);
    assert_eq!(session.config().max_reconnect_attempts, 10);
    assert_eq!(session.config().reconnect_delay_ms, 2000);
}

#[test]
fn reconnect_delay_follows_capped_exponential() {
    // delay(n) = min(initial * multiplier^(n-1), max)
    assert_eq!(reconnect_delay(100, 2, 1, 30000), 100);
    assert_eq!(reconnect_delay(100, 2, 2, 30000), 200);
    assert_eq!(reconnect_delay(100, 2, 3, 30000), 400);
    assert_eq!(reconnect_delay(1000, 2, 6, 30000), 30000);
    assert_eq!(reconnect_delay(1000, 2, 60, 30000), 30000);
    assert_eq!(reconnect_delay(1000, 3, 4, 100000), 27000);
    // a first attempt above the cap is capped too
    assert_eq!(reconnect_delay(50000, 2, 1, 30000), 30000);
    // degenerate multipliers
    assert_eq!(reconnect_delay(100, 1, 9, 30000), 100);
    assert_eq!(reconnect_delay(100, 0, 1, 30000), 100);
    assert_eq!(reconnect_delay(100, 0, 5, 30000), 0);
    assert_eq!(reconnect_delay(0, 2, 5, 30000), 0);
}

#[test]
fn reconnect_backoff_scenario_exhausts_after_three_attempts() {
    // max_reconnect_attempts=3, reconnect_delay_ms=100, reconnect_backoff=2:
    // the three attempts wait 100, 200 and 400 ms; the fourth is refused
    // with the exhaustion error and asks for no wait
    let config = SessionConfig {
        max_reconnect_attempts: 3,
        reconnect_delay_ms: 100,
        reconnect_backoff: 2,
        ..Default::default()
    };
    let mut session = ClientSession::with_config(config);

    assert_eq!(session.begin_reconnect().unwrap(), 100);
    assert_eq!(session.state(), SessionState::Reconnecting);
    assert_eq!(session.begin_reconnect().unwrap(), 200);
    assert_eq!(session.begin_reconnect().unwrap(), 400);

    let fourth = session.begin_reconnect();
    assert!(matches!(fourth, Err(McpError::ReconnectExhausted)));
    assert!(matches!(session.state(), SessionState::Failed(_)));
}

#[test]
fn reconnect_refused_when_auto_reconnect_is_off() {
    let config = SessionConfig { auto_reconnect: false, ..Default::default() };
    let mut session = ClientSession::with_config(config);
    assert!(matches!(session.begin_reconnect(), Err(McpError::Internal(_))));
    assert!(matches!(session.state(), SessionState::Failed(_)));
}

#[test]
fn send_while_disconnected_fails_fast() {
    // a request issued while disconnected returns the not-connected error
    // immediately instead of blocking
    let session = ClientSession::new();
    assert!(matches!(session.ensure_connected(), Err(McpError::NotConnected)));

    let client = McpClient::new("test-client".to_string(), "1.0.0".to_string());
    assert!(matches!(client.ensure_connected(), Err(McpError::NotConnected)));
}

#[test]
fn heartbeat_failure_leaves_connected_state() {
    let mut session = ClientSession::new();
    session.begin_connect();
    assert_eq!(session.state(), SessionState::Connecting);
    session.connect_succeeded(5000);
    assert_eq!(session.state(), SessionState::Connected);
    assert_eq!(session.uptime(7500), Some(2500));

    session.heartbeat_failed();
    assert_eq!(session.state(), SessionState::Disconnected);
    assert!(session.uptime(9000).is_none());

    // a heartbeat failure while already disconnected changes nothing
    session.heartbeat_failed();
    assert_eq!(session.state(), SessionState::Disconnected);
}

#[test]
fn attempt_counter_resets_exactly_on_connect() {
    let mut session = ClientSession::new();
    session.begin_reconnect().unwrap();
    session.begin_reconnect().unwrap();
    assert_eq!(session.stats(0).reconnect_attempts, 2);

    session.begin_connect();
    // still two attempts while the handshake runs
    assert_eq!(session.stats(0).reconnect_attempts, 2);

    session.connect_succeeded(100);
    assert_eq!(session.stats(200).reconnect_attempts, 0);
    assert_eq!(session.stats(200).connected_at, Some(100));
    assert_eq!(session.stats(200).uptime, Some(100));
}

#[test]
fn failed_handshake_keeps_the_reason() {
    let mut session = ClientSession::new();
    session.begin_connect();
    session.connect_failed("connection timeout".to_string());
    match session.state() {
        SessionState::Failed(reason) => assert_eq!(reason, "connection timeout"),
        other => panic!("expected a failed state, got {:?}", other),
    }
}

#[test]
fn test_client_creation() {
    let client = McpClient::new("test-client".to_string(), "1.0.0".to_string());
    assert_eq!(client.info().name, "test-client");
    assert_eq!(client.info().version, "1.0.0");
    assert!(!client.is_connected());
}

#[test]
fn test_client_builder() {
    let client = McpClientBuilder::new("test-client".to_string(), "1.0.0".to_string())
        .request_timeout(5000)
        .max_retries(5)
        .validate_requests(false)
        .build();

    assert_eq!(client.config().request_timeout_ms, 5000);
    assert_eq!(client.config().max_retries, 5);
    assert!(!client.config().validate_requests);
}

#[test]
fn client_request_ids_count_up() {
    let mut client = McpClient::new("c".to_string(), "1".to_string());
    let r1 = client.next_request("ping".to_string(), None);
    let r2 = client.next_request("ping".to_string(), None);
    assert_eq!(r1.id, RequestId::Num(1));
    assert_eq!(r2.id, RequestId::Num(2));
    assert_eq!(r1.jsonrpc, "2.0");
}

#[test]
fn take_result_rejects_mismatched_ids() {
    // a response whose id does not match the request is a protocol
    // violation, never silently accepted
    let resp = JsonRpcResponse::success(RequestId::Num(2), serde_json::Value::Null);
    let r = McpClient::take_result(&RequestId::Num(1), resp);
    assert!(matches!(r, Err(McpError::ProtocolViolation(_))));

    let resp = JsonRpcResponse::success(RequestId::Num(1), serde_json::Value::Bool(true));
    let r = McpClient::take_result(&RequestId::Num(1), resp).unwrap();
    assert_eq!(r, serde_json::Value::Bool(true));

    let no_result = JsonRpcResponse {
        jsonrpc: "2.0".to_string(),
        id: RequestId::Num(1),
        result: None,
    };
    let r = McpClient::take_result(&RequestId::Num(1), no_result);
    assert!(matches!(r, Err(McpError::Serialization(_))));
}

#[test]
fn connect_bookkeeping_round_trip() {
    let mut client = McpClient::new("c".to_string(), "1".to_string());
    let server_info = mcp_protocol_sdk::types::Implementation {
        name: "test-server".to_string(),
        version: "1.0.0".to_string(),
    };
    let caps = mcp_protocol_sdk::types::ServerCapabilities::default();
    client.apply_init_result(server_info, caps);
    assert!(client.is_connected());
    assert!(client.server_info().is_some());

    client.on_disconnect();
    assert!(!client.is_connected());
    assert!(client.server_info().is_none());
    assert!(client.server_capabilities().is_none());
}

#[test]
fn sampling_needs_the_capability() {
    let mut client = McpClient::new("c".to_string(), "1".to_string());
    assert!(matches!(client.ensure_sampling_supported(), Err(McpError::NotConnected)));

    let server_info = mcp_protocol_sdk::types::Implementation {
        name: "s".to_string(),
        version: "1".to_string(),
    };
    client.apply_init_result(server_info, mcp_protocol_sdk::types::ServerCapabilities::default());
    assert!(matches!(client.ensure_sampling_supported(), Err(McpError::ProtocolViolation(_))));
}
