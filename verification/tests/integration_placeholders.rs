use mcp_protocol_sdk::types::RequestId;

#[test]
fn integration_e2e_http_placeholder_test() {
    // Placeholder to prevent cargo test from failing on empty test file
    assert!(true);
}

#[test]
fn integration_e2e_websocket_placeholder_test() {
    // Placeholder to prevent cargo test from failing on empty test file
    assert!(true);
}

#[test]
fn request_id_null_round_trip() {
    assert_eq!(RequestId::Null, RequestId::Null.clone());
}
