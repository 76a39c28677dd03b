use mcp_protocol_sdk::correlation::PendingTable;
use mcp_protocol_sdk::error::McpError;
use mcp_protocol_sdk::types::{JsonRpcResponse, RequestId};

fn response_with(id: RequestId, marker: &str) -> JsonRpcResponse {
    JsonRpcResponse::success(id, serde_json::Value::String(marker.to_string()))
}

#[test]
fn register_fulfill_take_round_trip() {
    let mut table = PendingTable::new();
    table.register(RequestId::Num(1)).unwrap();
    assert!(table.contains(&RequestId::Num(1)));

    // nothing arrived yet: the caller must keep waiting
    assert!(table.take_response(&RequestId::Num(1)).is_none());

    assert!(table.fulfill(response_with(RequestId::Num(1), "one")));
    let resp = table.take_response(&RequestId::Num(1)).unwrap();
    assert_eq!(resp.id, RequestId::Num(1));
    assert_eq!(resp.result, Some(serde_json::Value::String("one".to_string())));

    // after collection the id is no longer tracked
    assert!(!table.contains(&RequestId::Num(1)));
    assert_eq!(table.len(), 0);
}

#[test]
fn duplicate_id_is_a_protocol_violation() {
    let mut table = PendingTable::new();
    table.register(RequestId::Str("a".to_string())).unwrap();
    let second = table.register(RequestId::Str("a".to_string()));
    assert!(matches!(second, Err(McpError::ProtocolViolation(_))));
    // the table still holds exactly one entry for the id
    assert_eq!(table.len(), 1);
}

#[test]
fn out_of_order_responses_reach_their_own_callers() {
    // two requests with ids 1 and 2 sent back-to-back; responses arrive in
    // order 2, 1 — caller 1 must still get response 1 and caller 2 response 2
    let mut table = PendingTable::new();
    table.register(RequestId::Num(1)).unwrap();
    table.register(RequestId::Num(2)).unwrap();

    assert!(table.fulfill(response_with(RequestId::Num(2), "for-two")));
    assert!(table.fulfill(response_with(RequestId::Num(1), "for-one")));

    let r1 = table.take_response(&RequestId::Num(1)).unwrap();
    assert_eq!(r1.id, RequestId::Num(1));
    assert_eq!(r1.result, Some(serde_json::Value::String("for-one".to_string())));

    let r2 = table.take_response(&RequestId::Num(2)).unwrap();
    assert_eq!(r2.id, RequestId::Num(2));
    assert_eq!(r2.result, Some(serde_json::Value::String("for-two".to_string())));
}

#[test]
fn unknown_correlation_is_dropped_not_fatal() {
    let mut table = PendingTable::new();
    table.register(RequestId::Num(5)).unwrap();
    // a response for an id nobody waits for is refused and changes nothing
    assert!(!table.fulfill(response_with(RequestId::Num(99), "orphan")));
    assert_eq!(table.len(), 1);
}

#[test]
fn timeout_cleanup_makes_late_response_an_orphan() {
    let mut table = PendingTable::new();
    table.register(RequestId::Num(7)).unwrap();

    // the caller gives up: its entry is removed
    assert!(table.abandon(&RequestId::Num(7)));
    assert!(!table.contains(&RequestId::Num(7)));

    // the wire response arriving later finds nothing and is dropped
    assert!(!table.fulfill(response_with(RequestId::Num(7), "late")));
    // abandoning again finds nothing: cleanup is idempotent
    assert!(!table.abandon(&RequestId::Num(7)));
}

#[test]
fn single_fire_slot_accepts_only_one_response() {
    let mut table = PendingTable::new();
    table.register(RequestId::Num(4)).unwrap();
    assert!(table.fulfill(response_with(RequestId::Num(4), "first")));
    // a second response for the same id cannot overwrite the first
    assert!(!table.fulfill(response_with(RequestId::Num(4), "second")));
    let r = table.take_response(&RequestId::Num(4)).unwrap();
    assert_eq!(r.result, Some(serde_json::Value::String("first".to_string())));
}

#[test]
fn closing_fails_every_pending_request() {
    let mut table = PendingTable::new();
    table.register(RequestId::Num(1)).unwrap();
    table.register(RequestId::Str("x".to_string())).unwrap();

    let ids = table.close();
    assert_eq!(ids.len(), 2);
    assert_eq!(ids[0], RequestId::Num(1));
    assert_eq!(ids[1], RequestId::Str("x".to_string()));
    assert_eq!(table.len(), 0);
}

#[test]
fn string_and_number_ids_do_not_collide() {
    let mut table = PendingTable::new();
    table.register(RequestId::Num(1)).unwrap();
    table.register(RequestId::Str("1".to_string())).unwrap();
    assert_eq!(table.len(), 2);

    assert!(table.fulfill(response_with(RequestId::Str("1".to_string()), "str")));
    // the numeric entry is still waiting
    assert!(table.take_response(&RequestId::Num(1)).is_none());
    let r = table.take_response(&RequestId::Str("1".to_string())).unwrap();
    assert_eq!(r.result, Some(serde_json::Value::String("str".to_string())));
}
