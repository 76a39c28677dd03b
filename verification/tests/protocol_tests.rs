use mcp_protocol_sdk::error::{
    McpError, INTERNAL_ERROR, INVALID_PARAMS, INVALID_REQUEST, METHOD_NOT_FOUND, PROMPT_NOT_FOUND,
    RESOURCE_NOT_FOUND, TOOL_NOT_FOUND,
};
use mcp_protocol_sdk::methods;
use mcp_protocol_sdk::types::{
    AnnotationAudience, Annotations, Content, DangerLevel, JsonRpcError, JsonRpcNotification,
    JsonRpcRequest, JsonRpcResponse, RequestId, Role, SamplingMessage, Tool,
};
use mcp_protocol_sdk::messages::CreateMessageParams;
use mcp_protocol_sdk::validation::{
    validate_create_message_params, validate_jsonrpc_notification, validate_jsonrpc_request,
    validate_jsonrpc_response,
};
use mcp_protocol_sdk::{JSONRPC_VERSION, LATEST_PROTOCOL_VERSION};

#[test]
fn test_protocol_version() {
    assert_eq!(LATEST_PROTOCOL_VERSION, "2025-03-26");
    assert_eq!(JSONRPC_VERSION, "2.0");
}

#[test]
fn test_all_method_constants() {
    // Verify all method constants are correct for 2025-03-26
    assert_eq!(methods::INITIALIZE, "initialize");
    assert_eq!(methods::TOOLS_CALL, "tools/call");
    assert_eq!(methods::RESOURCES_READ, "resources/read");
    assert_eq!(methods::PROMPTS_GET, "prompts/get");
    assert_eq!(methods::SAMPLING_CREATE_MESSAGE, "sampling/createMessage");

    // New in 2025-03-26
    assert_eq!(methods::ROOTS_LIST, "roots/list");
    assert_eq!(methods::COMPLETION_COMPLETE, "completion/complete");
    assert_eq!(methods::RESOURCES_TEMPLATES_LIST, "resources/templates/list");
}

#[test]
fn test_library_exports() {
    // Basic smoke test to ensure all modules are accessible
    let _error = McpError::ProtocolViolation("test".to_string());
}

#[test]
fn test_annotations() {
    let annotations = Annotations::new()
        .read_only()
        .for_audience(vec![AnnotationAudience::Developer])
        .with_danger_level(DangerLevel::Safe);

    assert_eq!(annotations.read_only, Some(true));
    assert_eq!(annotations.destructive, Some(false));
    assert_eq!(annotations.danger, Some(DangerLevel::Safe));
    assert_eq!(annotations.audience, Some(vec![AnnotationAudience::Developer]));
}

#[test]
fn test_tool_with_annotations() {
    let tool = Tool::new("safe_reader", "Read file safely")
        .with_annotations(Annotations::new().read_only());

    assert_eq!(tool.name, "safe_reader");
    assert!(tool.annotations.is_some());
    assert_eq!(tool.annotations.unwrap().read_only, Some(true));
}

#[test]
fn content_constructors_carry_their_fields() {
    match Content::text("Hello, world!") {
        Content::Text { text, annotations } => {
            assert_eq!(text, "Hello, world!");
            assert!(annotations.is_none());
        }
        _ => panic!("expected text content"),
    }
    match Content::audio("base64data", "audio/wav") {
        Content::Audio { data, mime_type, annotations } => {
            assert_eq!(data, "base64data");
            assert_eq!(mime_type, "audio/wav");
            assert!(annotations.is_none());
        }
        _ => panic!("expected audio content"),
    }
    match Content::resource("file:///test.txt") {
        Content::Resource { resource, annotations } => {
            assert_eq!(resource.uri, "file:///test.txt");
            assert!(annotations.is_none());
        }
        _ => panic!("expected resource content"),
    }
}

#[test]
fn sampling_message_constructors_pick_roles() {
    let m = SamplingMessage::user_text("hi");
    assert_eq!(m.role, Role::User);
    let m = SamplingMessage::assistant_text("hello");
    assert_eq!(m.role, Role::Assistant);
    let m = SamplingMessage::user_image("imgdata", "image/png");
    assert_eq!(m.role, Role::User);
    match m.content {
        Content::Image { data, mime_type, .. } => {
            assert_eq!(data, "imgdata");
            assert_eq!(mime_type, "image/png");
        }
        _ => panic!("expected image content"),
    }
    let m = SamplingMessage::user_resource("file:///x");
    match m.content {
        Content::Resource { resource, .. } => assert_eq!(resource.uri, "file:///x"),
        _ => panic!("expected resource content"),
    }
}

#[test]
fn error_codes_are_deterministic() {
    assert_eq!(McpError::MethodNotFound("x".to_string()).error_code(), METHOD_NOT_FOUND);
    assert_eq!(McpError::MethodNotFound("y".to_string()).error_code(), METHOD_NOT_FOUND);
    assert_eq!(McpError::InvalidParams("p".to_string()).error_code(), INVALID_PARAMS);
    assert_eq!(McpError::ProtocolViolation("v".to_string()).error_code(), INVALID_REQUEST);
    assert_eq!(McpError::ToolNotFound("t".to_string()).error_code(), TOOL_NOT_FOUND);
    assert_eq!(McpError::ResourceNotFound("r".to_string()).error_code(), RESOURCE_NOT_FOUND);
    assert_eq!(McpError::PromptNotFound("p".to_string()).error_code(), PROMPT_NOT_FOUND);
    assert_eq!(McpError::NotConnected.error_code(), INTERNAL_ERROR);
    assert_eq!(McpError::ConnectionTimeout.error_code(), INTERNAL_ERROR);
    assert_eq!(McpError::ReconnectExhausted.error_code(), INTERNAL_ERROR);
    assert_eq!(McpError::HandshakeFailed("h".to_string()).error_code(), INTERNAL_ERROR);
    assert_eq!(McpError::TransportIo("io".to_string()).error_code(), INTERNAL_ERROR);
    assert_eq!(McpError::Serialization("s".to_string()).error_code(), INTERNAL_ERROR);
    assert_eq!(McpError::Internal("i".to_string()).error_code(), INTERNAL_ERROR);
}

#[test]
fn error_messages_name_the_kind() {
    assert_eq!(McpError::NotConnected.message(), "not connected");
    assert_eq!(McpError::MethodNotFound("m".to_string()).message(), "method not found");
    assert_eq!(McpError::ReconnectExhausted.message(), "max reconnection attempts exceeded");
}

#[test]
fn request_envelope_carries_version_and_id() {
    let req = JsonRpcRequest::new(RequestId::Num(7), "ping".to_string(), None);
    assert_eq!(req.jsonrpc, "2.0");
    assert_eq!(req.method, "ping");
    assert_eq!(req.id, RequestId::Num(7));
    assert!(validate_jsonrpc_request(&req).is_ok());
}

#[test]
fn response_envelope_echoes_id() {
    let resp = JsonRpcResponse::success(RequestId::Str("abc".to_string()), serde_json::Value::Null);
    assert_eq!(resp.jsonrpc, "2.0");
    assert_eq!(resp.id, RequestId::Str("abc".to_string()));
    assert!(resp.result.is_some());
    assert!(validate_jsonrpc_response(&resp).is_ok());
}

#[test]
fn error_envelope_echoes_id_and_code() {
    let err = JsonRpcError::error(RequestId::Num(3), -32601, "method not found".to_string(), None);
    assert_eq!(err.jsonrpc, "2.0");
    assert_eq!(err.id, RequestId::Num(3));
    assert_eq!(err.error.code, -32601);
}

#[test]
fn malformed_envelopes_are_rejected() {
    let bad_version = JsonRpcRequest {
        jsonrpc: "1.0".to_string(),
        id: RequestId::Num(1),
        method: "ping".to_string(),
        params: None,
    };
    assert!(matches!(
        validate_jsonrpc_request(&bad_version),
        Err(McpError::ProtocolViolation(_))
    ));

    let empty_method = JsonRpcRequest {
        jsonrpc: "2.0".to_string(),
        id: RequestId::Num(1),
        method: "".to_string(),
        params: None,
    };
    assert!(matches!(
        validate_jsonrpc_request(&empty_method),
        Err(McpError::ProtocolViolation(_))
    ));

    let note = JsonRpcNotification::new("notifications/progress".to_string(), None);
    assert!(validate_jsonrpc_notification(&note).is_ok());
}

#[test]
fn request_ids_compare_by_value() {
    assert_eq!(RequestId::Num(1), RequestId::Num(1));
    assert_ne!(RequestId::Num(1), RequestId::Num(2));
    assert_eq!(RequestId::Str("a".to_string()), RequestId::Str("a".to_string()));
    assert_ne!(RequestId::Str("a".to_string()), RequestId::Num(1));
    assert_eq!(RequestId::Null, RequestId::Null);
    assert_ne!(RequestId::Null, RequestId::Num(0));
}

#[test]
fn test_constants() {
    // Test that protocol constants are correct
    assert_eq!(LATEST_PROTOCOL_VERSION, "2025-03-26");
    assert_eq!(JSONRPC_VERSION, "2.0");
    assert_eq!(mcp_protocol_sdk::PROTOCOL_VERSION, LATEST_PROTOCOL_VERSION);
}

#[test]
fn result_constructors_set_their_flags() {
    let ok = mcp_protocol_sdk::types::CallToolResult::success(vec![Content::text("done")]);
    assert_eq!(ok.is_error, Some(false));
    let bad = mcp_protocol_sdk::types::CallToolResult::error(vec![Content::text("boom")]);
    assert_eq!(bad.is_error, Some(true));

    let prompt = mcp_protocol_sdk::types::GetPromptResult::new(vec![])
        .with_description("a description");
    assert_eq!(prompt.description, Some("a description".to_string()));

    let sampled = mcp_protocol_sdk::types::CreateMessageResult::new(
        Role::Assistant,
        Content::text("hi"),
        "some-model".to_string(),
    );
    assert_eq!(sampled.model, "some-model");
    assert!(sampled.stop_reason.is_none());
}

#[test]
fn sampling_params_are_validated() {
    let empty = CreateMessageParams::new(vec![], 100);
    assert!(matches!(
        validate_create_message_params(&empty),
        Err(McpError::InvalidParams(_))
    ));

    let zero_budget = CreateMessageParams::new(vec![SamplingMessage::user_text("hi")], 0);
    assert!(validate_create_message_params(&zero_budget).is_err());

    let fine = CreateMessageParams::new(vec![SamplingMessage::user_text("hi")], 100)
        .with_system_prompt("be brief");
    assert!(validate_create_message_params(&fine).is_ok());
    assert_eq!(fine.system_prompt, Some("be brief".to_string()));
}
