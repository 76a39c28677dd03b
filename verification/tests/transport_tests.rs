use mcp_protocol_sdk::error::McpError;
use mcp_protocol_sdk::tool::{echo_reply, Tool, ToolBuilder};
use mcp_protocol_sdk::transport::{
    ensure_request_id, sse_data_payload, validate_endpoint_url, ConnectionState, TransportConfig,
};
use mcp_protocol_sdk::types::{JsonRpcRequest, RequestId, ToolInfo, ToolInputSchema};

#[test]
fn endpoint_urls_are_validated() {
    assert!(validate_endpoint_url("ws://localhost:8080/mcp").is_ok());
    assert!(validate_endpoint_url("http://localhost:3000").is_ok());
    assert!(validate_endpoint_url("https://example.com/mcp/events").is_ok());

    let r = validate_endpoint_url("invalid-url");
    assert!(matches!(r, Err(McpError::TransportIo(_))));
    assert!(validate_endpoint_url("").is_err());
}

#[test]
fn null_request_ids_get_a_fallback() {
    let req = JsonRpcRequest::new(RequestId::Null, "ping".to_string(), None);
    let fixed = ensure_request_id(req, 7);
    assert_eq!(fixed.id, RequestId::Num(7));
    assert_eq!(fixed.method, "ping");

    let req = JsonRpcRequest::new(RequestId::Num(3), "ping".to_string(), None);
    let kept = ensure_request_id(req, 7);
    assert_eq!(kept.id, RequestId::Num(3));
}

#[test]
fn transport_config_defaults_leave_everything_unset() {
    let config = TransportConfig::default();
    assert!(config.connect_timeout_ms.is_none());
    assert!(config.read_timeout_ms.is_none());
    assert!(config.write_timeout_ms.is_none());
    assert!(config.max_message_size.is_none());
    assert!(!config.compression);
    assert!(config.headers.is_empty());
}

#[test]
fn connection_state_clones_to_itself() {
    let s = ConnectionState::Error("gone".to_string());
    assert_eq!(s.clone(), s);
    assert_ne!(ConnectionState::Connected, ConnectionState::Disconnected);
}

#[test]
fn echo_reply_falls_back_to_greeting() {
    let message = "test message".to_string();
    assert_eq!(echo_reply(Some(&message)), "test message");
    assert_eq!(echo_reply(None), "Hello, World!");
}

#[test]
fn test_tool_enable_disable() {
    let mut tool = Tool::new(ToolInfo {
        name: "test_tool".to_string(),
        description: None,
        input_schema: ToolInputSchema {
            schema_type: "object".to_string(),
            properties: None,
            required: None,
        },
        annotations: None,
    });

    assert!(tool.is_enabled());

    tool.disable();
    assert!(!tool.is_enabled());
    assert!(matches!(tool.check_invocable(), Err(McpError::InvalidParams(_))));

    tool.enable();
    assert!(tool.is_enabled());
    assert!(tool.check_invocable().is_ok());
}

#[test]
fn test_tool_builder() {
    let tool = ToolBuilder::new("test")
        .description("A test tool")
        .schema(ToolInputSchema {
            schema_type: "object".to_string(),
            properties: Some(vec![(
                "x".to_string(),
                serde_json::Value::String("number".to_string()),
            )]),
            required: None,
        })
        .build();

    assert_eq!(tool.info.name, "test");
    assert_eq!(tool.info.description, Some("A test tool".to_string()));
    assert!(tool.is_enabled());
}

#[test]
fn builder_without_schema_uses_empty_object_schema() {
    let tool = ToolBuilder::new("bare").build();
    assert_eq!(tool.info.input_schema.schema_type, "object");
    assert!(tool.info.input_schema.properties.is_none());
    assert!(tool.info.input_schema.required.is_none());
}

#[test]
fn test_tool_creation() {
    let tool = Tool::new(ToolInfo {
        name: "test_tool".to_string(),
        description: Some("Test tool".to_string()),
        input_schema: ToolInputSchema {
            schema_type: "object".to_string(),
            properties: None,
            required: None,
        },
        annotations: None,
    });

    assert_eq!(tool.info.name, "test_tool");
    assert_eq!(tool.info.description, Some("Test tool".to_string()));
    assert!(tool.is_enabled());
}

#[test]
fn sse_lines_yield_their_payloads() {
    assert_eq!(sse_data_payload("data: {\"a\":1}"), Some("{\"a\":1}".to_string()));
    assert_eq!(sse_data_payload("data: "), Some("".to_string()));
    assert_eq!(sse_data_payload("event: message"), None);
    assert_eq!(sse_data_payload("data:"), None);
    assert_eq!(sse_data_payload(""), None);
}
