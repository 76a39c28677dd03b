use mcp_protocol_sdk::error::{McpError, METHOD_NOT_FOUND};
use mcp_protocol_sdk::lifecycle::{LifecycleState, ServerLifecycle};
use mcp_protocol_sdk::messages::{CallToolParams, GetPromptParams, ListToolsParams,
    ReadResourceParams};
use mcp_protocol_sdk::router::{
    error_response, handle_parsed_request, route_method, tools_list_changed_notification,
    MethodRoute, ParsedRequest, ServerOutcome,
};
use mcp_protocol_sdk::server::{McpServer, ServerState};
use mcp_protocol_sdk::types::{Prompt, RequestId, Resource, Tool};

fn resource(uri: &str) -> Resource {
    Resource {
        uri: uri.to_string(),
        name: None,
        description: None,
        mime_type: None,
        annotations: None,
        size: None,
    }
}

#[test]
fn test_server_creation() {
    let server = McpServer::new("test-server".to_string(), "1.0.0".to_string());
    assert_eq!(server.info().name, "test-server");
    assert_eq!(server.info().version, "1.0.0");
    assert!(!server.is_running());
}

#[test]
fn tool_catalog_add_list_remove() {
    let mut server = McpServer::new("s".to_string(), "1".to_string());
    server.add_tool(Tool::new("echo", "Echo a message")).unwrap();
    server.add_tool(Tool::new("add", "Add numbers")).unwrap();

    let tools = server.list_tools();
    assert_eq!(tools.len(), 2);
    assert_eq!(tools[0].name, "echo");
    assert_eq!(tools[1].name, "add");

    // registering the same name again replaces, not duplicates
    server.add_tool(Tool::new("echo", "Echo, revised")).unwrap();
    let tools = server.list_tools();
    assert_eq!(tools.len(), 2);
    assert_eq!(tools[0].description, Some("Echo, revised".to_string()));

    assert!(server.remove_tool("echo"));
    assert!(!server.remove_tool("echo"));
    assert_eq!(server.list_tools().len(), 1);
}

#[test]
fn empty_tool_name_is_rejected() {
    let mut server = McpServer::new("s".to_string(), "1".to_string());
    let r = server.add_tool(Tool::new("", "nameless"));
    assert!(matches!(r, Err(McpError::InvalidParams(_))));
    assert_eq!(server.list_tools().len(), 0);
}

#[test]
fn missing_and_disabled_tools_are_not_found() {
    let mut server = McpServer::new("s".to_string(), "1".to_string());
    assert!(matches!(server.resolve_tool("ghost"), Err(McpError::ToolNotFound(_))));

    server.add_tool(Tool::new("echo", "Echo")).unwrap();
    let i = server.resolve_tool("echo").unwrap();
    server.tools[i].disable();
    assert!(matches!(server.resolve_tool("echo"), Err(McpError::ToolNotFound(_))));
    server.tools[i].enable();
    assert!(server.resolve_tool("echo").is_ok());
}

#[test]
fn resource_catalog_round_trip() {
    let mut server = McpServer::new("s".to_string(), "1".to_string());
    server.add_resource(resource("file:///a.txt")).unwrap();
    assert!(server.resolve_resource("file:///a.txt").is_ok());
    assert!(matches!(
        server.resolve_resource("file:///missing"),
        Err(McpError::ResourceNotFound(_))
    ));
    assert_eq!(server.list_resources().len(), 1);
    assert!(server.remove_resource("file:///a.txt"));
    assert!(!server.remove_resource("file:///a.txt"));
}

#[test]
fn prompt_catalog_round_trip() {
    let mut server = McpServer::new("s".to_string(), "1".to_string());
    server
        .add_prompt(Prompt { name: "greet".to_string(), description: None, arguments: None })
        .unwrap();
    assert!(server.resolve_prompt("greet").is_ok());
    assert!(matches!(server.resolve_prompt("other"), Err(McpError::PromptNotFound(_))));
    assert_eq!(server.list_prompts().len(), 1);
    assert!(server.remove_prompt("greet"));
}

#[test]
fn unknown_method_yields_error_response_with_same_id() {
    // a request for an unregistered method name produces an error response
    // with a method-not-found code and the request's own id, never a panic
    let server = McpServer::new("s".to_string(), "1".to_string());
    let outcome = handle_parsed_request(&server, ParsedRequest::Unknown("bogus/method".to_string()));
    let err = match outcome {
        ServerOutcome::Failed(e) => e,
        other => panic!("expected a failed outcome, got {:?}", other),
    };
    assert!(matches!(err, McpError::MethodNotFound(ref m) if m == "bogus/method"));

    let resp = error_response(RequestId::Num(42), &err);
    assert_eq!(resp.id, RequestId::Num(42));
    assert_eq!(resp.error.code, METHOD_NOT_FOUND);
    assert_eq!(resp.jsonrpc, "2.0");
}

#[test]
fn router_dispatches_every_fixed_method() {
    assert_eq!(route_method("initialize"), MethodRoute::Initialize);
    assert_eq!(route_method("ping"), MethodRoute::Ping);
    assert_eq!(route_method("tools/list"), MethodRoute::ToolsList);
    assert_eq!(route_method("tools/call"), MethodRoute::ToolsCall);
    assert_eq!(route_method("resources/list"), MethodRoute::ResourcesList);
    assert_eq!(route_method("resources/read"), MethodRoute::ResourcesRead);
    assert_eq!(route_method("resources/subscribe"), MethodRoute::ResourcesSubscribe);
    assert_eq!(route_method("resources/unsubscribe"), MethodRoute::ResourcesUnsubscribe);
    assert_eq!(route_method("prompts/list"), MethodRoute::PromptsList);
    assert_eq!(route_method("prompts/get"), MethodRoute::PromptsGet);
    assert_eq!(route_method("logging/setLevel"), MethodRoute::LoggingSetLevel);
    assert_eq!(route_method("no/such/method"), MethodRoute::Unknown);
    assert_eq!(route_method(""), MethodRoute::Unknown);
}

#[test]
fn tools_call_routes_to_registered_enabled_tools_only() {
    let mut server = McpServer::new("s".to_string(), "1".to_string());
    server.add_tool(Tool::new("echo", "Echo")).unwrap();

    let outcome =
        handle_parsed_request(&server, ParsedRequest::ToolsCall(CallToolParams::new("echo".to_string())));
    match outcome {
        ServerOutcome::InvokeTool(p) => assert_eq!(p.name, "echo"),
        other => panic!("expected an invocation, got {:?}", other),
    }

    let outcome =
        handle_parsed_request(&server, ParsedRequest::ToolsCall(CallToolParams::new("ghost".to_string())));
    assert!(matches!(outcome, ServerOutcome::Failed(McpError::ToolNotFound(_))));

    let outcome =
        handle_parsed_request(&server, ParsedRequest::ToolsCall(CallToolParams::new("".to_string())));
    assert!(matches!(outcome, ServerOutcome::Failed(McpError::InvalidParams(_))));
}

#[test]
fn listing_and_reading_through_the_router() {
    let mut server = McpServer::new("s".to_string(), "1".to_string());
    server.add_tool(Tool::new("echo", "Echo")).unwrap();
    server.add_resource(resource("file:///a.txt")).unwrap();

    match handle_parsed_request(&server, ParsedRequest::ToolsList(ListToolsParams::default())) {
        ServerOutcome::ToolsList(res) => {
            assert_eq!(res.tools.len(), 1);
            assert_eq!(res.tools[0].name, "echo");
            assert!(res.next_cursor.is_none());
        }
        other => panic!("expected a tool listing, got {:?}", other),
    }

    match handle_parsed_request(
        &server,
        ParsedRequest::ResourcesRead(ReadResourceParams::new("file:///a.txt".to_string())),
    ) {
        ServerOutcome::ReadResource(p) => assert_eq!(p.uri, "file:///a.txt"),
        other => panic!("expected a read, got {:?}", other),
    }

    let outcome = handle_parsed_request(
        &server,
        ParsedRequest::PromptsGet(GetPromptParams::new("missing".to_string())),
    );
    assert!(matches!(outcome, ServerOutcome::Failed(McpError::PromptNotFound(_))));
}

#[test]
fn initialize_reports_the_server_identity() {
    let server = McpServer::new("test-server".to_string(), "2.0.0".to_string());
    let params = mcp_protocol_sdk::messages::InitializeParams::new(
        "2025-03-26".to_string(),
        mcp_protocol_sdk::types::ClientCapabilities::default(),
        mcp_protocol_sdk::types::Implementation { name: "c".to_string(), version: "1".to_string() },
    );
    match handle_parsed_request(&server, ParsedRequest::Initialize(params)) {
        ServerOutcome::Initialize(res) => {
            assert_eq!(res.protocol_version, "2025-03-26");
            assert_eq!(res.server_info.name, "test-server");
            assert!(res.capabilities.tools.is_some());
        }
        other => panic!("expected a handshake result, got {:?}", other),
    }
}

#[test]
fn server_state_machine_rejects_illegal_transitions() {
    let mut server = McpServer::new("s".to_string(), "1".to_string());
    assert_eq!(server.state(), ServerState::Uninitialized);

    // stop before any start is rejected with an error, not a panic
    assert!(matches!(server.begin_stop(), Err(McpError::ProtocolViolation(_))));

    server.begin_start().unwrap();
    assert_eq!(server.state(), ServerState::Initializing);
    // a second start is rejected
    assert!(matches!(server.begin_start(), Err(McpError::ProtocolViolation(_))));

    server.finish_start();
    assert!(server.is_running());

    server.begin_stop().unwrap();
    assert_eq!(server.state(), ServerState::Stopping);
    server.finish_stop();
    assert_eq!(server.state(), ServerState::Stopped);

    // stopping an already stopped server is an accepted no-op
    assert!(server.begin_stop().is_ok());
    assert_eq!(server.state(), ServerState::Stopped);

    // a stopped server may be started again
    server.begin_start().unwrap();
    assert_eq!(server.state(), ServerState::Initializing);
    server.finish_start();
    assert!(server.is_running());
}

#[test]
fn lifecycle_guards_start_and_stop() {
    let mut lc = ServerLifecycle::new();
    assert_eq!(lc.state(), LifecycleState::Created);

    // stop while created is rejected with an error, not a panic
    assert!(matches!(lc.begin_stop(), Err(McpError::ProtocolViolation(_))));

    lc.begin_start().unwrap();
    assert_eq!(lc.state(), LifecycleState::Starting);
    lc.start_succeeded(1000);
    assert!(lc.is_running());
    assert_eq!(lc.uptime(4000), Some(3000));

    lc.begin_stop().unwrap();
    lc.stop_finished();
    assert_eq!(lc.state(), LifecycleState::Stopped);
    assert!(lc.uptime(5000).is_none());

    // a stopped server may be started again
    lc.begin_start().unwrap();
    lc.start_succeeded(6000);
    assert!(lc.is_running());
}

#[test]
fn lifecycle_failures_are_terminal_states() {
    let mut lc = ServerLifecycle::new();
    lc.begin_start().unwrap();
    lc.start_failed("bind failed".to_string());
    assert_eq!(lc.state(), LifecycleState::Error("bind failed".to_string()));
    // neither start nor stop is allowed from the error state
    assert!(lc.begin_start().is_err());
    assert!(lc.begin_stop().is_err());

    let mut lc = ServerLifecycle::new();
    lc.begin_start().unwrap();
    lc.start_succeeded(0);
    lc.begin_stop().unwrap();
    let e = lc.stop_timed_out();
    assert!(matches!(e, McpError::ConnectionTimeout));
    assert!(matches!(lc.state(), LifecycleState::Error(_)));
}

#[test]
fn list_changed_notifications_carry_their_methods() {
    let n = tools_list_changed_notification();
    assert_eq!(n.method, "notifications/tools/list_changed");
    assert_eq!(n.jsonrpc, "2.0");
}
