//! Request routing: method name dispatch, typed request handling, and
//! response envelopes.
//!
//! Every inbound request is routed to exactly one handler of the fixed
//! method namespace. Unknown methods and rejected parameters become error
//! responses carrying the request's own id — they never tear the connection
//! down and never panic. The error-code mapping is deterministic: the same
//! error kind always yields the same code.

use vstd::prelude::*;
use crate::error::{spec_error_code, McpError};
use crate::messages::{
    CallToolParams, GetPromptParams, InitializeParams, InitializeResult, ListPromptsParams,
    ListPromptsResult, ListResourcesParams, ListResourcesResult, ListToolsParams,
    ListToolsResult, PingResult, ReadResourceParams, SetLoggingLevelParams,
    SetLoggingLevelResult, SubscribeResourceParams, SubscribeResourceResult,
    UnsubscribeResourceParams, UnsubscribeResourceResult,
};
use crate::server::McpServer;
use crate::types::{prompt_like, resource_like, tool_like, JsonRpcError, JsonRpcNotification,
    RequestId};
use crate::validation::str_eq;

verus! {

/// The handler categories of the fixed method namespace.
#[derive(Debug, Clone, Copy, PartialEq, Eq)]
pub enum MethodRoute {
    /// Connection handshake.
    Initialize,
    /// Liveness probe.
    Ping,
    /// Tool catalog listing.
    ToolsList,
    /// Tool invocation.
    ToolsCall,
    /// Resource catalog listing.
    ResourcesList,
    /// Resource read.
    ResourcesRead,
    /// Resource subscription.
    ResourcesSubscribe,
    /// Resource unsubscription.
    ResourcesUnsubscribe,
    /// Prompt catalog listing.
    PromptsList,
    /// Prompt retrieval.
    PromptsGet,
    /// Log-level change.
    LoggingSetLevel,
    /// Anything else.
    Unknown,
}

/// The category each method name routes to; every name outside the fixed
/// namespace routes to the unknown category.
pub open spec fn spec_route(m: Seq<char>) -> MethodRoute {
    if m == "initialize"@ {
        MethodRoute::Initialize
    } else if m == "ping"@ {
        MethodRoute::Ping
    } else if m == "tools/list"@ {
        MethodRoute::ToolsList
    } else if m == "tools/call"@ {
        MethodRoute::ToolsCall
    } else if m == "resources/list"@ {
        MethodRoute::ResourcesList
    } else if m == "resources/read"@ {
        MethodRoute::ResourcesRead
    } else if m == "resources/subscribe"@ {
        MethodRoute::ResourcesSubscribe
    } else if m == "resources/unsubscribe"@ {
        MethodRoute::ResourcesUnsubscribe
    } else if m == "prompts/list"@ {
        MethodRoute::PromptsList
    } else if m == "prompts/get"@ {
        MethodRoute::PromptsGet
    } else if m == "logging/setLevel"@ {
        MethodRoute::LoggingSetLevel
    } else {
        MethodRoute::Unknown
    }
}

/// Route a method name to its handler category.
pub fn route_method(method: &str) -> (r: MethodRoute)
    ensures
        r == spec_route(method@),
{
    if str_eq(method, crate::methods::INITIALIZE) {
        MethodRoute::Initialize
    } else if str_eq(method, crate::methods::PING) {
        MethodRoute::Ping
    } else if str_eq(method, crate::methods::TOOLS_LIST) {
        MethodRoute::ToolsList
    } else if str_eq(method, crate::methods::TOOLS_CALL) {
        MethodRoute::ToolsCall
    } else if str_eq(method, crate::methods::RESOURCES_LIST) {
        MethodRoute::ResourcesList
    } else if str_eq(method, crate::methods::RESOURCES_READ) {
        MethodRoute::ResourcesRead
    } else if str_eq(method, crate::methods::RESOURCES_SUBSCRIBE) {
        MethodRoute::ResourcesSubscribe
    } else if str_eq(method, crate::methods::RESOURCES_UNSUBSCRIBE) {
        MethodRoute::ResourcesUnsubscribe
    } else if str_eq(method, crate::methods::PROMPTS_LIST) {
        MethodRoute::PromptsList
    } else if str_eq(method, crate::methods::PROMPTS_GET) {
        MethodRoute::PromptsGet
    } else if str_eq(method, crate::methods::LOGGING_SET_LEVEL) {
        MethodRoute::LoggingSetLevel
    } else {
        MethodRoute::Unknown
    }
}

/// One inbound request, decoded into the typed parameters of its method.
#[derive(Debug)]
pub enum ParsedRequest {
    /// Connection handshake.
    Initialize(InitializeParams),
    /// Liveness probe.
    Ping,
    /// Tool catalog listing.
    ToolsList(ListToolsParams),
    /// Tool invocation.
    ToolsCall(CallToolParams),
    /// Resource catalog listing.
    ResourcesList(ListResourcesParams),
    /// Resource read.
    ResourcesRead(ReadResourceParams),
    /// Resource subscription.
    ResourcesSubscribe(SubscribeResourceParams),
    /// Resource unsubscription.
    ResourcesUnsubscribe(UnsubscribeResourceParams),
    /// Prompt catalog listing.
    PromptsList(ListPromptsParams),
    /// Prompt retrieval.
    PromptsGet(GetPromptParams),
    /// Log-level change.
    LoggingSetLevel(SetLoggingLevelParams),
    /// A method name outside the fixed namespace.
    Unknown(String),
}

/// What handling one request decided: either a finished result, or an
/// invocation handed to the host that owns the handler code, or an error to
/// be turned into an error response.
#[derive(Debug)]
pub enum ServerOutcome {
    /// The handshake result.
    Initialize(InitializeResult),
    /// The probe reply.
    Ping(PingResult),
    /// The tool catalog page.
    ToolsList(ListToolsResult),
    /// Invoke the named, registered and enabled tool with these parameters.
    InvokeTool(CallToolParams),
    /// The resource catalog page.
    ResourcesList(ListResourcesResult),
    /// Read the named, registered resource with these parameters.
    ReadResource(ReadResourceParams),
    /// The subscription acknowledgement.
    Subscribed(SubscribeResourceResult),
    /// The unsubscription acknowledgement.
    Unsubscribed(UnsubscribeResourceResult),
    /// The prompt catalog page.
    PromptsList(ListPromptsResult),
    /// Retrieve the named, registered prompt with these parameters.
    GetPrompt(GetPromptParams),
    /// The log-level acknowledgement.
    LoggingSet(SetLoggingLevelResult),
    /// The request failed; the error maps to a wire code
    /// deterministically.
    Failed(McpError),
}

/// Whether an invocation of the named tool may go ahead: it is registered
/// and enabled.
pub open spec fn tool_invocable(server: McpServer, name: Seq<char>) -> bool {
    exists|i: int|
        0 <= i < server.tools@.len() && (#[trigger] server.tools@[i]).info.name@ == name
            && server.tools@[i].enabled
}

/// Handle one decoded request against the server's catalogs.
///
/// Exactly one handler runs. An unknown method becomes a method-not-found
/// error; empty names or URIs become invalid-params errors; a missing
/// catalog entry becomes the not-found error of its kind. Catalog listings
/// return the whole catalog in registration order. Invocations of tool,
/// resource and prompt handlers are handed back to the host, and only for
/// entries that exist (and, for tools, are enabled).
pub fn handle_parsed_request(server: &McpServer, request: ParsedRequest) -> (r: ServerOutcome)
    requires
        server.wf(),
    ensures
        match request {
            ParsedRequest::Unknown(m) => r matches ServerOutcome::Failed(
                McpError::MethodNotFound(m2),
            ) && m2 == m,
            ParsedRequest::Ping => r matches ServerOutcome::Ping(p) && p.alive,
            ParsedRequest::Initialize(p) => {
                if p.protocol_version@.len() == 0 {
                    r matches ServerOutcome::Failed(McpError::InvalidParams(_))
                } else {
                    r matches ServerOutcome::Initialize(res) && res.protocol_version@
                        == crate::LATEST_PROTOCOL_VERSION@ && res.server_info == server.info
                        && res.capabilities == server.capabilities && res.instructions is None
                }
            },
            ParsedRequest::ToolsList(_) => r matches ServerOutcome::ToolsList(res) && {
                &&& res.tools@.len() == server.tools@.len()
                &&& forall|i: int|
                    0 <= i < res.tools@.len() ==> tool_like(
                        #[trigger] res.tools@[i],
                        server.tools@[i].info,
                    )
                &&& res.next_cursor is None
            },
            ParsedRequest::ToolsCall(p) => {
                if p.name@.len() == 0 {
                    r matches ServerOutcome::Failed(McpError::InvalidParams(_))
                } else if tool_invocable(*server, p.name@) {
                    r matches ServerOutcome::InvokeTool(q) && q == p
                } else {
                    r matches ServerOutcome::Failed(McpError::ToolNotFound(_))
                }
            },
            ParsedRequest::ResourcesList(_) => r matches ServerOutcome::ResourcesList(res) && {
                &&& res.resources@.len() == server.resources@.len()
                &&& forall|i: int|
                    0 <= i < res.resources@.len() ==> resource_like(
                        #[trigger] res.resources@[i],
                        server.resources@[i],
                    )
                &&& res.next_cursor is None
            },
            ParsedRequest::ResourcesRead(p) => {
                if p.uri@.len() == 0 {
                    r matches ServerOutcome::Failed(McpError::InvalidParams(_))
                } else if server.has_resource(p.uri@) {
                    r matches ServerOutcome::ReadResource(q) && q == p
                } else {
                    r matches ServerOutcome::Failed(McpError::ResourceNotFound(_))
                }
            },
            ParsedRequest::ResourcesSubscribe(_) => r matches ServerOutcome::Subscribed(a)
                && a.subscribed,
            ParsedRequest::ResourcesUnsubscribe(_) => r matches ServerOutcome::Unsubscribed(a)
                && a.unsubscribed,
            ParsedRequest::PromptsList(_) => r matches ServerOutcome::PromptsList(res) && {
                &&& res.prompts@.len() == server.prompts@.len()
                &&& forall|i: int|
                    0 <= i < res.prompts@.len() ==> prompt_like(
                        #[trigger] res.prompts@[i],
                        server.prompts@[i],
                    )
                &&& res.next_cursor is None
            },
            ParsedRequest::PromptsGet(p) => {
                if p.name@.len() == 0 {
                    r matches ServerOutcome::Failed(McpError::InvalidParams(_))
                } else if server.has_prompt(p.name@) {
                    r matches ServerOutcome::GetPrompt(q) && q == p
                } else {
                    r matches ServerOutcome::Failed(McpError::PromptNotFound(_))
                }
            },
            ParsedRequest::LoggingSetLevel(_) => r matches ServerOutcome::LoggingSet(a)
                && a.applied,
        },
{
    match request {
        ParsedRequest::Initialize(p) => {
            match crate::validation::validate_initialize_params(&p) {
                Ok(_) => ServerOutcome::Initialize(
                    InitializeResult::new(
                        crate::LATEST_PROTOCOL_VERSION.to_owned(),
                        *server.capabilities(),
                        server.info().clone(),
                    ),
                ),
                Err(e) => ServerOutcome::Failed(e),
            }
        },
        ParsedRequest::Ping => ServerOutcome::Ping(PingResult { alive: true }),
        ParsedRequest::ToolsList(_) => ServerOutcome::ToolsList(
            ListToolsResult { tools: server.list_tools(), next_cursor: None },
        ),
        ParsedRequest::ToolsCall(p) => {
            match crate::validation::validate_call_tool_params(&p) {
                Ok(_) => {
                    match server.resolve_tool(p.name.as_str()) {
                        Ok(_) => ServerOutcome::InvokeTool(p),
                        Err(e) => ServerOutcome::Failed(e),
                    }
                },
                Err(e) => ServerOutcome::Failed(e),
            }
        },
        ParsedRequest::ResourcesList(_) => ServerOutcome::ResourcesList(
            ListResourcesResult { resources: server.list_resources(), next_cursor: None },
        ),
        ParsedRequest::ResourcesRead(p) => {
            match crate::validation::validate_read_resource_params(&p) {
                Ok(_) => {
                    match server.resolve_resource(p.uri.as_str()) {
                        Ok(_) => ServerOutcome::ReadResource(p),
                        Err(e) => ServerOutcome::Failed(e),
                    }
                },
                Err(e) => ServerOutcome::Failed(e),
            }
        },
        ParsedRequest::ResourcesSubscribe(_) => ServerOutcome::Subscribed(
            SubscribeResourceResult { subscribed: true },
        ),
        ParsedRequest::ResourcesUnsubscribe(_) => ServerOutcome::Unsubscribed(
            UnsubscribeResourceResult { unsubscribed: true },
        ),
        ParsedRequest::PromptsList(_) => ServerOutcome::PromptsList(
            ListPromptsResult { prompts: server.list_prompts(), next_cursor: None },
        ),
        ParsedRequest::PromptsGet(p) => {
            match crate::validation::validate_get_prompt_params(&p) {
                Ok(_) => {
                    match server.resolve_prompt(p.name.as_str()) {
                        Ok(_) => ServerOutcome::GetPrompt(p),
                        Err(e) => ServerOutcome::Failed(e),
                    }
                },
                Err(e) => ServerOutcome::Failed(e),
            }
        },
        ParsedRequest::LoggingSetLevel(_) => ServerOutcome::LoggingSet(
            SetLoggingLevelResult { applied: true },
        ),
        ParsedRequest::Unknown(m) => ServerOutcome::Failed(McpError::MethodNotFound(m)),
    }
}

/// Build the error response for a failed request: it echoes the request's
/// own id — error responses included — and carries the code that the error
/// kind deterministically maps to.
pub fn error_response(id: RequestId, error: &McpError) -> (r: JsonRpcError)
    ensures
        r.id == id,
        r.jsonrpc@ == crate::JSONRPC_VERSION@,
        r.error.code == spec_error_code(*error),
        r.error.message@ == crate::error::spec_error_message(*error),
{
    let code = error.error_code();
    let message = error.message();
    JsonRpcError::error(id, code, message, None)
}

/// The notification emitted when the tool catalog changes.
pub fn tools_list_changed_notification() -> (r: JsonRpcNotification)
    ensures
        r.method@ == crate::methods::TOOLS_LIST_CHANGED@,
        r.jsonrpc@ == crate::JSONRPC_VERSION@,
{
    JsonRpcNotification::new(crate::methods::TOOLS_LIST_CHANGED.to_owned(), None)
}

/// The notification emitted when the resource catalog changes.
pub fn resources_list_changed_notification() -> (r: JsonRpcNotification)
    ensures
        r.method@ == crate::methods::RESOURCES_LIST_CHANGED@,
        r.jsonrpc@ == crate::JSONRPC_VERSION@,
{
    JsonRpcNotification::new(crate::methods::RESOURCES_LIST_CHANGED.to_owned(), None)
}

/// The notification emitted when the prompt catalog changes.
pub fn prompts_list_changed_notification() -> (r: JsonRpcNotification)
    ensures
        r.method@ == crate::methods::PROMPTS_LIST_CHANGED@,
        r.jsonrpc@ == crate::JSONRPC_VERSION@,
{
    JsonRpcNotification::new(crate::methods::PROMPTS_LIST_CHANGED.to_owned(), None)
}

} // verus!
