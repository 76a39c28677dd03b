//! Envelope and parameter validation.
//!
//! A malformed envelope is a protocol violation; rejected parameters are an
//! invalid-params error. Validation never panics and never tears a
//! connection down: callers turn these errors into error responses.

use vstd::prelude::*;
use crate::error::{McpError, McpResult};
use crate::messages::{CallToolParams, CreateMessageParams, GetPromptParams, InitializeParams,
    ReadResourceParams};
use crate::types::{JsonRpcNotification, JsonRpcRequest, JsonRpcResponse, PromptInfo,
    ResourceInfo, ToolInfo};

verus! {

/// Whether two string slices hold the same characters.
pub fn str_eq(a: &str, b: &str) -> (r: bool)
    ensures
        r == (a@ == b@),
{
    let x: String = a.to_owned();
    let y: String = b.to_owned();
    x == y
}

/// Character count of a string.
pub fn str_len(s: &String) -> (n: usize)
    ensures
        n == s@.len(),
{
    s.as_str().unicode_len()
}

/// A well-formed request envelope: the JSON-RPC version tag is "2.0" and the
/// method name is non-empty.
pub open spec fn spec_request_wf(r: JsonRpcRequest) -> bool {
    r.jsonrpc@ == crate::JSONRPC_VERSION@ && r.method@.len() > 0
}

/// A well-formed response envelope: the JSON-RPC version tag is "2.0".
pub open spec fn spec_response_wf(r: JsonRpcResponse) -> bool {
    r.jsonrpc@ == crate::JSONRPC_VERSION@
}

/// A well-formed notification envelope: the JSON-RPC version tag is "2.0"
/// and the method name is non-empty.
pub open spec fn spec_notification_wf(n: JsonRpcNotification) -> bool {
    n.jsonrpc@ == crate::JSONRPC_VERSION@ && n.method@.len() > 0
}

/// Accept exactly the well-formed request envelopes.
pub fn validate_jsonrpc_request(request: &JsonRpcRequest) -> (r: McpResult<()>)
    ensures
        r is Ok <==> spec_request_wf(*request),
        r is Err ==> r matches Err(McpError::ProtocolViolation(_)),
{
    if !str_eq(request.jsonrpc.as_str(), crate::JSONRPC_VERSION) {
        return Err(McpError::ProtocolViolation("unsupported JSON-RPC version".to_owned()));
    }
    if str_len(&request.method) == 0 {
        return Err(McpError::ProtocolViolation("empty method name".to_owned()));
    }
    Ok(())
}

/// Accept exactly the well-formed response envelopes.
pub fn validate_jsonrpc_response(response: &JsonRpcResponse) -> (r: McpResult<()>)
    ensures
        r is Ok <==> spec_response_wf(*response),
        r is Err ==> r matches Err(McpError::ProtocolViolation(_)),
{
    if !str_eq(response.jsonrpc.as_str(), crate::JSONRPC_VERSION) {
        return Err(McpError::ProtocolViolation("unsupported JSON-RPC version".to_owned()));
    }
    Ok(())
}

/// Accept exactly the well-formed notification envelopes.
pub fn validate_jsonrpc_notification(notification: &JsonRpcNotification) -> (r: McpResult<()>)
    ensures
        r is Ok <==> spec_notification_wf(*notification),
        r is Err ==> r matches Err(McpError::ProtocolViolation(_)),
{
    if !str_eq(notification.jsonrpc.as_str(), crate::JSONRPC_VERSION) {
        return Err(McpError::ProtocolViolation("unsupported JSON-RPC version".to_owned()));
    }
    if str_len(&notification.method) == 0 {
        return Err(McpError::ProtocolViolation("empty method name".to_owned()));
    }
    Ok(())
}

/// A tool invocation must name its tool.
pub fn validate_call_tool_params(params: &CallToolParams) -> (r: McpResult<()>)
    ensures
        r is Ok <==> params.name@.len() > 0,
        r is Err ==> r matches Err(McpError::InvalidParams(_)),
{
    if str_len(&params.name) == 0 {
        return Err(McpError::InvalidParams("tool name must not be empty".to_owned()));
    }
    Ok(())
}

/// A resource read must name its resource.
pub fn validate_read_resource_params(params: &ReadResourceParams) -> (r: McpResult<()>)
    ensures
        r is Ok <==> params.uri@.len() > 0,
        r is Err ==> r matches Err(McpError::InvalidParams(_)),
{
    if str_len(&params.uri) == 0 {
        return Err(McpError::InvalidParams("resource uri must not be empty".to_owned()));
    }
    Ok(())
}

/// A prompt retrieval must name its prompt.
pub fn validate_get_prompt_params(params: &GetPromptParams) -> (r: McpResult<()>)
    ensures
        r is Ok <==> params.name@.len() > 0,
        r is Err ==> r matches Err(McpError::InvalidParams(_)),
{
    if str_len(&params.name) == 0 {
        return Err(McpError::InvalidParams("prompt name must not be empty".to_owned()));
    }
    Ok(())
}

/// A handshake must name the protocol revision the peer speaks.
pub fn validate_initialize_params(params: &InitializeParams) -> (r: McpResult<()>)
    ensures
        r is Ok <==> params.protocol_version@.len() > 0,
        r is Err ==> r matches Err(McpError::InvalidParams(_)),
{
    if str_len(&params.protocol_version) == 0 {
        return Err(McpError::InvalidParams("protocol version must not be empty".to_owned()));
    }
    Ok(())
}

/// A sampling request must carry at least one message and a positive token
/// budget.
pub fn validate_create_message_params(params: &CreateMessageParams) -> (r: McpResult<()>)
    ensures
        r is Ok <==> params.messages@.len() > 0 && params.max_tokens > 0,
        r is Err ==> r matches Err(McpError::InvalidParams(_)),
{
    if params.messages.len() == 0 {
        return Err(McpError::InvalidParams("messages must not be empty".to_owned()));
    }
    if params.max_tokens == 0 {
        return Err(McpError::InvalidParams("max_tokens must be positive".to_owned()));
    }
    Ok(())
}

/// A tool catalog entry must carry a name.
pub fn validate_tool_info(info: &ToolInfo) -> (r: McpResult<()>)
    ensures
        r is Ok <==> info.name@.len() > 0,
        r is Err ==> r matches Err(McpError::InvalidParams(_)),
{
    if str_len(&info.name) == 0 {
        return Err(McpError::InvalidParams("tool name must not be empty".to_owned()));
    }
    Ok(())
}

/// A resource catalog entry must carry a URI.
pub fn validate_resource_info(info: &ResourceInfo) -> (r: McpResult<()>)
    ensures
        r is Ok <==> info.uri@.len() > 0,
        r is Err ==> r matches Err(McpError::InvalidParams(_)),
{
    if str_len(&info.uri) == 0 {
        return Err(McpError::InvalidParams("resource uri must not be empty".to_owned()));
    }
    Ok(())
}

/// A prompt catalog entry must carry a name.
pub fn validate_prompt_info(info: &PromptInfo) -> (r: McpResult<()>)
    ensures
        r is Ok <==> info.name@.len() > 0,
        r is Err ==> r matches Err(McpError::InvalidParams(_)),
{
    if str_len(&info.name) == 0 {
        return Err(McpError::InvalidParams("prompt name must not be empty".to_owned()));
    }
    Ok(())
}

} // verus!
