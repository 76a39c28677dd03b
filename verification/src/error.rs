//! Error taxonomy shared by the client and server runtimes.
//!
//! Every fallible public operation returns one of these variants; the mapping
//! from a variant to a wire error code is total and deterministic.

use vstd::prelude::*;

verus! {

/// The errors the runtime can report.
#[derive(Debug, Clone)]
pub enum McpError {
    /// An operation that needs a live connection was attempted without one.
    NotConnected,
    /// The connect handshake did not finish within its deadline.
    ConnectionTimeout,
    /// The connect handshake finished but was rejected.
    HandshakeFailed(String),
    /// The configured ceiling of reconnect attempts has been reached.
    ReconnectExhausted,
    /// The transport reported an I/O failure.
    TransportIo(String),
    /// A message could not be encoded or decoded.
    Serialization(String),
    /// A malformed envelope, a duplicate request id, or a response id that
    /// does not match the request it was correlated with.
    ProtocolViolation(String),
    /// The request named a method outside the fixed method namespace.
    MethodNotFound(String),
    /// The request's parameters were rejected by validation.
    InvalidParams(String),
    /// The request named a tool that is not registered or is disabled.
    ToolNotFound(String),
    /// The request named a resource that is not registered.
    ResourceNotFound(String),
    /// The request named a prompt that is not registered.
    PromptNotFound(String),
    /// Any other internal failure.
    Internal(String),
}

/// Result alias used by every fallible public operation.
pub type McpResult<T> = Result<T, McpError>;

/// Wire code for an invalid request envelope.
pub const INVALID_REQUEST: i32 = -32600;

/// Wire code for an unknown method.
pub const METHOD_NOT_FOUND: i32 = -32601;

/// Wire code for rejected parameters.
pub const INVALID_PARAMS: i32 = -32602;

/// Wire code for an internal failure.
pub const INTERNAL_ERROR: i32 = -32603;

/// Wire code for a missing or disabled tool.
pub const TOOL_NOT_FOUND: i32 = -32000;

/// Wire code for a missing resource.
pub const RESOURCE_NOT_FOUND: i32 = -32001;

/// Wire code for a missing prompt.
pub const PROMPT_NOT_FOUND: i32 = -32002;

/// The code that `error_code` assigns to each error variant.
pub open spec fn spec_error_code(e: McpError) -> i32 {
    match e {
        McpError::MethodNotFound(_) => METHOD_NOT_FOUND,
        McpError::InvalidParams(_) => INVALID_PARAMS,
        McpError::ProtocolViolation(_) => INVALID_REQUEST,
        McpError::ToolNotFound(_) => TOOL_NOT_FOUND,
        McpError::ResourceNotFound(_) => RESOURCE_NOT_FOUND,
        McpError::PromptNotFound(_) => PROMPT_NOT_FOUND,
        _ => INTERNAL_ERROR,
    }
}

/// The description that `message` gives to each error variant.
pub open spec fn spec_error_message(e: McpError) -> Seq<char> {
    match e {
        McpError::NotConnected => "not connected"@,
        McpError::ConnectionTimeout => "connection timeout"@,
        McpError::HandshakeFailed(_) => "handshake failed"@,
        McpError::ReconnectExhausted => "max reconnection attempts exceeded"@,
        McpError::TransportIo(_) => "transport error"@,
        McpError::Serialization(_) => "serialization error"@,
        McpError::ProtocolViolation(_) => "protocol violation"@,
        McpError::MethodNotFound(_) => "method not found"@,
        McpError::InvalidParams(_) => "invalid params"@,
        McpError::ToolNotFound(_) => "tool not found"@,
        McpError::ResourceNotFound(_) => "resource not found"@,
        McpError::PromptNotFound(_) => "prompt not found"@,
        McpError::Internal(_) => "internal error"@,
    }
}

impl McpError {
    /// A short fixed description of this error, for error responses and
    /// logs.
    pub fn message(&self) -> (r: String)
        ensures
            r@ == spec_error_message(*self),
    {
        match self {
            McpError::NotConnected => "not connected".to_owned(),
            McpError::ConnectionTimeout => "connection timeout".to_owned(),
            McpError::HandshakeFailed(_) => "handshake failed".to_owned(),
            McpError::ReconnectExhausted => "max reconnection attempts exceeded".to_owned(),
            McpError::TransportIo(_) => "transport error".to_owned(),
            McpError::Serialization(_) => "serialization error".to_owned(),
            McpError::ProtocolViolation(_) => "protocol violation".to_owned(),
            McpError::MethodNotFound(_) => "method not found".to_owned(),
            McpError::InvalidParams(_) => "invalid params".to_owned(),
            McpError::ToolNotFound(_) => "tool not found".to_owned(),
            McpError::ResourceNotFound(_) => "resource not found".to_owned(),
            McpError::PromptNotFound(_) => "prompt not found".to_owned(),
            McpError::Internal(_) => "internal error".to_owned(),
        }
    }

    /// Map this error to its wire code; the same variant always yields the
    /// same code.
    pub fn error_code(&self) -> (code: i32)
        ensures
            code == spec_error_code(*self),
    {
        match self {
            McpError::MethodNotFound(_) => METHOD_NOT_FOUND,
            McpError::InvalidParams(_) => INVALID_PARAMS,
            McpError::ProtocolViolation(_) => INVALID_REQUEST,
            McpError::ToolNotFound(_) => TOOL_NOT_FOUND,
            McpError::ResourceNotFound(_) => RESOURCE_NOT_FOUND,
            McpError::PromptNotFound(_) => PROMPT_NOT_FOUND,
            _ => INTERNAL_ERROR,
        }
    }
}

} // verus!
