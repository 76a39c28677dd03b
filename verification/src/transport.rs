//! Transport support: connection state, transport configuration, endpoint
//! validation, and the envelope checks every transport performs.
//!
//! The transports themselves move bytes outside the library; what they
//! decide — whether an endpoint is acceptable, which id an outgoing request
//! carries, whether an inbound response may be accepted — is here.

use vstd::prelude::*;
use crate::error::{McpError, McpResult};
use crate::types::{JsonRpcRequest, RequestId};

verus! {

/// Connection state of one client transport.
#[derive(Debug, PartialEq)]
pub enum ConnectionState {
    /// Not connected.
    Disconnected,
    /// A connection attempt is in progress.
    Connecting,
    /// Connected.
    Connected,
    /// An orderly shutdown is in progress.
    Closing,
    /// The connection failed; the reason is kept.
    Error(String),
}

impl Clone for ConnectionState {
    /// A clone denotes the same state.
    fn clone(&self) -> (r: Self)
        ensures
            r == *self,
    {
        match self {
            ConnectionState::Disconnected => ConnectionState::Disconnected,
            ConnectionState::Connecting => ConnectionState::Connecting,
            ConnectionState::Connected => ConnectionState::Connected,
            ConnectionState::Closing => ConnectionState::Closing,
            ConnectionState::Error(reason) => ConnectionState::Error(reason.clone()),
        }
    }
}

/// Transport policy knobs. Deadlines are in milliseconds; a missing value
/// leaves the transport's own default in force.
#[derive(Debug, Clone, PartialEq, Eq)]
pub struct TransportConfig {
    /// Deadline for establishing a connection.
    pub connect_timeout_ms: Option<u64>,
    /// Deadline for one read.
    pub read_timeout_ms: Option<u64>,
    /// Deadline for one write.
    pub write_timeout_ms: Option<u64>,
    /// Ceiling on one message's size in bytes.
    pub max_message_size: Option<usize>,
    /// Whether compression is requested.
    pub compression: bool,
    /// Extra headers sent with every request, as name/value pairs.
    pub headers: Vec<(String, String)>,
}

impl Default for TransportConfig {
    /// No overrides: every deadline and limit is the transport's own.
    fn default() -> (r: Self)
        ensures
            r.connect_timeout_ms is None,
            r.read_timeout_ms is None,
            r.write_timeout_ms is None,
            r.max_message_size is None,
            !r.compression,
            r.headers@.len() == 0,
    {
        TransportConfig {
            connect_timeout_ms: None,
            read_timeout_ms: None,
            write_timeout_ms: None,
            max_message_size: None,
            compression: false,
            headers: Vec::new(),
        }
    }
}

/// Whether a string parses as a URL; the outcome depends on its characters
/// alone.
pub uninterp spec fn url_ok(s: Seq<char>) -> bool;

/// Relies on url::Url::parse: parsing either yields a URL or a parse error,
/// and depends only on the input string.
#[verifier::external_body]
fn parse_url_ok(s: &str) -> (r: bool)
    ensures
        r == url_ok(s@),
{
    url::Url::parse(s).is_ok()
}

/// Accept exactly the endpoint strings that parse as URLs; anything else is
/// a transport error naming no usable endpoint.
pub fn validate_endpoint_url(s: &str) -> (r: McpResult<()>)
    ensures
        r is Ok <==> url_ok(s@),
        r is Err ==> r matches Err(McpError::TransportIo(_)),
{
    if parse_url_ok(s) {
        Ok(())
    } else {
        Err(McpError::TransportIo("invalid endpoint URL".to_owned()))
    }
}

/// Payload of one line of an event stream: the text after the data marker,
/// for exactly the lines that start with it.
pub fn sse_data_payload(line: &str) -> (r: Option<String>)
    ensures
        match r {
            Some(p) => line@.len() >= 6 && line@.subrange(0, 6) == "data: "@ && p@
                == line@.subrange(6, line@.len() as int),
            None => !(line@.len() >= 6 && line@.subrange(0, 6) == "data: "@),
        },
{
    let n = line.unicode_len();
    if n < 6 {
        return None;
    }
    let prefix = line.substring_char(0, 6);
    if crate::validation::str_eq(prefix, "data: ") {
        let payload = line.substring_char(6, n);
        Some(payload.to_owned())
    } else {
        None
    }
}

/// Give an outgoing request a usable correlation id: a request sent with a
/// null id gets the transport's fallback id, any other id is kept as it is.
pub fn ensure_request_id(request: JsonRpcRequest, fallback: u64) -> (r: JsonRpcRequest)
    ensures
        match request.id {
            RequestId::Null => r.id == RequestId::Num(fallback),
            _ => r.id == request.id,
        },
        r.method == request.method,
        r.jsonrpc == request.jsonrpc,
        r.params == request.params,
{
    match request.id {
        RequestId::Null => JsonRpcRequest { id: RequestId::Num(fallback), ..request },
        _ => request,
    }
}

} // verus!
