//! Client core: connection bookkeeping, request envelope construction and
//! response acceptance.
//!
//! The transport that actually moves bytes lives outside the library; it
//! hands envelopes in and out as plain values. The core decides whether a
//! request may be issued, stamps each request with a fresh id, and accepts a
//! response only when its id matches the request it is correlated with.

use vstd::prelude::*;
use crate::error::{McpError, McpResult};
use crate::messages::InitializeParams;
use crate::types::{
    spec_id_eq, ClientCapabilities, ClientInfo, JsonRpcRequest, RequestId, ServerCapabilities,
    ServerInfo,
};
use crate::types::JsonRpcResponse;

verus! {

/// Client policy knobs.
#[derive(Debug, Clone, PartialEq, Eq)]
pub struct ClientConfig {
    /// Deadline for one request, in milliseconds.
    pub request_timeout_ms: u64,
    /// Ceiling on retry attempts for one operation.
    pub max_retries: u32,
    /// Delay between retries, in milliseconds.
    pub retry_delay_ms: u64,
    /// Whether outgoing requests are validated before sending.
    pub validate_requests: bool,
    /// Whether incoming responses are validated before acceptance.
    pub validate_responses: bool,
}

impl Default for ClientConfig {
    /// The stock policy: thirty second deadline, three retries one second
    /// apart, validation on.
    fn default() -> (r: Self)
        ensures
            r.request_timeout_ms == 30000,
            r.max_retries == 3,
            r.retry_delay_ms == 1000,
            r.validate_requests,
            r.validate_responses,
    {
        ClientConfig {
            request_timeout_ms: 30000,
            max_retries: 3,
            retry_delay_ms: 1000,
            validate_requests: true,
            validate_responses: true,
        }
    }
}

/// Connection policy knobs.
#[derive(Debug, Clone, PartialEq, Eq)]
pub struct ConnectionConfig {
    /// Deadline for establishing a connection, in milliseconds.
    pub timeout_ms: u64,
    /// Whether keep-alive probing is requested.
    pub keep_alive: bool,
    /// Whether compression is requested.
    pub compression: bool,
}

impl Default for ConnectionConfig {
    /// The stock policy: thirty second deadline, keep-alive on, no
    /// compression.
    fn default() -> (r: Self)
        ensures
            r.timeout_ms == 30000,
            r.keep_alive,
            !r.compression,
    {
        ConnectionConfig { timeout_ms: 30000, keep_alive: true, compression: false }
    }
}

/// Retry policy knobs; the delay grows by a whole-number factor with each
/// attempt.
#[derive(Debug, Clone, PartialEq, Eq)]
pub struct RetryConfig {
    /// Ceiling on attempts; no ceiling when absent.
    pub max_attempts: Option<u32>,
    /// Delay before the first retry, in milliseconds.
    pub initial_delay_ms: u64,
    /// Ceiling on any retry delay, in milliseconds.
    pub max_delay_ms: u64,
    /// Factor the delay grows by with each attempt.
    pub backoff_multiplier: u32,
}

impl Default for RetryConfig {
    /// The stock policy: three attempts, starting at one second and
    /// doubling up to thirty seconds.
    fn default() -> (r: Self)
        ensures
            r.max_attempts == Some(3u32),
            r.initial_delay_ms == 1000,
            r.max_delay_ms == 30000,
            r.backoff_multiplier == 2,
    {
        RetryConfig {
            max_attempts: Some(3),
            initial_delay_ms: 1000,
            max_delay_ms: 30000,
            backoff_multiplier: 2,
        }
    }
}

/// The client core: identity, capabilities, connection state and the
/// request id counter.
#[derive(Debug)]
pub struct McpClient {
    /// This client's identity.
    pub info: ClientInfo,
    /// Capabilities this client advertises.
    pub capabilities: ClientCapabilities,
    /// Policy knobs.
    pub config: ClientConfig,
    /// Capabilities the server advertised; present after the handshake.
    pub server_capabilities: Option<ServerCapabilities>,
    /// The server's identity; present after the handshake.
    pub server_info: Option<ServerInfo>,
    /// Ids handed out so far.
    pub request_counter: u64,
    /// Whether the handshake finished and no disconnect followed.
    pub connected: bool,
}

impl McpClient {
    /// A disconnected client with the stock policy and no advertised
    /// capabilities.
    pub fn new(name: String, version: String) -> (r: Self)
        ensures
            r.info.name == name,
            r.info.version == version,
            r.capabilities.sampling is None,
            r.capabilities.roots is None,
            !r.connected,
            r.request_counter == 0,
            r.server_capabilities is None,
            r.server_info is None,
    {
        McpClient {
            info: ClientInfo { name, version },
            capabilities: ClientCapabilities::default(),
            config: ClientConfig::default(),
            server_capabilities: None,
            server_info: None,
            request_counter: 0,
            connected: false,
        }
    }

    /// A disconnected client with the given policy.
    pub fn with_config(name: String, version: String, config: ClientConfig) -> (r: Self)
        ensures
            r.info.name == name,
            r.info.version == version,
            r.config == config,
            !r.connected,
            r.request_counter == 0,
            r.server_capabilities is None,
            r.server_info is None,
    {
        McpClient {
            info: ClientInfo { name, version },
            capabilities: ClientCapabilities::default(),
            config,
            server_capabilities: None,
            server_info: None,
            request_counter: 0,
            connected: false,
        }
    }

    /// Replace the advertised capabilities.
    pub fn set_capabilities(&mut self, capabilities: ClientCapabilities)
        ensures
            final(self).capabilities == capabilities,
            final(self).info == old(self).info,
            final(self).config == old(self).config,
            final(self).connected == old(self).connected,
            final(self).request_counter == old(self).request_counter,
            final(self).server_capabilities == old(self).server_capabilities,
            final(self).server_info == old(self).server_info,
    {
        self.capabilities = capabilities;
    }

    /// This client's identity.
    pub fn info(&self) -> (r: &ClientInfo)
        ensures
            r == self.info,
    {
        &self.info
    }

    /// The capabilities this client advertises.
    pub fn capabilities(&self) -> (r: &ClientCapabilities)
        ensures
            r == self.capabilities,
    {
        &self.capabilities
    }

    /// The client policy.
    pub fn config(&self) -> (r: &ClientConfig)
        ensures
            r == self.config,
    {
        &self.config
    }

    /// The capabilities the server advertised, if connected.
    pub fn server_capabilities(&self) -> (r: &Option<ServerCapabilities>)
        ensures
            r == self.server_capabilities,
    {
        &self.server_capabilities
    }

    /// The server's identity, if connected.
    pub fn server_info(&self) -> (r: &Option<ServerInfo>)
        ensures
            r == self.server_info,
    {
        &self.server_info
    }

    /// Whether the handshake finished and no disconnect followed.
    pub fn is_connected(&self) -> (r: bool)
        ensures
            r == self.connected,
    {
        self.connected
    }

    /// Requests may only be issued while connected; anything else fails
    /// fast with a not-connected error instead of blocking.
    pub fn ensure_connected(&self) -> (r: McpResult<()>)
        ensures
            r is Ok <==> self.connected,
            r is Err ==> r matches Err(McpError::NotConnected),
    {
        if self.connected {
            Ok(())
        } else {
            Err(McpError::NotConnected)
        }
    }

    /// Hand out the next request id. Ids count up from one and only wrap
    /// after the whole 64-bit range is spent, so two outstanding requests
    /// never share an id.
    pub fn next_request_id(&mut self) -> (id: u64)
        ensures
            final(self).request_counter == if old(self).request_counter < u64::MAX {
                old(self).request_counter + 1
            } else {
                1int
            },
            id == final(self).request_counter,
            final(self).info == old(self).info,
            final(self).capabilities == old(self).capabilities,
            final(self).config == old(self).config,
            final(self).connected == old(self).connected,
            final(self).server_capabilities == old(self).server_capabilities,
            final(self).server_info == old(self).server_info,
    {
        if self.request_counter < u64::MAX {
            self.request_counter = self.request_counter + 1;
        } else {
            self.request_counter = 1;
        }
        self.request_counter
    }

    /// Build the next request envelope: a fresh integer id, the given
    /// method, and the protocol's JSON-RPC version.
    pub fn next_request(&mut self, method: String, params: Option<serde_json::Value>) -> (r:
        JsonRpcRequest)
        ensures
            r.jsonrpc@ == crate::JSONRPC_VERSION@,
            r.method == method,
            r.params == params,
            r.id == RequestId::Num(final(self).request_counter),
            final(self).request_counter == if old(self).request_counter < u64::MAX {
                old(self).request_counter + 1
            } else {
                1int
            },
            final(self).connected == old(self).connected,
            final(self).info == old(self).info,
            final(self).capabilities == old(self).capabilities,
            final(self).config == old(self).config,
            final(self).server_capabilities == old(self).server_capabilities,
            final(self).server_info == old(self).server_info,
    {
        let id = self.next_request_id();
        JsonRpcRequest::new(RequestId::Num(id), method, params)
    }

    /// The handshake parameters this client sends: its identity, its
    /// capabilities, and the protocol revision it speaks.
    pub fn initialize_params(&self) -> (r: InitializeParams)
        ensures
            r.protocol_version@ == crate::LATEST_PROTOCOL_VERSION@,
            r.client_info == self.info,
            r.capabilities == self.capabilities,
    {
        InitializeParams::new(
            crate::LATEST_PROTOCOL_VERSION.to_owned(),
            self.capabilities.clone(),
            self.info.clone(),
        )
    }

    /// Accept a response for the request with the given id: the result
    /// payload is handed out exactly when the response carries a matching
    /// id and a result. An id mismatch is a protocol violation, never
    /// silently corrected.
    pub fn take_result(expected_id: &RequestId, response: JsonRpcResponse) -> (r: McpResult<
        serde_json::Value,
    >)
        ensures
            r is Ok <==> spec_id_eq(response.id, *expected_id) && response.result is Some,
            spec_id_eq(response.id, *expected_id) ==> match response.result {
                Some(v) => r == Ok::<serde_json::Value, McpError>(v),
                None => r is Err,
            },
            !spec_id_eq(response.id, *expected_id) ==> r matches Err(
                McpError::ProtocolViolation(_),
            ),
    {
        if !(response.id == *expected_id) {
            return Err(McpError::ProtocolViolation("response id does not match request id".to_owned()));
        }
        match response.result {
            Some(v) => Ok(v),
            None => Err(McpError::Serialization("missing result in response".to_owned())),
        }
    }

    /// Record a finished handshake: the server's identity and capabilities
    /// are stored and the client becomes connected.
    pub fn apply_init_result(
        &mut self,
        server_info: ServerInfo,
        server_capabilities: ServerCapabilities,
    )
        ensures
            final(self).connected,
            final(self).server_info == Some(server_info),
            final(self).server_capabilities == Some(server_capabilities),
            final(self).info == old(self).info,
            final(self).capabilities == old(self).capabilities,
            final(self).config == old(self).config,
            final(self).request_counter == old(self).request_counter,
    {
        self.server_info = Some(server_info);
        self.server_capabilities = Some(server_capabilities);
        self.connected = true;
    }

    /// Record a disconnect: the stored server identity and capabilities are
    /// cleared and the client is no longer connected.
    pub fn on_disconnect(&mut self)
        ensures
            !final(self).connected,
            final(self).server_info is None,
            final(self).server_capabilities is None,
            final(self).info == old(self).info,
            final(self).capabilities == old(self).capabilities,
            final(self).config == old(self).config,
            final(self).request_counter == old(self).request_counter,
    {
        self.server_info = None;
        self.server_capabilities = None;
        self.connected = false;
    }

    /// Whether a sampling request may be issued: the client must be
    /// connected and the server must have advertised the sampling
    /// capability.
    pub fn ensure_sampling_supported(&self) -> (r: McpResult<()>)
        ensures
            r is Ok <==> self.connected && (self.server_capabilities matches Some(c)
                && c.sampling is Some),
    {
        if !self.connected {
            return Err(McpError::NotConnected);
        }
        match &self.server_capabilities {
            Some(caps) => match &caps.sampling {
                Some(_) => Ok(()),
                None => Err(McpError::ProtocolViolation(
                    "server does not support sampling".to_owned(),
                )),
            },
            None => Err(McpError::NotConnected),
        }
    }
}

/// Builder for a client.
#[derive(Debug)]
pub struct McpClientBuilder {
    /// Name the built client will carry.
    pub name: String,
    /// Version the built client will carry.
    pub version: String,
    /// Capabilities the built client will advertise.
    pub capabilities: ClientCapabilities,
    /// Policy the built client will follow.
    pub config: ClientConfig,
}

impl McpClientBuilder {
    /// A builder for a client with the given identity and the stock policy.
    pub fn new(name: String, version: String) -> (r: Self)
        ensures
            r.name == name,
            r.version == version,
    {
        McpClientBuilder {
            name,
            version,
            capabilities: ClientCapabilities::default(),
            config: ClientConfig::default(),
        }
    }

    /// Replace the advertised capabilities.
    pub fn capabilities(self, capabilities: ClientCapabilities) -> (r: Self)
        ensures
            r.capabilities == capabilities,
            r.name == self.name,
            r.version == self.version,
            r.config == self.config,
    {
        McpClientBuilder { capabilities, ..self }
    }

    /// Replace the whole policy.
    pub fn config(self, config: ClientConfig) -> (r: Self)
        ensures
            r.config == config,
            r.name == self.name,
            r.version == self.version,
            r.capabilities == self.capabilities,
    {
        McpClientBuilder { config, ..self }
    }

    /// Set the request deadline.
    pub fn request_timeout(self, timeout_ms: u64) -> (r: Self)
        ensures
            r.config.request_timeout_ms == timeout_ms,
            r.config.max_retries == self.config.max_retries,
            r.config.retry_delay_ms == self.config.retry_delay_ms,
            r.config.validate_requests == self.config.validate_requests,
            r.config.validate_responses == self.config.validate_responses,
            r.name == self.name,
            r.version == self.version,
            r.capabilities == self.capabilities,
    {
        McpClientBuilder {
            config: ClientConfig { request_timeout_ms: timeout_ms, ..self.config },
            ..self
        }
    }

    /// Set the retry ceiling.
    pub fn max_retries(self, retries: u32) -> (r: Self)
        ensures
            r.config.max_retries == retries,
            r.config.request_timeout_ms == self.config.request_timeout_ms,
            r.config.retry_delay_ms == self.config.retry_delay_ms,
            r.config.validate_requests == self.config.validate_requests,
            r.config.validate_responses == self.config.validate_responses,
            r.name == self.name,
            r.version == self.version,
            r.capabilities == self.capabilities,
    {
        McpClientBuilder { config: ClientConfig { max_retries: retries, ..self.config }, ..self }
    }

    /// Switch request validation on or off.
    pub fn validate_requests(self, validate: bool) -> (r: Self)
        ensures
            r.config.validate_requests == validate,
            r.config.request_timeout_ms == self.config.request_timeout_ms,
            r.config.max_retries == self.config.max_retries,
            r.config.retry_delay_ms == self.config.retry_delay_ms,
            r.config.validate_responses == self.config.validate_responses,
            r.name == self.name,
            r.version == self.version,
            r.capabilities == self.capabilities,
    {
        McpClientBuilder {
            config: ClientConfig { validate_requests: validate, ..self.config },
            ..self
        }
    }

    /// Switch response validation on or off.
    pub fn validate_responses(self, validate: bool) -> (r: Self)
        ensures
            r.config.validate_responses == validate,
            r.config.request_timeout_ms == self.config.request_timeout_ms,
            r.config.max_retries == self.config.max_retries,
            r.config.retry_delay_ms == self.config.retry_delay_ms,
            r.config.validate_requests == self.config.validate_requests,
            r.name == self.name,
            r.version == self.version,
            r.capabilities == self.capabilities,
    {
        McpClientBuilder {
            config: ClientConfig { validate_responses: validate, ..self.config },
            ..self
        }
    }

    /// Build the client.
    pub fn build(self) -> (r: McpClient)
        ensures
            r.info.name == self.name,
            r.info.version == self.version,
            r.capabilities == self.capabilities,
            r.config == self.config,
            !r.connected,
            r.request_counter == 0,
    {
        let mut client = McpClient::with_config(self.name, self.version, self.config);
        client.set_capabilities(self.capabilities);
        client
    }
}

/// Builder under the name older callers use.
pub type ClientBuilder = McpClientBuilder;

} // verus!
