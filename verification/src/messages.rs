//! Typed parameter and result records for every method of the fixed
//! namespace, with their helper constructors.

use vstd::prelude::*;
use crate::types::{
    ClientCapabilities, Cursor, Implementation, LoggingLevel, PromptInfo, RequestId,
    ResourceContents, ResourceInfo, ResourceTemplate, SamplingMessage, ServerCapabilities,
    ToolInfo,
};

verus! {

// ============================================================================
// Request parameters
// ============================================================================

/// Parameters of the connection handshake.
#[derive(Debug, Clone)]
pub struct InitializeParams {
    /// Protocol revision the client speaks.
    pub protocol_version: String,
    /// Client capabilities.
    pub capabilities: ClientCapabilities,
    /// Client implementation info.
    pub client_info: Implementation,
}

impl InitializeParams {
    /// Handshake parameters for the given client.
    pub fn new(
        protocol_version: String,
        capabilities: ClientCapabilities,
        client_info: Implementation,
    ) -> (r: Self)
        ensures
            r.protocol_version == protocol_version,
            r.capabilities == capabilities,
            r.client_info == client_info,
    {
        InitializeParams { protocol_version, capabilities, client_info }
    }
}

/// Parameters of a tool invocation.
#[derive(Debug, Clone)]
pub struct CallToolParams {
    /// Name of the tool to invoke.
    pub name: String,
    /// Arguments, keyed by parameter name and carried opaquely.
    pub arguments: Option<Vec<(String, serde_json::Value)>>,
}

impl CallToolParams {
    /// Invocation of the named tool without arguments.
    pub fn new(name: String) -> (r: Self)
        ensures
            r.name == name,
            r.arguments is None,
    {
        CallToolParams { name, arguments: None }
    }

    /// Invocation of the named tool with the given arguments.
    pub fn new_with_arguments(name: String, arguments: Vec<(String, serde_json::Value)>) -> (r:
        Self)
        ensures
            r.name == name,
            r.arguments == Some(arguments),
    {
        CallToolParams { name, arguments: Some(arguments) }
    }

    /// Replace the arguments.
    pub fn with_arguments(self, arguments: Vec<(String, serde_json::Value)>) -> (r: Self)
        ensures
            r.name == self.name,
            r.arguments == Some(arguments),
    {
        CallToolParams { arguments: Some(arguments), ..self }
    }
}

/// Parameters of a resource read.
#[derive(Debug, Clone)]
pub struct ReadResourceParams {
    /// URI of the resource to read.
    pub uri: String,
}

impl ReadResourceParams {
    /// Read of the named resource.
    pub fn new(uri: String) -> (r: Self)
        ensures
            r.uri == uri,
    {
        ReadResourceParams { uri }
    }
}

/// Parameters of a resource subscription.
#[derive(Debug, Clone)]
pub struct SubscribeResourceParams {
    /// URI of the resource to watch.
    pub uri: String,
}

/// Parameters of a resource unsubscription.
#[derive(Debug, Clone)]
pub struct UnsubscribeResourceParams {
    /// URI of the resource to stop watching.
    pub uri: String,
}

/// Parameters of a prompt retrieval.
#[derive(Debug, Clone)]
pub struct GetPromptParams {
    /// Name of the prompt.
    pub name: String,
    /// Argument values, keyed by argument name.
    pub arguments: Option<Vec<(String, String)>>,
}

impl GetPromptParams {
    /// Retrieval of the named prompt without arguments.
    pub fn new(name: String) -> (r: Self)
        ensures
            r.name == name,
            r.arguments is None,
    {
        GetPromptParams { name, arguments: None }
    }

    /// Retrieval of the named prompt with the given arguments.
    pub fn new_with_arguments(name: String, arguments: Vec<(String, String)>) -> (r: Self)
        ensures
            r.name == name,
            r.arguments == Some(arguments),
    {
        GetPromptParams { name, arguments: Some(arguments) }
    }

    /// Replace the arguments.
    pub fn with_arguments(self, arguments: Vec<(String, String)>) -> (r: Self)
        ensures
            r.name == self.name,
            r.arguments == Some(arguments),
    {
        GetPromptParams { arguments: Some(arguments), ..self }
    }
}

/// Parameters of a tool catalog listing.
#[derive(Debug, Clone)]
pub struct ListToolsParams {
    /// Pagination cursor.
    pub cursor: Option<Cursor>,
}

impl Default for ListToolsParams {
    /// Listing from the first page.
    fn default() -> (r: Self)
        ensures
            r.cursor is None,
    {
        ListToolsParams { cursor: None }
    }
}

/// Parameters of a resource catalog listing.
#[derive(Debug, Clone)]
pub struct ListResourcesParams {
    /// Pagination cursor.
    pub cursor: Option<Cursor>,
}

impl Default for ListResourcesParams {
    /// Listing from the first page.
    fn default() -> (r: Self)
        ensures
            r.cursor is None,
    {
        ListResourcesParams { cursor: None }
    }
}

/// Parameters of a prompt catalog listing.
#[derive(Debug, Clone)]
pub struct ListPromptsParams {
    /// Pagination cursor.
    pub cursor: Option<Cursor>,
}

impl Default for ListPromptsParams {
    /// Listing from the first page.
    fn default() -> (r: Self)
        ensures
            r.cursor is None,
    {
        ListPromptsParams { cursor: None }
    }
}

/// Parameters of a liveness probe; the probe carries nothing.
#[derive(Debug, Clone)]
pub struct PingParams {
    /// Whether the probe was built explicitly; carries no wire data.
    pub probe: bool,
}

impl Default for PingParams {
    /// An ordinary probe.
    fn default() -> (r: Self)
        ensures
            r.probe,
    {
        PingParams { probe: true }
    }
}

/// Parameters of an argument autocompletion request.
#[derive(Debug, Clone)]
pub struct CompleteParams {
    /// The item being completed.
    pub reference: CompletionReference,
    /// The argument being completed.
    pub argument: CompletionArgument,
}

/// What an autocompletion request refers to.
#[derive(Debug, Clone, PartialEq, Eq)]
pub enum CompletionReference {
    /// A prompt, by name.
    Prompt {
        /// Name of the prompt.
        name: String,
    },
    /// A resource, by URI.
    Resource {
        /// URI of the resource.
        uri: String,
    },
    /// A tool, by name.
    Tool {
        /// Name of the tool.
        name: String,
    },
}

/// The argument an autocompletion request is about.
#[derive(Debug, Clone, PartialEq, Eq)]
pub struct CompletionArgument {
    /// Name of the argument.
    pub name: String,
    /// Partial value typed so far.
    pub value: String,
}

/// Parameters of a sampling request.
#[derive(Debug, Clone)]
pub struct CreateMessageParams {
    /// Conversation so far.
    pub messages: Vec<SamplingMessage>,
    /// Token budget.
    pub max_tokens: u32,
    /// Optional system prompt.
    pub system_prompt: Option<String>,
    /// Which servers' context to include.
    pub include_context: Option<String>,
    /// Stop sequences.
    pub stop_sequences: Option<Vec<String>>,
}

impl CreateMessageParams {
    /// A sampling request with the given conversation and token budget and
    /// nothing else set.
    pub fn new(messages: Vec<SamplingMessage>, max_tokens: u32) -> (r: Self)
        ensures
            r.messages == messages,
            r.max_tokens == max_tokens,
            r.system_prompt is None,
            r.include_context is None,
            r.stop_sequences is None,
    {
        CreateMessageParams {
            messages,
            max_tokens,
            system_prompt: None,
            include_context: None,
            stop_sequences: None,
        }
    }

    /// Set the system prompt.
    pub fn with_system_prompt(self, prompt: &str) -> (r: Self)
        ensures
            r.messages == self.messages,
            r.max_tokens == self.max_tokens,
            r.system_prompt matches Some(p) && p@ == prompt@,
            r.include_context == self.include_context,
            r.stop_sequences == self.stop_sequences,
    {
        CreateMessageParams { system_prompt: Some(prompt.to_owned()), ..self }
    }
}

/// Parameters of a log-level change.
#[derive(Debug, Clone)]
pub struct SetLoggingLevelParams {
    /// Level to switch to.
    pub level: LoggingLevel,
}

// ============================================================================
// Results
// ============================================================================

/// Result of the connection handshake.
#[derive(Debug, Clone)]
pub struct InitializeResult {
    /// Protocol revision the server speaks.
    pub protocol_version: String,
    /// Server capabilities.
    pub capabilities: ServerCapabilities,
    /// Server implementation info.
    pub server_info: Implementation,
    /// Optional usage instructions.
    pub instructions: Option<String>,
}

impl InitializeResult {
    /// Handshake result for the given server.
    pub fn new(
        protocol_version: String,
        capabilities: ServerCapabilities,
        server_info: Implementation,
    ) -> (r: Self)
        ensures
            r.protocol_version == protocol_version,
            r.capabilities == capabilities,
            r.server_info == server_info,
            r.instructions is None,
    {
        InitializeResult { protocol_version, capabilities, server_info, instructions: None }
    }
}

/// Result of a tool catalog listing.
#[derive(Debug, Clone)]
pub struct ListToolsResult {
    /// Tools of this page.
    pub tools: Vec<ToolInfo>,
    /// Cursor of the next page, if any.
    pub next_cursor: Option<Cursor>,
}

/// Result of a resource catalog listing.
#[derive(Debug, Clone)]
pub struct ListResourcesResult {
    /// Resources of this page.
    pub resources: Vec<ResourceInfo>,
    /// Cursor of the next page, if any.
    pub next_cursor: Option<Cursor>,
}

/// Result of a resource template listing.
#[derive(Debug, Clone)]
pub struct ListResourceTemplatesResult {
    /// Templates of this page.
    pub resource_templates: Vec<ResourceTemplate>,
    /// Cursor of the next page, if any.
    pub next_cursor: Option<Cursor>,
}

/// Result of a resource read.
#[derive(Debug, Clone)]
pub struct ReadResourceResult {
    /// Contents of the resource.
    pub contents: Vec<ResourceContents>,
}

/// Result of a prompt catalog listing.
#[derive(Debug, Clone)]
pub struct ListPromptsResult {
    /// Prompts of this page.
    pub prompts: Vec<PromptInfo>,
    /// Cursor of the next page, if any.
    pub next_cursor: Option<Cursor>,
}

/// Completion values offered for an argument.
#[derive(Debug, Clone, PartialEq, Eq)]
pub struct Completion {
    /// Offered values.
    pub values: Vec<String>,
    /// Total number of completions available.
    pub total: Option<u32>,
    /// Whether more completions exist beyond these.
    pub has_more: Option<bool>,
}

/// Completion values under the name used by the flat message catalog.
pub type CompletionData = Completion;

/// Result of an autocompletion request.
#[derive(Debug, Clone, PartialEq, Eq)]
pub struct CompleteResult {
    /// The offered completions.
    pub completion: Completion,
}

/// One filesystem root offered by a client.
#[derive(Debug, Clone, PartialEq, Eq)]
pub struct Root {
    /// URI of the root.
    pub uri: String,
    /// Optional human-readable name.
    pub name: Option<String>,
}

impl Root {
    /// A root without a name.
    pub fn new(uri: String) -> (r: Self)
        ensures
            r.uri == uri,
            r.name is None,
    {
        Root { uri, name: None }
    }

    /// Attach a human-readable name.
    pub fn with_name(self, name: String) -> (r: Self)
        ensures
            r.uri == self.uri,
            r.name == Some(name),
    {
        Root { name: Some(name), ..self }
    }
}

/// Result of a roots listing.
#[derive(Debug, Clone, PartialEq, Eq)]
pub struct ListRootsResult {
    /// The offered roots.
    pub roots: Vec<Root>,
}

/// Result of a liveness probe; carries nothing.
#[derive(Debug, Clone)]
pub struct PingResult {
    /// Whether the probe was answered; carries no wire data.
    pub alive: bool,
}

/// Result of a log-level change; carries nothing.
#[derive(Debug, Clone)]
pub struct SetLoggingLevelResult {
    /// Whether the change was applied.
    pub applied: bool,
}

/// Result of a resource subscription; carries nothing.
#[derive(Debug, Clone)]
pub struct SubscribeResourceResult {
    /// Whether the subscription was recorded.
    pub subscribed: bool,
}

/// Result of a resource unsubscription; carries nothing.
#[derive(Debug, Clone)]
pub struct UnsubscribeResourceResult {
    /// Whether the subscription was dropped.
    pub unsubscribed: bool,
}

// ============================================================================
// Notification parameters
// ============================================================================

/// Parameters of a resource update notification.
#[derive(Debug, Clone, PartialEq, Eq)]
pub struct ResourceUpdatedParams {
    /// URI of the resource that changed.
    pub uri: String,
}

/// Parameters of a cancellation notification.
#[derive(Debug, Clone)]
pub struct CancelledParams {
    /// Id of the request being cancelled.
    pub request_id: RequestId,
    /// Optional reason.
    pub reason: Option<String>,
}

/// Parameters of a log message notification.
#[derive(Debug, Clone)]
pub struct LoggingMessageParams {
    /// Severity of the message.
    pub level: LoggingLevel,
    /// Name of the logger, if any.
    pub logger: Option<String>,
    /// The logged data, carried opaquely.
    pub data: serde_json::Value,
}

/// Parameters of a tool list change notification; carries nothing.
#[derive(Debug, Clone)]
pub struct ToolListChangedParams {
    /// Whether the change was observed; carries no wire data.
    pub changed: bool,
}

/// Parameters of a resource list change notification; carries nothing.
#[derive(Debug, Clone)]
pub struct ResourceListChangedParams {
    /// Whether the change was observed; carries no wire data.
    pub changed: bool,
}

/// Parameters of a prompt list change notification; carries nothing.
#[derive(Debug, Clone)]
pub struct PromptListChangedParams {
    /// Whether the change was observed; carries no wire data.
    pub changed: bool,
}

} // verus!
