//! Core protocol data types: capability records, content, catalogs and the
//! JSON-RPC message envelopes.

use vstd::prelude::*;

verus! {

// ============================================================================
// Implementation info and capabilities
// ============================================================================

/// Name and version of one protocol implementation.
#[derive(Debug, PartialEq, Eq)]
pub struct Implementation {
    /// Name of the implementation.
    pub name: String,
    /// Version of the implementation.
    pub version: String,
}

impl Clone for Implementation {
    /// A clone denotes the same implementation.
    fn clone(&self) -> (r: Self)
        ensures
            r == *self,
    {
        Implementation { name: self.name.clone(), version: self.version.clone() }
    }
}

/// Info record describing a server.
pub type ServerInfo = Implementation;

/// Info record describing a client.
pub type ClientInfo = Implementation;

/// Prompt-related server capabilities.
#[derive(Debug, Clone, Copy, PartialEq, Eq)]
pub struct PromptsCapability {
    /// Whether the server emits prompt list change notifications.
    pub list_changed: Option<bool>,
}

/// Resource-related server capabilities.
#[derive(Debug, Clone, Copy, PartialEq, Eq)]
pub struct ResourcesCapability {
    /// Whether the server supports resource subscriptions.
    pub subscribe: Option<bool>,
    /// Whether the server emits resource list change notifications.
    pub list_changed: Option<bool>,
}

/// Tool-related server capabilities.
#[derive(Debug, Clone, Copy, PartialEq, Eq)]
pub struct ToolsCapability {
    /// Whether the server emits tool list change notifications.
    pub list_changed: Option<bool>,
}

/// Sampling capability marker.
#[derive(Debug, Clone, Copy, PartialEq, Eq)]
pub struct SamplingCapability {
    /// Whether the capability is advertised at all.
    pub enabled: bool,
}

/// Logging capability marker.
#[derive(Debug, Clone, Copy, PartialEq, Eq)]
pub struct LoggingCapability {
    /// Whether the capability is advertised at all.
    pub enabled: bool,
}

/// Autocompletion capability marker.
#[derive(Debug, Clone, Copy, PartialEq, Eq)]
pub struct CompletionsCapability {
    /// Whether the capability is advertised at all.
    pub enabled: bool,
}

/// Roots capability of a client.
#[derive(Debug, Clone, Copy, PartialEq, Eq)]
pub struct RootsCapability {
    /// Whether the client emits roots list change notifications.
    pub list_changed: Option<bool>,
}

/// Capabilities advertised by a server during the handshake.
#[derive(Debug, Clone, Copy, PartialEq, Eq)]
pub struct ServerCapabilities {
    /// Prompt-related capabilities.
    pub prompts: Option<PromptsCapability>,
    /// Resource-related capabilities.
    pub resources: Option<ResourcesCapability>,
    /// Tool-related capabilities.
    pub tools: Option<ToolsCapability>,
    /// Sampling-related capabilities.
    pub sampling: Option<SamplingCapability>,
    /// Logging capabilities.
    pub logging: Option<LoggingCapability>,
    /// Autocompletion capabilities.
    pub completions: Option<CompletionsCapability>,
}

impl Default for ServerCapabilities {
    /// An empty capability set: nothing advertised.
    fn default() -> (r: Self)
        ensures
            r.prompts is None,
            r.resources is None,
            r.tools is None,
            r.sampling is None,
            r.logging is None,
            r.completions is None,
    {
        ServerCapabilities {
            prompts: None,
            resources: None,
            tools: None,
            sampling: None,
            logging: None,
            completions: None,
        }
    }
}

/// Capabilities advertised by a client during the handshake.
#[derive(Debug, Clone, Copy, PartialEq, Eq)]
pub struct ClientCapabilities {
    /// Sampling-related capabilities.
    pub sampling: Option<SamplingCapability>,
    /// Roots listing capabilities.
    pub roots: Option<RootsCapability>,
}

impl Default for ClientCapabilities {
    /// An empty capability set: nothing advertised.
    fn default() -> (r: Self)
        ensures
            r.sampling is None,
            r.roots is None,
    {
        ClientCapabilities { sampling: None, roots: None }
    }
}

// ============================================================================
// Annotations
// ============================================================================

/// Target audience for a tool or a piece of content.
#[derive(Debug, Clone, Copy, PartialEq, Eq)]
pub enum AnnotationAudience {
    /// General users.
    User,
    /// Developers and technical users.
    Developer,
    /// Administrative operations.
    Admin,
}

/// Danger classification of a tool.
#[derive(Debug, Clone, Copy, PartialEq, Eq)]
pub enum DangerLevel {
    /// No risk.
    Safe,
    /// Low risk.
    Low,
    /// Medium risk.
    Medium,
    /// High risk.
    High,
    /// Critical risk.
    Critical,
}

/// Behavior annotations attached to tools and content.
#[derive(Debug, PartialEq, Eq)]
#[verifier::ext_equal]
pub struct Annotations {
    /// Target audience.
    pub audience: Option<Vec<AnnotationAudience>>,
    /// Danger level.
    pub danger: Option<DangerLevel>,
    /// Whether the annotated tool performs destructive operations.
    pub destructive: Option<bool>,
    /// Whether the annotated tool is free of side effects.
    pub read_only: Option<bool>,
}

impl Annotations {
    /// Empty annotations: nothing stated.
    pub fn new() -> (r: Self)
        ensures
            r.audience is None,
            r.danger is None,
            r.destructive is None,
            r.read_only is None,
    {
        Annotations { audience: None, danger: None, destructive: None, read_only: None }
    }

    /// Mark as read-only, which also marks it non-destructive.
    pub fn read_only(self) -> (r: Self)
        ensures
            r.read_only == Some(true),
            r.destructive == Some(false),
            r.audience == self.audience,
            r.danger == self.danger,
    {
        Annotations { read_only: Some(true), destructive: Some(false), ..self }
    }

    /// Mark as destructive with the given danger level, which also marks it
    /// non-read-only.
    pub fn destructive(self, danger: DangerLevel) -> (r: Self)
        ensures
            r.destructive == Some(true),
            r.read_only == Some(false),
            r.danger == Some(danger),
            r.audience == self.audience,
    {
        Annotations {
            destructive: Some(true),
            read_only: Some(false),
            danger: Some(danger),
            ..self
        }
    }

    /// Set the target audience.
    pub fn for_audience(self, audience: Vec<AnnotationAudience>) -> (r: Self)
        ensures
            r.audience == Some(audience),
            r.danger == self.danger,
            r.destructive == self.destructive,
            r.read_only == self.read_only,
    {
        Annotations { audience: Some(audience), ..self }
    }

    /// Set the danger level.
    pub fn with_danger_level(self, danger: DangerLevel) -> (r: Self)
        ensures
            r.danger == Some(danger),
            r.audience == self.audience,
            r.destructive == self.destructive,
            r.read_only == self.read_only,
    {
        Annotations { danger: Some(danger), ..self }
    }
}

/// Whether two annotation records state the same thing: every field agrees,
/// with audience lists compared element by element.
pub open spec fn ann_like(a: Annotations, b: Annotations) -> bool {
    &&& a.danger == b.danger
    &&& a.destructive == b.destructive
    &&& a.read_only == b.read_only
    &&& match (a.audience, b.audience) {
        (Some(x), Some(y)) => x@ == y@,
        (None, None) => true,
        _ => false,
    }
}

impl Clone for Annotations {
    /// A clone states exactly the same annotations.
    fn clone(&self) -> (r: Self)
        ensures
            ann_like(r, *self),
    {
        let audience = match &self.audience {
            Some(v) => {
                let mut c: Vec<AnnotationAudience> = Vec::new();
                let mut i: usize = 0;
                while i < v.len()
                    invariant
                        i <= v@.len(),
                        c@ == v@.subrange(0, i as int),
                    decreases v@.len() - i,
                {
                    c.push(v[i]);
                    proof {
                        assert(c@ =~= v@.subrange(0, i + 1));
                    }
                    i = i + 1;
                }
                proof {
                    assert(c@ =~= v@);
                }
                Some(c)
            },
            None => None,
        };
        let r = Annotations {
            audience,
            danger: self.danger,
            destructive: self.destructive,
            read_only: self.read_only,
        };
        r
    }
}

// ============================================================================
// Content
// ============================================================================

/// Text content record.
#[derive(Debug, Clone, PartialEq, Eq)]
pub struct TextContent {
    /// Content type identifier; always the text kind.
    pub content_type: String,
    /// The text itself.
    pub text: String,
    /// Content annotations.
    pub annotations: Option<Annotations>,
}

/// Image content record.
#[derive(Debug, Clone, PartialEq, Eq)]
pub struct ImageContent {
    /// Content type identifier; always the image kind.
    pub content_type: String,
    /// Base64-encoded image data.
    pub data: String,
    /// MIME type of the image.
    pub mime_type: String,
    /// Content annotations.
    pub annotations: Option<Annotations>,
}

/// Audio content record.
#[derive(Debug, Clone, PartialEq, Eq)]
pub struct AudioContent {
    /// Content type identifier; always the audio kind.
    pub content_type: String,
    /// Base64-encoded audio data.
    pub data: String,
    /// MIME type of the audio.
    pub mime_type: String,
    /// Content annotations.
    pub annotations: Option<Annotations>,
}

/// Reference to a resource by URI.
#[derive(Debug, Clone, PartialEq, Eq)]
pub struct ResourceReference {
    /// URI of the referenced resource.
    pub uri: String,
}

/// Resource content embedded in a message.
#[derive(Debug, Clone, PartialEq, Eq)]
pub struct EmbeddedResource {
    /// Content type identifier; always the resource kind.
    pub content_type: String,
    /// The referenced resource.
    pub resource: ResourceReference,
    /// Content annotations.
    pub annotations: Option<Annotations>,
}

/// A piece of message content of any supported kind.
#[derive(Debug, Clone, PartialEq, Eq)]
pub enum Content {
    /// Text content.
    Text {
        /// The text itself.
        text: String,
        /// Content annotations.
        annotations: Option<Annotations>,
    },
    /// Image content.
    Image {
        /// Base64-encoded image data.
        data: String,
        /// MIME type of the image.
        mime_type: String,
        /// Content annotations.
        annotations: Option<Annotations>,
    },
    /// Audio content.
    Audio {
        /// Base64-encoded audio data.
        data: String,
        /// MIME type of the audio.
        mime_type: String,
        /// Content annotations.
        annotations: Option<Annotations>,
    },
    /// Embedded resource content.
    Resource {
        /// The referenced resource.
        resource: ResourceReference,
        /// Content annotations.
        annotations: Option<Annotations>,
    },
}

impl Content {
    /// Text content without annotations.
    pub fn text(text: &str) -> (r: Self)
        ensures
            r matches Content::Text { text: t, annotations: a } && t@ == text@ && a is None,
    {
        Content::Text { text: text.to_owned(), annotations: None }
    }

    /// Image content without annotations.
    pub fn image(data: &str, mime_type: &str) -> (r: Self)
        ensures
            r matches Content::Image { data: d, mime_type: m, annotations: a } && d@ == data@
                && m@ == mime_type@ && a is None,
    {
        Content::Image { data: data.to_owned(), mime_type: mime_type.to_owned(), annotations: None }
    }

    /// Audio content without annotations.
    pub fn audio(data: &str, mime_type: &str) -> (r: Self)
        ensures
            r matches Content::Audio { data: d, mime_type: m, annotations: a } && d@ == data@
                && m@ == mime_type@ && a is None,
    {
        Content::Audio { data: data.to_owned(), mime_type: mime_type.to_owned(), annotations: None }
    }

    /// Embedded resource content without annotations.
    pub fn resource(uri: &str) -> (r: Self)
        ensures
            r matches Content::Resource { resource: res, annotations: a } && res.uri@ == uri@
                && a is None,
    {
        Content::Resource {
            resource: ResourceReference { uri: uri.to_owned() },
            annotations: None,
        }
    }
}

// ============================================================================
// Tools
// ============================================================================

/// Input schema of a tool, kept as an object schema with optional
/// per-property definitions.
#[derive(Debug)]
#[verifier::ext_equal]
pub struct ToolInputSchema {
    /// Schema type; always the object kind.
    pub schema_type: String,
    /// Property definitions, keyed by property name.
    pub properties: Option<Vec<(String, serde_json::Value)>>,
    /// Names of required properties.
    pub required: Option<Vec<String>>,
}

/// Description of one tool in the catalog.
#[derive(Debug)]
#[verifier::ext_equal]
pub struct Tool {
    /// Name of the tool; catalog key.
    pub name: String,
    /// What the tool does.
    pub description: Option<String>,
    /// Schema of the tool's input.
    pub input_schema: ToolInputSchema,
    /// Behavior annotations.
    pub annotations: Option<Annotations>,
}

impl Tool {
    /// A tool with an empty object input schema.
    pub fn new(name: &str, description: &str) -> (r: Self)
        ensures
            r.name@ == name@,
            r.description matches Some(d) && d@ == description@,
            r.annotations is None,
    {
        Tool {
            name: name.to_owned(),
            description: Some(description.to_owned()),
            input_schema: ToolInputSchema {
                schema_type: "object".to_owned(),
                properties: None,
                required: None,
            },
            annotations: None,
        }
    }

    /// Attach behavior annotations.
    pub fn with_annotations(self, annotations: Annotations) -> (r: Self)
        ensures
            r.annotations == Some(annotations),
            r.name == self.name,
            r.description == self.description,
    {
        Tool { annotations: Some(annotations), ..self }
    }
}

/// Whether two schemas describe the same input: the type tag agrees and the
/// property and requirement lists agree element by element.
pub open spec fn schema_like(a: ToolInputSchema, b: ToolInputSchema) -> bool {
    &&& a.schema_type == b.schema_type
    &&& match (a.properties, b.properties) {
        (Some(x), Some(y)) => x@ == y@,
        (None, None) => true,
        _ => false,
    }
    &&& match (a.required, b.required) {
        (Some(x), Some(y)) => x@ == y@,
        (None, None) => true,
        _ => false,
    }
}

impl Clone for ToolInputSchema {
    /// A clone describes exactly the same schema.
    fn clone(&self) -> (r: Self)
        ensures
            schema_like(r, *self),
    {
        let properties = match &self.properties {
            Some(v) => {
                let mut c: Vec<(String, serde_json::Value)> = Vec::new();
                let mut i: usize = 0;
                while i < v.len()
                    invariant
                        i <= v@.len(),
                        c@ == v@.subrange(0, i as int),
                    decreases v@.len() - i,
                {
                    let pair = &v[i];
                    c.push((pair.0.clone(), pair.1.clone()));
                    proof {
                        assert(c@ =~= v@.subrange(0, i + 1));
                    }
                    i = i + 1;
                }
                proof {
                    assert(c@ =~= v@);
                }
                Some(c)
            },
            None => None,
        };
        let required = match &self.required {
            Some(v) => {
                let mut c: Vec<String> = Vec::new();
                let mut i: usize = 0;
                while i < v.len()
                    invariant
                        i <= v@.len(),
                        c@ == v@.subrange(0, i as int),
                    decreases v@.len() - i,
                {
                    c.push(v[i].clone());
                    proof {
                        assert(c@ =~= v@.subrange(0, i + 1));
                    }
                    i = i + 1;
                }
                proof {
                    assert(c@ =~= v@);
                }
                Some(c)
            },
            None => None,
        };
        let r = ToolInputSchema { schema_type: self.schema_type.clone(), properties, required };
        r
    }
}

/// Whether two tool records describe the same tool: name, description and
/// schema agree, and the annotations state the same thing.
pub open spec fn tool_like(a: Tool, b: Tool) -> bool {
    &&& a.name == b.name
    &&& a.description == b.description
    &&& schema_like(a.input_schema, b.input_schema)
    &&& match (a.annotations, b.annotations) {
        (Some(x), Some(y)) => ann_like(x, y),
        (None, None) => true,
        _ => false,
    }
}

impl Clone for Tool {
    /// A clone describes exactly the same tool.
    fn clone(&self) -> (r: Self)
        ensures
            tool_like(r, *self),
    {
        let r = Tool {
            name: self.name.clone(),
            description: match &self.description {
                Some(d) => Some(d.clone()),
                None => None,
            },
            input_schema: self.input_schema.clone(),
            annotations: match &self.annotations {
                Some(a) => Some(a.clone()),
                None => None,
            },
        };
        r
    }
}

/// Result of one tool invocation.
#[derive(Debug, Clone)]
pub struct CallToolResult {
    /// Content produced by the tool.
    pub content: Vec<Content>,
    /// Whether the result reports a tool-level error.
    pub is_error: Option<bool>,
}

impl CallToolResult {
    /// A successful invocation result.
    pub fn success(content: Vec<Content>) -> (r: Self)
        ensures
            r.content == content,
            r.is_error == Some(false),
    {
        CallToolResult { content, is_error: Some(false) }
    }

    /// A failed invocation result.
    pub fn error(content: Vec<Content>) -> (r: Self)
        ensures
            r.content == content,
            r.is_error == Some(true),
    {
        CallToolResult { content, is_error: Some(true) }
    }
}

/// Catalog entry name kept for callers that use the older name.
pub type ToolInfo = Tool;

/// Invocation result name kept for callers that use the older name.
pub type ToolResult = CallToolResult;

// ============================================================================
// Resources
// ============================================================================

/// Description of one resource in the catalog.
#[derive(Debug)]
#[verifier::ext_equal]
pub struct Resource {
    /// URI of the resource; catalog key.
    pub uri: String,
    /// Human-readable name.
    pub name: Option<String>,
    /// What the resource holds.
    pub description: Option<String>,
    /// MIME type of the resource.
    pub mime_type: Option<String>,
    /// Annotations.
    pub annotations: Option<Annotations>,
    /// Size in bytes, if known.
    pub size: Option<u64>,
}

/// Whether two resource records describe the same resource: every field
/// agrees, and the annotations state the same thing.
pub open spec fn resource_like(a: Resource, b: Resource) -> bool {
    &&& a.uri == b.uri
    &&& a.name == b.name
    &&& a.description == b.description
    &&& a.mime_type == b.mime_type
    &&& a.size == b.size
    &&& match (a.annotations, b.annotations) {
        (Some(x), Some(y)) => ann_like(x, y),
        (None, None) => true,
        _ => false,
    }
}

impl Clone for Resource {
    /// A clone describes exactly the same resource.
    fn clone(&self) -> (r: Self)
        ensures
            resource_like(r, *self),
    {
        let r = Resource {
            uri: self.uri.clone(),
            name: match &self.name {
                Some(n) => Some(n.clone()),
                None => None,
            },
            description: match &self.description {
                Some(d) => Some(d.clone()),
                None => None,
            },
            mime_type: match &self.mime_type {
                Some(m) => Some(m.clone()),
                None => None,
            },
            annotations: match &self.annotations {
                Some(a) => Some(a.clone()),
                None => None,
            },
            size: self.size,
        };
        r
    }
}

/// URI template describing a family of resources.
#[derive(Debug, Clone, PartialEq, Eq)]
pub struct ResourceTemplate {
    /// URI template with variables.
    pub uri_template: String,
    /// Human-readable name.
    pub name: Option<String>,
    /// What the template's resources hold.
    pub description: Option<String>,
    /// MIME type of resources from this template.
    pub mime_type: Option<String>,
}

/// Contents of one resource read.
#[derive(Debug, Clone, PartialEq, Eq)]
pub enum ResourceContents {
    /// Text contents.
    Text {
        /// URI of the resource.
        uri: String,
        /// MIME type.
        mime_type: Option<String>,
        /// The text.
        text: String,
    },
    /// Binary contents.
    Blob {
        /// URI of the resource.
        uri: String,
        /// MIME type.
        mime_type: Option<String>,
        /// Base64-encoded bytes.
        blob: String,
    },
}

/// Catalog entry name kept for callers that use the older name.
pub type ResourceInfo = Resource;

// ============================================================================
// Prompts
// ============================================================================

/// Description of one prompt in the catalog.
#[derive(Debug, PartialEq, Eq)]
#[verifier::ext_equal]
pub struct Prompt {
    /// Name of the prompt; catalog key.
    pub name: String,
    /// What the prompt does.
    pub description: Option<String>,
    /// Arguments the prompt accepts.
    pub arguments: Option<Vec<PromptArgument>>,
}

/// One argument accepted by a prompt.
#[derive(Debug, PartialEq, Eq)]
#[verifier::ext_equal]
pub struct PromptArgument {
    /// Name of the argument.
    pub name: String,
    /// What the argument holds.
    pub description: Option<String>,
    /// Whether the argument must be given.
    pub required: Option<bool>,
}

impl Clone for PromptArgument {
    /// A clone describes exactly the same argument.
    fn clone(&self) -> (r: Self)
        ensures
            r == *self,
    {
        PromptArgument {
            name: self.name.clone(),
            description: match &self.description {
                Some(d) => Some(d.clone()),
                None => None,
            },
            required: self.required,
        }
    }
}

/// Whether two prompt records describe the same prompt: name and
/// description agree and the argument lists agree element by element.
pub open spec fn prompt_like(a: Prompt, b: Prompt) -> bool {
    &&& a.name == b.name
    &&& a.description == b.description
    &&& match (a.arguments, b.arguments) {
        (Some(x), Some(y)) => x@ == y@,
        (None, None) => true,
        _ => false,
    }
}

impl Clone for Prompt {
    /// A clone describes exactly the same prompt.
    fn clone(&self) -> (r: Self)
        ensures
            prompt_like(r, *self),
    {
        let r = Prompt {
            name: self.name.clone(),
            description: match &self.description {
                Some(d) => Some(d.clone()),
                None => None,
            },
            arguments: match &self.arguments {
                Some(v) => {
                    let mut c: Vec<PromptArgument> = Vec::new();
                    let mut i: usize = 0;
                    while i < v.len()
                        invariant
                            i <= v@.len(),
                            c@ == v@.subrange(0, i as int),
                        decreases v@.len() - i,
                    {
                        c.push(v[i].clone());
                        proof {
                            assert(c@ =~= v@.subrange(0, i + 1));
                        }
                        i = i + 1;
                    }
                    proof {
                        assert(c@ =~= v@);
                    }
                    Some(c)
                },
                None => None,
            },
        };
        r
    }
}

/// Author of a message.
#[derive(Debug, Clone, Copy, PartialEq, Eq)]
pub enum Role {
    /// The user side of the conversation.
    User,
    /// The assistant side of the conversation.
    Assistant,
}

/// One message produced by a prompt.
#[derive(Debug, Clone, PartialEq, Eq)]
pub struct PromptMessage {
    /// Author of the message.
    pub role: Role,
    /// Content of the message.
    pub content: Content,
}

/// Result of retrieving a prompt.
#[derive(Debug, Clone, PartialEq, Eq)]
pub struct GetPromptResult {
    /// Description of the produced conversation.
    pub description: Option<String>,
    /// The produced messages.
    pub messages: Vec<PromptMessage>,
}

impl GetPromptResult {
    /// A retrieval result holding the given messages and no description.
    pub fn new(messages: Vec<PromptMessage>) -> (r: Self)
        ensures
            r.messages == messages,
            r.description is None,
    {
        GetPromptResult { description: None, messages }
    }

    /// Attach a description.
    pub fn with_description(self, description: &str) -> (r: Self)
        ensures
            r.messages == self.messages,
            r.description matches Some(d) && d@ == description@,
    {
        GetPromptResult { description: Some(description.to_owned()), ..self }
    }
}

/// Catalog entry name kept for callers that use the older name.
pub type PromptInfo = Prompt;

/// Retrieval result name kept for callers that use the older name.
pub type PromptResult = GetPromptResult;

// ============================================================================
// Sampling
// ============================================================================

/// One message in a sampling conversation.
#[derive(Debug, Clone, PartialEq, Eq)]
pub struct SamplingMessage {
    /// Author of the message.
    pub role: Role,
    /// Content of the message.
    pub content: Content,
}

impl SamplingMessage {
    /// A user message holding text.
    pub fn user_text(content: &str) -> (r: Self)
        ensures
            r.role == Role::User,
            r.content matches Content::Text { text: t, annotations: a } && t@ == content@
                && a is None,
    {
        SamplingMessage { role: Role::User, content: Content::text(content) }
    }

    /// An assistant message holding text.
    pub fn assistant_text(content: &str) -> (r: Self)
        ensures
            r.role == Role::Assistant,
            r.content matches Content::Text { text: t, annotations: a } && t@ == content@
                && a is None,
    {
        SamplingMessage { role: Role::Assistant, content: Content::text(content) }
    }

    /// A user message holding an image.
    pub fn user_image(data: &str, mime_type: &str) -> (r: Self)
        ensures
            r.role == Role::User,
            r.content matches Content::Image { data: d, mime_type: m, annotations: a }
                && d@ == data@ && m@ == mime_type@ && a is None,
    {
        SamplingMessage { role: Role::User, content: Content::image(data, mime_type) }
    }

    /// A user message holding audio.
    pub fn user_audio(data: &str, mime_type: &str) -> (r: Self)
        ensures
            r.role == Role::User,
            r.content matches Content::Audio { data: d, mime_type: m, annotations: a }
                && d@ == data@ && m@ == mime_type@ && a is None,
    {
        SamplingMessage { role: Role::User, content: Content::audio(data, mime_type) }
    }

    /// A user message embedding a resource.
    pub fn user_resource(uri: &str) -> (r: Self)
        ensures
            r.role == Role::User,
            r.content matches Content::Resource { resource: res, annotations: a }
                && res.uri@ == uri@ && a is None,
    {
        SamplingMessage { role: Role::User, content: Content::resource(uri) }
    }
}

impl CreateMessageResult {
    /// A sampling result with no stop reason recorded.
    pub fn new(role: Role, content: Content, model: String) -> (r: Self)
        ensures
            r.role == role,
            r.content == content,
            r.model == model,
            r.stop_reason is None,
    {
        CreateMessageResult { role, content, model, stop_reason: None }
    }

    /// Record why generation stopped.
    pub fn with_stop_reason(self, reason: StopReason) -> (r: Self)
        ensures
            r.role == self.role,
            r.content == self.content,
            r.model == self.model,
            r.stop_reason == Some(reason),
    {
        CreateMessageResult { stop_reason: Some(reason), ..self }
    }
}

/// Why a sampling run stopped.
#[derive(Debug, Clone, PartialEq, Eq)]
pub enum StopReason {
    /// The turn ended naturally.
    EndTurn,
    /// A stop sequence was hit.
    StopSequence,
    /// The token budget ran out.
    MaxTokens,
    /// Any other provider-specific reason.
    Other(String),
}

/// Result of a sampling run.
#[derive(Debug, Clone, PartialEq, Eq)]
pub struct CreateMessageResult {
    /// Author of the generated message.
    pub role: Role,
    /// Content of the generated message.
    pub content: Content,
    /// Model that generated it.
    pub model: String,
    /// Why generation stopped.
    pub stop_reason: Option<StopReason>,
}

// ============================================================================
// Logging
// ============================================================================

/// Log severity levels.
#[derive(Debug, Clone, PartialEq, Eq)]
pub enum LoggingLevel {
    /// Debugging detail.
    Debug,
    /// Informational.
    Info,
    /// Normal but significant.
    Notice,
    /// Warning.
    Warning,
    /// Error.
    Error,
    /// Critical condition.
    Critical,
    /// Action must be taken immediately.
    Alert,
    /// System unusable.
    Emergency,
}

// ============================================================================
// JSON-RPC envelopes
// ============================================================================

/// Correlation key chosen by the issuer of a request: a string, an integer,
/// or null.
#[derive(Debug)]
pub enum RequestId {
    /// Integer id.
    Num(u64),
    /// String id.
    Str(String),
    /// Null id.
    Null,
}

/// Whether two request ids denote the same correlation key.
pub open spec fn spec_id_eq(a: RequestId, b: RequestId) -> bool {
    match (a, b) {
        (RequestId::Num(x), RequestId::Num(y)) => x == y,
        (RequestId::Str(x), RequestId::Str(y)) => x@ == y@,
        (RequestId::Null, RequestId::Null) => true,
        _ => false,
    }
}

impl Clone for RequestId {
    /// A clone denotes the same correlation key.
    fn clone(&self) -> (r: Self)
        ensures
            r == *self,
    {
        match self {
            RequestId::Num(x) => RequestId::Num(*x),
            RequestId::Str(s) => RequestId::Str(s.clone()),
            RequestId::Null => RequestId::Null,
        }
    }
}

impl PartialEq for RequestId {
    fn eq(&self, other: &RequestId) -> (r: bool) {
        match (self, other) {
            (RequestId::Num(x), RequestId::Num(y)) => *x == *y,
            (RequestId::Str(x), RequestId::Str(y)) => *x == *y,
            (RequestId::Null, RequestId::Null) => true,
            _ => false,
        }
    }
}

impl vstd::std_specs::cmp::PartialEqSpecImpl for RequestId {
    open spec fn obeys_eq_spec() -> bool {
        true
    }

    open spec fn eq_spec(&self, other: &RequestId) -> bool {
        spec_id_eq(*self, *other)
    }
}

/// Pagination cursor.
pub type Cursor = String;

/// A request envelope.
#[derive(Debug, Clone)]
pub struct JsonRpcRequest {
    /// JSON-RPC version; always "2.0".
    pub jsonrpc: String,
    /// Correlation id chosen by the issuer.
    pub id: RequestId,
    /// Method name.
    pub method: String,
    /// Method parameters, carried opaquely.
    pub params: Option<serde_json::Value>,
}

/// A successful response envelope.
#[derive(Debug, Clone)]
pub struct JsonRpcResponse {
    /// JSON-RPC version; always "2.0".
    pub jsonrpc: String,
    /// Correlation id echoed from the request.
    pub id: RequestId,
    /// Result payload, carried opaquely.
    pub result: Option<serde_json::Value>,
}

/// The error object of an error response.
#[derive(Debug, Clone)]
pub struct ErrorObject {
    /// Error code.
    pub code: i32,
    /// Error message.
    pub message: String,
    /// Additional error data, carried opaquely.
    pub data: Option<serde_json::Value>,
}

/// An error response envelope.
#[derive(Debug, Clone)]
pub struct JsonRpcError {
    /// JSON-RPC version; always "2.0".
    pub jsonrpc: String,
    /// Correlation id echoed from the request.
    pub id: RequestId,
    /// The error.
    pub error: ErrorObject,
}

/// A notification envelope; never carries an id.
#[derive(Debug, Clone)]
pub struct JsonRpcNotification {
    /// JSON-RPC version; always "2.0".
    pub jsonrpc: String,
    /// Method name.
    pub method: String,
    /// Parameters, carried opaquely.
    pub params: Option<serde_json::Value>,
}

/// One element of a batch request.
#[derive(Debug, Clone)]
pub enum JsonRpcRequestOrNotification {
    /// A request expecting a response.
    Request(JsonRpcRequest),
    /// A fire-and-forget notification.
    Notification(JsonRpcNotification),
}

/// One element of a batch response.
#[derive(Debug, Clone)]
pub enum JsonRpcResponseOrError {
    /// A successful response.
    Response(JsonRpcResponse),
    /// An error response.
    Error(JsonRpcError),
}

/// A batch of requests and notifications.
pub type JsonRpcBatchRequest = Vec<JsonRpcRequestOrNotification>;

/// A batch of responses and errors.
pub type JsonRpcBatchResponse = Vec<JsonRpcResponseOrError>;

/// Any message that can appear on the wire.
#[derive(Debug, Clone)]
pub enum JsonRpcMessage {
    /// A single request.
    Request(JsonRpcRequest),
    /// A single successful response.
    Response(JsonRpcResponse),
    /// A single error response.
    Error(JsonRpcError),
    /// A single notification.
    Notification(JsonRpcNotification),
    /// A batch of requests and notifications.
    BatchRequest(JsonRpcBatchRequest),
    /// A batch of responses and errors.
    BatchResponse(JsonRpcBatchResponse),
}

impl JsonRpcRequest {
    /// A request envelope with the protocol's JSON-RPC version.
    pub fn new(id: RequestId, method: String, params: Option<serde_json::Value>) -> (r: Self)
        ensures
            r.jsonrpc@ == crate::JSONRPC_VERSION@,
            r.id == id,
            r.method == method,
            r.params == params,
    {
        JsonRpcRequest { jsonrpc: crate::JSONRPC_VERSION.to_owned(), id, method, params }
    }
}

impl JsonRpcResponse {
    /// A successful response echoing the given id.
    pub fn success(id: RequestId, result: serde_json::Value) -> (r: Self)
        ensures
            r.jsonrpc@ == crate::JSONRPC_VERSION@,
            r.id == id,
            r.result == Some(result),
    {
        JsonRpcResponse { jsonrpc: crate::JSONRPC_VERSION.to_owned(), id, result: Some(result) }
    }
}

impl JsonRpcError {
    /// An error response echoing the given id.
    pub fn error(id: RequestId, code: i32, message: String, data: Option<serde_json::Value>) -> (r:
        Self)
        ensures
            r.jsonrpc@ == crate::JSONRPC_VERSION@,
            r.id == id,
            r.error.code == code,
            r.error.message == message,
    {
        JsonRpcError {
            jsonrpc: crate::JSONRPC_VERSION.to_owned(),
            id,
            error: ErrorObject { code, message, data },
        }
    }
}

impl JsonRpcNotification {
    /// A notification envelope with the protocol's JSON-RPC version.
    pub fn new(method: String, params: Option<serde_json::Value>) -> (r: Self)
        ensures
            r.jsonrpc@ == crate::JSONRPC_VERSION@,
            r.method == method,
            r.params == params,
    {
        JsonRpcNotification { jsonrpc: crate::JSONRPC_VERSION.to_owned(), method, params }
    }
}

// ============================================================================
// Pagination
// ============================================================================

/// Base shape of a paginated request.
#[derive(Debug, Clone, PartialEq, Eq)]
pub struct PaginatedRequest {
    /// Cursor of the page to fetch.
    pub cursor: Option<Cursor>,
}

/// Base shape of a paginated result.
#[derive(Debug, Clone, PartialEq, Eq)]
pub struct PaginatedResult {
    /// Cursor of the next page, if any.
    pub next_cursor: Option<Cursor>,
}

} // verus!
