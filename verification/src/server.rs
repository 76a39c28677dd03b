//! Server core: the tool, resource and prompt catalogs, and the server's
//! own start/stop state machine.
//!
//! Catalogs are keyed collections: at most one tool per name, one resource
//! per URI, one prompt per name. Adding under an existing key replaces the
//! entry; looking up a missing key is an error value, never a panic.

use vstd::prelude::*;
use crate::error::{McpError, McpResult};
use crate::tool::Tool;
use crate::types::{
    prompt_like, resource_like, tool_like, PromptInfo, PromptsCapability, ResourceInfo,
    ResourcesCapability, ServerCapabilities, ServerInfo, ToolInfo, ToolsCapability,
};
use crate::validation::{str_eq, validate_prompt_info, validate_resource_info,
    validate_tool_info};

verus! {

/// State of the server runtime.
#[derive(Debug, Clone, Copy, PartialEq, Eq)]
pub enum ServerState {
    /// Not started yet.
    Uninitialized,
    /// A start is in progress.
    Initializing,
    /// Accepting requests.
    Running,
    /// A stop is in progress.
    Stopping,
    /// Stopped.
    Stopped,
}

/// The declared transition graph of the server runtime. Every mutating
/// operation of [`McpServer`] promises that its state change is one of
/// these edges.
pub open spec fn server_edge(a: ServerState, b: ServerState) -> bool {
    ||| a == b
    ||| ((a is Uninitialized || a is Stopped) && b is Initializing)
    ||| (a is Initializing && b is Running)
    ||| (a is Running && b is Stopping)
    ||| (a is Stopping && b is Stopped)
}

/// Server policy knobs.
#[derive(Debug, Clone, PartialEq, Eq)]
pub struct ServerConfig {
    /// Ceiling on requests served at once.
    pub max_concurrent_requests: usize,
    /// Deadline for one request, in milliseconds.
    pub request_timeout_ms: u64,
    /// Whether incoming requests are validated before routing.
    pub validate_requests: bool,
    /// Whether request handling is logged.
    pub enable_logging: bool,
}

impl Default for ServerConfig {
    /// The stock policy: a hundred concurrent requests, thirty second
    /// deadline, validation and logging on.
    fn default() -> (r: Self)
        ensures
            r.max_concurrent_requests == 100,
            r.request_timeout_ms == 30000,
            r.validate_requests,
            r.enable_logging,
    {
        ServerConfig {
            max_concurrent_requests: 100,
            request_timeout_ms: 30000,
            validate_requests: true,
            enable_logging: true,
        }
    }
}

/// The server core: identity, capabilities, catalogs and runtime state.
#[derive(Debug)]
pub struct McpServer {
    /// This server's identity.
    pub info: ServerInfo,
    /// Capabilities this server advertises.
    pub capabilities: ServerCapabilities,
    /// Policy knobs.
    pub config: ServerConfig,
    /// Registered tools, at most one per name.
    pub tools: Vec<Tool>,
    /// Registered resources, at most one per URI.
    pub resources: Vec<ResourceInfo>,
    /// Registered prompts, at most one per name.
    pub prompts: Vec<PromptInfo>,
    /// Runtime state.
    pub state: ServerState,
}

impl McpServer {
    /// Well-formedness: each catalog's keys are pairwise distinct.
    pub open spec fn wf(self) -> bool {
        &&& forall|i: int, j: int|
            0 <= i < j < self.tools@.len() ==> (#[trigger] self.tools@[i]).info.name@ != (
            #[trigger] self.tools@[j]).info.name@
        &&& forall|i: int, j: int|
            0 <= i < j < self.resources@.len() ==> (#[trigger] self.resources@[i]).uri@ != (
            #[trigger] self.resources@[j]).uri@
        &&& forall|i: int, j: int|
            0 <= i < j < self.prompts@.len() ==> (#[trigger] self.prompts@[i]).name@ != (
            #[trigger] self.prompts@[j]).name@
    }

    /// Whether a tool with the given name is registered.
    pub open spec fn has_tool(self, name: Seq<char>) -> bool {
        exists|i: int| 0 <= i < self.tools@.len() && (#[trigger] self.tools@[i]).info.name@ == name
    }

    /// Whether a resource with the given URI is registered.
    pub open spec fn has_resource(self, uri: Seq<char>) -> bool {
        exists|i: int|
            0 <= i < self.resources@.len() && (#[trigger] self.resources@[i]).uri@ == uri
    }

    /// Whether a prompt with the given name is registered.
    pub open spec fn has_prompt(self, name: Seq<char>) -> bool {
        exists|i: int|
            0 <= i < self.prompts@.len() && (#[trigger] self.prompts@[i]).name@ == name
    }

    /// A fresh server: empty catalogs, not yet started, advertising the
    /// tool, resource and prompt capabilities with change notifications.
    pub fn new(name: String, version: String) -> (r: Self)
        ensures
            r.wf(),
            r.info.name == name,
            r.info.version == version,
            r.state is Uninitialized,
            r.tools@.len() == 0,
            r.resources@.len() == 0,
            r.prompts@.len() == 0,
            r.capabilities.tools matches Some(t) && t.list_changed == Some(true),
            r.capabilities.resources matches Some(c) && c.subscribe == Some(true)
                && c.list_changed == Some(true),
            r.capabilities.prompts matches Some(p) && p.list_changed == Some(true),
            r.capabilities.sampling is None,
            r.capabilities.logging is None,
            r.capabilities.completions is None,
    {
        McpServer {
            info: ServerInfo { name, version },
            capabilities: ServerCapabilities {
                prompts: Some(PromptsCapability { list_changed: Some(true) }),
                resources: Some(
                    ResourcesCapability { subscribe: Some(true), list_changed: Some(true) },
                ),
                tools: Some(ToolsCapability { list_changed: Some(true) }),
                sampling: None,
                logging: None,
                completions: None,
            },
            config: ServerConfig::default(),
            tools: Vec::new(),
            resources: Vec::new(),
            prompts: Vec::new(),
            state: ServerState::Uninitialized,
        }
    }

    /// A fresh server with the given policy.
    pub fn with_config(name: String, version: String, config: ServerConfig) -> (r: Self)
        ensures
            r.wf(),
            r.info.name == name,
            r.info.version == version,
            r.config == config,
            r.state is Uninitialized,
            r.tools@.len() == 0,
            r.resources@.len() == 0,
            r.prompts@.len() == 0,
    {
        let mut server = Self::new(name, version);
        server.config = config;
        server
    }

    /// Replace the advertised capabilities.
    pub fn set_capabilities(&mut self, capabilities: ServerCapabilities)
        ensures
            final(self).capabilities == capabilities,
            final(self).info == old(self).info,
            final(self).config == old(self).config,
            final(self).tools == old(self).tools,
            final(self).resources == old(self).resources,
            final(self).prompts == old(self).prompts,
            final(self).state == old(self).state,
    {
        self.capabilities = capabilities;
    }

    /// This server's identity.
    pub fn info(&self) -> (r: &ServerInfo)
        ensures
            r == self.info,
    {
        &self.info
    }

    /// The capabilities this server advertises.
    pub fn capabilities(&self) -> (r: &ServerCapabilities)
        ensures
            r == self.capabilities,
    {
        &self.capabilities
    }

    /// The server policy.
    pub fn config(&self) -> (r: &ServerConfig)
        ensures
            r == self.config,
    {
        &self.config
    }

    // ========================================================================
    // Tool catalog
    // ========================================================================

    /// Index of the tool with the given name, if any.
    fn find_tool(&self, name: &str) -> (r: Option<usize>)
        ensures
            match r {
                Some(i) => i < self.tools@.len() && self.tools@[i as int].info.name@ == name@,
                None => forall|i: int|
                    0 <= i < self.tools@.len() ==> (#[trigger] self.tools@[i]).info.name@
                        != name@,
            },
    {
        let mut i: usize = 0;
        while i < self.tools.len()
            invariant
                i <= self.tools@.len(),
                forall|j: int| 0 <= j < i ==> (#[trigger] self.tools@[j]).info.name@ != name@,
            decreases self.tools@.len() - i,
        {
            if str_eq(self.tools[i].info.name.as_str(), name) {
                return Some(i);
            }
            i = i + 1;
        }
        None
    }

    /// Register a tool under its name, replacing any tool already
    /// registered under it; the entry starts out enabled. Rejected when the
    /// name is empty.
    pub fn add_tool(&mut self, info: ToolInfo) -> (r: McpResult<()>)
        requires
            old(self).wf(),
        ensures
            final(self).wf(),
            r is Ok <==> info.name@.len() > 0,
            r is Err ==> *final(self) == *old(self) && r matches Err(McpError::InvalidParams(_)),
            r is Ok ==> final(self).has_tool(info.name@),
            r is Ok ==> {
                ||| exists|i: int|
                    0 <= i < old(self).tools@.len() && (#[trigger] old(
                        self,
                    ).tools@[i]).info.name@ == info.name@ && final(self).tools@ == old(
                        self,
                    ).tools@.update(i, Tool { info, enabled: true })
                ||| (!old(self).has_tool(info.name@) && final(self).tools@ == old(
                    self,
                ).tools@.push(Tool { info, enabled: true }))
            },
            final(self).resources == old(self).resources,
            final(self).prompts == old(self).prompts,
            final(self).state == old(self).state,
            final(self).info == old(self).info,
    {
        match validate_tool_info(&info) {
            Ok(_) => {},
            Err(e) => {
                return Err(e);
            },
        }
        match self.find_tool(info.name.as_str()) {
            Some(i) => {
                self.tools.set(i, Tool { info, enabled: true });
                proof {
                    assert(self.tools@[i as int].info.name@ == info.name@);
                }
            },
            None => {
                self.tools.push(Tool { info, enabled: true });
                proof {
                    assert(self.tools@[self.tools@.len() - 1].info.name@ == info.name@);
                }
            },
        }
        Ok(())
    }

    /// Drop the tool with the given name; says whether one was registered.
    /// Afterwards the name is free.
    pub fn remove_tool(&mut self, name: &str) -> (removed: bool)
        requires
            old(self).wf(),
        ensures
            final(self).wf(),
            removed == old(self).has_tool(name@),
            !final(self).has_tool(name@),
            removed ==> exists|i: int|
                0 <= i < old(self).tools@.len() && final(self).tools@ == old(
                    self,
                ).tools@.remove(i),
            !removed ==> final(self).tools@ == old(self).tools@,
            final(self).resources == old(self).resources,
            final(self).prompts == old(self).prompts,
            final(self).state == old(self).state,
            final(self).info == old(self).info,
    {
        match self.find_tool(name) {
            Some(i) => {
                self.tools.remove(i);
                proof {
                    assert forall|j: int|
                        0 <= j < self.tools@.len() implies (#[trigger] self.tools@[j]).info.name@
                        != name@ by {
                        if j < i as int {
                            assert(self.tools@[j] == old(self).tools@[j]);
                        } else {
                            assert(self.tools@[j] == old(self).tools@[j + 1]);
                        }
                    }
                }
                true
            },
            None => false,
        }
    }

    /// The registered tool descriptions, in registration order.
    pub fn list_tools(&self) -> (r: Vec<ToolInfo>)
        ensures
            r@.len() == self.tools@.len(),
            forall|i: int|
                0 <= i < r@.len() ==> tool_like(#[trigger] r@[i], self.tools@[i].info),
    {
        let mut out: Vec<ToolInfo> = Vec::new();
        let mut i: usize = 0;
        while i < self.tools.len()
            invariant
                i <= self.tools@.len(),
                out@.len() == i,
                forall|j: int|
                    0 <= j < i ==> tool_like(#[trigger] out@[j], self.tools@[j].info),
            decreases self.tools@.len() - i,
        {
            out.push(self.tools[i].info.clone());
            i = i + 1;
        }
        out
    }

    /// Look the named tool up for an invocation. The index of its catalog
    /// entry comes back exactly when the tool is registered and enabled; a
    /// missing or disabled tool is a tool-not-found error.
    pub fn resolve_tool(&self, name: &str) -> (r: McpResult<usize>)
        requires
            self.wf(),
        ensures
            match r {
                Ok(i) => i < self.tools@.len() && self.tools@[i as int].info.name@ == name@
                    && self.tools@[i as int].enabled,
                Err(e) => e is ToolNotFound && forall|i: int|
                    0 <= i < self.tools@.len() && (#[trigger] self.tools@[i]).info.name@ == name@
                        ==> !self.tools@[i].enabled,
            },
    {
        match self.find_tool(name) {
            Some(i) => {
                if self.tools[i].enabled {
                    Ok(i)
                } else {
                    proof {
                        assert forall|j: int|
                            0 <= j < self.tools@.len() && (#[trigger] self.tools@[j]).info.name@
                                == name@ implies !self.tools@[j].enabled by {
                            if j != i as int {
                                assert(self.tools@[j].info.name@ != self.tools@[
                                    i as int].info.name@);
                            }
                        }
                    }
                    Err(McpError::ToolNotFound("tool is disabled".to_owned()))
                }
            },
            None => Err(McpError::ToolNotFound("no such tool".to_owned())),
        }
    }

    // ========================================================================
    // Resource catalog
    // ========================================================================

    /// Index of the resource with the given URI, if any.
    fn find_resource(&self, uri: &str) -> (r: Option<usize>)
        ensures
            match r {
                Some(i) => i < self.resources@.len() && self.resources@[i as int].uri@ == uri@,
                None => forall|i: int|
                    0 <= i < self.resources@.len() ==> (#[trigger] self.resources@[i]).uri@
                        != uri@,
            },
    {
        let mut i: usize = 0;
        while i < self.resources.len()
            invariant
                i <= self.resources@.len(),
                forall|j: int| 0 <= j < i ==> (#[trigger] self.resources@[j]).uri@ != uri@,
            decreases self.resources@.len() - i,
        {
            if str_eq(self.resources[i].uri.as_str(), uri) {
                return Some(i);
            }
            i = i + 1;
        }
        None
    }

    /// Register a resource under its URI, replacing any resource already
    /// registered under it. Rejected when the URI is empty.
    pub fn add_resource(&mut self, info: ResourceInfo) -> (r: McpResult<()>)
        requires
            old(self).wf(),
        ensures
            final(self).wf(),
            r is Ok <==> info.uri@.len() > 0,
            r is Err ==> *final(self) == *old(self) && r matches Err(McpError::InvalidParams(_)),
            r is Ok ==> final(self).has_resource(info.uri@),
            r is Ok ==> {
                ||| exists|i: int|
                    0 <= i < old(self).resources@.len() && (#[trigger] old(
                        self,
                    ).resources@[i]).uri@ == info.uri@ && final(self).resources@ == old(
                        self,
                    ).resources@.update(i, info)
                ||| (!old(self).has_resource(info.uri@) && final(self).resources@ == old(
                    self,
                ).resources@.push(info))
            },
            final(self).tools == old(self).tools,
            final(self).prompts == old(self).prompts,
            final(self).state == old(self).state,
            final(self).info == old(self).info,
    {
        match validate_resource_info(&info) {
            Ok(_) => {},
            Err(e) => {
                return Err(e);
            },
        }
        match self.find_resource(info.uri.as_str()) {
            Some(i) => {
                self.resources.set(i, info);
                proof {
                    assert(self.resources@[i as int].uri@ == info.uri@);
                }
            },
            None => {
                self.resources.push(info);
                proof {
                    assert(self.resources@[self.resources@.len() - 1].uri@ == info.uri@);
                }
            },
        }
        Ok(())
    }

    /// Drop the resource with the given URI; says whether one was
    /// registered. Afterwards the URI is free.
    pub fn remove_resource(&mut self, uri: &str) -> (removed: bool)
        requires
            old(self).wf(),
        ensures
            final(self).wf(),
            removed == old(self).has_resource(uri@),
            !final(self).has_resource(uri@),
            removed ==> exists|i: int|
                0 <= i < old(self).resources@.len() && final(self).resources@ == old(
                    self,
                ).resources@.remove(i),
            !removed ==> final(self).resources@ == old(self).resources@,
            final(self).tools == old(self).tools,
            final(self).prompts == old(self).prompts,
            final(self).state == old(self).state,
            final(self).info == old(self).info,
    {
        match self.find_resource(uri) {
            Some(i) => {
                self.resources.remove(i);
                proof {
                    assert forall|j: int|
                        0 <= j < self.resources@.len() implies (#[trigger] self.resources@[
                        j]).uri@ != uri@ by {
                        if j < i as int {
                            assert(self.resources@[j] == old(self).resources@[j]);
                        } else {
                            assert(self.resources@[j] == old(self).resources@[j + 1]);
                        }
                    }
                }
                true
            },
            None => false,
        }
    }

    /// The registered resource descriptions, in registration order.
    pub fn list_resources(&self) -> (r: Vec<ResourceInfo>)
        ensures
            r@.len() == self.resources@.len(),
            forall|i: int|
                0 <= i < r@.len() ==> resource_like(#[trigger] r@[i], self.resources@[i]),
    {
        let mut out: Vec<ResourceInfo> = Vec::new();
        let mut i: usize = 0;
        while i < self.resources.len()
            invariant
                i <= self.resources@.len(),
                out@.len() == i,
                forall|j: int|
                    0 <= j < i ==> resource_like(#[trigger] out@[j], self.resources@[j]),
            decreases self.resources@.len() - i,
        {
            out.push(self.resources[i].clone());
            i = i + 1;
        }
        out
    }

    /// Look the resource with the given URI up for a read. Its catalog
    /// index comes back exactly when it is registered; a missing resource
    /// is a resource-not-found error.
    pub fn resolve_resource(&self, uri: &str) -> (r: McpResult<usize>)
        ensures
            match r {
                Ok(i) => i < self.resources@.len() && self.resources@[i as int].uri@ == uri@,
                Err(e) => e is ResourceNotFound && !self.has_resource(uri@),
            },
            r is Ok <==> self.has_resource(uri@),
    {
        match self.find_resource(uri) {
            Some(i) => Ok(i),
            None => Err(McpError::ResourceNotFound(uri.to_owned())),
        }
    }

    // ========================================================================
    // Prompt catalog
    // ========================================================================

    /// Index of the prompt with the given name, if any.
    fn find_prompt(&self, name: &str) -> (r: Option<usize>)
        ensures
            match r {
                Some(i) => i < self.prompts@.len() && self.prompts@[i as int].name@ == name@,
                None => forall|i: int|
                    0 <= i < self.prompts@.len() ==> (#[trigger] self.prompts@[i]).name@ != name@,
            },
    {
        let mut i: usize = 0;
        while i < self.prompts.len()
            invariant
                i <= self.prompts@.len(),
                forall|j: int| 0 <= j < i ==> (#[trigger] self.prompts@[j]).name@ != name@,
            decreases self.prompts@.len() - i,
        {
            if str_eq(self.prompts[i].name.as_str(), name) {
                return Some(i);
            }
            i = i + 1;
        }
        None
    }

    /// Register a prompt under its name, replacing any prompt already
    /// registered under it. Rejected when the name is empty.
    pub fn add_prompt(&mut self, info: PromptInfo) -> (r: McpResult<()>)
        requires
            old(self).wf(),
        ensures
            final(self).wf(),
            r is Ok <==> info.name@.len() > 0,
            r is Err ==> *final(self) == *old(self) && r matches Err(McpError::InvalidParams(_)),
            r is Ok ==> final(self).has_prompt(info.name@),
            r is Ok ==> {
                ||| exists|i: int|
                    0 <= i < old(self).prompts@.len() && (#[trigger] old(
                        self,
                    ).prompts@[i]).name@ == info.name@ && final(self).prompts@ == old(
                        self,
                    ).prompts@.update(i, info)
                ||| (!old(self).has_prompt(info.name@) && final(self).prompts@ == old(
                    self,
                ).prompts@.push(info))
            },
            final(self).tools == old(self).tools,
            final(self).resources == old(self).resources,
            final(self).state == old(self).state,
            final(self).info == old(self).info,
    {
        match validate_prompt_info(&info) {
            Ok(_) => {},
            Err(e) => {
                return Err(e);
            },
        }
        match self.find_prompt(info.name.as_str()) {
            Some(i) => {
                self.prompts.set(i, info);
                proof {
                    assert(self.prompts@[i as int].name@ == info.name@);
                }
            },
            None => {
                self.prompts.push(info);
                proof {
                    assert(self.prompts@[self.prompts@.len() - 1].name@ == info.name@);
                }
            },
        }
        Ok(())
    }

    /// Drop the prompt with the given name; says whether one was
    /// registered. Afterwards the name is free.
    pub fn remove_prompt(&mut self, name: &str) -> (removed: bool)
        requires
            old(self).wf(),
        ensures
            final(self).wf(),
            removed == old(self).has_prompt(name@),
            !final(self).has_prompt(name@),
            removed ==> exists|i: int|
                0 <= i < old(self).prompts@.len() && final(self).prompts@ == old(
                    self,
                ).prompts@.remove(i),
            !removed ==> final(self).prompts@ == old(self).prompts@,
            final(self).tools == old(self).tools,
            final(self).resources == old(self).resources,
            final(self).state == old(self).state,
            final(self).info == old(self).info,
    {
        match self.find_prompt(name) {
            Some(i) => {
                self.prompts.remove(i);
                proof {
                    assert forall|j: int|
                        0 <= j < self.prompts@.len() implies (#[trigger] self.prompts@[j]).name@
                        != name@ by {
                        if j < i as int {
                            assert(self.prompts@[j] == old(self).prompts@[j]);
                        } else {
                            assert(self.prompts@[j] == old(self).prompts@[j + 1]);
                        }
                    }
                }
                true
            },
            None => false,
        }
    }

    /// The registered prompt descriptions, in registration order.
    pub fn list_prompts(&self) -> (r: Vec<PromptInfo>)
        ensures
            r@.len() == self.prompts@.len(),
            forall|i: int|
                0 <= i < r@.len() ==> prompt_like(#[trigger] r@[i], self.prompts@[i]),
    {
        let mut out: Vec<PromptInfo> = Vec::new();
        let mut i: usize = 0;
        while i < self.prompts.len()
            invariant
                i <= self.prompts@.len(),
                out@.len() == i,
                forall|j: int| 0 <= j < i ==> prompt_like(#[trigger] out@[j], self.prompts@[j]),
            decreases self.prompts@.len() - i,
        {
            out.push(self.prompts[i].clone());
            i = i + 1;
        }
        out
    }

    /// Look the named prompt up for a retrieval. Its catalog index comes
    /// back exactly when it is registered; a missing prompt is a
    /// prompt-not-found error.
    pub fn resolve_prompt(&self, name: &str) -> (r: McpResult<usize>)
        ensures
            match r {
                Ok(i) => i < self.prompts@.len() && self.prompts@[i as int].name@ == name@,
                Err(e) => e is PromptNotFound && !self.has_prompt(name@),
            },
            r is Ok <==> self.has_prompt(name@),
    {
        match self.find_prompt(name) {
            Some(i) => Ok(i),
            None => Err(McpError::PromptNotFound(name.to_owned())),
        }
    }

    // ========================================================================
    // Runtime state
    // ========================================================================

    /// The current runtime state.
    pub fn state(&self) -> (r: ServerState)
        ensures
            r == self.state,
    {
        self.state
    }

    /// Whether the server is accepting requests.
    pub fn is_running(&self) -> (r: bool)
        ensures
            r == (self.state is Running),
    {
        match self.state {
            ServerState::Running => true,
            _ => false,
        }
    }

    /// Begin starting: allowed before the first start and again after a
    /// stop. Starting in any other state is rejected with an error value,
    /// never a panic.
    pub fn begin_start(&mut self) -> (r: McpResult<()>)
        ensures
            server_edge(old(self).state, final(self).state),
            r is Ok <==> (old(self).state is Uninitialized || old(self).state is Stopped),
            r is Ok ==> final(self).state is Initializing,
            r is Err ==> *final(self) == *old(self) && r matches Err(
                McpError::ProtocolViolation(_),
            ),
            final(self).tools == old(self).tools,
            final(self).resources == old(self).resources,
            final(self).prompts == old(self).prompts,
            final(self).info == old(self).info,
            final(self).capabilities == old(self).capabilities,
            final(self).config == old(self).config,
    {
        match self.state {
            ServerState::Uninitialized => {
                self.state = ServerState::Initializing;
                Ok(())
            },
            ServerState::Stopped => {
                self.state = ServerState::Initializing;
                Ok(())
            },
            _ => Err(McpError::ProtocolViolation("server is already started".to_owned())),
        }
    }

    /// Record that the transport came up: the server is now running.
    pub fn finish_start(&mut self)
        requires
            old(self).state is Initializing,
        ensures
            server_edge(old(self).state, final(self).state),
            final(self).state is Running,
            final(self).tools == old(self).tools,
            final(self).resources == old(self).resources,
            final(self).prompts == old(self).prompts,
            final(self).info == old(self).info,
            final(self).capabilities == old(self).capabilities,
            final(self).config == old(self).config,
    {
        self.state = ServerState::Running;
    }

    /// Begin stopping: allowed while running; stopping an already stopped
    /// server is a no-op. Anything else is rejected with an error value,
    /// never a panic — stopping a server that was never started is such a
    /// case.
    pub fn begin_stop(&mut self) -> (r: McpResult<()>)
        ensures
            server_edge(old(self).state, final(self).state),
            r is Ok <==> (old(self).state is Running || old(self).state is Stopped),
            old(self).state is Running ==> final(self).state is Stopping,
            old(self).state is Stopped ==> final(self).state is Stopped,
            r is Err ==> *final(self) == *old(self) && r matches Err(
                McpError::ProtocolViolation(_),
            ),
            final(self).tools == old(self).tools,
            final(self).resources == old(self).resources,
            final(self).prompts == old(self).prompts,
            final(self).info == old(self).info,
            final(self).capabilities == old(self).capabilities,
            final(self).config == old(self).config,
    {
        match self.state {
            ServerState::Running => {
                self.state = ServerState::Stopping;
                Ok(())
            },
            ServerState::Stopped => Ok(()),
            _ => Err(McpError::ProtocolViolation("server is not running".to_owned())),
        }
    }

    /// Record that the transport shut down: the server is now stopped.
    pub fn finish_stop(&mut self)
        requires
            old(self).state is Stopping,
        ensures
            server_edge(old(self).state, final(self).state),
            final(self).state is Stopped,
            final(self).tools == old(self).tools,
            final(self).resources == old(self).resources,
            final(self).prompts == old(self).prompts,
            final(self).info == old(self).info,
            final(self).capabilities == old(self).capabilities,
            final(self).config == old(self).config,
    {
        self.state = ServerState::Stopped;
    }
}

} // verus!
