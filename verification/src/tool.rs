//! Registered tools: a catalog entry pairing a tool description with an
//! enabled flag, plus a builder and the stock example tools.
//!
//! The code a tool runs when invoked lives with the host that registered
//! it; the catalog decides whether an invocation may go ahead.

use vstd::prelude::*;
use crate::error::{McpError, McpResult};
use crate::types::{ToolInfo, ToolInputSchema};

verus! {

/// One registered tool: its description and whether it may be invoked.
#[derive(Debug)]
pub struct Tool {
    /// Description of the tool.
    pub info: ToolInfo,
    /// Whether invocations are currently allowed.
    pub enabled: bool,
}

impl Tool {
    /// Register a tool; it starts out enabled.
    pub fn new(info: ToolInfo) -> (r: Self)
        ensures
            r.info == info,
            r.enabled,
    {
        Tool { info, enabled: true }
    }

    /// Allow invocations.
    pub fn enable(&mut self)
        ensures
            final(self).enabled,
            final(self).info == old(self).info,
    {
        self.enabled = true;
    }

    /// Forbid invocations.
    pub fn disable(&mut self)
        ensures
            !final(self).enabled,
            final(self).info == old(self).info,
    {
        self.enabled = false;
    }

    /// Whether invocations are currently allowed.
    pub fn is_enabled(&self) -> (r: bool)
        ensures
            r == self.enabled,
    {
        self.enabled
    }

    /// Whether this tool may run now; a disabled tool refuses with a
    /// params-validation error naming the problem. (The server catalog
    /// layer instead reports a disabled tool as not found — each layer
    /// keeps its own refusal kind.)
    pub fn check_invocable(&self) -> (r: McpResult<()>)
        ensures
            r is Ok <==> self.enabled,
            r is Err ==> r matches Err(McpError::InvalidParams(_)),
    {
        if self.enabled {
            Ok(())
        } else {
            Err(McpError::InvalidParams("tool is disabled".to_owned()))
        }
    }
}

/// Builder for a registered tool.
#[derive(Debug)]
pub struct ToolBuilder {
    /// Name the tool will carry.
    pub name: String,
    /// Description the tool will carry.
    pub description: Option<String>,
    /// Input schema the tool will carry; an empty object schema when left
    /// unset.
    pub input_schema: Option<ToolInputSchema>,
}

impl ToolBuilder {
    /// A builder for a tool with the given name.
    pub fn new(name: &str) -> (r: Self)
        ensures
            r.name@ == name@,
            r.description is None,
            r.input_schema is None,
    {
        ToolBuilder { name: name.to_owned(), description: None, input_schema: None }
    }

    /// Set the description.
    pub fn description(self, description: &str) -> (r: Self)
        ensures
            r.name == self.name,
            r.description matches Some(d) && d@ == description@,
            r.input_schema == self.input_schema,
    {
        ToolBuilder { description: Some(description.to_owned()), ..self }
    }

    /// Set the input schema.
    pub fn schema(self, schema: ToolInputSchema) -> (r: Self)
        ensures
            r.name == self.name,
            r.description == self.description,
            r.input_schema == Some(schema),
    {
        ToolBuilder { input_schema: Some(schema), ..self }
    }

    /// Build the registered tool; it starts out enabled.
    pub fn build(self) -> (r: Tool)
        ensures
            r.enabled,
            r.info.name == self.name,
            r.info.description == self.description,
            self.input_schema matches Some(s) ==> r.info.input_schema == s,
            self.input_schema is None ==> r.info.input_schema.schema_type@ == "object"@
                && r.info.input_schema.properties is None && r.info.input_schema.required is None,
            r.info.annotations is None,
    {
        let input_schema = match self.input_schema {
            Some(s) => s,
            None => ToolInputSchema {
                schema_type: "object".to_owned(),
                properties: None,
                required: None,
            },
        };
        Tool {
            info: ToolInfo {
                name: self.name,
                description: self.description,
                input_schema,
                annotations: None,
            },
            enabled: true,
        }
    }
}

/// The reply the echo tool computes: the given message, or a fixed greeting
/// when none was given.
pub fn echo_reply(message: Option<&String>) -> (r: String)
    ensures
        match message {
            Some(m) => r@ == m@,
            None => r@ == "Hello, World!"@,
        },
{
    match message {
        Some(m) => m.clone(),
        None => "Hello, World!".to_owned(),
    }
}

/// Echo tool: replies with the message it was given.
#[derive(Debug, Clone, Copy, PartialEq, Eq)]
pub struct EchoTool;

/// Addition tool: replies with the sum of two numbers. The arithmetic runs
/// with the host, on the decoded arguments.
#[derive(Debug, Clone, Copy, PartialEq, Eq)]
pub struct AdditionTool;

/// Timestamp tool: replies with the current time, which only the host can
/// observe.
#[derive(Debug, Clone, Copy, PartialEq, Eq)]
pub struct TimestampTool;

} // verus!
