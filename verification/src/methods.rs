//! Method name constants of the fixed protocol method namespace.

use vstd::prelude::*;

verus! {

/// Connection handshake request.
pub const INITIALIZE: &'static str = "initialize";

/// Notification that the handshake finished on the client side.
pub const INITIALIZED: &'static str = "notifications/initialized";

/// Liveness probe request.
pub const PING: &'static str = "ping";

/// List the tool catalog.
pub const TOOLS_LIST: &'static str = "tools/list";

/// Invoke one tool.
pub const TOOLS_CALL: &'static str = "tools/call";

/// Notification that the tool catalog changed.
pub const TOOLS_LIST_CHANGED: &'static str = "notifications/tools/list_changed";

/// List the resource catalog.
pub const RESOURCES_LIST: &'static str = "resources/list";

/// List the resource template catalog.
pub const RESOURCES_TEMPLATES_LIST: &'static str = "resources/templates/list";

/// Read one resource.
pub const RESOURCES_READ: &'static str = "resources/read";

/// Subscribe to updates of one resource.
pub const RESOURCES_SUBSCRIBE: &'static str = "resources/subscribe";

/// Cancel a resource subscription.
pub const RESOURCES_UNSUBSCRIBE: &'static str = "resources/unsubscribe";

/// Notification that a subscribed resource changed.
pub const RESOURCES_UPDATED: &'static str = "notifications/resources/updated";

/// Notification that the resource catalog changed.
pub const RESOURCES_LIST_CHANGED: &'static str = "notifications/resources/list_changed";

/// List the prompt catalog.
pub const PROMPTS_LIST: &'static str = "prompts/list";

/// Retrieve one prompt.
pub const PROMPTS_GET: &'static str = "prompts/get";

/// Notification that the prompt catalog changed.
pub const PROMPTS_LIST_CHANGED: &'static str = "notifications/prompts/list_changed";

/// Server-side sampling request.
pub const SAMPLING_CREATE_MESSAGE: &'static str = "sampling/createMessage";

/// List the client's filesystem roots.
pub const ROOTS_LIST: &'static str = "roots/list";

/// Notification that the roots list changed.
pub const ROOTS_LIST_CHANGED: &'static str = "notifications/roots/list_changed";

/// Argument autocompletion request.
pub const COMPLETION_COMPLETE: &'static str = "completion/complete";

/// Set the server's log level.
pub const LOGGING_SET_LEVEL: &'static str = "logging/setLevel";

/// Log message notification.
pub const LOGGING_MESSAGE: &'static str = "notifications/message";

/// Progress notification for a long-running request.
pub const PROGRESS: &'static str = "notifications/progress";

/// Notification that a request was cancelled.
pub const CANCELLED: &'static str = "notifications/cancelled";

} // verus!
