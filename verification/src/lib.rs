//! Client/server SDK runtime for a JSON-RPC 2.0 remote-invocation protocol.
//!
//! The crate verifies the parts of the runtime that decide and compute: the
//! request/response correlation table, the client connection state machine
//! with its reconnect and heartbeat policy, the notification dispatcher, the
//! server-side request router and peer registry, and the server lifecycle.
//! Transports perform I/O outside the library and hand plain values in.

use vstd::prelude::*;

pub mod client;
pub mod correlation;
pub mod dispatch;
pub mod error;
pub mod jsonval;
pub mod lifecycle;
pub mod messages;
pub mod methods;
pub mod registry;
pub mod router;
pub mod server;
pub mod session;
pub mod tool;
pub mod transport;
pub mod types;
pub mod validation;

verus! {

/// Protocol revision implemented by this crate.
pub const LATEST_PROTOCOL_VERSION: &'static str = "2025-03-26";

/// JSON-RPC version carried by every message envelope.
pub const JSONRPC_VERSION: &'static str = "2.0";

/// Protocol revision under the name older callers use.
pub const PROTOCOL_VERSION: &'static str = LATEST_PROTOCOL_VERSION;

} // verus!
