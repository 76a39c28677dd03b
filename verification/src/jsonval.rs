//! Declaration of the JSON value type that method parameters and results are
//! carried in.
//!
//! The runtime never inspects a parameter or result payload: it correlates,
//! routes and envelopes them. The payload type is therefore declared opaque
//! and carried through unchanged; encoding and decoding happen outside the
//! library.

use vstd::prelude::*;

verus! {

/// Relies on serde_json::Value being an ordinary owned JSON tree; the runtime
/// only moves and clones values of it.
#[verifier::external_type_specification]
#[verifier::external_body]
pub struct ExValue(serde_json::Value);

/// Relies on serde_json::Value's derived Clone: a clone is equal to the
/// original tree.
pub assume_specification[ <serde_json::Value as Clone>::clone ](v: &serde_json::Value) -> (r:
    serde_json::Value)
    ensures
        r == *v,
;

} // verus!
