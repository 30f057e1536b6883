//! Opaque JSON values.
//!
//! JSON values travel through the gateway without being interpreted:
//! request parameters are handed to handlers as they arrived, handler
//! results and watcher payloads are carried to the wire unchanged. The
//! gateway therefore treats `serde_json::Value` as an opaque value.

use vstd::prelude::*;

verus! {

/// Declares `serde_json::Value` so that it can stand in signatures and
/// fields. The type stays opaque: nothing inside a value is visible to a
/// contract, which matches how the gateway handles it.
#[verifier::external_type_specification]
#[verifier::external_body]
pub struct ExValue(serde_json::Value);

/// Relies on `<serde_json::Value as Clone>::clone`: the derived clone
/// rebuilds the same tree node by node, so the copy equals the original.
pub assume_specification[ <serde_json::Value as Clone>::clone ](
    v: &serde_json::Value,
) -> (r: serde_json::Value)
    ensures
        r == *v,
;

} // verus!
