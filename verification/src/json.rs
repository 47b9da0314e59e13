//! The boundary to `serde_json`: payloads are parsed there, and the parsed
//! documents travel through the store as opaque values.

use vstd::prelude::*;

verus! {

/// A parsed JSON document. Its inside is not visible to proofs.
#[verifier::external_type_specification]
#[verifier::external_body]
pub struct ExValue(serde_json::Value);

/// What the bytes of a payload turn out to be.
pub enum Parsed {
    /// The bytes are no JSON document.
    Invalid,
    /// The bytes are the JSON document `null`.
    Null,
    /// The bytes are any other JSON document.
    Document(serde_json::Value),
}

/// What `serde_json::from_slice` makes of `bytes` when asked for a
/// `serde_json::Value`.
pub uninterp spec fn parsed_json(bytes: Seq<u8>) -> Parsed;

/// Calls `serde_json::from_slice::<serde_json::Value>`. The contract claims
/// only that the outcome is a function of the bytes: an error gives
/// `Invalid`, the value `Null` gives `Null`, any other value is handed on.
#[verifier::external_body]
pub(crate) fn parse_json(bytes: &[u8]) -> (r: Parsed)
    ensures
        r == parsed_json(bytes@),
{
    match serde_json::from_slice::<serde_json::Value>(bytes) {
        Err(_) => Parsed::Invalid,
        Ok(serde_json::Value::Null) => Parsed::Null,
        Ok(value) => Parsed::Document(value),
    }
}

/// Calls `Clone::clone` of `serde_json::Value`. The contract claims that the
/// copy is the same document.
#[verifier::external_body]
pub(crate) fn clone_json(value: &serde_json::Value) -> (r: serde_json::Value)
    ensures
        r == *value,
{
    value.clone()
}

/// Gives `serde_json::Value::Null`, the body of a request that has none.
/// Nothing is claimed of it.
#[verifier::external_body]
pub(crate) fn null_json() -> (r: serde_json::Value) {
    serde_json::Value::Null
}

} // verus!
