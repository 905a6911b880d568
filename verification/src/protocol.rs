//! Serialization strategies: how a value becomes bytes and bytes a value.

use vstd::prelude::*;

verus! {

/// `serde_json::Value`, a JSON tree, carried as an opaque value.
#[verifier::external_type_specification]
#[verifier::external_body]
pub struct ExJsonValue(serde_json::Value);

/// `serde_json::Error`, carried as an opaque value.
#[verifier::external_type_specification]
#[verifier::external_body]
pub struct ExJsonError(serde_json::Error);

/// The JSON text that `serde_json::to_vec` writes for a tree, or `None`
/// where it reports an error.
pub uninterp spec fn json_encoding(value: serde_json::Value) -> Option<Seq<u8>>;

/// The tree that `serde_json::from_slice` reads from bytes, or `None` where
/// it rejects them.
pub uninterp spec fn json_decoding(data: Seq<u8>) -> Option<serde_json::Value>;

/// A serialization strategy.
///
/// Both directions are deterministic: `encoding` and `decoding` say, for each
/// input, whether the strategy accepts it and what it then yields. An
/// implementation's `serialize` and `deserialize` compute exactly these.
pub trait Protocol {
    /// The values the strategy carries.
    type Value;

    /// What the strategy reports when it rejects an input.
    type Error;

    /// The bytes of a value, `None` where the value cannot be serialized.
    spec fn encoding(&self, value: Self::Value) -> Option<Seq<u8>>;

    /// The value that bytes stand for, `None` where they are malformed.
    spec fn decoding(&self, data: Seq<u8>) -> Option<Self::Value>;

    /// Serializes a value.
    fn serialize(&self, obj: &Self::Value) -> (r: Result<Vec<u8>, Self::Error>)
        ensures
            match r {
                Ok(bytes) => self.encoding(*obj) == Some(bytes@),
                Err(_) => self.encoding(*obj) is None,
            },
    ;

    /// Deserializes a value; malformed bytes are rejected, never coerced.
    fn deserialize(&self, data: &[u8]) -> (r: Result<Self::Value, Self::Error>)
        ensures
            match r {
                Ok(value) => self.decoding(data@) == Some(value),
                Err(_) => self.decoding(data@) is None,
            },
    ;
}

/// The JSON strategy over dynamically typed trees.
#[derive(Debug, Clone, Copy)]
pub struct JsonProtocol;

impl Protocol for JsonProtocol {
    type Value = serde_json::Value;

    type Error = serde_json::Error;

    open spec fn encoding(&self, value: serde_json::Value) -> Option<Seq<u8>> {
        json_encoding(value)
    }

    open spec fn decoding(&self, data: Seq<u8>) -> Option<serde_json::Value> {
        json_decoding(data)
    }

    fn serialize(&self, obj: &serde_json::Value) -> (r: Result<Vec<u8>, serde_json::Error>) {
        json_to_vec(obj)
    }

    fn deserialize(&self, data: &[u8]) -> (r: Result<serde_json::Value, serde_json::Error>) {
        json_from_slice(data)
    }
}

/// Calls `serde_json::to_vec` on a tree. Trusted: the bytes returned are those
/// that `json_encoding` names for the tree, and an error comes exactly where
/// `json_encoding` is `None`.
#[verifier::external_body]
fn json_to_vec(value: &serde_json::Value) -> (r: Result<Vec<u8>, serde_json::Error>)
    ensures
        match r {
            Ok(bytes) => json_encoding(*value) == Some(bytes@),
            Err(_) => json_encoding(*value) is None,
        },
{
    serde_json::to_vec(value)
}

/// Calls `serde_json::from_slice` for a tree. Trusted: the tree returned is
/// the one that `json_decoding` names for the bytes, and an error comes
/// exactly where `json_decoding` is `None`.
#[verifier::external_body]
fn json_from_slice(data: &[u8]) -> (r: Result<serde_json::Value, serde_json::Error>)
    ensures
        match r {
            Ok(value) => json_decoding(data@) == Some(value),
            Err(_) => json_decoding(data@) is None,
        },
{
    serde_json::from_slice(data)
}

} // verus!
