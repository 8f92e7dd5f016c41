//! The payload codec's value tree, as far as the library reads it, and the
//! one payload that the library itself encodes.

use vstd::prelude::*;

verus! {

/// A decoded CBOR value. A floating-point number is held by its bit pattern.
#[derive(Debug, PartialEq, Eq)]
pub enum LYServerCborValue {
    Null,
    Bool(bool),
    Integer(i128),
    Float(u64),
    Bytes(Vec<u8>),
    Text(String),
    Array(Vec<LYServerCborValue>),
    /// A map, as its entries in the order of the encoding.
    Table(Vec<(LYServerCborValue, LYServerCborValue)>),
    Tag(u64, Box<LYServerCborValue>),
}

/// The encoding of the CBOR null value: the single byte `0xf6`.
pub open spec fn null_encoding() -> Seq<u8> {
    seq![0xf6u8]
}

/// Calls `serde_cbor::to_vec` on `serde_cbor::Value::Null`. The encoder
/// writes the null value as the one byte `0xf6` into a fresh vector, which
/// cannot fail.
#[verifier::external_body]
pub(crate) fn encode_null() -> (r: Vec<u8>)
    ensures
        r@ == null_encoding(),
{
    serde_cbor::to_vec(&serde_cbor::Value::Null).expect("Failed to serialize event data")
}

} // verus!
