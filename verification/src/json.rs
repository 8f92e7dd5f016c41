//! JSON texts: the flat objects that the library sends, encoded by
//! `serde_json`.

use vstd::prelude::*;

verus! {

/// A JSON value without structure.
#[derive(Debug, PartialEq, Eq)]
pub enum LYServerJsonScalar {
    Null,
    Bool(bool),
    Unsigned(u64),
    Signed(i64),
    Text(String),
}

/// The mathematical value of a scalar.
pub enum JsonScalarModel {
    Null,
    Bool(bool),
    Unsigned(u64),
    Signed(i64),
    Text(Seq<char>),
}

impl View for LYServerJsonScalar {
    type V = JsonScalarModel;

    open spec fn view(&self) -> JsonScalarModel {
        match self {
            LYServerJsonScalar::Null => JsonScalarModel::Null,
            LYServerJsonScalar::Bool(b) => JsonScalarModel::Bool(*b),
            LYServerJsonScalar::Unsigned(n) => JsonScalarModel::Unsigned(*n),
            LYServerJsonScalar::Signed(n) => JsonScalarModel::Signed(*n),
            LYServerJsonScalar::Text(s) => JsonScalarModel::Text(s@),
        }
    }
}

/// The members of an object as mathematical values, in the order given.
pub open spec fn members_model(members: Seq<(String, LYServerJsonScalar)>) -> Seq<
    (Seq<char>, JsonScalarModel),
> {
    Seq::new(members.len(), |i: int| (members[i].0@, members[i].1@))
}

/// The compact JSON text of the object that holds the given members, each
/// put into the object in the order given, as `serde_json` writes it.
pub uninterp spec fn json_object_text(members: Seq<(Seq<char>, JsonScalarModel)>) -> Seq<char>;

/// Makes `serde_json::Error`, the error of an encoding or decoding, known as
/// a type. Nothing is said of what it holds.
#[verifier::external_type_specification]
#[verifier::external_body]
pub struct ExJsonError(serde_json::Error);

/// Builds a `serde_json::Map` by `insert`, one member after the other, and
/// encodes it with `serde_json::to_string`. The text that comes back is the
/// object's compact JSON text; it depends on the members alone. The encoding
/// succeeds: the encoder fails only where its writer fails or a key is no
/// text, and here it writes into a vector, which takes every byte, and every
/// key is a `String`.
#[verifier::external_body]
pub(crate) fn encode_object(members: &Vec<(String, LYServerJsonScalar)>) -> (r: Result<
    String,
    serde_json::Error,
>)
    ensures
        r is Ok,
        r matches Ok(text) ==> text@ == json_object_text(members_model(members@)),
{
    let mut map = serde_json::Map::new();
    for (key, value) in members.iter() {
        let value = match value {
            LYServerJsonScalar::Null => serde_json::Value::Null,
            LYServerJsonScalar::Bool(b) => serde_json::Value::Bool(*b),
            LYServerJsonScalar::Unsigned(n) => serde_json::Value::from(*n),
            LYServerJsonScalar::Signed(n) => serde_json::Value::from(*n),
            LYServerJsonScalar::Text(s) => serde_json::Value::String(s.clone()),
        };
        map.insert(key.clone(), value);
    }
    serde_json::to_string(&serde_json::Value::Object(map))
}

} // verus!
