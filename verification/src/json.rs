//! Values of a rendering context, which this crate makes and passes on
//! without reading them.

use vstd::prelude::*;

verus! {

/// `serde_json::Value`, a value of a rendering context.
#[verifier::external_type_specification]
#[verifier::external_body]
pub struct ExJson(serde_json::Value);

/// What a context value holds, as mathematics.
pub enum Json {
    Null,
    Bool(bool),
    /// A whole number.
    Integer(int),
    /// A binary64 number that is not stored as a whole number, by its bits.
    Float(u64),
    String(Seq<char>),
    Array(Seq<Json>),
    Object(Map<Seq<char>, Json>),
}

/// What the context value `v` holds.
pub uninterp spec fn json_model(v: serde_json::Value) -> Json;

/// What each context value of `items` holds, in order.
pub open spec fn json_models(items: Seq<serde_json::Value>) -> Seq<Json> {
    Seq::new(items.len(), |i: int| json_model(items[i]))
}

/// `serde_json::Value::from` on a string slice: the string of that text.
#[verifier::external_body]
pub(crate) fn json_text(s: &str) -> (v: serde_json::Value)
    ensures
        json_model(v) == Json::String(s@),
{
    serde_json::Value::from(s)
}

/// `serde_json::Value::from` on a `u8`: that whole number.
#[verifier::external_body]
pub(crate) fn json_seat(n: u8) -> (v: serde_json::Value)
    ensures
        json_model(v) == Json::Integer(n as int),
{
    serde_json::Value::from(n)
}

/// `serde_json::Value::from` on a slice of values: the array of copies of
/// them, in order.
#[verifier::external_body]
pub(crate) fn json_list(items: &[serde_json::Value]) -> (v: serde_json::Value)
    ensures
        json_model(v) == Json::Array(json_models(items@)),
{
    serde_json::Value::from(items)
}

} // verus!
