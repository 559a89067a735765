//! Structured values and their mathematical model.
//!
//! The values themselves are `serde_json::Value`. Verified code never looks
//! inside one: it goes through the small functions of this module, whose
//! contracts are stated over [`Json`], the tree that a value stands for.

use vstd::prelude::*;

verus! {

/// A number as a structured value holds it.
pub enum JsonNumber {
    /// An integer from zero up to `u64::MAX`.
    PosInt(u64),
    /// An integer below zero, down to `i64::MIN`.
    NegInt(i64),
    /// Any other number, given by the 64 bits of its binary form.
    Other(u64),
}

/// The tree that a structured value stands for.
pub enum Json {
    /// `null`.
    Null,
    /// `true` or `false`.
    Bool(bool),
    /// A number.
    Number(JsonNumber),
    /// A string, by its characters.
    String(Seq<char>),
    /// An array, by its elements in order.
    Array(Seq<Json>),
    /// An object, by its fields: each key once, with the value under it.
    Object(Map<Seq<char>, Json>),
}

impl Json {
    /// The value under `key`, where `self` is an object that has that key.
    pub open spec fn field(self, key: Seq<char>) -> Option<Json> {
        match self {
            Json::Object(fields) => if fields.contains_key(key) {
                Some(fields[key])
            } else {
                None
            },
            _ => None,
        }
    }

    /// The integer that `self` holds, where it is a number from zero up to
    /// `u64::MAX` written without fraction or exponent.
    pub open spec fn unsigned(self) -> Option<u64> {
        match self {
            Json::Number(JsonNumber::PosInt(n)) => Some(n),
            _ => None,
        }
    }

    /// `self` with `value` put under `key`, replacing what was there.
    pub open spec fn with_field(self, key: Seq<char>, value: Json) -> Json
        recommends
            self is Object,
    {
        Json::Object(self->Object_0.insert(key, value))
    }
}

/// `serde_json::Value`, a structured value. Nothing inside it is visible to
/// verified code.
#[verifier::external_type_specification]
#[verifier::external_body]
pub struct ExValue(serde_json::Value);

/// `serde_json::Error`, what `serde_json` says of a text that it refuses.
#[verifier::external_type_specification]
#[verifier::external_body]
pub struct ExError(serde_json::Error);

/// The tree that `v` stands for: its variant, and with it the boolean, the
/// number, the characters, the elements or the fields that it holds. Nothing
/// is proved of this function; the functions below say, one by one, how
/// `serde_json`'s own operations read and build the tree.
pub uninterp spec fn json_of(v: serde_json::Value) -> Json;

/// The tree that `serde_json::from_str` reads from `text`, or `None` where it
/// refuses the text. Which texts it takes, and as which trees, is
/// `serde_json`'s business and is stated nowhere in this crate: the name says
/// only that the outcome is settled by the text.
pub uninterp spec fn json_text(text: Seq<char>) -> Option<Json>;

/// `serde_json::from_str` at `serde_json::Value`: reads one structured value
/// from JSON text. The contract gives the outcome its name and claims no
/// more.
#[verifier::external_body]
pub(crate) fn parse(text: &str) -> (r: Result<serde_json::Value, serde_json::Error>)
    ensures
        match r {
            Ok(v) => json_text(text@) == Some(json_of(v)),
            Err(_) => json_text(text@) is None,
        },
{
    serde_json::from_str::<serde_json::Value>(text)
}

/// `serde_json::Value::is_object`: whether the value is an object.
#[verifier::external_body]
pub(crate) fn is_object(v: &serde_json::Value) -> (b: bool)
    ensures
        b == (json_of(*v) is Object),
{
    v.is_object()
}

/// `serde_json::Value::get` with a string key: the value under `key` where
/// `v` is an object that has the key, `None` in every other case.
#[verifier::external_body]
pub(crate) fn get_field<'a>(v: &'a serde_json::Value, key: &str) -> (r: Option<&'a serde_json::Value>)
    ensures
        match r {
            Some(x) => json_of(*v).field(key@) == Some(json_of(*x)),
            None => json_of(*v).field(key@) is None,
        },
{
    v.get(key)
}

/// `serde_json::Value::is_null`: whether the value is `null`.
#[verifier::external_body]
pub(crate) fn is_null(v: &serde_json::Value) -> (b: bool)
    ensures
        b == (json_of(*v) is Null),
{
    v.is_null()
}

/// `serde_json::Value::as_u64`: the integer, where the value is a number
/// held as an unsigned 64-bit integer; `None` for a negative or fractional
/// number and for every value that is no number.
#[verifier::external_body]
pub(crate) fn as_u64(v: &serde_json::Value) -> (r: Option<u64>)
    ensures
        r == json_of(*v).unsigned(),
{
    v.as_u64()
}

/// `serde_json::Value::as_str`: the characters, where the value is a string.
#[verifier::external_body]
pub(crate) fn as_str<'a>(v: &'a serde_json::Value) -> (r: Option<&'a str>)
    ensures
        match r {
            Some(s) => json_of(*v) == Json::String(s@),
            None => !(json_of(*v) is String),
        },
{
    v.as_str()
}

/// `serde_json::Value`'s `clone`: a value that stands for the same tree.
pub assume_specification[ <serde_json::Value as Clone>::clone ](v: &serde_json::Value) -> (r:
    serde_json::Value)
    ensures
        json_of(r) == json_of(*v),
;

/// `serde_json::Value::from` at `u64`: the number `n`, held as an unsigned
/// integer.
#[verifier::external_body]
pub(crate) fn u64_value(n: u64) -> (r: serde_json::Value)
    ensures
        json_of(r) == Json::Number(JsonNumber::PosInt(n)),
{
    serde_json::Value::from(n)
}

/// `serde_json::Value::from` at `&str`: the string with the characters of `s`.
#[verifier::external_body]
pub(crate) fn str_value(s: &str) -> (r: serde_json::Value)
    ensures
        json_of(r) == Json::String(s@),
{
    serde_json::Value::from(s)
}

/// `serde_json::Map::new`, as a value: the object without fields.
#[verifier::external_body]
pub(crate) fn empty_object() -> (r: serde_json::Value)
    ensures
        json_of(r) == Json::Object(Map::empty()),
{
    serde_json::Value::Object(serde_json::Map::new())
}

/// Assignment through `serde_json::Value`'s index operator with a string key:
/// on an object it puts `x` under `key`, replacing what was there, and
/// leaves the other fields as they were. On a value that is neither an
/// object nor `null` the operator panics, so objects alone are admitted.
#[verifier::external_body]
pub(crate) fn set_field(v: &mut serde_json::Value, key: &str, x: serde_json::Value)
    requires
        json_of(*old(v)) is Object,
    ensures
        json_of(*final(v)) == json_of(*old(v)).with_field(key@, json_of(x)),
{
    v[key] = x;
}

} // verus!
