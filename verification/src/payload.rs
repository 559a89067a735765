//! What the envelope asks of a payload type, and the `method` / `params`
//! convention that tagged payloads follow on the wire.

use vstd::prelude::*;
use crate::json::{
    as_str, as_u64, empty_object, get_field, is_null, is_object, json_of, set_field,
    str_value, Json,
};

verus! {

/// Why a structured value is no payload of the type asked for.
#[derive(Debug, Clone, Copy, PartialEq, Eq)]
pub enum PayloadError {
    /// The value is not an object.
    NotObject,
    /// The object has no `method` field.
    MissingMethod,
    /// The `method` field is not a string.
    InvalidMethod,
    /// The `method` field names no variant of the payload type.
    UnknownMethod,
    /// The variant named has fields, and the object has no `params` field.
    MissingParams,
    /// The `params` field has the wrong shape for the variant named: not an
    /// object where the variant has fields, or something other than `null`
    /// where it has none.
    InvalidParams,
    /// A field of the variant named is absent from `params`.
    MissingField,
    /// A field of the variant named is there, with a value of the wrong type
    /// or out of range.
    InvalidField,
}

/// A type that the envelope can carry: it encodes to a structured value and
/// decodes from one.
///
/// An implementation says in `encoding` and `decoding` what its codec does,
/// over trees, and its two executable functions are held to that. A request
/// is decoded from the whole value that came in, so a type meant for requests
/// has to pass over the `id` field that it finds there.
pub trait Payload: Sized {
    /// The mathematical content of a payload.
    type Model;

    /// The content of `self`.
    spec fn model(&self) -> Self::Model;

    /// The tree that a payload encodes to, or why it cannot be encoded.
    spec fn encoding(m: Self::Model) -> Result<Json, PayloadError>;

    /// The payload that a tree decodes to, or why it is refused.
    spec fn decoding(j: Json) -> Result<Self::Model, PayloadError>;

    /// Encodes `self` as a structured value.
    fn to_value(&self) -> (r: Result<serde_json::Value, PayloadError>)
        ensures
            match r {
                Ok(v) => Self::encoding(self.model()) == Ok::<Json, PayloadError>(json_of(v)),
                Err(e) => Self::encoding(self.model()) == Err::<Json, PayloadError>(e),
            },
    ;

    /// Decodes a payload from the whole of `v`.
    fn from_value(v: &serde_json::Value) -> (r: Result<Self, PayloadError>)
        ensures
            match r {
                Ok(p) => Self::decoding(json_of(*v)) == Ok::<Self::Model, PayloadError>(p.model()),
                Err(e) => Self::decoding(json_of(*v)) == Err::<Self::Model, PayloadError>(e),
            },
    ;
}

/// A structured value is a payload as it stands: it encodes to itself, and
/// every value decodes.
impl Payload for serde_json::Value {
    type Model = Json;

    open spec fn model(&self) -> Json {
        json_of(*self)
    }

    open spec fn encoding(m: Json) -> Result<Json, PayloadError> {
        Ok(m)
    }

    open spec fn decoding(j: Json) -> Result<Json, PayloadError> {
        Ok(j)
    }

    fn to_value(&self) -> (r: Result<serde_json::Value, PayloadError>) {
        Ok(self.clone())
    }

    fn from_value(v: &serde_json::Value) -> (r: Result<Self, PayloadError>) {
        Ok(v.clone())
    }
}

/// The name under `method`: the variant that a tagged payload asks for.
pub open spec fn method_of(j: Json) -> Result<Seq<char>, PayloadError> {
    match j {
        Json::Object(fields) => if fields.contains_key("method"@) {
            match fields["method"@] {
                Json::String(name) => Ok(name),
                _ => Err(PayloadError::InvalidMethod),
            }
        } else {
            Err(PayloadError::MissingMethod)
        },
        _ => Err(PayloadError::NotObject),
    }
}

/// The object under `params`, for a variant that has fields.
pub open spec fn params_of(j: Json) -> Result<Json, PayloadError> {
    match j.field("params"@) {
        Some(p) => if p is Object {
            Ok(p)
        } else {
            Err(PayloadError::InvalidParams)
        },
        None => Err(PayloadError::MissingParams),
    }
}

/// Whether `params` is as a variant without fields wants it: absent or `null`.
pub open spec fn without_params(j: Json) -> bool {
    match j.field("params"@) {
        Some(p) => p is Null,
        None => true,
    }
}

/// The unsigned integer under `key` in `params`.
pub open spec fn usize_field(params: Json, key: Seq<char>) -> Result<usize, PayloadError> {
    match params.field(key) {
        Some(x) => match x.unsigned() {
            Some(n) => if n <= usize::MAX {
                Ok(n as usize)
            } else {
                Err(PayloadError::InvalidField)
            },
            None => Err(PayloadError::InvalidField),
        },
        None => Err(PayloadError::MissingField),
    }
}

/// Reads the `method` field of `v`.
pub fn read_method<'a>(v: &'a serde_json::Value) -> (r: Result<&'a str, PayloadError>)
    ensures
        match r {
            Ok(name) => method_of(json_of(*v)) == Ok::<Seq<char>, PayloadError>(name@),
            Err(e) => method_of(json_of(*v)) == Err::<Seq<char>, PayloadError>(e),
        },
{
    if !is_object(v) {
        return Err(PayloadError::NotObject);
    }
    match get_field(v, "method") {
        Some(m) => match as_str(m) {
            Some(name) => Ok(name),
            None => Err(PayloadError::InvalidMethod),
        },
        None => Err(PayloadError::MissingMethod),
    }
}

/// Reads the `params` field of `v` for a variant that has fields.
pub fn read_params<'a>(v: &'a serde_json::Value) -> (r: Result<&'a serde_json::Value, PayloadError>)
    ensures
        match r {
            Ok(p) => params_of(json_of(*v)) == Ok::<Json, PayloadError>(json_of(*p)),
            Err(e) => params_of(json_of(*v)) == Err::<Json, PayloadError>(e),
        },
{
    match get_field(v, "params") {
        Some(p) => if is_object(p) {
            Ok(p)
        } else {
            Err(PayloadError::InvalidParams)
        },
        None => Err(PayloadError::MissingParams),
    }
}

/// Checks the `params` field of `v` for a variant without fields.
pub fn has_no_params(v: &serde_json::Value) -> (b: bool)
    ensures
        b == without_params(json_of(*v)),
{
    match get_field(v, "params") {
        Some(p) => is_null(p),
        None => true,
    }
}

/// Reads the unsigned integer under `key` in `params`.
pub fn read_usize(params: &serde_json::Value, key: &str) -> (r: Result<usize, PayloadError>)
    ensures
        r == usize_field(json_of(*params), key@),
{
    match get_field(params, key) {
        Some(x) => match as_u64(x) {
            Some(n) => if n <= usize::MAX as u64 {
                Ok(n as usize)
            } else {
                Err(PayloadError::InvalidField)
            },
            None => Err(PayloadError::InvalidField),
        },
        None => Err(PayloadError::MissingField),
    }
}

/// The object that a tagged payload encodes to: the variant's name under
/// `method` and, where the variant has fields, their object under `params`.
pub open spec fn tagged(method: Seq<char>, params: Option<Json>) -> Json {
    match params {
        Some(p) => Json::Object(map!["method"@ => Json::String(method), "params"@ => p]),
        None => Json::Object(map!["method"@ => Json::String(method)]),
    }
}

/// Builds the object that a tagged payload encodes to.
pub fn write_tagged(method: &str, params: Option<serde_json::Value>) -> (v: serde_json::Value)
    ensures
        json_of(v) == tagged(
            method@,
            match params {
                Some(p) => Some(json_of(p)),
                None => None,
            },
        ),
{
    let mut v = empty_object();
    set_field(&mut v, "method", str_value(method));
    match params {
        Some(p) => {
            set_field(&mut v, "params", p);
        },
        None => {},
    }
    v
}

/// The field names of the envelope and of tagged payloads are three
/// different strings.
pub proof fn lemma_field_names_differ()
    ensures
        "id"@ != "method"@,
        "id"@ != "params"@,
        "method"@ != "params"@,
{
    reveal_strlit("id");
    reveal_strlit("method");
    reveal_strlit("params");
    assert("id"@.len() == 2);
    assert("method"@.len() == 6);
    assert("params"@.len() == 6);
    assert("method"@[0] != "params"@[0]);
}

/// A tagged payload is read off `method` and `params` alone: a field put
/// under any other key changes neither the method name nor what is found
/// under `params`.
pub proof fn lemma_tag_reading_ignores_other_fields(j: Json, key: Seq<char>, x: Json)
    requires
        j is Object,
        key != "method"@,
        key != "params"@,
    ensures
        method_of(j.with_field(key, x)) == method_of(j),
        params_of(j.with_field(key, x)) == params_of(j),
        without_params(j.with_field(key, x)) == without_params(j),
{
}

/// What was written as a tagged payload reads back: the method name, and the
/// object under `params` where there is one.
pub proof fn lemma_tagged_reads_back(method: Seq<char>, params: Option<Json>)
    ensures
        tagged(method, params) is Object,
        tagged(method, params).field("id"@) is None,
        method_of(tagged(method, params)) == Ok::<Seq<char>, PayloadError>(method),
        tagged(method, params).field("params"@) == params,
{
    lemma_field_names_differ();
}

} // verus!
