//! The payloads that ask for a reply.

use vstd::prelude::*;
use crate::json::{empty_object, set_field, u64_value, Json, JsonNumber};
use crate::payload::{
    has_no_params, lemma_tag_reading_ignores_other_fields, lemma_tagged_reads_back, method_of,
    params_of, read_method, read_params, read_usize, tagged, usize_field, without_params,
    write_tagged, Payload, PayloadError,
};
use crate::strings::str_eq;

verus! {

/// A request.
#[derive(Debug, Clone, Copy, PartialEq, Eq)]
pub enum MyRequests {
    /// Asks for the item at `index`. On the wire: `"method": "item_at_index"`
    /// and `"params": {"index": ...}`.
    ItemAtIndex { index: usize },
    /// Asks for the number of items. On the wire: `"method": "length"`, with
    /// `params` left out; a `params` of `null` is read as none.
    Length,
}

impl Payload for MyRequests {
    type Model = MyRequests;

    open spec fn model(&self) -> MyRequests {
        *self
    }

    open spec fn encoding(m: MyRequests) -> Result<Json, PayloadError> {
        Ok(
            match m {
                MyRequests::ItemAtIndex { index } => tagged(
                    "item_at_index"@,
                    Some(Json::Object(map!["index"@ => Json::Number(JsonNumber::PosInt(index as u64))])),
                ),
                MyRequests::Length => tagged("length"@, None),
            },
        )
    }

    open spec fn decoding(j: Json) -> Result<MyRequests, PayloadError> {
        match method_of(j) {
            Ok(name) => if name == "item_at_index"@ {
                match params_of(j) {
                    Ok(params) => match usize_field(params, "index"@) {
                        Ok(index) => Ok(MyRequests::ItemAtIndex { index }),
                        Err(e) => Err(e),
                    },
                    Err(e) => Err(e),
                }
            } else if name == "length"@ {
                if without_params(j) {
                    Ok(MyRequests::Length)
                } else {
                    Err(PayloadError::InvalidParams)
                }
            } else {
                Err(PayloadError::UnknownMethod)
            },
            Err(e) => Err(e),
        }
    }

    fn to_value(&self) -> (r: Result<serde_json::Value, PayloadError>) {
        match *self {
            MyRequests::ItemAtIndex { index } => {
                let mut params = empty_object();
                set_field(&mut params, "index", u64_value(index as u64));
                Ok(write_tagged("item_at_index", Some(params)))
            },
            MyRequests::Length => Ok(write_tagged("length", None)),
        }
    }

    fn from_value(v: &serde_json::Value) -> (r: Result<Self, PayloadError>) {
        let name = match read_method(v) {
            Ok(name) => name,
            Err(e) => {
                return Err(e);
            },
        };
        if str_eq(name, "item_at_index") {
            let params = match read_params(v) {
                Ok(params) => params,
                Err(e) => {
                    return Err(e);
                },
            };
            match read_usize(params, "index") {
                Ok(index) => Ok(MyRequests::ItemAtIndex { index }),
                Err(e) => Err(e),
            }
        } else if str_eq(name, "length") {
            if has_no_params(v) {
                Ok(MyRequests::Length)
            } else {
                Err(PayloadError::InvalidParams)
            }
        } else {
            Err(PayloadError::UnknownMethod)
        }
    }
}

/// The names of the two requests are different strings.
pub proof fn lemma_request_names_differ()
    ensures
        "item_at_index"@ != "length"@,
{
    reveal_strlit("item_at_index");
    reveal_strlit("length");
    assert("item_at_index"@.len() == 13);
    assert("length"@.len() == 6);
}

/// Every request encodes to an object without an `id` field, and decodes
/// from that object to itself.
pub proof fn lemma_requests_round_trip(r: MyRequests)
    ensures
        MyRequests::encoding(r) is Ok,
        MyRequests::encoding(r)->Ok_0 is Object,
        MyRequests::encoding(r)->Ok_0.field("id"@) is None,
        MyRequests::decoding(MyRequests::encoding(r)->Ok_0) == Ok::<MyRequests, PayloadError>(r),
{
    lemma_request_names_differ();
    match r {
        MyRequests::ItemAtIndex { index } => {
            let params = Json::Object(
                map!["index"@ => Json::Number(JsonNumber::PosInt(index as u64))],
            );
            lemma_tagged_reads_back("item_at_index"@, Some(params));
        },
        MyRequests::Length => {
            lemma_tagged_reads_back("length"@, None);
        },
    }
}

/// Decoding a request passes over every field but `method` and `params`.
pub proof fn lemma_requests_ignore_other_fields(j: Json, key: Seq<char>, x: Json)
    requires
        j is Object,
        key != "method"@,
        key != "params"@,
    ensures
        MyRequests::decoding(j.with_field(key, x)) == MyRequests::decoding(j),
{
    lemma_tag_reading_ignores_other_fields(j, key, x);
}

} // verus!
