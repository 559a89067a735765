//! The envelope and its codec.
//!
//! On the wire a request is its payload's object with the identifier put
//! under `id`; a notification is its payload as it stands. Decoding looks at
//! `id` alone to tell the two apart.

use vstd::prelude::*;
use crate::json::{
    as_u64, get_field, is_object, json_of, json_text, parse, set_field, u64_value, Json,
    JsonNumber,
};
use crate::payload::{Payload, PayloadError};

verus! {

/// A message: a request, which carries the identifier that its reply will
/// bear, or a notification, which has none.
#[derive(Debug, PartialEq, Eq)]
pub enum JsonRpc<N, R> {
    Request(usize, R),
    Notification(N),
}

/// Why a structured value is no message.
#[derive(Debug, Clone, Copy, PartialEq, Eq)]
pub enum DecodeError {
    /// The value is not an object, so it cannot be asked for an `id`.
    NotObjectShaped,
    /// There is an `id` field, and it is not an unsigned integer that fits
    /// the identifier.
    MalformedIdentifier,
    /// There is an identifier, and the value is no request payload.
    RequestPayloadInvalid(PayloadError),
    /// There is no `id` field, and the value is no notification payload.
    NotificationPayloadInvalid(PayloadError),
}

/// Why a message has no encoding.
#[derive(Debug, Clone, Copy, PartialEq, Eq)]
pub enum EncodeError {
    /// The request's payload could not be encoded.
    RequestPayload(PayloadError),
    /// The notification's payload could not be encoded.
    NotificationPayload(PayloadError),
    /// The request's payload encodes to something other than an object, which
    /// has no place for the identifier.
    RequestNotObject,
}

/// Why a text is no message.
#[derive(Debug, Clone, Copy, PartialEq, Eq)]
pub enum TextError {
    /// The text is not one well-formed JSON value.
    Syntax,
    /// The text is JSON, and the value it holds is no message.
    Decode(DecodeError),
}

impl<N: Payload, R: Payload> View for JsonRpc<N, R> {
    type V = JsonRpc<N::Model, R::Model>;

    open spec fn view(&self) -> JsonRpc<N::Model, R::Model> {
        match *self {
            JsonRpc::Request(id, r) => JsonRpc::Request(id, r.model()),
            JsonRpc::Notification(n) => JsonRpc::Notification(n.model()),
        }
    }
}

/// The tree that an identifier is written as.
pub open spec fn id_json(id: usize) -> Json {
    Json::Number(JsonNumber::PosInt(id as u64))
}

/// The identifier that a tree carries: `Ok(None)` where it is an object
/// without an `id` field, `Ok(Some(id))` where the field holds an unsigned
/// integer in the identifier's range.
pub open spec fn id_of(j: Json) -> Result<Option<usize>, DecodeError> {
    match j {
        Json::Object(fields) => if fields.contains_key("id"@) {
            match fields["id"@].unsigned() {
                Some(n) => if n <= usize::MAX {
                    Ok(Some(n as usize))
                } else {
                    Err(DecodeError::MalformedIdentifier)
                },
                None => Err(DecodeError::MalformedIdentifier),
            }
        } else {
            Ok(None)
        },
        _ => Err(DecodeError::NotObjectShaped),
    }
}

/// The message that a tree decodes to. The identifier alone picks the payload
/// type, and the payload is decoded from the whole tree, `id` included.
pub open spec fn decoded<N: Payload, R: Payload>(j: Json) -> Result<
    JsonRpc<N::Model, R::Model>,
    DecodeError,
> {
    match id_of(j) {
        Ok(Some(id)) => match R::decoding(j) {
            Ok(r) => Ok(JsonRpc::Request(id, r)),
            Err(e) => Err(DecodeError::RequestPayloadInvalid(e)),
        },
        Ok(None) => match N::decoding(j) {
            Ok(n) => Ok(JsonRpc::Notification(n)),
            Err(e) => Err(DecodeError::NotificationPayloadInvalid(e)),
        },
        Err(e) => Err(e),
    }
}

/// The tree that a message encodes to.
pub open spec fn encoded<N: Payload, R: Payload>(m: JsonRpc<N::Model, R::Model>) -> Result<
    Json,
    EncodeError,
> {
    match m {
        JsonRpc::Request(id, r) => match R::encoding(r) {
            Ok(j) => if j is Object {
                Ok(j.with_field("id"@, id_json(id)))
            } else {
                Err(EncodeError::RequestNotObject)
            },
            Err(e) => Err(EncodeError::RequestPayload(e)),
        },
        JsonRpc::Notification(n) => match N::encoding(n) {
            Ok(j) => Ok(j),
            Err(e) => Err(EncodeError::NotificationPayload(e)),
        },
    }
}

/// The message that a text decodes to.
pub open spec fn text_decoded<N: Payload, R: Payload>(text: Seq<char>) -> Result<
    JsonRpc<N::Model, R::Model>,
    TextError,
> {
    match json_text(text) {
        Some(j) => match decoded::<N, R>(j) {
            Ok(m) => Ok(m),
            Err(e) => Err(TextError::Decode(e)),
        },
        None => Err(TextError::Syntax),
    }
}

/// Looks for the identifier of `v` and leaves `v` as it is: `Ok(None)` for
/// an object without an `id` field, the identifier for one whose `id` is an
/// unsigned integer, and an error for every other value.
pub fn peek_id(v: &serde_json::Value) -> (r: Result<Option<usize>, DecodeError>)
    ensures
        r == id_of(json_of(*v)),
{
    if !is_object(v) {
        return Err(DecodeError::NotObjectShaped);
    }
    match get_field(v, "id") {
        Some(x) => match as_u64(x) {
            Some(n) => if n <= usize::MAX as u64 {
                Ok(Some(n as usize))
            } else {
                Err(DecodeError::MalformedIdentifier)
            },
            None => Err(DecodeError::MalformedIdentifier),
        },
        None => Ok(None),
    }
}

impl<N: Payload, R: Payload> JsonRpc<N, R> {
    /// Encodes the message as a structured value. A request is its payload's
    /// object with the identifier put under `id`, in place of whatever the
    /// payload wrote there; a notification is its payload, unchanged. A
    /// payload that fails to encode fails the message, and so does a request
    /// payload that encodes to anything but an object.
    pub fn serialize(&self) -> (r: Result<serde_json::Value, EncodeError>)
        ensures
            match r {
                Ok(v) => encoded::<N, R>(self@) == Ok::<Json, EncodeError>(json_of(v)),
                Err(e) => encoded::<N, R>(self@) == Err::<Json, EncodeError>(e),
            },
    {
        match self {
            JsonRpc::Request(id, r) => match r.to_value() {
                Ok(mut v) => {
                    if is_object(&v) {
                        set_field(&mut v, "id", u64_value(*id as u64));
                        Ok(v)
                    } else {
                        Err(EncodeError::RequestNotObject)
                    }
                },
                Err(e) => Err(EncodeError::RequestPayload(e)),
            },
            JsonRpc::Notification(n) => match n.to_value() {
                Ok(v) => Ok(v),
                Err(e) => Err(EncodeError::NotificationPayload(e)),
            },
        }
    }

    /// Decodes a message from a structured value. The value has to be an
    /// object. With an unsigned integer under `id` it is read as a request
    /// payload, without an `id` field as a notification payload, each time
    /// as a whole; with anything else under `id` it is refused, and no
    /// payload is looked at.
    pub fn deserialize(v: &serde_json::Value) -> (r: Result<Self, DecodeError>)
        ensures
            match r {
                Ok(m) => decoded::<N, R>(json_of(*v)) == Ok::<JsonRpc<N::Model, R::Model>, DecodeError>(m@),
                Err(e) => decoded::<N, R>(json_of(*v)) == Err::<JsonRpc<N::Model, R::Model>, DecodeError>(e),
            },
    {
        match peek_id(v) {
            Ok(Some(id)) => match R::from_value(v) {
                Ok(r) => Ok(JsonRpc::Request(id, r)),
                Err(e) => Err(DecodeError::RequestPayloadInvalid(e)),
            },
            Ok(None) => match N::from_value(v) {
                Ok(n) => Ok(JsonRpc::Notification(n)),
                Err(e) => Err(DecodeError::NotificationPayloadInvalid(e)),
            },
            Err(e) => Err(e),
        }
    }

    /// Decodes a message from JSON text: reads the text as one structured
    /// value, and decodes that.
    pub fn from_str(text: &str) -> (r: Result<Self, TextError>)
        ensures
            match r {
                Ok(m) => text_decoded::<N, R>(text@) == Ok::<JsonRpc<N::Model, R::Model>, TextError>(m@),
                Err(e) => text_decoded::<N, R>(text@) == Err::<JsonRpc<N::Model, R::Model>, TextError>(e),
            },
    {
        match parse(text) {
            Ok(v) => match Self::deserialize(&v) {
                Ok(m) => Ok(m),
                Err(e) => Err(TextError::Decode(e)),
            },
            Err(_) => Err(TextError::Syntax),
        }
    }
}

} // verus!
