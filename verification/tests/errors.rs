use jsonrpc_envelope::envelope::{peek_id, DecodeError, EncodeError, JsonRpc, TextError};
use jsonrpc_envelope::json::Json;
use jsonrpc_envelope::notifications::MyNotifications;
use jsonrpc_envelope::payload::{Payload, PayloadError};
use jsonrpc_envelope::requests::MyRequests;
use serde_json::Value;

type Message = JsonRpc<MyNotifications, MyRequests>;

fn value(text: &str) -> Value {
    serde_json::from_str(text).unwrap()
}

fn refusal(text: &str) -> DecodeError {
    let v = value(text);
    let by_value = Message::deserialize(&v).unwrap_err();
    assert_eq!(Message::from_str(text), Err(TextError::Decode(by_value)));
    by_value
}

/// A payload that neither encodes nor decodes.
#[derive(Debug, PartialEq)]
struct Stubborn;

impl Payload for Stubborn {
    type Model = ();

    fn model(&self) {}

    fn encoding(_m: ()) -> Result<Json, PayloadError> {
        unreachable!()
    }

    fn decoding(_j: Json) -> Result<(), PayloadError> {
        unreachable!()
    }

    fn to_value(&self) -> Result<Value, PayloadError> {
        Err(PayloadError::InvalidField)
    }

    fn from_value(_v: &Value) -> Result<Self, PayloadError> {
        Err(PayloadError::MissingParams)
    }
}

#[test]
fn text_that_is_no_json() {
    for text in ["", "{", r#"{"id": 1,}"#, "{'id': 1}", r#"{"id": 1} {"id": 2}"#, "nul"] {
        assert_eq!(Message::from_str(text), Err(TextError::Syntax), "{}", text);
    }
}

#[test]
fn values_that_are_no_objects() {
    for text in ["null", "true", "7", "-1", "2.5", r#""id""#, "[]", r#"[{"id": 1}]"#,
                 r#"["length", null]"#] {
        assert_eq!(refusal(text), DecodeError::NotObjectShaped, "{}", text);
        assert_eq!(peek_id(&value(text)), Err(DecodeError::NotObjectShaped), "{}", text);
    }
}

#[test]
fn identifiers_that_are_no_unsigned_integers() {
    for id in ["null", "true", "false", "-1", "-0", "1.0", "1.5", "1e3", r#""1""#, r#""""#, "[]",
               "[1]", "{}", r#"{"id": 1}"#, "18446744073709551616",
               "-9223372036854775808"] {
        let with_method = format!(r#"{{"id": {}, "method": "length"}}"#, id);
        assert_eq!(refusal(&with_method), DecodeError::MalformedIdentifier, "{}", id);
        let alone = format!(r#"{{"id": {}}}"#, id);
        assert_eq!(refusal(&alone), DecodeError::MalformedIdentifier, "{}", id);
        let as_notification = format!(r#"{{"id": {}, "method": "shrink_to_fit", "params": {{}}}}"#, id);
        assert_eq!(refusal(&as_notification), DecodeError::MalformedIdentifier, "{}", id);
    }
}

#[test]
fn malformed_identifier_comes_before_the_payload_is_looked_at() {
    assert_eq!(
        JsonRpc::<Stubborn, Stubborn>::deserialize(&value(r#"{"id": "x"}"#)),
        Err(DecodeError::MalformedIdentifier)
    );
    assert_eq!(
        JsonRpc::<Stubborn, Stubborn>::deserialize(&value("[]")),
        Err(DecodeError::NotObjectShaped)
    );
}

#[test]
fn request_payload_refusals() {
    let cases = [
        (r#"{"id": 1}"#, PayloadError::MissingMethod),
        (r#"{"id": 1, "params": {"index": 5}}"#, PayloadError::MissingMethod),
        (r#"{"id": 1, "method": 5}"#, PayloadError::InvalidMethod),
        (r#"{"id": 1, "method": null}"#, PayloadError::InvalidMethod),
        (r#"{"id": 1, "method": ["length"]}"#, PayloadError::InvalidMethod),
        (r#"{"id": 1, "method": "Length"}"#, PayloadError::UnknownMethod),
        (r#"{"id": 1, "method": "ItemAtIndex", "params": {"index": 5}}"#, PayloadError::UnknownMethod),
        (r#"{"id": 1, "method": "item_at_inde", "params": {"index": 5}}"#, PayloadError::UnknownMethod),
        (r#"{"id": 1, "method": "item_at_index2", "params": {"index": 5}}"#, PayloadError::UnknownMethod),
        (r#"{"id": 1, "method": "", "params": {"index": 5}}"#, PayloadError::UnknownMethod),
        (r#"{"id": 1, "method": "shrink_to_fit", "params": {}}"#, PayloadError::UnknownMethod),
        (r#"{"id": 1, "method": "item_at_index"}"#, PayloadError::MissingParams),
        (r#"{"id": 1, "method": "item_at_index", "params": null}"#, PayloadError::InvalidParams),
        (r#"{"id": 1, "method": "item_at_index", "params": 5}"#, PayloadError::InvalidParams),
        (r#"{"id": 1, "method": "item_at_index", "params": [5]}"#, PayloadError::InvalidParams),
        (r#"{"id": 1, "method": "length", "params": {}}"#, PayloadError::InvalidParams),
        (r#"{"id": 1, "method": "length", "params": []}"#, PayloadError::InvalidParams),
        (r#"{"id": 1, "method": "length", "params": 0}"#, PayloadError::InvalidParams),
        (r#"{"id": 1, "method": "item_at_index", "params": {}}"#, PayloadError::MissingField),
        (r#"{"id": 1, "method": "item_at_index", "params": {"Index": 5}}"#, PayloadError::MissingField),
        (r#"{"id": 1, "method": "item_at_index", "index": 5, "params": {}}"#, PayloadError::MissingField),
        (r#"{"id": 1, "method": "item_at_index", "params": {"index": -5}}"#, PayloadError::InvalidField),
        (r#"{"id": 1, "method": "item_at_index", "params": {"index": 5.0}}"#, PayloadError::InvalidField),
        (r#"{"id": 1, "method": "item_at_index", "params": {"index": "5"}}"#, PayloadError::InvalidField),
        (r#"{"id": 1, "method": "item_at_index", "params": {"index": null}}"#, PayloadError::InvalidField),
        (r#"{"id": 1, "method": "item_at_index", "params": {"index": 18446744073709551616}}"#,
         PayloadError::InvalidField),
    ];
    for (text, e) in cases {
        assert_eq!(refusal(text), DecodeError::RequestPayloadInvalid(e), "{}", text);
    }
}

#[test]
fn notification_payload_refusals() {
    let cases = [
        (r#"{}"#, PayloadError::MissingMethod),
        (r#"{"ID": 1, "method": "length"}"#, PayloadError::UnknownMethod),
        (r#"{"method": false}"#, PayloadError::InvalidMethod),
        (r#"{"method": "length"}"#, PayloadError::UnknownMethod),
        (r#"{"method": "insert"}"#, PayloadError::UnknownMethod),
        (r#"{"method": "insert_item"}"#, PayloadError::MissingParams),
        (r#"{"method": "shrink_to_fit"}"#, PayloadError::MissingParams),
        (r#"{"method": "shrink_to_fit", "params": null}"#, PayloadError::InvalidParams),
        (r#"{"method": "shrink_to_fit", "params": []}"#, PayloadError::InvalidParams),
        (r#"{"method": "insert_item", "params": [42, 5]}"#, PayloadError::InvalidParams),
        (r#"{"method": "insert_item", "params": {}}"#, PayloadError::MissingField),
        (r#"{"method": "insert_item", "params": {"item": 42}}"#, PayloadError::MissingField),
        (r#"{"method": "insert_item", "params": {"index": 5}}"#, PayloadError::MissingField),
        (r#"{"method": "insert_item", "params": {"index": "5", "item": 42}}"#, PayloadError::InvalidField),
        (r#"{"method": "insert_item", "params": {"index": -1}}"#, PayloadError::InvalidField),
        (r#"{"method": "insert_item", "params": {"index": 0.5, "item": null}}"#, PayloadError::InvalidField),
    ];
    for (text, e) in cases {
        assert_eq!(refusal(text), DecodeError::NotificationPayloadInvalid(e), "{}", text);
    }
}

#[test]
fn null_params_are_no_params() {
    assert_eq!(
        Message::from_str(r#"{"id": 4, "method": "length", "params": null}"#),
        Ok(JsonRpc::Request(4, MyRequests::Length))
    );
    assert_eq!(
        Message::from_str(r#"{"id": 4, "method": "length"}"#),
        Ok(JsonRpc::Request(4, MyRequests::Length))
    );
}

#[test]
fn null_item_is_an_item() {
    assert_eq!(
        Message::from_str(r#"{"method": "insert_item", "params": {"item": null, "index": 1}}"#),
        Ok(JsonRpc::Notification(MyNotifications::InsertItem { item: Value::Null, index: 1 }))
    );
}

#[test]
fn payloads_refuse_what_is_no_object() {
    for text in ["null", "1", r#""length""#, r#"["length"]"#] {
        let v = value(text);
        assert_eq!(MyRequests::from_value(&v), Err(PayloadError::NotObject), "{}", text);
        assert_eq!(MyNotifications::from_value(&v), Err(PayloadError::NotObject), "{}", text);
    }
}

#[test]
fn payloads_pass_over_the_identifier() {
    let v = value(r#"{"id": "anything", "method": "item_at_index", "params": {"index": 5}}"#);
    assert_eq!(MyRequests::from_value(&v), Ok(MyRequests::ItemAtIndex { index: 5 }));
    let v = value(r#"{"id": [], "method": "shrink_to_fit", "params": {}}"#);
    assert_eq!(MyNotifications::from_value(&v), Ok(MyNotifications::ShrinkToFit {}));
}

#[test]
fn request_payload_that_cannot_be_encoded() {
    let m: JsonRpc<Stubborn, Stubborn> = JsonRpc::Request(1, Stubborn);
    assert_eq!(m.serialize(), Err(EncodeError::RequestPayload(PayloadError::InvalidField)));
}

#[test]
fn notification_payload_that_cannot_be_encoded() {
    let m: JsonRpc<Stubborn, Stubborn> = JsonRpc::Notification(Stubborn);
    assert_eq!(m.serialize(), Err(EncodeError::NotificationPayload(PayloadError::InvalidField)));
}

#[test]
fn payload_errors_are_tagged_by_branch() {
    assert_eq!(
        JsonRpc::<Stubborn, Stubborn>::deserialize(&value(r#"{"id": 1}"#)),
        Err(DecodeError::RequestPayloadInvalid(PayloadError::MissingParams))
    );
    assert_eq!(
        JsonRpc::<Stubborn, Stubborn>::deserialize(&value(r#"{}"#)),
        Err(DecodeError::NotificationPayloadInvalid(PayloadError::MissingParams))
    );
}

#[test]
fn request_payload_that_is_no_object_has_no_place_for_the_identifier() {
    for text in ["null", "3", r#""length""#, "[]", r#"[{"method": "length"}]"#, "true"] {
        let m: JsonRpc<Value, Value> = JsonRpc::Request(1, value(text));
        assert_eq!(m.serialize(), Err(EncodeError::RequestNotObject), "{}", text);
        let m: JsonRpc<Value, Value> = JsonRpc::Notification(value(text));
        assert_eq!(m.serialize(), Ok(value(text)), "{}", text);
    }
}
