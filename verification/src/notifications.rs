//! The payloads that expect no reply.

use vstd::prelude::*;
use crate::json::{
    empty_object, get_field, json_of, set_field, u64_value, Json, JsonNumber,
};
use crate::payload::{
    lemma_tag_reading_ignores_other_fields, lemma_tagged_reads_back, method_of, params_of,
    read_method, read_params, read_usize, tagged, usize_field, write_tagged, Payload,
    PayloadError,
};
use crate::strings::str_eq;

verus! {

/// A notification.
#[derive(Debug, PartialEq, Eq)]
pub enum MyNotifications {
    /// Puts `item`, a value of any shape, at `index`. On the wire:
    /// `"method": "insert_item"` and `"params": {"item": ..., "index": ...}`.
    InsertItem { item: serde_json::Value, index: usize },
    /// Gives up spare room. On the wire: `"method": "shrink_to_fit"` and
    /// `"params": {}`; fields found in `params` are passed over.
    ShrinkToFit {  },
}

/// The mathematical content of a notification.
pub enum NotificationModel {
    InsertItem { item: Json, index: usize },
    ShrinkToFit,
}

/// The fields of `insert_item`, read from its `params`. A field of the wrong
/// type is reported before an absent one.
pub open spec fn insert_item_of(params: Json) -> Result<NotificationModel, PayloadError> {
    match usize_field(params, "index"@) {
        Err(PayloadError::InvalidField) => Err(PayloadError::InvalidField),
        index => match params.field("item"@) {
            Some(item) => match index {
                Ok(index) => Ok(NotificationModel::InsertItem { item, index }),
                Err(e) => Err(e),
            },
            None => Err(PayloadError::MissingField),
        },
    }
}

impl Payload for MyNotifications {
    type Model = NotificationModel;

    open spec fn model(&self) -> NotificationModel {
        match *self {
            MyNotifications::InsertItem { item, index } => NotificationModel::InsertItem {
                item: json_of(item),
                index,
            },
            MyNotifications::ShrinkToFit {  } => NotificationModel::ShrinkToFit,
        }
    }

    open spec fn encoding(m: NotificationModel) -> Result<Json, PayloadError> {
        Ok(
            match m {
                NotificationModel::InsertItem { item, index } => tagged(
                    "insert_item"@,
                    Some(
                        Json::Object(
                            map![
                                "item"@ => item,
                                "index"@ => Json::Number(JsonNumber::PosInt(index as u64)),
                            ],
                        ),
                    ),
                ),
                NotificationModel::ShrinkToFit => tagged(
                    "shrink_to_fit"@,
                    Some(Json::Object(Map::empty())),
                ),
            },
        )
    }

    open spec fn decoding(j: Json) -> Result<NotificationModel, PayloadError> {
        match method_of(j) {
            Ok(name) => if name == "insert_item"@ {
                match params_of(j) {
                    Ok(params) => insert_item_of(params),
                    Err(e) => Err(e),
                }
            } else if name == "shrink_to_fit"@ {
                match params_of(j) {
                    Ok(_) => Ok(NotificationModel::ShrinkToFit),
                    Err(e) => Err(e),
                }
            } else {
                Err(PayloadError::UnknownMethod)
            },
            Err(e) => Err(e),
        }
    }

    fn to_value(&self) -> (r: Result<serde_json::Value, PayloadError>) {
        match self {
            MyNotifications::InsertItem { item, index } => {
                let mut params = empty_object();
                set_field(&mut params, "item", item.clone());
                set_field(&mut params, "index", u64_value(*index as u64));
                Ok(write_tagged("insert_item", Some(params)))
            },
            MyNotifications::ShrinkToFit {  } => Ok(
                write_tagged("shrink_to_fit", Some(empty_object())),
            ),
        }
    }

    fn from_value(v: &serde_json::Value) -> (r: Result<Self, PayloadError>) {
        let name = match read_method(v) {
            Ok(name) => name,
            Err(e) => {
                return Err(e);
            },
        };
        if str_eq(name, "insert_item") {
            let params = match read_params(v) {
                Ok(params) => params,
                Err(e) => {
                    return Err(e);
                },
            };
            read_insert_item(params)
        } else if str_eq(name, "shrink_to_fit") {
            match read_params(v) {
                Ok(_) => Ok(MyNotifications::ShrinkToFit {  }),
                Err(e) => Err(e),
            }
        } else {
            Err(PayloadError::UnknownMethod)
        }
    }
}

/// Reads the fields of `insert_item` from its `params`.
pub fn read_insert_item(params: &serde_json::Value) -> (r: Result<MyNotifications, PayloadError>)
    ensures
        match r {
            Ok(n) => insert_item_of(json_of(*params)) == Ok::<NotificationModel, PayloadError>(
                n.model(),
            ),
            Err(e) => insert_item_of(json_of(*params)) == Err::<NotificationModel, PayloadError>(e),
        },
{
    let index = read_usize(params, "index");
    match index {
        Err(PayloadError::InvalidField) => Err(PayloadError::InvalidField),
        index => match get_field(params, "item") {
            Some(item) => match index {
                Ok(index) => Ok(MyNotifications::InsertItem { item: item.clone(), index }),
                Err(e) => Err(e),
            },
            None => Err(PayloadError::MissingField),
        },
    }
}

/// The names of the two notifications, and of the fields of `insert_item`,
/// are different strings, and neither notification goes by a request's name.
pub proof fn lemma_notification_names_differ()
    ensures
        "insert_item"@ != "shrink_to_fit"@,
        "insert_item"@ != "item_at_index"@,
        "insert_item"@ != "length"@,
        "shrink_to_fit"@ != "item_at_index"@,
        "shrink_to_fit"@ != "length"@,
        "item"@ != "index"@,
{
    reveal_strlit("insert_item");
    reveal_strlit("shrink_to_fit");
    reveal_strlit("item_at_index");
    reveal_strlit("length");
    reveal_strlit("item");
    reveal_strlit("index");
    assert("insert_item"@.len() == 11);
    assert("shrink_to_fit"@.len() == 13);
    assert("item_at_index"@.len() == 13);
    assert("length"@.len() == 6);
    assert("item"@.len() == 4);
    assert("index"@.len() == 5);
    assert("shrink_to_fit"@[0] != "item_at_index"@[0]);
}

/// Every notification encodes to an object without an `id` field, and
/// decodes from that object to itself.
pub proof fn lemma_notifications_round_trip(n: NotificationModel)
    ensures
        MyNotifications::encoding(n) is Ok,
        MyNotifications::encoding(n)->Ok_0 is Object,
        MyNotifications::encoding(n)->Ok_0.field("id"@) is None,
        MyNotifications::decoding(MyNotifications::encoding(n)->Ok_0) == Ok::<
            NotificationModel,
            PayloadError,
        >(n),
{
    lemma_notification_names_differ();
    match n {
        NotificationModel::InsertItem { item, index } => {
            let params = Json::Object(
                map![
                    "item"@ => item,
                    "index"@ => Json::Number(JsonNumber::PosInt(index as u64)),
                ],
            );
            lemma_tagged_reads_back("insert_item"@, Some(params));
        },
        NotificationModel::ShrinkToFit => {
            lemma_tagged_reads_back("shrink_to_fit"@, Some(Json::Object(Map::empty())));
        },
    }
}

/// Decoding a notification passes over every field but `method` and `params`.
pub proof fn lemma_notifications_ignore_other_fields(j: Json, key: Seq<char>, x: Json)
    requires
        j is Object,
        key != "method"@,
        key != "params"@,
    ensures
        MyNotifications::decoding(j.with_field(key, x)) == MyNotifications::decoding(j),
{
    lemma_tag_reading_ignores_other_fields(j, key, x);
}

} // verus!
