//! What holds of the codec: for every payload type, and for the requests
//! and notifications of this crate.

use vstd::prelude::*;
use crate::envelope::{decoded, encoded, id_json, id_of, DecodeError, JsonRpc};
use crate::json::Json;
use crate::notifications::{
    lemma_notification_names_differ, lemma_notifications_ignore_other_fields,
    lemma_notifications_round_trip, MyNotifications, NotificationModel,
};
use crate::payload::{lemma_field_names_differ, Payload, PayloadError};
use crate::requests::{lemma_requests_ignore_other_fields, lemma_requests_round_trip, MyRequests};

verus! {

/// The payload decoder that an outcome of decoding came from.
pub enum Branch {
    /// The request payload's: a request, or a refusal by that decoder.
    Request,
    /// The notification payload's: a notification, or a refusal by that decoder.
    Notification,
    /// Neither: the value was refused before a payload was looked at.
    Neither,
}

/// The branch that decoding took to arrive at `outcome`.
pub open spec fn branch_of<NM, RM>(outcome: Result<JsonRpc<NM, RM>, DecodeError>) -> Branch {
    match outcome {
        Ok(JsonRpc::Request(_, _)) => Branch::Request,
        Err(DecodeError::RequestPayloadInvalid(_)) => Branch::Request,
        Ok(JsonRpc::Notification(_)) => Branch::Notification,
        Err(DecodeError::NotificationPayloadInvalid(_)) => Branch::Notification,
        Err(_) => Branch::Neither,
    }
}

/// A request comes back from its encoding: where the payload encodes to an
/// object, and its decoder gives the payload back from that object with the
/// identifier in it, decoding the encoded request gives the same identifier
/// and the same payload.
pub proof fn lemma_request_round_trip<N: Payload, R: Payload>(id: usize, r: R::Model)
    requires
        R::encoding(r) is Ok,
        R::encoding(r)->Ok_0 is Object,
        R::decoding(R::encoding(r)->Ok_0.with_field("id"@, id_json(id))) == Ok::<
            R::Model,
            PayloadError,
        >(r),
    ensures
        encoded::<N, R>(JsonRpc::Request(id, r)) is Ok,
        decoded::<N, R>(encoded::<N, R>(JsonRpc::Request(id, r))->Ok_0) == Ok::<
            JsonRpc<N::Model, R::Model>,
            DecodeError,
        >(JsonRpc::Request(id, r)),
{
}

/// A notification comes back from its encoding: where the payload encodes to
/// an object without an `id` field, and its decoder gives the payload back
/// from that object, decoding the encoded notification gives the same payload.
pub proof fn lemma_notification_round_trip<N: Payload, R: Payload>(n: N::Model)
    requires
        N::encoding(n) is Ok,
        N::encoding(n)->Ok_0 is Object,
        N::encoding(n)->Ok_0.field("id"@) is None,
        N::decoding(N::encoding(n)->Ok_0) == Ok::<N::Model, PayloadError>(n),
    ensures
        encoded::<N, R>(JsonRpc::Notification(n)) is Ok,
        decoded::<N, R>(encoded::<N, R>(JsonRpc::Notification(n))->Ok_0) == Ok::<
            JsonRpc<N::Model, R::Model>,
            DecodeError,
        >(JsonRpc::Notification(n)),
{
}

/// The branch is read off the identifier: a value with an identifier goes
/// to the request payload's decoder, an object without an `id` field to the
/// notification payload's, and a value whose identifier cannot be read goes
/// to neither. What the payload decoders make of the value has no part in it.
pub proof fn lemma_branch_follows_identifier<N: Payload, R: Payload>(j: Json)
    ensures
        branch_of(decoded::<N, R>(j)) == match id_of(j) {
            Ok(Some(_)) => Branch::Request,
            Ok(None) => Branch::Notification,
            Err(_) => Branch::Neither,
        },
{
}

/// The `id` field alone settles the identifier: two values that are both
/// objects or both not, with the same thing or nothing under `id`, carry the
/// same identifier and so take the same branch, whatever `method` and their
/// other fields hold.
pub proof fn lemma_branch_by_id_alone<N: Payload, R: Payload>(a: Json, b: Json)
    requires
        a is Object <==> b is Object,
        a.field("id"@) == b.field("id"@),
    ensures
        id_of(a) == id_of(b),
        branch_of(decoded::<N, R>(a)) == branch_of(decoded::<N, R>(b)),
{
}

/// An identifier put into any object commits decoding to the request
/// payload: the outcome is a request with that identifier or the refusal of
/// the request payload's decoder, and the notification payload's decoder has
/// no say.
pub proof fn lemma_identifier_commits_to_request<N: Payload, R: Payload>(j: Json, id: usize)
    requires
        j is Object,
    ensures
        decoded::<N, R>(j.with_field("id"@, id_json(id))) == match R::decoding(
            j.with_field("id"@, id_json(id)),
        ) {
            Ok(r) => Ok::<JsonRpc<N::Model, R::Model>, DecodeError>(JsonRpc::Request(id, r)),
            Err(e) => Err(DecodeError::RequestPayloadInvalid(e)),
        },
{
}

/// A request with a field more is the same request: for an object that
/// carries an identifier and any key but `id`, where the request payload's
/// decoder does not tell the object with the field from the object without
/// it, decoding does not either.
pub proof fn lemma_request_tolerates_extra_field<N: Payload, R: Payload>(
    j: Json,
    key: Seq<char>,
    x: Json,
)
    requires
        j is Object,
        j.field("id"@) is Some,
        key != "id"@,
        R::decoding(j.with_field(key, x)) == R::decoding(j),
    ensures
        decoded::<N, R>(j.with_field(key, x)) == decoded::<N, R>(j),
{
}

/// A notification with a field more is the same notification: for an object
/// without `id` and any key but `id`, where the notification payload's
/// decoder does not tell the object with the field from the object without
/// it, decoding does not either.
pub proof fn lemma_notification_tolerates_extra_field<N: Payload, R: Payload>(
    j: Json,
    key: Seq<char>,
    x: Json,
)
    requires
        j is Object,
        j.field("id"@) is None,
        key != "id"@,
        N::decoding(j.with_field(key, x)) == N::decoding(j),
    ensures
        decoded::<N, R>(j.with_field(key, x)) == decoded::<N, R>(j),
{
}

/// Zero is an identifier like any other: an object whose `id` is the number
/// zero carries the identifier zero, and is not taken for one without.
pub proof fn lemma_zero_is_an_identifier(j: Json)
    requires
        j is Object,
        j.field("id"@) == Some(id_json(0)),
    ensures
        id_of(j) == Ok::<Option<usize>, DecodeError>(Some(0usize)),
{
}

/// Every request of this crate, with every identifier, has an encoding, and
/// decoding it gives the request back.
pub proof fn lemma_my_request_round_trip(id: usize, r: MyRequests)
    ensures
        encoded::<MyNotifications, MyRequests>(JsonRpc::Request(id, r)) is Ok,
        decoded::<MyNotifications, MyRequests>(
            encoded::<MyNotifications, MyRequests>(JsonRpc::Request(id, r))->Ok_0,
        ) == Ok::<JsonRpc<NotificationModel, MyRequests>, DecodeError>(JsonRpc::Request(id, r)),
{
    lemma_field_names_differ();
    lemma_requests_round_trip(r);
    lemma_requests_ignore_other_fields(MyRequests::encoding(r)->Ok_0, "id"@, id_json(id));
    lemma_request_round_trip::<MyNotifications, MyRequests>(id, r);
}

/// Every notification of this crate has an encoding, and decoding it gives
/// the notification back.
pub proof fn lemma_my_notification_round_trip(n: NotificationModel)
    ensures
        encoded::<MyNotifications, MyRequests>(JsonRpc::Notification(n)) is Ok,
        decoded::<MyNotifications, MyRequests>(
            encoded::<MyNotifications, MyRequests>(JsonRpc::Notification(n))->Ok_0,
        ) == Ok::<JsonRpc<NotificationModel, MyRequests>, DecodeError>(JsonRpc::Notification(n)),
{
    lemma_notifications_round_trip(n);
    lemma_notification_round_trip::<MyNotifications, MyRequests>(n);
}

/// A notification of this crate with an identifier put into its encoding is
/// no message: the identifier sends it to the request decoder, which knows
/// neither notification by name.
pub proof fn lemma_my_notification_with_identifier_refused(n: NotificationModel, id: usize)
    ensures
        MyNotifications::encoding(n) is Ok,
        decoded::<MyNotifications, MyRequests>(
            MyNotifications::encoding(n)->Ok_0.with_field("id"@, id_json(id)),
        ) == Err::<JsonRpc<NotificationModel, MyRequests>, DecodeError>(
            DecodeError::RequestPayloadInvalid(PayloadError::UnknownMethod),
        ),
{
    lemma_field_names_differ();
    lemma_notification_names_differ();
    lemma_requests_ignore_other_fields(MyNotifications::encoding(n)->Ok_0, "id"@, id_json(id));
}

/// The messages of this crate decode the same with or without a field that
/// is none of `id`, `method` and `params`, whatever it holds.
pub proof fn lemma_my_messages_tolerate_extra_fields(j: Json, key: Seq<char>, x: Json)
    requires
        j is Object,
        key != "id"@,
        key != "method"@,
        key != "params"@,
    ensures
        decoded::<MyNotifications, MyRequests>(j.with_field(key, x)) == decoded::<
            MyNotifications,
            MyRequests,
        >(j),
{
    if j.field("id"@) is Some {
        lemma_requests_ignore_other_fields(j, key, x);
        lemma_request_tolerates_extra_field::<MyNotifications, MyRequests>(j, key, x);
    } else {
        lemma_notifications_ignore_other_fields(j, key, x);
        lemma_notification_tolerates_extra_field::<MyNotifications, MyRequests>(j, key, x);
    }
}

} // verus!
