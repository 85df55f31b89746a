use vstd::prelude::*;
use crate::batch::{BatchReply, batch_reply, reply_outcome, serialized_view};
use crate::errors::BridgeError;
use crate::session::{Emission, SubscriptionSession};

verus! {

#[verifier::external_type_specification]
#[verifier::external_body]
pub struct ExBatchResponse(async_graphql::BatchResponse);

#[verifier::external_type_specification]
#[verifier::external_body]
pub struct ExResponse(async_graphql::Response);

/// The JSON text that a batch response renders to, or the serializer's
/// diagnostic: a function of the response value alone.
pub uninterp spec fn batch_body_of(r: async_graphql::BatchResponse) -> Result<Seq<char>, Seq<char>>;

/// The executor's own ok/error verdict on a batch response: a function of
/// the response value alone.
pub uninterp spec fn batch_ok_of(r: async_graphql::BatchResponse) -> bool;

/// The JSON text that one subscription stream item renders to, or the
/// serializer's diagnostic: a function of the response value alone.
pub uninterp spec fn response_body_of(r: async_graphql::Response) -> Result<Seq<char>, Seq<char>>;

/// Relies on async_graphql::BatchResponse::is_ok: the executor's own
/// verdict on its response — true exactly when no response of the batch
/// carries top-level errors. It reads the response value alone, so its
/// result is named `batch_ok_of` and carried to the caller.
pub assume_specification[ async_graphql::BatchResponse::is_ok ](
    r: &async_graphql::BatchResponse,
) -> (b: bool)
    ensures
        b == batch_ok_of(*r),
;

/// Relies on serde_json::to_string: renders the executor's batch response
/// as JSON text, a failure being reported as the serializer's display text.
/// The outcome depends on the response value alone and is named
/// `batch_body_of`; nothing more is assumed of the text itself.
#[verifier::external_body]
fn serialize_batch_response(r: &async_graphql::BatchResponse) -> (out: Result<String, String>)
    ensures
        serialized_view(out) == batch_body_of(*r),
{
    match serde_json::to_string(r) {
        Ok(s) => Ok(s),
        Err(e) => Err(e.to_string()),
    }
}

/// Relies on serde_json::to_string: renders one subscription stream item as
/// JSON text, a failure being reported as the serializer's display text.
/// The outcome depends on the response value alone and is named
/// `response_body_of`; nothing more is assumed of the text itself.
#[verifier::external_body]
fn serialize_response(r: &async_graphql::Response) -> (out: Result<String, String>)
    ensures
        serialized_view(out) == response_body_of(*r),
{
    match serde_json::to_string(r) {
        Ok(s) => Ok(s),
        Err(e) => Err(e.to_string()),
    }
}

/// Completes a batch invocation once the executor has answered: serializes
/// the response and pairs it with the executor's verdict, through
/// `batch_reply`. When the response has a JSON text, the reply carries that
/// body and that verdict; when it has none, the one failure is a
/// `SerializationFailure` carrying the serializer's diagnostic.
pub fn finish_batch(response: &async_graphql::BatchResponse) -> (r: Result<
    BatchReply,
    BridgeError,
>)
    ensures
        match reply_outcome(batch_body_of(*response), batch_ok_of(*response)) {
            Ok(out) => r matches Ok(rep) && rep.body@ == out.0 && rep.ok == out.1,
            Err(diag) => r matches Err(e) && e matches BridgeError::SerializationFailure(m)
                && m@ == diag,
        },
{
    let ok = response.is_ok();
    let serialized = serialize_batch_response(response);
    batch_reply(serialized, ok)
}

/// One step of the subscription drain loop: serializes the executor's next
/// stream item and turns it into the emission owed on the session's
/// channel, in arrival order. When the item renders to text, the emission
/// carries exactly that text and the session stays open; when it does not,
/// the chosen policy is to abort the whole subscription — the session
/// closes with its history unchanged, no sentinel ever follows, and the
/// caller sees a `SerializationFailure` carrying exactly the serializer's
/// diagnostic.
pub fn subscription_item(
    session: &mut SubscriptionSession,
    response: &async_graphql::Response,
) -> (r: Result<Emission, BridgeError>)
    requires
        old(session).is_open(),
        old(session).wf(),
    ensures
        final(session).wf(),
        final(session).channel_view() == old(session).channel_view(),
        match response_body_of(*response) {
            Ok(s) => r matches Ok(e) && final(session).is_open()
                && e.channel@ == old(session).channel_view()
                && (e.payload matches Some(p) && p@ == s)
                && final(session).history_view() == old(session).history_view().push(Some(s)),
            Err(d) => r matches Err(err)
                && err matches BridgeError::SerializationFailure(m) && m@ == d
                && !final(session).is_open()
                && final(session).history_view() == old(session).history_view(),
        },
{
    match serialize_response(response) {
        Ok(body) => Ok(session.on_item(body)),
        Err(diag) => {
            session.abort();
            Err(BridgeError::SerializationFailure(diag))
        },
    }
}

} // verus!
