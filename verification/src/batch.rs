use vstd::prelude::*;
use crate::errors::BridgeError;
use crate::json::Json;
use crate::request::batch_issue_view;

verus! {

/// The direct reply to a batch invocation: the serialized response body and
/// the executor's own ok/error verdict.
pub struct BatchReply {
    pub body: String,
    pub ok: bool,
}

/// The view of a serialization attempt: the JSON text produced, or the
/// serializer's diagnostic.
pub open spec fn serialized_view(serialized: Result<String, String>) -> Result<Seq<char>, Seq<char>> {
    match serialized {
        Ok(s) => Ok(s@),
        Err(e) => Err(e@),
    }
}

/// The reply owed once the executor has answered: the serialized body paired
/// with the executor's verdict on success, or the serializer's diagnostic on
/// failure. GraphQL-level errors inside a structurally valid response are no
/// failure of this layer: they ride inside the body and only lower the
/// verdict.
pub open spec fn reply_outcome(
    serialized: Result<Seq<char>, Seq<char>>,
    executor_ok: bool,
) -> Result<(Seq<char>, bool), Seq<char>> {
    match serialized {
        Ok(body) => Ok((body, executor_ok)),
        Err(diag) => Err(diag),
    }
}

/// Forms the direct reply from the serialization attempt and the executor's
/// verdict. Succeeds if and only if serialization succeeded; a serialization
/// failure after a successful execution is its own observable failure mode,
/// a `SerializationFailure` carrying the serializer's diagnostic.
pub fn batch_reply(serialized: Result<String, String>, executor_ok: bool) -> (r: Result<
    BatchReply,
    BridgeError,
>)
    ensures
        match reply_outcome(serialized_view(serialized), executor_ok) {
            Ok(out) => r matches Ok(rep) && rep.body@ == out.0 && rep.ok == out.1,
            Err(diag) => r matches Err(e) && e matches BridgeError::SerializationFailure(m)
                && m@ == diag,
        },
{
    match serialized {
        Ok(body) => Ok(BatchReply { body, ok: executor_ok }),
        Err(diag) => Err(BridgeError::SerializationFailure(diag)),
    }
}

/// Law: handling a batch is stateless at this layer. The outcome is a pure
/// function of the payload and of the executor's answer alone, so
/// re-issuing the same request with the same payload yields the same,
/// independent outcome: nothing persists from one invocation to the next.
pub proof fn lemma_batch_handling_stateless(
    payload_first: Json,
    payload_again: Json,
    serialized_first: Result<Seq<char>, Seq<char>>,
    serialized_again: Result<Seq<char>, Seq<char>>,
    ok_first: bool,
    ok_again: bool,
)
    requires
        payload_first == payload_again,
        serialized_first == serialized_again,
        ok_first == ok_again,
    ensures
        batch_issue_view(payload_first) == batch_issue_view(payload_again),
        reply_outcome(serialized_first, ok_first) == reply_outcome(serialized_again, ok_again),
{
}

} // verus!
