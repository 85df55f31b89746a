use vstd::prelude::*;
use crate::errors::BridgeError;
use crate::text::str_eq;

verus! {

/// The two recognized invocation endpoints.
#[derive(Clone, Copy, PartialEq, Eq, Structural, Debug)]
pub enum Endpoint {
    /// The batched query/mutation endpoint, reached by the command `"graphql"`.
    Graphql,
    /// The streaming endpoint, reached by the command `"subscription"`.
    Subscription,
}

/// The exact rejection text owed for an unrecognized command name.
pub open spec fn rejection_message_view(name: Seq<char>) -> Seq<char> {
    "Invalid endpoint \""@ + name + "\". Valid endpoints are [\"graphql\", \"subscription\"]"@
}

/// Builds the rejection text for an unrecognized command name.
pub fn rejection_message(name: &str) -> (r: String)
    ensures
        r@ == rejection_message_view(name@),
{
    let mut s = String::from_str("Invalid endpoint \"");
    s.append(name);
    s.append("\". Valid endpoints are [\"graphql\", \"subscription\"]");
    s
}

/// Routes one inbound invocation by its command name: `"graphql"` to the
/// batch handler, `"subscription"` to the subscription handler, and every
/// other name to a synchronous rejection whose message names the valid
/// endpoints. The rejection consults nothing beyond the name: no payload is
/// parsed and no executor is involved.
pub fn dispatch(command: &str) -> (r: Result<Endpoint, BridgeError>)
    ensures
        command@ == "graphql"@ ==> r == Ok::<Endpoint, BridgeError>(Endpoint::Graphql),
        command@ == "subscription"@ ==> r == Ok::<Endpoint, BridgeError>(Endpoint::Subscription),
        command@ != "graphql"@ && command@ != "subscription"@ ==> (r matches Err(e)
            && e matches BridgeError::UnknownCommand(m)
            && m@ == rejection_message_view(command@)),
{
    proof {
        reveal_strlit("graphql");
        reveal_strlit("subscription");
        assert("graphql"@.len() == 7);
        assert("subscription"@.len() == 12);
    }
    if str_eq(command, "graphql") {
        Ok(Endpoint::Graphql)
    } else if str_eq(command, "subscription") {
        Ok(Endpoint::Subscription)
    } else {
        Err(BridgeError::UnknownCommand(rejection_message(command)))
    }
}

} // verus!
