use vstd::prelude::*;
use crate::errors::BridgeError;
use crate::json::{Json, JsonField, lookup, lookup_view, take_field};

verus! {

/// A single GraphQL operation as this layer reads it: the query text, an
/// optional operation name, and optional variables. The variables' contents
/// are never interpreted here; they are carried through to the executor.
pub struct GraphQLRequest {
    pub query: String,
    pub operation_name: Option<String>,
    /// Present exactly when the payload carried a `variables` object; always
    /// a `Json::Obj`.
    pub variables: Option<Json>,
}

/// A batch submission: one operation given bare, or several given as an
/// array. Immutable once built.
pub enum BatchRequest {
    Single(GraphQLRequest),
    Batch(Vec<GraphQLRequest>),
}

/// A single subscription operation plus the caller-chosen correlation id.
/// The id is fixed for the life of the subscription and names its event
/// channel; uniqueness is the caller's responsibility.
pub struct GraphQLSubscriptionRequest {
    pub inner: GraphQLRequest,
    pub id: u32,
}

/// The diagnostic owed for an operation object that is not a well-formed
/// GraphQL request, or `None` when it is well-formed: `query` must be a
/// string, `operationName` a string, null or absent, and `variables` an
/// object, null or absent. Unknown fields are ignored.
pub open spec fn request_issue_view(fields: Seq<JsonField>) -> Option<Seq<char>> {
    if lookup_view(fields, "query"@) is None {
        Some("missing field `query`"@)
    } else if !(lookup_view(fields, "query"@) matches Some(Json::Str(_))) {
        Some("invalid type for field `query`: expected a string"@)
    } else if !(match lookup_view(fields, "operationName"@) {
        Option::None => true,
        Some(Json::Null) => true,
        Some(Json::Str(_)) => true,
        _ => false,
    }) {
        Some("invalid type for field `operationName`: expected a string or null"@)
    } else if !(match lookup_view(fields, "variables"@) {
        Option::None => true,
        Some(Json::Null) => true,
        Some(Json::Obj(_)) => true,
        _ => false,
    }) {
        Some("invalid type for field `variables`: expected an object or null"@)
    } else {
        Option::None
    }
}

/// `r` is exactly the request read from the operation object `fields`.
pub open spec fn request_matches(fields: Seq<JsonField>, r: GraphQLRequest) -> bool {
    &&& lookup_view(fields, "query"@) == Some(Json::Str(r.query))
    &&& match lookup_view(fields, "operationName"@) {
        Some(Json::Str(s)) => r.operation_name == Some(s),
        _ => r.operation_name is None,
    }
    &&& match lookup_view(fields, "variables"@) {
        Some(Json::Obj(o)) => r.variables == Some(Json::Obj(o)),
        _ => r.variables is None,
    }
}

/// Reads one operation object. Succeeds if and only if the object is a
/// well-formed request, returning exactly the request it holds; fails with a
/// `MalformedRequest` carrying exactly the first diagnostic.
pub fn parse_request(fields: Vec<JsonField>) -> (r: Result<GraphQLRequest, BridgeError>)
    ensures
        request_issue_view(fields@) is None ==> (r matches Ok(req) && request_matches(
            fields@,
            req,
        )),
        request_issue_view(fields@) matches Some(m) ==> (r matches Err(e)
            && e matches BridgeError::MalformedRequest(msg) && msg@ == m),
{
    let query: String = match lookup(&fields, "query") {
        Option::None => {
            return Err(BridgeError::MalformedRequest(String::from_str("missing field `query`")));
        },
        Option::Some(v) => match v {
            Json::Str(s) => s.clone(),
            _ => {
                return Err(
                    BridgeError::MalformedRequest(
                        String::from_str("invalid type for field `query`: expected a string"),
                    ),
                );
            },
        },
    };
    let operation_name: Option<String> = match lookup(&fields, "operationName") {
        Option::None => Option::None,
        Option::Some(v) => match v {
            Json::Null => Option::None,
            Json::Str(s) => Option::Some(s.clone()),
            _ => {
                return Err(
                    BridgeError::MalformedRequest(
                        String::from_str(
                            "invalid type for field `operationName`: expected a string or null",
                        ),
                    ),
                );
            },
        },
    };
    let mut fields = fields;
    let variables: Option<Json> = match take_field(&mut fields, "variables") {
        Option::None => Option::None,
        Option::Some(v) => match v {
            Json::Null => Option::None,
            Json::Obj(o) => Option::Some(Json::Obj(o)),
            _ => {
                return Err(
                    BridgeError::MalformedRequest(
                        String::from_str(
                            "invalid type for field `variables`: expected an object or null",
                        ),
                    ),
                );
            },
        },
    };
    Ok(GraphQLRequest { query, operation_name, variables })
}

/// The diagnostic owed for a subscription payload, or `None` when it is
/// well-formed: the payload must be an object holding a well-formed request
/// with, in addition, a top-level `id` that is an unsigned 32-bit integer.
pub open spec fn subscription_issue_view(payload: Json) -> Option<Seq<char>> {
    match payload {
        Json::Obj(fields) => if request_issue_view(fields@) is Some {
            request_issue_view(fields@)
        } else if lookup_view(fields@, "id"@) is None {
            Some("missing field `id`"@)
        } else if !(lookup_view(fields@, "id"@) matches Some(Json::UInt(n)) && n <= u32::MAX
            as u64) {
            Some("invalid type for field `id`: expected an unsigned 32-bit integer"@)
        } else {
            Option::None
        },
        _ => Some("expected a JSON object"@),
    }
}

/// The subscription payload is well-formed.
pub open spec fn valid_subscription_payload(payload: Json) -> bool {
    subscription_issue_view(payload) is None
}

/// `r` is exactly the subscription request read from `payload`.
pub open spec fn subscription_matches(payload: Json, r: GraphQLSubscriptionRequest) -> bool {
    match payload {
        Json::Obj(fields) => request_matches(fields@, r.inner) && lookup_view(fields@, "id"@)
            == Some(Json::UInt(r.id as u64)),
        _ => false,
    }
}

/// Reads a subscription payload. Succeeds if and only if the payload is
/// well-formed, returning exactly the request and id it holds; fails with a
/// `MalformedRequest` carrying exactly the first diagnostic, and no event
/// channel is derived from a payload that fails here.
pub fn parse_subscription(payload: Json) -> (r: Result<GraphQLSubscriptionRequest, BridgeError>)
    ensures
        valid_subscription_payload(payload) ==> (r matches Ok(req) && subscription_matches(
            payload,
            req,
        )),
        subscription_issue_view(payload) matches Some(m) ==> (r matches Err(e)
            && e matches BridgeError::MalformedRequest(msg) && msg@ == m),
{
    let fields: Vec<JsonField> = match payload {
        Json::Obj(fields) => fields,
        _ => {
            return Err(BridgeError::MalformedRequest(String::from_str("expected a JSON object")));
        },
    };
    let id_check: Result<u32, BridgeError> = match lookup(&fields, "id") {
        Option::None => Err(BridgeError::MalformedRequest(String::from_str("missing field `id`"))),
        Option::Some(v) => match v {
            Json::UInt(n) => {
                if *n <= u32::MAX as u64 {
                    Ok(*n as u32)
                } else {
                    Err(
                        BridgeError::MalformedRequest(
                            String::from_str(
                                "invalid type for field `id`: expected an unsigned 32-bit integer",
                            ),
                        ),
                    )
                }
            },
            _ => Err(
                BridgeError::MalformedRequest(
                    String::from_str(
                        "invalid type for field `id`: expected an unsigned 32-bit integer",
                    ),
                ),
            ),
        },
    };
    let inner = match parse_request(fields) {
        Ok(req) => req,
        Err(e) => {
            return Err(e);
        },
    };
    let id = match id_check {
        Ok(i) => i,
        Err(e) => {
            return Err(e);
        },
    };
    Ok(GraphQLSubscriptionRequest { inner, id })
}

/// The diagnostic owed for the items of a batch array, or `None` when every
/// item is a well-formed operation object.
pub open spec fn batch_items_issue_view(items: Seq<Json>) -> Option<Seq<char>>
    decreases items.len(),
{
    if items.len() == 0 {
        Option::None
    } else {
        match items.first() {
            Json::Obj(fields) => if request_issue_view(fields@) is Some {
                request_issue_view(fields@)
            } else {
                batch_items_issue_view(items.drop_first())
            },
            _ => Some("expected a JSON object for each operation"@),
        }
    }
}

/// The diagnostic owed for a batch payload, or `None` when it is
/// well-formed: a single operation object, or an array of operation objects.
pub open spec fn batch_issue_view(payload: Json) -> Option<Seq<char>> {
    match payload {
        Json::Obj(fields) => request_issue_view(fields@),
        Json::Arr(items) => batch_items_issue_view(items@),
        _ => Some("expected a JSON object or an array of JSON objects"@),
    }
}

/// The batch payload is well-formed.
pub open spec fn valid_batch_payload(payload: Json) -> bool {
    batch_issue_view(payload) is None
}

/// Each of the first `ops.len()` items of `items` is an operation object
/// read exactly as the corresponding element of `ops`.
pub open spec fn ops_match_prefix(items: Seq<Json>, ops: Seq<GraphQLRequest>) -> bool
    decreases ops.len(),
{
    if ops.len() == 0 {
        true
    } else {
        &&& ops_match_prefix(items, ops.drop_last())
        &&& ops.len() <= items.len()
        &&& (items[ops.len() - 1] matches Json::Obj(fields) && request_matches(
            fields@,
            ops.last(),
        ))
    }
}

proof fn lemma_ops_match_push(items: Seq<Json>, ops: Seq<GraphQLRequest>, op: GraphQLRequest)
    requires
        ops_match_prefix(items, ops),
        ops.len() < items.len(),
        items[ops.len() as int] matches Json::Obj(fields) && request_matches(fields@, op),
    ensures
        ops_match_prefix(items, ops.push(op)),
{
    assert(ops.push(op).drop_last() =~= ops);
    assert(ops.push(op).last() == op);
}

/// `r` is exactly the batch read from `payload`.
pub open spec fn batch_matches(payload: Json, r: BatchRequest) -> bool {
    match payload {
        Json::Obj(fields) => r matches BatchRequest::Single(req) && request_matches(fields@, req),
        Json::Arr(items) => r matches BatchRequest::Batch(ops) && ops@.len() == items@.len()
            && ops_match_prefix(items@, ops@),
        _ => false,
    }
}

/// Reads a batch payload. Succeeds if and only if the payload is
/// well-formed, returning exactly the operations it holds, in order; fails
/// with a `MalformedRequest` carrying exactly the first diagnostic.
pub fn parse_batch(payload: Json) -> (r: Result<BatchRequest, BridgeError>)
    ensures
        valid_batch_payload(payload) ==> (r matches Ok(b) && batch_matches(payload, b)),
        batch_issue_view(payload) matches Some(m) ==> (r matches Err(e)
            && e matches BridgeError::MalformedRequest(msg) && msg@ == m),
{
    match payload {
        Json::Obj(fields) => match parse_request(fields) {
            Ok(req) => Ok(BatchRequest::Single(req)),
            Err(e) => Err(e),
        },
        Json::Arr(items) => {
            let ghost orig = items@;
            let mut items = items;
            let mut ops: Vec<GraphQLRequest> = Vec::new();
            proof {
                assert(orig.skip(0) =~= orig);
            }
            while items.len() > 0
                invariant
                    payload matches Json::Arr(entry) && entry@ == orig,
                    ops@.len() + items@.len() == orig.len(),
                    items@ == orig.skip(ops@.len() as int),
                    batch_items_issue_view(orig) == batch_items_issue_view(
                        orig.skip(ops@.len() as int),
                    ),
                    ops_match_prefix(orig, ops@),
                decreases items.len(),
            {
                let ghost k = ops@.len() as int;
                let item = items.remove(0);
                proof {
                    assert(orig.skip(k).first() == orig[k]);
                    assert(items@ =~= orig.skip(k + 1));
                }
                match item {
                    Json::Obj(fields) => {
                        let ghost gfields = fields;
                        proof {
                            assert(orig[k] == Json::Obj(gfields));
                        }
                        match parse_request(fields) {
                            Ok(req) => {
                                proof {
                                    assert(request_issue_view(gfields@) is None);
                                    assert(request_matches(gfields@, req));
                                }
                                let ghost gops = ops@;
                                ops.push(req);
                                proof {
                                    assert(orig.skip(k).drop_first() =~= orig.skip(k + 1));
                                    assert(orig[k] == Json::Obj(gfields));
                                    lemma_ops_match_push(orig, gops, req);
                                    assert(ops@ == gops.push(req));
                                }
                            },
                            Err(e) => {
                                return Err(e);
                            },
                        }
                    },
                    _ => {
                        return Err(
                            BridgeError::MalformedRequest(
                                String::from_str("expected a JSON object for each operation"),
                            ),
                        );
                    },
                }
            }
            proof {
                assert(orig.skip(ops@.len() as int).len() == 0);
                assert(batch_items_issue_view(orig.skip(ops@.len() as int)) is None);
            }
            Ok(BatchRequest::Batch(ops))
        },
        _ => {
            Err(
                BridgeError::MalformedRequest(
                    String::from_str("expected a JSON object or an array of JSON objects"),
                ),
            )
        },
    }
}

} // verus!
