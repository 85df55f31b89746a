use async_graphql::dynamic::{
    Field, FieldFuture, Object, Schema, Subscription, SubscriptionField, SubscriptionFieldFuture,
    TypeRef,
};
use futures::StreamExt;
use graphql_ipc::batch::batch_reply;
use graphql_ipc::engine::{finish_batch, subscription_item};
use graphql_ipc::errors::BridgeError;
use graphql_ipc::json::{Json, JsonField};
use graphql_ipc::request::{parse_batch, parse_subscription, BatchRequest};
use graphql_ipc::session::SubscriptionSession;

fn test_schema() -> Schema {
    let query = Object::new("Query").field(Field::new(
        "ping",
        TypeRef::named_nn(TypeRef::STRING),
        |_| FieldFuture::from_value(Some(async_graphql::Value::from("pong"))),
    ));
    Schema::build("Query", None, None)
        .register(query)
        .finish()
        .expect("schema builds")
}

#[test]
fn well_formed_batch_returns_body_with_data_and_ok_true() {
    // The full bridge path for one well-formed operation: parse the payload,
    // run it against a real schema, and form the reply.
    let payload = Json::Obj(vec![JsonField {
        name: "query".to_string(),
        value: Json::Str("{ __typename }".to_string()),
    }]);
    let query = match parse_batch(payload) {
        Ok(BatchRequest::Single(req)) => req.query,
        _ => panic!("expected a single operation"),
    };

    let schema = test_schema();
    let response = futures::executor::block_on(schema.execute(async_graphql::Request::new(query)));
    let batch = async_graphql::BatchResponse::Single(response);

    let reply = match finish_batch(&batch) {
        Ok(r) => r,
        Err(_) => panic!("expected a serialized reply"),
    };
    assert!(reply.ok);
    let parsed_back: serde_json::Value = serde_json::from_str(&reply.body).expect("body is JSON");
    let object = parsed_back.as_object().expect("body is a JSON object");
    assert!(object.contains_key("data"));
    assert!(!object.contains_key("errors"));
    assert_eq!(parsed_back["data"]["__typename"], "Query");
}

#[test]
fn executor_errors_keep_the_transport_successful_with_ok_false() {
    // A field that does not exist: the execution fails at the GraphQL
    // level, but the bridge still replies with a serialized body; only the
    // verdict drops.
    let schema = test_schema();
    let response =
        futures::executor::block_on(schema.execute(async_graphql::Request::new("{ missing }")));
    let batch = async_graphql::BatchResponse::Single(response);
    let reply = match finish_batch(&batch) {
        Ok(r) => r,
        Err(_) => panic!("expected a serialized reply"),
    };
    assert!(!reply.ok);
    let parsed_back: serde_json::Value = serde_json::from_str(&reply.body).expect("body is JSON");
    assert!(parsed_back.as_object().expect("object").contains_key("errors"));
}

#[test]
fn batch_reply_passes_body_and_verdict_through() {
    let r = batch_reply(Ok("{\"data\":{}}".to_string()), true);
    match r {
        Ok(rep) => {
            assert_eq!(rep.body, "{\"data\":{}}");
            assert!(rep.ok);
        }
        Err(_) => panic!("expected a reply"),
    }
    let r = batch_reply(Ok("{}".to_string()), false);
    match r {
        Ok(rep) => assert!(!rep.ok),
        Err(_) => panic!("expected a reply"),
    }
}

#[test]
fn batch_reply_surfaces_serialization_failure() {
    let r = batch_reply(Err("key must be a string".to_string()), true);
    match r {
        Ok(_) => panic!("expected a serialization failure"),
        Err(e) => {
            assert!(matches!(e, BridgeError::SerializationFailure(_)));
            assert_eq!(e.message(), "key must be a string");
        }
    }
}

#[test]
fn subscription_stream_delivers_items_in_order_then_the_sentinel() {
    let query = Object::new("Query").field(Field::new(
        "ping",
        TypeRef::named_nn(TypeRef::STRING),
        |_| FieldFuture::from_value(Some(async_graphql::Value::from("pong"))),
    ));
    let subscription = Subscription::new("Subscription").field(SubscriptionField::new(
        "count",
        TypeRef::named_nn(TypeRef::INT),
        |_| {
            SubscriptionFieldFuture::new(async {
                Ok(futures::stream::iter((1..=3).map(|i| {
                    Ok::<_, async_graphql::Error>(async_graphql::Value::from(i))
                })))
            })
        },
    ));
    let schema = Schema::build("Query", None, Some("Subscription"))
        .register(query)
        .register(subscription)
        .finish()
        .expect("schema builds");

    let payload = Json::Obj(vec![
        JsonField {
            name: "query".to_string(),
            value: Json::Str("subscription { count }".to_string()),
        },
        JsonField { name: "id".to_string(), value: Json::UInt(42) },
    ]);
    let request = parse_subscription(payload).expect("well-formed subscription request");
    assert_eq!(request.id, 42);

    let mut session = SubscriptionSession::new(request.id);
    let mut events = Vec::new();
    futures::executor::block_on(async {
        let mut stream =
            schema.execute_stream(async_graphql::Request::new(request.inner.query.clone()));
        while let Some(response) = stream.next().await {
            let emission = subscription_item(&mut session, &response)
                .expect("every item serializes");
            events.push(emission);
        }
    });
    events.push(session.finish());

    assert_eq!(events.len(), 4);
    for e in &events {
        assert_eq!(e.channel, "graphql://42");
    }
    for (i, expected) in [1, 2, 3].iter().enumerate() {
        let body = events[i].payload.as_deref().expect("an item payload");
        let parsed: serde_json::Value = serde_json::from_str(body).expect("item body is JSON");
        assert_eq!(parsed["data"]["count"], *expected);
    }
    assert!(events[3].payload.is_none());
}

#[test]
fn reissuing_the_same_batch_gives_two_independent_equal_replies() {
    let schema = test_schema();
    let run = || {
        let payload = Json::Obj(vec![JsonField {
            name: "query".to_string(),
            value: Json::Str("{ ping }".to_string()),
        }]);
        let query = match parse_batch(payload) {
            Ok(BatchRequest::Single(req)) => req.query,
            _ => panic!("expected a single operation"),
        };
        let response =
            futures::executor::block_on(schema.execute(async_graphql::Request::new(query)));
        match finish_batch(&async_graphql::BatchResponse::Single(response)) {
            Ok(r) => r,
            Err(_) => panic!("expected a serialized reply"),
        }
    };
    let first = run();
    let again = run();
    assert_eq!(first.body, again.body);
    assert_eq!(first.ok, again.ok);
    assert!(first.ok);
}
