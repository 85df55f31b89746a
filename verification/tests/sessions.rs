use graphql_ipc::session::{Emission, SubscriptionSession};

fn payload_of(e: &Emission) -> Option<String> {
    e.payload.clone()
}

#[test]
fn three_items_then_end_give_four_ordered_events_ending_in_the_sentinel() {
    let mut session = SubscriptionSession::new(42);
    let mut events: Vec<Emission> = Vec::new();
    events.push(session.on_item("item1".to_string()));
    events.push(session.on_item("item2".to_string()));
    events.push(session.on_item("item3".to_string()));
    events.push(session.finish());

    assert_eq!(events.len(), 4);
    for e in &events {
        assert_eq!(e.channel, "graphql://42");
    }
    assert_eq!(payload_of(&events[0]).as_deref(), Some("item1"));
    assert_eq!(payload_of(&events[1]).as_deref(), Some("item2"));
    assert_eq!(payload_of(&events[2]).as_deref(), Some("item3"));
    assert!(events[3].payload.is_none());
}

#[test]
fn concurrent_sessions_never_cross_deliver() {
    let mut one = SubscriptionSession::new(1);
    let mut two = SubscriptionSession::new(2);
    let from_one = one.on_item("a".to_string());
    let from_two = two.on_item("b".to_string());
    assert_eq!(from_one.channel, "graphql://1");
    assert_eq!(from_two.channel, "graphql://2");
    assert_ne!(from_one.channel, from_two.channel);
    let end_one = one.finish();
    assert_eq!(end_one.channel, "graphql://1");
}

fn torn_down_sink(_e: &Emission) -> Result<(), String> {
    Err("caller session torn down".to_string())
}

#[test]
fn a_torn_down_session_ends_the_loop_without_the_remaining_items_or_sentinel() {
    // Three items were expected, but the caller session is gone, so the
    // first push fails: the drain loop aborts, items 2 and 3 are never
    // emitted and no sentinel is ever sent.
    let mut session = SubscriptionSession::new(7);
    let mut delivered: Vec<Emission> = Vec::new();
    let mut sentinel_sent = false;
    for item in ["item1", "item2", "item3"] {
        let e = session.on_item(item.to_string());
        match torn_down_sink(&e) {
            Ok(()) => delivered.push(e),
            Err(_) => {
                session.abort();
                break;
            }
        }
    }
    if delivered.len() == 3 {
        let end = session.finish();
        sentinel_sent = torn_down_sink(&end).is_ok();
    }
    assert!(delivered.is_empty());
    assert!(!sentinel_sent);
}

#[test]
fn drain_all_yields_items_in_order_then_the_sentinel() {
    let items = vec!["a".to_string(), "b".to_string(), "c".to_string()];
    let events = graphql_ipc::session::drain_all(42, items);
    assert_eq!(events.len(), 4);
    for e in &events {
        assert_eq!(e.channel, "graphql://42");
    }
    assert_eq!(events[0].payload.as_deref(), Some("a"));
    assert_eq!(events[1].payload.as_deref(), Some("b"));
    assert_eq!(events[2].payload.as_deref(), Some("c"));
    assert!(events[3].payload.is_none());
}

#[test]
fn delivery_failure_has_its_own_message() {
    let e = graphql_ipc::errors::BridgeError::DeliveryFailure;
    assert_eq!(e.message(), "subscription event delivery failed");
}
