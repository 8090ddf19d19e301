use chat_relay::dispatch::{
    notification_for, plan_deliveries, test_notification_payload, Notification, StoreError,
    Subscription,
};
use chat_relay::message::ChatMessage;
use chat_relay::relay::{relay_step, RelayAction};

fn sub(endpoint: &str) -> Subscription {
    Subscription { endpoint: endpoint.to_string(), p256dh: "key".to_string(), auth: "auth".to_string() }
}

fn chat(user: &str, content: &str) -> ChatMessage {
    ChatMessage::TextMessage { username: user.to_string(), content: content.to_string(), signature: None }
}

#[test]
fn relay_republishes_in_order() {
    let inbound = vec![chat("a", "1"), chat("b", "2"), ChatMessage::SystemMessage { content: "x".to_string() }];
    let published: Vec<ChatMessage> = inbound
        .iter()
        .map(|m| match relay_step(Some(m.clone())) {
            RelayAction::Publish(p) => p,
            RelayAction::Halt => panic!("halted"),
        })
        .collect();
    assert_eq!(published, inbound);
}

#[test]
fn relay_halts_on_closed_queue() {
    assert_eq!(relay_step(None), RelayAction::Halt);
}

#[test]
fn text_messages_notify() {
    let n = notification_for(&chat("alice", "hello")).unwrap();
    assert_eq!(
        n,
        Notification { title: "alice".to_string(), body: "hello".to_string(), always_show: false }
    );
}

#[test]
fn other_kinds_do_not_notify() {
    assert_eq!(notification_for(&ChatMessage::SystemMessage { content: "s".to_string() }), None);
    assert_eq!(notification_for(&ChatMessage::ConnectionUsername { username: "u".to_string() }), None);
}

#[test]
fn test_payload_is_always_shown() {
    let n = test_notification_payload();
    assert_eq!(n.title, "Test Push notification");
    assert_eq!(n.body, "This is what incoming chat messages will look like");
    assert!(n.always_show);
}

#[test]
fn fan_out_reaches_each_subscriber() {
    let note = notification_for(&chat("alice", "hi")).unwrap();
    let plan = plan_deliveries(Ok(vec![sub("https://one"), sub("https://two")]), &note);
    assert_eq!(plan.len(), 2);
    assert_eq!(plan[0].subscription, sub("https://one"));
    assert_eq!(plan[1].subscription, sub("https://two"));
    assert!(plan.iter().all(|d| d.payload == note));
}

#[test]
fn fan_out_for_one_subscriber_ignores_failing_neighbour() {
    let note = notification_for(&chat("alice", "hi")).unwrap();
    let with_bad = plan_deliveries(Ok(vec![sub("https://ok"), sub("https://expired")]), &note);
    let alone = plan_deliveries(Ok(vec![sub("https://ok")]), &note);
    let to_ok: Vec<_> = with_bad.iter().filter(|d| d.subscription.endpoint == "https://ok").collect();
    assert_eq!(to_ok.len(), 1);
    assert_eq!(*to_ok[0], alone[0]);
    let next = notification_for(&chat("bob", "again")).unwrap();
    assert_eq!(plan_deliveries(Ok(vec![sub("https://ok"), sub("https://expired")]), &next).len(), 2);
}

#[test]
fn duplicate_descriptor_gets_one_attempt() {
    let note = notification_for(&chat("a", "b")).unwrap();
    let plan = plan_deliveries(Ok(vec![sub("https://x"), sub("https://y"), sub("https://x")]), &note);
    assert_eq!(plan.len(), 2);
    assert_eq!(plan.iter().filter(|d| d.subscription == sub("https://x")).count(), 1);
}

#[test]
fn same_endpoint_other_keys_are_distinct() {
    let note = notification_for(&chat("a", "b")).unwrap();
    let mut other = sub("https://x");
    other.auth = "other".to_string();
    let plan = plan_deliveries(Ok(vec![sub("https://x"), other]), &note);
    assert_eq!(plan.len(), 2);
}

#[test]
fn empty_snapshot_plans_nothing() {
    let note = notification_for(&chat("a", "b")).unwrap();
    assert!(plan_deliveries(Ok(vec![]), &note).is_empty());
}

#[test]
fn store_failure_skips_event() {
    let note = notification_for(&chat("a", "b")).unwrap();
    let plan = plan_deliveries(Err(StoreError { reason: "disk".to_string() }), &note);
    assert!(plan.is_empty());
}
