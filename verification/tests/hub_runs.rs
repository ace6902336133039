use bot_supervisor::capture::IOMessage;
use bot_supervisor::hub::BroadcastHub;
use bot_supervisor::hub::RelayOutcome;

fn message(text: &str) -> IOMessage {
    IOMessage { data: text.as_bytes().to_vec() }
}

fn drain(hub: &mut BroadcastHub, id: usize) -> Vec<String> {
    let mut seen = Vec::new();
    loop {
        let moved = matches!(hub.relay(id), RelayOutcome::Received | RelayOutcome::Delivered);
        let mut took = false;
        while let Some(next) = hub.next(id) {
            seen.push(next.message);
            took = true;
        }
        if !moved && !took {
            return seen;
        }
    }
}

#[test]
fn new_hub_is_empty() {
    let mut hub = BroadcastHub::new();
    assert_eq!(hub.pending(), 0);
    assert_eq!(hub.subscribers(), 0);
    assert_eq!(hub.relay(0), RelayOutcome::Unknown);
    assert!(hub.next(0).is_none());
}

#[test]
fn subscribers_are_numbered_in_order() {
    let mut hub = BroadcastHub::new();
    assert_eq!(hub.subscribe(), 0);
    assert_eq!(hub.subscribe(), 1);
    assert_eq!(hub.subscribers(), 2);
    assert_eq!(hub.relay(2), RelayOutcome::Unknown);
}

#[test]
fn relay_receives_then_delivers() {
    let mut hub = BroadcastHub::new();
    let id = hub.subscribe();
    assert_eq!(hub.relay(id), RelayOutcome::Idle);
    hub.publish(message("hello\n"));
    assert_eq!(hub.pending(), 1);
    assert!(hub.next(id).is_none());
    assert_eq!(hub.relay(id), RelayOutcome::Received);
    assert_eq!(hub.pending(), 0);
    assert!(hub.next(id).is_none());
    assert_eq!(hub.relay(id), RelayOutcome::Delivered);
    assert_eq!(hub.next(id).map(|m| m.message), Some("hello\n".to_string()));
    assert!(hub.next(id).is_none());
    assert_eq!(hub.relay(id), RelayOutcome::Idle);
}

#[test]
fn single_subscriber_sees_everything_in_order() {
    let mut hub = BroadcastHub::new();
    hub.publish(message("before anyone listened\n"));
    let id = hub.subscribe();
    let mut expected = vec!["before anyone listened\n".to_string()];
    for i in 0..10 {
        let text = format!("line {}\n", i);
        hub.publish(message(&text));
        expected.push(text);
    }
    assert_eq!(drain(&mut hub, id), expected);
    assert_eq!(hub.pending(), 0);
}

#[test]
fn relay_blocks_when_the_outbound_queue_is_full() {
    let mut hub = BroadcastHub::new();
    let id = hub.subscribe();
    for i in 0..6 {
        hub.publish(message(&format!("{}", i)));
    }
    for _ in 0..4 {
        assert_eq!(hub.relay(id), RelayOutcome::Received);
        assert_eq!(hub.relay(id), RelayOutcome::Delivered);
    }
    assert_eq!(hub.relay(id), RelayOutcome::Received);
    assert_eq!(hub.relay(id), RelayOutcome::Blocked);
    assert_eq!(hub.relay(id), RelayOutcome::Blocked);
    assert_eq!(hub.pending(), 1);
    // Nothing was dropped while the relay waited.
    assert_eq!(hub.next(id).map(|m| m.message), Some("0".to_string()));
    assert_eq!(hub.relay(id), RelayOutcome::Delivered);
    assert_eq!(drain(&mut hub, id), vec!["1", "2", "3", "4", "5"]);
}

#[test]
fn two_subscribers_share_the_messages_without_duplication() {
    let mut hub = BroadcastHub::new();
    let first = hub.subscribe();
    let second = hub.subscribe();
    let mut expected = Vec::new();
    for i in 0..9 {
        let text = format!("message {}", i);
        hub.publish(message(&text));
        expected.push(text);
    }
    let mut seen_by_first = Vec::new();
    let mut seen_by_second = Vec::new();
    // The relays take turns, the first one twice as often.
    for _ in 0..40 {
        hub.relay(first);
        hub.relay(first);
        hub.relay(second);
        if let Some(next) = hub.next(first) {
            seen_by_first.push(next.message);
        }
        if let Some(next) = hub.next(second) {
            seen_by_second.push(next.message);
        }
    }
    assert_eq!(hub.pending(), 0);
    assert!(!seen_by_first.is_empty());
    assert!(!seen_by_second.is_empty());
    assert_eq!(seen_by_first.len() + seen_by_second.len(), expected.len());
    let mut union: Vec<String> = seen_by_first.iter().chain(seen_by_second.iter()).cloned().collect();
    union.sort();
    expected.sort();
    assert_eq!(union, expected);
    // Each subscriber sees its share in the order of publication.
    let mut sorted = seen_by_first.clone();
    sorted.sort();
    assert_eq!(seen_by_first, sorted);
    let mut sorted = seen_by_second.clone();
    sorted.sort();
    assert_eq!(seen_by_second, sorted);
}

#[test]
fn hub_decodes_lossily() {
    let mut hub = BroadcastHub::new();
    let id = hub.subscribe();
    hub.publish(IOMessage { data: vec![0x61, 0x80, 0x62] });
    assert_eq!(drain(&mut hub, id), vec!["a\u{fffd}b"]);
}
