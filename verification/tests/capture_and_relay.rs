use bot_supervisor::broadcast::forward_text;
use bot_supervisor::broadcast::relay_step;
use bot_supervisor::broadcast::MyBroadcastService;
use bot_supervisor::broadcast::ReceiveError;
use bot_supervisor::broadcast::RelayAction;
use bot_supervisor::broadcast::SubscribeError;
use bot_supervisor::broadcast::SUBSCRIBER_CAPACITY;
use bot_supervisor::capture::capture_step;
use bot_supervisor::capture::CaptureAction;
use bot_supervisor::capture::IOMessage;
use bot_supervisor::failure::OsFailure;
use bot_supervisor::manager::BotManager;
use bot_supervisor::manager::SharedReceiver;
use std::sync::mpsc::channel;
use std::sync::Arc;
use std::sync::Mutex;

fn receiving_end() -> SharedReceiver {
    let (_sender, receiver) = channel::<IOMessage>();
    Arc::new(Mutex::new(receiver))
}

fn text_of(action: RelayAction) -> String {
    match action {
        RelayAction::Forward(message) => message.message,
        RelayAction::Continue => panic!("a received message is forwarded"),
    }
}

#[test]
fn capture_forwards_a_chunk_as_it_is() {
    match capture_step(Ok(vec![104, 105, 0, 255])) {
        CaptureAction::Forward(message) => assert_eq!(message.data, vec![104, 105, 0, 255]),
        CaptureAction::Finish(_) => panic!("a chunk with data is forwarded"),
    }
}

#[test]
fn capture_finishes_at_end_of_stream() {
    assert!(matches!(capture_step(Ok(Vec::new())), CaptureAction::Finish(None)));
}

#[test]
fn capture_finishes_on_a_read_failure_and_hands_it_on() {
    let failure = OsFailure { code: Some(5), message: "Input/output error".to_string() };
    match capture_step(Err(failure)) {
        CaptureAction::Finish(Some(logged)) => {
            assert_eq!(logged.code, Some(5));
            assert_eq!(logged.message, "Input/output error");
        }
        _ => panic!("a failed read ends the loop"),
    }
}

#[test]
fn captured_bytes_equal_written_bytes_in_order() {
    let reads: Vec<Vec<u8>> = vec![
        b"first line\n".to_vec(),
        b"sec".to_vec(),
        b"ond line\n".to_vec(),
        Vec::new(),
        b"after the end".to_vec(),
    ];
    let mut observed: Vec<u8> = Vec::new();
    let mut messages = 0;
    for read in reads {
        match capture_step(Ok(read)) {
            CaptureAction::Forward(message) => {
                observed.extend_from_slice(&message.data);
                messages += 1;
            }
            CaptureAction::Finish(_) => break,
        }
    }
    assert_eq!(messages, 3);
    assert_eq!(observed, b"first line\nsecond line\n".to_vec());
}

#[test]
fn relay_forwards_hello_as_text() {
    let action = relay_step(Ok(IOMessage { data: b"hello\n".to_vec() }));
    assert_eq!(text_of(action), "hello\n");
}

#[test]
fn relay_keeps_well_formed_text_beyond_ascii() {
    let action = relay_step(Ok(IOMessage { data: "gr\u{fc}\u{df}e \u{2603}".as_bytes().to_vec() }));
    assert_eq!(text_of(action), "gr\u{fc}\u{df}e \u{2603}");
}

#[test]
fn relay_replaces_ill_formed_bytes() {
    let action = relay_step(Ok(IOMessage { data: vec![0x66, 0xff, 0x6f] }));
    assert_eq!(text_of(action), "f\u{fffd}o");
}

#[test]
fn relay_forwards_an_empty_payload_as_empty_text() {
    let action = relay_step(Ok(IOMessage { data: Vec::new() }));
    assert_eq!(text_of(action), "");
}

#[test]
fn relay_goes_on_after_a_failed_receive() {
    assert!(matches!(relay_step(Err(ReceiveError)), RelayAction::Continue));
}

#[test]
fn forward_text_wraps_the_text() {
    assert_eq!(text_of(forward_text("ready".to_string())), "ready");
}

#[test]
fn one_subscriber_gets_exactly_hello() {
    // The bot prints "hello\n" in one chunk and exits.
    let mut relayed: Vec<String> = Vec::new();
    for read in vec![b"hello\n".to_vec(), Vec::new()] {
        match capture_step(Ok(read)) {
            CaptureAction::Forward(message) => relayed.push(text_of(relay_step(Ok(message)))),
            CaptureAction::Finish(_) => break,
        }
    }
    assert_eq!(relayed, vec!["hello\n".to_string()]);
}

#[test]
fn subscriber_capacity_is_four() {
    assert_eq!(SUBSCRIBER_CAPACITY, 4);
}

#[test]
fn grant_with_the_receiving_end_gives_a_subscription() {
    let receiver = receiving_end();
    match MyBroadcastService::grant(Some(receiver.clone())) {
        Ok(subscription) => {
            assert_eq!(subscription.capacity, 4);
            assert!(Arc::ptr_eq(&subscription.receiver, &receiver));
        }
        Err(_) => panic!("the receiving end is in hand"),
    }
}

#[test]
fn grant_without_the_lock_is_an_internal_error() {
    match MyBroadcastService::grant(None) {
        Err(SubscribeError::Internal(text)) => assert_eq!(text, "Failed to lock bot manager"),
        Ok(_) => panic!("no lock, no subscription"),
    }
}

#[test]
fn subscribe_hands_out_the_shared_receiving_end() {
    let receiver = receiving_end();
    let manager = Arc::new(Mutex::new(BotManager::new(receiver.clone())));
    let service = MyBroadcastService::new(manager.clone());
    assert!(Arc::ptr_eq(&service.bot_manager, &manager));
    for _ in 0..2 {
        match service.subscribe() {
            Ok(subscription) => {
                assert_eq!(subscription.capacity, 4);
                assert!(Arc::ptr_eq(&subscription.receiver, &receiver));
            }
            Err(_) => panic!("the lock is free"),
        }
    }
    // The lock was given back: the registry can still be reached.
    assert!(manager.try_lock().is_ok());
}
