use bot_supervisor::bot::Bot;
use bot_supervisor::capture::IOMessage;
use bot_supervisor::manager::BotManager;
use std::sync::mpsc::channel;
use std::sync::Arc;
use std::sync::Mutex;

fn manager() -> BotManager {
    let (_sender, receiver) = channel::<IOMessage>();
    BotManager::new(Arc::new(Mutex::new(receiver)))
}

fn bot(id: &str, name: &str) -> Bot {
    Bot::with_id(id.to_string(), name)
}

#[test]
fn new_registry_is_empty() {
    let manager = manager();
    assert_eq!(manager.len(), 0);
    assert!(manager.position(&"a".to_string()).is_none());
    assert!(manager.get(&"a".to_string()).is_none());
}

#[test]
fn insert_registers_under_the_identifier() {
    let mut manager = manager();
    assert!(manager.insert(bot("a", "first")).is_none());
    assert!(manager.insert(bot("b", "second")).is_none());
    assert_eq!(manager.len(), 2);
    assert_eq!(manager.position(&"a".to_string()), Some(0));
    assert_eq!(manager.position(&"b".to_string()), Some(1));
    assert_eq!(manager.get(&"b".to_string()).map(|b| b.name.as_str()), Some("second"));
    assert!(manager.get(&"c".to_string()).is_none());
}

#[test]
fn insert_refuses_a_taken_identifier() {
    let mut manager = manager();
    assert!(manager.insert(bot("a", "first")).is_none());
    match manager.insert(bot("a", "impostor")) {
        Some(refused) => assert_eq!(refused.name, "impostor"),
        None => panic!("the identifier is taken"),
    }
    assert_eq!(manager.len(), 1);
    assert_eq!(manager.get(&"a".to_string()).map(|b| b.name.as_str()), Some("first"));
}

#[test]
fn remove_takes_the_bot_out_and_keeps_the_order() {
    let mut manager = manager();
    assert!(manager.insert(bot("a", "first")).is_none());
    assert!(manager.insert(bot("b", "second")).is_none());
    assert!(manager.insert(bot("c", "third")).is_none());
    match manager.remove(&"b".to_string()) {
        Some(removed) => assert_eq!(removed.name, "second"),
        None => panic!("the bot is registered"),
    }
    assert_eq!(manager.len(), 2);
    assert_eq!(manager.position(&"a".to_string()), Some(0));
    assert_eq!(manager.position(&"c".to_string()), Some(1));
    assert!(manager.remove(&"b".to_string()).is_none());
    assert_eq!(manager.len(), 2);
}

#[test]
fn registered_bots_from_new_never_collide() {
    let mut manager = manager();
    for _ in 0..50 {
        assert!(manager.insert(Bot::new("worker")).is_none());
    }
    assert_eq!(manager.len(), 50);
}
