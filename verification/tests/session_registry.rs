//! Tests of the session registry: idempotent registration and removal,
//! and broadcast fan-out by tag.

use bot_gateway::registry::SessionRegistry;

fn tags(ts: &[&str]) -> Vec<String> {
    ts.iter().map(|t| t.to_string()).collect()
}

#[test]
fn broadcast_to_unheld_tag_reaches_nobody() {
    let reg = SessionRegistry::new();
    let targets = reg.broadcast(&"bot".to_string());
    assert_eq!(targets.len(), 0);

    let mut reg = SessionRegistry::new();
    reg.register(1, tags(&["guild", "42"]));
    let targets = reg.broadcast(&"bot".to_string());
    assert_eq!(targets.len(), 0);
}

#[test]
fn broadcast_reaches_every_holder_in_order() {
    let mut reg = SessionRegistry::new();
    reg.register(1, tags(&["bot"]));
    reg.register(2, tags(&["guild", "42"]));
    reg.register(3, tags(&["guild", "7"]));
    assert_eq!(reg.broadcast(&"guild".to_string()), vec![2, 3]);
    assert_eq!(reg.broadcast(&"42".to_string()), vec![2]);
    assert_eq!(reg.broadcast(&"bot".to_string()), vec![1]);
}

#[test]
fn register_is_idempotent() {
    let mut reg = SessionRegistry::new();
    reg.register(1, tags(&["guild", "42"]));
    reg.register(1, tags(&["guild", "43"]));
    assert_eq!(reg.len(), 1);
    assert_eq!(reg.broadcast(&"43".to_string()), vec![1]);
    assert_eq!(reg.broadcast(&"42".to_string()), Vec::<u64>::new());
}

#[test]
fn remove_is_idempotent() {
    let mut reg = SessionRegistry::new();
    reg.register(1, tags(&["bot"]));
    reg.register(2, tags(&["guild", "42"]));
    reg.remove(1);
    assert_eq!(reg.len(), 1);
    reg.remove(1);
    assert_eq!(reg.len(), 1);
    assert!(!reg.contains(1));
    assert!(reg.contains(2));
}
