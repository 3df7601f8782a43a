use social_space::registry::{Handle, Registry};
use tokio::sync::mpsc::{unbounded_channel, UnboundedReceiver};

fn open(id: u64) -> (Handle, UnboundedReceiver<String>) {
    let (sink, inbox) = unbounded_channel::<String>();
    (Handle { id, sink }, inbox)
}

fn drain(inbox: &mut UnboundedReceiver<String>) -> Vec<String> {
    let mut frames = Vec::new();
    while let Ok(frame) = inbox.try_recv() {
        frames.push(frame);
    }
    frames
}

#[test]
fn new_registry_has_nobody() {
    let registry = Registry::new();
    assert!(!registry.is_present("alice"));
    assert_eq!(registry.deliver("alice", "hello"), Vec::<u64>::new());
}

#[test]
fn register_makes_present_and_deliver_reaches_the_handle() {
    let mut registry = Registry::new();
    let (handle, mut inbox) = open(1);
    registry.register("alice", handle);
    assert!(registry.is_present("alice"));
    assert!(!registry.is_present("bob"));
    assert_eq!(registry.deliver("alice", "hello"), vec![1]);
    assert_eq!(drain(&mut inbox), vec!["hello".to_string()]);
}

#[test]
fn deliver_fans_out_to_every_handle_of_the_identity_once() {
    let mut registry = Registry::new();
    let (phone, mut phone_inbox) = open(1);
    let (laptop, mut laptop_inbox) = open(2);
    let (other, mut other_inbox) = open(3);
    registry.register("alice", phone);
    registry.register("bob", other);
    registry.register("alice", laptop);
    assert_eq!(registry.deliver("alice", "ping"), vec![1, 2]);
    assert_eq!(drain(&mut phone_inbox), vec!["ping".to_string()]);
    assert_eq!(drain(&mut laptop_inbox), vec!["ping".to_string()]);
    assert!(drain(&mut other_inbox).is_empty());
}

#[test]
fn deliver_to_absent_identity_is_a_no_op() {
    let mut registry = Registry::new();
    let (handle, mut inbox) = open(1);
    registry.register("alice", handle);
    assert_eq!(registry.deliver("carol", "ping"), Vec::<u64>::new());
    assert!(drain(&mut inbox).is_empty());
}

#[test]
fn deliveries_arrive_in_the_order_they_were_made() {
    let mut registry = Registry::new();
    let (handle, mut inbox) = open(7);
    registry.register("alice", handle);
    registry.deliver("alice", "one");
    registry.deliver("alice", "two");
    registry.deliver("alice", "three");
    assert_eq!(
        drain(&mut inbox),
        vec!["one".to_string(), "two".to_string(), "three".to_string()]
    );
}

#[test]
fn registering_the_same_handle_again_changes_nothing() {
    let mut registry = Registry::new();
    let (handle, mut inbox) = open(1);
    let again = handle.duplicate();
    registry.register("alice", handle);
    registry.register("alice", again);
    assert_eq!(registry.deliver("alice", "ping"), vec![1]);
    assert_eq!(drain(&mut inbox), vec!["ping".to_string()]);
}

#[test]
fn a_handle_registered_for_another_identity_moves() {
    let mut registry = Registry::new();
    let (handle, mut inbox) = open(1);
    let again = handle.duplicate();
    registry.register("alice", handle);
    registry.register("bob", again);
    assert!(!registry.is_present("alice"));
    assert!(registry.is_present("bob"));
    assert_eq!(registry.deliver("alice", "for alice"), Vec::<u64>::new());
    assert_eq!(registry.deliver("bob", "for bob"), vec![1]);
    assert_eq!(drain(&mut inbox), vec!["for bob".to_string()]);
}

#[test]
fn a_moved_handle_leaves_the_other_handles_of_its_old_identity() {
    let mut registry = Registry::new();
    let (first, _first_inbox) = open(1);
    let (second, _second_inbox) = open(2);
    let moved = first.duplicate();
    registry.register("alice", first);
    registry.register("alice", second);
    registry.register("bob", moved);
    assert_eq!(registry.deliver("alice", "x"), vec![2]);
    assert_eq!(registry.deliver("bob", "x"), vec![1]);
}

#[test]
fn unregister_removes_the_whole_entry() {
    let mut registry = Registry::new();
    let (phone, mut phone_inbox) = open(1);
    let (laptop, mut laptop_inbox) = open(2);
    let (other, mut other_inbox) = open(3);
    registry.register("alice", phone);
    registry.register("alice", laptop);
    registry.register("bob", other);
    registry.unregister("alice");
    assert!(!registry.is_present("alice"));
    assert_eq!(registry.deliver("alice", "ping"), Vec::<u64>::new());
    assert!(drain(&mut phone_inbox).is_empty());
    assert!(drain(&mut laptop_inbox).is_empty());
    assert_eq!(registry.deliver("bob", "ping"), vec![3]);
    assert_eq!(drain(&mut other_inbox), vec!["ping".to_string()]);
}

#[test]
fn unregister_of_an_absent_identity_changes_nothing() {
    let mut registry = Registry::new();
    let (handle, _inbox) = open(1);
    registry.register("alice", handle);
    registry.unregister("bob");
    assert!(registry.is_present("alice"));
    assert_eq!(registry.deliver("alice", "ping"), vec![1]);
}

#[test]
fn register_after_unregister_starts_a_new_entry() {
    let mut registry = Registry::new();
    let (old, mut old_inbox) = open(1);
    let (new, mut new_inbox) = open(2);
    registry.register("alice", old);
    registry.unregister("alice");
    registry.register("alice", new);
    assert_eq!(registry.deliver("alice", "ping"), vec![2]);
    assert!(drain(&mut old_inbox).is_empty());
    assert_eq!(drain(&mut new_inbox), vec!["ping".to_string()]);
}

#[test]
fn a_closed_receiver_is_passed_over() {
    let mut registry = Registry::new();
    let (gone, gone_inbox) = open(1);
    let (here, mut here_inbox) = open(2);
    registry.register("alice", gone);
    registry.register("alice", here);
    drop(gone_inbox);
    assert_eq!(registry.deliver("alice", "ping"), vec![1, 2]);
    assert_eq!(drain(&mut here_inbox), vec!["ping".to_string()]);
}

#[test]
fn identities_are_compared_by_their_characters() {
    let mut registry = Registry::new();
    let (handle, _inbox) = open(1);
    registry.register("alice", handle);
    assert!(!registry.is_present("Alice"));
    assert!(!registry.is_present("alic"));
    assert!(!registry.is_present("alice "));
    assert!(registry.is_present("alice"));
}
