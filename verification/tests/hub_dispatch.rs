use sea_lantern::dispatch::{DispatchError, DispatchQueue};
use sea_lantern::hub::BroadcastHub;

#[test]
fn subscriber_sees_lines_published_after_subscribing_only() {
    let mut hub = BroadcastHub::new(4);
    let early = "before anyone listened".to_string();
    hub.publish(&early);
    let sub = hub.subscribe();
    assert_eq!(hub.take_next(sub), None);
    let late = "after subscribing".to_string();
    hub.publish(&late);
    assert_eq!(hub.take_next(sub).as_deref(), Some("after subscribing"));
    assert_eq!(hub.take_next(sub), None);
}

#[test]
fn full_subscriber_queue_drops_its_oldest_line() {
    let mut hub = BroadcastHub::new(2);
    let sub = hub.subscribe();
    hub.publish(&"one".to_string());
    hub.publish(&"two".to_string());
    hub.publish(&"three".to_string());
    assert_eq!(hub.take_next(sub).as_deref(), Some("two"));
    assert_eq!(hub.take_next(sub).as_deref(), Some("three"));
    assert_eq!(hub.take_next(sub), None);
}

#[test]
fn publish_reaches_every_live_subscriber_in_order() {
    let mut hub = BroadcastHub::new(8);
    let a = hub.subscribe();
    let b = hub.subscribe();
    hub.publish(&"first".to_string());
    hub.publish(&"second".to_string());
    for sub in [a, b] {
        assert_eq!(hub.take_next(sub).as_deref(), Some("first"));
        assert_eq!(hub.take_next(sub).as_deref(), Some("second"));
        assert_eq!(hub.take_next(sub), None);
    }
}

#[test]
fn unsubscribe_removes_only_the_named_handle() {
    let mut hub = BroadcastHub::new(4);
    let a = hub.subscribe();
    let b = hub.subscribe();
    assert_eq!(hub.subscriber_count(), 2);
    hub.unsubscribe(a);
    assert_eq!(hub.subscriber_count(), 1);
    hub.publish(&"still delivered".to_string());
    assert_eq!(hub.take_next(b).as_deref(), Some("still delivered"));
    hub.unsubscribe(b);
    assert_eq!(hub.subscriber_count(), 0);
}

#[test]
fn dispatch_preserves_submission_order() {
    let mut queue = DispatchQueue::new(8);
    let commands = ["save-all", "list uuids", "save-off", "save-on", "seed"];
    for command in commands {
        queue.submit(&command.to_string()).unwrap();
    }
    for command in commands {
        assert_eq!(queue.pop_next().as_deref(), Some(command));
    }
    assert_eq!(queue.pop_next(), None);
}

#[test]
fn full_queue_refuses_without_losing_commands() {
    let mut queue = DispatchQueue::new(2);
    queue.submit(&"a".to_string()).unwrap();
    queue.submit(&"b".to_string()).unwrap();
    assert_eq!(
        queue.submit(&"c".to_string()),
        Err(DispatchError::QueueFull)
    );
    assert_eq!(queue.pop_next().as_deref(), Some("a"));
    queue.submit(&"c".to_string()).unwrap();
    assert_eq!(queue.pop_next().as_deref(), Some("b"));
    assert_eq!(queue.pop_next().as_deref(), Some("c"));
}

#[test]
fn closed_queue_refuses_submissions_but_drains() {
    let mut queue = DispatchQueue::new(2);
    queue.submit(&"pending".to_string()).unwrap();
    queue.close();
    assert_eq!(
        queue.submit(&"late".to_string()),
        Err(DispatchError::QueueClosed)
    );
    assert_eq!(queue.pop_next().as_deref(), Some("pending"));
    assert_eq!(queue.pop_next(), None);
}
