use camrec::slot::LatestSlot;

#[test]
fn new_slot_is_empty() {
    let mut s: LatestSlot<u32> = LatestSlot::new();
    assert!(s.is_empty());
    assert_eq!(s.take(), None);
}

#[test]
fn take_returns_latest_publication() {
    let mut s = LatestSlot::new();
    s.publish(1u32);
    s.publish(2);
    s.publish(3);
    assert_eq!(s.take(), Some(3));
    assert_eq!(s.take(), None);
}

#[test]
fn publish_after_take_is_seen() {
    let mut s = LatestSlot::new();
    s.publish(String::from("a"));
    assert_eq!(s.take().as_deref(), Some("a"));
    s.publish(String::from("b"));
    assert_eq!(s.take().as_deref(), Some("b"));
}

#[test]
fn peek_leaves_the_value() {
    let mut s = LatestSlot::new();
    assert_eq!(s.peek(), None);
    s.publish(-60i32);
    assert_eq!(s.peek(), Some(&-60));
    assert_eq!(s.peek(), Some(&-60));
    assert!(!s.is_empty());
}
