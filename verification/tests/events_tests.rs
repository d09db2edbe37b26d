use reaper_session::events::{fan_out, EventStreamSubject, ReentrantPublish};

#[test]
fn publish_delivers_to_both_subscribers_in_subscription_order() {
    let mut subject = EventStreamSubject::new();
    let first = subject.subscribe().unwrap();
    let second = subject.subscribe().unwrap();
    assert!(first < second);
    let plan = subject.begin_publish().unwrap();
    assert_eq!(plan, vec![first, second]);
    // The fan-out pairs every subscriber with the published value, in plan
    // order: the value reaches both.
    let deliveries = fan_out(&plan, 42u32);
    assert_eq!(deliveries, vec![(first, 42), (second, 42)]);
    subject.end_publish();
}

#[test]
fn publish_with_zero_subscribers_is_a_successful_no_op() {
    let mut subject = EventStreamSubject::new();
    let plan = subject.begin_publish().unwrap();
    assert!(plan.is_empty());
    subject.end_publish();
}

#[test]
fn reentrant_publish_is_detected_and_reported() {
    let mut subject = EventStreamSubject::new();
    subject.subscribe().unwrap();
    let plan = subject.begin_publish().unwrap();
    assert_eq!(plan.len(), 1);
    // A second publish of the same subject, triggered while the first is
    // still delivering, is reported as a failure instead of corrupting
    // delivery order.
    assert_eq!(subject.begin_publish(), Err(ReentrantPublish));
    subject.end_publish();
    // Once the first publish is over, publishing works again.
    assert!(subject.begin_publish().is_ok());
    subject.end_publish();
}

#[test]
fn distinct_subjects_may_publish_within_each_other() {
    let mut a = EventStreamSubject::new();
    let mut b = EventStreamSubject::new();
    let plan_a = a.begin_publish().unwrap();
    // While subject a is delivering, a push to the distinct subject b is
    // fine.
    let plan_b = b.begin_publish().unwrap();
    assert!(plan_a.is_empty());
    assert!(plan_b.is_empty());
    b.end_publish();
    a.end_publish();
}

#[test]
fn unsubscribe_keeps_remaining_order() {
    let mut subject = EventStreamSubject::new();
    let first = subject.subscribe().unwrap();
    let second = subject.subscribe().unwrap();
    let third = subject.subscribe().unwrap();
    assert!(subject.unsubscribe(second));
    assert!(!subject.unsubscribe(second));
    let plan = subject.begin_publish().unwrap();
    assert_eq!(plan, vec![first, third]);
    subject.end_publish();
}

#[test]
fn subscriber_count_tracks_subscriptions() {
    let mut subject = EventStreamSubject::new();
    assert_eq!(subject.subscribed_size(), 0);
    let handle = subject.subscribe().unwrap();
    assert_eq!(subject.subscribed_size(), 1);
    subject.unsubscribe(handle);
    assert_eq!(subject.subscribed_size(), 0);
}
