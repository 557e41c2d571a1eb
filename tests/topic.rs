use room_relay::topic::{Delivery, Topic, TOPIC_CAPACITY};

fn expect_message(d: Delivery) -> String {
    match d {
        Delivery::Message(m) => m,
        Delivery::Empty => panic!("empty"),
        Delivery::Lagged(n) => panic!("lagged {}", n),
        Delivery::Closed => panic!("closed"),
    }
}

#[test]
fn default_capacity_is_128() {
    assert_eq!(TOPIC_CAPACITY, 128);
    assert_eq!(Topic::with_default_capacity().get_capacity(), 128);
}

#[test]
fn publish_without_subscribers_is_not_retained() {
    let topic = Topic::new(8);
    assert_eq!(topic.publish("lost".to_string()), 0);
    let mut late = topic.subscribe();
    assert!(matches!(late.try_receive(), Delivery::Empty));
    assert_eq!(topic.publish("kept".to_string()), 1);
    assert_eq!(expect_message(late.try_receive()), "kept");
}

#[test]
fn every_subscriber_gets_every_message_in_order() {
    let topic = Topic::new(16);
    let mut subs: Vec<_> = (0..3).map(|_| topic.subscribe()).collect();
    for i in 0..5 {
        assert_eq!(topic.publish(format!("m{}", i)), 3);
    }
    for sub in subs.iter_mut() {
        for i in 0..5 {
            assert_eq!(expect_message(sub.try_receive()), format!("m{}", i));
        }
        assert!(matches!(sub.try_receive(), Delivery::Empty));
    }
}

#[test]
fn lagging_subscriber_skips_to_oldest_kept_message() {
    let topic = Topic::new(4);
    let mut slow = topic.subscribe();
    let mut fast = topic.subscribe();
    for i in 0..6 {
        assert_eq!(topic.publish(format!("m{}", i)), 2);
        assert_eq!(expect_message(fast.try_receive()), format!("m{}", i));
    }
    match slow.try_receive() {
        Delivery::Lagged(n) => assert_eq!(n, 2),
        _ => panic!("slow subscriber should lag"),
    }
    for i in 2..6 {
        assert_eq!(expect_message(slow.try_receive()), format!("m{}", i));
    }
    assert!(matches!(slow.try_receive(), Delivery::Empty));
}

#[test]
fn handle_publishes_to_same_subscribers() {
    let topic = Topic::new(4);
    let other = topic.handle();
    let mut sub = topic.subscribe();
    assert_eq!(other.publish("via handle".to_string()), 1);
    assert_eq!(expect_message(sub.try_receive()), "via handle");
}

#[test]
fn topic_closes_when_publishers_are_gone() {
    let topic = Topic::new(4);
    let mut sub = topic.subscribe();
    assert_eq!(topic.publish("last".to_string()), 1);
    drop(topic);
    assert_eq!(expect_message(sub.try_receive()), "last");
    assert!(matches!(sub.try_receive(), Delivery::Closed));
}
