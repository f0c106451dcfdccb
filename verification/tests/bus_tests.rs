use chat_relay::bus::{Bus, Envelope, Recv};

#[test]
fn subscriber_starts_at_now() {
    let mut bus = Bus::new(10);
    bus.publish(Envelope::new(String::from("early\n"), 1));
    let mut sub = bus.subscribe();
    assert!(matches!(bus.try_recv(&mut sub), Recv::Empty));
}

#[test]
fn delivery_is_in_publish_order() {
    let mut bus = Bus::new(10);
    let mut sub = bus.subscribe();
    bus.publish(Envelope::new(String::from("one\n"), 1));
    bus.publish(Envelope::new(String::from("two\n"), 2));
    match bus.try_recv(&mut sub) {
        Recv::Message(e) => {
            assert_eq!(e.text, "one\n");
            assert_eq!(e.origin, 1);
        }
        _ => panic!("expected a message"),
    }
    match bus.try_recv(&mut sub) {
        Recv::Message(e) => {
            assert_eq!(e.text, "two\n");
            assert_eq!(e.origin, 2);
        }
        _ => panic!("expected a message"),
    }
    assert!(matches!(bus.try_recv(&mut sub), Recv::Empty));
}

#[test]
fn publishing_with_no_subscribers_succeeds() {
    let mut bus = Bus::new(4);
    for i in 0..20u64 {
        bus.publish(Envelope::new(format!("m{}\n", i), i));
    }
    let mut sub = bus.subscribe();
    assert!(matches!(bus.try_recv(&mut sub), Recv::Empty));
}

#[test]
fn slow_subscriber_sees_gap_and_continues() {
    let capacity = 3usize;
    let mut bus = Bus::new(capacity);
    let mut sub = bus.subscribe();
    for i in 0..(capacity as u64 + 5) {
        bus.publish(Envelope::new(format!("m{}\n", i), i));
    }
    match bus.try_recv(&mut sub) {
        Recv::Lagged(n) => assert_eq!(n, 5),
        _ => panic!("expected a lag report"),
    }
    for i in 5..(capacity as u64 + 5) {
        match bus.try_recv(&mut sub) {
            Recv::Message(e) => assert_eq!(e.text, format!("m{}\n", i)),
            _ => panic!("expected a message"),
        }
    }
    assert!(matches!(bus.try_recv(&mut sub), Recv::Empty));
    bus.publish(Envelope::new(String::from("after\n"), 9));
    match bus.try_recv(&mut sub) {
        Recv::Message(e) => assert_eq!(e.text, "after\n"),
        _ => panic!("expected a message"),
    }
}

#[test]
fn lag_is_reported_once_then_delivery_resumes() {
    let mut bus = Bus::new(2);
    let mut sub = bus.subscribe();
    bus.publish(Envelope::new(String::from("a\n"), 1));
    bus.publish(Envelope::new(String::from("b\n"), 1));
    bus.publish(Envelope::new(String::from("c\n"), 1));
    match bus.try_recv(&mut sub) {
        Recv::Lagged(n) => assert_eq!(n, 1),
        _ => panic!("expected a lag report"),
    }
    match bus.try_recv(&mut sub) {
        Recv::Message(e) => assert_eq!(e.text, "b\n"),
        _ => panic!("expected a message"),
    }
    match bus.try_recv(&mut sub) {
        Recv::Message(e) => assert_eq!(e.text, "c\n"),
        _ => panic!("expected a message"),
    }
    assert!(matches!(bus.try_recv(&mut sub), Recv::Empty));
}
