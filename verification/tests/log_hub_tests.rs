use alloy_control::log_hub::{Delivery, LogHub, STREAM_CAPACITY};

fn drain(hub: &mut LogHub, slot: usize) -> (Vec<String>, Delivery) {
    let mut got = Vec::new();
    loop {
        match hub.poll(slot) {
            Delivery::Message(m) => got.push(m),
            other => return (got, other),
        }
    }
}

#[test]
fn fan_out_and_terminal_frame() {
    let mut hub = LogHub::new();
    hub.create_stream(1);
    let a = hub.subscribe(1).unwrap();
    assert!(hub.push(1, "L1"));
    assert!(hub.push(1, "L2"));
    assert!(hub.push(1, "L3"));
    let b = hub.subscribe(1).unwrap();
    assert_ne!(a, b);
    assert!(hub.push(1, "L4"));
    assert!(hub.push(1, "{\"type\":\"job_complete\"}"));
    hub.remove_stream(1);

    let (got_a, end_a) = drain(&mut hub, a);
    assert_eq!(got_a, vec!["L1", "L2", "L3", "L4", "{\"type\":\"job_complete\"}"]);
    assert!(matches!(end_a, Delivery::Closed));
    let (got_b, end_b) = drain(&mut hub, b);
    assert_eq!(got_b, vec!["L4", "{\"type\":\"job_complete\"}"]);
    assert!(matches!(end_b, Delivery::Closed));

    // the slots are free again, and the stream is gone
    assert!(matches!(hub.poll(a), Delivery::Unknown));
    assert!(hub.subscribe(1).is_none());
    assert!(!hub.push(1, "late"));
}

#[test]
fn push_without_stream_is_dropped_silently() {
    let mut hub = LogHub::new();
    assert!(!hub.has_stream(7));
    assert!(!hub.push(7, "nobody listens"));
    assert!(hub.subscribe(7).is_none());
    hub.create_stream(7);
    assert!(hub.has_stream(7));
    let s = hub.subscribe(7).unwrap();
    assert!(matches!(hub.poll(s), Delivery::Pending));
}

#[test]
fn create_stream_is_idempotent() {
    let mut hub = LogHub::new();
    hub.create_stream(3);
    let s = hub.subscribe(3).unwrap();
    hub.push(3, "one");
    hub.create_stream(3);
    hub.push(3, "two");
    let (got, end) = drain(&mut hub, s);
    assert_eq!(got, vec!["one", "two"]);
    assert!(matches!(end, Delivery::Pending));
    hub.remove_stream(3);
    assert!(!hub.has_stream(3));
    assert!(matches!(hub.poll(s), Delivery::Closed));
}

#[test]
fn streams_do_not_mix() {
    let mut hub = LogHub::new();
    hub.create_stream(1);
    hub.create_stream(2);
    let one = hub.subscribe(1).unwrap();
    let two = hub.subscribe(2).unwrap();
    hub.push(1, "a");
    hub.push(2, "b");
    hub.push(1, "c");
    assert_eq!(drain(&mut hub, one).0, vec!["a", "c"]);
    assert_eq!(drain(&mut hub, two).0, vec!["b"]);
    hub.remove_stream(1);
    assert!(matches!(hub.poll(one), Delivery::Closed));
    assert!(matches!(hub.poll(two), Delivery::Pending));
}

#[test]
fn slow_reader_is_evicted_and_others_are_not() {
    let mut hub = LogHub::new();
    hub.create_stream(9);
    let slow = hub.subscribe(9).unwrap();
    let fast = hub.subscribe(9).unwrap();
    for i in 0..STREAM_CAPACITY {
        hub.push(9, &format!("m{}", i));
        assert!(matches!(hub.poll(fast), Delivery::Message(_)));
    }
    // the slow reader holds a full queue and has lost nothing yet
    match hub.poll(slow) {
        Delivery::Message(m) => assert_eq!(m, "m0"),
        other => panic!("unexpected {:?}", other),
    }
    hub.push(9, "fill");
    hub.push(9, "overflow");
    assert!(matches!(hub.poll(slow), Delivery::Evicted));
    assert!(matches!(hub.poll(slow), Delivery::Unknown));
    let (got, end) = drain(&mut hub, fast);
    assert_eq!(got, vec!["fill", "overflow"]);
    assert!(matches!(end, Delivery::Pending));
    assert!(hub.has_stream(9));
}

#[test]
fn received_messages_keep_push_order() {
    let mut hub = LogHub::new();
    hub.create_stream(5);
    let s = hub.subscribe(5).unwrap();
    let mut pushed = Vec::new();
    let mut received = Vec::new();
    for round in 0..50 {
        for k in 0..(round % 7) {
            let m = format!("{}-{}", round, k);
            hub.push(5, &m);
            pushed.push(m);
        }
        for _ in 0..(round % 3) {
            if let Delivery::Message(m) = hub.poll(s) {
                received.push(m);
            }
        }
    }
    assert!(received.len() <= pushed.len());
    assert_eq!(received[..], pushed[..received.len()]);
}

#[test]
fn freed_slots_are_reused_first() {
    let mut hub = LogHub::new();
    hub.create_stream(1);
    let a = hub.subscribe(1).unwrap();
    let b = hub.subscribe(1).unwrap();
    let c = hub.subscribe(1).unwrap();
    assert_eq!((a, b, c), (0, 1, 2));
    hub.unsubscribe(b);
    assert!(matches!(hub.poll(b), Delivery::Unknown));
    assert_eq!(hub.subscribe(1), Some(1));
    hub.unsubscribe(a);
    hub.unsubscribe(99);
    assert_eq!(hub.subscribe(1), Some(0));
    assert_eq!(hub.subscribe(1), Some(3));
}

#[test]
fn unsubscribing_leaves_the_stream_to_the_others() {
    let mut hub = LogHub::new();
    hub.create_stream(4);
    let a = hub.subscribe(4).unwrap();
    let b = hub.subscribe(4).unwrap();
    hub.push(4, "x");
    hub.unsubscribe(a);
    hub.push(4, "y");
    assert_eq!(drain(&mut hub, b).0, vec!["x", "y"]);
    assert!(hub.has_stream(4));
}
