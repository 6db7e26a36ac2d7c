use telemetry_core::hub::{Hub, RecvOutcome};

#[test]
fn fresh_subscriber_sees_nothing_before_next_publication() {
    let mut hub: Hub<u32> = Hub::new();
    hub.publish(1);
    hub.publish(2);
    let mut port = hub.subscribe();
    assert!(matches!(hub.recv(&mut port), RecvOutcome::Pending));
}

#[test]
fn late_subscriber_first_value_is_next_publication() {
    let mut hub: Hub<u32> = Hub::new();
    hub.publish(10);
    hub.publish(20);
    let mut port = hub.subscribe();
    hub.publish(30);
    match hub.recv(&mut port) {
        RecvOutcome::Value(v) => assert_eq!(*v, 30),
        _ => panic!("expected the next publication, not a backlog value"),
    }
}

#[test]
fn paced_subscriber_receives_every_publication_in_order() {
    let mut hub: Hub<u32> = Hub::new();
    let mut port = hub.subscribe();
    let mut got: Vec<u32> = Vec::new();
    for v in [7u32, 8, 9, 10] {
        hub.publish(v);
        match hub.recv(&mut port) {
            RecvOutcome::Value(x) => got.push(*x),
            _ => panic!("a paced subscriber never lags"),
        }
    }
    assert_eq!(got, vec![7, 8, 9, 10]);
}

#[test]
fn disconnecting_one_subscriber_leaves_the_other_unaffected() {
    let mut hub: Hub<u32> = Hub::new();
    let mut first = hub.subscribe();
    let mut second = hub.subscribe();
    hub.publish(1);
    assert!(matches!(hub.recv(&mut first), RecvOutcome::Value(&1)));
    assert!(matches!(hub.recv(&mut second), RecvOutcome::Value(&1)));
    drop(first);
    hub.publish(2);
    hub.publish(3);
    assert!(matches!(hub.recv(&mut second), RecvOutcome::Lagged));
    match hub.recv(&mut second) {
        RecvOutcome::Value(v) => assert_eq!(*v, 3),
        _ => panic!("the still-connected subscriber keeps receiving"),
    }
}

#[test]
fn lagging_subscriber_skips_to_latest_instead_of_queueing() {
    let mut hub: Hub<u32> = Hub::new();
    let mut port = hub.subscribe();
    hub.publish(1);
    hub.publish(2);
    hub.publish(3);
    assert!(matches!(hub.recv(&mut port), RecvOutcome::Lagged));
    match hub.recv(&mut port) {
        RecvOutcome::Value(v) => assert_eq!(*v, 3),
        _ => panic!("after a lag the latest value is delivered"),
    }
    assert!(matches!(hub.recv(&mut port), RecvOutcome::Pending));
}

#[test]
fn publish_with_zero_subscribers_is_a_no_op_for_later_joiners() {
    let mut hub: Hub<u32> = Hub::new();
    hub.publish(99);
    let mut port = hub.subscribe();
    assert!(matches!(hub.recv(&mut port), RecvOutcome::Pending));
}
