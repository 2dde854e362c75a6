use websocket_stream::signal::Fired;
use websocket_stream::signal::PendingSignal;

#[test]
fn first_fire_is_delivered_to_the_receiver() {
    let (mut signal, mut rx) = PendingSignal::new();
    assert!(signal.is_armed());
    assert_eq!(rx.try_recv(), Ok(None));
    assert_eq!(signal.fire(), Fired::Delivered);
    assert!(!signal.is_armed());
    assert_eq!(rx.try_recv(), Ok(Some(())));
}

#[test]
fn late_invocations_are_inert() {
    let (mut signal, mut rx) = PendingSignal::new();
    assert_eq!(signal.fire(), Fired::Delivered);
    assert_eq!(signal.fire(), Fired::Inert);
    assert_eq!(signal.fire(), Fired::Inert);
    assert!(!signal.is_armed());
    assert_eq!(rx.try_recv(), Ok(Some(())));
}

#[test]
fn fire_without_a_receiver_is_abandoned() {
    let (mut signal, rx) = PendingSignal::new();
    drop(rx);
    assert_eq!(signal.fire(), Fired::Abandoned);
    assert_eq!(signal.fire(), Fired::Inert);
}

#[test]
fn unfired_signal_leaves_the_receiver_empty() {
    let (signal, mut rx) = PendingSignal::new();
    assert!(signal.is_armed());
    assert_eq!(rx.try_recv(), Ok(None));
}

#[test]
fn outcome_of_send_is_named() {
    assert_eq!(Fired::of_send(true), Fired::Delivered);
    assert_eq!(Fired::of_send(false), Fired::Abandoned);
}
