use libecs::termination::{create_termination, Interrupted};

#[test]
fn first_reason_is_published() {
    let mut terminator = create_termination();
    assert_eq!(terminator.reason(), None);
    let fresh = terminator.terminate(Interrupted::UserInt);
    assert!(fresh);
    assert_eq!(terminator.reason(), Some(Interrupted::UserInt));
}

#[test]
fn terminate_is_idempotent_across_reasons() {
    let mut terminator = create_termination();
    let first = terminator.terminate(Interrupted::UserInt);
    let second = terminator.terminate(Interrupted::OsSigInt);
    assert!(first);
    assert!(!second);
    // Every subscriber observes the first reason, and only ever that one.
    assert_eq!(terminator.reason(), Some(Interrupted::UserInt));
    assert_eq!(terminator.reason(), Some(Interrupted::UserInt));
}

#[test]
fn terminate_is_idempotent_with_equal_reasons() {
    let mut terminator = create_termination();
    assert!(terminator.terminate(Interrupted::OsSigInt));
    assert!(!terminator.terminate(Interrupted::OsSigInt));
    assert_eq!(terminator.reason(), Some(Interrupted::OsSigInt));
}

#[test]
fn late_subscriber_still_observes_the_reason() {
    let mut terminator = create_termination();
    terminator.terminate(Interrupted::OsSigInt);
    // A subscriber that only looks after the broadcast (level-triggered).
    assert_eq!(terminator.reason(), Some(Interrupted::OsSigInt));
}
