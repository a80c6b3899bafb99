use tor_bridge::deadline::Deadline;

#[test]
fn deadline_expires_at_start_plus_duration() {
    let d = Deadline::starting_at(1_000, 250);
    assert!(!d.expired(1_000));
    assert!(!d.expired(1_249));
    assert!(d.expired(1_250));
    assert!(d.expired(9_999));
}

#[test]
fn deadline_remaining_saturates_at_zero() {
    let d = Deadline::starting_at(1_000, 250);
    assert_eq!(d.remaining(1_000), 250);
    assert_eq!(d.remaining(1_100), 150);
    assert_eq!(d.remaining(1_250), 0);
    assert_eq!(d.remaining(5_000), 0);
}
