use quorum_store::utils::DigestTimeouts;

#[test]
fn deadline_rounds_up_to_whole_ticks() {
    // 250 ms rounds up to three 100 ms ticks: nothing fires before the
    // third advance, the third one consumes the registration.
    let mut timeouts = DigestTimeouts::new();
    timeouts.add_digest(1, 250);
    assert!(timeouts.expire().is_empty());
    assert!(timeouts.expire().is_empty());
    assert_eq!(timeouts.expire(), vec![1]);
    assert!(timeouts.expire().is_empty());
}

#[test]
fn exact_multiple_is_not_rounded() {
    let mut timeouts = DigestTimeouts::new();
    timeouts.add_digest(2, 200);
    assert!(timeouts.expire().is_empty());
    assert_eq!(timeouts.expire(), vec![2]);
}

#[test]
fn short_timeouts_fire_on_the_next_tick() {
    let mut timeouts = DigestTimeouts::new();
    timeouts.add_digest(3, 1);
    timeouts.add_digest(4, 100);
    assert_eq!(timeouts.expire(), vec![3, 4]);
}

#[test]
fn registrations_are_independent_and_not_deduplicated() {
    // Re-adding the same digest schedules an additional deadline; each
    // registration is consumed exactly once.
    let mut timeouts = DigestTimeouts::new();
    timeouts.add_digest(5, 100);
    timeouts.add_digest(5, 200);
    assert_eq!(timeouts.expire(), vec![5]);
    assert_eq!(timeouts.expire(), vec![5]);
    assert!(timeouts.expire().is_empty());
}

#[test]
fn elapsed_registrations_are_reported_in_order() {
    let mut timeouts = DigestTimeouts::new();
    timeouts.add_digest(7, 100);
    timeouts.add_digest(8, 50);
    timeouts.add_digest(9, 150);
    // 100 ms and 50 ms both fall within the first tick, in registration
    // order; 150 ms rounds up to the second tick.
    assert_eq!(timeouts.expire(), vec![7, 8]);
    assert_eq!(timeouts.expire(), vec![9]);
}

#[test]
fn late_registration_keeps_its_own_deadline() {
    let mut timeouts = DigestTimeouts::new();
    timeouts.add_digest(10, 100);
    assert_eq!(timeouts.expire(), vec![10]);
    // Registered after one tick: its clock starts there.
    timeouts.add_digest(11, 200);
    assert!(timeouts.expire().is_empty());
    assert_eq!(timeouts.expire(), vec![11]);
}
