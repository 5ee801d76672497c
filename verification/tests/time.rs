use zkeydebouncer::time::{Duration, Instant};

#[test]
fn durations_convert_between_units() {
    assert_eq!(Duration::from_millis(8).as_nanos(), 8_000_000);
    assert_eq!(Duration::from_nanos(8_999_999).as_millis(), 8);
    assert_eq!(Duration::from_millis(u64::MAX).as_millis(), u64::MAX as u128);
    assert_eq!(Duration::zero().as_nanos(), 0);
}

#[test]
fn the_gap_between_instants_saturates_at_zero() {
    let a = Instant::from_nanos(100);
    let b = Instant::from_nanos(250);
    assert_eq!(b.saturating_duration_since(a), Duration::from_nanos(150));
    assert_eq!(a.saturating_duration_since(b), Duration::zero());
}

#[test]
fn moving_an_instant_forward_checks_for_overflow() {
    let a = Instant::from_nanos(100);
    assert_eq!(a.checked_add(Duration::from_nanos(5)), Some(Instant::from_nanos(105)));
    assert_eq!(Instant::from_nanos(u128::MAX).checked_add(Duration::from_nanos(1)), None);
}
