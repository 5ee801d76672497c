use zkeydebouncer::settings::{clamp_threshold, DEFAULT_WINDOW_MS, MAX_WINDOW_MS, MIN_WINDOW_MS};
use zkeydebouncer::watchdog::Watchdog;

#[test]
fn three_missed_probes_in_a_row_ask_for_a_reinstall() {
    let mut w = Watchdog::new();
    assert!(!w.after_probe(false));
    assert!(!w.after_probe(false));
    assert!(w.after_probe(false));
    assert!(!w.after_probe(false));
}

#[test]
fn a_seen_probe_starts_the_count_again() {
    let mut w = Watchdog::new();
    assert!(!w.after_probe(false));
    assert!(!w.after_probe(false));
    assert!(!w.after_probe(true));
    assert!(!w.after_probe(false));
    assert!(!w.after_probe(false));
    assert!(w.after_probe(false));
}

#[test]
fn the_threshold_is_kept_in_range() {
    assert_eq!(clamp_threshold(0), MIN_WINDOW_MS);
    assert_eq!(clamp_threshold(1000), MAX_WINDOW_MS);
    assert_eq!(clamp_threshold(42), 42);
    assert_eq!(clamp_threshold(DEFAULT_WINDOW_MS), 30);
    assert_eq!((MIN_WINDOW_MS, MAX_WINDOW_MS), (5, 150));
}
