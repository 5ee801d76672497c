use zkeydebouncer::debounce::{Debouncer, Decision};
use zkeydebouncer::time::{Duration, Instant};

fn window() -> Duration {
    Duration::from_millis(30)
}

fn start() -> Instant {
    Instant::from_nanos(7_000_000_000)
}

fn after(t: Instant, ms: u64) -> Instant {
    t.checked_add(Duration::from_millis(ms)).unwrap()
}

fn dropped(d: Decision) -> bool {
    matches!(d, Decision::Drop { .. })
}

#[test]
fn a_clean_press_and_release_is_forwarded() {
    let mut d = Debouncer::new();
    let t = start();
    assert_eq!(d.on_press('a' as u32, t, window()), Decision::Forward);
    assert_eq!(d.on_release('a' as u32, after(t, 60)), Decision::Forward);
}

#[test]
fn a_bounce_and_its_release_are_both_dropped() {
    let mut d = Debouncer::new();
    let t = start();
    d.on_press('a' as u32, t, window());
    d.on_release('a' as u32, after(t, 50));

    let bounce = d.on_press('a' as u32, after(t, 58), window());
    assert_eq!(bounce, Decision::Drop { gap: Duration::from_millis(8) });
    assert!(dropped(d.on_release('a' as u32, after(t, 60))));
}

#[test]
fn a_deliberate_second_press_outside_the_window_is_forwarded() {
    let mut d = Debouncer::new();
    let t = start();
    d.on_press('a' as u32, t, window());
    d.on_release('a' as u32, after(t, 50));
    let again = d.on_press('a' as u32, after(t, 90), window());
    assert_eq!(again, Decision::Forward);
}

#[test]
fn auto_repeat_is_never_mistaken_for_chatter() {
    let mut d = Debouncer::new();
    let t = start();
    d.on_press('a' as u32, t, window());

    for ms in [500, 530, 560, 590] {
        let r = d.on_press('a' as u32, after(t, ms), window());
        assert_eq!(r, Decision::Forward, "repeat at {ms}ms was dropped");
    }
}

#[test]
fn keys_are_tracked_independently() {
    let mut d = Debouncer::new();
    let t = start();
    d.on_press('a' as u32, t, window());
    d.on_release('a' as u32, after(t, 10));

    assert_eq!(d.on_press('b' as u32, after(t, 12), window()), Decision::Forward);
    assert!(dropped(d.on_press('a' as u32, after(t, 14), window())));
}

#[test]
fn repeated_bounces_are_all_dropped() {
    let mut d = Debouncer::new();
    let t = start();
    d.on_press('a' as u32, t, window());
    d.on_release('a' as u32, after(t, 20));
    for i in 0..4 {
        let at = after(t, 22 + i * 4);
        assert!(dropped(d.on_press('a' as u32, at, window())));
        assert!(dropped(d.on_release('a' as u32, after(at, 2))));
    }

    assert_eq!(d.on_press('a' as u32, after(t, 200), window()), Decision::Forward);
}

#[test]
fn a_press_exactly_one_window_after_the_release_is_forwarded() {
    let mut d = Debouncer::new();
    let t = start();
    d.on_press(1u32, t, window());
    d.on_release(1u32, after(t, 40));
    assert_eq!(d.on_press(1u32, after(t, 70), window()), Decision::Forward);
}

#[test]
fn a_press_just_inside_the_window_is_dropped_with_its_gap() {
    let mut d = Debouncer::new();
    let t = start();
    d.on_press(1u32, t, window());
    d.on_release(1u32, after(t, 40));
    let at = Instant::from_nanos(after(t, 70).nanos - 1);
    assert_eq!(
        d.on_press(1u32, at, window()),
        Decision::Drop { gap: Duration::from_nanos(29_999_999) }
    );
}

#[test]
fn a_second_press_during_a_bounce_is_dropped_with_zero_gap() {
    let mut d = Debouncer::new();
    let t = start();
    d.on_press('a' as u32, t, window());
    d.on_release('a' as u32, after(t, 10));
    assert_eq!(d.on_press('a' as u32, after(t, 15), window()), Decision::Drop { gap: Duration::from_millis(5) });
    assert_eq!(d.on_press('a' as u32, after(t, 16), window()), Decision::Drop { gap: Duration::zero() });
    assert_eq!(d.on_release('a' as u32, after(t, 17)), Decision::Drop { gap: Duration::zero() });
}

#[test]
fn a_release_without_a_press_is_forwarded() {
    let mut d = Debouncer::new();
    assert_eq!(d.on_release('z' as u32, start()), Decision::Forward);
}

#[test]
fn a_clock_that_goes_backwards_counts_as_no_gap() {
    let mut d = Debouncer::new();
    let t = start();
    d.on_press('a' as u32, after(t, 100), window());
    d.on_release('a' as u32, after(t, 100));
    assert_eq!(d.on_press('a' as u32, t, window()), Decision::Drop { gap: Duration::zero() });
}

#[test]
fn clear_forgets_every_key() {
    let mut d = Debouncer::new();
    let t = start();
    d.on_press('a' as u32, t, window());
    d.on_release('a' as u32, after(t, 10));
    d.clear();
    assert_eq!(d.on_press('a' as u32, after(t, 12), window()), Decision::Forward);
}

#[test]
fn a_zero_window_drops_nothing() {
    let mut d = Debouncer::new();
    let t = start();
    d.on_press('a' as u32, t, Duration::zero());
    d.on_release('a' as u32, after(t, 1));
    assert_eq!(d.on_press('a' as u32, after(t, 1), Duration::zero()), Decision::Forward);
}
