use zkeydebouncer::win_hook::{
    classify, HookMessage, PROBE_VK, WM_KEYDOWN, WM_KEYUP, WM_SYSKEYDOWN, WM_SYSKEYUP,
};
use zkeydebouncer::hook::{HookState, KeyEvent, Notice, Outcome};
use zkeydebouncer::time::{Duration, Instant};

fn at(ms: u64) -> Instant {
    Instant::from_nanos(ms as u128 * 1_000_000)
}

fn window() -> Duration {
    Duration::from_millis(30)
}

const PASSED: Outcome = Outcome { seen: true, swallow: false, notice: Notice::Passed };
const RELEASED: Outcome = Outcome { seen: false, swallow: false, notice: Notice::Silent };
const UNFILTERED_PRESS: Outcome = Outcome { seen: true, swallow: false, notice: Notice::Silent };

#[test]
fn presses_are_reported_and_releases_are_not() {
    let mut h = HookState::new();
    assert_eq!(h.decide(65u32, true, true, at(0), window()), PASSED);
    assert_eq!(h.decide(65u32, false, true, at(50), window()), RELEASED);
}

#[test]
fn a_bounce_is_swallowed_and_reported_with_its_gap() {
    let mut h = HookState::new();
    h.decide(65u32, true, true, at(0), window());
    h.decide(65u32, false, true, at(50), window());
    assert_eq!(
        h.decide(65u32, true, true, at(58), window()),
        Outcome { seen: true, swallow: true, notice: Notice::Blocked { gap: Duration::from_millis(8) } }
    );
    assert_eq!(
        h.decide(65u32, false, true, at(60), window()),
        Outcome { seen: false, swallow: true, notice: Notice::Silent }
    );
}

#[test]
fn nothing_is_swallowed_while_filtering_is_off() {
    let mut h = HookState::new();
    h.decide(65u32, true, false, at(0), window());
    h.decide(65u32, false, false, at(50), window());
    assert_eq!(h.decide(65u32, true, false, at(58), window()), UNFILTERED_PRESS);
}

#[test]
fn switching_filtering_forgets_the_keys() {
    let mut h = HookState::new();
    h.decide(65u32, true, true, at(0), window());
    h.decide(65u32, false, true, at(50), window());
    h.decide(66u32, true, false, at(52), window());
    assert_eq!(h.decide(65u32, true, true, at(58), window()), PASSED);
}

#[test]
fn events_report_what_happened() {
    let pass = KeyEvent::pass(4);
    assert_eq!(pass.kind, "pass");
    assert_eq!(pass.key, None);
    assert_eq!(pass.gap_ms, None);
    assert_eq!(pass.total, 4);

    let block = KeyEvent::block("A".to_string(), Duration::from_nanos(8_999_999), 5);
    assert_eq!(block.kind, "block");
    assert_eq!(block.key, Some("A".to_string()));
    assert_eq!(block.gap_ms, Some(8));
    assert_eq!(block.total, 6);

    let wrapped = KeyEvent::block("B".to_string(), Duration::zero(), u64::MAX);
    assert_eq!(wrapped.total, 0);
    assert_eq!(wrapped.gap_ms, Some(0));
}

#[test]
fn hook_messages_are_sorted() {
    assert_eq!(classify(0, 0x41, WM_KEYDOWN), HookMessage::Key { pressed: true });
    assert_eq!(classify(0, 0x41, WM_SYSKEYDOWN), HookMessage::Key { pressed: true });
    assert_eq!(classify(0, 0x41, WM_KEYUP), HookMessage::Key { pressed: false });
    assert_eq!(classify(0, 0x41, WM_SYSKEYUP), HookMessage::Key { pressed: false });
    assert_eq!(classify(0, PROBE_VK, WM_KEYUP), HookMessage::Probe);
    assert_eq!(classify(0, 0x41, 0x0102), HookMessage::Other);
    assert_eq!(classify(-1, 0x41, WM_KEYDOWN), HookMessage::Other);
}
