use alvr_server::periodic_log::{PeriodicLogLimiter, LOG_INTERVAL_NS};

#[test]
fn first_call_for_a_tag_is_silent() {
    let mut l = PeriodicLogLimiter::new();
    assert!(!l.should_emit(&"gpu".to_string(), 1_000));
}

#[test]
fn at_most_one_line_per_interval() {
    let mut l = PeriodicLogLimiter::new();
    let tag = "encoder".to_string();
    let start = 5_000u64;
    assert!(!l.should_emit(&tag, start));
    let mut emitted = 0;
    for k in 1..=20u64 {
        if l.should_emit(&tag, start + LOG_INTERVAL_NS + k * 40_000_000) {
            emitted += 1;
        }
    }
    assert_eq!(emitted, 1);
    // after the next interval has elapsed, exactly one more line
    let later = start + 3 * LOG_INTERVAL_NS;
    assert!(l.should_emit(&tag, later));
    assert!(!l.should_emit(&tag, later));
}

#[test]
fn exactly_at_interval_is_silent() {
    let mut l = PeriodicLogLimiter::new();
    let tag = "t".to_string();
    assert!(!l.should_emit(&tag, 0));
    assert!(!l.should_emit(&tag, LOG_INTERVAL_NS));
    assert!(l.should_emit(&tag, LOG_INTERVAL_NS + 1));
}

#[test]
fn tags_are_independent() {
    let mut l = PeriodicLogLimiter::new();
    let a = "a".to_string();
    let b = "b".to_string();
    assert!(!l.should_emit(&a, 0));
    assert!(!l.should_emit(&b, LOG_INTERVAL_NS));
    assert!(l.should_emit(&a, LOG_INTERVAL_NS + 1));
    assert!(!l.should_emit(&b, LOG_INTERVAL_NS + 1));
}

#[test]
fn timestamps_near_the_top_do_not_overflow() {
    let mut l = PeriodicLogLimiter::new();
    let tag = "x".to_string();
    assert!(!l.should_emit(&tag, u64::MAX - 10));
    assert!(!l.should_emit(&tag, u64::MAX));
}

#[test]
fn idle_gap_gives_one_line_per_interval() {
    let mut l = PeriodicLogLimiter::new();
    let tag = "gap".to_string();
    assert!(!l.should_emit(&tag, 0));
    let five = 5 * LOG_INTERVAL_NS;
    assert!(l.should_emit(&tag, five));
    assert!(!l.should_emit(&tag, five + 1));
    assert!(!l.should_emit(&tag, five + LOG_INTERVAL_NS));
    assert!(l.should_emit(&tag, five + LOG_INTERVAL_NS + 1));
}
