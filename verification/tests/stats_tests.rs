use newswatch::statistics::{Incr, Statistics};

#[test]
fn fresh_window_is_zeroed() {
    let s = Statistics::new(42);
    assert_eq!(s.fetch_attempts, 0);
    assert_eq!(s.new_items, 0);
    assert_eq!(s.errors, 0);
    assert_eq!(s.window_start, 42);
}

#[test]
fn increments_touch_only_their_counter() {
    let mut s = Statistics::new(0);
    s.increment(Incr::FetchCounter);
    s.increment(Incr::FetchCounter);
    s.increment(Incr::NewNews);
    s.increment(Incr::Errors);
    assert_eq!(s.fetch_attempts, 2);
    assert_eq!(s.new_items, 1);
    assert_eq!(s.errors, 1);
    assert_eq!(s.window_start, 0);
}

#[test]
fn three_new_items_flush_to_three_then_zero() {
    let mut s = Statistics::new(7);
    s.increment(Incr::NewNews);
    s.increment(Incr::NewNews);
    s.increment(Incr::NewNews);
    let report = s.flush(100);
    assert_eq!(report.new_items, 3);
    assert_eq!(report.window_start, 7);
    assert_eq!(s.new_items, 0);
    assert_eq!(s.fetch_attempts, 0);
    assert_eq!(s.errors, 0);
    assert_eq!(s.window_start, 100);
}

#[test]
fn counters_saturate_at_the_top() {
    let mut s = Statistics {
        fetch_attempts: u64::MAX,
        new_items: 0,
        errors: 0,
        window_start: 0,
    };
    s.increment(Incr::FetchCounter);
    assert_eq!(s.fetch_attempts, u64::MAX);
}
