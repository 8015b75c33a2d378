use memstress::counters::SharedCounters;
use memstress::ticker::TickerSnapshot;
use memstress::ticker::MS_PER_SECOND;

#[test]
fn rates_are_per_second() {
    assert_eq!(MS_PER_SECOND, 1000);
}

#[test]
fn a_tick_without_new_writes_is_silent() {
    let mut t: TickerSnapshot = TickerSnapshot::new(0);
    assert_eq!(t.tick(0, 0, 200), None);
    assert_eq!(t.last_count, 0);
    let mut u: TickerSnapshot = TickerSnapshot::new(500);
    assert_eq!(u.tick(500, 9, 200), None);
    assert_eq!(u.last_count, 500);
}

#[test]
fn a_tick_with_new_writes_gives_a_line() {
    let mut t: TickerSnapshot = TickerSnapshot::new(0);
    let line: Option<String> = t.tick(1000, 3, 200);
    assert_eq!(line, Some("updates 39.0K/s 7.81K, 3 array passes".to_string()));
    assert_eq!(t.last_count, 1000);
}

#[test]
fn the_rate_counts_only_what_is_new() {
    let mut t: TickerSnapshot = TickerSnapshot::new(1000);
    let line: Option<String> = t.tick(1100, 0, 1000);
    assert_eq!(line, Some("updates 800B/s 8.59K, 0 array passes".to_string()));
    let next: Option<String> = t.tick(1100, 0, 1000);
    assert_eq!(next, None);
    let later: Option<String> = t.tick(1101, 12, 3);
    assert_eq!(later, Some("updates 2.60K/s 8.60K, 12 array passes".to_string()));
}

#[test]
fn a_rate_with_a_fraction_keeps_it() {
    let mut t: TickerSnapshot = TickerSnapshot::new(0);
    let line: Option<String> = t.tick(1, 0, 3000);
    assert_eq!(line, Some("updates 2.66B/s 8B, 0 array passes".to_string()));
}

#[test]
fn a_tick_over_no_time_has_no_finite_rate() {
    let mut t: TickerSnapshot = TickerSnapshot::new(0);
    let line: Option<String> = t.tick(10, 1, 0);
    assert_eq!(line, Some("updates infP/s 80B, 1 array passes".to_string()));
}

#[test]
fn a_count_that_went_down_is_silent_and_becomes_the_reference() {
    let mut t: TickerSnapshot = TickerSnapshot::new(100);
    assert_eq!(t.tick(40, 0, 200), None);
    assert_eq!(t.last_count, 40);
    assert_eq!(t.tick(41, 0, 1000), Some("updates 8B/s 328B, 0 array passes".to_string()));
}

#[test]
fn the_largest_counts_do_not_overflow() {
    let mut t: TickerSnapshot = TickerSnapshot::new(0);
    let line: Option<String> = t.tick(u64::MAX, u64::MAX, 1);
    assert_eq!(
        line,
        Some("updates 1310P/s 1310P, 18446744073709551615 array passes".to_string())
    );
}

#[test]
fn sample_reads_the_shared_counters() {
    let counters: SharedCounters = SharedCounters::new();
    let mut t: TickerSnapshot = TickerSnapshot::new(counters.read_updates());
    assert_eq!(t.sample(&counters, 200), None);
    counters.add_updates(1000);
    counters.add_passes(3);
    assert_eq!(
        t.sample(&counters, 200),
        Some("updates 39.0K/s 7.81K, 3 array passes".to_string())
    );
    assert_eq!(t.last_count, 1000);
    assert_eq!(t.sample(&counters, 200), None);
}
