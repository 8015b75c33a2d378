use memstress::counters::SharedCounters;
use std::sync::Arc;

#[test]
fn new_counters_are_zero() {
    let counters: SharedCounters = SharedCounters::new();
    assert_eq!(counters.read_updates(), 0);
    assert_eq!(counters.read_passes(), 0);
}

#[test]
fn additions_accumulate_independently() {
    let counters: SharedCounters = SharedCounters::new();
    counters.add_updates(100);
    counters.add_updates(24);
    counters.add_passes(3);
    assert_eq!(counters.read_updates(), 124);
    assert_eq!(counters.read_passes(), 3);
    counters.add_passes(0);
    counters.add_updates(0);
    assert_eq!(counters.read_updates(), 124);
    assert_eq!(counters.read_passes(), 3);
}

#[test]
fn reads_never_go_down_while_adding() {
    let counters: SharedCounters = SharedCounters::new();
    let mut last: u64 = 0;
    for n in 0..1000u64 {
        counters.add_updates(n % 7);
        let now: u64 = counters.read_updates();
        assert!(now >= last);
        last = now;
    }
    assert_eq!(last, (0..1000u64).map(|n| n % 7).sum::<u64>());
}

#[test]
fn reads_never_go_down_with_several_writers() {
    let counters: Arc<SharedCounters> = Arc::new(SharedCounters::new());
    let writers: Vec<Arc<SharedCounters>> = (0..4).map(|_| Arc::clone(&counters)).collect();
    let mut last: u64 = 0;
    for round in 0..10_000u64 {
        let writer: &Arc<SharedCounters> = &writers[(round % 4) as usize];
        writer.add_updates(round % 5);
        writer.add_passes(1);
        let now: u64 = counters.read_updates();
        assert!(now >= last);
        assert_eq!(now, last + round % 5);
        last = now;
    }
    assert_eq!(counters.read_updates(), 20_000);
    assert_eq!(counters.read_passes(), 10_000);
}
