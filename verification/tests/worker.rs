use memstress::counters::SharedCounters;
use memstress::worker::check_word;
use memstress::worker::BufferWorker;
use memstress::worker::Corruption;
use memstress::worker::PassReport;
use memstress::worker::WorkerConfig;
use memstress::worker::MULTIPLIER;
use memstress::worker::SLOT_LIMIT;
use memstress::worker::WORD_BYTES;

fn worker(budget: usize, batch: u64) -> BufferWorker {
    match BufferWorker::new(WorkerConfig { budget, batch }) {
        Some(w) => w,
        None => panic!("no worker for {} bytes", budget),
    }
}

#[test]
fn constants_of_the_pattern() {
    assert_eq!(WORD_BYTES, 8);
    assert_eq!(MULTIPLIER, 1982);
    assert_eq!(SLOT_LIMIT, u64::MAX / 1982);
}

#[test]
fn budget_pays_for_one_slot_per_eight_bytes() {
    assert_eq!(WorkerConfig { budget: 8192, batch: 1 }.slots(), 1024);
    assert_eq!(WorkerConfig { budget: 8199, batch: 1 }.slots(), 1024);
    assert_eq!(WorkerConfig { budget: 7, batch: 1 }.slots(), 0);
    assert_eq!(WorkerConfig { budget: 0, batch: 1 }.slots(), 0);
}

#[test]
fn new_worker_has_a_zeroed_buffer_and_empty_tallies() {
    let w: BufferWorker = worker(8192, 100);
    assert_eq!(w.len(), 1024);
    for i in 0..w.len() {
        assert_eq!(w.slot(i), 0);
    }
    assert_eq!(w.pending_updates(), 0);
    assert_eq!(w.pending_passes(), 0);
}

#[test]
fn no_worker_for_a_budget_beyond_the_slot_limit() {
    assert!(BufferWorker::new(WorkerConfig { budget: usize::MAX, batch: 1 }).is_none());
    let over: usize = (SLOT_LIMIT as usize + 1) * 8;
    assert!(BufferWorker::new(WorkerConfig { budget: over, batch: 1 }).is_none());
}

#[test]
fn one_pass_writes_every_slot_with_its_pattern() {
    let counters: SharedCounters = SharedCounters::new();
    let mut w: BufferWorker = worker(8192, 100);
    assert!(w.run_pass(&counters).is_ok());
    assert_eq!(w.len(), 1024);
    for i in 0..w.len() {
        assert_eq!(w.slot(i), (i as u64) * 1982);
    }
    assert_eq!(w.slot(0), 0);
    assert_eq!(w.slot(1), 1982);
    assert_eq!(w.slot(1023), 2_027_586);
}

#[test]
fn one_thread_eight_kib_batches_of_a_hundred() {
    let counters: SharedCounters = SharedCounters::new();
    let mut w: BufferWorker = worker(8 * 1024, 100);
    assert_eq!(w.len(), 1024);

    let first = w.run_pass(&counters);
    assert_eq!(first, Ok(PassReport { updates: 1000, passes: 0 }));
    assert_eq!(w.pending_updates(), 24);
    assert_eq!(w.pending_passes(), 1);
    assert_eq!(counters.read_updates(), 1000);
    assert_eq!(counters.read_passes(), 0);

    let second = w.run_pass(&counters);
    assert_eq!(second, Ok(PassReport { updates: 1000, passes: 1 }));
    assert_eq!(w.pending_updates(), 48);
    assert_eq!(w.pending_passes(), 1);
    assert_eq!(counters.read_updates(), 2000);
    assert_eq!(counters.read_passes(), 1);

    let third = w.run_pass(&counters);
    assert_eq!(third, Ok(PassReport { updates: 1000, passes: 1 }));
    assert_eq!(counters.read_updates(), 3000);
    assert_eq!(counters.read_passes(), 2);
}

#[test]
fn reports_add_up_to_what_the_counters_show() {
    let counters: SharedCounters = SharedCounters::new();
    let mut w: BufferWorker = worker(8 * 1024, 100);
    let mut updates: u64 = 0;
    let mut passes: u64 = 0;
    for pass in 1..=50u64 {
        let report: PassReport = w.run_pass(&counters).unwrap();
        updates += report.updates;
        passes += report.passes;
        assert_eq!(counters.read_updates(), updates);
        assert_eq!(counters.read_passes(), passes);
        assert_eq!(updates + w.pending_updates(), pass * 1024);
        assert_eq!(passes + w.pending_passes(), pass);
        assert_eq!(w.pending_updates(), (pass * 1024) % 100);
    }
}

#[test]
fn a_batch_larger_than_the_buffer_spans_passes() {
    let counters: SharedCounters = SharedCounters::new();
    let mut w: BufferWorker = worker(80, 25);
    assert_eq!(w.len(), 10);
    assert_eq!(w.run_pass(&counters), Ok(PassReport { updates: 0, passes: 0 }));
    assert_eq!((w.pending_updates(), w.pending_passes()), (10, 1));
    assert_eq!(w.run_pass(&counters), Ok(PassReport { updates: 0, passes: 0 }));
    assert_eq!((w.pending_updates(), w.pending_passes()), (20, 2));
    assert_eq!(w.run_pass(&counters), Ok(PassReport { updates: 25, passes: 2 }));
    assert_eq!((w.pending_updates(), w.pending_passes()), (5, 1));
    assert_eq!(counters.read_updates(), 25);
    assert_eq!(counters.read_passes(), 2);
}

#[test]
fn a_batch_of_zero_flushes_every_write() {
    let counters: SharedCounters = SharedCounters::new();
    let mut w: BufferWorker = worker(64, 0);
    assert_eq!(w.run_pass(&counters), Ok(PassReport { updates: 8, passes: 0 }));
    assert_eq!((w.pending_updates(), w.pending_passes()), (0, 1));
    assert_eq!(w.run_pass(&counters), Ok(PassReport { updates: 8, passes: 1 }));
    assert_eq!(counters.read_updates(), 16);
    assert_eq!(counters.read_passes(), 1);
}

#[test]
fn a_batch_of_one_flushes_every_write() {
    let counters: SharedCounters = SharedCounters::new();
    let mut w: BufferWorker = worker(64, 1);
    assert_eq!(w.run_pass(&counters), Ok(PassReport { updates: 8, passes: 0 }));
    assert_eq!((w.pending_updates(), w.pending_passes()), (0, 1));
}

#[test]
fn an_empty_buffer_only_tallies_passes() {
    let counters: SharedCounters = SharedCounters::new();
    let mut w: BufferWorker = worker(7, 100);
    assert_eq!(w.len(), 0);
    for pass in 1..=5u64 {
        assert_eq!(w.run_pass(&counters), Ok(PassReport { updates: 0, passes: 0 }));
        assert_eq!(w.pending_updates(), 0);
        assert_eq!(w.pending_passes(), pass);
    }
    assert_eq!(counters.read_updates(), 0);
    assert_eq!(counters.read_passes(), 0);
}

#[test]
fn two_workers_feed_the_same_counters() {
    let counters: SharedCounters = SharedCounters::new();
    let mut a: BufferWorker = worker(800, 10);
    let mut b: BufferWorker = worker(1600, 10);
    a.run_pass(&counters).unwrap();
    b.run_pass(&counters).unwrap();
    a.run_pass(&counters).unwrap();
    assert_eq!(counters.read_updates(), 400);
    assert_eq!(counters.read_passes(), 1);
}

#[test]
fn a_word_that_holds_its_pattern_passes_the_check() {
    assert_eq!(check_word(0, 0), Ok(()));
    assert_eq!(check_word(1, 1982), Ok(()));
    assert_eq!(check_word(1023, 2_027_586), Ok(()));
}

#[test]
fn a_word_that_does_not_hold_its_pattern_is_a_corruption() {
    assert_eq!(check_word(1, 1983), Err(Corruption { index: 1, found: 1983 }));
    assert_eq!(check_word(5, 0), Err(Corruption { index: 5, found: 0 }));
    assert_eq!(check_word(0, 1982), Err(Corruption { index: 0, found: 1982 }));
    let index: usize = usize::MAX;
    assert_eq!(check_word(index, 0), Err(Corruption { index, found: 0 }));
}

#[test]
fn startup_line_names_size_slots_and_bytes() {
    let config = WorkerConfig { budget: 262_144, batch: 1_000_000 };
    assert_eq!(config.startup_line(), "allocating 256KB in vec of usize[32768] = 262144 bytes");
    let small = WorkerConfig { budget: 8192, batch: 100 };
    assert_eq!(small.startup_line(), "allocating 8KB in vec of usize[1024] = 8192 bytes");
    let none = WorkerConfig { budget: 0, batch: 100 };
    assert_eq!(none.startup_line(), "allocating 0BB in vec of usize[0] = 0 bytes");
}
