use telemetry_engine::table::{StreamConfig, StreamTable, TableError, MAX_STREAMS};

#[test]
fn add_fills_lowest_index_first() {
    let mut t = StreamTable::new();
    assert_eq!(t.count_active_streams(), 0);
    assert_eq!(t.add_stream(0x40801000, 4, 10), Ok(()));
    assert_eq!(t.add_stream(0x40802000, 8, 5), Ok(()));
    let l = t.list();
    assert_eq!(l.len(), 2);
    assert_eq!(l[0].addr, 0x40801000);
    assert_eq!(l[0].size, 4);
    assert_eq!(l[0].rate_hz, 10);
    assert_eq!(l[0].last_sample_ms, 0);
    assert!(l[0].enabled);
    assert_eq!(l[1].addr, 0x40802000);
}

#[test]
fn capacity_exceeded_leaves_table_unchanged() {
    let mut t = StreamTable::new();
    for i in 0..MAX_STREAMS {
        assert_eq!(t.add_stream(0x40800000 + i as u32 * 0x100, 4, 10), Ok(()));
    }
    assert_eq!(t.count_active_streams(), MAX_STREAMS);
    let before = t.list();
    // One registration past capacity fails and mutates nothing.
    assert_eq!(t.add_stream(0x40890000, 4, 10), Err(TableError::CapacityExceeded));
    let after = t.list();
    assert_eq!(after.len(), MAX_STREAMS);
    assert_eq!(before, after);
}

#[test]
fn remove_not_found_leaves_table_unchanged() {
    let mut t = StreamTable::new();
    assert_eq!(t.add_stream(0x40801000, 4, 10), Ok(()));
    let before = t.list();
    assert_eq!(t.remove_stream(0x40809999), Err(TableError::NotFound));
    assert_eq!(t.list(), before);
}

#[test]
fn remove_is_idempotent_error() {
    let mut t = StreamTable::new();
    assert_eq!(t.add_stream(0x40801000, 4, 10), Ok(()));
    assert_eq!(t.remove_stream(0x40801000), Ok(()));
    assert_eq!(t.count_active_streams(), 0);
    // Removing an already-removed address is an explicit, side-effect-free
    // error, never a crash.
    assert_eq!(t.remove_stream(0x40801000), Err(TableError::NotFound));
    assert_eq!(t.count_active_streams(), 0);
}

#[test]
fn removed_entry_is_reused() {
    let mut t = StreamTable::new();
    assert_eq!(t.add_stream(0x40801000, 4, 10), Ok(()));
    assert_eq!(t.add_stream(0x40802000, 4, 10), Ok(()));
    assert_eq!(t.remove_stream(0x40801000), Ok(()));
    assert_eq!(t.add_stream(0x40803000, 2, 1), Ok(()));
    let l = t.list();
    assert_eq!(l.len(), 2);
    // The freed lowest-index entry is taken first.
    assert_eq!(l[0].addr, 0x40803000);
    assert_eq!(l[1].addr, 0x40802000);
}

#[test]
fn should_sample_respects_interval() {
    let mut c = StreamConfig {
        addr: 0x40801000,
        size: 4,
        rate_hz: 10,
        last_sample_ms: 0,
        enabled: true,
    };
    // 10 Hz: one sample per 100 ms.
    assert!(c.should_sample(100));
    assert_eq!(c.last_sample_ms, 100);
    assert!(!c.should_sample(150));
    assert!(!c.should_sample(199));
    assert!(c.should_sample(200));
    assert_eq!(c.last_sample_ms, 200);
}

#[test]
fn should_sample_rebases_to_now_after_gap() {
    let mut c = StreamConfig {
        addr: 0x40801000,
        size: 4,
        rate_hz: 10,
        last_sample_ms: 0,
        enabled: true,
    };
    // A stream that missed several intervals samples once and rebases to
    // now, never emitting compensating bursts.
    assert!(c.should_sample(1000));
    assert_eq!(c.last_sample_ms, 1000);
    assert!(!c.should_sample(1050));
}

#[test]
fn should_sample_never_fires_disabled_or_zero_rate() {
    let mut off = StreamConfig {
        addr: 1,
        size: 4,
        rate_hz: 10,
        last_sample_ms: 0,
        enabled: false,
    };
    assert!(!off.should_sample(10_000));
    let mut zero = StreamConfig {
        addr: 1,
        size: 4,
        rate_hz: 0,
        last_sample_ms: 0,
        enabled: true,
    };
    assert!(!zero.should_sample(10_000));
}

#[test]
fn fresh_table_is_all_empty() {
    let t = StreamTable::new();
    assert_eq!(t.count_active_streams(), 0);
    assert!(t.list().is_empty());
    for i in 0..MAX_STREAMS {
        let c = t.entry(i);
        assert_eq!(c, StreamConfig::new());
    }
}
