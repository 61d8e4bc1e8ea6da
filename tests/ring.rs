use ring_buffer::{BacklogGovernor, PacingConfig, PacingController, RingBuffer, RingBufferError, SlotStore};

const SECOND: u64 = 1_000_000_000;

fn frame(len: usize, value: f32) -> Vec<f32> {
    vec![value; len]
}

#[test]
fn wrong_length_is_rejected() {
    let mut rb = RingBuffer::new(10, 4, 10, 0.0f32);
    assert_eq!(rb.write(frame(9, 1.0)), Err(RingBufferError::DataSizeMismatch));
    assert_eq!(rb.write(frame(11, 1.0)), Err(RingBufferError::DataSizeMismatch));
    assert_eq!(rb.write(Vec::new()), Err(RingBufferError::DataSizeMismatch));
    assert_eq!(rb.write_count(), 0);
    assert_eq!(rb.read_count(), 0);
    assert_eq!(rb.read_at(SECOND), frame(10, 0.0));
    assert_eq!(rb.read_count(), 0);
}

#[test]
fn wrong_length_after_writes_changes_nothing() {
    let mut rb = RingBuffer::new(3, 2, 3, 0.0f32);
    assert_eq!(rb.write(frame(3, 1.0)), Ok(()));
    assert_eq!(rb.write(frame(2, 9.0)), Err(RingBufferError::DataSizeMismatch));
    assert_eq!(rb.write_count(), 1);
    assert_eq!(rb.backlog(), 1);
    assert_eq!(rb.read_at(0), frame(3, 1.0));
}

#[test]
fn fresh_buffer_reads_silence() {
    let mut rb = RingBuffer::new(8, 3, 48000, 0.0f32);
    assert_eq!(rb.read(), frame(8, 0.0));
    assert_eq!(rb.read_at(10 * SECOND), frame(8, 0.0));
    assert_eq!(rb.frame_length(), 8);
    assert_eq!(rb.capacity(), 3);
    assert_eq!(rb.backlog(), 0);
}

#[test]
fn reads_always_have_frame_length() {
    let mut rb = RingBuffer::new(5, 3, 5, 0.0f32);
    for i in 0..7u64 {
        rb.write(frame(5, i as f32)).unwrap();
        let r = rb.read_at(i * SECOND);
        assert_eq!(r.len(), 5);
        assert!(r.iter().all(|x| *x == r[0]));
    }
}

#[test]
fn pacing_gates_the_read_cursor() {
    let mut rb = RingBuffer::new(10, 4, 10, 0.0f32);
    rb.write(frame(10, 0.0)).unwrap();
    rb.write(frame(10, 1.0)).unwrap();
    assert_eq!(rb.read_at(0), frame(10, 0.0));
    assert_eq!(rb.read_count(), 0);
    assert_eq!(rb.read_at(750_000_000), frame(10, 1.0));
    assert_eq!(rb.read_count(), 1);
}

#[test]
fn pacing_with_the_clock() {
    let mut rb = RingBuffer::new(10, 4, 10, 0.0f32);
    rb.write(frame(10, 0.0)).unwrap();
    rb.write(frame(10, 1.0)).unwrap();
    assert_eq!(rb.read(), frame(10, 0.0));
    assert_eq!(rb.read_count(), 0);
}

#[test]
fn pacing_window_edge() {
    let mut rb = RingBuffer::new(10, 4, 10, 0.0f32);
    rb.write(frame(10, 1.0)).unwrap();
    rb.write(frame(10, 2.0)).unwrap();
    rb.write(frame(10, 3.0)).unwrap();
    assert_eq!(rb.read_at(749_999_999), frame(10, 1.0));
    assert_eq!(rb.read_count(), 0);
    assert_eq!(rb.read_at(750_000_000), frame(10, 2.0));
    // The window starts again at the last accepted advance.
    assert_eq!(rb.read_at(1_499_999_999), frame(10, 2.0));
    assert_eq!(rb.read_at(1_500_000_000), frame(10, 3.0));
    assert_eq!(rb.read_count(), 2);
}

#[test]
fn reader_never_passes_writer() {
    let mut rb = RingBuffer::new(4, 4, 4, 0.0f32);
    rb.write(frame(4, 1.0)).unwrap();
    assert_eq!(rb.read_at(0), frame(4, 1.0));
    // Caught up: the cursor rests on the slot that the next write fills.
    assert_eq!(rb.read_at(SECOND), frame(4, 0.0));
    assert_eq!(rb.read_count(), 1);
    assert_eq!(rb.read_at(5 * SECOND), frame(4, 0.0));
    assert_eq!(rb.read_count(), 1);
    assert_eq!(rb.backlog(), 0);
}

#[test]
fn catch_up_after_warm_up() {
    let mut rb = RingBuffer::new(2, 32, 2, 0.0f32);
    let mut t = 0u64;
    for i in 0..11 {
        rb.write(frame(2, i as f32)).unwrap();
    }
    for _ in 0..10 {
        t += SECOND;
        rb.read_at(t);
    }
    assert_eq!(rb.read_count(), 10);
    assert_eq!(rb.backlog(), 1);
    for i in 11..20 {
        rb.write(frame(2, i as f32)).unwrap();
    }
    assert_eq!(rb.backlog(), 10);
    rb.read_at(t);
    assert_eq!(rb.read_count(), 20);
    assert_eq!(rb.backlog(), 0);
    rb.read_at(t + SECOND);
    assert_eq!(rb.backlog(), 0);
}

#[test]
fn no_catch_up_before_warm_up() {
    let mut rb = RingBuffer::new(2, 32, 2, 0.0f32);
    for i in 0..20 {
        rb.write(frame(2, i as f32)).unwrap();
    }
    for k in 1..10u64 {
        rb.read_at(k * SECOND);
    }
    assert_eq!(rb.read_count(), 9);
    assert_eq!(rb.backlog(), 11);
}

#[test]
fn custom_thresholds() {
    let config = PacingConfig { threshold_permille: 500, warm_up: 1, catch_up_bound: 2 };
    let mut rb = RingBuffer::with_config(4, 8, 4, 0.0f32, config);
    for i in 0..6 {
        rb.write(frame(4, i as f32)).unwrap();
    }
    assert_eq!(rb.read_at(499_999_999), frame(4, 0.0));
    assert_eq!(rb.read_count(), 0);
    assert_eq!(rb.read_at(500_000_000), frame(4, 0.0));
    assert_eq!(rb.read_count(), 6);
}

#[test]
fn default_config_values() {
    let c = PacingConfig::default();
    assert_eq!(c.threshold_permille, 750);
    assert_eq!(c.warm_up, 10);
    assert_eq!(c.catch_up_bound, 6);
}

#[test]
fn wrap_around_reuses_slot_zero() {
    let mut rb = RingBuffer::new(3, 4, 3, 0.0f32);
    for i in 1..=5 {
        rb.write(frame(3, i as f32)).unwrap();
    }
    for k in 1..=3u64 {
        rb.read_at(k * SECOND);
    }
    assert_eq!(rb.read_count(), 3);
    assert_eq!(rb.read_at(4 * SECOND), frame(3, 5.0));
    assert_eq!(rb.read_count(), 4);
}

#[test]
fn slot_store_replace_and_snapshot() {
    let mut store = SlotStore::new(3, 2, 0u8);
    assert_eq!(store.capacity(), 2);
    assert_eq!(store.frame_length(), 3);
    assert_eq!(store.replace(1, vec![1, 2, 3]), Ok(vec![0, 0, 0]));
    assert_eq!(store.replace(1, vec![4, 5, 6]), Ok(vec![1, 2, 3]));
    assert_eq!(store.replace(0, vec![7]), Err(RingBufferError::DataSizeMismatch));
    assert_eq!(store.snapshot(0), vec![0, 0, 0]);
    let copy = store.snapshot(1);
    assert_eq!(store.replace(1, vec![9, 9, 9]), Ok(vec![4, 5, 6]));
    assert_eq!(copy, vec![4, 5, 6]);
}

#[test]
fn pacing_controller_window() {
    let p = PacingController::new(10, 10, 750);
    assert!(!p.may_advance(0, 2, 749_999_999));
    assert!(p.may_advance(0, 2, 750_000_000));
    assert!(!p.may_advance(2, 2, 10 * SECOND));
    let q = PacingController::new(3, 7, 700);
    // 0.7 * 3 / 7 s = 300 ms exactly.
    assert!(!q.may_advance(0, 1, 299_999_999));
    assert!(q.may_advance(0, 1, 300_000_000));
    let r = PacingController::new(1, 3, 1000);
    // 1 / 3 s rounds up to 333_333_334 ns.
    assert!(!r.may_advance(0, 1, 333_333_333));
    assert!(r.may_advance(0, 1, 333_333_334));
}

#[test]
fn governor_snaps_only_past_bound() {
    let g = BacklogGovernor { warm_up: 10, catch_up_bound: 6 };
    assert_eq!(g.govern(11, 18, 10), 18);
    assert_eq!(g.govern(11, 17, 10), 11);
    assert_eq!(g.govern(0, 100, 9), 0);
    assert_eq!(g.govern(5, 5, 50), 5);
}

#[test]
fn error_message() {
    assert_eq!(
        RingBufferError::DataSizeMismatch.message(),
        "The size of data provided does not match buffer size"
    );
}

#[test]
fn pacing_advance_can_bring_backlog_to_the_bound() {
    let mut rb = RingBuffer::new(2, 32, 2, 0.0f32);
    let mut t = 0u64;
    for i in 0..11 {
        rb.write(frame(2, i as f32)).unwrap();
    }
    for _ in 0..10 {
        t += SECOND;
        rb.read_at(t);
    }
    for i in 11..17 {
        rb.write(frame(2, i as f32)).unwrap();
    }
    assert_eq!(rb.backlog(), 7);
    // Pacing advances first, leaving a backlog of six: no catch-up.
    rb.read_at(t + SECOND);
    assert_eq!(rb.read_count(), 11);
    assert_eq!(rb.backlog(), 6);
    // Without an advance, a backlog of seven is caught up at once.
    rb.write(frame(2, 17.0)).unwrap();
    rb.read_at(t + SECOND);
    assert_eq!(rb.backlog(), 0);
    assert_eq!(rb.read_count(), 18);
}
