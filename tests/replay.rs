use rusty_snake::replay::{ReplayBuffer, BATCH_SIZE, MAX_MEMORY, REWARD_COPIES};

#[test]
fn starts_empty() {
    let b: ReplayBuffer<u32> = ReplayBuffer::new();
    assert_eq!(b.len(), 0);
    assert!(b.sample_batch().is_empty());
}

#[test]
fn capacity_keeps_newest_entries() {
    let mut b: ReplayBuffer<u32> = ReplayBuffer::new();
    let n: u32 = MAX_MEMORY as u32 + 7;
    for i in 0..n {
        b.push(i);
    }
    assert_eq!(b.len(), MAX_MEMORY);
    // the oldest survivor is the (n - MAX_MEMORY + 1)-th inserted item
    assert_eq!(b.get(0), 7);
    assert_eq!(b.get(MAX_MEMORY - 1), n - 1);
}

#[test]
fn rewarding_transition_stored_ten_times() {
    let mut b: ReplayBuffer<(i32, f64)> = ReplayBuffer::new();
    b.remember((1, 5.0), 5.0 > 0.0);
    assert_eq!(b.len(), REWARD_COPIES);
    assert_eq!(b.len(), 10);
    for i in 0..10 {
        assert_eq!(b.get(i), (1, 5.0));
    }
}

#[test]
fn penalised_transition_stored_once() {
    let mut b: ReplayBuffer<(i32, f64)> = ReplayBuffer::new();
    b.remember((1, 5.0), true);
    b.remember((2, -1.0), -1.0 > 0.0);
    assert_eq!(b.len(), 11);
    assert_eq!(b.get(10), (2, -1.0));
}

#[test]
fn duplication_limited_by_capacity() {
    let mut b: ReplayBuffer<u32> = ReplayBuffer::new();
    for i in 0..(MAX_MEMORY as u32 - 3) {
        b.push(i);
    }
    b.remember(999_999, true);
    assert_eq!(b.len(), MAX_MEMORY);
    assert_eq!(b.get(0), 7);
    for i in 0..10 {
        assert_eq!(b.get(MAX_MEMORY - 1 - i), 999_999);
    }
}

#[test]
fn pick_follows_indices() {
    let mut b: ReplayBuffer<u32> = ReplayBuffer::new();
    for i in 0..5 {
        b.push(i * 10);
    }
    assert_eq!(b.pick(&vec![4, 0, 2]), vec![40, 0, 20]);
    assert!(b.pick(&vec![]).is_empty());
}

#[test]
fn sample_small_memory_takes_everything_once() {
    let mut b: ReplayBuffer<u32> = ReplayBuffer::new();
    for i in 0..50 {
        b.push(i);
    }
    let mut s = b.sample_batch();
    assert_eq!(s.len(), 50);
    s.sort();
    assert_eq!(s, (0..50).collect::<Vec<u32>>());
}

#[test]
fn sample_large_memory_takes_a_batch_of_distinct_entries() {
    let mut b: ReplayBuffer<u32> = ReplayBuffer::new();
    for i in 0..3000 {
        b.push(i);
    }
    let mut s = b.sample_batch();
    assert_eq!(s.len(), BATCH_SIZE);
    s.sort();
    s.dedup();
    assert_eq!(s.len(), BATCH_SIZE);
    assert!(s.iter().all(|v| *v < 3000));
}
