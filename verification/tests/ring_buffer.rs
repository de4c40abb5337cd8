use sensorium::RingBuffer;

fn oldest_first<const N: usize>(ring: &RingBuffer<u32, N>) -> Vec<u32> {
    let mut out = Vec::new();
    let mut it = ring.iter();
    while let Some(x) = it.next() {
        out.push(*x);
    }
    out
}

fn newest_first<const N: usize>(ring: &RingBuffer<u32, N>) -> Vec<u32> {
    let mut out = Vec::new();
    let mut it = ring.iter_recent();
    while let Some(x) = it.next() {
        out.push(*x);
    }
    out
}

#[test]
fn empty_ring_has_no_items() {
    let ring: RingBuffer<u32, 4> = RingBuffer::new();
    assert!(ring.is_empty());
    assert_eq!(ring.len(), 0);
    assert_eq!(ring.capacity(), 4);
    assert_eq!(ring.most_recent(), None);
    assert_eq!(ring.iter().len(), 0);
    assert_eq!(ring.iter_recent().len(), 0);
}

#[test]
fn push_under_capacity_does_not_evict() {
    let mut ring: RingBuffer<u32, 4> = RingBuffer::new();
    assert_eq!(ring.push(1), None);
    assert_eq!(ring.push(2), None);
    assert_eq!(ring.push(3), None);
    assert_eq!(ring.len(), 3);
    assert!(!ring.is_full());
    assert_eq!(ring.most_recent(), Some(&3));
}

#[test]
fn push_over_capacity_evicts_oldest() {
    let mut ring: RingBuffer<u32, 3> = RingBuffer::new();
    for n in 1..=3 {
        ring.push(n);
    }
    assert!(ring.is_full());
    assert_eq!(ring.push(4), Some(1));
    assert_eq!(ring.push(5), Some(2));
    assert_eq!(ring.len(), 3);
    assert_eq!(ring.most_recent(), Some(&5));
}

#[test]
fn iter_yields_oldest_first() {
    let mut ring: RingBuffer<u32, 3> = RingBuffer::new();
    for n in 1..=5 {
        ring.push(n);
    }
    assert_eq!(oldest_first(&ring), vec![3, 4, 5]);
}

#[test]
fn iter_recent_yields_newest_first() {
    let mut ring: RingBuffer<u32, 3> = RingBuffer::new();
    for n in 1..=5 {
        ring.push(n);
    }
    assert_eq!(newest_first(&ring), vec![5, 4, 3]);
}

#[test]
fn clear_resets() {
    let mut ring: RingBuffer<u32, 3> = RingBuffer::new();
    ring.push(1);
    ring.push(2);
    ring.clear();
    assert_eq!(ring.len(), 0);
    assert!(ring.is_empty());
    assert_eq!(ring.most_recent(), None);
}

#[test]
fn ring_keeps_the_newest_capacity_items_after_many_pushes() {
    let mut ring: RingBuffer<u32, 4> = RingBuffer::new();
    for n in 0..1000 {
        ring.push(n);
        assert!(ring.len() <= 4);
    }
    assert_eq!(oldest_first(&ring), vec![996, 997, 998, 999]);
}

#[test]
fn iterators_report_remaining_length() {
    let mut ring: RingBuffer<u32, 3> = RingBuffer::new();
    ring.push(7);
    ring.push(8);
    let mut it = ring.iter();
    assert_eq!(it.len(), 2);
    assert_eq!(it.next(), Some(&7));
    assert_eq!(it.len(), 1);
    assert_eq!(it.next(), Some(&8));
    assert_eq!(it.len(), 0);
    assert_eq!(it.next(), None);
}

#[test]
fn from_items_overflowing_capacity_keeps_newest() {
    let ring: RingBuffer<u32, 3> = RingBuffer::from_items(vec![1, 2, 3, 4, 5]);
    assert_eq!(ring.len(), 3);
    assert_eq!(oldest_first(&ring), vec![3, 4, 5]);
    let short: RingBuffer<u32, 3> = RingBuffer::from_items(vec![9]);
    assert_eq!(oldest_first(&short), vec![9]);
    let empty: RingBuffer<u32, 3> = RingBuffer::from_items(Vec::new());
    assert!(empty.is_empty());
}

#[test]
fn rings_compare_by_contents_not_layout() {
    let mut a: RingBuffer<u32, 3> = RingBuffer::new();
    for n in 1..=5 {
        a.push(n);
    }
    let b: RingBuffer<u32, 3> = RingBuffer::from_items(vec![3, 4, 5]);
    assert_eq!(a, b);
    let c: RingBuffer<u32, 3> = RingBuffer::from_items(vec![3, 4, 6]);
    assert_ne!(a, c);
    let cloned = a.clone();
    assert_eq!(oldest_first(&cloned), vec![3, 4, 5]);
}
