use windows_kernel_rs::bounded_queue::BoundedQueue;

fn contents(q: &BoundedQueue<u32>) -> Vec<u32> {
    (0..q.len()).map(|i| *q.get(i)).collect()
}

#[test]
fn queue_keeps_latest_items() {
    let mut q = BoundedQueue::new(3);
    assert_eq!(q.capacity(), 3);
    for i in 1..=5u32 {
        q.push(i);
    }
    assert_eq!(contents(&q), vec![3, 4, 5]);
}

#[test]
fn queue_below_capacity_keeps_all() {
    let mut q = BoundedQueue::new(4);
    q.push(7);
    q.push(8);
    assert_eq!(q.len(), 2);
    assert_eq!(contents(&q), vec![7, 8]);
}

#[test]
fn queue_of_capacity_one() {
    let mut q = BoundedQueue::new(1);
    q.push(1);
    q.push(2);
    assert_eq!(contents(&q), vec![2]);
}

#[test]
fn queue_holds_latest_of_any_history() {
    for cap in 1..6usize {
        for n in 0..12u32 {
            let mut q = BoundedQueue::new(cap);
            for i in 0..n {
                q.push(i);
            }
            let start = (n as usize).saturating_sub(cap) as u32;
            let expected: Vec<u32> = (start..n).collect();
            assert_eq!(contents(&q), expected);
            assert!(q.len() <= cap);
        }
    }
}
