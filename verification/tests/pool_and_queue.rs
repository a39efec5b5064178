use fidget_vk::pool::Pool;
use fidget_vk::ring::BoundedQueue;
use fidget_vk::vulkan::FrameDeferred;

#[test]
fn pool_fills_then_overwrites_the_oldest() {
    let mut pool = Pool::new(3);
    assert_eq!(pool.capacity(), 3);
    assert!(pool.is_empty());
    pool.push(10);
    pool.push(20);
    pool.push(30);
    assert!(pool.is_full());
    assert_eq!(pool.as_slice(), &[10, 20, 30]);
    pool.push(40);
    assert_eq!(pool.as_slice(), &[20, 30, 40]);
    assert_eq!(pool.len(), 3);
    pool.push(50);
    assert_eq!(pool.as_slice(), &[30, 40, 50]);
}

#[test]
fn pool_overwrites_the_oldest_survivor_after_removals() {
    let mut pool = Pool::new(3);
    for x in [1, 2, 3] {
        pool.push(x);
    }
    pool.retain_flagged(&[false, true, true]);
    pool.push(4);
    assert_eq!(pool.as_slice(), &[2, 3, 4]);
    pool.push(5);
    assert_eq!(pool.as_slice(), &[3, 4, 5]);
}

#[test]
fn pool_capacity_is_at_least_one() {
    let mut pool = Pool::new(0);
    assert_eq!(pool.capacity(), 1);
    pool.push('a');
    pool.push('b');
    assert_eq!(pool.as_slice(), &['b']);
}

#[test]
fn pool_retains_flagged_items_in_order() {
    let mut pool = Pool::new(8);
    for x in [1, 2, 3, 4, 5, 6] {
        pool.push(x);
    }
    pool.retain_flagged(&[true, false, true, true, false, true]);
    assert_eq!(pool.as_slice(), &[1, 3, 4, 6]);
    assert_eq!(pool.capacity(), 8);
    pool.retain_flagged(&[false, false, false, false]);
    assert!(pool.is_empty());
    pool.retain_flagged(&[]);
    assert!(pool.is_empty());
}

#[test]
fn pool_set_and_clear() {
    let mut pool = Pool::new(2);
    pool.push(1u8);
    pool.push(2u8);
    pool.set(0, 7);
    assert_eq!(pool.as_slice(), &[7, 2]);
    pool.clear();
    assert!(pool.is_empty());
    assert_eq!(pool.capacity(), 2);
    for i in 0..50u8 {
        pool.push(i);
        assert!(pool.len() <= pool.capacity());
    }
}

#[test]
fn bounded_queue_drops_oldest_when_full() {
    let mut q = BoundedQueue::new(3);
    assert!(q.is_empty());
    assert_eq!(q.capacity(), 3);
    assert_eq!(q.front(), None);
    for i in 1..=5 {
        q.push_evicting(i);
        assert!(q.len() <= 3);
    }
    assert_eq!(q.len(), 3);
    assert_eq!((*q.get(0), *q.get(1), *q.get(2)), (3, 4, 5));
    assert_eq!(q.front(), Some(&3));
    assert_eq!(q.back(), Some(&5));
    assert_eq!(q.pop_front(), Some(3));
    q.push_evicting(6);
    assert_eq!((*q.get(0), *q.get(1), *q.get(2)), (4, 5, 6));
    q.clear();
    assert!(q.is_empty());
    assert_eq!(q.pop_front(), None);
    assert_eq!(q.capacity(), 3);
}

#[test]
fn single_slot_queue_keeps_newest() {
    let mut q = BoundedQueue::new(1);
    q.push_evicting("a");
    q.push_evicting("b");
    assert_eq!(q.len(), 1);
    assert_eq!(q.front(), Some(&"b"));
}

#[test]
fn deferred_frees_wait_for_their_slot() {
    let mut pending: FrameDeferred<u64> = FrameDeferred::new();
    assert!(pending.is_empty(0) && pending.is_empty(1));
    // Frame in slot 0 releases textures 1 and 2.
    assert!(pending.take(0).is_empty());
    pending.defer(0, vec![1, 2]);
    // Frame in slot 1 releases texture 3; slot 0 is untouched.
    assert!(pending.take(1).is_empty());
    pending.defer(1, vec![3]);
    assert!(!pending.is_empty(0));
    // Slot 0 comes round again: its textures are handed out.
    assert_eq!(pending.take(0), vec![1, 2]);
    assert!(pending.is_empty(0));
    pending.defer(0, vec![]);
    pending.defer(1, vec![4]);
    assert_eq!(pending.take(1), vec![3, 4]);
}

#[test]
fn bounded_queue_set_replaces_in_place() {
    let mut q = BoundedQueue::new(4);
    for x in [1, 2, 3] {
        q.push_evicting(x);
    }
    q.set(1, 20);
    assert_eq!((*q.get(0), *q.get(1), *q.get(2)), (1, 20, 3));
    assert_eq!(q.len(), 3);
}

#[test]
fn cleared_pool_and_queue_fill_again() {
    let mut pool = Pool::new(2);
    pool.push(1u32);
    pool.push(2);
    pool.clear();
    assert!(pool.is_empty());
    pool.push(3);
    pool.push(4);
    pool.push(5);
    assert_eq!(pool.as_slice(), &[4, 5]);
    let mut q = BoundedQueue::new(2);
    q.push_evicting(1u32);
    q.clear();
    assert!(q.is_empty());
    assert_eq!(q.capacity(), 2);
    q.push_evicting(7);
    assert_eq!(q.front(), Some(&7));
}
