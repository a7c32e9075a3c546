//! Event transport and pooling: the single-producer single-consumer queue,
//! the ring buffer, and the memory pool.

use hft::pool::MemoryPool;
use hft::queue::{RingBuffer, SpscQueue};

#[test]
fn test_spsc_queue_basic() {
    let mut queue = SpscQueue::new(4);

    assert!(queue.try_push(1).is_ok());
    assert!(queue.try_push(2).is_ok());
    assert!(queue.try_push(3).is_ok());

    assert_eq!(queue.try_pop(), Some(1));
    assert_eq!(queue.try_pop(), Some(2));
    assert_eq!(queue.try_pop(), Some(3));
    assert_eq!(queue.try_pop(), None);
}

#[test]
fn test_spsc_queue_full() {
    let mut queue = SpscQueue::new(2);

    assert!(queue.try_push(1).is_ok());
    assert!(queue.try_push(2).is_err()); // Full (one slot always empty)
}

#[test]
fn test_spsc_queue_fifo_interleaved() {
    let mut queue = SpscQueue::new(4);
    assert!(queue.try_push(1).is_ok());
    assert!(queue.try_push(2).is_ok());
    assert_eq!(queue.try_pop(), Some(1));
    assert!(queue.try_push(3).is_ok());
    assert!(queue.try_push(4).is_ok());
    assert_eq!(queue.try_pop(), Some(2));
    assert_eq!(queue.try_pop(), Some(3));
    assert_eq!(queue.try_pop(), Some(4));
    assert_eq!(queue.try_pop(), None);
    assert!(queue.is_empty());
    assert_eq!(queue.capacity(), 4);
}

#[test]
fn test_spsc_queue_wraps_around() {
    let mut queue = SpscQueue::new(4);
    for round in 0..10 {
        assert!(queue.try_push(round).is_ok());
        assert!(queue.try_push(round + 100).is_ok());
        assert_eq!(queue.len(), 2);
        assert_eq!(queue.try_pop(), Some(round));
        assert_eq!(queue.try_pop(), Some(round + 100));
    }
    assert!(queue.is_empty());
}

#[test]
fn test_ring_buffer() {
    let mut ring: RingBuffer<u32> = RingBuffer::new(4);
    assert_eq!(ring.read(0), None);
    assert_eq!(ring.write(10), Some(0));
    assert_eq!(ring.write(20), Some(1));
    assert_eq!(ring.read(0), Some(10));
    assert_eq!(ring.read(1), Some(20));
    ring.advance_read(1);
    // Positions wrap around the capacity.
    assert_eq!(ring.read(4), Some(10));
}

#[test]
fn test_memory_pool_basic() {
    let mut pool: MemoryPool<i32> = MemoryPool::new(4);

    assert_eq!(pool.available_count(), 4);

    let h1 = pool.allocate(1).unwrap();
    let h2 = pool.allocate(2).unwrap();

    assert_eq!(pool.allocated_count(), 2);
    assert_eq!(*h1.get().unwrap(), 1);
    assert_eq!(*h2.get().unwrap(), 2);

    pool.deallocate(h1);
    assert_eq!(pool.allocated_count(), 1);
}

#[test]
fn test_memory_pool_exhaustion() {
    let mut pool: MemoryPool<u8> = MemoryPool::new(2);
    let a = pool.allocate(1).unwrap();
    let _b = pool.allocate(2).unwrap();
    assert!(pool.allocate(3).is_none());
    assert_eq!(pool.available_count(), 0);
    let back = pool.deallocate(a);
    assert_eq!(back, 1);
    assert!(pool.allocate(4).is_some());
    assert_eq!(pool.capacity(), 2);
}
