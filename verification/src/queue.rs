//! Bounded queues for event transport: a single-producer single-consumer
//! queue and a positional ring buffer.
//!
//! The queue's abstraction is `items()`, the sequence of values in flight,
//! oldest first. `try_push` appends to it and `try_pop` takes its front,
//! which is the whole first-in-first-out story; the two `lemma_fifo_*`
//! laws below restate it as the conservation of push order across any
//! interleaving.

use vstd::prelude::*;

verus! {

/// `n` is a power of two.
pub open spec fn is_pow2(n: int) -> bool
    decreases n,
{
    if n <= 0 {
        false
    } else if n == 1 {
        true
    } else {
        n % 2 == 0 && is_pow2(n / 2)
    }
}

/// Bounded single-producer single-consumer queue. One slot is sacrificed
/// to tell a full queue from an empty one, so it holds at most
/// `capacity - 1` items (a capacity of one admits nothing).
pub struct SpscQueue<T> {
    pub buffer: Vec<Option<T>>,
    pub capacity: usize,
    pub head: usize,
    pub tail: usize,
}

impl<T> SpscQueue<T> {
    /// Slot holding the `i`-th oldest item.
    pub open spec fn spec_slot(&self, i: int) -> int {
        if self.head + i < self.capacity {
            self.head + i
        } else {
            self.head + i - self.capacity
        }
    }

    /// Number of items in flight.
    pub open spec fn spec_len(&self) -> int {
        if self.tail >= self.head {
            self.tail - self.head
        } else {
            self.tail + self.capacity - self.head
        }
    }

    /// The items in flight, oldest first.
    pub open spec fn items(&self) -> Seq<T> {
        Seq::new(self.spec_len() as nat, |i: int| self.buffer@[self.spec_slot(i)]->Some_0)
    }

    /// Indices in range, the buffer sized to the capacity, and every
    /// occupied slot holding a value.
    pub open spec fn wf(&self) -> bool {
        &&& 1 <= self.capacity <= usize::MAX / 2
        &&& self.buffer@.len() == self.capacity
        &&& self.head < self.capacity
        &&& self.tail < self.capacity
        &&& forall|i: int| 0 <= i < self.spec_len() ==> (#[trigger] self.buffer@[self.spec_slot(i)]) is Some
    }

    /// An empty queue of the given capacity (a power of two).
    pub fn new(capacity: usize) -> (r: SpscQueue<T>)
        requires
            is_pow2(capacity as int),
            capacity <= usize::MAX / 2,
        ensures
            r.wf(),
            r.capacity == capacity,
            r.items() =~= Seq::<T>::empty(),
    {
        let mut buffer: Vec<Option<T>> = Vec::new();
        let mut i: usize = 0;
        while i < capacity
            invariant
                i <= capacity,
                buffer@.len() == i,
            decreases capacity - i,
        {
            buffer.push(None);
            i = i + 1;
        }
        SpscQueue { buffer, capacity, head: 0, tail: 0 }
    }

    /// Append an item, or hand it back when the queue is full
    /// (at `capacity - 1` items).
    pub fn try_push(&mut self, item: T) -> (r: Result<(), T>)
        requires
            old(self).wf(),
        ensures
            final(self).wf(),
            final(self).capacity == old(self).capacity,
            old(self).spec_len() == old(self).capacity - 1 ==> r == Result::<(), T>::Err(item)
                && *final(self) == *old(self),
            old(self).spec_len() < old(self).capacity - 1 ==> r is Ok && final(self).items()
                =~= old(self).items().push(item),
    {
        let next_tail = if self.tail + 1 == self.capacity {
            0
        } else {
            self.tail + 1
        };
        if next_tail == self.head {
            return Err(item);
        }
        let ghost q0 = *self;
        self.buffer[self.tail] = Some(item);
        self.tail = next_tail;
        proof {
            assert(self.spec_len() == q0.spec_len() + 1);
            assert forall|i: int| 0 <= i < self.spec_len() implies (#[trigger] self.buffer@[self.spec_slot(
                i,
            )]) is Some by {
                if i < q0.spec_len() {
                    assert(self.spec_slot(i) == q0.spec_slot(i));
                    assert(q0.buffer@[q0.spec_slot(i)] is Some);
                } else {
                    assert(self.spec_slot(i) == q0.tail);
                }
            }
            assert(final(self).items() =~= q0.items().push(item)) by {
                assert forall|i: int| 0 <= i < self.items().len() implies self.items()[i]
                    == q0.items().push(item)[i] by {
                    if i < q0.spec_len() {
                        assert(self.spec_slot(i) == q0.spec_slot(i));
                        assert(self.spec_slot(i) != q0.tail as int);
                        assert(self.buffer@[self.spec_slot(i)] == q0.buffer@[q0.spec_slot(i)]);
                    } else {
                        assert(self.spec_slot(i) == q0.tail);
                    }
                }
            }
        }
        Ok(())
    }

    /// Take the oldest item, or `None` when the queue is empty.
    pub fn try_pop(&mut self) -> (r: Option<T>)
        requires
            old(self).wf(),
        ensures
            final(self).wf(),
            final(self).capacity == old(self).capacity,
            old(self).spec_len() == 0 ==> r is None && *final(self) == *old(self),
            old(self).spec_len() > 0 ==> r == Some(old(self).items()[0]) && final(self).items()
                =~= old(self).items().drop_first(),
    {
        if self.head == self.tail {
            return None;
        }
        let ghost q0 = *self;
        let item = self.buffer[self.head].take();
        let next_head = if self.head + 1 == self.capacity {
            0
        } else {
            self.head + 1
        };
        self.head = next_head;
        proof {
            assert(q0.spec_slot(0) == q0.head);
            assert(q0.spec_len() > 0);
            assert(q0.buffer@[q0.spec_slot(0)] is Some);
            assert(self.spec_len() == q0.spec_len() - 1);
            assert forall|i: int| 0 <= i < self.spec_len() implies (#[trigger] self.buffer@[self.spec_slot(
                i,
            )]) is Some && self.buffer@[self.spec_slot(i)] == q0.buffer@[q0.spec_slot(i + 1)] by {
                assert(self.spec_slot(i) == q0.spec_slot(i + 1));
                assert(self.spec_slot(i) != q0.head as int);
            }
            assert(final(self).items() =~= q0.items().drop_first());
        }
        item
    }

    /// Whether nothing is in flight.
    pub fn is_empty(&self) -> (r: bool)
        requires
            self.wf(),
        ensures
            r == (self.spec_len() == 0),
    {
        self.head == self.tail
    }

    /// Number of items in flight.
    pub fn len(&self) -> (r: usize)
        requires
            self.wf(),
        ensures
            r == self.spec_len(),
    {
        if self.tail >= self.head {
            self.tail - self.head
        } else {
            self.tail + self.capacity - self.head
        }
    }

    /// The fixed capacity (one more than the queue can hold).
    pub fn capacity(&self) -> (r: usize)
        ensures
            r == self.capacity,
    {
        self.capacity
    }
}

// ============================================================================
// Laws
// ============================================================================

/// First-in-first-out, push step: if the values popped so far followed by
/// the queue's content equal the values pushed so far in order, a push
/// keeps it that way.
pub proof fn lemma_fifo_push<T>(pushed: Seq<T>, popped: Seq<T>, q: Seq<T>, x: T)
    requires
        popped + q == pushed,
    ensures
        popped + q.push(x) == pushed.push(x),
{
    assert(popped + q.push(x) =~= (popped + q).push(x));
}

/// First-in-first-out, pop step: a pop takes exactly the front of the
/// queue, so the popped values followed by the rest still equal the
/// pushed values in order. Together with `lemma_fifo_push` and the queue's
/// contracts, any interleaving of pushes and pops returns values in push
/// order.
pub proof fn lemma_fifo_pop<T>(pushed: Seq<T>, popped: Seq<T>, q: Seq<T>)
    requires
        popped + q == pushed,
        q.len() > 0,
    ensures
        popped.push(q[0]) + q.drop_first() == pushed,
{
    assert(popped.push(q[0]) + q.drop_first() =~= popped + q);
}

// ============================================================================
// Ring buffer
// ============================================================================

/// Positional ring buffer for telemetry snapshots: writers take slots in
/// turn, readers fetch by position. A slot never written reads `None`.
pub struct RingBuffer<T: Copy> {
    pub buffer: Vec<Option<T>>,
    pub capacity: usize,
    pub write_pos: usize,
    pub read_pos: usize,
}

impl<T: Copy> RingBuffer<T> {
    /// Buffer sized to a positive capacity.
    pub open spec fn wf(&self) -> bool {
        &&& 1 <= self.capacity
        &&& self.buffer@.len() == self.capacity
    }

    /// An empty ring of the given capacity (a power of two).
    pub fn new(capacity: usize) -> (r: RingBuffer<T>)
        requires
            is_pow2(capacity as int),
        ensures
            r.wf(),
            r.capacity == capacity,
            r.write_pos == 0,
            forall|i: int| 0 <= i < capacity ==> (#[trigger] r.buffer@[i]) is None,
    {
        let mut buffer: Vec<Option<T>> = Vec::new();
        let mut i: usize = 0;
        while i < capacity
            invariant
                i <= capacity,
                buffer@.len() == i,
                forall|j: int| 0 <= j < i ==> (#[trigger] buffer@[j]) is None,
            decreases capacity - i,
        {
            buffer.push(None);
            i = i + 1;
        }
        RingBuffer { buffer, capacity, write_pos: 0, read_pos: 0 }
    }

    /// Write an item into the next slot in turn and say which slot it
    /// took.
    pub fn write(&mut self, item: T) -> (r: Option<usize>)
        requires
            old(self).wf(),
            old(self).write_pos < old(self).capacity,
        ensures
            final(self).wf(),
            final(self).capacity == old(self).capacity,
            r == Some(old(self).write_pos),
            final(self).buffer@ == old(self).buffer@.update(
                old(self).write_pos as int,
                Some(item),
            ),
            final(self).write_pos == ((old(self).write_pos + 1) as int % old(
                self,
            ).capacity as int),
    {
        let pos = self.write_pos;
        self.buffer[pos] = Some(item);
        self.write_pos = (pos + 1) % self.capacity;
        Some(pos)
    }

    /// The item at a position, `None` when that slot was never written.
    pub fn read(&self, pos: usize) -> (r: Option<T>)
        requires
            self.wf(),
        ensures
            r == self.buffer@[pos as int % self.capacity as int],
    {
        self.buffer[pos % self.capacity]
    }

    /// Record how far the reader has caught up.
    pub fn advance_read(&mut self, pos: usize)
        ensures
            *final(self) == (RingBuffer { read_pos: pos, ..*old(self) }),
    {
        self.read_pos = pos;
    }
}

} // verus!
