//! Fixed-capacity allocation pool for the hot path.
//!
//! A handle owns its value and names the pool block it was issued from;
//! the pool tracks which blocks are free. The pool invariant is that
//! allocated and available blocks always add up to the capacity.

use vstd::prelude::*;

verus! {

/// Fixed-capacity pool: a free list of block indices.
pub struct MemoryPool<T> {
    pub free: Vec<usize>,
    pub allocated: usize,
    pub capacity: usize,
    pub phantom: core::marker::PhantomData<T>,
}

/// A block issued by the pool, owning its value.
pub struct PoolHandle<T> {
    pub idx: usize,
    pub value: T,
}

impl<T> PoolHandle<T> {
    /// The allocated value.
    pub fn get(&self) -> (r: Option<&T>)
        ensures
            r == Some(&self.value),
    {
        Some(&self.value)
    }
}

impl<T> MemoryPool<T> {
    /// Allocated and free blocks account for the whole pool, and the free
    /// list names distinct valid blocks.
    pub open spec fn wf(&self) -> bool {
        &&& self.allocated + self.free@.len() == self.capacity
        &&& forall|i: int| 0 <= i < self.free@.len() ==> (#[trigger] self.free@[i]) < self.capacity
        &&& forall|i: int, j: int|
            0 <= i < j < self.free@.len() ==> (#[trigger] self.free@[i]) != (#[trigger] self.free@[j])
    }

    /// A pool of `capacity` blocks, all free.
    pub fn new(capacity: usize) -> (r: MemoryPool<T>)
        ensures
            r.wf(),
            r.capacity == capacity,
            r.allocated == 0,
    {
        let mut free: Vec<usize> = Vec::new();
        let mut i: usize = 0;
        while i < capacity
            invariant
                i <= capacity,
                free@.len() == i,
                forall|j: int| 0 <= j < i ==> (#[trigger] free@[j]) == j,
            decreases capacity - i,
        {
            free.push(i);
            i = i + 1;
        }
        MemoryPool { free, allocated: 0, capacity, phantom: core::marker::PhantomData }
    }

    /// Take a free block for `value`; `None` when the pool is exhausted.
    pub fn allocate(&mut self, value: T) -> (r: Option<PoolHandle<T>>)
        requires
            old(self).wf(),
        ensures
            final(self).wf(),
            final(self).capacity == old(self).capacity,
            old(self).free@.len() == 0 ==> r is None && final(self).free@ == old(self).free@
                && final(self).allocated == old(self).allocated,
            old(self).free@.len() > 0 ==> ({
                &&& r is Some
                &&& r->Some_0.value == value
                &&& r->Some_0.idx == old(self).free@.last()
                &&& final(self).allocated == old(self).allocated + 1
                &&& final(self).free@ == old(self).free@.drop_last()
            }),
    {
        match self.free.pop() {
            Some(idx) => {
                self.allocated = self.allocated + 1;
                Some(PoolHandle { idx, value })
            },
            None => None,
        }
    }

    /// Return a block to the pool, releasing its value. The handle must be
    /// one this pool issued and not yet returned: its block is not on the
    /// free list.
    pub fn deallocate(&mut self, handle: PoolHandle<T>) -> (r: T)
        requires
            old(self).wf(),
            handle.idx < old(self).capacity,
            forall|i: int| 0 <= i < old(self).free@.len() ==> (#[trigger] old(self).free@[i]) != handle.idx,
            old(self).allocated > 0,
        ensures
            final(self).wf(),
            final(self).capacity == old(self).capacity,
            final(self).allocated == old(self).allocated - 1,
            final(self).free@ == old(self).free@.push(handle.idx),
            r == handle.value,
    {
        let PoolHandle { idx, value } = handle;
        self.free.push(idx);
        self.allocated = self.allocated - 1;
        proof {
            assert forall|i: int, j: int|
                0 <= i < j < self.free@.len() implies (#[trigger] self.free@[i]) != (
            #[trigger] self.free@[j]) by {
                if j < self.free@.len() - 1 {
                    assert(old(self).free@[i] != old(self).free@[j]);
                } else {
                    assert(self.free@[i] == old(self).free@[i]);
                }
            }
        }
        value
    }

    /// Number of blocks currently issued.
    pub fn allocated_count(&self) -> (r: usize)
        ensures
            r == self.allocated,
    {
        self.allocated
    }

    /// Number of blocks still free.
    pub fn available_count(&self) -> (r: usize)
        requires
            self.wf(),
        ensures
            r == self.capacity - self.allocated,
    {
        self.capacity - self.allocated
    }

    /// Total number of blocks.
    pub fn capacity(&self) -> (r: usize)
        ensures
            r == self.capacity,
    {
        self.capacity
    }
}

} // verus!
