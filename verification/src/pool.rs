//! A pool of reusable objects: a first-in first-out free list filled ahead
//! of time, fresh objects made (and counted) only when it is empty, and
//! released objects kept only while the list is under its size cap.

use vstd::prelude::*;
use std::collections::VecDeque;

verus! {

/// How many objects a pool of `max_size` makes ahead of time: a tenth of
/// its size, at most ten thousand.
pub open spec fn prealloc_count(max_size: usize) -> nat {
    if max_size / 10 < 10000 { (max_size / 10) as nat } else { 10000 }
}

/// Free objects kept for reuse, up to a size cap.
pub struct ObjectPool<T: Default> {
    free: VecDeque<Box<T>>,
    allocation_count: u64,
    max_size: usize,
}

impl<T: Default> ObjectPool<T> {
    /// The free list never holds more objects than the size cap.
    #[verifier::type_invariant]
    closed spec fn within_cap(&self) -> bool {
        self.free@.len() <= self.max_size
    }

    /// The free objects, the next to be handed out first.
    pub closed spec fn free(&self) -> Seq<Box<T>> {
        self.free@
    }

    /// How many objects were made because the free list was empty.
    pub closed spec fn spec_allocations(&self) -> u64 {
        self.allocation_count
    }

    /// The size cap of the free list.
    pub closed spec fn spec_max_size(&self) -> usize {
        self.max_size
    }

    /// A pool with `max_size / 10` (at most 10,000) fresh objects ready and
    /// none made since.
    pub fn new(max_size: usize) -> (r: ObjectPool<T>)
        ensures
            r.free().len() == prealloc_count(max_size),
            r.spec_allocations() == 0,
            r.spec_max_size() == max_size,
    {
        let prealloc: usize = if max_size / 10 < 10000 { max_size / 10 } else { 10000 };
        let mut free: VecDeque<Box<T>> = VecDeque::new();
        let mut i: usize = 0;
        while i < prealloc
            invariant
                i <= prealloc,
                free@.len() == i,
            decreases prealloc - i,
        {
            free.push_back(Box::new(T::default()));
            i = i + 1;
        }
        ObjectPool { free, allocation_count: 0, max_size }
    }

    /// The next free object; a fresh one, counted (wrapping, as an atomic
    /// counter does), when none is free.
    pub fn acquire(&mut self) -> (r: Box<T>)
        ensures
            final(self).spec_max_size() == old(self).spec_max_size(),
            old(self).free().len() > 0 ==> {
                &&& r == old(self).free()[0]
                &&& final(self).free() == old(self).free().drop_first()
                &&& final(self).spec_allocations() == old(self).spec_allocations()
            },
            old(self).free().len() == 0 ==> {
                &&& final(self).free() == old(self).free()
                &&& final(self).spec_allocations() == vstd::wrapping::u64_specs::wrapping_add(old(self).spec_allocations(), 1)
            },
    {
        proof {
            use_type_invariant(&*self);
        }
        let mut free: VecDeque<Box<T>> = VecDeque::new();
        std::mem::swap(&mut free, &mut self.free);
        let popped = free.pop_front();
        self.free = free;
        match popped {
            Some(boxed) => boxed,
            None => {
                self.allocation_count = self.allocation_count.wrapping_add(1);
                Box::new(T::default())
            },
        }
    }

    /// Takes an object back, keeping it only while fewer than the size cap
    /// are free.
    pub fn release(&mut self, item: Box<T>)
        ensures
            final(self).spec_max_size() == old(self).spec_max_size(),
            final(self).spec_allocations() == old(self).spec_allocations(),
            final(self).free() == if old(self).free().len() < old(self).spec_max_size() {
                old(self).free().push(item)
            } else {
                old(self).free()
            },
    {
        proof {
            use_type_invariant(&*self);
        }
        if self.free.len() < self.max_size {
            let mut free: VecDeque<Box<T>> = VecDeque::new();
            std::mem::swap(&mut free, &mut self.free);
            free.push_back(item);
            self.free = free;
        }
    }

    /// How many objects were made because the free list was empty.
    pub fn allocation_count(&self) -> (r: u64)
        ensures
            r == self.spec_allocations(),
    {
        self.allocation_count
    }

    /// How many objects are free.
    pub fn available(&self) -> (r: usize)
        ensures
            r == self.free().len(),
            r <= self.spec_max_size(),
    {
        proof {
            use_type_invariant(self);
        }
        self.free.len()
    }
}

} // verus!
