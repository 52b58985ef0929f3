//! Allocation accounting as explicit, process-scoped state: a current byte
//! count and a peak, with the transitions a profiling allocator performs on
//! allocation, deallocation and reallocation. The state is an injectable
//! collaborator rather than ambient global mutation, so callers and tests can
//! isolate it.

use vstd::prelude::*;

verus! {

/// Byte accounting of a profiling allocator: how many bytes are currently
/// allocated and the largest that count has been since the last reset.
/// The counters wrap around on overflow, as hardware counters do.
#[derive(Clone, Copy, PartialEq, Eq, Structural, Debug)]
pub struct ProfilingAllocator {
    pub allocated: usize,
    pub max_allocated: usize,
}

/// Addition on `usize` that wraps around past the maximum.
pub open spec fn wrap_add(a: usize, b: usize) -> usize {
    if a + b > usize::MAX {
        (a + b - usize::MAX - 1) as usize
    } else {
        (a + b) as usize
    }
}

/// Subtraction on `usize` that wraps around below zero.
pub open spec fn wrap_sub(a: usize, b: usize) -> usize {
    if a - b < 0 {
        (a - b + usize::MAX + 1) as usize
    } else {
        (a - b) as usize
    }
}

impl ProfilingAllocator {
    /// The state right after a reset: nothing allocated, no peak recorded.
    pub open spec fn reset_state() -> ProfilingAllocator {
        ProfilingAllocator { allocated: 0, max_allocated: 0 }
    }

    /// Fresh accounting state with both counters at zero.
    pub fn new() -> (r: ProfilingAllocator)
        ensures
            r == ProfilingAllocator::reset_state(),
    {
        ProfilingAllocator { allocated: 0, max_allocated: 0 }
    }

    /// Clears both the current count and the peak.
    pub fn reset_bytes(&mut self)
        ensures
            *final(self) == ProfilingAllocator::reset_state(),
    {
        self.allocated = 0;
        self.max_allocated = 0;
    }

    /// Reads the peak: the largest number of bytes that has been allocated
    /// at once since the last reset.
    pub fn allocated_bytes(&self) -> (r: usize)
        ensures
            r == self.max_allocated,
    {
        self.max_allocated
    }

    /// Accounts for a successful allocation of `size` bytes: the current
    /// count grows by `size` and the peak follows it upward.
    pub fn record_alloc(&mut self, size: usize)
        ensures
            final(self).allocated == wrap_add(old(self).allocated, size),
            final(self).max_allocated == if wrap_add(old(self).allocated, size)
                > old(self).max_allocated {
                wrap_add(old(self).allocated, size)
            } else {
                old(self).max_allocated
            },
            final(self).max_allocated >= old(self).max_allocated,
    {
        self.allocated = self.allocated.wrapping_add(size);
        if self.allocated > self.max_allocated {
            self.max_allocated = self.allocated;
        }
    }

    /// Accounts for a deallocation of `size` bytes: the current count
    /// shrinks by `size`; the peak stays.
    pub fn record_dealloc(&mut self, size: usize)
        ensures
            final(self).allocated == wrap_sub(old(self).allocated, size),
            final(self).max_allocated == old(self).max_allocated,
    {
        self.allocated = self.allocated.wrapping_sub(size);
    }

    /// Accounts for a successful reallocation from `old_size` to `new_size`
    /// bytes: the current count moves by the difference, and the peak
    /// follows it upward when the block grew.
    pub fn record_realloc(&mut self, old_size: usize, new_size: usize)
        ensures
            new_size > old_size ==> {
                &&& final(self).allocated == wrap_add(
                    old(self).allocated,
                    (new_size - old_size) as usize,
                )
                &&& final(self).max_allocated == if final(self).allocated
                    > old(self).max_allocated {
                    final(self).allocated
                } else {
                    old(self).max_allocated
                }
            },
            new_size <= old_size ==> {
                &&& final(self).allocated == wrap_sub(
                    old(self).allocated,
                    (old_size - new_size) as usize,
                )
                &&& final(self).max_allocated == old(self).max_allocated
            },
            final(self).max_allocated >= old(self).max_allocated,
    {
        if new_size > old_size {
            self.allocated = self.allocated.wrapping_add(new_size - old_size);
            if self.allocated > self.max_allocated {
                self.max_allocated = self.allocated;
            }
        } else {
            self.allocated = self.allocated.wrapping_sub(old_size - new_size);
        }
    }
}

/// Runs `f` against freshly reset accounting state and reports the peak
/// number of bytes `f` recorded as allocated at once.
pub fn measure_memory<F: FnOnce(ProfilingAllocator) -> ProfilingAllocator>(f: F) -> (r: usize)
    requires
        call_requires(f, (ProfilingAllocator::reset_state(),)),
    ensures
        exists|c: ProfilingAllocator|
            call_ensures(f, (ProfilingAllocator::reset_state(),), c) && r == c.max_allocated,
{
    let counters = ProfilingAllocator::new();
    let finished = f(counters);
    finished.allocated_bytes()
}

} // verus!
