//! The generational pool allocator: a bump-style allocator that replays a
//! fixed allocation pattern — growing "pool" and "items" bookkeeping areas
//! plus an alternating two-directional data region.

use vstd::prelude::*;

use crate::AllocError;
use crate::growth::calc_spec;

verus! {

/// Bytes reserved at `start` for the pool bookkeeping region, before the
/// items region begins.
pub const POOL_SAVE: usize = 43008;

/// Bytes reserved at `start + POOL_SAVE` for the items bookkeeping region,
/// before the data region begins.
pub const ITEMS_SAVE: usize = 384;

/// Data allocations per generation; reaching this count rolls the
/// generation over.
pub const GENERATION_LEN: usize = 15;

/// Pool entries added per completed generation, and the first pool capacity
/// (the pool capacity schedule is 0 → 7, then doubling).
pub const POOL_CHUNK: usize = 7;

/// The first items capacity (the items capacity schedule is 0 → 4, then
/// doubling).
pub const ITEMS_FIRST_LEN: usize = 4;

/// A bump allocator over `[start, end)` tuned to a fixed allocation
/// pattern:
///
/// - a pool bookkeeping area at `start`, with logical count `pool_count`
///   and capacity `pool_len`;
/// - an items bookkeeping area at `start + POOL_SAVE`, with logical count
///   `items_count` and capacity `items_len`;
/// - a data region behind both reservations, drawn from two cursors: `l_pos`
///   grows upward from the region base, `r_pos` grows upward too but starts
///   `calc(i)` bytes ahead, where `i` counts the generations.
///
/// Deallocation is inert; memory is never reclaimed.
#[derive(Clone, Copy, Debug, PartialEq, Eq, Structural)]
pub struct LabByteAllocator {
    pub start: usize,
    pub end: usize,
    pub l_pos: usize,
    pub r_pos: usize,
    pub i: usize,
    pub pool_count: usize,
    pub items_count: usize,
    pub pool_len: usize,
    pub items_len: usize,
}

impl LabByteAllocator {
    /// The bookkeeping counters stay on the fixed schedule: at most one
    /// generation's worth of items, an items capacity from the 0 → 4 → 8 →
    /// 16 schedule, and seven pool entries per completed generation.
    pub open spec fn counters_ok(self) -> bool {
        &&& self.items_count <= GENERATION_LEN
        &&& (self.items_len == 0 || self.items_len == 4 || self.items_len == 8 || self.items_len
            == 16)
        &&& self.pool_count == POOL_CHUNK * self.i
    }

    /// Well-formed after `init`: counters on schedule, bounds in order, and
    /// the left data cursor behind both bookkeeping reservations.
    pub open spec fn wf(self) -> bool {
        &&& self.counters_ok()
        &&& self.start <= self.end
        &&& self.start + POOL_SAVE + ITEMS_SAVE <= self.l_pos
    }

    /// Arithmetic room for a generation rollover: the stepped counters, the
    /// reseeded forward cursor and the doubled pool capacity all fit in the
    /// address space.
    pub open spec fn rollover_ok(self) -> bool {
        &&& self.i + 1 <= usize::MAX
        &&& self.pool_count + POOL_CHUNK <= usize::MAX
        &&& self.l_pos + calc_spec(self.i + 1) <= usize::MAX
        &&& (self.pool_len > 0 && self.pool_count + POOL_CHUNK > self.pool_len ==> 2 * self.pool_len
            <= usize::MAX)
    }

    /// The state right after a generation rollover, before the call's
    /// allocation decision: next generation index, seven more pool entries,
    /// items counters reset, forward cursor reseeded by the growth function.
    pub open spec fn after_rollover(self) -> Self {
        LabByteAllocator {
            i: (self.i + 1) as usize,
            pool_count: (self.pool_count + POOL_CHUNK) as usize,
            items_count: 0,
            items_len: 0,
            r_pos: (self.l_pos + calc_spec(self.i + 1)) as usize,
            ..self
        }
    }

    /// Pool capacity growth: 0 → 7, then doubling.
    pub open spec fn grown_pool(self) -> Self {
        LabByteAllocator {
            pool_len: if self.pool_len == 0 {
                POOL_CHUNK
            } else {
                (2 * self.pool_len) as usize
            },
            ..self
        }
    }

    /// Items capacity growth: 0 → 4, then doubling.
    pub open spec fn grown_items(self) -> Self {
        LabByteAllocator {
            items_len: if self.items_len == 0 {
                ITEMS_FIRST_LEN
            } else {
                (2 * self.items_len) as usize
            },
            ..self
        }
    }

    /// The cursor the next data allocation draws from: `r_pos` for an even
    /// items count, `l_pos` for an odd one.
    pub open spec fn data_cursor(self) -> usize {
        if self.items_count % 2 == 0 {
            self.r_pos
        } else {
            self.l_pos
        }
    }

    /// A data allocation must end strictly below `end`.
    pub open spec fn data_fits(self, size: usize) -> bool {
        self.data_cursor() + size < self.end
    }

    /// The state after a successful data allocation of `size`: the chosen
    /// cursor advances and the items count steps up.
    pub open spec fn after_data_alloc(self, size: usize) -> Self {
        if self.items_count % 2 == 0 {
            LabByteAllocator {
                r_pos: (self.r_pos + size) as usize,
                items_count: (self.items_count + 1) as usize,
                ..self
            }
        } else {
            LabByteAllocator {
                l_pos: (self.l_pos + size) as usize,
                items_count: (self.items_count + 1) as usize,
                ..self
            }
        }
    }

    /// One `alloc` call as a transition: the next state and the result, in
    /// the call's decision order — generation rollover at a full generation
    /// (returning `start` when the pool capacity must grow), items capacity
    /// growth (returning `start + POOL_SAVE`), and otherwise a data
    /// allocation at the alternating cursor. A failed data allocation keeps
    /// the rollover bookkeeping, if any.
    pub open spec fn alloc_spec(self, size: usize) -> (Self, Result<usize, AllocError>) {
        let mid = if self.items_count == GENERATION_LEN {
            self.after_rollover()
        } else {
            self
        };
        if self.items_count == GENERATION_LEN && mid.pool_count > mid.pool_len {
            (mid.grown_pool(), Ok(self.start))
        } else if mid.items_count > mid.items_len {
            (mid.grown_items(), Ok((self.start + POOL_SAVE) as usize))
        } else if mid.data_fits(size) {
            (mid.after_data_alloc(size), Ok(mid.data_cursor()))
        } else {
            (mid, Err(AllocError::NoMemory))
        }
    }

    /// A fresh allocator: every bound, cursor and counter at zero. `init`
    /// must run before any allocation.
    pub fn new() -> (r: Self)
        ensures
            r.counters_ok(),
            r.start == 0,
            r.end == 0,
            r.l_pos == 0,
            r.r_pos == 0,
            r.i == 0,
            r.pool_count == 0,
            r.items_count == 0,
            r.pool_len == 0,
            r.items_len == 0,
    {
        LabByteAllocator {
            start: 0,
            end: 0,
            l_pos: 0,
            r_pos: 0,
            i: 0,
            pool_count: 0,
            items_count: 0,
            pool_len: 0,
            items_len: 0,
        }
    }

    /// Assign the managed region `[start, start + size)`. The data region
    /// begins after the pool and items reservations; the forward cursor is
    /// seeded `calc(i)` bytes ahead of it. The generation counters are kept,
    /// not reset.
    pub fn init(&mut self, start: usize, size: usize)
        requires
            old(self).counters_ok(),
            start + size <= usize::MAX,
            start + POOL_SAVE + ITEMS_SAVE + calc_spec(old(self).i as int) <= usize::MAX,
        ensures
            final(self).wf(),
            final(self).start == start,
            final(self).end == start + size,
            final(self).l_pos == start + POOL_SAVE + ITEMS_SAVE,
            final(self).r_pos == final(self).l_pos + calc_spec(old(self).i as int),
            final(self).i == old(self).i,
            final(self).pool_count == old(self).pool_count,
            final(self).items_count == old(self).items_count,
            final(self).pool_len == old(self).pool_len,
            final(self).items_len == old(self).items_len,
    {
        self.start = start;
        self.end = start + size;
        self.l_pos = start + POOL_SAVE + ITEMS_SAVE;
        let seed = crate::growth::calc(self.i);
        self.r_pos = self.l_pos + seed;
    }

    /// Extend the managed region by `size` bytes at its end. The passed
    /// start address is accepted for interface conformance but unused.
    pub fn add_memory(&mut self, start: usize, size: usize) -> (r: Result<(), AllocError>)
        requires
            old(self).end + size <= usize::MAX,
        ensures
            r == Ok::<(), AllocError>(()),
            final(self).end == old(self).end + size,
            final(self).start == old(self).start,
            final(self).l_pos == old(self).l_pos,
            final(self).r_pos == old(self).r_pos,
            final(self).i == old(self).i,
            final(self).pool_count == old(self).pool_count,
            final(self).items_count == old(self).items_count,
            final(self).pool_len == old(self).pool_len,
            final(self).items_len == old(self).items_len,
            old(self).wf() ==> final(self).wf(),
    {
        self.end = self.end + size;
        Ok(())
    }

    /// One allocation of `size` bytes following the fixed decision order
    /// described by [`Self::alloc_spec`]. Alignment is accepted but unused:
    /// no alignment is honored anywhere in this allocator.
    pub fn allocate(&mut self, size: usize, align: usize) -> (r: Result<usize, AllocError>)
        requires
            old(self).wf(),
            old(self).items_count == GENERATION_LEN ==> old(self).rollover_ok(),
        ensures
            final(self).wf(),
            *final(self) == old(self).alloc_spec(size).0,
            r == old(self).alloc_spec(size).1,
    {
        if self.items_count == GENERATION_LEN {
            self.i = self.i + 1;
            self.pool_count = self.pool_count + POOL_CHUNK;
            self.items_count = 0;
            self.items_len = 0;
            let seed = crate::growth::calc(self.i);
            self.r_pos = self.l_pos + seed;

            if self.pool_count > self.pool_len {
                if self.pool_len == 0 {
                    self.pool_len = POOL_CHUNK;
                } else {
                    self.pool_len = 2 * self.pool_len;
                }
                return Ok(self.start);
            }
        }
        if self.items_count > self.items_len {
            if self.items_len == 0 {
                self.items_len = ITEMS_FIRST_LEN;
            } else {
                self.items_len = 2 * self.items_len;
            }
            return Ok(self.start + POOL_SAVE);
        }
        if self.items_count % 2 == 0 {
            let ptr = self.r_pos;
            if self.end <= ptr || size >= self.end - ptr {
                return Err(AllocError::NoMemory);
            }
            self.r_pos = ptr + size;
            self.items_count = self.items_count + 1;
            Ok(ptr)
        } else {
            let ptr = self.l_pos;
            if self.end <= ptr || size >= self.end - ptr {
                return Err(AllocError::NoMemory);
            }
            self.l_pos = ptr + size;
            self.items_count = self.items_count + 1;
            Ok(ptr)
        }
    }

    /// Deallocation is inert: memory is never reclaimed, and the freed
    /// address and layout are ignored.
    pub fn dealloc(&mut self, pos: usize, size: usize, align: usize)
        ensures
            *final(self) == *old(self),
    {
    }

    /// The whole managed span, `end - start`.
    pub fn total_bytes(&self) -> (r: usize)
        requires
            self.start <= self.end,
        ensures
            r == self.end - self.start,
    {
        self.end - self.start
    }

    /// Byte accounting is deliberately not provided by this allocator: the
    /// caller gets `Unsupported`.
    pub fn used_bytes(&self) -> (r: Result<usize, AllocError>)
        ensures
            r == Err::<usize, AllocError>(AllocError::Unsupported),
    {
        Err(AllocError::Unsupported)
    }

    /// Byte accounting is deliberately not provided by this allocator: the
    /// caller gets `Unsupported`.
    pub fn available_bytes(&self) -> (r: Result<usize, AllocError>)
        ensures
            r == Err::<usize, AllocError>(AllocError::Unsupported),
    {
        Err(AllocError::Unsupported)
    }
}

/// Generation rollover: a call that finds a full generation advances the
/// generation index, adds seven pool entries, resets the items counters, and
/// reseeds the forward cursor from the growth function — whatever the call
/// then returns (the cursor may additionally advance by `size` when the call
/// ends in a data allocation).
pub proof fn lemma_generation_rollover(a: LabByteAllocator, size: usize)
    requires
        a.wf(),
        a.items_count == GENERATION_LEN,
        a.rollover_ok(),
    ensures
        ({
            let next = a.alloc_spec(size).0;
            &&& next.i == a.i + 1
            &&& next.pool_count == a.pool_count + POOL_CHUNK
            &&& next.items_count <= 1
            &&& next.items_len == 0
            &&& next.l_pos == a.l_pos
            &&& a.l_pos + calc_spec(a.i + 1) <= next.r_pos
            &&& next.r_pos <= a.l_pos + calc_spec(a.i + 1) + size
        }),
{
}

/// A pool-capacity-growth allocation returns the fixed base address `start`,
/// regardless of the requested size, and touches nothing but the rollover
/// bookkeeping and the pool capacity.
pub proof fn lemma_pool_growth_addr(a: LabByteAllocator, size: usize)
    requires
        a.wf(),
        a.items_count == GENERATION_LEN,
        a.rollover_ok(),
        a.pool_count + POOL_CHUNK > a.pool_len,
    ensures
        a.alloc_spec(size).1 == Ok::<usize, AllocError>(a.start),
        a.alloc_spec(size).0 == a.after_rollover().grown_pool(),
{
}

/// An items-capacity-growth allocation returns the fixed base address
/// `start + POOL_SAVE`, regardless of the requested size, and touches
/// neither the items count nor the data cursors.
pub proof fn lemma_items_growth_addr(a: LabByteAllocator, size: usize)
    requires
        a.wf(),
        a.items_count != GENERATION_LEN,
        a.items_count > a.items_len,
    ensures
        a.alloc_spec(size).1 == Ok::<usize, AllocError>((a.start + POOL_SAVE) as usize),
        a.alloc_spec(size).0 == a.grown_items(),
{
}

/// A failed data allocation leaves the allocator exactly as it was, when no
/// generation rollover was pending (a pending rollover's bookkeeping keeps
/// even when the data allocation after it fails).
pub proof fn lemma_failed_alloc_unchanged(a: LabByteAllocator, size: usize)
    requires
        a.wf(),
        a.items_count != GENERATION_LEN,
        a.items_count <= a.items_len,
        !a.data_fits(size),
    ensures
        a.alloc_spec(size).0 == a,
        a.alloc_spec(size).1 == Err::<usize, AllocError>(AllocError::NoMemory),
{
}

} // verus!
