//! The dual-growth bump allocator: bytes grow forward from `start`, pages
//! grow backward from `end`, and the two regions may never touch.

use vstd::prelude::*;

use crate::AllocError;

verus! {

/// An early memory allocator over one double-ended memory range:
///
/// ```text
/// [ bytes-used | avail-area | pages-used ]
/// |            | -->    <-- |            |
/// start       b_pos        p_pos       end
/// ```
///
/// Bytes are allocated forward at `b_pos`, whole pages backward at `p_pos`.
/// The pages area is never freed; the bytes area shrinks only under exact
/// last-in-first-out deallocation.
#[derive(Clone, Copy, Debug, PartialEq, Eq)]
pub struct EarlyAllocator<const PAGE_SIZE: usize> {
    pub start: usize,
    pub end: usize,
    pub b_pos: usize,
    pub p_pos: usize,
}

impl<const PAGE_SIZE: usize> EarlyAllocator<PAGE_SIZE> {
    /// The cursors sit in order between the region bounds.
    pub open spec fn wf(self) -> bool {
        self.start <= self.b_pos && self.b_pos <= self.p_pos && self.p_pos <= self.end
    }

    pub open spec fn spec_total_bytes(self) -> int {
        self.p_pos - self.start
    }

    pub open spec fn spec_used_bytes(self) -> int {
        self.b_pos - self.start
    }

    pub open spec fn spec_available_bytes(self) -> int {
        self.p_pos - self.b_pos
    }

    pub open spec fn spec_total_pages(self) -> int {
        self.end - self.b_pos
    }

    pub open spec fn spec_used_pages(self) -> int {
        self.end - self.p_pos
    }

    pub open spec fn spec_available_pages(self) -> int {
        self.p_pos - self.b_pos
    }

    /// A byte allocation of `size` fits when it leaves the byte cursor
    /// strictly below the page cursor: even at an exact fit one byte of
    /// slack is preserved.
    pub open spec fn byte_alloc_fits(self, size: usize) -> bool {
        self.b_pos + size < self.p_pos
    }

    /// The state after a successful byte allocation of `size`.
    pub open spec fn after_byte_alloc(self, size: usize) -> Self {
        EarlyAllocator {
            start: self.start,
            end: self.end,
            b_pos: (self.b_pos + size) as usize,
            p_pos: self.p_pos,
        }
    }

    /// The state after a byte deallocation of `size`: the byte cursor steps
    /// back, no matter which address was freed.
    pub open spec fn after_byte_dealloc(self, size: usize) -> Self {
        EarlyAllocator {
            start: self.start,
            end: self.end,
            b_pos: (self.b_pos - size) as usize,
            p_pos: self.p_pos,
        }
    }

    /// A page allocation of `num_pages` fits when the page cursor stays
    /// strictly above the byte cursor.
    pub open spec fn page_alloc_fits(self, num_pages: usize) -> bool {
        num_pages * PAGE_SIZE < self.p_pos - self.b_pos
    }

    /// The state after a successful page allocation of `num_pages`.
    pub open spec fn after_page_alloc(self, num_pages: usize) -> Self {
        EarlyAllocator {
            start: self.start,
            end: self.end,
            b_pos: self.b_pos,
            p_pos: (self.p_pos - num_pages * PAGE_SIZE) as usize,
        }
    }

    /// A fresh allocator manages the empty region at address zero; `init`
    /// assigns the real region.
    pub fn new() -> (r: Self)
        ensures
            r.wf(),
            r.start == 0,
            r.end == 0,
            r.b_pos == 0,
            r.p_pos == 0,
    {
        EarlyAllocator { start: 0, end: 0, b_pos: 0, p_pos: 0 }
    }

    /// Assign the managed region `[start, start + size)`: bytes will grow
    /// from the front, pages from the back.
    pub fn init(&mut self, start: usize, size: usize)
        requires
            start + size <= usize::MAX,
        ensures
            final(self).wf(),
            final(self).start == start,
            final(self).end == start + size,
            final(self).b_pos == start,
            final(self).p_pos == start + size,
    {
        self.start = start;
        self.end = start + size;
        self.b_pos = start;
        self.p_pos = self.end;
    }

    /// Extending the managed region is deliberately not provided by this
    /// allocator: the caller gets `Unsupported` and nothing changes.
    pub fn add_memory(&mut self, start: usize, size: usize) -> (r: Result<(), AllocError>)
        ensures
            r == Err::<(), AllocError>(AllocError::Unsupported),
            *final(self) == *old(self),
    {
        Err(AllocError::Unsupported)
    }

    /// Allocate `size` bytes at the byte cursor and advance it. Alignment is
    /// accepted but unused. Fails with `NoMemory` exactly when the advanced
    /// cursor would touch or pass the page cursor, and then changes nothing.
    pub fn allocate(&mut self, size: usize, align: usize) -> (r: Result<usize, AllocError>)
        requires
            old(self).wf(),
        ensures
            final(self).wf(),
            old(self).byte_alloc_fits(size) ==> {
                &&& r == Ok::<usize, AllocError>(old(self).b_pos)
                &&& *final(self) == old(self).after_byte_alloc(size)
            },
            !old(self).byte_alloc_fits(size) ==> {
                &&& r == Err::<usize, AllocError>(AllocError::NoMemory)
                &&& *final(self) == *old(self)
            },
    {
        if size < self.p_pos - self.b_pos {
            let ptr = self.b_pos;
            self.b_pos = self.b_pos + size;
            Ok(ptr)
        } else {
            Err(AllocError::NoMemory)
        }
    }

    /// Step the byte cursor back by `size`. The freed address is accepted
    /// for interface conformance but neither validated nor used: the cursor
    /// stays meaningful only when callers free in exact last-in-first-out
    /// order, and the freed sizes may never exceed the bytes in use.
    pub fn dealloc(&mut self, pos: usize, size: usize, align: usize)
        requires
            old(self).wf(),
            size <= old(self).b_pos - old(self).start,
        ensures
            final(self).wf(),
            *final(self) == old(self).after_byte_dealloc(size),
    {
        self.b_pos = self.b_pos - size;
    }

    /// Bytes from `start` up to the page cursor: the span byte allocations
    /// can ever draw from.
    pub fn total_bytes(&self) -> (r: usize)
        requires
            self.wf(),
        ensures
            r == self.spec_total_bytes(),
    {
        self.p_pos - self.start
    }

    /// Bytes handed out at the front.
    pub fn used_bytes(&self) -> (r: usize)
        requires
            self.wf(),
        ensures
            r == self.spec_used_bytes(),
    {
        self.b_pos - self.start
    }

    /// Bytes still free between the two cursors.
    pub fn available_bytes(&self) -> (r: usize)
        requires
            self.wf(),
        ensures
            r == self.spec_available_bytes(),
    {
        self.p_pos - self.b_pos
    }

    /// Allocate `num_pages` whole pages at the back: the page cursor steps
    /// down by `num_pages * PAGE_SIZE` and the new cursor is the returned
    /// base address. Alignment is accepted but unused. Fails with `NoMemory`
    /// exactly when the pages would touch or pass the byte cursor, and then
    /// changes nothing.
    pub fn alloc_pages(&mut self, num_pages: usize, align_pow2: usize) -> (r: Result<
        usize,
        AllocError,
    >)
        requires
            old(self).wf(),
        ensures
            final(self).wf(),
            old(self).page_alloc_fits(num_pages) ==> {
                &&& *final(self) == old(self).after_page_alloc(num_pages)
                &&& r == Ok::<usize, AllocError>(final(self).p_pos)
            },
            !old(self).page_alloc_fits(num_pages) ==> {
                &&& r == Err::<usize, AllocError>(AllocError::NoMemory)
                &&& *final(self) == *old(self)
            },
    {
        match num_pages.checked_mul(PAGE_SIZE) {
            Some(bytes) => {
                if bytes < self.p_pos - self.b_pos {
                    self.p_pos = self.p_pos - bytes;
                    Ok(self.p_pos)
                } else {
                    Err(AllocError::NoMemory)
                }
            },
            None => Err(AllocError::NoMemory),
        }
    }

    /// Reclaiming pages is deliberately not provided by this allocator: the
    /// caller gets `Unsupported` and nothing changes.
    pub fn dealloc_pages(&mut self, pos: usize, num_pages: usize) -> (r: Result<(), AllocError>)
        ensures
            r == Err::<(), AllocError>(AllocError::Unsupported),
            *final(self) == *old(self),
    {
        Err(AllocError::Unsupported)
    }

    /// Bytes from the byte cursor up to `end`: the span page allocations can
    /// ever draw from.
    pub fn total_pages(&self) -> (r: usize)
        requires
            self.wf(),
        ensures
            r == self.spec_total_pages(),
    {
        self.end - self.b_pos
    }

    /// Bytes handed out as pages at the back.
    pub fn used_pages(&self) -> (r: usize)
        requires
            self.wf(),
        ensures
            r == self.spec_used_pages(),
    {
        self.end - self.p_pos
    }

    /// Bytes still free between the two cursors.
    pub fn available_pages(&self) -> (r: usize)
        requires
            self.wf(),
        ensures
            r == self.spec_available_pages(),
    {
        self.p_pos - self.b_pos
    }
}

/// Freshly initialized, the byte region is empty: nothing used, the whole
/// managed span counted and available.
pub proof fn lemma_init_observables<const PAGE_SIZE: usize>(
    a: EarlyAllocator<PAGE_SIZE>,
    start: usize,
    size: usize,
)
    requires
        a.start == start,
        a.end == start + size,
        a.b_pos == start,
        a.p_pos == start + size,
    ensures
        a.wf(),
        a.spec_used_bytes() == 0,
        a.spec_total_bytes() == size,
        a.spec_available_bytes() == size,
{
}

/// Every allocation of the run `sizes` fits when it is made: each step
/// leaves the cursors strictly apart.
pub open spec fn all_fit<const PAGE_SIZE: usize>(
    a: EarlyAllocator<PAGE_SIZE>,
    sizes: Seq<usize>,
) -> bool
    decreases sizes.len(),
{
    sizes.len() == 0 || (a.byte_alloc_fits(sizes[0]) && all_fit(
        a.after_byte_alloc(sizes[0]),
        sizes.drop_first(),
    ))
}

/// The address handed out by the `k`-th allocation of the run `sizes`
/// starting from state `a`.
pub open spec fn addr_at<const PAGE_SIZE: usize>(
    a: EarlyAllocator<PAGE_SIZE>,
    sizes: Seq<usize>,
    k: int,
) -> int
    decreases k,
{
    if k <= 0 {
        a.b_pos as int
    } else {
        addr_at(a.after_byte_alloc(sizes[0]), sizes.drop_first(), k - 1)
    }
}

proof fn lemma_addr_at_lower_bound<const PAGE_SIZE: usize>(
    a: EarlyAllocator<PAGE_SIZE>,
    sizes: Seq<usize>,
    k: int,
)
    requires
        a.wf(),
        all_fit(a, sizes),
        0 <= k <= sizes.len(),
    ensures
        addr_at(a, sizes, k) >= a.b_pos,
    decreases k,
{
    if k > 0 {
        lemma_addr_at_lower_bound(a.after_byte_alloc(sizes[0]), sizes.drop_first(), k - 1);
    }
}

/// In a run of byte allocations that each fit when made, every address is
/// handed out inside the managed region, together with its whole range.
pub proof fn lemma_run_addrs_in_range<const PAGE_SIZE: usize>(
    a: EarlyAllocator<PAGE_SIZE>,
    sizes: Seq<usize>,
    k: int,
)
    requires
        a.wf(),
        all_fit(a, sizes),
        0 <= k < sizes.len(),
    ensures
        a.start <= addr_at(a, sizes, k),
        addr_at(a, sizes, k) + sizes[k] < a.end,
    decreases k,
{
    if k > 0 {
        lemma_run_addrs_in_range(a.after_byte_alloc(sizes[0]), sizes.drop_first(), k - 1);
    }
}

/// In a run of byte allocations that each fit when made, the ranges handed
/// out by two distinct allocations never overlap: the earlier range ends at
/// or before the later one begins.
pub proof fn lemma_run_addrs_disjoint<const PAGE_SIZE: usize>(
    a: EarlyAllocator<PAGE_SIZE>,
    sizes: Seq<usize>,
    j: int,
    k: int,
)
    requires
        a.wf(),
        all_fit(a, sizes),
        0 <= j < k < sizes.len(),
    ensures
        addr_at(a, sizes, j) + sizes[j] <= addr_at(a, sizes, k),
    decreases j,
{
    let a2 = a.after_byte_alloc(sizes[0]);
    if j == 0 {
        lemma_addr_at_lower_bound(a2, sizes.drop_first(), k - 1);
    } else {
        lemma_run_addrs_disjoint(a2, sizes.drop_first(), j - 1, k - 1);
    }
}

/// Last-in-first-out round trip: allocate `s1` then `s2`, free `s2` then
/// `s1`, and the byte cursor — hence `used_bytes` — is exactly back where it
/// started.
pub proof fn lemma_lifo_roundtrip<const PAGE_SIZE: usize>(
    a: EarlyAllocator<PAGE_SIZE>,
    s1: usize,
    s2: usize,
)
    requires
        a.wf(),
        a.byte_alloc_fits(s1),
        a.after_byte_alloc(s1).byte_alloc_fits(s2),
    ensures
        a.after_byte_alloc(s1).after_byte_alloc(s2).after_byte_dealloc(s2).after_byte_dealloc(s1)
            == a,
{
}

} // verus!
