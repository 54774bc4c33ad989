//! A dual-zone bump allocator for early boot.
//!
//! The allocator owns one fixed address interval `[start, end)` and serves
//! two kinds of requests out of it: byte allocations bump a cursor upward
//! from `start`, page allocations bump a second cursor downward from `end`.
//! The gap between the two cursors is the memory still available; the two
//! zones may never cross.
//!
//! ```text
//! [ bytes-used | avail-area | pages-used ]
//! |            | -->    <-- |            |
//! start       b_pos        p_pos       end
//! ```

use vstd::arithmetic::div_mod::{
    lemma_fundamental_div_mod, lemma_mod_division_less_than_divisor,
};
use vstd::arithmetic::mul::lemma_mul_inequality;
use vstd::prelude::*;

use crate::align::{
    is_power_of_two, lemma_align_down_properties, lemma_align_up_properties,
    lemma_aligned_to_coarser_alignment, lemma_power_of_two_positive, spec_align_down,
    spec_align_up,
};

verus! {

/// The one failure an early allocator reports: the request cannot be
/// satisfied from the fixed region (exhaustion, address overflow, or an
/// operation the allocator does not support).
#[derive(Clone, Copy, Debug, PartialEq, Eq)]
pub enum AllocError {
    NoMemory,
}

/// The abstract state of an [`EarlyAllocator`]: the fixed region bounds, the
/// two cursors, and the number of live byte allocations.
pub ghost struct AllocState {
    pub start: int,
    pub end: int,
    pub b_pos: int,
    pub p_pos: int,
    pub b_count: int,
}

impl AllocState {
    /// The allocator's invariant: the byte cursor and the page cursor stay
    /// inside the region and never cross, and every address fits in `usize`.
    pub open spec fn wf(self) -> bool {
        &&& 0 <= self.start
        &&& self.start <= self.b_pos
        &&& self.b_pos <= self.p_pos
        &&& self.p_pos <= self.end
        &&& self.end <= usize::MAX
    }

    /// Size of the whole managed region.
    pub open spec fn total_bytes(self) -> int {
        self.end - self.start
    }

    /// Bytes consumed so far: the byte zone plus the page zone, both of
    /// which count against the shared region.
    pub open spec fn used_bytes(self) -> int {
        (self.b_pos - self.start) + (self.end - self.p_pos)
    }

    /// The gap still open between the two zones.
    pub open spec fn available_bytes(self) -> int {
        self.p_pos - self.b_pos
    }

    /// Whole pages the region could ever hold.
    pub open spec fn total_pages(self, page_size: int) -> int
        recommends
            page_size >= 1,
    {
        self.total_bytes() / page_size
    }

    /// Whole pages consumed by the page zone.
    pub open spec fn used_pages(self, page_size: int) -> int
        recommends
            page_size >= 1,
    {
        (self.end - self.p_pos) / page_size
    }

    /// Whole pages that still fit in the gap.
    pub open spec fn available_pages(self, page_size: int) -> int
        recommends
            page_size >= 1,
    {
        self.available_bytes() / page_size
    }
}

/// Early memory allocator for the phase of boot before a real byte or page
/// allocator is running. `SIZE` is the page granularity in bytes.
///
/// Byte allocations grow upward from `start` and are reclaimed only in
/// last-in-first-out order; page allocations grow downward from `end` and
/// are never reclaimed. The whole allocator is discarded once richer
/// allocators take over.
pub struct EarlyAllocator<const SIZE: usize> {
    start: usize,
    end: usize,
    b_pos: usize,
    p_pos: usize,
    b_count: usize,
}

impl<const SIZE: usize> View for EarlyAllocator<SIZE> {
    type V = AllocState;

    closed spec fn view(&self) -> AllocState {
        AllocState {
            start: self.start as int,
            end: self.end as int,
            b_pos: self.b_pos as int,
            p_pos: self.p_pos as int,
            b_count: self.b_count as int,
        }
    }
}

impl<const SIZE: usize> EarlyAllocator<SIZE> {
    #[verifier::type_invariant]
    spec fn inv(self) -> bool {
        self@.wf()
    }

    /// A fresh allocator managing no memory yet: every cursor sits at
    /// address zero until `init` hands it a region.
    pub fn new() -> (a: Self)
        ensures
            a@ == (AllocState { start: 0, end: 0, b_pos: 0, p_pos: 0, b_count: 0 }),
            a@.wf(),
    {
        Self { start: 0, end: 0, b_pos: 0, p_pos: 0, b_count: 0 }
    }

    /// Hand the allocator its one region, `[start, start + size)`. The byte
    /// cursor starts at the low end, the page cursor at the high end, so the
    /// whole region is initially available.
    pub fn init(&mut self, start: usize, size: usize)
        requires
            start + size <= usize::MAX,
        ensures
            final(self)@ == (AllocState {
                start: start as int,
                end: start + size,
                b_pos: start as int,
                p_pos: start + size,
                b_count: 0,
            }),
            final(self)@.wf(),
            final(self)@.total_bytes() == size,
            final(self)@.used_bytes() == 0,
            final(self)@.available_bytes() == size,
    {
        let end: usize = start + size;
        *self = Self { start, end, b_pos: start, p_pos: end, b_count: 0 };
    }

    /// Growing the managed range is unsupported: this allocator keeps exactly
    /// one region for its whole life, so the call always fails and changes
    /// nothing.
    #[allow(unused_variables)]
    pub fn add_memory(&mut self, start: usize, size: usize) -> (r: Result<(), AllocError>)
        ensures
            r == Err::<(), AllocError>(AllocError::NoMemory),
            final(self)@ == old(self)@,
            final(self)@.wf(),
    {
        proof {
            use_type_invariant(&*self);
        }
        Err(AllocError::NoMemory)
    }

    /// Would a request for `required_size` more bytes still fit, were it
    /// taken from the byte zone (`is_byte_alloc`) or from the page zone?
    /// Saturating arithmetic keeps the probe total even at the address
    /// space's edges.
    pub fn check_space(&self, required_size: usize, is_byte_alloc: bool) -> (r: bool)
        ensures
            r == (if is_byte_alloc {
                self@.b_pos + required_size <= self@.p_pos || self@.p_pos == usize::MAX
            } else {
                self@.p_pos - required_size >= self@.b_pos || self@.b_pos == 0
            }),
            self@.wf(),
    {
        proof {
            use_type_invariant(&*self);
        }
        if is_byte_alloc {
            self.b_pos.saturating_add(required_size) <= self.p_pos
        } else {
            self.p_pos.saturating_sub(required_size) >= self.b_pos
        }
    }

    /// Number of byte allocations made and not yet reclaimed.
    pub fn byte_alloc_count(&self) -> (r: usize)
        ensures
            r == self@.b_count,
            self@.wf(),
    {
        proof {
            use_type_invariant(&*self);
        }
        self.b_count
    }

    /// Size of the whole managed region.
    pub fn total_bytes(&self) -> (r: usize)
        ensures
            r == self@.total_bytes(),
            self@.wf(),
    {
        proof {
            use_type_invariant(&*self);
        }
        self.end.saturating_sub(self.start)
    }

    /// Bytes consumed by the byte zone plus bytes consumed by the page zone.
    pub fn used_bytes(&self) -> (r: usize)
        ensures
            r == self@.used_bytes(),
            self@.wf(),
    {
        proof {
            use_type_invariant(&*self);
        }
        let bytes_used: usize = self.b_pos.saturating_sub(self.start);
        let pages_used: usize = self.end.saturating_sub(self.p_pos);
        bytes_used + pages_used
    }

    /// Bytes still open between the two zones.
    pub fn available_bytes(&self) -> (r: usize)
        ensures
            r == self@.available_bytes(),
            self@.wf(),
    {
        proof {
            use_type_invariant(&*self);
        }
        self.p_pos.saturating_sub(self.b_pos)
    }

    /// Allocate `size` bytes aligned to `align` from the byte zone.
    ///
    /// The byte cursor is rounded up to the alignment and the block is
    /// carved out just above it; the call fails with `NoMemory` exactly when
    /// the aligned block will not fit below the page zone (including when
    /// the address arithmetic would overflow), and a failed call changes
    /// nothing.
    pub fn alloc_bytes(&mut self, size: usize, align: usize) -> (r: Result<usize, AllocError>)
        requires
            is_power_of_two(align as int),
            old(self)@.b_count < usize::MAX,
        ensures
            final(self)@.wf(),
            final(self)@.start == old(self)@.start,
            final(self)@.end == old(self)@.end,
            final(self)@.p_pos == old(self)@.p_pos,
            ({
                let aligned = spec_align_up(old(self)@.b_pos, align as int);
                if aligned + size <= old(self)@.p_pos {
                    &&& r matches Ok(addr) && addr == aligned
                    &&& final(self)@.b_pos == aligned + size
                    &&& final(self)@.b_count == old(self)@.b_count + 1
                } else {
                    &&& r == Err::<usize, AllocError>(AllocError::NoMemory)
                    &&& final(self)@ == old(self)@
                }
            }),
            // a successful allocation is aligned and lies inside the region
            r matches Ok(addr) ==> addr as int % align as int == 0
                && old(self)@.start <= addr && addr + size <= old(self)@.end,
            // asking for more than the open gap always fails and changes nothing
            size > old(self)@.available_bytes() ==> r == Err::<usize, AllocError>(
                AllocError::NoMemory,
            ) && final(self)@ == old(self)@,
    {
        proof {
            use_type_invariant(&*self);
            lemma_power_of_two_positive(align as int);
            lemma_align_up_properties(old(self)@.b_pos, align as int);
        }
        let rem: usize = self.b_pos % align;
        let aligned_b_pos: usize = if rem == 0 {
            self.b_pos
        } else {
            match self.b_pos.checked_add(align - rem) {
                Some(a) => a,
                None => {
                    return Err(AllocError::NoMemory);
                },
            }
        };
        let new_b_pos: usize = match aligned_b_pos.checked_add(size) {
            Some(n) => n,
            None => {
                return Err(AllocError::NoMemory);
            },
        };
        if new_b_pos > self.p_pos {
            return Err(AllocError::NoMemory);
        }
        self.b_pos = new_b_pos;
        self.b_count = self.b_count + 1;
        Ok(aligned_b_pos)
    }

    /// Return a byte block, which reclaims its memory only when the block is
    /// the top of the byte zone: strict last-in-first-out order, any other
    /// release is a silent no-op until the blocks above it are released.
    pub fn dealloc(&mut self, pos: usize, size: usize)
        requires
            pos + size == old(self)@.b_pos ==> pos >= old(self)@.start,
        ensures
            final(self)@.wf(),
            final(self)@.start == old(self)@.start,
            final(self)@.end == old(self)@.end,
            final(self)@.p_pos == old(self)@.p_pos,
            final(self)@.b_count == old(self)@.b_count,
            final(self)@.b_pos == (if pos + size == old(self)@.b_pos {
                pos as int
            } else {
                old(self)@.b_pos
            }),
    {
        proof {
            use_type_invariant(&*self);
        }
        if let Some(block_end) = pos.checked_add(size) {
            if block_end == self.b_pos {
                self.b_pos = pos;
            }
        }
    }

    /// Allocate `num_pages` pages of `SIZE` bytes each from the page zone,
    /// aligned to `align_pow2`.
    ///
    /// The page cursor moves down by the requested bytes (stopping at
    /// address zero) and is then rounded down to the alignment; the call
    /// fails with `NoMemory` when the byte count overflows or the candidate
    /// cursor falls below the byte zone, and a failed call changes nothing.
    pub fn alloc_pages(&mut self, num_pages: usize, align_pow2: usize) -> (r: Result<
        usize,
        AllocError,
    >)
        requires
            is_power_of_two(align_pow2 as int),
        ensures
            final(self)@.wf(),
            final(self)@.start == old(self)@.start,
            final(self)@.end == old(self)@.end,
            final(self)@.b_pos == old(self)@.b_pos,
            final(self)@.b_count == old(self)@.b_count,
            ({
                let requested = num_pages as int * SIZE as int;
                let unaligned = if requested <= old(self)@.p_pos {
                    old(self)@.p_pos - requested
                } else {
                    0
                };
                let candidate = spec_align_down(unaligned, align_pow2 as int);
                if requested <= usize::MAX && candidate >= old(self)@.b_pos {
                    &&& r matches Ok(addr) && addr == candidate
                    &&& final(self)@.p_pos == candidate
                } else {
                    &&& r == Err::<usize, AllocError>(AllocError::NoMemory)
                    &&& final(self)@ == old(self)@
                }
            }),
            // a successful allocation is aligned and sits between the zones
            r matches Ok(addr) ==> addr as int % align_pow2 as int == 0
                && old(self)@.b_pos <= addr && addr <= old(self)@.p_pos,
            // when the page cursor did not saturate, the bytes are really reserved
            r matches Ok(addr) ==> (num_pages as int * SIZE as int <= old(self)@.p_pos
                ==> old(self)@.end - addr >= num_pages as int * SIZE as int),
            // asking for more pages than available fails and changes nothing,
            // provided the byte zone sits above address zero
            SIZE >= 1 && num_pages > old(self)@.available_pages(SIZE as int) && old(self)@.b_pos
                > 0 ==> r == Err::<usize, AllocError>(AllocError::NoMemory) && final(self)@ == old(
                self,
            )@,
    {
        proof {
            use_type_invariant(&*self);
            lemma_power_of_two_positive(align_pow2 as int);
        }
        let requested: usize = match num_pages.checked_mul(SIZE) {
            Some(s) => s,
            None => {
                return Err(AllocError::NoMemory);
            },
        };
        let unaligned_p_pos: usize = self.p_pos.saturating_sub(requested);
        let rem: usize = unaligned_p_pos % align_pow2;
        proof {
            lemma_align_down_properties(unaligned_p_pos as int, align_pow2 as int);
            if SIZE >= 1 && num_pages > old(self)@.available_pages(SIZE as int) {
                let s = SIZE as int;
                let avail = old(self)@.available_bytes();
                lemma_fundamental_div_mod(avail, s);
                lemma_mod_division_less_than_divisor(avail, s);
                lemma_mul_inequality(avail / s + 1, num_pages as int, s);
                assert((avail / s + 1) * s == s * (avail / s) + s) by (nonlinear_arith);
            }
        }
        let aligned_new_p_pos: usize = unaligned_p_pos - rem;
        if aligned_new_p_pos < self.b_pos {
            return Err(AllocError::NoMemory);
        }
        self.p_pos = aligned_new_p_pos;
        Ok(aligned_new_p_pos)
    }

    /// Pages are never returned to the pool: once allocated they stay marked
    /// used for the allocator's whole life, so this call changes nothing.
    #[allow(unused_variables)]
    pub fn dealloc_pages(&mut self, pos: usize, num_pages: usize)
        ensures
            final(self)@ == old(self)@,
            final(self)@.wf(),
    {
        proof {
            use_type_invariant(&*self);
        }
    }

    /// Whole pages the region could ever hold.
    pub fn total_pages(&self) -> (r: usize)
        requires
            SIZE >= 1,
        ensures
            r == self@.total_pages(SIZE as int),
            self@.wf(),
    {
        proof {
            use_type_invariant(&*self);
        }
        self.total_bytes() / SIZE
    }

    /// Whole pages consumed by the page zone.
    pub fn used_pages(&self) -> (r: usize)
        requires
            SIZE >= 1,
        ensures
            r == self@.used_pages(SIZE as int),
            self@.wf(),
    {
        proof {
            use_type_invariant(&*self);
        }
        self.end.saturating_sub(self.p_pos) / SIZE
    }

    /// Whole pages that still fit in the gap between the two zones.
    pub fn available_pages(&self) -> (r: usize)
        requires
            SIZE >= 1,
        ensures
            r == self@.available_pages(SIZE as int),
            self@.wf(),
    {
        proof {
            use_type_invariant(&*self);
        }
        self.available_bytes() / SIZE
    }
}

/// In every well-formed state, the bytes already used and the bytes still
/// available together account exactly for the whole region.
pub proof fn lemma_bytes_partition_region(s: AllocState)
    requires
        s.wf(),
    ensures
        s.used_bytes() + s.available_bytes() == s.total_bytes(),
{
}

/// Any address a byte allocation of at least one byte can return is a
/// multiple of the alignment and lies inside the half-open managed region.
pub proof fn lemma_byte_allocation_in_region(s: AllocState, size: int, align: int)
    requires
        s.wf(),
        is_power_of_two(align),
        size >= 1,
        spec_align_up(s.b_pos, align) + size <= s.p_pos,
    ensures
        spec_align_up(s.b_pos, align) % align == 0,
        s.start <= spec_align_up(s.b_pos, align) < s.end,
{
    lemma_power_of_two_positive(align);
    lemma_align_up_properties(s.b_pos, align);
}

/// When the requested alignment is a whole number of pages, the address a
/// page allocation can return is also a multiple of the page size.
pub proof fn lemma_page_allocation_page_aligned(
    s: AllocState,
    num_pages: int,
    align: int,
    page_size: int,
)
    requires
        s.wf(),
        is_power_of_two(align),
        page_size >= 1,
        align % page_size == 0,
    ensures
        ({
            let requested = num_pages * page_size;
            let unaligned = if requested <= s.p_pos {
                s.p_pos - requested
            } else {
                0
            };
            spec_align_down(unaligned, align) % page_size == 0
        }),
{
    lemma_power_of_two_positive(align);
    let requested = num_pages * page_size;
    let unaligned = if requested <= s.p_pos {
        s.p_pos - requested
    } else {
        0
    };
    lemma_align_down_properties(unaligned, align);
    lemma_aligned_to_coarser_alignment(spec_align_down(unaligned, align), align, page_size);
}

} // verus!
