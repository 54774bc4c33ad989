//! A verified dual-zone bump allocator for early boot: byte allocations grow
//! upward from the start of one fixed region while page allocations grow
//! downward from its end, and the two zones may never collide.

mod align;
mod early;

pub use align::{
    is_power_of_two, lemma_align_down_properties, lemma_align_up_properties,
    lemma_aligned_to_coarser_alignment, lemma_power_of_two_positive, spec_align_down,
    spec_align_up,
};
pub use early::{AllocError, AllocState, EarlyAllocator};
