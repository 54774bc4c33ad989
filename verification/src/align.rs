//! Alignment arithmetic: rounding addresses up or down to a multiple of an
//! alignment, and the facts about those roundings that the allocator's
//! contracts rely on.

use vstd::arithmetic::div_mod::{
    lemma_div_pos_is_pos, lemma_fundamental_div_mod, lemma_mod_division_less_than_divisor,
    lemma_mod_multiples_basic,
};
use vstd::prelude::*;

verus! {

/// A valid alignment is a power of two: 1, 2, 4, 8, ...
pub open spec fn is_power_of_two(n: int) -> bool
    decreases n,
{
    if n <= 0 {
        false
    } else if n == 1 {
        true
    } else {
        n % 2 == 0 && is_power_of_two(n / 2)
    }
}

/// The smallest multiple of `align` that is at least `pos`.
pub open spec fn spec_align_up(pos: int, align: int) -> int {
    if pos % align == 0 {
        pos
    } else {
        pos + (align - pos % align)
    }
}

/// The largest multiple of `align` that is at most `pos`.
pub open spec fn spec_align_down(pos: int, align: int) -> int {
    pos - pos % align
}

/// Every power of two is positive.
pub proof fn lemma_power_of_two_positive(n: int)
    requires
        is_power_of_two(n),
    ensures
        n >= 1,
{
}

/// Rounding up yields a multiple of the alignment, never moves the position
/// down, and moves it up by less than one whole alignment.
pub proof fn lemma_align_up_properties(pos: int, align: int)
    requires
        pos >= 0,
        align >= 1,
    ensures
        spec_align_up(pos, align) % align == 0,
        pos <= spec_align_up(pos, align) < pos + align,
{
    lemma_mod_division_less_than_divisor(pos, align);
    lemma_fundamental_div_mod(pos, align);
    let q = pos / align;
    if pos % align == 0 {
    } else {
        assert(align * q + align == align * (q + 1)) by (nonlinear_arith);
        assert(spec_align_up(pos, align) == align * (q + 1));
        assert(align * (q + 1) == (q + 1) * align) by (nonlinear_arith);
        lemma_mod_multiples_basic(q + 1, align);
    }
}

/// Rounding down yields a multiple of the alignment, never moves the position
/// up, and moves it down by less than one whole alignment.
pub proof fn lemma_align_down_properties(pos: int, align: int)
    requires
        pos >= 0,
        align >= 1,
    ensures
        spec_align_down(pos, align) % align == 0,
        pos - align < spec_align_down(pos, align) <= pos,
        spec_align_down(pos, align) >= 0,
{
    lemma_mod_division_less_than_divisor(pos, align);
    lemma_fundamental_div_mod(pos, align);
    lemma_div_pos_is_pos(pos, align);
    let q = pos / align;
    assert(spec_align_down(pos, align) == align * q);
    assert(align * q == q * align) by (nonlinear_arith);
    assert(align * q >= 0) by (nonlinear_arith)
        requires
            align >= 1,
            q >= 0,
    ;
    lemma_mod_multiples_basic(q, align);
}

/// An address aligned to a multiple of a unit is also aligned to the unit
/// itself: page allocations aligned to a whole number of pages stay
/// page-aligned.
pub proof fn lemma_aligned_to_coarser_alignment(addr: int, align: int, unit: int)
    requires
        addr >= 0,
        align >= 1,
        unit >= 1,
        align % unit == 0,
        addr % align == 0,
    ensures
        addr % unit == 0,
{
    lemma_fundamental_div_mod(addr, align);
    lemma_fundamental_div_mod(align, unit);
    let qa = addr / align;
    let qu = align / unit;
    assert(addr == (qu * qa) * unit) by (nonlinear_arith)
        requires
            addr == align * qa,
            align == unit * qu,
    ;
    lemma_mod_multiples_basic(qu * qa, unit);
}

} // verus!
