//! General-purpose address arithmetic shared across the kernel.

use vstd::prelude::*;
use vstd::arithmetic::div_mod::{
    lemma_fundamental_div_mod, lemma_mod_division_less_than_divisor, lemma_mod_multiples_basic,
};

verus! {

/// The largest multiple of `alignment` that does not exceed `value`.
pub open spec fn spec_align_down(value: int, alignment: int) -> int {
    value - value % alignment
}

/// Align `value` down to the nearest multiple of `alignment`.
pub fn align_down(value: u64, alignment: u64) -> (r: u64)
    requires
        alignment > 0,
    ensures
        r == spec_align_down(value as int, alignment as int),
        r % alignment == 0,
        r <= value,
        value - r < alignment,
{
    proof {
        let v = value as int;
        let a = alignment as int;
        let q = v / a;
        lemma_fundamental_div_mod(v, a);
        lemma_mod_division_less_than_divisor(v, a);
        lemma_mod_multiples_basic(q, a);
        assert(q * a == a * q) by (nonlinear_arith);
        assert(q * a == v - v % a);
    }
    (value / alignment) * alignment
}

} // verus!
