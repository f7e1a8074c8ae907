//! Board-specific address-space and translation-granule parameters.

use vstd::prelude::*;

verus! {

/// The translation granule (page size, in bytes) chosen by this board
/// support package. Every other component derives its sizes from it.
pub const KERNEL_GRANULE_SIZE: u64 = 64 * 1024;

/// Base-two logarithm of the granule size: shifting a byte count right by
/// this amount divides it by the granule size.
pub const KERNEL_GRANULE_SHIFT: u64 = 16;

/// Total size, in bytes, of the kernel's virtual address space (8 GiB).
/// It sizes the translation-table singleton and bounds every mapping.
pub const KERNEL_ADDR_SPACE_SIZE: u64 = 8 * 1024 * 1024 * 1024;

/// An address is granule-aligned when it is an exact multiple of the
/// granule size.
pub open spec fn granule_aligned(addr: u64) -> bool {
    addr % KERNEL_GRANULE_SIZE == 0
}

/// A region byte size is valid when it is positive and an exact multiple
/// of the granule size. Any other size is a build-time configuration error.
pub open spec fn valid_region_size(size: u64) -> bool {
    size > 0 && size % KERNEL_GRANULE_SIZE == 0
}

/// The granule is a power of two, so shifting right by the granule shift
/// is exact division by the granule size.
pub proof fn lemma_granule_shift_is_division(x: u64)
    ensures
        x >> KERNEL_GRANULE_SHIFT == x / KERNEL_GRANULE_SIZE,
{
    assert(x >> 16u64 == x / 65536u64) by (bit_vector);
}

} // verus!
