//! The kernel image layout as reported by the boot/linker collaborator.

use vstd::prelude::*;
use crate::params::{granule_aligned, valid_region_size};

verus! {

/// Start addresses and byte sizes of the three kernel image regions, the
/// zero-initialized-data address range, and the end of usable physical
/// memory. The boot code fills this in from the linker-derived symbols;
/// this library only consumes the plain values.
#[derive(Clone, Copy, Debug, PartialEq, Eq, Structural)]
pub struct KernelLayout {
    /// Virtual start address of the boot core's stack.
    pub virt_boot_core_stack_start: u64,
    /// Byte size of the boot core's stack.
    pub boot_core_stack_size: u64,
    /// Virtual start address of the read-only code/data segment.
    pub virt_ro_start: u64,
    /// Byte size of the read-only code/data segment.
    pub ro_size: u64,
    /// Virtual start address of the data/bss segment.
    pub virt_data_start: u64,
    /// Byte size of the data/bss segment.
    pub data_size: u64,
    /// First address of the zero-initialized data range.
    pub bss_start: u64,
    /// Last address (inclusive) of the zero-initialized data range.
    pub bss_end_inclusive: u64,
    /// End address of the usable physical address space.
    pub phys_addr_space_end: u64,
}

impl KernelLayout {
    /// A reported region is well-formed when its start address is
    /// granule-aligned, its size is a positive granule multiple, and its
    /// end address fits in a machine word.
    pub open spec fn region_wf(start: u64, size: u64) -> bool {
        &&& granule_aligned(start)
        &&& valid_region_size(size)
        &&& start + size <= u64::MAX
    }

    /// All three kernel image regions are well-formed. A layout that fails
    /// this is a build- or linker-script misconfiguration.
    pub open spec fn wf(self) -> bool {
        &&& Self::region_wf(self.virt_boot_core_stack_start, self.boot_core_stack_size)
        &&& Self::region_wf(self.virt_ro_start, self.ro_size)
        &&& Self::region_wf(self.virt_data_start, self.data_size)
    }
}

} // verus!
