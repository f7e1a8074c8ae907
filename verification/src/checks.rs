//! Alignment, non-overlap and placement checks over the kernel's virtual
//! memory layout. Any failure here is a build- or linker-script
//! misconfiguration that must halt boot before the MMU is enabled.

use vstd::prelude::*;
use vstd::arithmetic::div_mod::lemma_add_mod_noop;
use crate::descriptor::{
    lemma_boundary_check_is_disjointness, ranges_disjoint, PageSliceDescriptor, Virtual,
};
use crate::layout::KernelLayout;
use crate::mmu::{
    lemma_pages_times_granule_is_size, spec_virt_data_page_desc, spec_virt_ro_page_desc,
    spec_virt_stack_page_desc, virt_data_page_desc, virt_ro_page_desc, virt_stack_page_desc,
};
use crate::params::{granule_aligned, KERNEL_GRANULE_SIZE};

verus! {

/// Runtime mirror of one region's well-formedness: granule-aligned start,
/// positive granule-multiple size, end address within a machine word.
fn region_is_wf(start: u64, size: u64) -> (r: bool)
    ensures
        r == KernelLayout::region_wf(start, size),
{
    start % KERNEL_GRANULE_SIZE == 0 && size > 0 && size % KERNEL_GRANULE_SIZE == 0 && start
        <= u64::MAX - size
}

/// Alignment check: true exactly when every kernel image section has a
/// granule-aligned start address and a positive, granule-multiple size
/// whose end address fits in a machine word — that is, exactly when the
/// reported layout is well-formed.
pub fn virt_mem_layout_sections_are_aligned(layout: &KernelLayout) -> (r: bool)
    ensures
        r == layout.wf(),
{
    region_is_wf(layout.virt_boot_core_stack_start, layout.boot_core_stack_size) && region_is_wf(
        layout.virt_ro_start,
        layout.ro_size,
    ) && region_is_wf(layout.virt_data_start, layout.data_size)
}

/// A well-formed region's descriptor ends on a granule boundary, at or
/// after its start address.
proof fn lemma_region_desc_aligned(start: u64, size: u64)
    requires
        KernelLayout::region_wf(start, size),
    ensures
        (start + (size / KERNEL_GRANULE_SIZE) * KERNEL_GRANULE_SIZE) % (
        KERNEL_GRANULE_SIZE as int) == 0,
        start + (size / KERNEL_GRANULE_SIZE) * KERNEL_GRANULE_SIZE >= start,
{
    lemma_pages_times_granule_is_size(size);
    lemma_add_mod_noop(start as int, size as int, KERNEL_GRANULE_SIZE as int);
}

/// Every kernel image section of a well-formed layout is granule-aligned
/// at both ends, and its end address is no less than its start address.
pub proof fn lemma_sections_aligned(layout: KernelLayout)
    requires
        layout.wf(),
    ensures
        granule_aligned(spec_virt_stack_page_desc(layout).start),
        granule_aligned(spec_virt_ro_page_desc(layout).start),
        granule_aligned(spec_virt_data_page_desc(layout).start),
        spec_virt_stack_page_desc(layout).spec_end_addr() % (KERNEL_GRANULE_SIZE as int) == 0,
        spec_virt_ro_page_desc(layout).spec_end_addr() % (KERNEL_GRANULE_SIZE as int) == 0,
        spec_virt_data_page_desc(layout).spec_end_addr() % (KERNEL_GRANULE_SIZE as int) == 0,
        spec_virt_stack_page_desc(layout).spec_end_addr() >= spec_virt_stack_page_desc(
            layout,
        ).start,
        spec_virt_ro_page_desc(layout).spec_end_addr() >= spec_virt_ro_page_desc(layout).start,
        spec_virt_data_page_desc(layout).spec_end_addr() >= spec_virt_data_page_desc(layout).start,
{
    lemma_region_desc_aligned(layout.virt_boot_core_stack_start, layout.boot_core_stack_size);
    lemma_region_desc_aligned(layout.virt_ro_start, layout.ro_size);
    lemma_region_desc_aligned(layout.virt_data_start, layout.data_size);
}

/// The three kernel sections' virtual address ranges are pairwise disjoint.
pub open spec fn spec_regions_disjoint(layout: KernelLayout) -> bool {
    &&& ranges_disjoint(spec_virt_stack_page_desc(layout), spec_virt_ro_page_desc(layout))
    &&& ranges_disjoint(spec_virt_stack_page_desc(layout), spec_virt_data_page_desc(layout))
    &&& ranges_disjoint(spec_virt_ro_page_desc(layout), spec_virt_data_page_desc(layout))
}

/// Symmetric boundary test of one unordered pair: no boundary address of
/// either slice falls within the other's range.
fn pair_is_disjoint(a: &PageSliceDescriptor<Virtual>, b: &PageSliceDescriptor<Virtual>) -> (r:
    bool)
    requires
        a.wf(),
        b.wf(),
    ensures
        r == ranges_disjoint(*a, *b),
{
    proof {
        lemma_boundary_check_is_disjointness(*a, *b);
    }
    !a.contains(b.start_addr()) && !a.contains(b.end_addr_inclusive()) && !b.contains(
        a.start_addr(),
    ) && !b.contains(a.end_addr_inclusive())
}

/// Non-overlap check: true exactly when the virtual address ranges of the
/// three kernel image sections are pairwise disjoint.
pub fn virt_mem_layout_has_no_overlaps(layout: &KernelLayout) -> (r: bool)
    requires
        layout.wf(),
    ensures
        r == spec_regions_disjoint(*layout),
{
    let stack = virt_stack_page_desc(layout);
    let ro = virt_ro_page_desc(layout);
    let data = virt_data_page_desc(layout);
    let stack_ro = pair_is_disjoint(&stack, &ro);
    let stack_data = pair_is_disjoint(&stack, &data);
    let ro_data = pair_is_disjoint(&ro, &data);
    stack_ro && stack_data && ro_data
}

/// Placement check: true exactly when the singleton's storage address lies
/// inside the reported zero-initialized-data address range, confirming the
/// tables were not accidentally placed in initialized data.
pub fn kernel_tables_in_bss(tables_addr: u64, layout: &KernelLayout) -> (r: bool)
    ensures
        r == (layout.bss_start <= tables_addr <= layout.bss_end_inclusive),
{
    layout.bss_start <= tables_addr && tables_addr <= layout.bss_end_inclusive
}

} // verus!
