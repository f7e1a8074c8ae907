//! Board-specific memory management: page descriptors of the kernel image
//! regions, the translation-table singleton, and the one-shot mapper that
//! installs the kernel binary's identity mapping.

use vstd::prelude::*;
use vstd::arithmetic::div_mod::lemma_fundamental_div_mod;
use crate::attributes::{AccessPermissions, AttributeFields, MemAttributes};
use crate::common::{align_down, spec_align_down};
use crate::descriptor::{PageSliceDescriptor, Physical, Virtual};
use crate::layout::KernelLayout;
use crate::params::{
    granule_aligned, lemma_granule_shift_is_division, valid_region_size, KERNEL_ADDR_SPACE_SIZE,
    KERNEL_GRANULE_SHIFT, KERNEL_GRANULE_SIZE,
};
use crate::sync::InitStateLock;
use crate::translation_table::{KernelTranslationTable, MapError, MappingRecord};

verus! {

/// Dividing a valid region size by the granule is exact, and yields at
/// least one page.
pub proof fn lemma_pages_times_granule_is_size(size: u64)
    requires
        valid_region_size(size),
    ensures
        (size / KERNEL_GRANULE_SIZE) * KERNEL_GRANULE_SIZE == size,
        size / KERNEL_GRANULE_SIZE >= 1,
{
    let s = size as int;
    let g = KERNEL_GRANULE_SIZE as int;
    let q = s / g;
    lemma_fundamental_div_mod(s, g);
    assert(q * g == g * q) by (nonlinear_arith);
    assert(q * g == s);
    assert(q >= 1) by (nonlinear_arith)
        requires
            q * g == s,
            s >= 1,
            g >= 1,
    ;
}

/// Page count spanned by a byte size, rounded by exact division.
pub open spec fn spec_size_to_num_pages(size: u64) -> u64 {
    size / KERNEL_GRANULE_SIZE
}

/// Number of pages the given byte size spans: exact, no rounding.
///
/// A size of zero or one that is not a granule multiple is a build- or
/// boot-time programming error, excluded by precondition: boot code must
/// validate the reported layout (the alignment check) before deriving
/// descriptors from it.
pub fn size_to_num_pages(size: u64) -> (r: u64)
    requires
        valid_region_size(size),
    ensures
        r == spec_size_to_num_pages(size),
        r * KERNEL_GRANULE_SIZE == size,
        r >= 1,
{
    proof {
        lemma_granule_shift_is_division(size);
        lemma_pages_times_granule_is_size(size);
    }
    size >> KERNEL_GRANULE_SHIFT
}

/// The virtual page slice of the boot core's stack.
pub open spec fn spec_virt_stack_page_desc(layout: KernelLayout) -> PageSliceDescriptor<Virtual> {
    PageSliceDescriptor {
        start: layout.virt_boot_core_stack_start,
        num_pages: spec_size_to_num_pages(layout.boot_core_stack_size),
        kind: Virtual,
    }
}

/// The virtual page slice of the read-only code/data segment.
pub open spec fn spec_virt_ro_page_desc(layout: KernelLayout) -> PageSliceDescriptor<Virtual> {
    PageSliceDescriptor {
        start: layout.virt_ro_start,
        num_pages: spec_size_to_num_pages(layout.ro_size),
        kind: Virtual,
    }
}

/// The virtual page slice of the data/bss segment.
pub open spec fn spec_virt_data_page_desc(layout: KernelLayout) -> PageSliceDescriptor<Virtual> {
    PageSliceDescriptor {
        start: layout.virt_data_start,
        num_pages: spec_size_to_num_pages(layout.data_size),
        kind: Virtual,
    }
}

/// The boot core's stack.
pub fn virt_stack_page_desc(layout: &KernelLayout) -> (r: PageSliceDescriptor<Virtual>)
    requires
        layout.wf(),
    ensures
        r == spec_virt_stack_page_desc(*layout),
        r.wf(),
        r.spec_end_addr() == layout.virt_boot_core_stack_start + layout.boot_core_stack_size,
{
    let num_pages = size_to_num_pages(layout.boot_core_stack_size);
    PageSliceDescriptor::from_addr(layout.virt_boot_core_stack_start, num_pages, Virtual)
}

/// The read-only pages of the kernel binary.
pub fn virt_ro_page_desc(layout: &KernelLayout) -> (r: PageSliceDescriptor<Virtual>)
    requires
        layout.wf(),
    ensures
        r == spec_virt_ro_page_desc(*layout),
        r.wf(),
        r.spec_end_addr() == layout.virt_ro_start + layout.ro_size,
{
    let num_pages = size_to_num_pages(layout.ro_size);
    PageSliceDescriptor::from_addr(layout.virt_ro_start, num_pages, Virtual)
}

/// The data pages of the kernel binary.
pub fn virt_data_page_desc(layout: &KernelLayout) -> (r: PageSliceDescriptor<Virtual>)
    requires
        layout.wf(),
    ensures
        r == spec_virt_data_page_desc(*layout),
        r.wf(),
        r.spec_end_addr() == layout.virt_data_start + layout.data_size,
{
    let num_pages = size_to_num_pages(layout.data_size);
    PageSliceDescriptor::from_addr(layout.virt_data_start, num_pages, Virtual)
}

/// The physical page slice of the boot core's stack (identity-mapped).
pub open spec fn spec_phys_stack_page_desc(layout: KernelLayout) -> PageSliceDescriptor<Physical> {
    PageSliceDescriptor {
        start: layout.virt_boot_core_stack_start,
        num_pages: spec_size_to_num_pages(layout.boot_core_stack_size),
        kind: Physical,
    }
}

/// The physical page slice of the read-only segment (identity-mapped).
pub open spec fn spec_phys_ro_page_desc(layout: KernelLayout) -> PageSliceDescriptor<Physical> {
    PageSliceDescriptor {
        start: layout.virt_ro_start,
        num_pages: spec_size_to_num_pages(layout.ro_size),
        kind: Physical,
    }
}

/// The physical page slice of the data/bss segment (identity-mapped).
pub open spec fn spec_phys_data_page_desc(layout: KernelLayout) -> PageSliceDescriptor<Physical> {
    PageSliceDescriptor {
        start: layout.virt_data_start,
        num_pages: spec_size_to_num_pages(layout.data_size),
        kind: Physical,
    }
}

// The kernel binary is still identity mapped when these run, so the
// physical slices are plain reinterpretations of the virtual ones.

/// The boot core's stack.
pub fn phys_stack_page_desc(layout: &KernelLayout) -> (r: PageSliceDescriptor<Physical>)
    requires
        layout.wf(),
    ensures
        r == spec_phys_stack_page_desc(*layout),
        r.wf(),
{
    virt_stack_page_desc(layout).into_physical()
}

/// The read-only pages of the kernel binary.
pub fn phys_ro_page_desc(layout: &KernelLayout) -> (r: PageSliceDescriptor<Physical>)
    requires
        layout.wf(),
    ensures
        r == spec_phys_ro_page_desc(*layout),
        r.wf(),
{
    virt_ro_page_desc(layout).into_physical()
}

/// The data pages of the kernel binary.
pub fn phys_data_page_desc(layout: &KernelLayout) -> (r: PageSliceDescriptor<Physical>)
    requires
        layout.wf(),
    ensures
        r == spec_phys_data_page_desc(*layout),
        r.wf(),
{
    virt_data_page_desc(layout).into_physical()
}

/// The board's translation-table singleton storage: the one mutable entity
/// of this layer, guarded by its initialization-state lock. Boot code
/// creates exactly one value of this type, as process-wide zeroed storage.
pub struct KernelMmu {
    tables: InitStateLock<KernelTranslationTable>,
}

impl KernelMmu {
    /// The guarded translation-table storage.
    pub closed spec fn tables_spec(&self) -> InitStateLock<KernelTranslationTable> {
        self.tables
    }

    /// Whether the singleton has taken its one-way transition to the
    /// populated, read-only state.
    pub open spec fn is_initialized(&self) -> bool {
        self.tables_spec().is_initialized()
    }

    /// The mappings installed so far, in installation order.
    pub open spec fn entries(&self) -> Seq<MappingRecord> {
        self.tables_spec().data_spec()@
    }

    /// All installed mappings are well-formed and inside the address space.
    pub open spec fn table_wf(&self) -> bool {
        self.tables_spec().data_spec().wf()
    }

    /// Fresh, uninitialized singleton storage with no mappings installed.
    pub fn new() -> (s: Self)
        ensures
            !s.is_initialized(),
            s.entries() == Seq::<MappingRecord>::empty(),
            s.table_wf(),
    {
        KernelMmu { tables: InitStateLock::new(KernelTranslationTable::new()) }
    }
}

/// Return a reference to the kernel's translation tables.
pub fn kernel_translation_tables(mmu: &KernelMmu) -> (r: &InitStateLock<KernelTranslationTable>)
    ensures
        *r == mmu.tables_spec(),
{
    &mmu.tables
}

/// Generic mapping-engine entry: bind `virt` to `phys` under `attr` in the
/// singleton, through the guard's exclusive write access. `name` labels
/// the request in diagnostics; a failure reports it back.
pub fn kernel_map_pages_at(
    mmu: &mut KernelMmu,
    name: &'static str,
    virt: &PageSliceDescriptor<Virtual>,
    phys: &PageSliceDescriptor<Physical>,
    attr: &AttributeFields,
) -> (r: Result<(), MapError>)
    requires
        !old(mmu).is_initialized(),
        old(mmu).table_wf(),
        virt.wf(),
        phys.wf(),
        virt.num_pages == phys.num_pages,
    ensures
        !final(mmu).is_initialized(),
        final(mmu).table_wf(),
        r is Ok <==> virt.spec_end_addr() <= KERNEL_ADDR_SPACE_SIZE,
        r is Ok ==> final(mmu).entries() == old(mmu).entries().push(
            (MappingRecord { virt: *virt, phys: *phys, attributes: *attr }),
        ),
        r is Err ==> final(mmu).entries() == old(mmu).entries(),
        r matches Err(e) ==> e.region@ == name@,
{
    let mut tables = mmu.tables.replace(KernelTranslationTable::new());
    let r = tables.map_pages_at(name, virt, phys, attr);
    let _ = mmu.tables.replace(tables);
    r
}

/// The stack region fits inside the kernel's virtual address space.
pub open spec fn spec_stack_fits(layout: KernelLayout) -> bool {
    spec_virt_stack_page_desc(layout).spec_end_addr() <= KERNEL_ADDR_SPACE_SIZE
}

/// The read-only region fits inside the kernel's virtual address space.
pub open spec fn spec_ro_fits(layout: KernelLayout) -> bool {
    spec_virt_ro_page_desc(layout).spec_end_addr() <= KERNEL_ADDR_SPACE_SIZE
}

/// The data/bss region fits inside the kernel's virtual address space.
pub open spec fn spec_data_fits(layout: KernelLayout) -> bool {
    spec_virt_data_page_desc(layout).spec_end_addr() <= KERNEL_ADDR_SPACE_SIZE
}

/// Attributes of the boot-core stack: cacheable, read-write, never execute.
pub open spec fn spec_stack_attributes() -> AttributeFields {
    AttributeFields {
        mem_attributes: MemAttributes::CacheableDRAM,
        acc_perms: AccessPermissions::ReadWrite,
        execute_never: true,
    }
}

/// Attributes of code and read-only data: cacheable, read-only, executable.
pub open spec fn spec_ro_attributes() -> AttributeFields {
    AttributeFields {
        mem_attributes: MemAttributes::CacheableDRAM,
        acc_perms: AccessPermissions::ReadOnly,
        execute_never: false,
    }
}

/// Attributes of data and bss: cacheable, read-write, never execute.
pub open spec fn spec_data_attributes() -> AttributeFields {
    AttributeFields {
        mem_attributes: MemAttributes::CacheableDRAM,
        acc_perms: AccessPermissions::ReadWrite,
        execute_never: true,
    }
}

/// The mapping record the binary mapper installs for the stack region.
pub open spec fn spec_stack_mapping(layout: KernelLayout) -> MappingRecord {
    MappingRecord {
        virt: spec_virt_stack_page_desc(layout),
        phys: spec_phys_stack_page_desc(layout),
        attributes: spec_stack_attributes(),
    }
}

/// The mapping record the binary mapper installs for the read-only region.
pub open spec fn spec_ro_mapping(layout: KernelLayout) -> MappingRecord {
    MappingRecord {
        virt: spec_virt_ro_page_desc(layout),
        phys: spec_phys_ro_page_desc(layout),
        attributes: spec_ro_attributes(),
    }
}

/// The mapping record the binary mapper installs for the data/bss region.
pub open spec fn spec_data_mapping(layout: KernelLayout) -> MappingRecord {
    MappingRecord {
        virt: spec_virt_data_page_desc(layout),
        phys: spec_phys_data_page_desc(layout),
        attributes: spec_data_attributes(),
    }
}

/// Map the kernel binary: install the boot-core stack, the code/read-only
/// data and the data/bss regions, in that order, into the singleton, then
/// take the guard's one-way transition to the populated state.
///
/// Defined for a single invocation only: the precondition demands the
/// still-uninitialized singleton, so a second call is out of contract. It
/// must run before the MMU is switched on, while the kernel binary is
/// still identity-mapped. On failure the regions already installed stay in
/// place (no rollback): the caller's only valid response is to halt boot.
pub fn kernel_map_binary(mmu: &mut KernelMmu, layout: &KernelLayout) -> (r: Result<(), MapError>)
    requires
        !old(mmu).is_initialized(),
        old(mmu).table_wf(),
        layout.wf(),
    ensures
        final(mmu).table_wf(),
        r is Ok <==> spec_stack_fits(*layout) && spec_ro_fits(*layout) && spec_data_fits(*layout),
        r is Ok <==> final(mmu).is_initialized(),
        r is Ok ==> final(mmu).entries() == old(mmu).entries().push(spec_stack_mapping(*layout))
            .push(spec_ro_mapping(*layout)).push(spec_data_mapping(*layout)),
        !spec_stack_fits(*layout) ==> final(mmu).entries() == old(mmu).entries(),
        spec_stack_fits(*layout) && !spec_ro_fits(*layout)
            ==> final(mmu).entries() == old(mmu).entries().push(spec_stack_mapping(*layout)),
        spec_stack_fits(*layout) && spec_ro_fits(*layout) && !spec_data_fits(*layout)
            ==> final(mmu).entries() == old(mmu).entries().push(spec_stack_mapping(*layout)).push(
            spec_ro_mapping(*layout),
        ),
        !spec_stack_fits(*layout) ==> (r matches Err(e) && e.region@ == "Kernel boot-core stack"@),
        spec_stack_fits(*layout) && !spec_ro_fits(*layout) ==> (r matches Err(e) && e.region@
            == "Kernel code and RO data"@),
        spec_stack_fits(*layout) && spec_ro_fits(*layout) && !spec_data_fits(*layout) ==> (
        r matches Err(e) && e.region@ == "Kernel data and bss"@),
{
    let virt_stack = virt_stack_page_desc(layout);
    let phys_stack = phys_stack_page_desc(layout);
    let stack_attr = AttributeFields {
        mem_attributes: MemAttributes::CacheableDRAM,
        acc_perms: AccessPermissions::ReadWrite,
        execute_never: true,
    };
    match kernel_map_pages_at(mmu, "Kernel boot-core stack", &virt_stack, &phys_stack, &stack_attr)
    {
        Ok(_) => {},
        Err(e) => {
            return Err(e);
        },
    }
    let virt_ro = virt_ro_page_desc(layout);
    let phys_ro = phys_ro_page_desc(layout);
    let ro_attr = AttributeFields {
        mem_attributes: MemAttributes::CacheableDRAM,
        acc_perms: AccessPermissions::ReadOnly,
        execute_never: false,
    };
    match kernel_map_pages_at(mmu, "Kernel code and RO data", &virt_ro, &phys_ro, &ro_attr) {
        Ok(_) => {},
        Err(e) => {
            return Err(e);
        },
    }
    let virt_data = virt_data_page_desc(layout);
    let phys_data = phys_data_page_desc(layout);
    let data_attr = AttributeFields {
        mem_attributes: MemAttributes::CacheableDRAM,
        acc_perms: AccessPermissions::ReadWrite,
        execute_never: true,
    };
    match kernel_map_pages_at(mmu, "Kernel data and bss", &virt_data, &phys_data, &data_attr) {
        Ok(_) => {},
        Err(e) => {
            return Err(e);
        },
    }
    mmu.tables.mark_initialized();
    Ok(())
}

/// Address of the last page of the physical address space: the end of
/// usable physical memory, aligned down to the granule.
pub fn phys_addr_space_end_page(layout: &KernelLayout) -> (r: u64)
    ensures
        r == spec_align_down(layout.phys_addr_space_end as int, KERNEL_GRANULE_SIZE as int),
        granule_aligned(r),
        r <= layout.phys_addr_space_end,
        layout.phys_addr_space_end - r < KERNEL_GRANULE_SIZE,
{
    align_down(layout.phys_addr_space_end, KERNEL_GRANULE_SIZE)
}

} // verus!
