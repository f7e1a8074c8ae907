use kernel_mmu::common::align_down;
use kernel_mmu::descriptor::{PageSliceDescriptor, Virtual};
use kernel_mmu::layout::KernelLayout;
use kernel_mmu::mmu::{phys_addr_space_end_page, phys_ro_page_desc, virt_ro_page_desc, KernelMmu};
use kernel_mmu::sync::InitStateLock;
use kernel_mmu::translation_table::KernelTranslationTable;

fn sample_layout() -> KernelLayout {
    KernelLayout {
        virt_boot_core_stack_start: 0x10000,
        boot_core_stack_size: 65536,
        virt_ro_start: 0x20000,
        ro_size: 131072,
        virt_data_start: 0x40000,
        data_size: 65536,
        bss_start: 0x40000,
        bss_end_inclusive: 0x4ffff,
        phys_addr_space_end: 0x4000_0000,
    }
}

#[test]
fn init_state_guard_is_transparent() {
    // The guard must add no storage overhead over the guarded table, so
    // that address-space budgeting stays correct.
    assert_eq!(
        std::mem::size_of::<InitStateLock<KernelTranslationTable>>(),
        std::mem::size_of::<KernelTranslationTable>()
    );
    assert_eq!(
        std::mem::size_of::<InitStateLock<u64>>(),
        std::mem::size_of::<u64>()
    );
}

#[test]
fn kernel_mmu_footprint_equals_table_footprint() {
    assert_eq!(
        std::mem::size_of::<KernelMmu>(),
        std::mem::size_of::<KernelTranslationTable>()
    );
}

#[test]
fn descriptor_queries() {
    let d = PageSliceDescriptor::from_addr(0x20000, 2, Virtual);
    assert_eq!(d.start_addr(), 0x20000);
    assert_eq!(d.end_addr(), 0x40000);
    assert_eq!(d.end_addr_inclusive(), 0x3ffff);
    assert!(d.contains(0x20000));
    assert!(d.contains(0x3ffff));
    assert!(!d.contains(0x1ffff));
    assert!(!d.contains(0x40000));
}

#[test]
fn physical_view_is_lossless_reinterpretation() {
    let layout = sample_layout();
    let virt = virt_ro_page_desc(&layout);
    let phys = phys_ro_page_desc(&layout);
    assert_eq!(virt.start_addr(), phys.start_addr());
    assert_eq!(virt.num_pages, phys.num_pages);
    let converted = virt.into_physical();
    assert_eq!(converted.start_addr(), phys.start_addr());
    assert_eq!(converted.num_pages, phys.num_pages);
}

#[test]
fn align_down_is_exact() {
    assert_eq!(align_down(70000, 65536), 65536);
    assert_eq!(align_down(65535, 65536), 0);
    assert_eq!(align_down(65536, 65536), 65536);
    assert_eq!(align_down(0x3b3f_ffff, 65536), 0x3b3f_0000);
}

#[test]
fn phys_addr_space_end_page_is_granule_aligned() {
    let exact = sample_layout();
    assert_eq!(phys_addr_space_end_page(&exact), 0x4000_0000);

    let ragged = KernelLayout {
        phys_addr_space_end: 0x3b3f_ffff,
        ..sample_layout()
    };
    assert_eq!(phys_addr_space_end_page(&ragged), 0x3b3f_0000);
}

#[test]
fn init_state_guard_write_then_freeze() {
    let mut guard: InitStateLock<u64> = InitStateLock::new(0);
    let prev = guard.replace(7);
    assert_eq!(prev, 0);
    let prev = guard.replace(42);
    assert_eq!(prev, 7);
    guard.mark_initialized();
    assert_eq!(*guard.read(), 42);
}
