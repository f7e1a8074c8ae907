use kernel_mmu::attributes::{AccessPermissions, AttributeFields, MemAttributes};
use kernel_mmu::checks::{
    kernel_tables_in_bss, virt_mem_layout_has_no_overlaps, virt_mem_layout_sections_are_aligned,
};
use kernel_mmu::layout::KernelLayout;
use kernel_mmu::mmu::{
    kernel_map_binary, kernel_translation_tables, size_to_num_pages, virt_data_page_desc,
    virt_ro_page_desc, virt_stack_page_desc, KernelMmu,
};
use kernel_mmu::params::KERNEL_GRANULE_SIZE;

fn sample_layout() -> KernelLayout {
    KernelLayout {
        virt_boot_core_stack_start: 0x10000,
        boot_core_stack_size: 65536,
        virt_ro_start: 0x20000,
        ro_size: 131072,
        virt_data_start: 0x40000,
        data_size: 65536,
        bss_start: 0x40000,
        bss_end_inclusive: 0x4ffff,
        phys_addr_space_end: 0x4000_0000,
    }
}

#[test]
fn virt_mem_layout_sections_are_64_kib_aligned() {
    let layout = sample_layout();
    assert!(virt_mem_layout_sections_are_aligned(&layout));

    let descs = [
        virt_stack_page_desc(&layout),
        virt_ro_page_desc(&layout),
        virt_data_page_desc(&layout),
    ];
    for d in descs.iter() {
        let start = d.start_addr();
        let end = d.end_addr();
        assert_eq!(start % KERNEL_GRANULE_SIZE, 0);
        assert_eq!(end % KERNEL_GRANULE_SIZE, 0);
        assert!(end >= start);
    }
}

#[test]
fn virt_mem_layout_has_no_overlaps_in_sample() {
    let layout = sample_layout();
    assert!(virt_mem_layout_sections_are_aligned(&layout));
    assert!(virt_mem_layout_has_no_overlaps(&layout));
}

#[test]
fn overlap_check_rejects_overlapping_ro_and_data() {
    // Read-only region [0x20000, 0x40000) overlaps data region
    // [0x30000, 0x40000).
    let layout = KernelLayout {
        virt_data_start: 0x30000,
        ..sample_layout()
    };
    assert!(virt_mem_layout_sections_are_aligned(&layout));
    assert!(!virt_mem_layout_has_no_overlaps(&layout));
}

#[test]
fn alignment_check_rejects_non_granule_multiple_size() {
    // A 70000-byte stack is not a granule multiple and must be refused
    // rather than silently truncated to a page count.
    let layout = KernelLayout {
        boot_core_stack_size: 70000,
        ..sample_layout()
    };
    assert!(!virt_mem_layout_sections_are_aligned(&layout));
}

#[test]
fn alignment_check_rejects_zero_size_and_unaligned_start() {
    let zero = KernelLayout {
        ro_size: 0,
        ..sample_layout()
    };
    assert!(!virt_mem_layout_sections_are_aligned(&zero));

    let unaligned = KernelLayout {
        virt_data_start: 0x40100,
        ..sample_layout()
    };
    assert!(!virt_mem_layout_sections_are_aligned(&unaligned));
}

#[test]
fn size_to_num_pages_is_exact() {
    assert_eq!(size_to_num_pages(65536), 1);
    assert_eq!(size_to_num_pages(131072), 2);
    assert_eq!(size_to_num_pages(16 * 65536), 16);
    for size in [65536u64, 131072, 1048576] {
        let pages = size_to_num_pages(size);
        assert_eq!(pages * KERNEL_GRANULE_SIZE, size);
    }
}

#[test]
fn kernel_map_binary_maps_three_regions() {
    let layout = sample_layout();
    let mut mmu = KernelMmu::new();

    assert!(virt_mem_layout_sections_are_aligned(&layout));
    assert!(virt_mem_layout_has_no_overlaps(&layout));
    let result = kernel_map_binary(&mut mmu, &layout);
    assert!(result.is_ok());

    let tables = kernel_translation_tables(&mmu).read();
    assert_eq!(tables.num_entries(), 3);

    let stack = tables.entry(0);
    assert_eq!(stack.virt.start, 0x10000);
    assert_eq!(stack.virt.num_pages, 1);
    assert_eq!(stack.phys.start, 0x10000);
    assert_eq!(
        stack.attributes,
        AttributeFields {
            mem_attributes: MemAttributes::CacheableDRAM,
            acc_perms: AccessPermissions::ReadWrite,
            execute_never: true,
        }
    );

    let ro = tables.entry(1);
    assert_eq!(ro.virt.start, 0x20000);
    assert_eq!(ro.virt.num_pages, 2);
    assert_eq!(ro.phys.start, 0x20000);
    assert_eq!(
        ro.attributes,
        AttributeFields {
            mem_attributes: MemAttributes::CacheableDRAM,
            acc_perms: AccessPermissions::ReadOnly,
            execute_never: false,
        }
    );

    let data = tables.entry(2);
    assert_eq!(data.virt.start, 0x40000);
    assert_eq!(data.virt.num_pages, 1);
    assert_eq!(data.phys.start, 0x40000);
    assert_eq!(
        data.attributes,
        AttributeFields {
            mem_attributes: MemAttributes::CacheableDRAM,
            acc_perms: AccessPermissions::ReadWrite,
            execute_never: true,
        }
    );

    // The three recorded entries are pairwise distinct.
    assert_ne!(stack.virt.start, ro.virt.start);
    assert_ne!(stack.virt.start, data.virt.start);
    assert_ne!(ro.virt.start, data.virt.start);
}

#[test]
fn kernel_map_binary_reports_region_outside_address_space() {
    // The data region starts at the 8 GiB boundary, one page past the end
    // of the kernel's virtual address space.
    let layout = KernelLayout {
        virt_data_start: 8 * 1024 * 1024 * 1024,
        ..sample_layout()
    };
    let mut mmu = KernelMmu::new();
    assert!(virt_mem_layout_sections_are_aligned(&layout));
    let result = kernel_map_binary(&mut mmu, &layout);
    let err = result.unwrap_err();
    assert_eq!(err.region, "Kernel data and bss");
}

#[test]
fn kernel_tables_placement_check() {
    let layout = sample_layout();
    // Simulated singleton storage addresses: one inside the reported
    // zero-initialized range, one below it, one above it.
    assert!(kernel_tables_in_bss(0x41000, &layout));
    assert!(kernel_tables_in_bss(0x40000, &layout));
    assert!(kernel_tables_in_bss(0x4ffff, &layout));
    assert!(!kernel_tables_in_bss(0x3ffff, &layout));
    assert!(!kernel_tables_in_bss(0x50000, &layout));
}
