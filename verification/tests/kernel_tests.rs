//! The kernel-level flow: mapping the binary, enabling the MMU, and
//! remapping MMIO windows under the lifecycle locks.

use rp4os::GRANULE_SIZE;
use rp4os::attributes::AccessPermissions;
use rp4os::attributes::AttributeFields;
use rp4os::attributes::MemAttributes;
use rp4os::kernel::KernelLayout;
use rp4os::kernel::KernelMemory;
use rp4os::kernel::kernel_add_mapping_record;
use rp4os::kernel::kernel_map_at;
use rp4os::kernel::kernel_map_binary;
use rp4os::kernel::kernel_map_mmio;
use rp4os::kernel::kernel_page_attributes;
use rp4os::kernel::kernel_print_mappings;
use rp4os::kernel::kernel_virt_to_phys_region;
use rp4os::kernel::post_enable_init;
use rp4os::kernel::size_to_num_pages;
use rp4os::kernel::virt_heap_region;
use rp4os::kernel::virt_mmio_remap_region;
use rp4os::memory::Address;
use rp4os::memory::Physical;
use rp4os::memory::Virtual;
use rp4os::mmu_enable::MmuHardware;
use rp4os::mmu_enable::enable_mmu_and_caching;
use rp4os::page::MMIODescriptor;
use rp4os::page::MemoryRegion;
use rp4os::page::PageAddress;
use rp4os::synchronization::LifecycleState;

fn test_layout() -> KernelLayout {
    KernelLayout {
        boot_core_stack_start: 0x0,
        boot_core_stack_size: 0x1_0000,
        code_start: 0x1_0000,
        code_size: 0x2_0000,
        data_start: 0x3_0000,
        data_size: 0x1_0000,
        heap_start: 0x4_0000,
        heap_size: 0x2_0000,
        mmio_remap_start: 0x6_0000,
        mmio_remap_size: 0x3_0000,
    }
}

fn booted_memory() -> (KernelMemory, LifecycleState, u64) {
    let mut mem = KernelMemory::new(2, PageAddress::<Physical>::from_usize(0x0100_0000));
    let state = LifecycleState::Init;
    let mut daif: u64 = 0;
    let layout = test_layout();
    kernel_map_binary(&mut mem, &state, daif, &layout).unwrap();
    post_enable_init(&mut mem, &mut daif, &layout);
    (mem, state, daif)
}

#[test]
fn layout_regions() {
    let layout = test_layout();
    let heap = virt_heap_region(&layout);
    assert_eq!(heap.start_page().address().as_usize(), 0x4_0000);
    assert_eq!(heap.num_pages(), 2);
    let mmio = virt_mmio_remap_region(&layout);
    assert_eq!(mmio.start_page().address().as_usize(), 0x6_0000);
    assert_eq!(mmio.num_pages(), 3);
    assert_eq!(size_to_num_pages(0x2_0000), 2);
    let phys = kernel_virt_to_phys_region(heap);
    assert_eq!(phys.start_page().address().as_usize(), 0x4_0000);
    assert_eq!(phys.end_page_exclusive().address().as_usize(), 0x6_0000);
}

#[test]
fn boot_flow_maps_binary_and_enables_mmu() {
    let mut mem = KernelMemory::new(2, PageAddress::<Physical>::from_usize(0x0100_0000));
    let state = LifecycleState::Init;
    let mut daif: u64 = 0;
    let layout = test_layout();
    let base = kernel_map_binary(&mut mem, &state, daif, &layout).unwrap();
    // The table base is the level-2 array: right after two level-3 blocks.
    assert_eq!(base.as_usize(), 0x0100_0000 + 2 * GRANULE_SIZE);
    // The code pages carry the read-only executable intent; data pages the
    // writable non-executable one.
    let code_page = PageAddress::<Virtual>::from_usize(0x1_0000);
    let code_attrs = kernel_page_attributes(&mem, code_page).unwrap();
    assert_eq!(code_attrs.acc_perms, AccessPermissions::ReadOnly);
    assert!(!code_attrs.execute_never);
    assert_eq!(code_attrs.mem_attributes, MemAttributes::CacheableDRAM);
    let data_page = PageAddress::<Virtual>::from_usize(0x3_0000);
    let data_attrs = kernel_page_attributes(&mem, data_page).unwrap();
    assert_eq!(data_attrs.acc_perms, AccessPermissions::ReadWrite);
    assert!(data_attrs.execute_never);
    // Activate translation with the returned base.
    let mut hw = MmuHardware {
        mmu_enabled: false,
        dcache_enabled: false,
        icache_enabled: false,
        granule64_supported: true,
        mair: None,
        tcr: None,
        ttbr0_base: None,
    };
    enable_mmu_and_caching(&mut hw, base).unwrap();
    assert_eq!(hw.ttbr0_base, Some(base.as_usize()));
    post_enable_init(&mut mem, &mut daif, &layout);
    assert_eq!(daif, 0);
}

#[test]
fn map_mmio_allocates_fresh_window() {
    let (mut mem, state, mut daif) = booted_memory();
    let uart = MMIODescriptor::new(Address::<Physical>::new(0xFE20_1000), 0x48);
    let addr = kernel_map_mmio(&mut mem, &state, &mut daif, "PL011 UART", &uart).unwrap();
    // First window of the remap pool, plus the request's offset into its
    // page.
    assert_eq!(addr.as_usize(), 0x6_0000 + 0x1000);
    assert_eq!(daif, 0);
    let mapped = kernel_page_attributes(&mem, PageAddress::from_usize(0x6_0000)).unwrap();
    assert_eq!(mapped.mem_attributes, MemAttributes::Device);
    assert_eq!(mapped.acc_perms, AccessPermissions::ReadWrite);
    assert!(mapped.execute_never);
}

#[test]
fn map_mmio_reuses_identical_window() {
    let (mut mem, state, mut daif) = booted_memory();
    let uart = MMIODescriptor::new(Address::<Physical>::new(0xFE20_1000), 0x48);
    let first = kernel_map_mmio(&mut mem, &state, &mut daif, "PL011 UART", &uart).unwrap();
    // An identical window requested by another driver is reused: same
    // virtual address, no second window taken from the pool.
    let again = kernel_map_mmio(&mut mem, &state, &mut daif, "echo console", &uart).unwrap();
    assert_eq!(again.as_usize(), first.as_usize());
    // A different window still gets the next pool page, proving the pool
    // was not advanced by the reuse.
    let gpio = MMIODescriptor::new(Address::<Physical>::new(0xFE22_0000), 0x100);
    let other = kernel_map_mmio(&mut mem, &state, &mut daif, "GPIO", &gpio).unwrap();
    assert_eq!(other.as_usize(), 0x7_0000);
}

#[test]
fn map_mmio_exhausts_the_pool() {
    let (mut mem, state, mut daif) = booted_memory();
    // The pool holds 3 pages; three one-page windows fill it.
    for (i, name) in ["a", "b", "c"].iter().enumerate() {
        let desc = MMIODescriptor::new(
            Address::<Physical>::new(0xF000_0000 + i * GRANULE_SIZE),
            0x10,
        );
        kernel_map_mmio(&mut mem, &state, &mut daif, name, &desc).unwrap();
    }
    let desc = MMIODescriptor::new(Address::<Physical>::new(0xF100_0000), 0x10);
    let r = kernel_map_mmio(&mut mem, &state, &mut daif, "one too many", &desc);
    assert_eq!(r.unwrap_err(), "Not enough free pages");
    assert_eq!(daif, 0);
}

#[test]
fn map_binary_rejects_colliding_layout() {
    // A layout whose data region repeats the code region's pages: the
    // second map of those pages must hit an already-valid descriptor.
    let mut layout = test_layout();
    layout.data_start = layout.code_start;
    layout.data_size = layout.code_size;
    let mut mem = KernelMemory::new(2, PageAddress::<Physical>::from_usize(0x0100_0000));
    let state = LifecycleState::Init;
    let daif: u64 = 0;
    let r = kernel_map_binary(&mut mem, &state, daif, &layout);
    assert_eq!(r.unwrap_err(), "Virtual page is already mapped");
}

#[test]
fn map_at_refuses_the_mmio_window() {
    let (mut mem, state, daif) = booted_memory();
    let layout = test_layout();
    let virt: MemoryRegion<Virtual> = MemoryRegion::new(
        PageAddress::from_usize(0x6_0000),
        PageAddress::from_usize(0x7_0000),
    );
    let phys: MemoryRegion<Physical> = MemoryRegion::new(
        PageAddress::from_usize(0x80_0000),
        PageAddress::from_usize(0x81_0000),
    );
    let attrs = AttributeFields {
        mem_attributes: MemAttributes::CacheableDRAM,
        acc_perms: AccessPermissions::ReadWrite,
        execute_never: true,
    };
    let r = kernel_map_at(&mut mem, &state, daif, &layout, "intruder", &virt, &phys, &attrs);
    assert_eq!(r.unwrap_err(), "Attempt to manually map into MMIO region");
}

#[test]
fn mappings_dump_names_every_user() {
    let (mut mem, state, mut daif) = booted_memory();
    let uart = MMIODescriptor::new(Address::<Physical>::new(0xFE20_1000), 0x48);
    kernel_map_mmio(&mut mem, &state, &mut daif, "PL011 UART", &uart).unwrap();
    kernel_map_mmio(&mut mem, &state, &mut daif, "echo console", &uart).unwrap();
    let text = kernel_print_mappings(&mem);
    assert!(text.contains("Kernel code and RO data"));
    assert!(text.contains("Kernel heap"));
    assert!(text.contains("Kernel boot-core stack"));
    assert!(text.contains("Kernel data and bss"));
    assert!(text.contains("PL011 UART"));
    assert!(text.contains("echo console"));
}

#[test]
fn add_mapping_record_directly() {
    let (mut mem, state, daif) = booted_memory();
    let virt: MemoryRegion<Virtual> = MemoryRegion::new(
        PageAddress::from_usize(0x30_0000),
        PageAddress::from_usize(0x31_0000),
    );
    let phys: MemoryRegion<Physical> = MemoryRegion::new(
        PageAddress::from_usize(0x90_0000),
        PageAddress::from_usize(0x91_0000),
    );
    let attrs = AttributeFields {
        mem_attributes: MemAttributes::CacheableDRAM,
        acc_perms: AccessPermissions::ReadWrite,
        execute_never: true,
    };
    kernel_add_mapping_record(&mut mem, &state, daif, "late record", &virt, &phys, &attrs)
        .unwrap();
    let text = kernel_print_mappings(&mem);
    assert!(text.contains("late record"));
}
