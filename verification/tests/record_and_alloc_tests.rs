//! The mapping record (append-only audit log with de-duplication) and the
//! bump page allocator.

use rp4os::GRANULE_SIZE;
use rp4os::attributes::AccessPermissions;
use rp4os::attributes::AttributeFields;
use rp4os::attributes::MemAttributes;
use rp4os::mapping_record::MappingRecordEntry;
use rp4os::mapping_record::MappingRecords;
use rp4os::memory::Physical;
use rp4os::memory::Virtual;
use rp4os::page::MemoryRegion;
use rp4os::page::PageAddress;
use rp4os::page_alloc::PageAllocator;

fn region<T: rp4os::memory::AddressType>(start: usize, end: usize) -> MemoryRegion<T> {
    MemoryRegion::new(PageAddress::from_usize(start), PageAddress::from_usize(end))
}

fn device_attrs() -> AttributeFields {
    AttributeFields {
        mem_attributes: MemAttributes::Device,
        acc_perms: AccessPermissions::ReadWrite,
        execute_never: true,
    }
}

fn dram_attrs() -> AttributeFields {
    AttributeFields {
        mem_attributes: MemAttributes::CacheableDRAM,
        acc_perms: AccessPermissions::ReadWrite,
        execute_never: true,
    }
}

#[test]
fn add_keeps_entries_sorted_by_virtual_start() {
    let mut records = MappingRecords::new();
    let phys: MemoryRegion<Physical> = region(0x10_0000, 0x11_0000);
    records
        .add("third", &region::<Virtual>(0x30_0000, 0x31_0000), &phys, &dram_attrs())
        .unwrap();
    records
        .add("first", &region::<Virtual>(0x10_0000, 0x11_0000), &phys, &dram_attrs())
        .unwrap();
    records
        .add("second", &region::<Virtual>(0x20_0000, 0x21_0000), &phys, &dram_attrs())
        .unwrap();
    assert_eq!(records.size(), 3);
    assert_eq!(records.entry(0).virt_start_addr().as_usize(), 0x10_0000);
    assert_eq!(records.entry(1).virt_start_addr().as_usize(), 0x20_0000);
    assert_eq!(records.entry(2).virt_start_addr().as_usize(), 0x30_0000);
    assert_eq!(records.entry(0).user(0), "first");
    assert_eq!(records.entry(1).user(0), "second");
    assert_eq!(records.entry(2).user(0), "third");
}

#[test]
fn twenty_first_entry_is_refused_and_nothing_changes() {
    let mut records = MappingRecords::new();
    for i in 0..20 {
        let virt: MemoryRegion<Virtual> =
            region(0x100_0000 + i * GRANULE_SIZE, 0x100_0000 + (i + 1) * GRANULE_SIZE);
        let phys: MemoryRegion<Physical> =
            region(0x200_0000 + i * GRANULE_SIZE, 0x200_0000 + (i + 1) * GRANULE_SIZE);
        records.add("filler", &virt, &phys, &dram_attrs()).unwrap();
    }
    assert_eq!(records.size(), 20);
    let r = records.add(
        "one too many",
        &region::<Virtual>(0x400_0000, 0x401_0000),
        &region::<Physical>(0x500_0000, 0x501_0000),
        &dram_attrs(),
    );
    assert_eq!(r.unwrap_err(), "Storage for mapping info exhausted");
    assert_eq!(records.size(), 20);
    // The refused entry is nowhere in the table.
    for i in 0..20 {
        assert_eq!(records.entry(i).user(0), "filler");
    }
}

#[test]
fn find_device_record_exact_match_only() {
    let mut records = MappingRecords::new();
    let window: MemoryRegion<Physical> = region(0xFE20_0000, 0xFE21_0000);
    records
        .add("uart", &region::<Virtual>(0x10_0000, 0x11_0000), &window, &device_attrs())
        .unwrap();
    // Hit: same physical start and page count, Device class.
    let hit = records.find_device_record(&window).unwrap();
    assert_eq!(records.entry(hit).user(0), "uart");
    // Miss: different start.
    let other_start: MemoryRegion<Physical> = region(0xFE21_0000, 0xFE22_0000);
    assert!(records.find_device_record(&other_start).is_none());
    // Miss: same start, different page count.
    let other_count: MemoryRegion<Physical> = region(0xFE20_0000, 0xFE22_0000);
    assert!(records.find_device_record(&other_count).is_none());
}

#[test]
fn find_device_record_class_isolation() {
    // An identical {phys_start, page count} recorded as CacheableDRAM must
    // not match a device lookup.
    let mut records = MappingRecords::new();
    let window: MemoryRegion<Physical> = region(0xFE20_0000, 0xFE21_0000);
    records
        .add("dram over window", &region::<Virtual>(0x10_0000, 0x11_0000), &window, &dram_attrs())
        .unwrap();
    assert!(records.find_device_record(&window).is_none());
    records
        .add("device over window", &region::<Virtual>(0x20_0000, 0x21_0000), &window, &device_attrs())
        .unwrap();
    let hit = records.find_device_record(&window).unwrap();
    assert_eq!(records.entry(hit).user(0), "device over window");
}

#[test]
fn user_slots_cap_at_five() {
    let mut entry = MappingRecordEntry::new(
        "creator",
        &region::<Virtual>(0x10_0000, 0x11_0000),
        &region::<Physical>(0x20_0000, 0x21_0000),
        &device_attrs(),
    );
    assert_eq!(entry.num_users(), 1);
    entry.add_user("second").unwrap();
    entry.add_user("third").unwrap();
    entry.add_user("fourth").unwrap();
    entry.add_user("fifth").unwrap();
    assert_eq!(entry.num_users(), 5);
    let r = entry.add_user("sixth");
    assert_eq!(r.unwrap_err(), "Storage for user info exhausted");
    assert_eq!(entry.num_users(), 5);
    assert_eq!(entry.user(4), "fifth");
}

#[test]
fn entry_records_the_mapping() {
    let entry = MappingRecordEntry::new(
        "uart",
        &region::<Virtual>(0x10_0000, 0x12_0000),
        &region::<Physical>(0xFE20_0000, 0xFE22_0000),
        &device_attrs(),
    );
    assert_eq!(entry.virt_start_addr().as_usize(), 0x10_0000);
    assert_eq!(entry.phys_start_addr().as_usize(), 0xFE20_0000);
    assert_eq!(entry.num_pages(), 2);
    assert_eq!(entry.attribute_fields(), device_attrs());
}

#[test]
fn print_renders_every_entry() {
    let mut records = MappingRecords::new();
    records
        .add(
            "kernel code",
            &region::<Virtual>(0x2_0000, 0x4_0000),
            &region::<Physical>(0x2_0000, 0x4_0000),
            &AttributeFields {
                mem_attributes: MemAttributes::CacheableDRAM,
                acc_perms: AccessPermissions::ReadOnly,
                execute_never: false,
            },
        )
        .unwrap();
    let text = records.print();
    assert!(text.contains("kernel code"));
    assert!(text.contains("0x0000000000020000"));
    assert!(text.contains("Cache"));
    assert!(text.contains("RO"));
    assert!(text.contains("128 KiB"));
}

#[test]
fn print_is_deterministic() {
    let mut records = MappingRecords::new();
    records
        .add(
            "uart",
            &region::<Virtual>(0x10_0000, 0x11_0000),
            &region::<Physical>(0xFE20_0000, 0xFE21_0000),
            &device_attrs(),
        )
        .unwrap();
    // The dump is a function of the record's contents alone.
    assert_eq!(records.print(), records.print());
}

#[test]
fn allocator_rejects_use_before_init() {
    let mut allocator: PageAllocator<Virtual> = PageAllocator::new();
    let r = allocator.allocate(1);
    assert_eq!(r.unwrap_err(), "Allocator not initialized");
}

#[test]
fn allocator_initializes_once() {
    let mut allocator: PageAllocator<Virtual> = PageAllocator::new();
    assert!(allocator.init(region(0x10_0000, 0x12_0000)));
    // The second initialization is refused; the pool stays as first set.
    assert!(!allocator.init(region(0x80_0000, 0x90_0000)));
    let piece = allocator.allocate(1).unwrap();
    assert_eq!(piece.start_page().address().as_usize(), 0x10_0000);
}

#[test]
fn allocator_bumps_until_exhausted() {
    let mut allocator: PageAllocator<Virtual> = PageAllocator::new();
    allocator.init(region(0x10_0000, 0x13_0000));
    let a = allocator.allocate(2).unwrap();
    assert_eq!(a.start_page().address().as_usize(), 0x10_0000);
    assert_eq!(a.num_pages(), 2);
    let b = allocator.allocate(1).unwrap();
    assert_eq!(b.start_page().address().as_usize(), 0x12_0000);
    // Exhausted pools yield permanent failures.
    assert_eq!(allocator.allocate(1).unwrap_err(), "Not enough free pages");
    assert_eq!(allocator.allocate(1).unwrap_err(), "Not enough free pages");
}
