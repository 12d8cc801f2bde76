//! The translation table: descriptor encoding, population, page-level
//! query, the map-once policy, and the all-or-nothing failure behavior.

use rp4os::GRANULE_SIZE;
use rp4os::attributes::AccessPermissions;
use rp4os::attributes::AttributeFields;
use rp4os::attributes::MemAttributes;
use rp4os::descriptor::PageDescriptor;
use rp4os::descriptor::TableDescriptor;
use rp4os::memory::Address;
use rp4os::memory::Physical;
use rp4os::memory::Virtual;
use rp4os::page::MemoryRegion;
use rp4os::page::PageAddress;
use rp4os::translation_table::FixedSizeTranslationTable;
use rp4os::translation_table::TranslationTable;

fn region<T: rp4os::memory::AddressType>(start: usize, end: usize) -> MemoryRegion<T> {
    MemoryRegion::new(PageAddress::from_usize(start), PageAddress::from_usize(end))
}

fn dram_ro_x() -> AttributeFields {
    AttributeFields {
        mem_attributes: MemAttributes::CacheableDRAM,
        acc_perms: AccessPermissions::ReadOnly,
        execute_never: false,
    }
}

fn dram_rw_xn() -> AttributeFields {
    AttributeFields {
        mem_attributes: MemAttributes::CacheableDRAM,
        acc_perms: AccessPermissions::ReadWrite,
        execute_never: true,
    }
}

fn fresh_table() -> FixedSizeTranslationTable {
    // 1 GiB of virtual address space at a 512 MiB window each: 2 windows.
    let mut table =
        FixedSizeTranslationTable::new(2, PageAddress::<Physical>::from_usize(0x0100_0000));
    table.init();
    table
}

#[test]
fn page_descriptor_encoding_exact() {
    // Cacheable DRAM, read-write, execute-never: UXN | PXN | AF |
    // inner-shareable | AP=RW | AttrIndx=1 | page | valid, plus the output
    // address in bits 47:16.
    let desc = PageDescriptor::new(PageAddress::<Physical>::from_usize(0x8_0000), &dram_rw_xn());
    assert_eq!(desc.raw_value(), 0x0060_0000_0008_0707);
    assert!(desc.is_valid());
    assert_eq!(desc.output_page_addr(), 0x8_0000);
    // Device, read-only, executable: UXN only, outer-shareable, AP=RO,
    // AttrIndx=0.
    let device = AttributeFields {
        mem_attributes: MemAttributes::Device,
        acc_perms: AccessPermissions::ReadOnly,
        execute_never: false,
    };
    let desc = PageDescriptor::new(PageAddress::<Physical>::from_usize(0x8_0000), &device);
    assert_eq!(desc.raw_value(), 0x0040_0000_0008_0683);
}

#[test]
fn page_descriptor_round_trip() {
    let all = [
        (MemAttributes::CacheableDRAM, AccessPermissions::ReadOnly, false),
        (MemAttributes::CacheableDRAM, AccessPermissions::ReadWrite, true),
        (MemAttributes::Device, AccessPermissions::ReadOnly, true),
        (MemAttributes::Device, AccessPermissions::ReadWrite, false),
    ];
    for (mem_attributes, acc_perms, execute_never) in all {
        let attrs = AttributeFields { mem_attributes, acc_perms, execute_never };
        let desc = PageDescriptor::new(PageAddress::<Physical>::from_usize(0xF000_0000), &attrs);
        assert_eq!(desc.try_attributes().unwrap(), attrs);
    }
}

#[test]
fn decode_rejects_unknown_fields() {
    // A memory-attribute index naming neither programmed class.
    let unknown_class = PageDescriptor::from_raw(0x8_0000 | (2 << 2) | 0x3);
    assert_eq!(unknown_class.try_attributes().unwrap_err(), "Unexpected memory attribute");
    // An access-permission pair with direct user access, which this kernel
    // never programs.
    let user_access = PageDescriptor::from_raw(0x8_0000 | (1 << 6) | (1 << 2) | 0x3);
    assert_eq!(user_access.try_attributes().unwrap_err(), "Unexpected access permission");
}

#[test]
fn zeroed_descriptors_are_invalid() {
    assert!(!PageDescriptor::new_zeroed().is_valid());
    assert_eq!(PageDescriptor::new_zeroed().raw_value(), 0);
    assert_eq!(TableDescriptor::new_zeroed().raw_value(), 0);
}

#[test]
fn table_descriptor_encoding() {
    let desc = TableDescriptor::from_phys_addr(PageAddress::<Physical>::from_usize(0x0100_0000));
    assert_eq!(desc.raw_value(), 0x0100_0003);
}

#[test]
fn map_then_query_returns_attributes() {
    // For page-aligned, equal-sized, in-bounds region pairs: map_at then
    // try_page_attributes on every contained page gives back the original
    // attributes.
    let mut table = fresh_table();
    let virt: MemoryRegion<Virtual> = region(0x4_0000, 0x8_0000);
    let phys: MemoryRegion<Physical> = region(0x10_0000, 0x14_0000);
    table.map_at(&virt, &phys, &dram_ro_x()).unwrap();
    for page in 0..4 {
        let addr = PageAddress::<Virtual>::from_usize(0x4_0000 + page * GRANULE_SIZE);
        assert_eq!(table.try_page_attributes(addr).unwrap(), dram_ro_x());
    }
    let below = PageAddress::<Virtual>::from_usize(0x3_0000);
    assert_eq!(table.try_page_attributes(below).unwrap_err(), "Page marked invalid");
}

#[test]
fn map_twice_fails_and_leaves_table_unmodified() {
    let mut table = fresh_table();
    let virt: MemoryRegion<Virtual> = region(0x4_0000, 0x6_0000);
    let phys: MemoryRegion<Physical> = region(0x10_0000, 0x12_0000);
    table.map_at(&virt, &phys, &dram_rw_xn()).unwrap();
    // Remapping one of the same pages fails...
    let virt2: MemoryRegion<Virtual> = region(0x5_0000, 0x7_0000);
    let phys2: MemoryRegion<Physical> = region(0x20_0000, 0x22_0000);
    let r = table.map_at(&virt2, &phys2, &dram_ro_x());
    assert_eq!(r.unwrap_err(), "Virtual page is already mapped");
    // ...and changed nothing: the old pages keep their attributes, and the
    // page the failed request would have newly mapped is still invalid.
    let old = PageAddress::<Virtual>::from_usize(0x5_0000);
    assert_eq!(table.try_page_attributes(old).unwrap(), dram_rw_xn());
    let untouched = PageAddress::<Virtual>::from_usize(0x6_0000);
    assert_eq!(table.try_page_attributes(untouched).unwrap_err(), "Page marked invalid");
}

#[test]
fn map_rejects_unequal_sizes() {
    let mut table = fresh_table();
    let virt: MemoryRegion<Virtual> = region(0x4_0000, 0x6_0000);
    let phys: MemoryRegion<Physical> = region(0x10_0000, 0x11_0000);
    let r = table.map_at(&virt, &phys, &dram_rw_xn());
    assert_eq!(r.unwrap_err(), "Tried to map memory regions with unequal sizes");
}

#[test]
fn map_rejects_physical_space_overrun() {
    let mut table = fresh_table();
    let virt: MemoryRegion<Virtual> = region(0x4_0000, 0x6_0000);
    // The board's physical space ends exclusive at 0x1_0000_0000.
    let phys: MemoryRegion<Physical> = region(0xFFFF_0000, 0x1_0001_0000);
    let r = table.map_at(&virt, &phys, &dram_rw_xn());
    assert_eq!(r.unwrap_err(), "Tried to map outside of physical address space");
}

#[test]
fn map_rejects_out_of_bounds_virtual_page() {
    let mut table = fresh_table();
    // 2 windows cover 1 GiB; a virtual page beyond that is out of bounds.
    let virt: MemoryRegion<Virtual> = region(0x4000_0000, 0x4001_0000);
    let phys: MemoryRegion<Physical> = region(0x10_0000, 0x11_0000);
    let r = table.map_at(&virt, &phys, &dram_rw_xn());
    assert_eq!(r.unwrap_err(), "Virtual page is out of bounds of translation table");
    let query = PageAddress::<Virtual>::from_usize(0x4000_0000);
    assert_eq!(
        table.try_page_attributes(query).unwrap_err(),
        "Virtual page is out of bounds of translation table"
    );
}

#[test]
fn one_gib_address_space_two_windows() {
    // Scenario: 1 GiB address space, 64 KiB granule: 2 level-2 windows.
    // Mapping 128 KiB at virtual 0x0 succeeds and fills exactly the first 2
    // page slots of window 0.
    let mut table = fresh_table();
    let virt: MemoryRegion<Virtual> = region(0x0, 0x2_0000);
    let phys: MemoryRegion<Physical> = region(0x8_0000, 0xA_0000);
    table.map_at(&virt, &phys, &dram_rw_xn()).unwrap();
    let page0 = PageAddress::<Virtual>::from_usize(0x0);
    let page1 = PageAddress::<Virtual>::from_usize(0x1_0000);
    let page2 = PageAddress::<Virtual>::from_usize(0x2_0000);
    assert_eq!(table.try_page_attributes(page0).unwrap(), dram_rw_xn());
    assert_eq!(table.try_page_attributes(page1).unwrap(), dram_rw_xn());
    assert_eq!(table.try_page_attributes(page2).unwrap_err(), "Page marked invalid");
    // Window 1 begins at 512 MiB and is untouched; window 2 does not exist.
    let window1 = PageAddress::<Virtual>::from_usize(0x2000_0000);
    assert_eq!(table.try_page_attributes(window1).unwrap_err(), "Page marked invalid");
    let window2 = PageAddress::<Virtual>::from_usize(0x4000_0000);
    assert_eq!(
        table.try_page_attributes(window2).unwrap_err(),
        "Virtual page is out of bounds of translation table"
    );
}

#[test]
fn phys_base_address_follows_level3_blocks() {
    let table = fresh_table();
    // The level-2 array sits right after the two 64 KiB level-3 blocks.
    assert_eq!(table.phys_base_address().as_usize(), 0x0100_0000 + 2 * GRANULE_SIZE);
}

#[test]
fn init_is_idempotent() {
    let mut table =
        FixedSizeTranslationTable::new(2, PageAddress::<Physical>::from_usize(0x0100_0000));
    table.init();
    let base = table.phys_base_address().as_usize();
    table.init();
    assert_eq!(table.phys_base_address().as_usize(), base);
}

#[test]
fn serialized_image_layout() {
    // One window: 64 KiB of level-3 descriptors, then the 8-byte level-2
    // array, every descriptor as eight little-endian bytes.
    let mut table =
        FixedSizeTranslationTable::new(1, PageAddress::<Physical>::from_usize(0x0100_0000));
    table.init();
    let virt: MemoryRegion<Virtual> = region(0x0, 0x1_0000);
    let phys: MemoryRegion<Physical> = region(0x8_0000, 0x9_0000);
    table.map_at(&virt, &phys, &dram_rw_xn()).unwrap();
    let bytes = table.serialized();
    assert_eq!(bytes.len(), 65536 + 8);
    let slot0: [u8; 8] = bytes[0..8].try_into().unwrap();
    assert_eq!(u64::from_le_bytes(slot0), 0x0060_0000_0008_0707);
    let slot1: [u8; 8] = bytes[8..16].try_into().unwrap();
    assert_eq!(u64::from_le_bytes(slot1), 0);
    let lvl2: [u8; 8] = bytes[65536..65544].try_into().unwrap();
    assert_eq!(u64::from_le_bytes(lvl2), 0x0100_0003);
    // The getters agree with the serialized bytes.
    assert_eq!(table.lvl2_len(), 1);
    assert_eq!(table.lvl3_descriptor(0, 0).raw_value(), 0x0060_0000_0008_0707);
    assert!(!table.lvl3_descriptor(0, 1).is_valid());
    assert_eq!(table.lvl2_descriptor(0).raw_value(), 0x0100_0003);
}

#[test]
fn query_before_any_map_is_invalid() {
    let table = fresh_table();
    let addr = PageAddress::<Virtual>::from_usize(0x1000_0000);
    assert_eq!(table.try_page_attributes(addr).unwrap_err(), "Page marked invalid");
}
