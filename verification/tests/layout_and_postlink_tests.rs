//! The special-range virtual layout table and the link-step computations.

use rp4os::attributes::AccessPermissions;
use rp4os::attributes::AttributeFields;
use rp4os::attributes::MemAttributes;
use rp4os::postlink::MappingDescriptor;
use rp4os::postlink::SegmentInfo;
use rp4os::postlink::SymbolInfo;
use rp4os::postlink::align_up;
use rp4os::postlink::get_symbol_value;
use rp4os::postlink::map_kernel_binary;
use rp4os::postlink::virt_addr_to_file_offset;
use rp4os::postlink::virt_to_phys;
use rp4os::virt_layout::KernelVirtualLayout;
use rp4os::virt_layout::Translation;
use rp4os::virt_layout::TranslationDescriptor;

fn device_attrs() -> AttributeFields {
    AttributeFields {
        mem_attributes: MemAttributes::Device,
        acc_perms: AccessPermissions::ReadWrite,
        execute_never: true,
    }
}

fn sample_layout() -> KernelVirtualLayout {
    let descriptors = vec![
        TranslationDescriptor {
            name: "Remapped Device MMIO",
            virtual_range_start: 0x7_0000,
            virtual_range_end_inclusive: 0x7_FFFF,
            physical_range_translation: Translation::Offset(0xFE20_0000),
            attribute_fields: device_attrs(),
        },
        TranslationDescriptor {
            name: "Device MMIO",
            virtual_range_start: 0xFE00_0000,
            virtual_range_end_inclusive: 0xFF84_FFFF,
            physical_range_translation: Translation::Identity,
            attribute_fields: device_attrs(),
        },
    ];
    KernelVirtualLayout::new(0xFFFF_FFFF, descriptors)
}

#[test]
fn out_of_range_address_is_rejected() {
    let layout = sample_layout();
    let r = layout.virt_addr_properties(0x1_0000_0000);
    assert_eq!(r.unwrap_err(), "Address out of range");
}

#[test]
fn special_range_offset_translation() {
    let layout = sample_layout();
    let (output, attrs) = layout.virt_addr_properties(0x7_1234).unwrap();
    assert_eq!(output, 0xFE20_1234);
    assert_eq!(attrs.mem_attributes, MemAttributes::Device);
}

#[test]
fn special_range_identity_translation() {
    let layout = sample_layout();
    let (output, attrs) = layout.virt_addr_properties(0xFE20_1000).unwrap();
    assert_eq!(output, 0xFE20_1000);
    assert_eq!(attrs.mem_attributes, MemAttributes::Device);
}

#[test]
fn unlisted_address_is_identity_mapped_default() {
    let layout = sample_layout();
    let (output, attrs) = layout.virt_addr_properties(0x12_3456).unwrap();
    assert_eq!(output, 0x12_3456);
    assert_eq!(attrs.mem_attributes, MemAttributes::CacheableDRAM);
    assert_eq!(attrs.acc_perms, AccessPermissions::ReadWrite);
    assert!(attrs.execute_never);
}

#[test]
fn layout_dump_names_ranges() {
    let layout = sample_layout();
    let text = layout.print_layout();
    assert!(text.contains("Remapped Device MMIO"));
    assert!(text.contains("Device MMIO"));
    assert!(text.contains("0x00000000fe000000"));
}

fn code_segment() -> SegmentInfo {
    SegmentInfo {
        p_type: 1,
        p_flags: 5,  // readable, executable
        p_vaddr: 0x8_0000,
        p_paddr: 0x8_0000,
        p_offset: 0x1_0000,
        p_memsz: 0x1_8500,
        p_align: 0x1_0000,
    }
}

fn data_segment() -> SegmentInfo {
    SegmentInfo {
        p_type: 1,
        p_flags: 6,  // readable, writable
        p_vaddr: 0xA_0000,
        p_paddr: 0x9_8500,
        p_offset: 0x3_0000,
        p_memsz: 0x2_0000,
        p_align: 0x1_0000,
    }
}

fn note_segment() -> SegmentInfo {
    SegmentInfo {
        p_type: 4,
        p_flags: 4,
        p_vaddr: 0x0,
        p_paddr: 0x0,
        p_offset: 0x0,
        p_memsz: 0x10,
        p_align: 1,
    }
}

#[test]
fn segment_flags() {
    let code = code_segment();
    assert!(code.readable());
    assert!(!code.writable());
    assert!(code.executable());
    let data = data_segment();
    assert!(data.writable());
    assert!(!data.executable());
}

#[test]
fn load_segments_become_mapping_requests() {
    let segments = vec![note_segment(), code_segment(), data_segment()];
    let descriptors: Vec<MappingDescriptor> = map_kernel_binary(&segments);
    // Only the two load segments are kept, in order, rounded to pages.
    assert_eq!(descriptors.len(), 2);
    assert_eq!(descriptors[0].virt_region.start, 0x8_0000);
    assert_eq!(descriptors[0].virt_region.size, 0x2_0000);
    assert_eq!(descriptors[0].phys_region.start, 0x8_0000);
    assert_eq!(descriptors[0].attributes.acc_perms, AccessPermissions::ReadOnly);
    assert!(!descriptors[0].attributes.execute_never);
    assert_eq!(descriptors[1].virt_region.start, 0xA_0000);
    assert_eq!(descriptors[1].virt_region.size, 0x2_0000);
    assert_eq!(descriptors[1].attributes.acc_perms, AccessPermissions::ReadWrite);
    assert!(descriptors[1].attributes.execute_never);
    assert_eq!(
        descriptors[0].attributes.mem_attributes,
        MemAttributes::CacheableDRAM
    );
    assert!(!descriptors[0].virt_region.is_empty());
}

#[test]
fn virt_to_phys_follows_the_segment_bias() {
    let segments = vec![code_segment(), data_segment()];
    // The code segment is identity placed.
    assert_eq!(virt_to_phys(&segments, 0x8_1234), 0x8_1234);
    // The data segment is loaded 0x7B00 below its virtual placement.
    assert_eq!(virt_to_phys(&segments, 0xA_1000), 0x9_9500);
}

#[test]
fn virt_addr_to_file_offset_follows_the_segment() {
    let segments = vec![code_segment(), data_segment()];
    assert_eq!(virt_addr_to_file_offset(&segments, 0x8_1234), 0x1_1234);
    assert_eq!(virt_addr_to_file_offset(&segments, 0xA_1000), 0x3_1000);
}

#[test]
fn symbols_resolve_by_name() {
    let symbols = vec![
        SymbolInfo { name: String::from("__kernel_virt_addr_space_size"), value: 0x4000_0000 },
        SymbolInfo { name: String::from("KERNEL_TRANSLATION_TABLES"), value: 0x10_0000 },
    ];
    let name = String::from("KERNEL_TRANSLATION_TABLES");
    assert_eq!(get_symbol_value(&symbols, &name), Some(0x10_0000));
    let missing = String::from("PHYS_KERNEL_TABLES_BASE_ADDR");
    assert_eq!(get_symbol_value(&symbols, &missing), None);
}

#[test]
fn postlink_align_up() {
    assert_eq!(align_up(0x1_8500, 0x1_0000), 0x2_0000);
    assert_eq!(align_up(0x2_0000, 0x1_0000), 0x2_0000);
    assert_eq!(align_up(1, 0x1_0000), 0x1_0000);
}
