//! Hardware descriptor encoding for the AArch64 stage-1, 64 KiB-granule
//! translation regime.
//!
//! A level-2 [`TableDescriptor`] carries the physical address of its level-3
//! block, a table/block type discriminator, and a valid bit. A level-3
//! [`PageDescriptor`] carries the output physical page address (bits 47:16),
//! the access flag (always set on creation), a shareability class, an
//! access-permission pair, a privileged-execute-never flag, the
//! memory-attribute index (0 = Device, 1 = Normal cacheable), a
//! page/reserved type discriminator, and a valid bit. The unprivileged
//! execute-never bit is always forced on: there is no user-mode support.

use vstd::prelude::*;

use crate::attributes::{AccessPermissions, AttributeFields, MemAttributes};
use crate::memory::Physical;
use crate::page::PageAddress;

verus! {

/// MAIR index of the Device memory class.
pub const MAIR_DEVICE: u64 = 0;

/// MAIR index of the Normal cacheable-DRAM memory class.
pub const MAIR_NORMAL: u64 = 1;

/// Largest output address the descriptor format can carry (48 bits).
pub const OUTPUT_ADDR_LIMIT: u64 = 0x1000000000000;

/// Memory-attribute index (bits 4:2) that `attrs` selects.
pub open spec fn spec_attr_index_of(attrs: AttributeFields) -> u64 {
    match attrs.mem_attributes {
        MemAttributes::CacheableDRAM => MAIR_NORMAL,
        MemAttributes::Device => MAIR_DEVICE,
    }
}

/// Shareability class (bits 9:8) that `attrs` selects: inner-shareable for
/// cacheable DRAM, outer-shareable for device memory.
pub open spec fn spec_shareability_of(attrs: AttributeFields) -> u64 {
    match attrs.mem_attributes {
        MemAttributes::CacheableDRAM => 3,
        MemAttributes::Device => 2,
    }
}

/// Access-permission pair (bits 7:6) that `attrs` selects: kernel read-only
/// or kernel read-write, no direct user access.
pub open spec fn spec_access_perms_of(attrs: AttributeFields) -> u64 {
    match attrs.acc_perms {
        AccessPermissions::ReadOnly => 2,
        AccessPermissions::ReadWrite => 0,
    }
}

/// Privileged-execute-never bit (bit 53) that `attrs` selects.
pub open spec fn spec_pxn_of(attrs: AttributeFields) -> u64 {
    if attrs.execute_never {
        1
    } else {
        0
    }
}

/// The encoded page descriptor for output address `output_addr` (already
/// page-aligned, so it occupies bits 47:16 verbatim) and intent `attrs`:
/// unprivileged execute-never forced on (bit 54), privileged execute-never
/// from the intent (bit 53), access flag on (bit 10), shareability
/// (bits 9:8), access permissions (bits 7:6), memory-attribute index
/// (bits 4:2), page type (bit 1) and valid (bit 0).
pub open spec fn spec_page_descriptor(output_addr: u64, attrs: AttributeFields) -> u64 {
    output_addr | (1u64 << 54) | (spec_pxn_of(attrs) << 53) | (1u64 << 10) | (
    spec_shareability_of(attrs) << 8) | (spec_access_perms_of(attrs) << 6) | (spec_attr_index_of(
        attrs,
    ) << 2) | 2 | 1
}

/// The encoded table descriptor pointing at the (page-aligned) physical
/// address of a next-level table: address bits 47:16 verbatim, table type
/// (bit 1) and valid (bit 0).
pub open spec fn spec_table_descriptor(next_lvl_table_addr: u64) -> u64 {
    next_lvl_table_addr | 2 | 1
}

/// The valid bit of a descriptor.
pub open spec fn spec_descriptor_valid(value: u64) -> bool {
    value & 1 == 1
}

/// The memory-attribute index field of a page descriptor.
pub open spec fn spec_attr_index_field(value: u64) -> u64 {
    (value >> 2) & 7
}

/// The access-permission field of a page descriptor.
pub open spec fn spec_access_perms_field(value: u64) -> u64 {
    (value >> 6) & 3
}

/// The privileged-execute-never field of a page descriptor.
pub open spec fn spec_pxn_field(value: u64) -> u64 {
    (value >> 53) & 1
}

/// The output address field of a page descriptor (bits 47:16).
pub open spec fn spec_output_addr_field(value: u64) -> u64 {
    value & 0xFFFF_FFFF_0000
}

/// The attributes a page descriptor decodes to: its memory-attribute index
/// must name one of the two programmed classes and its access-permission
/// pair one of the two kernel modes; the executable intent is read back from
/// the privileged-execute-never bit.
pub open spec fn spec_try_attributes(value: u64) -> Option<AttributeFields> {
    let mem_attributes = if spec_attr_index_field(value) == MAIR_NORMAL {
        Some(MemAttributes::CacheableDRAM)
    } else if spec_attr_index_field(value) == MAIR_DEVICE {
        Some(MemAttributes::Device)
    } else {
        None
    };
    let acc_perms = if spec_access_perms_field(value) == 2 {
        Some(AccessPermissions::ReadOnly)
    } else if spec_access_perms_field(value) == 0 {
        Some(AccessPermissions::ReadWrite)
    } else {
        None
    };
    if mem_attributes is Some && acc_perms is Some {
        Some(
            AttributeFields {
                mem_attributes: mem_attributes->Some_0,
                acc_perms: acc_perms->Some_0,
                execute_never: spec_pxn_field(value) == 1,
            },
        )
    } else {
        None
    }
}

/// Field extraction from an encoded page descriptor, at the bit level: with
/// the field values in their programmed ranges, every field reads back
/// exactly and the descriptor is valid.
proof fn lemma_page_descriptor_fields(addr: u64, idx: u64, ap: u64, sh: u64, pxn: u64)
    by (bit_vector)
    requires
        addr % 0x10000 == 0,
        addr < 0x1000000000000,
        idx == 0 || idx == 1,
        ap == 0 || ap == 2,
        sh == 2 || sh == 3,
        pxn == 0 || pxn == 1,
    ensures
        ({
            let v = addr | (1u64 << 54) | (pxn << 53) | (1u64 << 10) | (sh << 8) | (ap << 6) | (idx
                << 2) | 2 | 1;
            &&& (v >> 2) & 7 == idx
            &&& (v >> 6) & 3 == ap
            &&& (v >> 53) & 1 == pxn
            &&& v & 0xFFFF_FFFF_0000 == addr
            &&& v & 1 == 1
        }),
{
}

/// Decoding an encoded page descriptor gives back exactly the attributes it
/// was built from, and the descriptor is valid and carries its output
/// address unchanged.
pub proof fn lemma_page_descriptor_round_trip(output_addr: u64, attrs: AttributeFields)
    requires
        output_addr % 0x10000 == 0,
        output_addr < OUTPUT_ADDR_LIMIT,
    ensures
        spec_try_attributes(spec_page_descriptor(output_addr, attrs)) == Some(attrs),
        spec_descriptor_valid(spec_page_descriptor(output_addr, attrs)),
        spec_output_addr_field(spec_page_descriptor(output_addr, attrs)) == output_addr,
{
    lemma_page_descriptor_fields(
        output_addr,
        spec_attr_index_of(attrs),
        spec_access_perms_of(attrs),
        spec_shareability_of(attrs),
        spec_pxn_of(attrs),
    );
}

/// A zero descriptor is invalid.
pub proof fn lemma_zero_descriptor_invalid()
    ensures
        !spec_descriptor_valid(0),
{
    assert(0u64 & 1 == 0) by (bit_vector);
}

/// A table descriptor for 64 KiB aperture.
///
/// The output points to the next table.
pub struct TableDescriptor {
    value: u64,
}

impl TableDescriptor {
    /// The encoded bits.
    pub closed spec fn value(&self) -> u64 {
        self.value
    }

    /// Create an instance.
    ///
    /// Descriptor is invalid by default.
    pub fn new_zeroed() -> (r: Self)
        ensures
            r.value() == 0,
            !spec_descriptor_valid(r.value()),
    {
        proof {
            lemma_zero_descriptor_invalid();
        }
        TableDescriptor { value: 0 }
    }

    /// Create an instance pointing to the supplied address, which must be a
    /// page-aligned physical address inside the 48-bit output range.
    pub fn from_phys_addr(phys_next_lvl_table_addr: PageAddress<Physical>) -> (r: Self)
        requires
            phys_next_lvl_table_addr@ < OUTPUT_ADDR_LIMIT,
        ensures
            r.value() == spec_table_descriptor(phys_next_lvl_table_addr@ as u64),
    {
        let addr: u64 = phys_next_lvl_table_addr.address().as_usize() as u64;
        TableDescriptor { value: addr | 2 | 1 }
    }

    /// The raw encoded descriptor.
    pub fn raw_value(&self) -> (r: u64)
        ensures
            r == self.value(),
    {
        self.value
    }
}

impl Clone for TableDescriptor {
    fn clone(&self) -> (r: Self)
        ensures
            r == *self,
    {
        TableDescriptor { value: self.value }
    }
}

impl Copy for TableDescriptor {

}

/// A page descriptor with 64 KiB aperture.
///
/// The output points to physical memory.
pub struct PageDescriptor {
    value: u64,
}

impl PageDescriptor {
    /// The encoded bits.
    pub closed spec fn value(&self) -> u64 {
        self.value
    }

    /// Create an instance.
    ///
    /// Descriptor is invalid by default.
    pub fn new_zeroed() -> (r: Self)
        ensures
            r.value() == 0,
            !spec_descriptor_valid(r.value()),
    {
        proof {
            lemma_zero_descriptor_invalid();
        }
        PageDescriptor { value: 0 }
    }

    /// Create an instance for the given output page and attributes. The
    /// access flag is forced on, as is unprivileged execute-never.
    pub fn new(phys_output_addr: PageAddress<Physical>, attribute_fields: &AttributeFields) -> (r:
        Self)
        requires
            phys_output_addr@ < OUTPUT_ADDR_LIMIT,
        ensures
            r.value() == spec_page_descriptor(phys_output_addr@ as u64, *attribute_fields),
            spec_descriptor_valid(r.value()),
            spec_try_attributes(r.value()) == Some(*attribute_fields),
    {
        let addr: u64 = phys_output_addr.address().as_usize() as u64;
        let attr_index: u64 = match attribute_fields.mem_attributes {
            MemAttributes::CacheableDRAM => MAIR_NORMAL,
            MemAttributes::Device => MAIR_DEVICE,
        };
        let shareability: u64 = match attribute_fields.mem_attributes {
            MemAttributes::CacheableDRAM => 3,
            MemAttributes::Device => 2,
        };
        let access_perms: u64 = match attribute_fields.acc_perms {
            AccessPermissions::ReadOnly => 2,
            AccessPermissions::ReadWrite => 0,
        };
        let pxn: u64 = if attribute_fields.execute_never {
            1
        } else {
            0
        };
        let value: u64 = addr | (1u64 << 54) | (pxn << 53) | (1u64 << 10) | (shareability << 8) | (
        access_perms << 6) | (attr_index << 2) | 2 | 1;
        proof {
            lemma_page_descriptor_round_trip(addr, *attribute_fields);
        }
        PageDescriptor { value }
    }

    /// Wrap raw descriptor bits, as read back from table memory. Nothing
    /// is assumed of them; decoding may report unknown fields.
    pub fn from_raw(value: u64) -> (r: Self)
        ensures
            r.value() == value,
    {
        PageDescriptor { value }
    }

    /// Returns the valid bit.
    pub fn is_valid(&self) -> (r: bool)
        ensures
            r == spec_descriptor_valid(self.value()),
    {
        self.value & 1 == 1
    }

    /// Returns the output physical page address (bits 47:16).
    pub fn output_page_addr(&self) -> (r: u64)
        ensures
            r == spec_output_addr_field(self.value()),
    {
        self.value & 0xFFFF_FFFF_0000
    }

    /// Returns the attributes, when the descriptor's fields name programmed
    /// classes; an unknown memory-attribute index or access-permission pair
    /// is reported as an error.
    pub fn try_attributes(&self) -> (r: Result<AttributeFields, &'static str>)
        ensures
            r is Ok <==> spec_try_attributes(self.value()) is Some,
            r is Ok ==> r->Ok_0 == spec_try_attributes(self.value())->Some_0,
            r is Err ==> spec_attr_index_field(self.value()) != MAIR_NORMAL
                && spec_attr_index_field(self.value()) != MAIR_DEVICE ==> r->Err_0@
                == "Unexpected memory attribute"@,
    {
        let attr_index: u64 = (self.value >> 2) & 7;
        let mem_attributes = if attr_index == MAIR_NORMAL {
            MemAttributes::CacheableDRAM
        } else if attr_index == MAIR_DEVICE {
            MemAttributes::Device
        } else {
            return Err("Unexpected memory attribute");
        };
        let access_perms: u64 = (self.value >> 6) & 3;
        let acc_perms = if access_perms == 2 {
            AccessPermissions::ReadOnly
        } else if access_perms == 0 {
            AccessPermissions::ReadWrite
        } else {
            return Err("Unexpected access permission");
        };
        let execute_never = ((self.value >> 53) & 1) == 1;
        Ok(AttributeFields { mem_attributes, acc_perms, execute_never })
    }

    /// The raw encoded descriptor.
    pub fn raw_value(&self) -> (r: u64)
        ensures
            r == self.value(),
    {
        self.value
    }
}

impl Clone for PageDescriptor {
    fn clone(&self) -> (r: Self)
        ensures
            r == *self,
    {
        PageDescriptor { value: self.value }
    }
}

impl Copy for PageDescriptor {

}

} // verus!
