//! One-shot activation of the hardware translation regime.
//!
//! The machine state this step reads and programs — the enable and cache
//! bits, the memory-attribute table, translation control, and the
//! translation-table base register — is modeled as a value, so the decision
//! logic is verified for every state the hardware can report. The thin layer
//! that copies an [`MmuHardware`] value into the real registers (system
//! register writes and barriers) lives outside this crate.

use vstd::prelude::*;

use crate::bsp::KERNEL_VADDR_SPACE_SIZE_SHIFT;
use crate::memory::{Address, Physical};

verus! {

/// MMU enable errors variants.
#[derive(Copy, Clone, Debug)]
pub enum MMUEnableError {
    AlreadyEnabled,
    Other(&'static str),
}

impl MMUEnableError {
    /// A human-readable description of the error.
    pub fn message(&self) -> (r: &'static str)
        ensures
            *self is AlreadyEnabled ==> r@ == "MMU is already enabled"@,
            *self is Other ==> r == self->Other_0,
    {
        match self {
            MMUEnableError::AlreadyEnabled => "MMU is already enabled",
            MMUEnableError::Other(x) => x,
        }
    }
}

/// One memory-attribute class of the indirection table.
#[derive(Copy, Clone, Debug, PartialEq, Eq, Structural)]
pub enum MemoryAttributeClass {
    /// Device memory: non-gathering, non-reordering, early write
    /// acknowledgement.
    DeviceNonGatheringNonReordering,
    /// Normal DRAM: write-back non-transient cacheable, read- and
    /// write-allocating.
    NormalWriteBackReadWriteAlloc,
}

/// The memory-attribute indirection table: exactly two classes at fixed
/// indices, 0 = Device and 1 = Normal.
#[derive(Copy, Clone, Debug, PartialEq, Eq, Structural)]
pub struct MairConfig {
    pub attr0: MemoryAttributeClass,
    pub attr1: MemoryAttributeClass,
}

/// The stage-1 translation-control settings for the low half of the address
/// space.
#[derive(Copy, Clone, Debug, PartialEq, Eq, Structural)]
pub struct TranslationControl {
    /// The top address byte is ignored.
    pub top_byte_ignored: bool,
    /// Intermediate physical address size, in bits.
    pub phys_address_size_bits: u64,
    /// The 64 KiB translation granule is selected.
    pub granule_64_kib: bool,
    /// Table walks are inner-shareable.
    pub inner_shareable: bool,
    /// Outer cacheability: write-back, read- and write-allocating.
    pub outer_writeback_cacheable: bool,
    /// Inner cacheability: write-back, read- and write-allocating.
    pub inner_writeback_cacheable: bool,
    /// Walks through the low-half base register are enabled.
    pub ttbr0_walks_enabled: bool,
    /// Walks through the high-half base register are disabled.
    pub ttbr1_walks_disabled: bool,
    /// 64 minus the input address size in bits.
    pub t0sz: u64,
}

/// The machine state that MMU activation reads and programs.
#[derive(Copy, Clone, Debug, PartialEq, Eq, Structural)]
pub struct MmuHardware {
    /// The translation regime is active.
    pub mmu_enabled: bool,
    /// Data caching is on.
    pub dcache_enabled: bool,
    /// Instruction caching is on.
    pub icache_enabled: bool,
    /// The hardware supports the 64 KiB granule (read-only capability).
    pub granule64_supported: bool,
    /// The programmed memory-attribute table, if any.
    pub mair: Option<MairConfig>,
    /// The programmed translation control, if any.
    pub tcr: Option<TranslationControl>,
    /// The programmed translation-table base, if any.
    pub ttbr0_base: Option<usize>,
}

/// The memory-attribute table this kernel programs.
pub open spec fn spec_mair_config() -> MairConfig {
    MairConfig {
        attr0: MemoryAttributeClass::DeviceNonGatheringNonReordering,
        attr1: MemoryAttributeClass::NormalWriteBackReadWriteAlloc,
    }
}

/// The translation control this kernel programs: 40-bit intermediate
/// physical addresses, 64 KiB granule, write-back cacheable inner-shareable
/// walks, only the low half of the address space walked.
pub open spec fn spec_translation_control() -> TranslationControl {
    TranslationControl {
        top_byte_ignored: true,
        phys_address_size_bits: 40,
        granule_64_kib: true,
        inner_shareable: true,
        outer_writeback_cacheable: true,
        inner_writeback_cacheable: true,
        ttbr0_walks_enabled: true,
        ttbr1_walks_disabled: true,
        t0sz: (64 - KERNEL_VADDR_SPACE_SIZE_SHIFT) as u64,
    }
}

/// The machine state after a successful enable from state `hw` with table
/// base `base`: attribute table and translation control programmed, base
/// register set, translation and both caches on.
pub open spec fn spec_enabled_hardware(hw: MmuHardware, base: int) -> MmuHardware {
    MmuHardware {
        mmu_enabled: true,
        dcache_enabled: true,
        icache_enabled: true,
        granule64_supported: hw.granule64_supported,
        mair: Some(spec_mair_config()),
        tcr: Some(spec_translation_control()),
        ttbr0_base: Some(base as usize),
    }
}

/// What `enable_mmu_and_caching` does: a regime that is already active is
/// reported as `AlreadyEnabled` and nothing is reprogrammed; an unsupported
/// granule is reported and nothing is reprogrammed; otherwise the machine
/// state becomes `spec_enabled_hardware`.
pub open spec fn spec_enable_ens(
    pre: MmuHardware,
    post: MmuHardware,
    base: int,
    r: Result<(), MMUEnableError>,
) -> bool {
    &&& (r is Ok <==> !pre.mmu_enabled && pre.granule64_supported)
    &&& (pre.mmu_enabled ==> r is Err && r->Err_0 is AlreadyEnabled && post == pre)
    &&& (!pre.mmu_enabled && !pre.granule64_supported ==> r is Err && r->Err_0 is Other
        && r->Err_0->Other_0@ == "Translation granule not supported in HW"@ && post == pre)
    &&& (r is Ok ==> post == spec_enabled_hardware(pre, base))
}

/// MMU functions.
pub trait MemoryManagementUnit {
    /// Turns on the MMU for the first time and enables data and instruction
    /// caching, against the machine state `hw`.
    fn enable_mmu_and_caching(
        &self,
        hw: &mut MmuHardware,
        phys_tables_base_addr: Address<Physical>,
    ) -> (r: Result<(), MMUEnableError>)
        ensures
            spec_enable_ens(*old(hw), *final(hw), phys_tables_base_addr@, r),
    ;

    /// Returns true if the MMU is enabled, false otherwise.
    fn is_enabled(&self, hw: &MmuHardware) -> (r: bool)
        ensures
            r == hw.mmu_enabled,
    ;
}

/// Memory Management Unit type.
pub struct Aarch64Mmu;

impl MemoryManagementUnit for Aarch64Mmu {
    fn enable_mmu_and_caching(
        &self,
        hw: &mut MmuHardware,
        phys_tables_base_addr: Address<Physical>,
    ) -> (r: Result<(), MMUEnableError>) {
        if self.is_enabled(hw) {
            return Err(MMUEnableError::AlreadyEnabled);
        }
        // Fail early if the translation granule is not supported.
        if !hw.granule64_supported {
            return Err(MMUEnableError::Other("Translation granule not supported in HW"));
        }
        // Prepare the memory attribute indirection register.
        hw.mair = Some(
            MairConfig {
                attr0: MemoryAttributeClass::DeviceNonGatheringNonReordering,
                attr1: MemoryAttributeClass::NormalWriteBackReadWriteAlloc,
            },
        );
        // Set the translation table base register.
        hw.ttbr0_base = Some(phys_tables_base_addr.as_usize());
        // Configure stage 1 of the translation regime.
        hw.tcr = Some(
            TranslationControl {
                top_byte_ignored: true,
                phys_address_size_bits: 40,
                granule_64_kib: true,
                inner_shareable: true,
                outer_writeback_cacheable: true,
                inner_writeback_cacheable: true,
                ttbr0_walks_enabled: true,
                ttbr1_walks_disabled: true,
                t0sz: (64 - KERNEL_VADDR_SPACE_SIZE_SHIFT) as u64,
            },
        );
        // Switch the MMU on and turn on data and instruction caching. The
        // outside layer brackets this state change with synchronization
        // barriers.
        hw.mmu_enabled = true;
        hw.dcache_enabled = true;
        hw.icache_enabled = true;
        Ok(())
    }

    fn is_enabled(&self, hw: &MmuHardware) -> (r: bool) {
        hw.mmu_enabled
    }
}

/// Enable the MMU and data + instruction caching: the crucial one-shot
/// activation during kernel init, against the machine state `hw`.
pub fn enable_mmu_and_caching(
    hw: &mut MmuHardware,
    phys_tables_base_addr: Address<Physical>,
) -> (r: Result<(), MMUEnableError>)
    ensures
        spec_enable_ens(*old(hw), *final(hw), phys_tables_base_addr@, r),
{
    let mmu = Aarch64Mmu;
    mmu.enable_mmu_and_caching(hw, phys_tables_base_addr)
}

/// Enabling twice: once the regime is active, a second enable reports
/// `AlreadyEnabled` and reprograms nothing, whatever base it is given.
pub proof fn lemma_enable_twice(
    hw0: MmuHardware,
    hw1: MmuHardware,
    base1: int,
    hw2: MmuHardware,
    base2: int,
    r2: Result<(), MMUEnableError>,
)
    requires
        spec_enable_ens(hw0, hw1, base1, Ok(())),
        spec_enable_ens(hw1, hw2, base2, r2),
    ensures
        r2 is Err && r2->Err_0 is AlreadyEnabled,
        hw2 == hw1,
{
}

} // verus!
