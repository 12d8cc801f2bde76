//! Compile-time granule and address-space sizing.
//!
//! These type-level descriptions carry their size as a const parameter; the
//! checked accessors refuse, by precondition, the sizes the hardware cannot
//! take — a violation is a build-configuration defect, not a runtime
//! condition.

use vstd::prelude::*;

use crate::{L2_SPAN, spec_is_power_of_two};

verus! {

/// Describes the characteristics of a memory block size, such as the
/// translation granule.
pub struct MemorySize<const SIZE: usize>;

impl<const SIZE: usize> MemorySize<SIZE> {
    /// The size, after checking that it is a power of two.
    pub fn size_checked() -> (r: usize)
        requires
            spec_is_power_of_two(SIZE as int),
        ensures
            r == SIZE,
    {
        SIZE
    }
}

/// Describes the characteristics of a translation granule.
pub struct TranslationGranule<const GRANULE_SIZE: usize>;

impl<const GRANULE_SIZE: usize> TranslationGranule<GRANULE_SIZE> {
    /// The granule's size, after checking that it is a power of two.
    pub fn size_checked() -> (r: usize)
        requires
            spec_is_power_of_two(GRANULE_SIZE as int),
        ensures
            r == GRANULE_SIZE,
    {
        GRANULE_SIZE
    }
}

/// Describes properties of an address space.
pub struct AddressSpace<const AS_SIZE: usize>;

impl<const AS_SIZE: usize> AddressSpace<AS_SIZE> {
    /// The address space size, after checking it against the architectural
    /// restrictions: a power of two, at least one full level-2 window, and
    /// no more than the 48 bits of virtual address any ARMv8 supports.
    pub fn size_checked() -> (r: usize)
        requires
            spec_is_power_of_two(AS_SIZE as int),
            AS_SIZE as int % L2_SPAN as int == 0,
            AS_SIZE as int <= 0x1000000000000,
        ensures
            r == AS_SIZE,
    {
        AS_SIZE
    }
}

} // verus!
