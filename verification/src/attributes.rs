//! Architecture-agnostic memory attributes: the page protection and caching
//! intent that a mapping request carries.

use vstd::prelude::*;

verus! {

/// Architecture agnostic memory attributes.
#[derive(Copy, Clone, Debug, PartialEq, Eq, Structural)]
pub enum MemAttributes {
    CacheableDRAM,
    Device,
}

/// Architecture agnostic access permissions.
#[derive(Copy, Clone, Debug, PartialEq, Eq, Structural)]
pub enum AccessPermissions {
    ReadOnly,
    ReadWrite,
}

/// Collection of memory attributes.
#[derive(Copy, Clone, Debug, PartialEq, Eq, Structural)]
pub struct AttributeFields {
    pub mem_attributes: MemAttributes,
    pub acc_perms: AccessPermissions,
    pub execute_never: bool,
}

impl AttributeFields {
    /// The default intent: cacheable DRAM, read-write, never executable.
    pub fn new_default() -> (r: Self)
        ensures
            r.mem_attributes == MemAttributes::CacheableDRAM,
            r.acc_perms == AccessPermissions::ReadWrite,
            r.execute_never,
    {
        AttributeFields {
            mem_attributes: MemAttributes::CacheableDRAM,
            acc_perms: AccessPermissions::ReadWrite,
            execute_never: true,
        }
    }
}

impl Default for AttributeFields {
    /// The default intent: cacheable DRAM, read-write, never executable.
    fn default() -> (r: Self)
        ensures
            r.mem_attributes == MemAttributes::CacheableDRAM,
            r.acc_perms == AccessPermissions::ReadWrite,
            r.execute_never,
    {
        AttributeFields::new_default()
    }
}

} // verus!
