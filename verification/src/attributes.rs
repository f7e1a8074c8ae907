//! Memory attributes of a mapped region.

use vstd::prelude::*;

verus! {

/// Memory-attribute class of a region: cacheable normal memory for the
/// kernel image, device memory for MMIO.
#[derive(Clone, Copy, Debug, PartialEq, Eq, Structural)]
pub enum MemAttributes {
    CacheableDRAM,
    Device,
}

/// Access-permission class of a region.
#[derive(Clone, Copy, Debug, PartialEq, Eq, Structural)]
pub enum AccessPermissions {
    ReadOnly,
    ReadWrite,
}

/// The permission/caching contract of a mapped region: memory-attribute
/// class, access permissions, and the execute-never flag.
#[derive(Clone, Copy, Debug, PartialEq, Eq, Structural)]
pub struct AttributeFields {
    pub mem_attributes: MemAttributes,
    pub acc_perms: AccessPermissions,
    pub execute_never: bool,
}

} // verus!
