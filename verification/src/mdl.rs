//! Memory descriptor lists and the choice of how to reach an MDL's pages
//! from system space.
use vstd::prelude::*;

verus! {

/// The MDL's pages are already mapped into system space.
pub const MDL_MAPPED_TO_SYSTEM_VA: u16 = 0x0001;

/// The MDL describes nonpaged pool, which is always mapped.
pub const MDL_SOURCE_IS_NONPAGED_POOL: u16 = 0x0004;

/// A memory descriptor list, with its pointers held as addresses.
#[derive(Clone, Copy, Debug, PartialEq, Eq, Structural)]
pub struct MDL {
    pub Next: usize,
    pub Size: u16,
    pub MdlFlags: u16,
    pub Process: usize,
    pub MappedSystemVa: usize,
    pub StartVa: usize,
    pub ByteCount: u32,
    pub ByteOffset: u32,
}

/// How to get the system address of an MDL's pages.
#[derive(Clone, Copy, Debug, PartialEq, Eq, Structural)]
pub enum SystemAddress {
    /// There is no MDL: the address is null.
    Null,
    /// The pages are already mapped at this address.
    Mapped(usize),
    /// Map the pages with `MmMapLockedPagesSpecifyCache` (kernel mode,
    /// cached, anywhere, no bug check) at this priority; its result is the
    /// address.
    MapLockedPages { priority: u32 },
}

/// `MmGetSystemAddressForMdlSafe`: no MDL gives null; an MDL already mapped
/// or over nonpaged pool gives its mapped address; any other MDL must be
/// mapped.
pub fn MmGetSystemAddressForMdlSafe(mdl: Option<&MDL>, priority: u32) -> (r: SystemAddress)
    ensures
        mdl is None ==> r == SystemAddress::Null,
        mdl matches Some(m) ==> r == (if m.MdlFlags & (MDL_MAPPED_TO_SYSTEM_VA | MDL_SOURCE_IS_NONPAGED_POOL) != 0 {
            SystemAddress::Mapped(m.MappedSystemVa)
        } else {
            SystemAddress::MapLockedPages { priority }
        }),
{
    match mdl {
        None => SystemAddress::Null,
        Some(m) => {
            if (m.MdlFlags & (MDL_MAPPED_TO_SYSTEM_VA | MDL_SOURCE_IS_NONPAGED_POOL)) != 0 {
                SystemAddress::Mapped(m.MappedSystemVa)
            } else {
                SystemAddress::MapLockedPages { priority }
            }
        },
    }
}

} // verus!
