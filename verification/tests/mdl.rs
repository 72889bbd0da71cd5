use windows_kernel_rs::mdl::{MDL, MDL_MAPPED_TO_SYSTEM_VA, MDL_SOURCE_IS_NONPAGED_POOL, MmGetSystemAddressForMdlSafe, SystemAddress};

fn mdl(flags: u16) -> MDL {
    MDL { Next: 0, Size: 48, MdlFlags: flags, Process: 0, MappedSystemVa: 0xdead_0000, StartVa: 0x1000, ByteCount: 16, ByteOffset: 0 }
}

#[test]
fn no_mdl_is_null() {
    assert_eq!(MmGetSystemAddressForMdlSafe(None, 16), SystemAddress::Null);
}

#[test]
fn mapped_or_nonpaged_mdl_uses_its_address() {
    assert_eq!(MmGetSystemAddressForMdlSafe(Some(&mdl(MDL_MAPPED_TO_SYSTEM_VA)), 16), SystemAddress::Mapped(0xdead_0000));
    assert_eq!(MmGetSystemAddressForMdlSafe(Some(&mdl(MDL_SOURCE_IS_NONPAGED_POOL)), 16), SystemAddress::Mapped(0xdead_0000));
    assert_eq!(MmGetSystemAddressForMdlSafe(Some(&mdl(0x0005)), 16), SystemAddress::Mapped(0xdead_0000));
}

#[test]
fn other_mdl_is_mapped() {
    assert_eq!(MmGetSystemAddressForMdlSafe(Some(&mdl(0x0002)), 16), SystemAddress::MapLockedPages { priority: 16 });
    assert_eq!(MmGetSystemAddressForMdlSafe(Some(&mdl(0)), 32), SystemAddress::MapLockedPages { priority: 32 });
}
