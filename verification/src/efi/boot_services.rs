//! The boot-services table and the end of boot services.
use crate::efi::status::{EfiStatus, EFI_SUCCESS};
use crate::efi::{EfiError, EfiTableHeader, FirmwareHandle};
use crate::mem::{le_u64, u64_at, PhysMem};
use vstd::prelude::*;

verus! {

/// Signature of the boot-services table: `"BOOTSERV"`.
pub const EFI_BOOT_SERVICES_SIGNATURE: u64 = 0x5652_4553_544f_4f42;

/// Size in bytes of the boot-services table on a 64-bit platform.
pub const EFI_BOOT_SERVICES_TABLE_SIZE: usize = 376;

/// What the boot stage reads of the boot-services table: its header and
/// the entry points of the two services it calls.
#[derive(Clone, Copy, Debug, PartialEq, Eq, Structural)]
pub struct EfiBootServicesTable {
    /// The table header.
    pub hdr: EfiTableHeader,
    /// Entry point of the service that returns the memory map.
    pub get_memory_map: u64,
    /// Entry point of the service that ends boot services.
    pub exit_boot_services: u64,
}

impl EfiBootServicesTable {
    /// The table stored in the first 376 bytes of `s`.
    pub open spec fn decode(s: Seq<u8>) -> EfiBootServicesTable {
        EfiBootServicesTable {
            hdr: EfiTableHeader::decode(s),
            get_memory_map: le_u64(s, 56),
            exit_boot_services: le_u64(s, 232),
        }
    }

    /// What reading a boot-services table at `addr` gives.
    pub open spec fn parse(mem: PhysMem, addr: u64) -> Result<EfiBootServicesTable, EfiError> {
        if mem.covers(addr, 376) {
            Ok(Self::decode(mem.span(addr, 376)))
        } else {
            Err(EfiError::OutOfBounds)
        }
    }

    /// Reads the boot-services table at `addr`.
    pub fn from_addr(mem: &PhysMem, addr: u64) -> (r: Result<Self, EfiError>)
        ensures
            r == Self::parse(*mem, addr),
    {
        match mem.slice(addr, EFI_BOOT_SERVICES_TABLE_SIZE) {
            None => Err(EfiError::OutOfBounds),
            Some(s) => Ok(
                EfiBootServicesTable {
                    hdr: EfiTableHeader::from_slice(s),
                    get_memory_map: u64_at(s, 56),
                    exit_boot_services: u64_at(s, 232),
                },
            ),
        }
    }
}

/// Takes note of how the firmware answered the request to end boot
/// services.
///
/// With an empty handle nothing is done. After a successful end the
/// firmware's tables are no longer to be used, and the handle is emptied.
/// Any other status is an error and leaves the handle as it was.
pub fn exit_boot_services(handle: &mut FirmwareHandle, status: EfiStatus) -> (r: Result<
    bool,
    EfiError,
>)
    ensures
        old(handle)@ is None ==> r == Ok::<bool, EfiError>(false) && final(handle)@ is None,
        old(handle)@ is Some && status == EFI_SUCCESS ==> r == Ok::<bool, EfiError>(true)
            && final(handle)@ is None,
        old(handle)@ is Some && status != EFI_SUCCESS ==> r == Err::<bool, EfiError>(
            EfiError::ExitBootServices,
        ) && final(handle)@ == old(handle)@,
{
    if !handle.is_installed() {
        return Ok(false);
    }
    if status != EFI_SUCCESS {
        return Err(EfiError::ExitBootServices);
    }
    handle.clear();
    Ok(true)
}

} // verus!
