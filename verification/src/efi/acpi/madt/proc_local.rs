//! The Processor Local APIC structure of the MADT.
use crate::efi::acpi::madt::int_ctrl::IntCtrlHeader;
use crate::efi::EfiError;
use crate::mem::{le_u32, u32_at, PhysMem};
use vstd::prelude::*;

verus! {

/// Size in bytes of a Processor Local APIC structure.
pub const PROC_LOCAL_APIC_SIZE: usize = 8;

/// Describes the local interrupt controller of one processor.
#[derive(Clone, Copy, Debug, PartialEq, Eq, Structural)]
pub struct ProcLocalApic {
    /// Type and length of the structure.
    pub header: IntCtrlHeader,
    /// Identifier of the processor object that the structure belongs to.
    pub acpi_processor_uid: u8,
    /// Identifier of the processor's local APIC.
    pub apic_id: u8,
    /// Bit 0: the processor is ready for use. Bit 1: the processor can be
    /// enabled while the system runs.
    pub flags: u32,
}

impl ProcLocalApic {
    /// The structure stored in the first 8 bytes of `s`.
    pub open spec fn decode(s: Seq<u8>) -> ProcLocalApic {
        ProcLocalApic {
            header: IntCtrlHeader::decode(s),
            acpi_processor_uid: s[2],
            apic_id: s[3],
            flags: le_u32(s, 4),
        }
    }

    /// What reading the structure at `addr` gives.
    pub open spec fn parse(mem: PhysMem, addr: u64) -> Result<ProcLocalApic, EfiError> {
        if mem.covers(addr, 8) {
            Ok(Self::decode(mem.span(addr, 8)))
        } else {
            Err(EfiError::OutOfBounds)
        }
    }

    /// Bit 0 of the flags: the processor is ready for use.
    pub open spec fn enabled(self) -> bool {
        self.flags % 2 == 1
    }

    /// Bit 1 of the flags: the processor can be enabled while the system
    /// runs.
    pub open spec fn online_capable(self) -> bool {
        self.flags / 2 % 2 == 1
    }

    /// Reads and decodes the structure at `addr`.
    pub fn from_addr(mem: &PhysMem, addr: u64) -> (r: Result<Self, EfiError>)
        ensures
            r == Self::parse(*mem, addr),
    {
        match mem.slice(addr, PROC_LOCAL_APIC_SIZE) {
            None => Err(EfiError::OutOfBounds),
            Some(s) => Ok(
                ProcLocalApic {
                    header: IntCtrlHeader::from_slice(s),
                    acpi_processor_uid: s[2],
                    apic_id: s[3],
                    flags: u32_at(s, 4),
                },
            ),
        }
    }

    /// Whether the processor is ready for use.
    pub fn is_enabled(&self) -> (r: bool)
        ensures
            r == self.enabled(),
    {
        self.flags % 2 == 1
    }

    /// Whether the processor can be enabled while the system runs.
    pub fn is_online_capable(&self) -> (r: bool)
        ensures
            r == self.online_capable(),
    {
        self.flags / 2 % 2 == 1
    }
}

} // verus!
