//! The Local APIC NMI structure of the MADT.
use crate::efi::acpi::madt::int_ctrl::IntCtrlHeader;
use crate::efi::acpi::madt::int_src_ovr::{mps_polarity, mps_trigger_mode};
use crate::efi::EfiError;
use crate::mem::{le_u16, u16_at, PhysMem};
use vstd::prelude::*;

verus! {

/// Size in bytes of a Local APIC NMI structure.
pub const LOCAL_APIC_NMI_SIZE: usize = 6;

/// Names the local APIC input that the non-maskable interrupt of a
/// processor is connected to.
#[derive(Clone, Copy, Debug, PartialEq, Eq, Structural)]
pub struct LocalApicNmi {
    /// Type and length of the structure.
    pub header: IntCtrlHeader,
    /// Identifier of the processor object; `0xff` stands for all
    /// processors.
    pub acpi_proc_uid: u8,
    /// Bits 0 and 1: polarity of the signal. Bits 2 and 3: trigger mode.
    pub flags: u16,
    /// Number of the local APIC input that the interrupt is connected to.
    pub local_apic_lintn: u8,
}

impl LocalApicNmi {
    /// The structure stored in the first 6 bytes of `s`.
    pub open spec fn decode(s: Seq<u8>) -> LocalApicNmi {
        LocalApicNmi {
            header: IntCtrlHeader::decode(s),
            acpi_proc_uid: s[2],
            flags: le_u16(s, 3),
            local_apic_lintn: s[5],
        }
    }

    /// What reading the structure at `addr` gives.
    pub open spec fn parse(mem: PhysMem, addr: u64) -> Result<LocalApicNmi, EfiError> {
        if mem.covers(addr, 6) {
            Ok(Self::decode(mem.span(addr, 6)))
        } else {
            Err(EfiError::OutOfBounds)
        }
    }

    /// Reads and decodes the structure at `addr`.
    pub fn from_addr(mem: &PhysMem, addr: u64) -> (r: Result<Self, EfiError>)
        ensures
            r == Self::parse(*mem, addr),
    {
        match mem.slice(addr, LOCAL_APIC_NMI_SIZE) {
            None => Err(EfiError::OutOfBounds),
            Some(s) => Ok(
                LocalApicNmi {
                    header: IntCtrlHeader::from_slice(s),
                    acpi_proc_uid: s[2],
                    flags: u16_at(s, 3),
                    local_apic_lintn: s[5],
                },
            ),
        }
    }

    /// Polarity of the signal: bits 0 and 1 of the flags.
    pub fn polarity(&self) -> (r: u16)
        ensures
            r == mps_polarity(self.flags),
    {
        self.flags % 4
    }

    /// Trigger mode of the signal: bits 2 and 3 of the flags.
    pub fn trigger_mode(&self) -> (r: u16)
        ensures
            r == mps_trigger_mode(self.flags),
    {
        self.flags / 4 % 4
    }
}

} // verus!
