//! The Interrupt Source Override structure of the MADT.
use crate::efi::acpi::madt::int_ctrl::IntCtrlHeader;
use crate::efi::EfiError;
use crate::mem::{le_u16, le_u32, u16_at, u32_at, PhysMem};
use vstd::prelude::*;

verus! {

/// Size in bytes of an Interrupt Source Override structure.
pub const INT_SRC_OVERRIDE_SIZE: usize = 10;

/// Describes one exception to the identity mapping of the ISA interrupts
/// onto the first inputs of the I/O APIC.
#[derive(Clone, Copy, Debug, PartialEq, Eq, Structural)]
pub struct IntSrcOverride {
    /// Type and length of the structure.
    pub header: IntCtrlHeader,
    /// The bus of the source; zero, which means ISA.
    pub bus: u8,
    /// Interrupt source, relative to the bus.
    pub source: u8,
    /// The global system interrupt that the source signals.
    pub global_sys_int: u32,
    /// Bits 0 and 1: polarity of the signal. Bits 2 and 3: trigger mode.
    pub flags: u16,
}

impl IntSrcOverride {
    /// The structure stored in the first 10 bytes of `s`.
    pub open spec fn decode(s: Seq<u8>) -> IntSrcOverride {
        IntSrcOverride {
            header: IntCtrlHeader::decode(s),
            bus: s[2],
            source: s[3],
            global_sys_int: le_u32(s, 4),
            flags: le_u16(s, 8),
        }
    }

    /// What reading the structure at `addr` gives.
    pub open spec fn parse(mem: PhysMem, addr: u64) -> Result<IntSrcOverride, EfiError> {
        if mem.covers(addr, 10) {
            Ok(Self::decode(mem.span(addr, 10)))
        } else {
            Err(EfiError::OutOfBounds)
        }
    }

    /// Reads and decodes the structure at `addr`.
    pub fn from_addr(mem: &PhysMem, addr: u64) -> (r: Result<Self, EfiError>)
        ensures
            r == Self::parse(*mem, addr),
    {
        match mem.slice(addr, INT_SRC_OVERRIDE_SIZE) {
            None => Err(EfiError::OutOfBounds),
            Some(s) => Ok(
                IntSrcOverride {
                    header: IntCtrlHeader::from_slice(s),
                    bus: s[2],
                    source: s[3],
                    global_sys_int: u32_at(s, 4),
                    flags: u16_at(s, 8),
                },
            ),
        }
    }

    /// Polarity of the signal: bits 0 and 1 of the flags.
    pub fn polarity(&self) -> (r: u16)
        ensures
            r == mps_polarity(self.flags),
    {
        self.flags % 4
    }

    /// Trigger mode of the signal: bits 2 and 3 of the flags.
    pub fn trigger_mode(&self) -> (r: u16)
        ensures
            r == mps_trigger_mode(self.flags),
    {
        self.flags / 4 % 4
    }
}

/// Polarity in a set of MPS INTI flags: the number in bits 0 and 1.
pub open spec fn mps_polarity(flags: u16) -> u16 {
    flags % 4
}

/// Trigger mode in a set of MPS INTI flags: the number in bits 2 and 3.
pub open spec fn mps_trigger_mode(flags: u16) -> u16 {
    flags / 4 % 4
}

} // verus!
