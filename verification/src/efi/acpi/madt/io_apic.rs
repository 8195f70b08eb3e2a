//! The I/O APIC structure of the MADT.
use crate::efi::acpi::madt::int_ctrl::IntCtrlHeader;
use crate::efi::EfiError;
use crate::mem::{le_u32, u32_at, PhysMem};
use vstd::prelude::*;

verus! {

/// Size in bytes of an I/O APIC structure.
pub const IN_OUT_APIC_SIZE: usize = 12;

/// Declares one I/O APIC and the global system interrupts that its inputs
/// are mapped to.
#[derive(Clone, Copy, Debug, PartialEq, Eq, Structural)]
pub struct InOutApic {
    /// Type and length of the structure.
    pub header: IntCtrlHeader,
    /// Identifier of the I/O APIC.
    pub io_apic_id: u8,
    /// Reserved, zero.
    pub reserved: u8,
    /// Physical address at which the I/O APIC is accessed.
    pub io_apic_addr: u32,
    /// Number of the global system interrupt at which the inputs of this
    /// I/O APIC start.
    pub global_system_int_base: u32,
}

impl InOutApic {
    /// The structure stored in the first 12 bytes of `s`.
    pub open spec fn decode(s: Seq<u8>) -> InOutApic {
        InOutApic {
            header: IntCtrlHeader::decode(s),
            io_apic_id: s[2],
            reserved: s[3],
            io_apic_addr: le_u32(s, 4),
            global_system_int_base: le_u32(s, 8),
        }
    }

    /// What reading the structure at `addr` gives.
    pub open spec fn parse(mem: PhysMem, addr: u64) -> Result<InOutApic, EfiError> {
        if mem.covers(addr, 12) {
            Ok(Self::decode(mem.span(addr, 12)))
        } else {
            Err(EfiError::OutOfBounds)
        }
    }

    /// Reads and decodes the structure at `addr`.
    pub fn from_addr(mem: &PhysMem, addr: u64) -> (r: Result<Self, EfiError>)
        ensures
            r == Self::parse(*mem, addr),
    {
        match mem.slice(addr, IN_OUT_APIC_SIZE) {
            None => Err(EfiError::OutOfBounds),
            Some(s) => Ok(
                InOutApic {
                    header: IntCtrlHeader::from_slice(s),
                    io_apic_id: s[2],
                    reserved: s[3],
                    io_apic_addr: u32_at(s, 4),
                    global_system_int_base: u32_at(s, 8),
                },
            ),
        }
    }
}

} // verus!
