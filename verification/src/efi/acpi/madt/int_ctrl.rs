//! The interrupt controller structures that a MADT lists, and how one is
//! told from another.
use crate::efi::acpi::madt::int_src_ovr::IntSrcOverride;
use crate::efi::acpi::madt::io_apic::InOutApic;
use crate::efi::acpi::madt::local_apic_nmi::LocalApicNmi;
use crate::efi::acpi::madt::proc_local::ProcLocalApic;
use crate::efi::EfiError;
use crate::mem::PhysMem;
use vstd::prelude::*;

verus! {

/// Type of a Processor Local APIC structure.
pub const PROCESSOR_LOCAL_APIC: u8 = 0;

/// Type of an I/O APIC structure.
pub const IN_OUT_APIC: u8 = 1;

/// Type of an Interrupt Source Override structure.
pub const INTERRUPT_SOURCE_OVERRIDE: u8 = 2;

/// Type of a Non-Maskable Interrupt Source structure.
pub const NON_MASKABLE_INTERRUPT: u8 = 3;

/// Type of a Local APIC NMI structure.
pub const LOCAL_APIC_NMI: u8 = 4;

/// Size in bytes of the two fields that every structure begins with.
pub const INT_CTRL_HEADER_SIZE: usize = 2;

/// The fields that every interrupt controller structure begins with.
#[derive(Clone, Copy, Debug, PartialEq, Eq, Structural)]
pub struct IntCtrlHeader {
    /// Type of the structure.
    pub ctrl_type: u8,
    /// Length of the structure in bytes, these two fields included.
    pub length: u8,
}

impl IntCtrlHeader {
    /// The fields stored in the first 2 bytes of `s`.
    pub open spec fn decode(s: Seq<u8>) -> IntCtrlHeader {
        IntCtrlHeader { ctrl_type: s[0], length: s[1] }
    }

    pub(crate) fn from_slice(s: &[u8]) -> (header: Self)
        requires
            s@.len() >= 2,
        ensures
            header == Self::decode(s@),
    {
        IntCtrlHeader { ctrl_type: s[0], length: s[1] }
    }
}

/// One interrupt controller structure of a MADT.
#[derive(Clone, Copy, Debug, PartialEq, Eq, Structural)]
pub enum IntCtrl {
    /// The local interrupt controller of a processor.
    ProcLocalApic(ProcLocalApic),
    /// An I/O APIC.
    InOutApic(InOutApic),
    /// An exception to the identity mapping of the ISA interrupts.
    IntSrcOverride(IntSrcOverride),
    /// A non-maskable interrupt source; none of its fields is decoded.
    NmiSrc,
    /// The local APIC input of a non-maskable interrupt.
    LocalApicNmi(LocalApicNmi),
    /// A structure of a type that is not decoded, with that type.
    Unknown(u8),
}

impl IntCtrl {
    /// Number of bytes that are decoded of a structure of type
    /// `ctrl_type`: the size of its layout where the type is decoded, and
    /// zero where it is not.
    pub open spec fn decoded_size(ctrl_type: u8) -> int {
        if ctrl_type == PROCESSOR_LOCAL_APIC {
            8
        } else if ctrl_type == IN_OUT_APIC {
            12
        } else if ctrl_type == INTERRUPT_SOURCE_OVERRIDE {
            10
        } else if ctrl_type == LOCAL_APIC_NMI {
            6
        } else {
            0
        }
    }

    /// The structure of type `ctrl_type` that the bytes `s` store.
    pub open spec fn decode(s: Seq<u8>, ctrl_type: u8) -> IntCtrl {
        if ctrl_type == PROCESSOR_LOCAL_APIC {
            IntCtrl::ProcLocalApic(ProcLocalApic::decode(s))
        } else if ctrl_type == IN_OUT_APIC {
            IntCtrl::InOutApic(InOutApic::decode(s))
        } else if ctrl_type == INTERRUPT_SOURCE_OVERRIDE {
            IntCtrl::IntSrcOverride(IntSrcOverride::decode(s))
        } else if ctrl_type == NON_MASKABLE_INTERRUPT {
            IntCtrl::NmiSrc
        } else if ctrl_type == LOCAL_APIC_NMI {
            IntCtrl::LocalApicNmi(LocalApicNmi::decode(s))
        } else {
            IntCtrl::Unknown(ctrl_type)
        }
    }

    /// What reading a structure of type `ctrl_type` at `addr` gives: the
    /// decoded structure, or `OutOfBounds` when the layout of that type
    /// does not lie inside `mem`. A type that is not decoded is never
    /// refused.
    pub open spec fn parse(mem: PhysMem, addr: u64, ctrl_type: u8) -> Result<IntCtrl, EfiError> {
        let size = Self::decoded_size(ctrl_type);
        if size == 0 {
            Ok(Self::decode(Seq::empty(), ctrl_type))
        } else if mem.covers(addr, size) {
            Ok(Self::decode(mem.span(addr, size), ctrl_type))
        } else {
            Err(EfiError::OutOfBounds)
        }
    }

    /// Reads the structure at `addr` as one of type `ctrl_type`.
    pub fn from_type(mem: &PhysMem, addr: u64, ctrl_type: u8) -> (r: Result<Self, EfiError>)
        ensures
            r == Self::parse(*mem, addr, ctrl_type),
    {
        if ctrl_type == PROCESSOR_LOCAL_APIC {
            match ProcLocalApic::from_addr(mem, addr) {
                Ok(apic) => Ok(IntCtrl::ProcLocalApic(apic)),
                Err(e) => Err(e),
            }
        } else if ctrl_type == IN_OUT_APIC {
            match InOutApic::from_addr(mem, addr) {
                Ok(apic) => Ok(IntCtrl::InOutApic(apic)),
                Err(e) => Err(e),
            }
        } else if ctrl_type == INTERRUPT_SOURCE_OVERRIDE {
            match IntSrcOverride::from_addr(mem, addr) {
                Ok(ovr) => Ok(IntCtrl::IntSrcOverride(ovr)),
                Err(e) => Err(e),
            }
        } else if ctrl_type == NON_MASKABLE_INTERRUPT {
            Ok(IntCtrl::NmiSrc)
        } else if ctrl_type == LOCAL_APIC_NMI {
            match LocalApicNmi::from_addr(mem, addr) {
                Ok(nmi) => Ok(IntCtrl::LocalApicNmi(nmi)),
                Err(e) => Err(e),
            }
        } else {
            Ok(IntCtrl::Unknown(ctrl_type))
        }
    }
}

} // verus!
