//! Verified core of a UEFI boot stage.
//!
//! The crate decodes the firmware's memory map and walks the ACPI table
//! hierarchy. Every firmware structure is read through [`mem::PhysMem`], a
//! bounds-checked view of physical memory, so no function here touches raw
//! memory or panics on malformed tables.
pub mod cpu;
pub mod efi;
pub mod mem;
pub mod print;
