//! The firmware's root tables and the handle through which every other
//! component reaches them.
pub mod acpi;
pub mod boot_services;
pub mod malloc;
pub mod status;

pub use crate::efi::boot_services::exit_boot_services;

use crate::mem::{le_u128, le_u32, le_u64, u128_at, u32_at, u64_at, PhysMem};
use vstd::prelude::*;

verus! {

/// Why an operation on firmware data was refused.
#[derive(Clone, Copy, Debug, PartialEq, Eq, Structural)]
pub enum EfiError {
    /// A signature did not match, or a decoded structure breaks an
    /// invariant of its layout.
    Validation,
    /// The memory-map service kept asking for a larger buffer, or returned
    /// a status that the protocol does not expect.
    SizeNegotiation,
    /// The memory-map service rejected its arguments.
    InvalidParameter,
    /// A structure does not lie inside the readable memory.
    OutOfBounds,
    /// The firmware did not end boot services when asked to.
    ExitBootServices,
}

/// Signature in the first field of the system table: `"IBI SYST"`.
pub const EFI_SYSTEM_TABLE_SIGNATURE: u64 = 0x5453_5953_2049_4249;

/// Size in bytes of a table header.
pub const EFI_TABLE_HEADER_SIZE: usize = 24;

/// Size in bytes of the system table on a 64-bit platform.
pub const EFI_SYSTEM_TABLE_SIZE: usize = 120;

/// Size in bytes of one entry of the configuration-table directory.
pub const EFI_CONFIGURATION_TABLE_ENTRY_SIZE: usize = 24;

/// Vendor identifier of the ACPI 2.0 root pointer in the
/// configuration-table directory.
pub const EFI_ACPI_20_TABLE_GUID: u128 = 0x81883cc7_800022bc_11d3e4f1_8868e871;

/// Data structure that precedes all of the standard EFI table types.
#[derive(Clone, Copy, Debug, PartialEq, Eq, Structural)]
pub struct EfiTableHeader {
    /// Identifies the type of table that follows.
    pub signature: u64,
    /// Revision of the EFI specification to which the table conforms.
    pub revision: u32,
    /// Size in bytes of the entire table, this header included.
    pub header_size: u32,
    /// CRC of the entire table.
    pub crc32: u32,
    /// Reserved, zero.
    pub reserved: u32,
}

impl EfiTableHeader {
    /// The header stored in the first 24 bytes of `s`.
    pub open spec fn decode(s: Seq<u8>) -> EfiTableHeader {
        EfiTableHeader {
            signature: le_u64(s, 0),
            revision: le_u32(s, 8),
            header_size: le_u32(s, 12),
            crc32: le_u32(s, 16),
            reserved: le_u32(s, 20),
        }
    }

    pub(crate) fn from_slice(s: &[u8]) -> (hdr: Self)
        requires
            s@.len() >= 24,
        ensures
            hdr == Self::decode(s@),
    {
        EfiTableHeader {
            signature: u64_at(s, 0),
            revision: u32_at(s, 8),
            header_size: u32_at(s, 12),
            crc32: u32_at(s, 16),
            reserved: u32_at(s, 20),
        }
    }

    /// The signature that identifies the table.
    pub fn signature(&self) -> (r: u64)
        ensures
            r == self.signature,
    {
        self.signature
    }

    /// The revision of the EFI specification the table conforms to.
    pub fn revision(&self) -> (r: u32)
        ensures
            r == self.revision,
    {
        self.revision
    }
}

/// What the boot stage reads of the firmware's system table: its header and
/// the addresses of the services and directories it points to.
#[derive(Clone, Copy, Debug, PartialEq, Eq, Structural)]
pub struct EfiSystemTable {
    /// The table header.
    pub hdr: EfiTableHeader,
    /// Address of the text-output interface of the active console.
    pub con_out: u64,
    /// Address of the boot-services table.
    pub boot_services: u64,
    /// Number of entries in the configuration-table directory.
    pub ntable_entries: u64,
    /// Address of the configuration-table directory.
    pub config_table: u64,
}

impl EfiSystemTable {
    /// The system table stored in the first 120 bytes of `s`.
    pub open spec fn decode(s: Seq<u8>) -> EfiSystemTable {
        EfiSystemTable {
            hdr: EfiTableHeader::decode(s),
            con_out: le_u64(s, 64),
            boot_services: le_u64(s, 96),
            ntable_entries: le_u64(s, 104),
            config_table: le_u64(s, 112),
        }
    }

    /// What reading a system table at `addr` gives.
    pub open spec fn parse(mem: PhysMem, addr: u64) -> Result<EfiSystemTable, EfiError> {
        if mem.covers(addr, 120) {
            Ok(Self::decode(mem.span(addr, 120)))
        } else {
            Err(EfiError::OutOfBounds)
        }
    }

    /// Reads the system table at `addr`, without judging its signature.
    pub fn from_addr(mem: &PhysMem, addr: u64) -> (r: Result<Self, EfiError>)
        ensures
            r == Self::parse(*mem, addr),
    {
        match mem.slice(addr, EFI_SYSTEM_TABLE_SIZE) {
            None => Err(EfiError::OutOfBounds),
            Some(s) => Ok(
                EfiSystemTable {
                    hdr: EfiTableHeader::from_slice(s),
                    con_out: u64_at(s, 64),
                    boot_services: u64_at(s, 96),
                    ntable_entries: u64_at(s, 104),
                    config_table: u64_at(s, 112),
                },
            ),
        }
    }
}

/// Size in bytes of the text-output interface on a 64-bit platform.
pub const EFI_SIMPLE_TEXT_OUTPUT_PROTOCOL_SIZE: usize = 80;

/// What the boot stage reads of the text-output interface of a console:
/// the entry points of the two services it may call.
#[derive(Clone, Copy, Debug, PartialEq, Eq, Structural)]
pub struct EfiSimpleTextOutputProtocol {
    /// Entry point of the service that resets the console.
    pub reset: u64,
    /// Entry point of the service that writes a string at the cursor.
    pub output_string: u64,
}

impl EfiSimpleTextOutputProtocol {
    /// The interface stored in the first 80 bytes of `s`.
    pub open spec fn decode(s: Seq<u8>) -> EfiSimpleTextOutputProtocol {
        EfiSimpleTextOutputProtocol { reset: le_u64(s, 0), output_string: le_u64(s, 8) }
    }

    /// What reading the interface at `addr` gives.
    pub open spec fn parse(mem: PhysMem, addr: u64) -> Result<EfiSimpleTextOutputProtocol, EfiError> {
        if mem.covers(addr, 80) {
            Ok(Self::decode(mem.span(addr, 80)))
        } else {
            Err(EfiError::OutOfBounds)
        }
    }

    /// Reads the interface at `addr`.
    pub fn from_addr(mem: &PhysMem, addr: u64) -> (r: Result<Self, EfiError>)
        ensures
            r == Self::parse(*mem, addr),
    {
        match mem.slice(addr, EFI_SIMPLE_TEXT_OUTPUT_PROTOCOL_SIZE) {
            None => Err(EfiError::OutOfBounds),
            Some(s) => Ok(
                EfiSimpleTextOutputProtocol { reset: u64_at(s, 0), output_string: u64_at(s, 8) },
            ),
        }
    }
}

/// The firmware's system table, once validated and installed.
///
/// A handle starts empty, takes the first table that passes
/// [`initialize_system_table`], and keeps it until boot services end.
pub struct FirmwareHandle {
    installed: Option<(u64, EfiSystemTable)>,
}

impl View for FirmwareHandle {
    type V = Option<(u64, EfiSystemTable)>;

    /// The address and content of the installed table, if any.
    closed spec fn view(&self) -> Option<(u64, EfiSystemTable)> {
        self.installed
    }
}

impl FirmwareHandle {
    #[verifier::type_invariant]
    spec fn validated(self) -> bool {
        self.installed matches Some((_, table)) ==> table.hdr.signature
            == EFI_SYSTEM_TABLE_SIGNATURE
    }

    /// A handle with no table installed.
    pub fn new() -> (handle: Self)
        ensures
            handle@ is None,
    {
        FirmwareHandle { installed: None }
    }

    pub(crate) fn clear(&mut self)
        ensures
            final(self)@ is None,
    {
        self.installed = None;
    }

    /// Whether a table is installed.
    pub fn is_installed(&self) -> (r: bool)
        ensures
            r <==> self@ is Some,
    {
        self.installed.is_some()
    }

    /// The address the installed table was read from.
    pub fn address(&self) -> (r: Option<u64>)
        ensures
            r == match self@ {
                Some((addr, _)) => Some(addr),
                None => None,
            },
    {
        match self.installed {
            Some((addr, _)) => Some(addr),
            None => None,
        }
    }

    /// The installed table, which always carries the system-table
    /// signature.
    pub fn system_table(&self) -> (r: Option<EfiSystemTable>)
        ensures
            r == match self@ {
                Some((_, table)) => Some(table),
                None => None,
            },
            r matches Some(table) ==> table.hdr.signature == EFI_SYSTEM_TABLE_SIGNATURE,
    {
        proof {
            use_type_invariant(self);
        }
        match self.installed {
            Some((_, table)) => Some(table),
            None => None,
        }
    }
}

/// Validates the system table at `system_table` and installs it in `handle`
/// if the handle is still empty.
///
/// A table that cannot be read or whose signature is wrong is refused and
/// the handle is left as it was. With a table already installed, a valid
/// second table is not an error: the handle keeps the first and the result
/// is `Ok(false)`.
pub fn initialize_system_table(handle: &mut FirmwareHandle, mem: &PhysMem, system_table: u64) -> (r:
    Result<bool, EfiError>)
    ensures
        match EfiSystemTable::parse(*mem, system_table) {
            Err(e) => r == Err::<bool, EfiError>(e) && final(handle)@ == old(handle)@,
            Ok(table) => if table.hdr.signature != EFI_SYSTEM_TABLE_SIGNATURE {
                r == Err::<bool, EfiError>(EfiError::Validation) && final(handle)@ == old(handle)@
            } else if old(handle)@ is None {
                r == Ok::<bool, EfiError>(true) && final(handle)@ == Some((system_table, table))
            } else {
                r == Ok::<bool, EfiError>(false) && final(handle)@ == old(handle)@
            },
        },
{
    let table = match EfiSystemTable::from_addr(mem, system_table) {
        Ok(table) => table,
        Err(e) => {
            return Err(e);
        },
    };
    if table.hdr.signature() != EFI_SYSTEM_TABLE_SIGNATURE {
        return Err(EfiError::Validation);
    }
    if handle.installed.is_some() {
        return Ok(false);
    }
    handle.installed = Some((system_table, table));
    Ok(true)
}

/// One entry of the configuration-table directory.
#[derive(Clone, Copy, Debug, PartialEq, Eq, Structural)]
pub struct EfiConfigurationTableEntry {
    /// Identifies the configuration table.
    pub vendor_guid: u128,
    /// Address of the table associated with `vendor_guid`.
    pub vendor_table: u64,
}

impl EfiConfigurationTableEntry {
    /// The entry stored in the first 24 bytes of `s`.
    pub open spec fn decode(s: Seq<u8>) -> EfiConfigurationTableEntry {
        EfiConfigurationTableEntry { vendor_guid: le_u128(s, 0), vendor_table: le_u64(s, 16) }
    }

    /// Entry `index` of the directory at `base`, or `None` when it does not
    /// lie inside `mem`.
    pub open spec fn entry_at(mem: PhysMem, base: u64, index: int) -> Option<
        EfiConfigurationTableEntry,
    > {
        let addr = base + index * 24;
        if addr <= u64::MAX && mem.covers(addr as u64, 24) {
            Some(Self::decode(mem.span(addr as u64, 24)))
        } else {
            None
        }
    }

    /// Reads the entry at `addr`.
    pub fn from_addr(mem: &PhysMem, addr: u64) -> (r: Option<Self>)
        ensures
            r is Some <==> mem.covers(addr, 24),
            r matches Some(e) ==> e == Self::decode(mem.span(addr, 24)),
    {
        match mem.slice(addr, EFI_CONFIGURATION_TABLE_ENTRY_SIZE) {
            None => None,
            Some(s) => Some(
                EfiConfigurationTableEntry { vendor_guid: u128_at(s, 0), vendor_table: u64_at(s, 16) },
            ),
        }
    }
}

/// What a linear scan of entries `from..count` of the directory at `base`
/// finds: the table of the first entry with the ACPI 2.0 identifier, nothing
/// if there is none, or an error if an entry before it cannot be read.
pub open spec fn scan_config_table(mem: PhysMem, base: u64, count: int, from: int) -> Result<
    Option<u64>,
    EfiError,
>
    decreases count - from,
{
    if from >= count {
        Ok(None)
    } else {
        match EfiConfigurationTableEntry::entry_at(mem, base, from) {
            None => Err(EfiError::OutOfBounds),
            Some(entry) => if entry.vendor_guid == EFI_ACPI_20_TABLE_GUID {
                Ok(Some(entry.vendor_table))
            } else {
                scan_config_table(mem, base, count, from + 1)
            },
        }
    }
}

/// If entry `index` carries the ACPI 2.0 identifier and every entry from
/// `from` up to it can be read and carries another, the scan finds the
/// table of entry `index`, whatever follows it.
pub proof fn lemma_scan_finds_first_match(mem: PhysMem, base: u64, count: int, from: int, index: int)
    requires
        0 <= from <= index < count,
        forall|j: int|
            from <= j < index ==> ((#[trigger] EfiConfigurationTableEntry::entry_at(mem, base, j))
                matches Some(entry) && entry.vendor_guid != EFI_ACPI_20_TABLE_GUID),
        EfiConfigurationTableEntry::entry_at(mem, base, index) matches Some(entry)
            && entry.vendor_guid == EFI_ACPI_20_TABLE_GUID,
    ensures
        scan_config_table(mem, base, count, from) == Ok::<Option<u64>, EfiError>(
            Some(EfiConfigurationTableEntry::entry_at(mem, base, index)->0.vendor_table),
        ),
    decreases index - from,
{
    if from < index {
        assert(EfiConfigurationTableEntry::entry_at(mem, base, from) is Some);
        lemma_scan_finds_first_match(mem, base, count, from + 1, index);
    }
}

/// If every entry from `from` on can be read and none carries the ACPI 2.0
/// identifier, the scan finds nothing.
pub proof fn lemma_scan_without_match(mem: PhysMem, base: u64, count: int, from: int)
    requires
        0 <= from,
        forall|j: int|
            from <= j < count ==> ((#[trigger] EfiConfigurationTableEntry::entry_at(mem, base, j))
                matches Some(entry) && entry.vendor_guid != EFI_ACPI_20_TABLE_GUID),
    ensures
        scan_config_table(mem, base, count, from) == Ok::<Option<u64>, EfiError>(None),
    decreases count - from,
{
    if from < count {
        assert(EfiConfigurationTableEntry::entry_at(mem, base, from) is Some);
        lemma_scan_without_match(mem, base, count, from + 1);
    }
}

/// Looks up the ACPI 2.0 root pointer in the configuration-table directory
/// of the installed system table.
///
/// With an empty handle there is nothing to look at and the result is
/// `Ok(None)`.
#[verifier::loop_isolation(false)]
pub fn read_config_table(handle: &FirmwareHandle, mem: &PhysMem) -> (r: Result<
    Option<u64>,
    EfiError,
>)
    ensures
        r == match handle@ {
            None => Ok(None),
            Some((_, table)) => scan_config_table(
                *mem,
                table.config_table,
                table.ntable_entries as int,
                0,
            ),
        },
{
    let table = match handle.system_table() {
        None => {
            return Ok(None);
        },
        Some(table) => table,
    };
    let base: u64 = table.config_table;
    let count: u64 = table.ntable_entries;
    let mut index: u64 = 0;
    while index < count
        invariant
            index <= count,
            scan_config_table(*mem, base, count as int, 0) == scan_config_table(
                *mem,
                base,
                count as int,
                index as int,
            ),
        decreases count - index,
    {
        let addr: u64 = match index.checked_mul(24) {
            None => {
                return Err(EfiError::OutOfBounds);
            },
            Some(offset) => match base.checked_add(offset) {
                None => {
                    return Err(EfiError::OutOfBounds);
                },
                Some(addr) => addr,
            },
        };
        let entry = match EfiConfigurationTableEntry::from_addr(mem, addr) {
            None => {
                return Err(EfiError::OutOfBounds);
            },
            Some(entry) => entry,
        };
        if entry.vendor_guid == EFI_ACPI_20_TABLE_GUID {
            return Ok(Some(entry.vendor_table));
        }
        index = index + 1;
    }
    Ok(None)
}

} // verus!
