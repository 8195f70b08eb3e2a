//! Discovery of the ACPI tables, from the root pointer down.
//!
//! The walk reads the header of a table, tells by the signature what the
//! table is, and descends into the tables that an entry table lists. What
//! it finds is reported as a sequence of events in the order of the walk. A
//! table that cannot be read or is not understood is reported and passed
//! over; it never keeps the walk from its siblings.
pub mod header;
pub mod madt;
pub mod rsdt;
pub mod xsdt;

pub use crate::efi::acpi::header::DescriptionHeader;
pub use crate::efi::acpi::madt::MADT;
pub use crate::efi::acpi::rsdt::RSDT;
pub use crate::efi::acpi::xsdt::XSDT;

use crate::efi::acpi::madt::int_ctrl::IntCtrl;
use crate::efi::acpi::madt::{MadtContent, MADT_SIGNATURE};
use crate::efi::acpi::rsdt::RSDT_SIGNATURE;
use crate::efi::acpi::xsdt::XSDT_SIGNATURE;
use crate::efi::EfiError;
use crate::mem::{le_u32, le_u64, tag3, tag3_at, tag6, tag6_at, tag8, tag8_at, u32_at, u64_at, PhysMem};
use vstd::prelude::*;

verus! {

/// Size in bytes of the root pointer.
pub const RSDP_SIZE: usize = 36;

/// The signature of the root pointer: `"RSD PTR "`, with the trailing
/// blank.
pub const RSDP_SIGNATURE: [u8; 8] = [0x52, 0x53, 0x44, 0x20, 0x50, 0x54, 0x52, 0x20];

/// The signature of the Fixed ACPI Description Table: `"FACP"`.
pub const FADT_SIGNATURE: [u8; 4] = [0x46, 0x41, 0x43, 0x50];

/// Number of levels of entry tables that a walk from the root pointer
/// descends.
pub const MAX_TABLE_DEPTH: usize = 4;

/// Root System Description Pointer.
#[derive(Clone, Copy, Debug, PartialEq, Eq)]
pub struct RSDP {
    /// `"RSD PTR "`.
    pub signature: [u8; 8],
    /// Set so that the first 20 bytes of the structure add to zero.
    pub checksum: u8,
    /// Identifies the OEM.
    pub oemid: [u8; 6],
    /// Revision of the structure.
    pub revision: u8,
    /// Physical address of the RSDT.
    pub rsdt_addr: u32,
    /// Length of the structure in bytes.
    pub length: u32,
    /// Physical address of the XSDT.
    pub xsdt_addr: u64,
    /// Set so that all bytes of the structure add to zero.
    pub ext_checksum: u8,
    /// Reserved.
    pub reserved: [u8; 3],
}

impl RSDP {
    /// The root pointer stored in the first 36 bytes of `s`.
    pub open spec fn decode(s: Seq<u8>) -> RSDP {
        RSDP {
            signature: tag8(s, 0),
            checksum: s[8],
            oemid: tag6(s, 9),
            revision: s[15],
            rsdt_addr: le_u32(s, 16),
            length: le_u32(s, 20),
            xsdt_addr: le_u64(s, 24),
            ext_checksum: s[32],
            reserved: tag3(s, 33),
        }
    }

    /// What reading a root pointer at `addr` gives: the 36 bytes there,
    /// decoded field by field, unless they are not all readable or do not
    /// begin with the signature.
    pub open spec fn parse(mem: PhysMem, addr: u64) -> Result<RSDP, EfiError> {
        if !mem.covers(addr, 36) {
            Err(EfiError::OutOfBounds)
        } else if Self::decode(mem.span(addr, 36)).signature != RSDP_SIGNATURE {
            Err(EfiError::Validation)
        } else {
            Ok(Self::decode(mem.span(addr, 36)))
        }
    }

    /// A readable root pointer is accepted if its first eight bytes are
    /// the signature, and then every field is what the bytes hold; it is
    /// refused as invalid if any of the eight differs.
    pub proof fn lemma_signature_decides(mem: PhysMem, addr: u64)
        requires
            mem.covers(addr, 36),
        ensures
            (forall|j: int| 0 <= j < 8 ==> mem.span(addr, 36)[j] == RSDP_SIGNATURE[j])
                ==> Self::parse(mem, addr) == Ok::<RSDP, EfiError>(
                Self::decode(mem.span(addr, 36)),
            ),
            (exists|j: int| 0 <= j < 8 && mem.span(addr, 36)[j] != RSDP_SIGNATURE[j])
                ==> Self::parse(mem, addr) == Err::<RSDP, EfiError>(EfiError::Validation),
    {
        let s = mem.span(addr, 36);
        let found = Self::decode(s).signature;
        assert(forall|j: int| 0 <= j < 8 ==> found[j] == s[j]);
        if forall|j: int| 0 <= j < 8 ==> s[j] == RSDP_SIGNATURE[j] {
            assert(found =~= RSDP_SIGNATURE);
        }
        if exists|j: int| 0 <= j < 8 && s[j] != RSDP_SIGNATURE[j] {
            let j = choose|j: int| 0 <= j < 8 && s[j] != RSDP_SIGNATURE[j];
            assert(found[j] != RSDP_SIGNATURE[j]);
        }
    }

    /// Reads the root pointer at `addr` and checks its signature.
    pub fn from_addr(mem: &PhysMem, addr: u64) -> (r: Result<Self, EfiError>)
        ensures
            r == Self::parse(*mem, addr),
    {
        let s = match mem.slice(addr, RSDP_SIZE) {
            Some(s) => s,
            None => {
                return Err(EfiError::OutOfBounds);
            },
        };
        let rsdp = RSDP {
            signature: tag8_at(s, 0),
            checksum: s[8],
            oemid: tag6_at(s, 9),
            revision: s[15],
            rsdt_addr: u32_at(s, 16),
            length: u32_at(s, 20),
            xsdt_addr: u64_at(s, 24),
            ext_checksum: s[32],
            reserved: tag3_at(s, 33),
        };
        let mut matches: bool = true;
        let mut i: usize = 0;
        while i < 8
            invariant
                i <= 8,
                matches <==> forall|j: int| 0 <= j < i ==> rsdp.signature[j] == RSDP_SIGNATURE[j],
            decreases 8 - i,
        {
            if rsdp.signature[i] != RSDP_SIGNATURE[i] {
                matches = false;
            }
            i = i + 1;
        }
        assert(matches <==> rsdp.signature =~= RSDP_SIGNATURE);
        if matches {
            Ok(rsdp)
        } else {
            Err(EfiError::Validation)
        }
    }
}

/// One thing that a walk of the tables came upon.
#[derive(Clone, Copy, Debug, PartialEq, Eq)]
pub enum AcpiEvent {
    /// An XSDT or RSDT with `count` entries; what the walk finds under
    /// them follows.
    EntryTable { addr: u64, header: DescriptionHeader, count: usize },
    /// A Multiple APIC Description Table; its interrupt controller
    /// structures follow, one `IntCtrl` event each.
    Madt { addr: u64, header: DescriptionHeader, lic_addr: u32, flags: u32 },
    /// An interrupt controller structure of the MADT reported last.
    IntCtrl(IntCtrl),
    /// The MADT at `addr` has more structures than are reported.
    CapacityExceeded { addr: u64 },
    /// A Fixed ACPI Description Table, which is recognized and not
    /// decoded.
    Fadt { addr: u64, header: DescriptionHeader },
    /// A table whose signature the walk does not know; it is passed over.
    Unsupported { addr: u64, header: DescriptionHeader },
    /// A table that could not be read or is not well formed; it is passed
    /// over.
    Failed { addr: u64, error: EfiError },
    /// An entry table that lies deeper than the walk was allowed to go; its
    /// entries are not visited.
    DepthExceeded { addr: u64 },
}

/// The events that report a MADT: the table itself, the structures that
/// are kept of it, and a last event if some were left out.
pub open spec fn madt_events(addr: u64, header: DescriptionHeader, content: MadtContent) -> Seq<
    AcpiEvent,
> {
    let tail = if content.exceeds_capacity() {
        seq![AcpiEvent::CapacityExceeded { addr }]
    } else {
        Seq::<AcpiEvent>::empty()
    };
    seq![AcpiEvent::Madt { addr, header, lic_addr: content.lic_addr, flags: content.flags }]
        + content.kept().map_values(|int_ctrl: IntCtrl| AcpiEvent::IntCtrl(int_ctrl)) + tail
}

/// The events of a walk that starts at the table at `addr` and descends
/// at most `depth` levels of entry tables.
pub open spec fn table_events(mem: PhysMem, addr: u64, depth: nat) -> Seq<AcpiEvent>
    decreases depth, 0nat, 0nat,
{
    match DescriptionHeader::parse(mem, addr) {
        Err(error) => seq![AcpiEvent::Failed { addr, error }],
        Ok(header) => if header.signature == XSDT_SIGNATURE {
            match XSDT::entry_list(mem, addr, header) {
                Err(error) => seq![AcpiEvent::Failed { addr, error }],
                Ok(list) => if depth == 0 {
                    seq![AcpiEvent::DepthExceeded { addr }]
                } else {
                    seq![AcpiEvent::EntryTable { addr, header, count: list.len() as usize }]
                        + entries_events(mem, list, (depth - 1) as nat)
                },
            }
        } else if header.signature == RSDT_SIGNATURE {
            match RSDT::entry_list(mem, addr, header) {
                Err(error) => seq![AcpiEvent::Failed { addr, error }],
                Ok(list) => if depth == 0 {
                    seq![AcpiEvent::DepthExceeded { addr }]
                } else {
                    seq![AcpiEvent::EntryTable { addr, header, count: list.len() as usize }]
                        + entries_events(
                        mem,
                        list.map_values(|entry: u32| entry as u64),
                        (depth - 1) as nat,
                    )
                },
            }
        } else if header.signature == MADT_SIGNATURE {
            match MADT::content(mem, addr, header) {
                Err(error) => seq![AcpiEvent::Failed { addr, error }],
                Ok(content) => madt_events(addr, header, content),
            }
        } else if header.signature == FADT_SIGNATURE {
            seq![AcpiEvent::Fadt { addr, header }]
        } else {
            seq![AcpiEvent::Unsupported { addr, header }]
        },
    }
}

/// The events of the walks that start at the tables at `addrs`, one walk
/// after another in the order of `addrs`.
pub open spec fn entries_events(mem: PhysMem, addrs: Seq<u64>, depth: nat) -> Seq<AcpiEvent>
    decreases depth, 1nat, addrs.len(),
{
    if addrs.len() == 0 {
        Seq::empty()
    } else {
        entries_events(mem, addrs.drop_last(), depth) + table_events(mem, addrs.last(), depth)
    }
}

/// Each table of a list is walked on its own: the events of two lists
/// joined are the events of the first and then those of the second, so
/// that what is found at one entry never changes what is reported of
/// another.
pub proof fn lemma_entries_events_concat(mem: PhysMem, a: Seq<u64>, b: Seq<u64>, depth: nat)
    ensures
        entries_events(mem, a + b, depth) == entries_events(mem, a, depth) + entries_events(
            mem,
            b,
            depth,
        ),
    decreases b.len(),
{
    if b.len() == 0 {
        assert(a + b =~= a);
        assert(entries_events(mem, a, depth) + entries_events(mem, b, depth) =~= entries_events(
            mem,
            a,
            depth,
        ));
    } else {
        assert((a + b).drop_last() =~= a + b.drop_last());
        assert((a + b).last() == b.last());
        lemma_entries_events_concat(mem, a, b.drop_last(), depth);
        assert(entries_events(mem, a + b, depth) =~= entries_events(mem, a, depth)
            + entries_events(mem, b, depth));
    }
}

/// The events of a walk from a root pointer: those under its XSDT, then
/// those under its RSDT.
pub open spec fn root_events(mem: PhysMem, rsdp: RSDP, depth: nat) -> Seq<AcpiEvent> {
    table_events(mem, rsdp.xsdt_addr, depth) + table_events(mem, rsdp.rsdt_addr as u64, depth)
}

/// Appends the events that report `madt`, the table decoded at `addr`.
fn push_madt_events(out: &mut Vec<AcpiEvent>, addr: u64, madt: &MADT, Ghost(content): Ghost<
    MadtContent,
>)
    requires
        madt.decodes(madt.header, content),
    ensures
        final(out)@ == old(out)@ + madt_events(addr, madt.header, content),
{
    let ghost kept = madt.int_ctrls@;
    let ghost mapped = kept.map_values(|int_ctrl: IntCtrl| AcpiEvent::IntCtrl(int_ctrl));
    let ghost first = seq![
        AcpiEvent::Madt {
            addr,
            header: madt.header,
            lic_addr: content.lic_addr,
            flags: content.flags,
        },
    ];
    out.push(
        AcpiEvent::Madt { addr, header: madt.header, lic_addr: madt.lic_addr, flags: madt.flags },
    );
    let mut i: usize = 0;
    while i < madt.int_ctrls.len()
        invariant
            i <= madt.int_ctrls@.len(),
            kept == madt.int_ctrls@,
            mapped == kept.map_values(|int_ctrl: IntCtrl| AcpiEvent::IntCtrl(int_ctrl)),
            out@ == old(out)@ + first + mapped.take(i as int),
        decreases madt.int_ctrls@.len() - i,
    {
        out.push(AcpiEvent::IntCtrl(madt.int_ctrls[i]));
        assert(out@ =~= old(out)@ + first + mapped.take(i + 1));
        i = i + 1;
    }
    assert(mapped.take(i as int) =~= mapped);
    if madt.capacity_exceeded {
        out.push(AcpiEvent::CapacityExceeded { addr });
    }
    assert(out@ =~= old(out)@ + madt_events(addr, madt.header, content));
}

/// Appends the events of the walk that starts at the table at `addr`.
fn walk_table(mem: &PhysMem, addr: u64, depth: usize, out: &mut Vec<AcpiEvent>)
    ensures
        final(out)@ == old(out)@ + table_events(*mem, addr, depth as nat),
    decreases depth,
{
    let header = match DescriptionHeader::from_addr(mem, addr) {
        Ok(header) => header,
        Err(error) => {
            out.push(AcpiEvent::Failed { addr, error });
            assert(out@ =~= old(out)@ + seq![AcpiEvent::Failed { addr, error }]);
            return ;
        },
    };
    if header.has_signature(&XSDT_SIGNATURE) {
        let table = match XSDT::from_header(mem, addr, header) {
            Ok(table) => table,
            Err(error) => {
                out.push(AcpiEvent::Failed { addr, error });
                assert(out@ =~= old(out)@ + seq![AcpiEvent::Failed { addr, error }]);
                return ;
            },
        };
        if depth == 0 {
            out.push(AcpiEvent::DepthExceeded { addr });
            assert(out@ =~= old(out)@ + seq![AcpiEvent::DepthExceeded { addr }]);
            return ;
        }
        let ghost list = table.entries@;
        let ghost first = seq![AcpiEvent::EntryTable { addr, header, count: list.len() as usize }];
        out.push(AcpiEvent::EntryTable { addr, header, count: table.entries.len() });
        let mut it = table.entries.into_iter();
        let ghost mut done: int = 0;
        loop
            invariant
                0 <= done <= list.len(),
                depth > 0,
                it.remaining() == list.skip(done),
                out@ == old(out)@ + first + entries_events(
                    *mem,
                    list.take(done),
                    (depth - 1) as nat,
                ),
            ensures
                out@ == old(out)@ + first + entries_events(*mem, list, (depth - 1) as nat),
            decreases list.len() - done,
        {
            match it.next() {
                Some(entry) => {
                    walk_table(mem, entry, depth - 1, out);
                    proof {
                        assert(list.take(done + 1).drop_last() =~= list.take(done));
                        assert(list.take(done + 1).last() == entry);
                        assert(list.skip(done).skip(1) =~= list.skip(done + 1));
                        assert(out@ =~= old(out)@ + first + entries_events(
                            *mem,
                            list.take(done + 1),
                            (depth - 1) as nat,
                        ));
                        done = done + 1;
                    }
                },
                None => {
                    assert(list.take(done) =~= list);
                    break ;
                },
            }
        }
        assert(out@ =~= old(out)@ + (first + entries_events(*mem, list, (depth - 1) as nat)));
    } else if header.has_signature(&RSDT_SIGNATURE) {
        let table = match RSDT::from_header(mem, addr, header) {
            Ok(table) => table,
            Err(error) => {
                out.push(AcpiEvent::Failed { addr, error });
                assert(out@ =~= old(out)@ + seq![AcpiEvent::Failed { addr, error }]);
                return ;
            },
        };
        if depth == 0 {
            out.push(AcpiEvent::DepthExceeded { addr });
            assert(out@ =~= old(out)@ + seq![AcpiEvent::DepthExceeded { addr }]);
            return ;
        }
        let ghost narrow = table.entries@;
        let ghost list = narrow.map_values(|entry: u32| entry as u64);
        let ghost first = seq![AcpiEvent::EntryTable { addr, header, count: list.len() as usize }];
        out.push(AcpiEvent::EntryTable { addr, header, count: table.entries.len() });
        let mut it = table.entries.into_iter();
        let ghost mut done: int = 0;
        loop
            invariant
                0 <= done <= list.len(),
                depth > 0,
                list == narrow.map_values(|entry: u32| entry as u64),
                it.remaining() == narrow.skip(done),
                out@ == old(out)@ + first + entries_events(
                    *mem,
                    list.take(done),
                    (depth - 1) as nat,
                ),
            ensures
                out@ == old(out)@ + first + entries_events(*mem, list, (depth - 1) as nat),
            decreases list.len() - done,
        {
            match it.next() {
                Some(entry) => {
                    walk_table(mem, entry as u64, depth - 1, out);
                    proof {
                        assert(list.take(done + 1).drop_last() =~= list.take(done));
                        assert(list.take(done + 1).last() == entry as u64);
                        assert(narrow.skip(done).skip(1) =~= narrow.skip(done + 1));
                        assert(out@ =~= old(out)@ + first + entries_events(
                            *mem,
                            list.take(done + 1),
                            (depth - 1) as nat,
                        ));
                        done = done + 1;
                    }
                },
                None => {
                    assert(list.take(done) =~= list);
                    break ;
                },
            }
        }
        assert(out@ =~= old(out)@ + (first + entries_events(*mem, list, (depth - 1) as nat)));
    } else if header.has_signature(&MADT_SIGNATURE) {
        match MADT::from_header(mem, addr, header) {
            Ok(madt) => {
                push_madt_events(out, addr, &madt, Ghost(MADT::content(*mem, addr, header)->Ok_0));
            },
            Err(error) => {
                out.push(AcpiEvent::Failed { addr, error });
                assert(out@ =~= old(out)@ + seq![AcpiEvent::Failed { addr, error }]);
            },
        }
    } else if header.has_signature(&FADT_SIGNATURE) {
        out.push(AcpiEvent::Fadt { addr, header });
        assert(out@ =~= old(out)@ + seq![AcpiEvent::Fadt { addr, header }]);
    } else {
        out.push(AcpiEvent::Unsupported { addr, header });
        assert(out@ =~= old(out)@ + seq![AcpiEvent::Unsupported { addr, header }]);
    }
}

/// Walks the table at `addr` and the tables below it, at most `depth`
/// levels of entry tables deep, and reports what it finds.
pub fn read_acpi_table(mem: &PhysMem, addr: u64, depth: usize) -> (events: Vec<AcpiEvent>)
    ensures
        events@ == table_events(*mem, addr, depth as nat),
{
    let mut events: Vec<AcpiEvent> = Vec::new();
    walk_table(mem, addr, depth, &mut events);
    assert(events@ =~= table_events(*mem, addr, depth as nat));
    events
}

/// Validates the root pointer at `addr`, then walks the tables under its
/// XSDT and those under its RSDT, in this order.
///
/// A root pointer that cannot be read or does not carry its signature is
/// refused. Anything that goes wrong below it is reported among the events.
pub fn read_rsdp(mem: &PhysMem, addr: u64, depth: usize) -> (r: Result<
    (RSDP, Vec<AcpiEvent>),
    EfiError,
>)
    ensures
        match RSDP::parse(*mem, addr) {
            Ok(rsdp) => r matches Ok((found, events)) && found == rsdp && events@ == root_events(
                *mem,
                rsdp,
                depth as nat,
            ),
            Err(e) => r matches Err(f) && f == e,
        },
{
    let rsdp = match RSDP::from_addr(mem, addr) {
        Ok(rsdp) => rsdp,
        Err(e) => {
            return Err(e);
        },
    };
    let mut events: Vec<AcpiEvent> = Vec::new();
    walk_table(mem, rsdp.xsdt_addr, depth, &mut events);
    walk_table(mem, rsdp.rsdt_addr as u64, depth, &mut events);
    assert(events@ =~= root_events(*mem, rsdp, depth as nat));
    Ok((rsdp, events))
}

} // verus!
