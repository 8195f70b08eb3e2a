//! The Multiple APIC Description Table.
//!
//! After the description header the table holds the address of the local
//! interrupt controller, a word of flags, and then interrupt controller
//! structures one after another up to the end of the table. Each structure
//! begins with its type and its length.
pub mod int_ctrl;
pub mod int_src_ovr;
pub mod io_apic;
pub mod local_apic_nmi;
pub mod proc_local;

use crate::efi::acpi::header::DescriptionHeader;
use crate::efi::acpi::madt::int_ctrl::IntCtrl;
use crate::efi::EfiError;
use crate::mem::{le_u32, u32_at, PhysMem};
use vstd::prelude::*;

verus! {

/// Largest number of interrupt controller structures that a decoded table
/// keeps.
pub const MAX_INT_CTRLS: usize = 32;

/// Offset of the first interrupt controller structure in the table.
pub const MADT_INT_CTRLS_OFFSET: usize = 44;

/// The signature found in the first 4 bytes of the table: `"APIC"`.
pub const MADT_SIGNATURE: [u8; 4] = [0x41, 0x50, 0x49, 0x43];

/// Bit 0 of the flags of the table: the system also has a pair of 8259
/// interrupt controllers, which must be masked when the APICs are used.
pub const PCAT_COMPAT: u32 = 1;

/// `region` cut into the structures it consists of, or `None` when it is
/// not a run of structures: when fewer than two bytes are left for a
/// structure, or a structure declares a length below two or beyond the end
/// of the region.
pub open spec fn split_int_ctrls(region: Seq<u8>) -> Option<Seq<Seq<u8>>>
    decreases region.len(),
{
    if region.len() == 0 {
        Some(Seq::empty())
    } else if region.len() < 2 || region[1] < 2 || region[1] > region.len() {
        None
    } else {
        match split_int_ctrls(region.skip(region[1] as int)) {
            Some(rest) => Some(seq![region.take(region[1] as int)] + rest),
            None => None,
        }
    }
}

/// Whether the structure `record` is as long as the layout of its type.
pub open spec fn int_ctrl_fits(record: Seq<u8>) -> bool {
    record.len() >= 2 && record.len() >= IntCtrl::decoded_size(record[0])
}

/// The interrupt controller structures that `region` holds, in file
/// order, or `None` when the region is not a run of structures or one of
/// them is shorter than the layout of its type.
pub open spec fn int_ctrls_of(region: Seq<u8>) -> Option<Seq<IntCtrl>> {
    match split_int_ctrls(region) {
        Some(records) => if forall|i: int|
            0 <= i < records.len() ==> int_ctrl_fits(#[trigger] records[i]) {
            Some(records.map_values(|record: Seq<u8>| IntCtrl::decode(record, record[0])))
        } else {
            None
        },
        None => None,
    }
}

/// Number of bytes in `records`, all together.
pub open spec fn total_len(records: Seq<Seq<u8>>) -> nat
    decreases records.len(),
{
    if records.len() == 0 {
        0
    } else {
        total_len(records.drop_last()) + records.last().len()
    }
}

/// The structures that a region is cut into cover it exactly: each
/// begins where the one before ends, each is as long as its length field
/// says, and their lengths add up to the length of the region.
pub proof fn lemma_split_int_ctrls_covers(region: Seq<u8>)
    requires
        split_int_ctrls(region) is Some,
    ensures
        total_len(split_int_ctrls(region)->0) == region.len(),
        split_int_ctrls(region)->0.flatten() == region,
        forall|i: int|
            0 <= i < split_int_ctrls(region)->0.len() ==> {
                let record = #[trigger] split_int_ctrls(region)->0[i];
                record.len() >= 2 && record.len() == record[1]
            },
    decreases region.len(),
{
    let records = split_int_ctrls(region)->0;
    if region.len() == 0 {
        assert(records.flatten() =~= region);
    } else {
        let len = region[1] as int;
        let first = region.take(len);
        let rest = split_int_ctrls(region.skip(len))->0;
        lemma_split_int_ctrls_covers(region.skip(len));
        assert(records == seq![first] + rest);
        lemma_total_len_concat(seq![first], rest);
        assert(seq![first].drop_last().len() == 0);
        assert(total_len(seq![first].drop_last()) == 0);
        assert(total_len(seq![first]) == first.len());
        assert(records.flatten() =~= region) by {
            assert(records.drop_first() =~= rest);
            assert(records.first() == first);
            assert(region =~= first + region.skip(len));
        }
        assert forall|i: int| 0 <= i < records.len() implies {
            let record = #[trigger] records[i];
            record.len() >= 2 && record.len() == record[1]
        } by {
            if i > 0 {
                assert(records[i] == rest[i - 1]);
            }
        }
    }
}

/// The bytes of two runs of structures joined are the bytes of each, added.
pub proof fn lemma_total_len_concat(a: Seq<Seq<u8>>, b: Seq<Seq<u8>>)
    ensures
        total_len(a + b) == total_len(a) + total_len(b),
    decreases b.len(),
{
    if b.len() == 0 {
        assert(a + b =~= a);
    } else {
        assert((a + b).drop_last() =~= a + b.drop_last());
        assert((a + b).last() == b.last());
        lemma_total_len_concat(a, b.drop_last());
    }
}

/// What a Multiple APIC Description Table says, whatever its size.
pub struct MadtContent {
    /// Physical address at which each processor finds its local
    /// interrupt controller.
    pub lic_addr: u32,
    /// Flags of the table.
    pub flags: u32,
    /// All interrupt controller structures of the table, in file order.
    pub int_ctrls: Seq<IntCtrl>,
}

impl MadtContent {
    /// The structures that a decoded table keeps: all of them, or the
    /// first `MAX_INT_CTRLS` if there are more.
    pub open spec fn kept(self) -> Seq<IntCtrl> {
        if self.int_ctrls.len() <= MAX_INT_CTRLS {
            self.int_ctrls
        } else {
            self.int_ctrls.take(MAX_INT_CTRLS as int)
        }
    }

    /// Whether the table holds more structures than a decoded table keeps.
    pub open spec fn exceeds_capacity(self) -> bool {
        self.int_ctrls.len() > MAX_INT_CTRLS
    }
}

/// A Multiple APIC Description Table, decoded.
///
/// The table describes the interrupt controllers of the system. Of its
/// structures the first `MAX_INT_CTRLS` are kept.
#[derive(Debug, PartialEq, Eq)]
pub struct MADT {
    /// The header of the table.
    pub header: DescriptionHeader,
    /// Physical address at which each processor finds its local
    /// interrupt controller.
    pub lic_addr: u32,
    /// Flags of the table; bit 0 is `PCAT_COMPAT`.
    pub flags: u32,
    /// The interrupt controller structures, in file order.
    pub int_ctrls: Vec<IntCtrl>,
    /// Whether the table holds more structures than `int_ctrls` keeps.
    pub capacity_exceeded: bool,
}

/// `tail`, if there is one, with `head` in front of it.
pub open spec fn prepend_records(head: Seq<Seq<u8>>, tail: Option<Seq<Seq<u8>>>) -> Option<
    Seq<Seq<u8>>,
> {
    match tail {
        Some(rest) => Some(head + rest),
        None => None,
    }
}

impl MADT {
    /// Whether this is the decoded form of a table with `header` that
    /// says `content`.
    pub open spec fn decodes(self, header: DescriptionHeader, content: MadtContent) -> bool {
        &&& self.header == header
        &&& self.lic_addr == content.lic_addr
        &&& self.flags == content.flags
        &&& self.int_ctrls@ == content.kept()
        &&& self.capacity_exceeded == content.exceeds_capacity()
    }

    /// What the table with `header` at `addr` says: `Validation` when it
    /// is shorter than its fixed fields or what follows them is not a run
    /// of well-sized structures, `OutOfBounds` when the table does not lie
    /// inside `mem`.
    pub open spec fn content(mem: PhysMem, addr: u64, header: DescriptionHeader) -> Result<
        MadtContent,
        EfiError,
    > {
        let length = header.length as int;
        if length < 44 {
            Err(EfiError::Validation)
        } else if !mem.covers(addr, length) {
            Err(EfiError::OutOfBounds)
        } else {
            let table = mem.span(addr, length);
            match int_ctrls_of(table.subrange(44, length)) {
                Some(int_ctrls) => Ok(
                    MadtContent { lic_addr: le_u32(table, 36), flags: le_u32(table, 40), int_ctrls },
                ),
                None => Err(EfiError::Validation),
            }
        }
    }

    /// The structures of a table that is accepted fill it from the end
    /// of the fixed fields to the end of the table: there are as many as
    /// the content lists, and their lengths add up to the length of the
    /// table less its first 44 bytes.
    pub proof fn lemma_int_ctrls_fill_table(mem: PhysMem, addr: u64, header: DescriptionHeader)
        requires
            Self::content(mem, addr, header) is Ok,
        ensures
            ({
                let length = header.length as int;
                let records = split_int_ctrls(mem.span(addr, length).subrange(44, length));
                &&& records is Some
                &&& records->0.len() == Self::content(mem, addr, header)->Ok_0.int_ctrls.len()
                &&& total_len(records->0) == length - 44
            }),
    {
        let length = header.length as int;
        lemma_split_int_ctrls_covers(mem.span(addr, length).subrange(44, length));
    }

    /// Whether the system also has a pair of 8259 interrupt controllers.
    pub fn is_pcat_compatible(&self) -> (r: bool)
        ensures
            r <==> self.flags % 2 == 1,
    {
        self.flags % 2 == 1
    }

    /// Decodes the table at `addr`, whose header has been read as `header`.
    ///
    /// The structures are decoded one after another until the end of the
    /// table is reached. The first `MAX_INT_CTRLS` of them are kept; if
    /// there are more, the rest is checked but left out and
    /// `capacity_exceeded` is set.
    pub fn from_header(mem: &PhysMem, addr: u64, header: DescriptionHeader) -> (r: Result<
        MADT,
        EfiError,
    >)
        ensures
            match Self::content(*mem, addr, header) {
                Ok(content) => r matches Ok(madt) && madt.decodes(header, content),
                Err(e) => r matches Err(f) && f == e,
            },
    {
        if header.length < 44 {
            return Err(EfiError::Validation);
        }
        let length: usize = header.length as usize;
        let table = match mem.window(addr, length) {
            Some(table) => table,
            None => {
                return Err(EfiError::OutOfBounds);
            },
        };
        let bytes = table.bytes;
        let lic_addr: u32 = u32_at(bytes, 36);
        let flags: u32 = u32_at(bytes, 40);
        let ghost region = bytes@.subrange(44, length as int);
        let ghost mut records: Seq<Seq<u8>> = Seq::empty();
        let ghost mut all: Seq<IntCtrl> = Seq::empty();
        let mut int_ctrls: Vec<IntCtrl> = Vec::new();
        let mut capacity_exceeded: bool = false;
        let mut cursor: usize = 44;
        proof {
            assert(region.skip(0) =~= region);
            if split_int_ctrls(region) is Some {
                assert(records + split_int_ctrls(region)->0 =~= split_int_ctrls(region)->0);
            }
        }
        while cursor < length
            invariant
                44 <= cursor <= length,
                bytes@.len() == length,
                table.base == addr,
                table.bytes == bytes,
                addr + length <= u64::MAX,
                region == bytes@.subrange(44, length as int),
                split_int_ctrls(region) == prepend_records(
                    records,
                    split_int_ctrls(region.skip(cursor - 44)),
                ),
                forall|i: int| 0 <= i < records.len() ==> int_ctrl_fits(#[trigger] records[i]),
                all.len() == records.len(),
                forall|i: int|
                    0 <= i < records.len() ==> #[trigger] all[i] == IntCtrl::decode(
                        records[i],
                        records[i][0],
                    ),
                int_ctrls@ == all.take(
                    if all.len() <= MAX_INT_CTRLS {
                        all.len() as int
                    } else {
                        MAX_INT_CTRLS as int
                    },
                ),
                capacity_exceeded <==> all.len() > MAX_INT_CTRLS,
                Self::content(*mem, addr, header) is Err ==> int_ctrls_of(region) is None,
                int_ctrls_of(region) is None ==> Self::content(*mem, addr, header)
                    == Err::<MadtContent, EfiError>(EfiError::Validation),
            decreases length - cursor,
        {
            if length - cursor < 2 {
                return Err(EfiError::Validation);
            }
            let ctrl_type: u8 = bytes[cursor];
            let record_len: usize = bytes[cursor + 1] as usize;
            let ghost rest = region.skip(cursor - 44);
            assert(rest[0] == ctrl_type && rest[1] == record_len);
            if record_len < 2 || record_len > length - cursor {
                return Err(EfiError::Validation);
            }
            let ghost record = rest.take(record_len as int);
            proof {
                lemma_split_step(region, cursor - 44, records);
            }
            let record_addr: u64 = addr + cursor as u64;
            let window = match table.window(record_addr, record_len) {
                Some(window) => window,
                None => {
                    return Err(EfiError::OutOfBounds);
                },
            };
            assert(window.bytes@ =~= record);
            let int_ctrl = match IntCtrl::from_type(&window, record_addr, ctrl_type) {
                Ok(int_ctrl) => int_ctrl,
                Err(_) => {
                    assert(!int_ctrl_fits(record));
                    return Err(EfiError::Validation);
                },
            };
            assert(int_ctrl_fits(record));
            assert(int_ctrl == IntCtrl::decode(record, record[0])) by {
                let size = IntCtrl::decoded_size(ctrl_type);
                if size > 0 {
                    assert(window.span(record_addr, size) =~= record.subrange(0, size));
                }
            }
            if int_ctrls.len() < MAX_INT_CTRLS {
                int_ctrls.push(int_ctrl);
            } else {
                capacity_exceeded = true;
            }
            proof {
                records = records.push(record);
                all = all.push(int_ctrl);
                assert(int_ctrls@ =~= all.take(
                    if all.len() <= MAX_INT_CTRLS {
                        all.len() as int
                    } else {
                        MAX_INT_CTRLS as int
                    },
                ));
            }
            cursor = cursor + record_len;
        }
        proof {
            assert(region.skip(cursor - 44).len() == 0);
            assert(records + Seq::<Seq<u8>>::empty() =~= records);
            assert(split_int_ctrls(region) == Some(records));
            assert(all =~= records.map_values(|record: Seq<u8>| IntCtrl::decode(record, record[0])));
            assert(int_ctrls_of(region) == Some(all));
            assert(all.take(all.len() as int) =~= all);
        }
        Ok(MADT { header, lic_addr, flags, int_ctrls, capacity_exceeded })
    }
}

/// One step of cutting a region: if `records` are the structures before
/// offset `at` and a structure of valid length begins there, then the
/// structures before its end are `records` and that structure.
proof fn lemma_split_step(region: Seq<u8>, at: int, records: Seq<Seq<u8>>)
    requires
        0 <= at,
        at + 2 <= region.len(),
        2 <= region[at + 1],
        at + region[at + 1] <= region.len(),
        split_int_ctrls(region) == prepend_records(records, split_int_ctrls(region.skip(at))),
    ensures
        ({
            let len = region[at + 1] as int;
            let record = region.skip(at).take(len);
            &&& split_int_ctrls(region) == prepend_records(
                records.push(record),
                split_int_ctrls(region.skip(at + len)),
            )
            &&& split_int_ctrls(region) is Some ==> split_int_ctrls(region)->0.len() > records.len()
                && split_int_ctrls(region)->0[records.len() as int] == record
        }),
{
    let rest = region.skip(at);
    let len = region[at + 1] as int;
    let record = rest.take(len);
    let tail = split_int_ctrls(rest.skip(len));
    assert(rest[1] == region[at + 1]);
    assert(rest.skip(len) =~= region.skip(at + len));
    assert(split_int_ctrls(rest) == prepend_records(seq![record], tail));
    if tail is Some {
        assert(records + (seq![record] + tail->0) =~= records.push(record) + tail->0);
    }
}

} // verus!
