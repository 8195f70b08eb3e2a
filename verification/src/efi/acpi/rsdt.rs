//! The Root System Description Table: a list of 32-bit addresses of
//! further tables.
use crate::efi::acpi::header::{DescriptionHeader, DESCRIPTION_HEADER_SIZE};
use crate::efi::EfiError;
use crate::mem::{le_u32, u32_at, PhysMem};
use vstd::prelude::*;

verus! {

/// The signature found in the first 4 bytes of the table: `"RSDT"`.
pub const RSDT_SIGNATURE: [u8; 4] = [0x52, 0x53, 0x44, 0x54];

/// Width in bytes of one entry.
pub const RSDT_ENTRY_SIZE: usize = 4;

/// The addresses that `bytes` holds, one in every 4 bytes, in their order.
pub open spec fn rsdt_entries(bytes: Seq<u8>) -> Seq<u32> {
    Seq::new((bytes.len() / 4) as nat, |i: int| le_u32(bytes, 4 * i))
}

/// The entries of an RSDT: a view of the bytes that follow the header.
#[derive(Clone, Copy, Debug)]
pub struct Entries<'a> {
    addr: u64,
    nentries: usize,
    bytes: &'a [u8],
}

impl<'a> View for Entries<'a> {
    type V = Seq<u32>;

    /// The addresses in the table, in file order.
    closed spec fn view(&self) -> Seq<u32> {
        rsdt_entries(self.bytes@)
    }
}

impl<'a> Entries<'a> {
    #[verifier::type_invariant]
    spec fn sized(self) -> bool {
        self.bytes@.len() == self.nentries * 4
    }

    /// Physical address of the first entry.
    pub closed spec fn start(self) -> u64 {
        self.addr
    }

    /// Physical address of the first entry.
    pub fn addr(&self) -> (r: u64)
        ensures
            r == self.start(),
    {
        self.addr
    }

    /// Number of entries.
    pub fn len(&self) -> (n: usize)
        ensures
            n == self@.len(),
    {
        proof {
            use_type_invariant(self);
        }
        self.nentries
    }

    /// Entry `index`, if the table has that many.
    pub fn get(&self, index: usize) -> (r: Option<u32>)
        ensures
            r == if index < self@.len() {
                Some(self@[index as int])
            } else {
                None
            },
    {
        proof {
            use_type_invariant(self);
        }
        let total: usize = self.bytes.len();
        if index < self.nentries {
            assert(4 * index + 4 <= total);
            Some(u32_at(self.bytes, 4 * index))
        } else {
            None
        }
    }

    /// An iterator that starts at the first entry.
    pub fn into_iter(self) -> (it: EntriesIterator<'a>)
        ensures
            it.remaining() == self@,
    {
        proof {
            use_type_invariant(&self);
        }
        let it = EntriesIterator { entries: self, idx: 0 };
        assert(it.remaining() =~= self@);
        it
    }

    /// All entries, in file order.
    pub fn to_vec(&self) -> (v: Vec<u32>)
        ensures
            v@ == self@,
    {
        let mut it = self.into_iter();
        let mut v: Vec<u32> = Vec::new();
        loop
            invariant
                v@ + it.remaining() == self@,
            ensures
                v@ == self@,
            decreases it.remaining().len(),
        {
            match it.next() {
                Some(entry) => {
                    v.push(entry);
                    assert(v@ + it.remaining() =~= self@);
                },
                None => {
                    assert(v@ =~= v@ + it.remaining());
                    break ;
                },
            }
        }
        v
    }
}

/// Walks the entries of an RSDT from the first to the last.
#[derive(Clone, Copy, Debug)]
pub struct EntriesIterator<'a> {
    entries: Entries<'a>,
    idx: usize,
}

impl<'a> EntriesIterator<'a> {
    #[verifier::type_invariant]
    spec fn bounded(self) -> bool {
        self.idx <= self.entries.nentries && self.entries.sized()
    }

    /// The entries that are still to come, in file order.
    pub closed spec fn remaining(self) -> Seq<u32> {
        self.entries@.skip(self.idx as int)
    }

    /// The next entry, or `None` once all have been handed out.
    pub fn next(&mut self) -> (r: Option<u32>)
        ensures
            old(self).remaining().len() == 0 ==> r is None
                && final(self).remaining() == old(self).remaining(),
            old(self).remaining().len() > 0 ==> r == Some(old(self).remaining()[0])
                && final(self).remaining() == old(self).remaining().skip(1),
    {
        proof {
            use_type_invariant(&*self);
        }
        if self.idx >= self.entries.nentries {
            return None;
        }
        let total: usize = self.entries.bytes.len();
        assert(4 * self.idx + 4 <= total);
        let entry: u32 = u32_at(self.entries.bytes, 4 * self.idx);
        self.idx = self.idx + 1;
        assert(self.remaining() =~= old(self).remaining().skip(1));
        Some(entry)
    }
}

/// The RSDT lists the tables of the platform by their 32-bit physical
/// addresses. It is kept for systems that know ACPI 1.0 only.
#[derive(Clone, Copy, Debug)]
pub struct RSDT<'a> {
    /// The header of the table.
    pub header: DescriptionHeader,
    /// The addresses of the tables that this table lists.
    pub entries: Entries<'a>,
}

impl<'a> RSDT<'a> {
    /// Number of entries of a table of `length` bytes: what follows the
    /// header, in units of 4 bytes.
    pub open spec fn entry_count(length: u32) -> int {
        (length - 36) / 4
    }

    /// What a table with `header` at `addr` lists: its addresses in file
    /// order, unless the signature is not that of an RSDT, the length is
    /// smaller than the header, or the entries are not all readable.
    pub open spec fn entry_list(mem: PhysMem, addr: u64, header: DescriptionHeader) -> Result<
        Seq<u32>,
        EfiError,
    > {
        let n = Self::entry_count(header.length);
        if header.signature != RSDT_SIGNATURE || header.length < 36 {
            Err(EfiError::Validation)
        } else if addr + 36 > u64::MAX || !mem.covers((addr + 36) as u64, n * 4) {
            Err(EfiError::OutOfBounds)
        } else {
            Ok(rsdt_entries(mem.span((addr + 36) as u64, n * 4)))
        }
    }

    /// A readable table whose length is the header and `k` entries lists
    /// exactly `k` addresses, and lists them in the order in which the
    /// table holds them.
    pub proof fn lemma_entries_in_file_order(
        mem: PhysMem,
        addr: u64,
        header: DescriptionHeader,
        k: nat,
    )
        requires
            header.signature == RSDT_SIGNATURE,
            header.length == 36 + k * 4,
            mem.covers(addr, header.length as int),
        ensures
            Self::entry_list(mem, addr, header) is Ok,
            Self::entry_list(mem, addr, header)->Ok_0.len() == k,
            forall|i: int|
                0 <= i < k ==> #[trigger] Self::entry_list(mem, addr, header)->Ok_0[i] == le_u32(
                    mem.span(addr, header.length as int),
                    36 + 4 * i,
                ),
    {
        let n = Self::entry_count(header.length);
        assert(n == k);
        let entries = mem.span((addr + 36) as u64, n * 4);
        let table = mem.span(addr, header.length as int);
        assert(entries =~= table.subrange(36, header.length as int));
    }

    /// Builds the view of the entries of the RSDT at `addr`, whose header
    /// has been read as `header`.
    pub fn from_header(mem: &PhysMem<'a>, addr: u64, header: DescriptionHeader) -> (r: Result<
        RSDT<'a>,
        EfiError,
    >)
        ensures
            match Self::entry_list(*mem, addr, header) {
                Ok(list) => r matches Ok(table) && table.header == header
                    && table.entries@ == list && table.entries.start() == addr + 36
                    && list.len() == Self::entry_count(header.length),
                Err(e) => r matches Err(f) && f == e,
            },
    {
        if !header.has_signature(&RSDT_SIGNATURE) {
            return Err(EfiError::Validation);
        }
        if header.length < 36 {
            return Err(EfiError::Validation);
        }
        let nentries: u32 = (header.length - 36) / 4;
        let start: u64 = match addr.checked_add(36) {
            Some(start) => start,
            None => {
                return Err(EfiError::OutOfBounds);
            },
        };
        if nentries as u64 > (usize::MAX / 4) as u64 {
            return Err(EfiError::OutOfBounds);
        }
        let count: usize = nentries as usize;
        match mem.slice(start, count * 4) {
            None => Err(EfiError::OutOfBounds),
            Some(bytes) => Ok(RSDT { header, entries: Entries { addr: start, nentries: count, bytes } }),
        }
    }
}

} // verus!
