//! Bounds-checked little-endian reads over a window of physical memory.
use vstd::prelude::*;
use vstd::slice::slice_subrange;

verus! {

/// The 16-bit little-endian value stored at `s[i..i + 2]`.
pub open spec fn le_u16(s: Seq<u8>, i: int) -> u16 {
    (s[i] as int + s[i + 1] as int * 0x100) as u16
}

/// The 32-bit little-endian value stored at `s[i..i + 4]`.
pub open spec fn le_u32(s: Seq<u8>, i: int) -> u32 {
    (s[i] as int + s[i + 1] as int * 0x100 + s[i + 2] as int * 0x1_0000 + s[i + 3] as int
        * 0x100_0000) as u32
}

/// The 64-bit little-endian value stored at `s[i..i + 8]`.
pub open spec fn le_u64(s: Seq<u8>, i: int) -> u64 {
    (le_u32(s, i) as int + le_u32(s, i + 4) as int * 0x1_0000_0000) as u64
}

/// The 128-bit little-endian value stored at `s[i..i + 16]`.
pub open spec fn le_u128(s: Seq<u8>, i: int) -> u128 {
    (le_u64(s, i) as int + le_u64(s, i + 8) as int * 0x1_0000_0000_0000_0000) as u128
}

/// The three bytes at `s[i..i + 3]`.
pub open spec fn tag3(s: Seq<u8>, i: int) -> [u8; 3] {
    [s[i], s[i + 1], s[i + 2]]
}

/// The four bytes at `s[i..i + 4]`.
pub open spec fn tag4(s: Seq<u8>, i: int) -> [u8; 4] {
    [s[i], s[i + 1], s[i + 2], s[i + 3]]
}

/// The six bytes at `s[i..i + 6]`.
pub open spec fn tag6(s: Seq<u8>, i: int) -> [u8; 6] {
    [s[i], s[i + 1], s[i + 2], s[i + 3], s[i + 4], s[i + 5]]
}

/// The eight bytes at `s[i..i + 8]`.
pub open spec fn tag8(s: Seq<u8>, i: int) -> [u8; 8] {
    [s[i], s[i + 1], s[i + 2], s[i + 3], s[i + 4], s[i + 5], s[i + 6], s[i + 7]]
}

/// Reads the little-endian `u16` at offset `i` of `s`.
pub(crate) fn u16_at(s: &[u8], i: usize) -> (v: u16)
    requires
        i + 2 <= s@.len(),
    ensures
        v == le_u16(s@, i as int),
{
    let b0: u16 = s[i] as u16;
    let b1: u16 = s[i + 1] as u16;
    b0 + b1 * 0x100
}

/// Reads the little-endian `u32` at offset `i` of `s`.
pub(crate) fn u32_at(s: &[u8], i: usize) -> (v: u32)
    requires
        i + 4 <= s@.len(),
    ensures
        v == le_u32(s@, i as int),
{
    let b0: u32 = s[i] as u32;
    let b1: u32 = s[i + 1] as u32;
    let b2: u32 = s[i + 2] as u32;
    let b3: u32 = s[i + 3] as u32;
    b0 + b1 * 0x100 + b2 * 0x1_0000 + b3 * 0x100_0000
}

/// Reads the little-endian `u64` at offset `i` of `s`.
pub(crate) fn u64_at(s: &[u8], i: usize) -> (v: u64)
    requires
        i + 8 <= s@.len(),
    ensures
        v == le_u64(s@, i as int),
{
    let len: usize = s.len();
    assert(i + 8 <= len);
    let lo: u64 = u32_at(s, i) as u64;
    let hi: u64 = u32_at(s, i + 4) as u64;
    lo + hi * 0x1_0000_0000
}

/// Reads the little-endian `u128` at offset `i` of `s`.
pub(crate) fn u128_at(s: &[u8], i: usize) -> (v: u128)
    requires
        i + 16 <= s@.len(),
    ensures
        v == le_u128(s@, i as int),
{
    let len: usize = s.len();
    assert(i + 16 <= len);
    let lo: u128 = u64_at(s, i) as u128;
    let hi: u128 = u64_at(s, i + 8) as u128;
    lo + hi * 0x1_0000_0000_0000_0000
}

/// Copies the three bytes at offset `i` of `s`.
pub(crate) fn tag3_at(s: &[u8], i: usize) -> (t: [u8; 3])
    requires
        i + 3 <= s@.len(),
    ensures
        t == tag3(s@, i as int),
{
    let t: [u8; 3] = [s[i], s[i + 1], s[i + 2]];
    assert(t =~= tag3(s@, i as int));
    t
}

/// Copies the four bytes at offset `i` of `s`.
pub(crate) fn tag4_at(s: &[u8], i: usize) -> (t: [u8; 4])
    requires
        i + 4 <= s@.len(),
    ensures
        t == tag4(s@, i as int),
{
    let t: [u8; 4] = [s[i], s[i + 1], s[i + 2], s[i + 3]];
    assert(t =~= tag4(s@, i as int));
    t
}

/// Copies the six bytes at offset `i` of `s`.
pub(crate) fn tag6_at(s: &[u8], i: usize) -> (t: [u8; 6])
    requires
        i + 6 <= s@.len(),
    ensures
        t == tag6(s@, i as int),
{
    let t: [u8; 6] = [s[i], s[i + 1], s[i + 2], s[i + 3], s[i + 4], s[i + 5]];
    assert(t =~= tag6(s@, i as int));
    t
}

/// Copies the eight bytes at offset `i` of `s`.
pub(crate) fn tag8_at(s: &[u8], i: usize) -> (t: [u8; 8])
    requires
        i + 8 <= s@.len(),
    ensures
        t == tag8(s@, i as int),
{
    let t: [u8; 8] = [s[i], s[i + 1], s[i + 2], s[i + 3], s[i + 4], s[i + 5], s[i + 6], s[i + 7]];
    assert(t =~= tag8(s@, i as int));
    t
}

/// The four bytes that store `x` in little-endian order.
pub open spec fn u32_le_bytes(x: u32) -> Seq<u8> {
    seq![
        (x % 0x100) as u8,
        (x / 0x100 % 0x100) as u8,
        (x / 0x100 / 0x100 % 0x100) as u8,
        (x / 0x100 / 0x100 / 0x100) as u8,
    ]
}

/// The eight bytes that store `x` in little-endian order.
pub open spec fn u64_le_bytes(x: u64) -> Seq<u8> {
    u32_le_bytes((x % 0x1_0000_0000) as u32) + u32_le_bytes((x / 0x1_0000_0000) as u32)
}

/// Reading back the bytes of a `u32` gives the `u32`, wherever in a
/// sequence they stand.
pub proof fn lemma_u32_le_roundtrip(s: Seq<u8>, i: int, x: u32)
    requires
        0 <= i,
        i + 4 <= s.len(),
        s.subrange(i, i + 4) == u32_le_bytes(x),
    ensures
        le_u32(s, i) == x,
{
    assert(s[i] == s.subrange(i, i + 4)[0]);
    assert(s[i + 1] == s.subrange(i, i + 4)[1]);
    assert(s[i + 2] == s.subrange(i, i + 4)[2]);
    assert(s[i + 3] == s.subrange(i, i + 4)[3]);
}

/// Reading back the bytes of a `u64` gives the `u64`, wherever in a
/// sequence they stand.
pub proof fn lemma_u64_le_roundtrip(s: Seq<u8>, i: int, x: u64)
    requires
        0 <= i,
        i + 8 <= s.len(),
        s.subrange(i, i + 8) == u64_le_bytes(x),
    ensures
        le_u64(s, i) == x,
{
    let lo = (x % 0x1_0000_0000) as u32;
    let hi = (x / 0x1_0000_0000) as u32;
    assert(s.subrange(i, i + 4) =~= u32_le_bytes(lo)) by {
        assert(s.subrange(i, i + 4) =~= s.subrange(i, i + 8).subrange(0, 4));
        assert(u64_le_bytes(x).subrange(0, 4) =~= u32_le_bytes(lo));
    }
    assert(s.subrange(i + 4, i + 8) =~= u32_le_bytes(hi)) by {
        assert(s.subrange(i + 4, i + 8) =~= s.subrange(i, i + 8).subrange(4, 8));
        assert(u64_le_bytes(x).subrange(4, 8) =~= u32_le_bytes(hi));
    }
    lemma_u32_le_roundtrip(s, i, lo);
    lemma_u32_le_roundtrip(s, i + 4, hi);
}

/// Appends the four bytes of `x`, lowest first.
pub(crate) fn push_u32_le(out: &mut Vec<u8>, x: u32)
    ensures
        final(out)@ == old(out)@ + u32_le_bytes(x),
{
    out.push((x % 0x100) as u8);
    out.push((x / 0x100 % 0x100) as u8);
    out.push((x / 0x100 / 0x100 % 0x100) as u8);
    out.push((x / 0x100 / 0x100 / 0x100) as u8);
    assert(out@ =~= old(out)@ + u32_le_bytes(x));
}

/// Appends the eight bytes of `x`, lowest first.
pub(crate) fn push_u64_le(out: &mut Vec<u8>, x: u64)
    ensures
        final(out)@ == old(out)@ + u64_le_bytes(x),
{
    push_u32_le(out, (x % 0x1_0000_0000) as u32);
    push_u32_le(out, (x / 0x1_0000_0000) as u32);
    assert(out@ =~= old(out)@ + u64_le_bytes(x));
}

/// The bytes of `s`, added up.
pub open spec fn byte_sum(s: Seq<u8>) -> nat
    decreases s.len(),
{
    if s.len() == 0 {
        0
    } else {
        byte_sum(s.drop_last()) + s.last() as nat
    }
}

/// A read-only view of the physical memory `[base, base + bytes.len())`.
///
/// Addresses handed to the methods are absolute physical addresses; every
/// access is checked against the extent of the view.
#[derive(Clone, Copy, Debug)]
pub struct PhysMem<'a> {
    /// Physical address of `bytes[0]`.
    pub base: u64,
    /// Content of the memory, byte by byte.
    pub bytes: &'a [u8],
}

impl<'a> PhysMem<'a> {
    /// Whether the `len` bytes starting at `addr` lie inside the view, and
    /// the address that follows them is still a 64-bit address.
    pub open spec fn covers(&self, addr: u64, len: int) -> bool {
        &&& self.base <= addr
        &&& addr + len <= self.base + self.bytes@.len()
        &&& addr + len <= u64::MAX
    }

    /// The `len` bytes starting at `addr`.
    pub open spec fn span(&self, addr: u64, len: int) -> Seq<u8>
        recommends
            self.covers(addr, len),
    {
        self.bytes@.subrange(addr - self.base, addr - self.base + len)
    }

    /// A view of `bytes`, whose first byte has the physical address `base`.
    pub fn new(base: u64, bytes: &'a [u8]) -> (mem: Self)
        ensures
            mem.base == base,
            mem.bytes@ == bytes@,
    {
        PhysMem { base, bytes }
    }

    /// The `len` bytes at `addr`, or `None` when they are not all inside
    /// the view.
    pub fn slice(&self, addr: u64, len: usize) -> (r: Option<&'a [u8]>)
        ensures
            r is Some <==> self.covers(addr, len as int),
            r matches Some(s) ==> s@ == self.span(addr, len as int),
    {
        if addr < self.base {
            return None;
        }
        let off: u64 = addr - self.base;
        let total: usize = self.bytes.len();
        if off > total as u64 {
            return None;
        }
        let start: usize = off as usize;
        if total - start < len {
            return None;
        }
        if len as u64 > u64::MAX - addr {
            return None;
        }
        Some(slice_subrange(self.bytes, start, start + len))
    }

    /// The view restricted to the `len` bytes at `addr`, or `None` when
    /// they are not all inside this view.
    pub fn window(&self, addr: u64, len: usize) -> (r: Option<PhysMem<'a>>)
        ensures
            r is Some <==> self.covers(addr, len as int),
            r matches Some(w) ==> w.base == addr && w.bytes@ == self.span(addr, len as int),
    {
        match self.slice(addr, len) {
            Some(bytes) => Some(PhysMem { base: addr, bytes }),
            None => None,
        }
    }

    /// The sum of the `len` bytes at `addr`, modulo 256. A structure
    /// whose checksum field is set as ACPI asks has the sum zero.
    pub fn checksum(&self, addr: u64, len: usize) -> (r: Option<u8>)
        ensures
            r is Some <==> self.covers(addr, len as int),
            r matches Some(sum) ==> sum == byte_sum(self.span(addr, len as int)) % 256,
    {
        let bytes = match self.slice(addr, len) {
            Some(bytes) => bytes,
            None => {
                return None;
            },
        };
        let mut sum: u8 = 0;
        let mut i: usize = 0;
        while i < len
            invariant
                i <= len,
                bytes@.len() == len,
                sum == byte_sum(bytes@.take(i as int)) % 256,
            decreases len - i,
        {
            assert(bytes@.take(i + 1).drop_last() =~= bytes@.take(i as int));
            sum = ((sum as u16 + bytes[i] as u16) % 256) as u8;
            i = i + 1;
        }
        assert(bytes@.take(i as int) =~= bytes@);
        Some(sum)
    }

    /// The byte at `addr`.
    pub fn read_u8(&self, addr: u64) -> (r: Option<u8>)
        ensures
            r is Some <==> self.covers(addr, 1),
            r matches Some(v) ==> v == self.span(addr, 1)[0],
    {
        match self.slice(addr, 1) {
            Some(s) => Some(s[0]),
            None => None,
        }
    }

    /// The little-endian `u16` at `addr`.
    pub fn read_u16(&self, addr: u64) -> (r: Option<u16>)
        ensures
            r is Some <==> self.covers(addr, 2),
            r matches Some(v) ==> v == le_u16(self.span(addr, 2), 0),
    {
        match self.slice(addr, 2) {
            Some(s) => Some(u16_at(s, 0)),
            None => None,
        }
    }

    /// The little-endian `u32` at `addr`.
    pub fn read_u32(&self, addr: u64) -> (r: Option<u32>)
        ensures
            r is Some <==> self.covers(addr, 4),
            r matches Some(v) ==> v == le_u32(self.span(addr, 4), 0),
    {
        match self.slice(addr, 4) {
            Some(s) => Some(u32_at(s, 0)),
            None => None,
        }
    }

    /// The little-endian `u64` at `addr`.
    pub fn read_u64(&self, addr: u64) -> (r: Option<u64>)
        ensures
            r is Some <==> self.covers(addr, 8),
            r matches Some(v) ==> v == le_u64(self.span(addr, 8), 0),
    {
        match self.slice(addr, 8) {
            Some(s) => Some(u64_at(s, 0)),
            None => None,
        }
    }

    /// The little-endian `u128` at `addr`.
    pub fn read_u128(&self, addr: u64) -> (r: Option<u128>)
        ensures
            r is Some <==> self.covers(addr, 16),
            r matches Some(v) ==> v == le_u128(self.span(addr, 16), 0),
    {
        match self.slice(addr, 16) {
            Some(s) => Some(u128_at(s, 0)),
            None => None,
        }
    }
}

} // verus!
