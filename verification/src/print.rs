//! Preparing text for the firmware's console, which takes strings of
//! UTF-16 units that end in a zero.
use vstd::prelude::*;

verus! {

/// Largest number of units of text that go to the console in one string.
pub const CONSOLE_CHUNK_UNITS: usize = 31;

/// Number of strings that `len` units of text are sent in.
pub open spec fn console_chunk_count(len: int) -> int {
    (len + 30) / 31
}

/// String `index` of those that `units` are sent in: the next 31 units,
/// or as many as are left, and a zero after them.
pub open spec fn console_chunk(units: Seq<u16>, index: int) -> Seq<u16> {
    units.subrange(
        31 * index,
        if 31 * index + 31 <= units.len() {
            31 * index + 31
        } else {
            units.len() as int
        },
    ).push(0)
}

/// The strings that `units` are sent to the console in.
pub open spec fn console_chunks(units: Seq<u16>) -> Seq<Seq<u16>> {
    Seq::new(console_chunk_count(units.len() as int) as nat, |index: int| console_chunk(units, index))
}

/// Each unit of a text stands in one of its strings, at the place that
/// its position gives, and no string is longer than 31 units and the zero.
pub proof fn lemma_console_chunks_hold_text(units: Seq<u16>, position: int)
    requires
        0 <= position < units.len(),
    ensures
        position / 31 < console_chunks(units).len(),
        console_chunks(units)[position / 31].len() <= 32,
        position % 31 < console_chunks(units)[position / 31].len() - 1,
        console_chunks(units)[position / 31][position % 31] == units[position],
        console_chunks(units)[position / 31].last() == 0,
{
}

/// Cuts text into the strings in which it is sent to the console.
pub fn console_strings(units: &[u16]) -> (strings: Vec<Vec<u16>>)
    ensures
        strings@.len() == console_chunks(units@).len(),
        forall|i: int| 0 <= i < strings@.len() ==> (#[trigger] strings@[i])@ == console_chunks(units@)[i],
{
    let len: usize = units.len();
    let mut strings: Vec<Vec<u16>> = Vec::new();
    let mut start: usize = 0;
    while start < len
        invariant
            len == units@.len(),
            start <= len,
            start == len || start == 31 * strings@.len(),
            start == len ==> strings@.len() == console_chunk_count(len as int),
            strings@.len() <= console_chunk_count(len as int),
            forall|i: int|
                0 <= i < strings@.len() ==> (#[trigger] strings@[i])@ == console_chunk(units@, i),
        decreases len - start,
    {
        let end: usize = if len - start > CONSOLE_CHUNK_UNITS {
            start + CONSOLE_CHUNK_UNITS
        } else {
            len
        };
        let mut string: Vec<u16> = Vec::new();
        let mut next: usize = start;
        while next < end
            invariant
                start <= next <= end <= len,
                len == units@.len(),
                string@ == units@.subrange(start as int, next as int),
            decreases end - next,
        {
            string.push(units[next]);
            assert(string@ =~= units@.subrange(start as int, next + 1));
            next = next + 1;
        }
        string.push(0);
        assert(string@ == console_chunk(units@, strings@.len() as int));
        strings.push(string);
        start = end;
    }
    strings
}

} // verus!
