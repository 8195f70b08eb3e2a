//! What is computed from the values that the processor hands out.
use vstd::prelude::*;

verus! {

/// Address of the model-specific register with the extended feature
/// enables.
pub const IA32_EFER: u32 = 0xC000_0080;

/// The value of a model-specific register, from the two halves in which
/// the processor returns it: `eax` holds the low 32 bits, `edx` the high
/// ones.
pub fn msr_value(eax: u32, edx: u32) -> (value: u64)
    ensures
        value == edx * 0x1_0000_0000 + eax,
{
    let high: u64 = edx as u64;
    let low: u64 = eax as u64;
    high * 0x1_0000_0000 + low
}

} // verus!
