//! Priority mask register

use vstd::prelude::*;
use crate::backend::Backend;
use crate::emit::{emission, emit, Emission, Operation, Register};

verus! {

/// Bit 0 of PRIMASK. The bit is set while the exceptions are masked.
pub const PM: u32 = 0x1;

/// All exceptions with configurable priority are ...
#[derive(Clone, Copy, Debug, Eq, PartialEq, Structural)]
pub enum Primask {
    /// Active
    Active,
    /// Inactive
    Inactive,
}

/// The state that a PRIMASK word stands for. The polarity is inverted: a
/// set bit masks the exceptions, so they are inactive.
pub open spec fn primask_of(bits: u32) -> Primask {
    if bits & PM == PM {
        Primask::Inactive
    } else {
        Primask::Active
    }
}

/// The PRIMASK word that stands for the state, with every reserved bit
/// clear.
pub open spec fn bits_of(primask: Primask) -> u32 {
    match primask {
        Primask::Active => 0,
        Primask::Inactive => PM,
    }
}

impl Primask {
    /// All exceptions with configurable priority are active
    pub fn is_active(self) -> (b: bool)
        ensures
            b == (self is Active),
    {
        self == Primask::Active
    }

    /// All exceptions with configurable priority are inactive
    pub fn is_inactive(self) -> (b: bool)
        ensures
            b == (self is Inactive),
    {
        self == Primask::Inactive
    }

    /// Decodes the raw word of the register.
    pub fn from_bits(bits: u32) -> (primask: Primask)
        ensures
            primask == primask_of(bits),
            (primask is Inactive) <==> bits & 1 == 1,
            (primask is Active) <==> bits & 1 == 0,
    {
        assert(bits & 1 == 0 || bits & 1 == 1) by (bit_vector);
        if bits & PM == PM {
            Primask::Inactive
        } else {
            Primask::Active
        }
    }

    /// Encodes the state as the raw word of the register.
    pub fn bits(self) -> (bits: u32)
        ensures
            bits == bits_of(self),
            bits == if self is Inactive { 1u32 } else { 0u32 },
    {
        match self {
            Primask::Active => 0,
            Primask::Inactive => PM,
        }
    }
}

/// How the CPU register is read. The word that comes back is decoded by
/// [`Primask::from_bits`].
pub fn read(backend: Backend) -> (e: Emission)
    ensures
        e == emission(backend, Operation::Read(Register::Primask)),
{
    emit(backend, Operation::Read(Register::Primask))
}

/// A state survives encoding and decoding, and a word that is decoded and
/// encoded again keeps its bit 0 and loses every other bit.
pub proof fn lemma_primask_round_trip(primask: Primask, bits: u32)
    ensures
        primask_of(bits_of(primask)) == primask,
        bits_of(primask_of(bits)) == bits & PM,
        bits & !PM == 0 ==> bits_of(primask_of(bits)) == bits,
{
    assert(0u32 & 1 != 1) by (bit_vector);
    assert(1u32 & 1 == 1) by (bit_vector);
    assert(bits & 1 == 0 || bits & 1 == 1) by (bit_vector);
    assert(bits & !1u32 == 0 ==> bits & 1 == bits) by (bit_vector);
}

} // verus!
