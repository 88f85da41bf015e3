//! Control register

use vstd::prelude::*;
use crate::backend::Backend;
use crate::emit::{emission, emit, Emission, Operation, Register};

verus! {

/// Bit 0 of CONTROL: the privilege level of thread mode.
pub const NPRIV: u32 = 0x1;

/// Bit 1 of CONTROL: the stack pointer in use.
pub const SPSEL: u32 = 0x2;

/// Bit 2 of CONTROL: whether a floating-point context is active.
pub const FPCA: u32 = 0x4;

/// Control register
///
/// The value is the whole 32-bit word as the core holds it. The three named
/// fields are read out of it; the bits that the architecture reserves are
/// carried along untouched.
#[derive(Clone, Copy, Debug)]
pub struct Control {
    bits: u32,
}

/// Thread mode privilege level
#[derive(Clone, Copy, Debug, Eq, PartialEq, Structural)]
pub enum Npriv {
    /// Privileged
    Privileged,
    /// Unprivileged
    Unprivileged,
}

/// Currently active stack pointer
#[derive(Clone, Copy, Debug, Eq, PartialEq, Structural)]
pub enum Spsel {
    /// MSP is the current stack pointer
    Msp,
    /// PSP is the current stack pointer
    Psp,
}

/// Whether context floating-point is currently active
#[derive(Clone, Copy, Debug, Eq, PartialEq, Structural)]
pub enum Fpca {
    /// Floating-point context active.
    Active,
    /// No floating-point context active
    NotActive,
}

/// Whether every bit of `mask` is set in `bits`.
pub open spec fn is_set(bits: u32, mask: u32) -> bool {
    bits & mask == mask
}

/// `bits` with the bits of `mask` set or cleared, and every other bit as it
/// was.
pub open spec fn with_bits(bits: u32, mask: u32, set: bool) -> u32 {
    if set {
        bits | mask
    } else {
        bits & !mask
    }
}

/// The privilege level that a CONTROL word holds.
pub open spec fn npriv_of(bits: u32) -> Npriv {
    if is_set(bits, NPRIV) {
        Npriv::Unprivileged
    } else {
        Npriv::Privileged
    }
}

/// The stack pointer selection that a CONTROL word holds.
pub open spec fn spsel_of(bits: u32) -> Spsel {
    if is_set(bits, SPSEL) {
        Spsel::Psp
    } else {
        Spsel::Msp
    }
}

/// The floating-point context state that a CONTROL word holds.
pub open spec fn fpca_of(bits: u32) -> Fpca {
    if is_set(bits, FPCA) {
        Fpca::Active
    } else {
        Fpca::NotActive
    }
}

/// The CONTROL word `bits` with the privilege level replaced.
pub open spec fn with_npriv(bits: u32, npriv: Npriv) -> u32 {
    with_bits(bits, NPRIV, npriv is Unprivileged)
}

/// The CONTROL word `bits` with the stack pointer selection replaced.
pub open spec fn with_spsel(bits: u32, spsel: Spsel) -> u32 {
    with_bits(bits, SPSEL, spsel is Psp)
}

/// The CONTROL word `bits` with the floating-point context state replaced.
pub open spec fn with_fpca(bits: u32, fpca: Fpca) -> u32 {
    with_bits(bits, FPCA, fpca is Active)
}

impl View for Control {
    type V = u32;

    /// The raw word.
    closed spec fn view(&self) -> u32 {
        self.bits
    }
}

impl Control {
    /// The value that holds exactly the word `bits`.
    pub closed spec fn spec_from_bits(bits: u32) -> Control {
        Control { bits }
    }

    /// Creates a `Control` value from raw bits.
    #[verifier::when_used_as_spec(spec_from_bits)]
    pub fn from_bits(bits: u32) -> (control: Self)
        ensures
            control == Self::spec_from_bits(bits),
            control@ == bits,
    {
        Self { bits }
    }

    /// Returns the contents of the register as raw bits
    pub fn bits(self) -> (bits: u32)
        ensures
            bits == self@,
    {
        self.bits
    }

    /// Thread mode privilege level
    pub fn npriv(self) -> (npriv: Npriv)
        ensures
            npriv == npriv_of(self@),
    {
        if self.bits & NPRIV == NPRIV {
            Npriv::Unprivileged
        } else {
            Npriv::Privileged
        }
    }

    /// Sets the thread mode privilege level value (nPRIV).
    ///
    /// Bit 0 becomes what `npriv` says; no other bit changes.
    pub fn set_npriv(&mut self, npriv: Npriv)
        ensures
            final(self)@ == with_npriv(old(self)@, npriv),
            npriv_of(final(self)@) == npriv,
            final(self)@ & !NPRIV == old(self)@ & !NPRIV,
    {
        proof {
            lemma_with_bits(self.bits, NPRIV, npriv is Unprivileged);
        }
        match npriv {
            Npriv::Unprivileged => self.bits = self.bits | NPRIV,
            Npriv::Privileged => self.bits = self.bits & !NPRIV,
        }
    }

    /// Currently active stack pointer
    pub fn spsel(self) -> (spsel: Spsel)
        ensures
            spsel == spsel_of(self@),
    {
        if self.bits & SPSEL == SPSEL {
            Spsel::Psp
        } else {
            Spsel::Msp
        }
    }

    /// Sets the SPSEL value.
    ///
    /// Bit 1 becomes what `spsel` says; no other bit changes.
    pub fn set_spsel(&mut self, spsel: Spsel)
        ensures
            final(self)@ == with_spsel(old(self)@, spsel),
            spsel_of(final(self)@) == spsel,
            final(self)@ & !SPSEL == old(self)@ & !SPSEL,
    {
        proof {
            lemma_with_bits(self.bits, SPSEL, spsel is Psp);
        }
        match spsel {
            Spsel::Psp => self.bits = self.bits | SPSEL,
            Spsel::Msp => self.bits = self.bits & !SPSEL,
        }
    }

    /// Whether context floating-point is currently active
    pub fn fpca(self) -> (fpca: Fpca)
        ensures
            fpca == fpca_of(self@),
    {
        if self.bits & FPCA == FPCA {
            Fpca::Active
        } else {
            Fpca::NotActive
        }
    }

    /// Sets the FPCA value.
    ///
    /// Bit 2 becomes what `fpca` says; no other bit changes.
    pub fn set_fpca(&mut self, fpca: Fpca)
        ensures
            final(self)@ == with_fpca(old(self)@, fpca),
            fpca_of(final(self)@) == fpca,
            final(self)@ & !FPCA == old(self)@ & !FPCA,
    {
        proof {
            lemma_with_bits(self.bits, FPCA, fpca is Active);
        }
        match fpca {
            Fpca::Active => self.bits = self.bits | FPCA,
            Fpca::NotActive => self.bits = self.bits & !FPCA,
        }
    }
}

impl Npriv {
    /// Is in privileged thread mode?
    pub fn is_privileged(self) -> (b: bool)
        ensures
            b == (self is Privileged),
    {
        self == Npriv::Privileged
    }

    /// Is in unprivileged thread mode?
    pub fn is_unprivileged(self) -> (b: bool)
        ensures
            b == (self is Unprivileged),
    {
        self == Npriv::Unprivileged
    }
}

impl Spsel {
    /// Is MSP the current stack pointer?
    pub fn is_msp(self) -> (b: bool)
        ensures
            b == (self is Msp),
    {
        self == Spsel::Msp
    }

    /// Is PSP the current stack pointer?
    pub fn is_psp(self) -> (b: bool)
        ensures
            b == (self is Psp),
    {
        self == Spsel::Psp
    }
}

impl Fpca {
    /// Is a floating-point context active?
    pub fn is_active(self) -> (b: bool)
        ensures
            b == (self is Active),
    {
        self == Fpca::Active
    }

    /// Is a floating-point context not active?
    pub fn is_not_active(self) -> (b: bool)
        ensures
            b == (self is NotActive),
    {
        self == Fpca::NotActive
    }
}

/// How the CPU register is read. The word that comes back is decoded by
/// [`Control::from_bits`].
pub fn read(backend: Backend) -> (e: Emission)
    ensures
        e == emission(backend, Operation::Read(Register::Control)),
        backend is VerificationStub ==> e == Emission::Symbolic(Register::Control),
{
    emit(backend, Operation::Read(Register::Control))
}

/// How the CPU register is written. The stand-in for symbolic analysis
/// cannot write CONTROL.
pub fn write(backend: Backend, control: Control) -> (e: Emission)
    requires
        !(backend is VerificationStub),
    ensures
        e == emission(backend, Operation::Write(Register::Control, control@)),
        e.spec_touches_hardware(),
{
    emit(backend, Operation::Write(Register::Control, control.bits()))
}

/// Setting or clearing a single bit yields a word in which that bit has the
/// asked value and every other bit is unchanged.
pub proof fn lemma_with_bits(bits: u32, mask: u32, set: bool)
    requires
        mask == NPRIV || mask == SPSEL || mask == FPCA,
    ensures
        is_set(with_bits(bits, mask, set), mask) == set,
        with_bits(bits, mask, set) & !mask == bits & !mask,
{
    assert((bits | mask) & mask == mask) by (bit_vector);
    assert((bits | mask) & !mask == bits & !mask) by (bit_vector);
    assert((bits & !mask) & !mask == bits & !mask) by (bit_vector);
    assert(mask != 0 ==> (bits & !mask) & mask != mask) by (bit_vector);
}

/// The CONTROL word that holds the three fields and nothing else: every
/// reserved bit is clear.
pub open spec fn encode(npriv: Npriv, spsel: Spsel, fpca: Fpca) -> u32 {
    with_fpca(with_spsel(with_npriv(0, npriv), spsel), fpca)
}

/// The bits of CONTROL that carry a field.
pub const FIELDS: u32 = 0x7;

/// A value built from a word holds that word, and the value built from
/// the word that a value holds is that value.
pub proof fn lemma_bits_round_trip(bits: u32, control: Control)
    ensures
        Control::spec_from_bits(bits)@ == bits,
        Control::spec_from_bits(control@) == control,
{
}

/// A field reads back as it was set, whatever the word held before.
pub proof fn lemma_field_reads_back(bits: u32, npriv: Npriv, spsel: Spsel, fpca: Fpca)
    ensures
        npriv_of(with_npriv(bits, npriv)) == npriv,
        spsel_of(with_spsel(bits, spsel)) == spsel,
        fpca_of(with_fpca(bits, fpca)) == fpca,
{
    lemma_with_bits(bits, NPRIV, npriv is Unprivileged);
    lemma_with_bits(bits, SPSEL, spsel is Psp);
    lemma_with_bits(bits, FPCA, fpca is Active);
}

/// Setting a field to what the word already holds changes nothing.
pub proof fn lemma_field_writes_back(bits: u32)
    ensures
        with_npriv(bits, npriv_of(bits)) == bits,
        with_spsel(bits, spsel_of(bits)) == bits,
        with_fpca(bits, fpca_of(bits)) == bits,
{
    lemma_write_back(bits, NPRIV);
    lemma_write_back(bits, SPSEL);
    lemma_write_back(bits, FPCA);
}

/// The three fields of a word, encoded again, give the word with its
/// reserved bits cleared; and encoding three fields gives a word that
/// decodes to them. So a word without reserved bits survives the round trip
/// unchanged.
pub proof fn lemma_codec_round_trip(bits: u32, npriv: Npriv, spsel: Spsel, fpca: Fpca)
    ensures
        encode(npriv_of(bits), spsel_of(bits), fpca_of(bits)) == bits & FIELDS,
        bits & !FIELDS == 0 ==> encode(npriv_of(bits), spsel_of(bits), fpca_of(bits)) == bits,
        npriv_of(encode(npriv, spsel, fpca)) == npriv,
        spsel_of(encode(npriv, spsel, fpca)) == spsel,
        fpca_of(encode(npriv, spsel, fpca)) == fpca,
        encode(npriv, spsel, fpca) & !FIELDS == 0,
{
    let a = is_set(bits, NPRIV);
    let b = is_set(bits, SPSEL);
    let c = is_set(bits, FPCA);
    assert(with_bits(with_bits(with_bits(0, NPRIV, a), SPSEL, b), FPCA, c) == bits & FIELDS)
        by (bit_vector)
        requires
            a == is_set(bits, NPRIV),
            b == is_set(bits, SPSEL),
            c == is_set(bits, FPCA),
    ;
    assert(bits & !FIELDS == 0 ==> bits & FIELDS == bits) by (bit_vector);
    let x = npriv is Unprivileged;
    let y = spsel is Psp;
    let z = fpca is Active;
    let word = with_bits(with_bits(with_bits(0, NPRIV, x), SPSEL, y), FPCA, z);
    assert(is_set(word, NPRIV) == x && is_set(word, SPSEL) == y && is_set(word, FPCA) == z && word
        & !FIELDS == 0) by (bit_vector)
        requires
            word == with_bits(with_bits(with_bits(0, NPRIV, x), SPSEL, y), FPCA, z),
    ;
}

/// A setter leaves the other two fields, and every reserved bit, as they
/// were.
pub proof fn lemma_setters_are_independent(bits: u32, npriv: Npriv, spsel: Spsel, fpca: Fpca)
    ensures
        with_npriv(bits, npriv) & !NPRIV == bits & !NPRIV,
        spsel_of(with_npriv(bits, npriv)) == spsel_of(bits),
        fpca_of(with_npriv(bits, npriv)) == fpca_of(bits),
        with_spsel(bits, spsel) & !SPSEL == bits & !SPSEL,
        npriv_of(with_spsel(bits, spsel)) == npriv_of(bits),
        fpca_of(with_spsel(bits, spsel)) == fpca_of(bits),
        with_fpca(bits, fpca) & !FPCA == bits & !FPCA,
        npriv_of(with_fpca(bits, fpca)) == npriv_of(bits),
        spsel_of(with_fpca(bits, fpca)) == spsel_of(bits),
        with_npriv(bits, npriv) & !FIELDS == bits & !FIELDS,
        with_spsel(bits, spsel) & !FIELDS == bits & !FIELDS,
        with_fpca(bits, fpca) & !FIELDS == bits & !FIELDS,
{
    lemma_with_bits(bits, NPRIV, npriv is Unprivileged);
    lemma_with_bits(bits, SPSEL, spsel is Psp);
    lemma_with_bits(bits, FPCA, fpca is Active);
    lemma_other_bits(bits, with_npriv(bits, npriv), NPRIV);
    lemma_other_bits(bits, with_spsel(bits, spsel), SPSEL);
    lemma_other_bits(bits, with_fpca(bits, fpca), FPCA);
}

/// Setting a field twice to the same value gives the word that setting it
/// once gives.
pub proof fn lemma_setters_are_idempotent(bits: u32, npriv: Npriv, spsel: Spsel, fpca: Fpca)
    ensures
        with_npriv(with_npriv(bits, npriv), npriv) == with_npriv(bits, npriv),
        with_spsel(with_spsel(bits, spsel), spsel) == with_spsel(bits, spsel),
        with_fpca(with_fpca(bits, fpca), fpca) == with_fpca(bits, fpca),
{
    lemma_twice(bits, NPRIV, npriv is Unprivileged);
    lemma_twice(bits, SPSEL, spsel is Psp);
    lemma_twice(bits, FPCA, fpca is Active);
}

proof fn lemma_write_back(bits: u32, mask: u32)
    requires
        mask == NPRIV || mask == SPSEL || mask == FPCA,
    ensures
        with_bits(bits, mask, is_set(bits, mask)) == bits,
{
    assert(bits & mask == mask ==> bits | mask == bits) by (bit_vector);
    // A mask of one bit that is not set in the word is wholly clear in it.
    assert(mask == 0x1 || mask == 0x2 || mask == 0x4 ==> (bits & mask != mask ==> bits & !mask
        == bits)) by (bit_vector);
}

proof fn lemma_other_bits(before: u32, after: u32, mask: u32)
    requires
        after & !mask == before & !mask,
        mask == NPRIV || mask == SPSEL || mask == FPCA,
    ensures
        after & !FIELDS == before & !FIELDS,
        mask != NPRIV ==> is_set(after, NPRIV) == is_set(before, NPRIV),
        mask != SPSEL ==> is_set(after, SPSEL) == is_set(before, SPSEL),
        mask != FPCA ==> is_set(after, FPCA) == is_set(before, FPCA),
{
    assert(after & !mask == before & !mask && (mask == 0x1 || mask == 0x2 || mask == 0x4) ==> {
        &&& after & !0x7u32 == before & !0x7u32
        &&& (mask != 0x1 ==> (after & 0x1 == 0x1) == (before & 0x1 == 0x1))
        &&& (mask != 0x2 ==> (after & 0x2 == 0x2) == (before & 0x2 == 0x2))
        &&& (mask != 0x4 ==> (after & 0x4 == 0x4) == (before & 0x4 == 0x4))
    }) by (bit_vector);
}

proof fn lemma_twice(bits: u32, mask: u32, set: bool)
    ensures
        with_bits(with_bits(bits, mask, set), mask, set) == with_bits(bits, mask, set),
{
    assert((bits | mask) | mask == bits | mask) by (bit_vector);
    assert((bits & !mask) & !mask == bits & !mask) by (bit_vector);
}

} // verus!
