//! Base Priority Mask Register

use vstd::prelude::*;
use crate::backend::{Backend, Config, Errata};
use crate::emit::{emission, emit, Argument, Emission, Operation, Register, Routine};

verus! {

/// The priority that a raw word read from the register stands for: its
/// low byte.
pub open spec fn spec_decode(raw: u32) -> u8 {
    (raw & 0xff) as u8
}

/// The raw word that stands for the priority.
pub open spec fn spec_encode(basepri: u8) -> u32 {
    basepri as u32
}

/// Decodes a raw word read from the register.
#[verifier::when_used_as_spec(spec_decode)]
pub fn decode(raw: u32) -> (basepri: u8)
    ensures
        basepri == spec_decode(raw),
        basepri == raw & 0xff,
{
    let low: u32 = raw & 0xff;
    assert(low <= 0xff) by (bit_vector)
        requires
            low == raw & 0xff,
    ;
    low as u8
}

/// What a write of the register amounts to. With the errata workaround on,
/// the write never happens with interrupts unmasked: in place it is put
/// inside a critical section, and as a call it goes to the routine that
/// masks them itself.
pub open spec fn write_emission(config: Config, basepri: u8) -> Emission {
    let op = Operation::Write(Register::Basepri, spec_encode(basepri));
    match (config.backend, config.errata) {
        (Backend::NativeInline, Errata::Off) => Emission::Inline(op),
        (Backend::NativeInline, Errata::On) => Emission::InlineMasked(op),
        (Backend::ExternalRoutine, Errata::Off) => Emission::Call(
            Routine::BasepriW,
            Argument::Byte(basepri),
        ),
        (Backend::ExternalRoutine, Errata::On) => Emission::Call(
            Routine::BasepriWCm7R0p1,
            Argument::Byte(basepri),
        ),
        (Backend::VerificationStub, _) => Emission::Skip,
    }
}

/// How the CPU register is read. What comes back is decoded by [`decode`].
pub fn read(config: Config) -> (e: Emission)
    requires
        config.core.spec_has_basepri(),
    ensures
        e == emission(config.backend, Operation::Read(Register::Basepri)),
{
    emit(config.backend, Operation::Read(Register::Basepri))
}

/// How the CPU register is written.
///
/// Cores with the write defect are served by the errata workaround of the
/// configuration; the caller does not have to know about it.
pub fn write(config: Config, basepri: u8) -> (e: Emission)
    requires
        config.core.spec_has_basepri(),
    ensures
        e == write_emission(config, basepri),
        config.errata is Off ==> e == emission(
            config.backend,
            Operation::Write(Register::Basepri, spec_encode(basepri)),
        ),
        config.errata is On ==> !(e is Inline) && !(e matches Emission::Call(routine, _)
            && routine == Routine::BasepriW),
        e matches Emission::Call(routine, argument) ==> routine.spec_accepts(argument),
{
    let op = Operation::Write(Register::Basepri, basepri as u32);
    assert((basepri as u32) & 0xff == basepri as u32) by (bit_vector);
    match config.errata {
        Errata::Off => emit(config.backend, op),
        Errata::On => match config.backend {
            Backend::NativeInline => Emission::InlineMasked(op),
            Backend::ExternalRoutine => Emission::Call(
                Routine::BasepriWCm7R0p1,
                Argument::Byte(basepri),
            ),
            Backend::VerificationStub => Emission::Skip,
        },
    }
}

/// A priority survives encoding and decoding, and a word that is decoded
/// and encoded again keeps its low byte and loses every other bit.
pub proof fn lemma_basepri_round_trip(basepri: u8, raw: u32)
    ensures
        spec_decode(spec_encode(basepri)) == basepri,
        spec_encode(spec_decode(raw)) == raw & 0xff,
        raw & !0xffu32 == 0 ==> spec_encode(spec_decode(raw)) == raw,
{
    assert((basepri as u32) & 0xff == basepri as u32) by (bit_vector);
    assert(raw & 0xff <= 0xff) by (bit_vector);
    assert(raw & !0xffu32 == 0 ==> raw & 0xff == raw) by (bit_vector);
}

} // verus!
