//! Program counter

use vstd::prelude::*;
use crate::backend::Backend;
use crate::emit::{emission, emit, Emission, Operation, Register};

verus! {

/// How the CPU register is read.
///
/// **NOTE** No routine reads this register: the instruction is emitted in
/// place, or the stand-in leaves the value open.
pub fn read(backend: Backend) -> (e: Emission)
    requires
        !(backend is ExternalRoutine),
    ensures
        e == emission(backend, Operation::Read(Register::Pc)),
        backend is NativeInline ==> e == Emission::Inline(Operation::Read(Register::Pc)),
        backend is VerificationStub ==> e == Emission::Symbolic(Register::Pc),
{
    emit(backend, Operation::Read(Register::Pc))
}

/// How `bits` is written to the CPU register
///
/// **NOTE** This is possible only where the instruction is emitted in
/// place.
pub fn write(backend: Backend, bits: u32) -> (e: Emission)
    requires
        backend is NativeInline,
    ensures
        e == Emission::Inline(Operation::Write(Register::Pc, bits)),
{
    emit(backend, Operation::Write(Register::Pc, bits))
}

} // verus!
