//! Process Stack Pointer

use vstd::prelude::*;
use crate::backend::Backend;
use crate::emit::{emission, emit, Emission, Operation, Register};

verus! {

/// How the CPU register is read. The word that comes back is the stack
/// pointer as it is.
pub fn read(backend: Backend) -> (e: Emission)
    ensures
        e == emission(backend, Operation::Read(Register::Psp)),
{
    emit(backend, Operation::Read(Register::Psp))
}

/// How `bits` is written to the CPU register
pub fn write(backend: Backend, bits: u32) -> (e: Emission)
    ensures
        e == emission(backend, Operation::Write(Register::Psp, bits)),
{
    emit(backend, Operation::Write(Register::Psp, bits))
}

} // verus!
