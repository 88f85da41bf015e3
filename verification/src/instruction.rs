//! Miscellaneous single instructions
//!
//! Each function says what its instruction amounts to under the backend of
//! the build: the instruction in place, the call of its routine, or
//! nothing. None has a result of its own, and each stands for exactly one
//! effect on the hardware.

use vstd::prelude::*;
use crate::backend::Backend;
use crate::emit::{emission, emit, supported, Argument, Emission, Operation, Routine, BKPT_NR_MAX};

verus! {

/// The cycles that one iteration of the busy loop takes.
pub const CYCLES_PER_ITERATION: u32 = 4;

/// The iterations of the busy loop that `delay(n)` runs: a quarter of `n`,
/// rounded down, and one more.
pub open spec fn spec_delay_iterations(n: u32) -> u32 {
    (n / CYCLES_PER_ITERATION + 1) as u32
}

/// The iterations of the busy loop that `delay(n)` runs.
#[verifier::when_used_as_spec(spec_delay_iterations)]
pub fn delay_iterations(n: u32) -> (iterations: u32)
    ensures
        iterations == spec_delay_iterations(n),
        iterations == n / 4 + 1,
        1 <= iterations <= 0x4000_0000,
{
    n / CYCLES_PER_ITERATION + 1
}

/// Puts the processor in Debug state. Debuggers can pick this up as a "breakpoint".
///
/// **NOTE** calling `bkpt` when the processor is not connected to a debugger will cause an
/// exception.
pub fn bkpt(backend: Backend) -> (e: Emission)
    ensures
        e == emission(backend, Operation::Bkpt),
        backend is NativeInline ==> e == Emission::Inline(Operation::Bkpt),
        backend is ExternalRoutine ==> e == Emission::Call(Routine::Bkpt, Argument::Void),
        backend is VerificationStub ==> e == Emission::Skip,
{
    emit(backend, Operation::Bkpt)
}

/// Breakpoint with the immediate `nr`.
///
/// Emitted in place, the immediate is part of the instruction, so it must
/// be known to lie in `0..=32` where the call is written. The other
/// backends take any value.
pub fn bkpt_nr(backend: Backend, nr: u8) -> (e: Emission)
    requires
        backend is NativeInline ==> nr <= BKPT_NR_MAX,
    ensures
        e == emission(backend, Operation::BkptNr(nr)),
        backend is NativeInline ==> e == Emission::Inline(Operation::BkptNr(nr)),
        backend is ExternalRoutine ==> e == Emission::Call(Routine::BkptNr, Argument::Byte(nr)),
        backend is VerificationStub ==> e == Emission::Skip,
{
    emit(backend, Operation::BkptNr(nr))
}

/// Blocks the program for *at least* `n` instruction cycles
///
/// The loop runs `n / 4 + 1` times at four cycles each, so its execution
/// time does not depend on the optimization level.
///
/// NOTE that the delay can take much longer if interrupts are serviced during its execution.
pub fn delay(backend: Backend, n: u32) -> (e: Emission)
    ensures
        e == emission(backend, Operation::BusyLoop(spec_delay_iterations(n))),
        backend is NativeInline ==> e == Emission::Inline(
            Operation::BusyLoop((n / 4 + 1) as u32),
        ),
        backend is ExternalRoutine ==> e == Emission::Call(
            Routine::Delay,
            Argument::Word((n / 4 + 1) as u32),
        ),
        backend is VerificationStub ==> e == Emission::Skip,
{
    emit(backend, Operation::BusyLoop(delay_iterations(n)))
}

/// A no-operation. Useful to prevent delay loops from being optimized away.
pub fn nop(backend: Backend) -> (e: Emission)
    ensures
        e == emission(backend, Operation::Nop),
        backend is NativeInline ==> e == Emission::Inline(Operation::Nop),
        backend is ExternalRoutine ==> e == Emission::Call(Routine::Nop, Argument::Void),
        backend is VerificationStub ==> e == Emission::Skip,
{
    emit(backend, Operation::Nop)
}

/// Wait For Event
pub fn wfe(backend: Backend) -> (e: Emission)
    ensures
        e == emission(backend, Operation::Wfe),
        backend is NativeInline ==> e == Emission::Inline(Operation::Wfe),
        backend is ExternalRoutine ==> e == Emission::Call(Routine::Wfe, Argument::Void),
        backend is VerificationStub ==> e == Emission::Skip,
{
    emit(backend, Operation::Wfe)
}

/// Wait For Interrupt
pub fn wfi(backend: Backend) -> (e: Emission)
    ensures
        e == emission(backend, Operation::Wfi),
        backend is NativeInline ==> e == Emission::Inline(Operation::Wfi),
        backend is ExternalRoutine ==> e == Emission::Call(Routine::Wfi, Argument::Void),
        backend is VerificationStub ==> e == Emission::Skip,
{
    emit(backend, Operation::Wfi)
}

/// Send Event
pub fn sev(backend: Backend) -> (e: Emission)
    ensures
        e == emission(backend, Operation::Sev),
        backend is NativeInline ==> e == Emission::Inline(Operation::Sev),
        backend is ExternalRoutine ==> e == Emission::Call(Routine::Sev, Argument::Void),
        backend is VerificationStub ==> e == Emission::Skip,
{
    emit(backend, Operation::Sev)
}

/// Instruction Synchronization Barrier
///
/// Flushes the pipeline in the processor, so that all instructions following the `ISB` are fetched
/// from cache or memory, after the instruction has been completed.
pub fn isb(backend: Backend) -> (e: Emission)
    ensures
        e == emission(backend, Operation::Isb),
        backend is NativeInline ==> e == Emission::Inline(Operation::Isb),
        backend is ExternalRoutine ==> e == Emission::Call(Routine::Isb, Argument::Void),
        backend is VerificationStub ==> e == Emission::Skip,
{
    emit(backend, Operation::Isb)
}

/// Data Synchronization Barrier
///
/// Acts as a special kind of memory barrier. No instruction in program order after this instruction
/// can execute until this instruction completes. This instruction completes only when both:
///
///  * any explicit memory access made before this instruction is complete
///  * all cache and branch predictor maintenance operations before this instruction complete
pub fn dsb(backend: Backend) -> (e: Emission)
    ensures
        e == emission(backend, Operation::Dsb),
        backend is NativeInline ==> e == Emission::Inline(Operation::Dsb),
        backend is ExternalRoutine ==> e == Emission::Call(Routine::Dsb, Argument::Void),
        backend is VerificationStub ==> e == Emission::Skip,
{
    emit(backend, Operation::Dsb)
}

/// Data Memory Barrier
///
/// Ensures that all explicit memory accesses that appear in program order before the `DMB`
/// instruction are observed before any explicit memory accesses that appear in program order
/// after the `DMB` instruction.
pub fn dmb(backend: Backend) -> (e: Emission)
    ensures
        e == emission(backend, Operation::Dmb),
        backend is NativeInline ==> e == Emission::Inline(Operation::Dmb),
        backend is ExternalRoutine ==> e == Emission::Call(Routine::Dmb, Argument::Void),
        backend is VerificationStub ==> e == Emission::Skip,
{
    emit(backend, Operation::Dmb)
}

/// The busy loop of `delay(n)` never takes fewer than `n` cycles, and at
/// most four more; its iteration count is `n / 4 + 1` without wrapping, one
/// for `n == 0` and a quarter of the word range for the largest `n`.
pub proof fn lemma_delay_bounds(n: u32)
    ensures
        spec_delay_iterations(n) == n / 4 + 1,
        n < CYCLES_PER_ITERATION * spec_delay_iterations(n) <= n + CYCLES_PER_ITERATION,
        spec_delay_iterations(0) == 1,
        spec_delay_iterations(u32::MAX) == 0x4000_0000,
{
}

/// Every backend takes a breakpoint immediate of `0..=32`. Above that, the
/// instruction cannot be emitted in place, while the other two backends
/// still take the value.
pub proof fn lemma_bkpt_nr_range(backend: Backend, nr: u8)
    ensures
        nr <= 32 ==> supported(backend, Operation::BkptNr(nr)),
        nr > 32 ==> (supported(backend, Operation::BkptNr(nr)) <==> !(backend is NativeInline)),
{
}

/// Under the stand-in no instruction reaches the hardware; emitted in
/// place, none goes through a call.
pub proof fn lemma_backend_is_uniform(backend: Backend, op: Operation)
    requires
        supported(backend, op),
    ensures
        backend is VerificationStub ==> !emission(backend, op).spec_touches_hardware(),
        backend is NativeInline ==> emission(backend, op) == Emission::Inline(op),
        backend is ExternalRoutine ==> emission(backend, op) is Call,
{
}

} // verus!
