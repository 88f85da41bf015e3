//! What a primitive asks of the hardware, and how each backend obtains it.

use vstd::prelude::*;
use crate::backend::Backend;

verus! {

/// The special registers of the core.
#[derive(Clone, Copy, Debug, PartialEq, Eq, Structural)]
pub enum Register {
    /// CONTROL.
    Control,
    /// PRIMASK.
    Primask,
    /// BASEPRI.
    Basepri,
    /// The main stack pointer.
    Msp,
    /// The process stack pointer.
    Psp,
    /// The program counter, R15.
    Pc,
    /// The link register, R14.
    Lr,
}

/// One hardware operation: a single instruction with its operand, or the
/// busy loop of `delay`.
#[derive(Clone, Copy, Debug, PartialEq, Eq, Structural)]
pub enum Operation {
    /// `bkpt`.
    Bkpt,
    /// `bkpt` with the immediate encoded in the instruction.
    BkptNr(u8),
    /// A loop of four cycles per iteration, run the given number of times.
    BusyLoop(u32),
    /// `nop`.
    Nop,
    /// `wfe`.
    Wfe,
    /// `wfi`.
    Wfi,
    /// `sev`.
    Sev,
    /// `isb`, full system.
    Isb,
    /// `dsb`, full system.
    Dsb,
    /// `dmb`, full system.
    Dmb,
    /// `cpsid i`: masks the interrupts.
    Cpsid,
    /// `cpsie i`: unmasks the interrupts.
    Cpsie,
    /// Reads the register.
    Read(Register),
    /// Writes the word to the register.
    Write(Register, u32),
}

/// The separately compiled routines, one symbol each.
#[derive(Clone, Copy, Debug, PartialEq, Eq, Structural)]
pub enum Routine {
    /// Breakpoint.
    Bkpt,
    /// Breakpoint with an immediate.
    BkptNr,
    /// Busy loop.
    Delay,
    /// No operation.
    Nop,
    /// Wait for event.
    Wfe,
    /// Wait for interrupt.
    Wfi,
    /// Send event.
    Sev,
    /// Instruction synchronization barrier.
    Isb,
    /// Data synchronization barrier.
    Dsb,
    /// Data memory barrier.
    Dmb,
    /// Masks the interrupts.
    Cpsid,
    /// Unmasks the interrupts.
    Cpsie,
    /// Reads CONTROL.
    ControlR,
    /// Writes CONTROL.
    ControlW,
    /// Reads PRIMASK.
    Primask,
    /// Reads BASEPRI.
    BasepriR,
    /// Writes BASEPRI.
    BasepriW,
    /// Writes BASEPRI with interrupts masked around the write.
    BasepriWCm7R0p1,
    /// Reads MSP.
    MspR,
    /// Writes MSP.
    MspW,
    /// Reads PSP.
    PspR,
    /// Writes PSP.
    PspW,
}

/// What is handed to a routine.
#[derive(Clone, Copy, Debug, PartialEq, Eq, Structural)]
pub enum Argument {
    /// The routine takes nothing.
    Void,
    /// The routine takes one byte.
    Byte(u8),
    /// The routine takes one 32-bit word.
    Word(u32),
}

/// What has to happen at the call site of a primitive.
#[derive(Clone, Copy, Debug, PartialEq, Eq, Structural)]
pub enum Emission {
    /// The operation is emitted in place.
    Inline(Operation),
    /// The operation is emitted in place, inside a critical section.
    InlineMasked(Operation),
    /// The routine is called with the argument.
    Call(Routine, Argument),
    /// Nothing happens.
    Skip,
    /// Nothing happens; an unconstrained value stands for what the register
    /// holds.
    Symbolic(Register),
}

impl Register {
    /// Whether the register is eight bits wide.
    pub open spec fn spec_is_byte(self) -> bool {
        self == Register::Basepri
    }

    /// Whether the register is eight bits wide.
    #[verifier::when_used_as_spec(spec_is_byte)]
    pub fn is_byte(self) -> (b: bool)
        ensures
            b == self.spec_is_byte(),
    {
        match self {
            Register::Basepri => true,
            _ => false,
        }
    }
}

impl Routine {
    /// Whether the routine is called with this argument: nothing for a
    /// plain instruction and for a read, a byte for a breakpoint immediate
    /// and for an eight-bit register, a word for the busy loop and for any
    /// other register.
    pub open spec fn spec_accepts(self, argument: Argument) -> bool {
        match self {
            Routine::BkptNr | Routine::BasepriW | Routine::BasepriWCm7R0p1 => argument is Byte,
            Routine::Delay | Routine::ControlW | Routine::MspW | Routine::PspW => argument is Word,
            _ => argument is Void,
        }
    }

    /// Whether the routine is called with this argument.
    #[verifier::when_used_as_spec(spec_accepts)]
    pub fn accepts(self, argument: Argument) -> (b: bool)
        ensures
            b == self.spec_accepts(argument),
    {
        match self {
            Routine::BkptNr | Routine::BasepriW | Routine::BasepriWCm7R0p1 => match argument {
                Argument::Byte(_) => true,
                _ => false,
            },
            Routine::Delay | Routine::ControlW | Routine::MspW | Routine::PspW => match argument {
                Argument::Word(_) => true,
                _ => false,
            },
            _ => match argument {
                Argument::Void => true,
                _ => false,
            },
        }
    }

    /// Whether the routine hands a value back: the content of the register
    /// that it reads.
    pub open spec fn spec_returns_value(self) -> bool {
        self == Routine::ControlR || self == Routine::Primask || self == Routine::BasepriR || self
            == Routine::MspR || self == Routine::PspR
    }

    /// Whether the routine hands a value back.
    #[verifier::when_used_as_spec(spec_returns_value)]
    pub fn returns_value(self) -> (b: bool)
        ensures
            b == self.spec_returns_value(),
    {
        match self {
            Routine::ControlR => true,
            Routine::Primask => true,
            Routine::BasepriR => true,
            Routine::MspR => true,
            Routine::PspR => true,
            _ => false,
        }
    }
}

impl Operation {
    /// The routine that stands for the operation, if one exists.
    pub open spec fn spec_routine(self) -> Option<Routine> {
        match self {
            Operation::Bkpt => Some(Routine::Bkpt),
            Operation::BkptNr(_) => Some(Routine::BkptNr),
            Operation::BusyLoop(_) => Some(Routine::Delay),
            Operation::Nop => Some(Routine::Nop),
            Operation::Wfe => Some(Routine::Wfe),
            Operation::Wfi => Some(Routine::Wfi),
            Operation::Sev => Some(Routine::Sev),
            Operation::Isb => Some(Routine::Isb),
            Operation::Dsb => Some(Routine::Dsb),
            Operation::Dmb => Some(Routine::Dmb),
            Operation::Cpsid => Some(Routine::Cpsid),
            Operation::Cpsie => Some(Routine::Cpsie),
            Operation::Read(Register::Control) => Some(Routine::ControlR),
            Operation::Read(Register::Primask) => Some(Routine::Primask),
            Operation::Read(Register::Basepri) => Some(Routine::BasepriR),
            Operation::Read(Register::Msp) => Some(Routine::MspR),
            Operation::Read(Register::Psp) => Some(Routine::PspR),
            Operation::Read(Register::Pc) => None,
            Operation::Read(Register::Lr) => None,
            Operation::Write(Register::Control, _) => Some(Routine::ControlW),
            Operation::Write(Register::Basepri, _) => Some(Routine::BasepriW),
            Operation::Write(Register::Msp, _) => Some(Routine::MspW),
            Operation::Write(Register::Psp, _) => Some(Routine::PspW),
            Operation::Write(Register::Primask, _) => None,
            Operation::Write(Register::Pc, _) => None,
            Operation::Write(Register::Lr, _) => None,
        }
    }

    /// The routine that stands for the operation, if one exists.
    #[verifier::when_used_as_spec(spec_routine)]
    pub fn routine(self) -> (r: Option<Routine>)
        ensures
            r == self.spec_routine(),
    {
        match self {
            Operation::Bkpt => Some(Routine::Bkpt),
            Operation::BkptNr(_) => Some(Routine::BkptNr),
            Operation::BusyLoop(_) => Some(Routine::Delay),
            Operation::Nop => Some(Routine::Nop),
            Operation::Wfe => Some(Routine::Wfe),
            Operation::Wfi => Some(Routine::Wfi),
            Operation::Sev => Some(Routine::Sev),
            Operation::Isb => Some(Routine::Isb),
            Operation::Dsb => Some(Routine::Dsb),
            Operation::Dmb => Some(Routine::Dmb),
            Operation::Cpsid => Some(Routine::Cpsid),
            Operation::Cpsie => Some(Routine::Cpsie),
            Operation::Read(register) => match register {
                Register::Control => Some(Routine::ControlR),
                Register::Primask => Some(Routine::Primask),
                Register::Basepri => Some(Routine::BasepriR),
                Register::Msp => Some(Routine::MspR),
                Register::Psp => Some(Routine::PspR),
                Register::Pc => None,
                Register::Lr => None,
            },
            Operation::Write(register, _) => match register {
                Register::Control => Some(Routine::ControlW),
                Register::Basepri => Some(Routine::BasepriW),
                Register::Msp => Some(Routine::MspW),
                Register::Psp => Some(Routine::PspW),
                Register::Primask => None,
                Register::Pc => None,
                Register::Lr => None,
            },
        }
    }

    /// What the routine of the operation is called with: the immediate of a
    /// breakpoint and the value for an eight-bit register as a byte, the
    /// iteration count and the value for any other register as a word.
    pub open spec fn spec_argument(self) -> Argument {
        match self {
            Operation::BkptNr(nr) => Argument::Byte(nr),
            Operation::BusyLoop(iterations) => Argument::Word(iterations),
            Operation::Write(register, value) => if register.spec_is_byte() {
                Argument::Byte((value & 0xff) as u8)
            } else {
                Argument::Word(value)
            },
            _ => Argument::Void,
        }
    }

    /// What the routine of the operation is called with.
    #[verifier::when_used_as_spec(spec_argument)]
    pub fn argument(self) -> (a: Argument)
        ensures
            a == self.spec_argument(),
    {
        match self {
            Operation::BkptNr(nr) => Argument::Byte(nr),
            Operation::BusyLoop(iterations) => Argument::Word(iterations),
            Operation::Write(register, value) => {
                if register.is_byte() {
                    let low: u32 = value & 0xff;
                    assert(low < 0x100) by (bit_vector)
                        requires
                            low == value & 0xff,
                    ;
                    Argument::Byte(low as u8)
                } else {
                    Argument::Word(value)
                }
            },
            _ => Argument::Void,
        }
    }
}

/// The largest immediate that a breakpoint instruction is emitted with.
pub const BKPT_NR_MAX: u8 = 32;

/// Whether the backend can carry the operation out. Emitted in place, a
/// breakpoint takes no immediate above [`BKPT_NR_MAX`]; as a routine, the
/// operation needs a symbol, and an eight-bit register a value that fits;
/// the stand-in has no way to write CONTROL, the program counter or the
/// link register. PRIMASK is never written as a register, only through
/// `cpsid` and `cpsie`.
pub open spec fn supported(backend: Backend, op: Operation) -> bool {
    &&& op matches Operation::Write(register, value) ==> {
        &&& register != Register::Primask
        &&& register.spec_is_byte() ==> value <= 0xff
    }
    &&& match backend {
        Backend::NativeInline => op matches Operation::BkptNr(nr) ==> nr <= BKPT_NR_MAX,
        Backend::ExternalRoutine => op.spec_routine() is Some,
        Backend::VerificationStub => !(op matches Operation::Write(register, _) && (register
            == Register::Control || register == Register::Pc || register == Register::Lr)),
    }
}

/// What the backend does for the operation: the instruction in place, the
/// call of its routine, or nothing. The stand-in leaves the value of a
/// register that is read unconstrained.
pub open spec fn emission(backend: Backend, op: Operation) -> Emission
    recommends
        supported(backend, op),
{
    match backend {
        Backend::NativeInline => Emission::Inline(op),
        Backend::ExternalRoutine => Emission::Call(op.spec_routine().unwrap(), op.spec_argument()),
        Backend::VerificationStub => match op {
            Operation::Read(register) => Emission::Symbolic(register),
            _ => Emission::Skip,
        },
    }
}

/// Decides whether the backend can carry the operation out.
pub fn is_supported(backend: Backend, op: Operation) -> (b: bool)
    ensures
        b == supported(backend, op),
{
    let value_fits = match op {
        Operation::Write(register, value) => match register {
            Register::Primask => false,
            Register::Basepri => value <= 0xff,
            _ => true,
        },
        _ => true,
    };
    let backend_can = match backend {
        Backend::NativeInline => match op {
            Operation::BkptNr(nr) => nr <= BKPT_NR_MAX,
            _ => true,
        },
        Backend::ExternalRoutine => op.routine().is_some(),
        Backend::VerificationStub => match op {
            Operation::Write(register, _) => match register {
                Register::Control => false,
                Register::Pc => false,
                Register::Lr => false,
                _ => true,
            },
            _ => true,
        },
    };
    value_fits && backend_can
}

/// Chooses what happens at the call site for the operation under the
/// backend.
pub fn emit(backend: Backend, op: Operation) -> (e: Emission)
    requires
        supported(backend, op),
    ensures
        e == emission(backend, op),
{
    match backend {
        Backend::NativeInline => Emission::Inline(op),
        Backend::ExternalRoutine => {
            let routine = op.routine();
            Emission::Call(routine.unwrap(), op.argument())
        },
        Backend::VerificationStub => match op {
            Operation::Read(register) => Emission::Symbolic(register),
            _ => Emission::Skip,
        },
    }
}

/// Chooses what happens at the call site for the operation under the
/// backend, if the backend can carry the operation out at all.
pub fn try_emit(backend: Backend, op: Operation) -> (e: Option<Emission>)
    ensures
        e is Some <==> supported(backend, op),
        e matches Some(chosen) ==> chosen == emission(backend, op),
{
    if is_supported(backend, op) {
        Some(emit(backend, op))
    } else {
        None
    }
}

/// A call that is chosen for an operation fits the routine: the argument is
/// of the kind that the routine takes, and the routine hands a value back
/// exactly if the operation reads a register.
pub proof fn lemma_call_fits_routine(op: Operation)
    requires
        supported(Backend::ExternalRoutine, op),
    ensures
        emission(Backend::ExternalRoutine, op) matches Emission::Call(routine, argument)
            && routine.spec_accepts(argument) && (routine.spec_returns_value() <==> op is Read),
{
}

impl Emission {
    /// Whether carrying the emission out reaches the hardware.
    pub open spec fn spec_touches_hardware(self) -> bool {
        !(self is Skip || self is Symbolic)
    }

    /// Whether carrying the emission out reaches the hardware.
    #[verifier::when_used_as_spec(spec_touches_hardware)]
    pub fn touches_hardware(self) -> (b: bool)
        ensures
            b == self.spec_touches_hardware(),
    {
        match self {
            Emission::Skip => false,
            Emission::Symbolic(_) => false,
            _ => true,
        }
    }
}

} // verus!
