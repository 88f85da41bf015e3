//! The configuration that is fixed once for a whole build.

use vstd::prelude::*;

verus! {

/// The three ways a CPU primitive can be carried out. One of them is chosen
/// for the whole build; the choice never depends on the primitive.
#[derive(Clone, Copy, Debug, PartialEq, Eq, Structural)]
pub enum Backend {
    /// The instruction is emitted at the call site.
    NativeInline,
    /// A separately compiled routine is called through the foreign boundary.
    ExternalRoutine,
    /// A stand-in for symbolic analysis: nothing reaches the hardware, and a
    /// value read from it is left unconstrained.
    VerificationStub,
}

/// The architecture variant of the target core.
#[derive(Clone, Copy, Debug, PartialEq, Eq, Structural)]
pub enum Core {
    /// ARMv6-M.
    V6m,
    /// ARMv7-M.
    V7m,
    /// ARMv7E-M.
    V7em,
}

/// Whether the workaround for the BASEPRI write defect is active.
#[derive(Clone, Copy, Debug, PartialEq, Eq, Structural)]
pub enum Errata {
    /// BASEPRI is written directly.
    Off,
    /// Every write of BASEPRI happens with interrupts masked.
    On,
}

/// The build configuration: target core, backend and errata workaround.
#[derive(Clone, Copy, Debug, PartialEq, Eq, Structural)]
pub struct Config {
    /// The target core.
    pub core: Core,
    /// The backend used by every primitive.
    pub backend: Backend,
    /// The errata workaround.
    pub errata: Errata,
}

impl Core {
    /// Whether the core has the BASEPRI register.
    pub open spec fn spec_has_basepri(self) -> bool {
        self != Core::V6m
    }

    /// Whether the core has the BASEPRI register.
    #[verifier::when_used_as_spec(spec_has_basepri)]
    pub fn has_basepri(self) -> (b: bool)
        ensures
            b == self.spec_has_basepri(),
    {
        match self {
            Core::V6m => false,
            Core::V7m => true,
            Core::V7em => true,
        }
    }

    /// Whether the core has the optional trace and debug units (ITM, FPB,
    /// TPIU).
    pub open spec fn spec_has_trace_units(self) -> bool {
        self != Core::V6m
    }

    /// Whether the core has the optional trace and debug units (ITM, FPB,
    /// TPIU).
    #[verifier::when_used_as_spec(spec_has_trace_units)]
    pub fn has_trace_units(self) -> (b: bool)
        ensures
            b == self.spec_has_trace_units(),
    {
        match self {
            Core::V6m => false,
            Core::V7m => true,
            Core::V7em => true,
        }
    }
}

impl Config {
    /// Puts the three choices together.
    pub fn new(core: Core, backend: Backend, errata: Errata) -> (config: Config)
        ensures
            config == (Config { core, backend, errata }),
    {
        Config { core, backend, errata }
    }
}

} // verus!
