//! Core peripherals
//!
//! Each unit has one handle. The handles are handed out together, once, by
//! a [`Registry`]: whoever holds a handle is the only one to hold it.

use vstd::prelude::*;
use crate::backend::Core;
use crate::peripheral::dwt::DWT;
use crate::peripheral::fpb::FPB;
use crate::peripheral::itm::ITM;
use crate::peripheral::tpiu::TPIU;

pub mod dwt;
pub mod fpb;
pub mod itm;
pub mod tpiu;

verus! {

/// Core peripherals
#[allow(non_snake_case)]
#[derive(Debug)]
pub struct Peripherals {
    /// Data Watchpoint and Trace unit
    pub DWT: DWT,
    /// Flash Patch and Breakpoint unit, where the core has one
    pub FPB: Option<FPB>,
    /// Instrumentation Trace Macrocell, where the core has one
    pub ITM: Option<ITM>,
    /// Trace Port Interface Unit, where the core has one
    pub TPIU: Option<TPIU>,
}

/// The place that hands the peripherals out, once.
#[derive(Debug)]
pub struct Registry {
    core: Core,
    taken: bool,
}

impl Registry {
    /// The core whose peripherals these are.
    pub closed spec fn target(&self) -> Core {
        self.core
    }

    /// Whether the peripherals were handed out.
    pub closed spec fn spec_is_taken(&self) -> bool {
        self.taken
    }

    /// A registry that still holds every peripheral of the core.
    pub fn new(core: Core) -> (registry: Registry)
        ensures
            registry.target() == core,
            !registry.spec_is_taken(),
    {
        Registry { core, taken: false }
    }

    /// Whether the peripherals were handed out.
    #[verifier::when_used_as_spec(spec_is_taken)]
    pub fn is_taken(&self) -> (taken: bool)
        ensures
            taken == self.spec_is_taken(),
    {
        self.taken
    }

    /// Hands the peripherals out. This succeeds the first time and never
    /// again. The optional trace units are there exactly if the core has
    /// them.
    pub fn take(&mut self) -> (peripherals: Option<Peripherals>)
        ensures
            peripherals is Some <==> !old(self).spec_is_taken(),
            final(self).spec_is_taken(),
            final(self).target() == old(self).target(),
            peripherals matches Some(p) ==> {
                &&& p.FPB is Some <==> old(self).target().spec_has_trace_units()
                &&& p.ITM is Some <==> old(self).target().spec_has_trace_units()
                &&& p.TPIU is Some <==> old(self).target().spec_has_trace_units()
            },
    {
        if self.taken {
            None
        } else {
            self.taken = true;
            if self.core.has_trace_units() {
                Some(
                    Peripherals {
                        DWT: DWT::new(),
                        FPB: Some(FPB::new()),
                        ITM: Some(ITM::new()),
                        TPIU: Some(TPIU::new()),
                    },
                )
            } else {
                Some(Peripherals { DWT: DWT::new(), FPB: None, ITM: None, TPIU: None })
            }
        }
    }
}

} // verus!
