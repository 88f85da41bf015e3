//! Trace Port Interface Unit;
//!
//! *NOTE* Available only on ARMv7-M

use vstd::prelude::*;
use crate::volatile::{Access, Cell, Layout};

verus! {

/// Register block
#[derive(Debug)]
pub struct RegisterBlock {
    /// Supported Parallel Port Sizes
    pub sspsr: Cell,
    /// Current Parallel Port Size
    pub cspsr: Cell,
    /// Asynchronous Clock Prescaler
    pub acpr: Cell,
    /// Selected Pin Control
    pub sppr: Cell,
    /// Formatter and Flush Control
    pub ffcr: Cell,
    /// Lock Access
    pub lar: Cell,
    /// Lock Status
    pub lsr: Cell,
    /// TPIU Type
    pub _type: Cell,
    /// The bytes that the block takes up.
    pub size: u32,
}

/// The handle of the unit. There is one, and it is handed out by the
/// registry of peripherals.
#[allow(clippy::upper_case_acronyms)]
#[derive(Debug)]
pub struct TPIU {
    _0: (),
}

impl RegisterBlock {
    /// Whether every field lies where the architecture documents it.
    pub open spec fn documented(&self) -> bool {
        &&& self.sspsr.is_at(0x000, Access::ReadOnly)
        &&& self.cspsr.is_at(0x004, Access::ReadWrite)
        &&& self.acpr.is_at(0x010, Access::ReadWrite)
        &&& self.sppr.is_at(0x0f0, Access::ReadWrite)
        &&& self.ffcr.is_at(0x304, Access::ReadWrite)
        &&& self.lar.is_at(0xfb0, Access::WriteOnly)
        &&& self.lsr.is_at(0xfb4, Access::ReadOnly)
        &&& self._type.is_at(0xfc8, Access::ReadOnly)
        &&& self.size == 0xfcc
    }

    /// Lays the block out, field by field in the order of the address map.
    pub fn new() -> (block: RegisterBlock)
        ensures
            block.documented(),
    {
        let mut layout = Layout::new();
        let sspsr = layout.cell(Access::ReadOnly);
        let cspsr = layout.cell(Access::ReadWrite);
        layout.reserved(2);
        let acpr = layout.cell(Access::ReadWrite);
        layout.reserved(55);
        let sppr = layout.cell(Access::ReadWrite);
        layout.reserved(132);
        let ffcr = layout.cell(Access::ReadWrite);
        layout.reserved(810);
        let lar = layout.cell(Access::WriteOnly);
        let lsr = layout.cell(Access::ReadOnly);
        layout.reserved(4);
        let _type = layout.cell(Access::ReadOnly);
        let size = layout.size();
        RegisterBlock { sspsr, cspsr, acpr, sppr, ffcr, lar, lsr, _type, size }
    }
}

impl TPIU {
    pub(crate) fn new() -> TPIU {
        TPIU { _0: () }
    }

    /// The register block of the unit.
    pub fn block(&self) -> (block: RegisterBlock)
        ensures
            block.documented(),
    {
        RegisterBlock::new()
    }
}

} // verus!
