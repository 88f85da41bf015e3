//! Flash Patch and Breakpoint unit
//!
//! *NOTE* Available only on ARMv7-M

use vstd::prelude::*;
use crate::volatile::{Access, Array, Cell, Layout};

verus! {

/// The number of comparators in the block.
pub const COMPARATORS: u32 = 127;

/// Register block
#[derive(Debug)]
pub struct RegisterBlock {
    /// Control
    pub ctrl: Cell,
    /// Remap
    pub remap: Cell,
    /// Comparator
    pub comp: Array,
    /// Lock Access
    pub lar: Cell,
    /// Lock Status
    pub lsr: Cell,
    /// The bytes that the block takes up.
    pub size: u32,
}

/// The handle of the unit. There is one, and it is handed out by the
/// registry of peripherals.
#[allow(clippy::upper_case_acronyms)]
#[derive(Debug)]
pub struct FPB {
    _0: (),
}

impl RegisterBlock {
    /// Whether every field lies where the architecture documents it.
    pub open spec fn documented(&self) -> bool {
        &&& self.ctrl.is_at(0x000, Access::ReadWrite)
        &&& self.remap.is_at(0x004, Access::ReadWrite)
        &&& self.comp.spec_offset() == 0x008
        &&& self.comp.spec_count() == COMPARATORS
        &&& self.comp.spec_stride() == 0x4
        &&& self.lar.is_at(0xfb0, Access::WriteOnly)
        &&& self.lsr.is_at(0xfb4, Access::ReadOnly)
        &&& self.size == 0xfb8
    }

    /// Lays the block out, field by field in the order of the address map.
    pub fn new() -> (block: RegisterBlock)
        ensures
            block.documented(),
    {
        let mut layout = Layout::new();
        let ctrl = layout.cell(Access::ReadWrite);
        let remap = layout.cell(Access::ReadWrite);
        let comp = layout.array(COMPARATORS, 1);
        layout.reserved(875);
        let lar = layout.cell(Access::WriteOnly);
        let lsr = layout.cell(Access::ReadOnly);
        let size = layout.size();
        RegisterBlock { ctrl, remap, comp, lar, lsr, size }
    }

    /// The comparator register `index`.
    pub fn comparator(&self, index: u32) -> (cell: Cell)
        requires
            self.documented(),
            index < COMPARATORS,
        ensures
            cell.is_at((0x008 + 0x4 * index) as u32, Access::ReadWrite),
    {
        self.comp.cell(index, Access::ReadWrite)
    }
}

impl FPB {
    pub(crate) fn new() -> FPB {
        FPB { _0: () }
    }

    /// The register block of the unit.
    pub fn block(&self) -> (block: RegisterBlock)
        ensures
            block.documented(),
    {
        RegisterBlock::new()
    }
}

} // verus!
