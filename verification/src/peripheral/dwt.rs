//! Data Watchpoint and Trace unit

use vstd::prelude::*;
use crate::volatile::{Access, Array, Cell, Layout, Transfer, Width};

verus! {

/// The number of comparators in the block.
pub const COMPARATORS: u32 = 16;

/// Bit 0 of the control register: the cycle counter runs.
pub const CYCCNTENA: u32 = 0x1;

/// Register block
#[derive(Debug)]
pub struct RegisterBlock {
    /// Control
    pub ctrl: Cell,
    /// Cycle Count
    pub cyccnt: Cell,
    /// CPI Count
    pub cpicnt: Cell,
    /// Exception Overhead Count
    pub exccnt: Cell,
    /// Sleep Count
    pub sleepcnt: Cell,
    /// LSU Count
    pub lsucnt: Cell,
    /// Folded-instruction Count
    pub foldcnt: Cell,
    /// Program Counter Sample
    pub pcsr: Cell,
    /// Comparators
    pub c: Array,
    /// Lock Access
    pub lar: Cell,
    /// Lock Status
    pub lsr: Cell,
    /// The bytes that the block takes up.
    pub size: u32,
}

/// Comparator
#[derive(Debug)]
pub struct Comparator {
    /// Comparator
    pub comp: Cell,
    /// Comparator Mask
    pub mask: Cell,
    /// Comparator Function
    pub function: Cell,
}

/// The handle of the unit. There is one, and it is handed out by the
/// registry of peripherals.
#[allow(clippy::upper_case_acronyms)]
#[derive(Debug)]
pub struct DWT {
    _0: (),
}

impl RegisterBlock {
    /// Whether every field lies where the architecture documents it.
    pub open spec fn documented(&self) -> bool {
        &&& self.ctrl.is_at(0x000, Access::ReadWrite)
        &&& self.cyccnt.is_at(0x004, Access::ReadWrite)
        &&& self.cpicnt.is_at(0x008, Access::ReadWrite)
        &&& self.exccnt.is_at(0x00c, Access::ReadWrite)
        &&& self.sleepcnt.is_at(0x010, Access::ReadWrite)
        &&& self.lsucnt.is_at(0x014, Access::ReadWrite)
        &&& self.foldcnt.is_at(0x018, Access::ReadWrite)
        &&& self.pcsr.is_at(0x01c, Access::ReadOnly)
        &&& self.c.spec_offset() == 0x020
        &&& self.c.spec_count() == COMPARATORS
        &&& self.c.spec_stride() == 0x10
        &&& self.lar.is_at(0xfb0, Access::WriteOnly)
        &&& self.lsr.is_at(0xfb4, Access::ReadOnly)
        &&& self.size == 0xfb8
    }

    /// Lays the block out, field by field in the order of the address map.
    pub fn new() -> (block: RegisterBlock)
        ensures
            block.documented(),
    {
        let mut layout = Layout::new();
        let ctrl = layout.cell(Access::ReadWrite);
        let cyccnt = layout.cell(Access::ReadWrite);
        let cpicnt = layout.cell(Access::ReadWrite);
        let exccnt = layout.cell(Access::ReadWrite);
        let sleepcnt = layout.cell(Access::ReadWrite);
        let lsucnt = layout.cell(Access::ReadWrite);
        let foldcnt = layout.cell(Access::ReadWrite);
        let pcsr = layout.cell(Access::ReadOnly);
        let c = layout.array(COMPARATORS, 4);
        layout.reserved(932);
        let lar = layout.cell(Access::WriteOnly);
        let lsr = layout.cell(Access::ReadOnly);
        let size = layout.size();
        RegisterBlock {
            ctrl,
            cyccnt,
            cpicnt,
            exccnt,
            sleepcnt,
            lsucnt,
            foldcnt,
            pcsr,
            c,
            lar,
            lsr,
            size,
        }
    }

    /// The comparator `index`.
    pub fn comparator(&self, index: u32) -> (comparator: Comparator)
        requires
            self.documented(),
            index < COMPARATORS,
        ensures
            comparator.documented_at((0x020 + 0x10 * index) as u32),
    {
        Comparator::at(self.c.slot(index))
    }
}

impl Comparator {
    /// Whether the three registers lie where the architecture documents
    /// them, in a comparator that starts at `offset`. The fourth word of a
    /// comparator is reserved.
    pub open spec fn documented_at(&self, offset: u32) -> bool {
        &&& self.comp.is_at((offset + 0x0) as u32, Access::ReadWrite)
        &&& self.mask.is_at((offset + 0x4) as u32, Access::ReadWrite)
        &&& self.function.is_at((offset + 0x8) as u32, Access::ReadWrite)
    }

    /// Lays out the comparator that starts at `offset`.
    pub fn at(offset: u32) -> (comparator: Comparator)
        requires
            offset % 4 == 0,
            offset + 0x10 <= u32::MAX,
        ensures
            comparator.documented_at(offset),
    {
        let mut layout = Layout::at(offset);
        let comp = layout.cell(Access::ReadWrite);
        let mask = layout.cell(Access::ReadWrite);
        let function = layout.cell(Access::ReadWrite);
        layout.reserved(1);
        Comparator { comp, mask, function }
    }
}

impl DWT {
    pub(crate) fn new() -> DWT {
        DWT { _0: () }
    }

    /// The register block of the unit.
    pub fn block(&self) -> (block: RegisterBlock)
        ensures
            block.documented(),
    {
        RegisterBlock::new()
    }

    /// Enables the cycle counter
    ///
    /// `ctrl` is the control register as just read. The result writes it
    /// back with the enable bit set and every other bit as it was.
    pub fn enable_cycle_counter(&mut self, ctrl: u32) -> (t: Transfer)
        ensures
            t == (Transfer::Write { offset: 0x000, width: Width::Word, value: ctrl | CYCCNTENA }),
    {
        let block = self.block();
        let set = |r: u32| -> (v: u32)
            ensures
                v == r | CYCCNTENA,
            { r | CYCCNTENA };
        block.ctrl.modify(ctrl, set)
    }

    /// How the current clock cycle count is read: one read of the cycle
    /// count register. The word that comes back is the count.
    pub fn get_cycle_count() -> (t: Transfer)
        ensures
            t == (Transfer::Read { offset: 0x004, width: Width::Word }),
    {
        let block = RegisterBlock::new();
        block.cyccnt.read()
    }
}

} // verus!
