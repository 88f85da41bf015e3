//! Instrumentation Trace Macrocell
//!
//! *NOTE* Available only on ARMv7-M

use vstd::prelude::*;
use crate::volatile::{Access, Array, Cell, Layout, Transfer, Width};

verus! {

/// The number of stimulus ports in the block.
pub const PORTS: u32 = 256;

/// The number of trace enable registers in the block.
pub const TRACE_ENABLES: u32 = 8;

/// What a stimulus port reads as while it accepts data.
pub const FIFO_READY: u32 = 1;

/// Register block
#[derive(Debug)]
pub struct RegisterBlock {
    /// Stimulus Port
    pub stim: Array,
    /// Trace Enable
    pub ter: Array,
    /// Trace Privilege
    pub tpr: Cell,
    /// Trace Control
    pub tcr: Cell,
    /// Lock Access
    pub lar: Cell,
    /// Lock Status
    pub lsr: Cell,
    /// The bytes that the block takes up.
    pub size: u32,
}

/// Stimulus Port
///
/// One word of the block that takes a payload of one, two or four bytes,
/// each as a write of that width to the same address.
#[derive(Debug)]
pub struct Stim {
    register: u32,
}

/// The handle of the unit. There is one, and it is handed out by the
/// registry of peripherals.
#[allow(clippy::upper_case_acronyms)]
#[derive(Debug)]
pub struct ITM {
    _0: (),
}

impl RegisterBlock {
    /// Whether every field lies where the architecture documents it.
    pub open spec fn documented(&self) -> bool {
        &&& self.stim.spec_offset() == 0x000
        &&& self.stim.spec_count() == PORTS
        &&& self.stim.spec_stride() == 0x4
        &&& self.ter.spec_offset() == 0xe00
        &&& self.ter.spec_count() == TRACE_ENABLES
        &&& self.ter.spec_stride() == 0x4
        &&& self.tpr.is_at(0xe40, Access::ReadWrite)
        &&& self.tcr.is_at(0xe80, Access::ReadWrite)
        &&& self.lar.is_at(0xfb0, Access::WriteOnly)
        &&& self.lsr.is_at(0xfb4, Access::ReadOnly)
        &&& self.size == 0xfb8
    }

    /// Lays the block out, field by field in the order of the address map.
    pub fn new() -> (block: RegisterBlock)
        ensures
            block.documented(),
    {
        let mut layout = Layout::new();
        let stim = layout.array(PORTS, 1);
        layout.reserved(640);
        let ter = layout.array(TRACE_ENABLES, 1);
        layout.reserved(8);
        let tpr = layout.cell(Access::ReadWrite);
        layout.reserved(15);
        let tcr = layout.cell(Access::ReadWrite);
        layout.reserved(75);
        let lar = layout.cell(Access::WriteOnly);
        let lsr = layout.cell(Access::ReadOnly);
        let size = layout.size();
        RegisterBlock { stim, ter, tpr, tcr, lar, lsr, size }
    }

    /// The stimulus port `index`.
    pub fn port(&self, index: u32) -> (port: Stim)
        requires
            self.documented(),
            index < PORTS,
        ensures
            port.spec_offset() == 0x4 * index,
    {
        Stim { register: self.stim.slot(index) }
    }

    /// The stimulus port that lies at the byte offset `offset`, if one
    /// does: the ports are the first 256 words of the block.
    pub fn port_at(&self, offset: u32) -> (port: Option<Stim>)
        requires
            self.documented(),
        ensures
            port is Some <==> offset % 4 == 0 && offset < 0x400,
            port matches Some(p) ==> p.spec_offset() == offset,
    {
        if offset % 4 == 0 && offset / 4 < PORTS {
            Some(self.port(offset / 4))
        } else {
            None
        }
    }

    /// The trace enable register `index`.
    pub fn trace_enable(&self, index: u32) -> (cell: Cell)
        requires
            self.documented(),
            index < TRACE_ENABLES,
        ensures
            cell.is_at((0xe00 + 0x4 * index) as u32, Access::ReadWrite),
    {
        self.ter.cell(index, Access::ReadWrite)
    }
}

impl Stim {
    /// The byte offset of the port inside the block.
    pub closed spec fn spec_offset(&self) -> u32 {
        self.register
    }

    #[verifier::type_invariant]
    spec fn aligned(&self) -> bool {
        self.register % 4 == 0
    }

    /// The byte offset of the port inside the block.
    #[verifier::when_used_as_spec(spec_offset)]
    pub fn offset(&self) -> (offset: u32)
        ensures
            offset == self.spec_offset(),
    {
        self.register
    }

    /// Writes an `u8` payload into the stimulus port
    pub fn write_u8(&mut self, value: u8) -> (t: Transfer)
        ensures
            t == (Transfer::Write {
                offset: old(self).spec_offset(),
                width: Width::Byte,
                value: value as u32,
            }),
            t.well_formed(),
            final(self).spec_offset() == old(self).spec_offset(),
    {
        Transfer::Write { offset: self.register, width: Width::Byte, value: value as u32 }
    }

    /// Writes an `u16` payload into the stimulus port
    pub fn write_u16(&mut self, value: u16) -> (t: Transfer)
        ensures
            t == (Transfer::Write {
                offset: old(self).spec_offset(),
                width: Width::HalfWord,
                value: value as u32,
            }),
            t.well_formed(),
            final(self).spec_offset() == old(self).spec_offset(),
    {
        proof {
            use_type_invariant(&*self);
        }
        Transfer::Write { offset: self.register, width: Width::HalfWord, value: value as u32 }
    }

    /// Writes an `u32` payload into the stimulus port
    pub fn write_u32(&mut self, value: u32) -> (t: Transfer)
        ensures
            t == (Transfer::Write {
                offset: old(self).spec_offset(),
                width: Width::Word,
                value,
            }),
            t.well_formed(),
            final(self).spec_offset() == old(self).spec_offset(),
    {
        proof {
            use_type_invariant(&*self);
        }
        Transfer::Write { offset: self.register, width: Width::Word, value }
    }

    /// How the state of the port is read: one read of its word. The word
    /// that comes back is judged by [`Stim::is_fifo_ready`].
    pub fn status(&self) -> (t: Transfer)
        ensures
            t == (Transfer::Read { offset: self.spec_offset(), width: Width::Word }),
            t.well_formed(),
    {
        proof {
            use_type_invariant(self);
        }
        Transfer::Read { offset: self.register, width: Width::Word }
    }

    /// Returns `true` if the stimulus port is ready to accept more data
    ///
    /// `status` is the word that the read of the port gave.
    pub fn is_fifo_ready(&self, status: u32) -> (ready: bool)
        ensures
            ready == (status == FIFO_READY),
    {
        status == FIFO_READY
    }
}

impl ITM {
    pub(crate) fn new() -> ITM {
        ITM { _0: () }
    }

    /// The register block of the unit.
    pub fn block(&self) -> (block: RegisterBlock)
        ensures
            block.documented(),
    {
        RegisterBlock::new()
    }
}

} // verus!
