//! Volatile cells and the layout of register blocks
//!
//! A [`Cell`] names one hardware register of 8, 16 or 32 bits by its byte
//! offset inside its block and by what may be done to it. Reading or
//! writing a cell yields a [`Transfer`]: the one access to memory that has
//! to happen, to be carried out exactly once, in program order and even if
//! its result is never looked at. What the hardware does on the access is
//! not known here.
//!
//! A [`Layout`] is how a block is written down: field after field in the
//! order of the address map, with the reserved gaps between them.

use vstd::prelude::*;

verus! {

/// The bytes of one register word.
pub const WORD: u32 = 4;

/// What may be done to a cell.
#[derive(Clone, Copy, Debug, PartialEq, Eq, Structural)]
pub enum Access {
    /// The cell can only be read.
    ReadOnly,
    /// The cell can only be written.
    WriteOnly,
    /// The cell can be read, written and modified.
    ReadWrite,
}

/// How wide one access to memory is.
#[derive(Clone, Copy, Debug, PartialEq, Eq, Structural)]
pub enum Width {
    /// Eight bits.
    Byte,
    /// Sixteen bits.
    HalfWord,
    /// Thirty-two bits.
    Word,
}

/// One volatile access to memory, at a byte offset inside a register block.
#[derive(Clone, Copy, Debug, PartialEq, Eq, Structural)]
pub enum Transfer {
    /// A read of the given width.
    Read {
        /// Where to read.
        offset: u32,
        /// How much to read.
        width: Width,
    },
    /// A write of the given width.
    Write {
        /// Where to write.
        offset: u32,
        /// How much to write.
        width: Width,
        /// What to write; it fits the width.
        value: u32,
    },
}

/// A single hardware register: a value of 8, 16 or 32 bits at a fixed
/// offset, with a declared access capability.
#[derive(Debug)]
pub struct Cell {
    offset: u32,
    width: Width,
    access: Access,
}

/// A run of equally sized records inside a block.
#[derive(Debug)]
pub struct Array {
    offset: u32,
    count: u32,
    stride: u32,
}

/// A register block as it is being laid out.
#[derive(Debug)]
pub struct Layout {
    start: u32,
    cursor: u32,
}

impl Access {
    /// Whether a cell with this capability can be read.
    pub open spec fn spec_can_read(self) -> bool {
        self == Access::ReadOnly || self == Access::ReadWrite
    }

    /// Whether a cell with this capability can be read.
    #[verifier::when_used_as_spec(spec_can_read)]
    pub fn can_read(self) -> (b: bool)
        ensures
            b == self.spec_can_read(),
    {
        match self {
            Access::ReadOnly => true,
            Access::WriteOnly => false,
            Access::ReadWrite => true,
        }
    }

    /// Whether a cell with this capability can be written.
    pub open spec fn spec_can_write(self) -> bool {
        self == Access::WriteOnly || self == Access::ReadWrite
    }

    /// Whether a cell with this capability can be written.
    #[verifier::when_used_as_spec(spec_can_write)]
    pub fn can_write(self) -> (b: bool)
        ensures
            b == self.spec_can_write(),
    {
        match self {
            Access::ReadOnly => false,
            Access::WriteOnly => true,
            Access::ReadWrite => true,
        }
    }

    /// Whether a cell with this capability can be modified, that is read
    /// and then written.
    pub open spec fn spec_can_modify(self) -> bool {
        self == Access::ReadWrite
    }

    /// Whether a cell with this capability can be modified.
    #[verifier::when_used_as_spec(spec_can_modify)]
    pub fn can_modify(self) -> (b: bool)
        ensures
            b == self.spec_can_modify(),
            b == (self.spec_can_read() && self.spec_can_write()),
    {
        match self {
            Access::ReadOnly => false,
            Access::WriteOnly => false,
            Access::ReadWrite => true,
        }
    }
}

impl Width {
    /// The bytes that an access of this width moves.
    pub open spec fn spec_bytes(self) -> u32 {
        match self {
            Width::Byte => 1,
            Width::HalfWord => 2,
            Width::Word => 4,
        }
    }

    /// The bytes that an access of this width moves.
    #[verifier::when_used_as_spec(spec_bytes)]
    pub fn bytes(self) -> (n: u32)
        ensures
            n == self.spec_bytes(),
    {
        match self {
            Width::Byte => 1,
            Width::HalfWord => 2,
            Width::Word => 4,
        }
    }

    /// The largest value that an access of this width carries.
    pub open spec fn spec_max(self) -> u32 {
        match self {
            Width::Byte => 0xff,
            Width::HalfWord => 0xffff,
            Width::Word => 0xffff_ffff,
        }
    }

    /// The largest value that an access of this width carries.
    #[verifier::when_used_as_spec(spec_max)]
    pub fn max(self) -> (n: u32)
        ensures
            n == self.spec_max(),
    {
        match self {
            Width::Byte => 0xff,
            Width::HalfWord => 0xffff,
            Width::Word => 0xffff_ffff,
        }
    }
}

impl Transfer {
    /// Whether the transfer stays inside one aligned word and carries a
    /// value of its width.
    pub open spec fn well_formed(self) -> bool {
        match self {
            Transfer::Read { offset, width } => offset % width.spec_bytes() == 0,
            Transfer::Write { offset, width, value } => offset % width.spec_bytes() == 0 && value
                <= width.spec_max(),
        }
    }
}

impl Cell {
    /// The byte offset of the cell inside its block.
    pub closed spec fn spec_offset(&self) -> u32 {
        self.offset
    }

    /// How wide the cell is.
    pub closed spec fn spec_width(&self) -> Width {
        self.width
    }

    /// What may be done to the cell.
    pub closed spec fn spec_access(&self) -> Access {
        self.access
    }

    /// Whether the cell is the 32-bit register at `offset` with the
    /// capability `access`.
    pub open spec fn is_at(&self, offset: u32, access: Access) -> bool {
        self.spec_offset() == offset && self.spec_width() == Width::Word && self.spec_access()
            == access
    }

    #[verifier::type_invariant]
    spec fn aligned(&self) -> bool {
        self.offset % self.width.spec_bytes() == 0
    }

    /// The byte offset of the cell inside its block, a multiple of the
    /// bytes that the cell is wide.
    #[verifier::when_used_as_spec(spec_offset)]
    pub fn offset(&self) -> (offset: u32)
        ensures
            offset == self.spec_offset(),
            offset % self.spec_width().spec_bytes() == 0,
    {
        proof {
            use_type_invariant(self);
        }
        self.offset
    }

    /// How wide the cell is.
    #[verifier::when_used_as_spec(spec_width)]
    pub fn width(&self) -> (width: Width)
        ensures
            width == self.spec_width(),
    {
        self.width
    }

    /// What may be done to the cell.
    #[verifier::when_used_as_spec(spec_access)]
    pub fn access(&self) -> (access: Access)
        ensures
            access == self.spec_access(),
    {
        self.access
    }

    /// Reads the cell: one read of its width.
    pub fn read(&self) -> (t: Transfer)
        requires
            self.spec_access().spec_can_read(),
        ensures
            t == (Transfer::Read { offset: self.spec_offset(), width: self.spec_width() }),
            t.well_formed(),
    {
        proof {
            use_type_invariant(self);
        }
        Transfer::Read { offset: self.offset, width: self.width }
    }

    /// Writes `value` to the cell: one write of its width.
    pub fn write(&self, value: u32) -> (t: Transfer)
        requires
            self.spec_access().spec_can_write(),
            value <= self.spec_width().spec_max(),
        ensures
            t == (Transfer::Write {
                offset: self.spec_offset(),
                width: self.spec_width(),
                value,
            }),
            t.well_formed(),
    {
        proof {
            use_type_invariant(self);
        }
        Transfer::Write { offset: self.offset, width: self.width, value }
    }

    /// The second half of a read-modify-write. `current` is what the read
    /// of the cell gave; the result writes what `f` makes of it. `f` is
    /// called exactly once, and what it gives fits the cell.
    ///
    /// The two accesses are not atomic: an interrupt that touches the cell
    /// between them races with the write.
    pub fn modify<F: FnOnce(u32) -> u32>(&self, current: u32, f: F) -> (t: Transfer)
        requires
            self.spec_access().spec_can_modify(),
            f.requires((current,)),
            forall|v: u32| f.ensures((current,), v) ==> v <= self.spec_width().spec_max(),
        ensures
            t matches Transfer::Write { offset, width, value } && offset == self.spec_offset()
                && width == self.spec_width() && f.ensures((current,), value),
            t.well_formed(),
    {
        proof {
            use_type_invariant(self);
        }
        let value = f(current);
        Transfer::Write { offset: self.offset, width: self.width, value }
    }
}

impl Array {
    /// The byte offset of the first record.
    pub closed spec fn spec_offset(&self) -> u32 {
        self.offset
    }

    /// The number of records.
    pub closed spec fn spec_count(&self) -> u32 {
        self.count
    }

    /// The bytes from one record to the next.
    pub closed spec fn spec_stride(&self) -> u32 {
        self.stride
    }

    #[verifier::type_invariant]
    spec fn in_range(&self) -> bool {
        &&& self.offset % WORD == 0
        &&& self.stride % WORD == 0
        &&& self.offset + self.count * self.stride <= u32::MAX
    }

    /// The byte offset of the first record.
    #[verifier::when_used_as_spec(spec_offset)]
    pub fn offset(&self) -> (offset: u32)
        ensures
            offset == self.spec_offset(),
    {
        self.offset
    }

    /// The number of records.
    #[verifier::when_used_as_spec(spec_count)]
    pub fn count(&self) -> (count: u32)
        ensures
            count == self.spec_count(),
    {
        self.count
    }

    /// The bytes from one record to the next.
    #[verifier::when_used_as_spec(spec_stride)]
    pub fn stride(&self) -> (stride: u32)
        ensures
            stride == self.spec_stride(),
    {
        self.stride
    }

    /// The byte offset of the record `index`.
    pub fn slot(&self, index: u32) -> (offset: u32)
        requires
            index < self.spec_count(),
        ensures
            offset == self.spec_offset() + index * self.spec_stride(),
            offset % 4 == 0,
    {
        proof {
            use_type_invariant(self);
            let (i, n, s) = (index as int, self.count as int, self.stride as int);
            assert(i * s <= n * s) by (nonlinear_arith)
                requires
                    0 <= i < n,
                    0 <= s,
            ;
            assert(0 <= i * s) by (nonlinear_arith)
                requires
                    0 <= i,
                    0 <= s,
            ;
            let w = s / 4;
            assert(i * s == 4 * (i * w)) by (nonlinear_arith)
                requires
                    s == 4 * w,
            ;
        }
        self.offset + index * self.stride
    }

    /// The record `index` as a single 32-bit cell. This is for arrays
    /// whose records are one register each.
    pub fn cell(&self, index: u32, access: Access) -> (cell: Cell)
        requires
            index < self.spec_count(),
        ensures
            cell.is_at((self.spec_offset() + index * self.spec_stride()) as u32, access),
    {
        Cell { offset: self.slot(index), width: Width::Word, access }
    }
}

impl Layout {
    /// The byte offset at which the block starts.
    pub closed spec fn spec_start(&self) -> u32 {
        self.start
    }

    /// The byte offset at which the next field starts.
    pub closed spec fn spec_cursor(&self) -> u32 {
        self.cursor
    }

    /// The bytes laid out so far.
    pub open spec fn spec_size(&self) -> int {
        self.spec_cursor() - self.spec_start()
    }

    #[verifier::type_invariant]
    spec fn ordered(&self) -> bool {
        self.start <= self.cursor
    }

    /// An empty block at offset zero.
    pub fn new() -> (layout: Layout)
        ensures
            layout.spec_start() == 0,
            layout.spec_cursor() == 0,
    {
        Layout { start: 0, cursor: 0 }
    }

    /// An empty record that starts at `offset`.
    pub fn at(offset: u32) -> (layout: Layout)
        ensures
            layout.spec_start() == offset,
            layout.spec_cursor() == offset,
    {
        Layout { start: offset, cursor: offset }
    }

    /// The byte offset at which the next field starts.
    #[verifier::when_used_as_spec(spec_cursor)]
    pub fn cursor(&self) -> (cursor: u32)
        ensures
            cursor == self.spec_cursor(),
    {
        self.cursor
    }

    /// The bytes laid out so far.
    pub fn size(&self) -> (size: u32)
        ensures
            size == self.spec_size(),
    {
        proof {
            use_type_invariant(self);
        }
        self.cursor - self.start
    }

    /// Lays out one 32-bit cell and hands it back.
    pub fn cell(&mut self, access: Access) -> (cell: Cell)
        requires
            old(self).spec_cursor() % 4 == 0,
            old(self).spec_cursor() + 4 <= u32::MAX,
        ensures
            cell.is_at(old(self).spec_cursor(), access),
            final(self).spec_start() == old(self).spec_start(),
            final(self).spec_cursor() == old(self).spec_cursor() + 4,
    {
        self.narrow(Width::Word, access)
    }

    /// Lays out one cell of the given width and hands it back. The cell
    /// lies at a multiple of its width; a gap before it is written down
    /// with [`Layout::pad`].
    pub fn narrow(&mut self, width: Width, access: Access) -> (cell: Cell)
        requires
            old(self).spec_cursor() % width.spec_bytes() == 0,
            old(self).spec_cursor() + width.spec_bytes() <= u32::MAX,
        ensures
            cell.spec_offset() == old(self).spec_cursor(),
            cell.spec_width() == width,
            cell.spec_access() == access,
            final(self).spec_start() == old(self).spec_start(),
            final(self).spec_cursor() == old(self).spec_cursor() + width.spec_bytes(),
    {
        proof {
            use_type_invariant(&*self);
        }
        let offset = self.cursor;
        self.cursor = offset + width.bytes();
        Cell { offset, width, access }
    }

    /// Lays out `count` records of `words` words each and hands them back.
    pub fn array(&mut self, count: u32, words: u32) -> (array: Array)
        requires
            old(self).spec_cursor() % 4 == 0,
            4 * words <= u32::MAX,
            old(self).spec_cursor() + count * (4 * words) <= u32::MAX,
        ensures
            array.spec_offset() == old(self).spec_cursor(),
            array.spec_count() == count,
            array.spec_stride() == 4 * words,
            final(self).spec_start() == old(self).spec_start(),
            final(self).spec_cursor() == old(self).spec_cursor() + count * (4 * words),
    {
        proof {
            use_type_invariant(&*self);
        }
        let offset = self.cursor;
        let stride = WORD * words;
        proof {
            let (n, s) = (count as int, stride as int);
            assert(0 <= n * s) by (nonlinear_arith)
                requires
                    0 <= n,
                    0 <= s,
            ;
        }
        self.cursor = offset + count * stride;
        Array { offset, count, stride }
    }

    /// Leaves `words` words out. No cell names them, so nothing can read
    /// or write them.
    pub fn reserved(&mut self, words: u32)
        requires
            old(self).spec_cursor() + 4 * words <= u32::MAX,
        ensures
            final(self).spec_start() == old(self).spec_start(),
            final(self).spec_cursor() == old(self).spec_cursor() + 4 * words,
    {
        proof {
            use_type_invariant(&*self);
        }
        self.cursor = self.cursor + WORD * words;
    }

    /// Leaves `bytes` bytes out, as [`Layout::reserved`] does with words.
    pub fn pad(&mut self, bytes: u32)
        requires
            old(self).spec_cursor() + bytes <= u32::MAX,
        ensures
            final(self).spec_start() == old(self).spec_start(),
            final(self).spec_cursor() == old(self).spec_cursor() + bytes,
    {
        proof {
            use_type_invariant(&*self);
        }
        self.cursor = self.cursor + bytes;
    }
}

} // verus!
