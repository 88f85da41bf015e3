//! Typed access to the CPU state of Cortex-M cores.
//!
//! The library decides; it never touches hardware itself. Every primitive is
//! a function from the build configuration and plain values to a description
//! of the single hardware operation that has to happen: an [`emit::Emission`]
//! for CPU instructions and special registers, a [`volatile::Transfer`] for
//! memory-mapped registers. The code that owns the hardware carries the
//! description out and hands raw machine words back for decoding.
//!
//! - [`backend`]: the configuration of a build.
//! - [`emit`]: operations, and what each backend makes of them.
//! - [`instruction`]: the single instructions, `bkpt` to `dmb`, and `delay`.
//! - [`register`]: the special registers and their codecs.
//! - [`interrupt`]: critical sections.
//! - [`volatile`]: cells, transfers and the layout of register blocks.
//! - [`peripheral`]: the register blocks of DWT, FPB, ITM and TPIU, and the
//!   registry that hands their handles out.

pub mod backend;
pub mod emit;
pub mod instruction;
pub mod interrupt;
pub mod peripheral;
pub mod register;
pub mod volatile;

pub use peripheral::Peripherals;
