//! Emulation core for a 16-bit-extended 6502-family processor over a
//! bank-switched 24-bit address space.
//!
//! The crate is split into the status register ([`flags`]), the memory
//! management unit ([`mmu`]), the width-aware arithmetic and flag primitives
//! ([`ops`]), the instruction decoder ([`inst`]), the execution engine
//! ([`cpu`]) and the textual projections of machine state ([`disasm`]).

pub mod cpu;
pub mod disasm;
pub mod flags;
pub mod inst;
pub mod mmu;
pub mod ops;
