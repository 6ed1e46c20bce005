//! The processor status register: an 8-bit set of condition and mode bits.

use vstd::prelude::*;

verus! {

/// Status register bits.
///
/// Bit 4 is dual-purpose: it selects the index-register width in native mode
/// and carries the break mark in emulation mode. Bit 5 selects the
/// accumulator width in native mode and is unused in emulation mode. Each is
/// one storage bit; only its interpretation depends on the emulation flag,
/// which lives outside this register.
#[derive(Debug, Clone, Copy, PartialEq, Eq, Structural)]
pub struct Flags {
    /// Bit 0: carry.
    pub carry: bool,
    /// Bit 1: zero.
    pub zero: bool,
    /// Bit 2: interrupt-request disable.
    pub irq_disable: bool,
    /// Bit 3: decimal mode (arithmetic semantics for it are out of scope).
    pub decimal: bool,
    /// Bit 4: index-register width select (native) / break mark (emulation).
    pub index_break: bool,
    /// Bit 5: accumulator width select (native); unused in emulation mode.
    pub memory_select: bool,
    /// Bit 6: overflow.
    pub overflow: bool,
    /// Bit 7: negative.
    pub negative: bool,
}

/// All bits clear.
pub open spec fn spec_empty() -> Flags {
    Flags {
        carry: false,
        zero: false,
        irq_disable: false,
        decimal: false,
        index_break: false,
        memory_select: false,
        overflow: false,
        negative: false,
    }
}

/// Numeric value of one bit.
pub open spec fn bit_val(b: bool, weight: int) -> int {
    if b {
        weight
    } else {
        0
    }
}

/// The register packed into one byte, bit 0 the carry through bit 7 the
/// negative flag.
pub open spec fn spec_bits(f: Flags) -> u8 {
    (bit_val(f.carry, 0x01) + bit_val(f.zero, 0x02) + bit_val(f.irq_disable, 0x04)
        + bit_val(f.decimal, 0x08) + bit_val(f.index_break, 0x10) + bit_val(
        f.memory_select,
        0x20,
    ) + bit_val(f.overflow, 0x40) + bit_val(f.negative, 0x80)) as u8
}

/// The byte unpacked into the eight bits.
pub open spec fn spec_from_bits(v: u8) -> Flags {
    Flags {
        carry: v % 2 == 1,
        zero: v / 0x02 % 2 == 1,
        irq_disable: v / 0x04 % 2 == 1,
        decimal: v / 0x08 % 2 == 1,
        index_break: v / 0x10 % 2 == 1,
        memory_select: v / 0x20 % 2 == 1,
        overflow: v / 0x40 % 2 == 1,
        negative: v / 0x80 % 2 == 1,
    }
}

/// Bitwise union of two flag sets.
pub open spec fn flags_or(a: Flags, b: Flags) -> Flags {
    Flags {
        carry: a.carry || b.carry,
        zero: a.zero || b.zero,
        irq_disable: a.irq_disable || b.irq_disable,
        decimal: a.decimal || b.decimal,
        index_break: a.index_break || b.index_break,
        memory_select: a.memory_select || b.memory_select,
        overflow: a.overflow || b.overflow,
        negative: a.negative || b.negative,
    }
}

/// Bitwise difference: the bits of `a` that are not set in `b`.
pub open spec fn flags_and_not(a: Flags, b: Flags) -> Flags {
    Flags {
        carry: a.carry && !b.carry,
        zero: a.zero && !b.zero,
        irq_disable: a.irq_disable && !b.irq_disable,
        decimal: a.decimal && !b.decimal,
        index_break: a.index_break && !b.index_break,
        memory_select: a.memory_select && !b.memory_select,
        overflow: a.overflow && !b.overflow,
        negative: a.negative && !b.negative,
    }
}

impl Flags {
    /// A register with every bit clear.
    pub fn empty() -> (f: Flags)
        ensures
            f == spec_empty(),
    {
        Flags {
            carry: false,
            zero: false,
            irq_disable: false,
            decimal: false,
            index_break: false,
            memory_select: false,
            overflow: false,
            negative: false,
        }
    }

    /// Packs the register into one byte.
    pub fn bits(&self) -> (v: u8)
        ensures
            v == spec_bits(*self),
    {
        let mut v: u8 = 0;
        if self.carry {
            v = v + 0x01;
        }
        if self.zero {
            v = v + 0x02;
        }
        if self.irq_disable {
            v = v + 0x04;
        }
        if self.decimal {
            v = v + 0x08;
        }
        if self.index_break {
            v = v + 0x10;
        }
        if self.memory_select {
            v = v + 0x20;
        }
        if self.overflow {
            v = v + 0x40;
        }
        if self.negative {
            v = v + 0x80;
        }
        v
    }

    /// Unpacks a byte into the eight bits.
    pub fn from_bits(v: u8) -> (f: Flags)
        ensures
            f == spec_from_bits(v),
    {
        Flags {
            carry: v % 2 == 1,
            zero: v / 0x02 % 2 == 1,
            irq_disable: v / 0x04 % 2 == 1,
            decimal: v / 0x08 % 2 == 1,
            index_break: v / 0x10 % 2 == 1,
            memory_select: v / 0x20 % 2 == 1,
            overflow: v / 0x40 % 2 == 1,
            negative: v / 0x80 % 2 == 1,
        }
    }

    /// Sets every bit that is set in `mask`.
    pub fn with_set(self, mask: Flags) -> (f: Flags)
        ensures
            f == flags_or(self, mask),
    {
        Flags {
            carry: self.carry || mask.carry,
            zero: self.zero || mask.zero,
            irq_disable: self.irq_disable || mask.irq_disable,
            decimal: self.decimal || mask.decimal,
            index_break: self.index_break || mask.index_break,
            memory_select: self.memory_select || mask.memory_select,
            overflow: self.overflow || mask.overflow,
            negative: self.negative || mask.negative,
        }
    }

    /// Clears every bit that is set in `mask`.
    pub fn with_cleared(self, mask: Flags) -> (f: Flags)
        ensures
            f == flags_and_not(self, mask),
    {
        Flags {
            carry: self.carry && !mask.carry,
            zero: self.zero && !mask.zero,
            irq_disable: self.irq_disable && !mask.irq_disable,
            decimal: self.decimal && !mask.decimal,
            index_break: self.index_break && !mask.index_break,
            memory_select: self.memory_select && !mask.memory_select,
            overflow: self.overflow && !mask.overflow,
            negative: self.negative && !mask.negative,
        }
    }
}

} // verus!
