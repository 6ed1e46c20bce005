//! Width-aware arithmetic and flag primitives shared by the execution
//! engine: load, compare, add-with-carry and branch-offset reconstruction,
//! each in an 8-bit and a 16-bit form where the width matters.

use vstd::prelude::*;

verus! {

use crate::flags::Flags;

/// Sign bit of an 8-bit value.
pub open spec fn neg8(v: u8) -> bool {
    v >= 0x80
}

/// Sign bit of a 16-bit value.
pub open spec fn neg16(v: u16) -> bool {
    v >= 0x8000
}

/// 16-bit wrapping addition.
pub open spec fn wadd16(a: u16, b: int) -> u16 {
    if a + b > 0xFFFF {
        (a + b - 0x10000) as u16
    } else if a + b < 0 {
        (a + b + 0x10000) as u16
    } else {
        (a + b) as u16
    }
}

/// 16-bit wrapping subtraction.
pub open spec fn wsub16(a: u16, b: int) -> u16 {
    wadd16(a, -b)
}

/// 8-bit wrapping addition.
pub open spec fn wadd8(a: u8, b: int) -> u8 {
    if a + b > 0xFF {
        (a + b - 0x100) as u8
    } else if a + b < 0 {
        (a + b + 0x100) as u8
    } else {
        (a + b) as u8
    }
}

/// Negative and Zero recomputed from an 8-bit result.
pub open spec fn nz8(f: Flags, v: u8) -> Flags {
    Flags { negative: neg8(v), zero: v == 0, ..f }
}

/// Negative and Zero recomputed from a 16-bit result.
pub open spec fn nz16(f: Flags, v: u16) -> Flags {
    Flags { negative: neg16(v), zero: v == 0, ..f }
}

/// Flags after a width-8 compare of `lhs` against `rhs`: Carry iff
/// `lhs >= rhs` (unsigned), Zero iff equal, Negative from the sign bit of
/// the wrapped difference.
pub open spec fn cmp8_flags(f: Flags, lhs: u8, rhs: u8) -> Flags {
    Flags { negative: neg8(wadd8(lhs, -(rhs as int))), zero: lhs == rhs, carry: lhs >= rhs, ..f }
}

/// Flags after a width-16 compare.
pub open spec fn cmp16_flags(f: Flags, lhs: u16, rhs: u16) -> Flags {
    Flags { negative: neg16(wsub16(lhs, rhs as int)), zero: lhs == rhs, carry: lhs >= rhs, ..f }
}

/// Wrapped 8-bit sum of accumulator byte, operand and carry-in.
pub open spec fn adc8_result(a: u8, v: u8, carry: bool) -> u8 {
    wadd8(a, v + (if carry {
        1int
    } else {
        0int
    }))
}

/// Flags after a width-8 add-with-carry: Negative and Zero from the result,
/// Carry set exactly when the wrapped result is numerically below the
/// pre-operation accumulator byte (unsigned overflow).
pub open spec fn adc8_flags(f: Flags, a: u8, v: u8) -> Flags {
    let r = adc8_result(a, v, f.carry);
    Flags { negative: neg8(r), zero: r == 0, carry: r < a, ..f }
}

/// Wrapped 16-bit sum of accumulator, operand and carry-in.
pub open spec fn adc16_result(a: u16, v: u16, carry: bool) -> u16 {
    wadd16(a, v + (if carry {
        1int
    } else {
        0int
    }))
}

/// Flags after a width-16 add-with-carry.
pub open spec fn adc16_flags(f: Flags, a: u16, v: u16) -> Flags {
    let r = adc16_result(a, v, f.carry);
    Flags { negative: neg16(r), zero: r == 0, carry: r < a, ..f }
}

/// The program counter after a taken branch: the displacement byte is
/// reconstructed as an 8-bit two's-complement value, so 0x80 moves the
/// counter back by 128 and 0x7F moves it forward by 127; the move wraps
/// within 16 bits and never carries into the bank.
pub open spec fn branch_target(pc: u16, offset: u8) -> u16 {
    if offset >= 0x80 {
        wsub16(pc, 0x100 - offset)
    } else {
        wadd16(pc, offset as int)
    }
}

/// 8-bit load into a 16-bit register: the value replaces the whole register,
/// Zero set iff the value is zero, Negative iff its bit 7 is set.
pub fn load_u8(target: &mut u16, status: &mut Flags, value: u8)
    ensures
        *final(target) == value as u16,
        *final(status) == nz8(*old(status), value),
{
    *target = value as u16;
    status.negative = value >= 0x80;
    status.zero = value == 0;
}

/// 16-bit load: Zero iff the value is zero, Negative iff its bit 15 is set.
pub fn load_u16(target: &mut u16, status: &mut Flags, value: u16)
    ensures
        *final(target) == value,
        *final(status) == nz16(*old(status), value),
{
    *target = value;
    status.negative = value >= 0x8000;
    status.zero = value == 0;
}

/// Width-8 compare: sets Carry iff `lhs >= rhs`, Zero iff `lhs == rhs`,
/// Negative from the wrapped difference; no register changes.
pub fn compare_u8(status: &mut Flags, lhs: u8, rhs: u8)
    ensures
        *final(status) == cmp8_flags(*old(status), lhs, rhs),
{
    let result = lhs.wrapping_sub(rhs);
    status.negative = result >= 0x80;
    status.zero = result == 0;
    status.carry = lhs >= rhs;
}

/// Width-16 compare.
pub fn compare_u16(status: &mut Flags, lhs: u16, rhs: u16)
    ensures
        *final(status) == cmp16_flags(*old(status), lhs, rhs),
{
    let result = lhs.wrapping_sub(rhs);
    status.negative = result >= 0x8000;
    status.zero = result == 0;
    status.carry = lhs >= rhs;
}

/// Applies a fetched displacement byte to the program counter when the
/// branch condition held; otherwise leaves it alone.
pub fn branch(pc: &mut u16, offset: u8, should_branch: bool)
    ensures
        *final(pc) == if should_branch {
            branch_target(*old(pc), offset)
        } else {
            *old(pc)
        },
{
    if should_branch {
        if offset >= 0x80 {
            let back: u16 = 0x100 - offset as u16;
            *pc = pc.wrapping_sub(back);
        } else {
            *pc = pc.wrapping_add(offset as u16);
        }
    }
}

/// Width-8 add-with-carry into the low byte of the 16-bit accumulator; the
/// high byte of the target is cleared by the result.
pub fn adc_u8(target: &mut u16, status: &mut Flags, value: u8)
    ensures
        *final(target) == adc8_result((*old(target) % 0x100) as u8, value, old(status).carry)
            as u16,
        *final(status) == adc8_flags(*old(status), (*old(target) % 0x100) as u8, value),
{
    let a: u8 = (*target % 0x100) as u8;
    let carry_in: u8 = if status.carry {
        1
    } else {
        0
    };
    let result = a.wrapping_add(value).wrapping_add(carry_in);
    status.negative = result >= 0x80;
    status.zero = result == 0;
    status.carry = result < a;
    *target = result as u16;
}

/// Width-16 add-with-carry.
pub fn adc_u16(target: &mut u16, status: &mut Flags, value: u16)
    ensures
        *final(target) == adc16_result(*old(target), value, old(status).carry),
        *final(status) == adc16_flags(*old(status), *old(target), value),
{
    let a: u16 = *target;
    let carry_in: u16 = if status.carry {
        1
    } else {
        0
    };
    let result = a.wrapping_add(value).wrapping_add(carry_in);
    status.negative = result >= 0x8000;
    status.zero = result == 0;
    status.carry = result < a;
    *target = result;
}

} // verus!
