//! The execution engine: registers, flags, mode state, the addressing-mode
//! resolver, and the single-step interpreter.
//!
//! Every mutation of machine state is specified against a mathematical
//! single-step function, [`sstep`]: one decode plus one dispatch, with every
//! memory access threaded through the [`crate::mmu`] model. A step either
//! completes exactly as [`sstep`] says, or reports a [`MemoryFault`], in
//! which case the run loop must stop.

use vstd::prelude::*;

verus! {

use crate::flags::{Flags, spec_empty, spec_bits, spec_from_bits, flags_or, flags_and_not};
use crate::inst::{Instruction, spec_from_opcode};
use crate::mmu::{Mmu, MemView, MemoryFault, mem_wf, sread, sread16, sread_long, swrite, swrite16};
use crate::ops;
use crate::ops::{
    nz8, nz16, wadd8, wadd16, wsub16, cmp8_flags, cmp16_flags, adc8_result, adc8_flags,
    adc16_result, adc16_flags, branch_target,
};

/// The registers an instruction can act on through the shared primitives.
#[derive(Debug, Clone, Copy, PartialEq, Eq, Structural)]
pub enum Register {
    A,
    D,
    X,
    Y,
}

/// How an instruction names its operand. A mode is a pure function of
/// registers and instruction stream; it persists no state of its own.
#[derive(Debug, Clone, Copy, PartialEq, Eq, Structural)]
pub enum AddressingMode {
    Immediate8,
    Immediate16,
    Absolute,
    DirectPage,
    DirectPageIndirectLong,
    AbsoluteIndexedX,
    AbsoluteLongIndexedX,
    AbsoluteIndexedY,
    DirectPageIndexedX,
}

/// The processor state: three general registers, the direct-page base, the
/// stack pointer, the program counter, the two bank registers, the status
/// register and the emulation-mode flag. `sp_base` only remembers where the
/// stack started, for the stack debug projection.
#[derive(Debug, Clone, Copy, PartialEq, Eq, Structural)]
pub struct Cpu {
    pub a: u16,
    pub x: u16,
    pub y: u16,
    pub pc: u16,
    pub sp: u16,
    pub direct_page: u16,
    pub program_bank: u8,
    pub data_bank: u8,
    pub status: Flags,
    pub emulation: bool,
    pub sp_base: u16,
}

/// A 24-bit effective address from a bank byte and a 16-bit offset.
pub open spec fn bank_addr_spec(bank: u8, addr: u16) -> int {
    bank * 0x10000 + addr
}

/// The address the next instruction byte is fetched from.
pub open spec fn cur_addr(c: Cpu) -> int {
    bank_addr_spec(c.program_bank, c.pc)
}

/// Joins a bank byte and a 16-bit offset into a 24-bit effective address.
pub fn bank_addr(bank: u8, addr: u16) -> (r: u32)
    ensures
        r == bank_addr_spec(bank, addr),
{
    bank as u32 * 0x10000 + addr as u32
}

/// Value of one register.
pub open spec fn spec_get_register(c: Cpu, r: Register) -> u16 {
    match r {
        Register::A => c.a,
        Register::D => c.direct_page,
        Register::X => c.x,
        Register::Y => c.y,
    }
}

/// State with one register replaced.
pub open spec fn spec_set_register(c: Cpu, r: Register, v: u16) -> Cpu {
    match r {
        Register::A => Cpu { a: v, ..c },
        Register::D => Cpu { direct_page: v, ..c },
        Register::X => Cpu { x: v, ..c },
        Register::Y => Cpu { y: v, ..c },
    }
}

/// Whether `r` currently acts at 8 bits: emulation mode forces 8-bit
/// everywhere, otherwise the accumulator follows the memory-select bit and
/// the index registers the index-width bit; the direct-page base is always
/// 16-bit.
pub open spec fn spec_eight_bit(c: Cpu, r: Register) -> bool {
    match r {
        Register::A => c.emulation || c.status.memory_select,
        Register::D => false,
        Register::X | Register::Y => c.emulation || c.status.index_break,
    }
}

/// State with Negative and Zero recomputed from an 8-bit result.
pub open spec fn apply_nz8(c: Cpu, v: u8) -> Cpu {
    Cpu { status: nz8(c.status, v), ..c }
}

/// State with Negative and Zero recomputed from a 16-bit result.
pub open spec fn apply_nz16(c: Cpu, v: u16) -> Cpu {
    Cpu { status: nz16(c.status, v), ..c }
}

/// One instruction byte fetched at the current program address, the counter
/// advanced past it; `None` on an unmapped fetch.
pub open spec fn sfetch8(c: Cpu, m: MemView) -> Option<(u8, Cpu)> {
    match sread(m, cur_addr(c)) {
        Some(v) => Some((v, Cpu { pc: wadd16(c.pc, 1), ..c })),
        None => None,
    }
}

/// Two operand bytes fetched little-endian at the current program address.
pub open spec fn sfetch16(c: Cpu, m: MemView) -> Option<(u16, Cpu)> {
    match sread16(m, cur_addr(c)) {
        Some(v) => Some((v, Cpu { pc: wadd16(c.pc, 2), ..c })),
        None => None,
    }
}

/// Three operand bytes fetched little-endian at the current program address.
pub open spec fn sfetch_long(c: Cpu, m: MemView) -> Option<(u32, Cpu)> {
    match sread_long(m, cur_addr(c)) {
        Some(v) => Some((v, Cpu { pc: wadd16(c.pc, 3), ..c })),
        None => None,
    }
}

/// The effective address of an operand under `mode`, together with the state
/// after the operand bytes are consumed.
///
/// The immediate modes yield the address of the operand itself and touch no
/// memory. Direct-page modes add the fetched byte to the direct-page base
/// with no bank carry; the indirect-long mode uses that sum as a bank-0
/// pointer to a 3-byte address. Indexed modes add X or Y after the base
/// address is computed.
pub open spec fn sresolve(c: Cpu, m: MemView, mode: AddressingMode) -> Option<(int, Cpu)> {
    match mode {
        AddressingMode::Immediate8 => Some((cur_addr(c), Cpu { pc: wadd16(c.pc, 1), ..c })),
        AddressingMode::Immediate16 => Some((cur_addr(c), Cpu { pc: wadd16(c.pc, 2), ..c })),
        AddressingMode::Absolute => match sfetch16(c, m) {
            Some((a, c1)) => Some((bank_addr_spec(c.data_bank, a), c1)),
            None => None,
        },
        AddressingMode::DirectPage => match sfetch8(c, m) {
            Some((a, c1)) => Some((c.direct_page + a, c1)),
            None => None,
        },
        AddressingMode::DirectPageIndirectLong => match sfetch8(c, m) {
            Some((a, c1)) => match sread_long(m, c.direct_page + a) {
                Some(target) => Some((target as int, c1)),
                None => None,
            },
            None => None,
        },
        AddressingMode::AbsoluteIndexedX => match sfetch16(c, m) {
            Some((a, c1)) => Some((bank_addr_spec(c.data_bank, a) + c.x, c1)),
            None => None,
        },
        AddressingMode::AbsoluteLongIndexedX => match sfetch_long(c, m) {
            Some((a, c1)) => Some((a + c.x, c1)),
            None => None,
        },
        AddressingMode::AbsoluteIndexedY => match sfetch16(c, m) {
            Some((a, c1)) => Some((bank_addr_spec(c.data_bank, a) + c.y, c1)),
            None => None,
        },
        AddressingMode::DirectPageIndexedX => match sfetch8(c, m) {
            Some((a, c1)) => Some((c.direct_page + a + c.x, c1)),
            None => None,
        },
    }
}

/// A load through `mode` into `r` at that register's current width: the
/// register takes the value, Negative and Zero follow the value at its
/// width.
pub open spec fn sload(c: Cpu, m: MemView, r: Register, mode: AddressingMode) -> Option<Cpu> {
    match sresolve(c, m, mode) {
        Some((addr, c1)) => if spec_eight_bit(c1, r) {
            match sread(m, addr) {
                Some(v) => Some(apply_nz8(spec_set_register(c1, r, v as u16), v)),
                None => None,
            }
        } else {
            match sread16(m, addr) {
                Some(v) => Some(apply_nz16(spec_set_register(c1, r, v), v)),
                None => None,
            }
        },
        None => None,
    }
}

/// A store of `r` through `mode` at the register's current width; flags are
/// untouched.
pub open spec fn sstore(c: Cpu, m: MemView, r: Register, mode: AddressingMode) -> Option<
    (Cpu, MemView),
> {
    match sresolve(c, m, mode) {
        Some((addr, c1)) => Some(
            (
                c1,
                if spec_eight_bit(c1, r) {
                    swrite(m, addr, (spec_get_register(c1, r) % 0x100) as u8)
                } else {
                    swrite16(m, addr, spec_get_register(c1, r))
                },
            ),
        ),
        None => None,
    }
}

/// A store of zero through `mode` at the accumulator's current width.
pub open spec fn sstore_zero(c: Cpu, m: MemView, mode: AddressingMode) -> Option<(Cpu, MemView)> {
    match sresolve(c, m, mode) {
        Some((addr, c1)) => Some(
            (
                c1,
                if spec_eight_bit(c1, Register::A) {
                    swrite(m, addr, 0)
                } else {
                    swrite16(m, addr, 0)
                },
            ),
        ),
        None => None,
    }
}

/// Add-with-carry of the operand under `mode` into the accumulator at its
/// current width.
pub open spec fn sadc(c: Cpu, m: MemView, mode: AddressingMode) -> Option<Cpu> {
    match sresolve(c, m, mode) {
        Some((addr, c1)) => if spec_eight_bit(c1, Register::A) {
            match sread(m, addr) {
                Some(v) => Some(
                    Cpu {
                        a: adc8_result((c1.a % 0x100) as u8, v, c1.status.carry) as u16,
                        status: adc8_flags(c1.status, (c1.a % 0x100) as u8, v),
                        ..c1
                    },
                ),
                None => None,
            }
        } else {
            match sread16(m, addr) {
                Some(v) => Some(
                    Cpu {
                        a: adc16_result(c1.a, v, c1.status.carry),
                        status: adc16_flags(c1.status, c1.a, v),
                        ..c1
                    },
                ),
                None => None,
            }
        },
        None => None,
    }
}

/// A compare of `r` against the operand under `mode` at the register's
/// current width; only flags change.
pub open spec fn scompare(c: Cpu, m: MemView, r: Register, mode: AddressingMode) -> Option<Cpu> {
    match sresolve(c, m, mode) {
        Some((addr, c1)) => if spec_eight_bit(c1, r) {
            match sread(m, addr) {
                Some(v) => Some(
                    Cpu {
                        status: cmp8_flags(c1.status, (spec_get_register(c1, r) % 0x100) as u8, v),
                        ..c1
                    },
                ),
                None => None,
            }
        } else {
            match sread16(m, addr) {
                Some(v) => Some(
                    Cpu { status: cmp16_flags(c1.status, spec_get_register(c1, r), v), ..c1 },
                ),
                None => None,
            }
        },
        None => None,
    }
}

/// A conditional branch: the displacement byte is always consumed; the
/// counter moves only when the condition held.
pub open spec fn sbranch(c: Cpu, m: MemView, cond: bool) -> Option<Cpu> {
    match sfetch8(c, m) {
        Some((offset, c1)) => Some(
            Cpu {
                pc: if cond {
                    branch_target(c1.pc, offset)
                } else {
                    c1.pc
                },
                ..c1
            },
        ),
        None => None,
    }
}

/// A byte pushed at the stack pointer; the pointer decrements after the
/// push.
pub open spec fn spush8(c: Cpu, m: MemView, v: u8) -> (Cpu, MemView) {
    (Cpu { sp: wsub16(c.sp, 1), ..c }, swrite(m, c.sp as int, v))
}

/// A 16-bit word pushed as one little-endian word access at `sp - 1`; the
/// pointer decrements by two.
pub open spec fn spush16(c: Cpu, m: MemView, v: u16) -> (Cpu, MemView) {
    (Cpu { sp: wsub16(c.sp, 2), ..c }, swrite16(m, wsub16(c.sp, 1) as int, v))
}

/// The pointer increments, then the byte at it is pulled.
pub open spec fn spull8(c: Cpu, m: MemView) -> Option<(u8, Cpu)> {
    match sread(m, wadd16(c.sp, 1) as int) {
        Some(v) => Some((v, Cpu { sp: wadd16(c.sp, 1), ..c })),
        None => None,
    }
}

/// The pointer increments by two, then the word below it is pulled as one
/// little-endian word access.
pub open spec fn spull16(c: Cpu, m: MemView) -> Option<(u16, Cpu)> {
    match sread16(m, wadd16(c.sp, 1) as int) {
        Some(v) => Some((v, Cpu { sp: wadd16(c.sp, 2), ..c })),
        None => None,
    }
}

/// A pull into `r` at the register's current width, Negative and Zero
/// recomputed from the pulled value.
pub open spec fn spull_reg(c: Cpu, m: MemView, r: Register) -> Option<Cpu> {
    if spec_eight_bit(c, r) {
        match spull8(c, m) {
            Some((v, c1)) => Some(apply_nz8(spec_set_register(c1, r, v as u16), v)),
            None => None,
        }
    } else {
        match spull16(c, m) {
            Some((v, c1)) => Some(apply_nz16(spec_set_register(c1, r, v), v)),
            None => None,
        }
    }
}

/// Increment or decrement of `r` by `amount` at the register's current
/// width, wrapping, Negative and Zero from the result.
pub open spec fn sincdec_reg(c: Cpu, r: Register, amount: i8) -> Cpu {
    if spec_eight_bit(c, r) {
        let v = wadd8((spec_get_register(c, r) % 0x100) as u8, amount as int);
        apply_nz8(spec_set_register(c, r, v as u16), v)
    } else {
        let v = wadd16(spec_get_register(c, r), amount as int);
        apply_nz16(spec_set_register(c, r, v), v)
    }
}

/// Increment or decrement of the byte named by `mode`, wrapping at 8 bits,
/// Negative and Zero from the result.
pub open spec fn sincdec_mem(c: Cpu, m: MemView, mode: AddressingMode, amount: i8) -> Option<
    (Cpu, MemView),
> {
    match sresolve(c, m, mode) {
        Some((addr, c1)) => match sread(m, addr) {
            Some(v) => {
                let v1 = wadd8(v, amount as int);
                Some((apply_nz8(c1, v1), swrite(m, addr, v1)))
            },
            None => None,
        },
        None => None,
    }
}

/// Attaches the unchanged memory to a register-only outcome.
pub open spec fn cpu_only(o: Option<Cpu>, m: MemView) -> Option<(Cpu, MemView)> {
    match o {
        Some(c) => Some((c, m)),
        None => None,
    }
}

/// The immediate mode of the width a register currently acts at.
pub open spec fn imm_mode(eight: bool) -> AddressingMode {
    if eight {
        AddressingMode::Immediate8
    } else {
        AddressingMode::Immediate16
    }
}

/// `n` single-byte copies from `(src, x)` to `(dest, y)`, the indices
/// incrementing and wrapping per copy, each read seeing every earlier
/// write; `None` as soon as a source byte is unmapped.
pub open spec fn scopy(m: MemView, src: u8, dest: u8, x: u16, y: u16, n: nat) -> Option<MemView>
    decreases n,
{
    if n == 0 {
        Some(m)
    } else {
        match sread(m, bank_addr_spec(src, x)) {
            Some(v) => scopy(
                swrite(m, bank_addr_spec(dest, y), v),
                src,
                dest,
                wadd16(x, 1),
                wadd16(y, 1),
                (n - 1) as nat,
            ),
            None => None,
        }
    }
}

/// How many bytes one block-copy instruction moves: the 16-bit counter in A
/// plus one, except that a counter already at 0xFFFF moves none.
pub open spec fn block_count(a: u16) -> nat {
    if a == 0xFFFF {
        0
    } else {
        (a + 1) as nat
    }
}

/// The block-copy instruction: two operand bytes name the destination and
/// source banks; the destination bank becomes the data bank; then
/// [`block_count`] bytes move from `(source bank, X)` to `(data bank, Y)`,
/// X and Y advancing with wraparound and A left at 0xFFFF. The copy runs to
/// completion within the step and is provably bounded by the counter.
pub open spec fn sblock_move(c: Cpu, m: MemView) -> Option<(Cpu, MemView)> {
    match sfetch8(c, m) {
        Some((dest, c1)) => match sfetch8(c1, m) {
            Some((src, c2)) => {
                let n = block_count(c2.a);
                match scopy(m, src, dest, c2.x, c2.y, n) {
                    Some(m2) => Some(
                        (
                            Cpu {
                                data_bank: dest,
                                a: 0xFFFF,
                                x: wadd16(c2.x, n as int),
                                y: wadd16(c2.y, n as int),
                                ..c2
                            },
                            m2,
                        ),
                    ),
                    None => None,
                }
            },
            None => None,
        },
        None => None,
    }
}

/// What executing `i` from state `(c, m)` yields, `c` being the state after
/// the opcode byte was consumed: the successor state, or `None` when a
/// memory access faults.
pub open spec fn sexec(c: Cpu, m: MemView, i: Instruction) -> Option<(Cpu, MemView)> {
    match i {
        Instruction::Unknown => Some((c, m)),
        Instruction::LoadAImmediate => cpu_only(
            sload(c, m, Register::A, imm_mode(spec_eight_bit(c, Register::A))),
            m,
        ),
        Instruction::LoadAAbsolute => cpu_only(
            sload(c, m, Register::A, AddressingMode::Absolute),
            m,
        ),
        Instruction::LoadADirectPage => cpu_only(
            sload(c, m, Register::A, AddressingMode::DirectPage),
            m,
        ),
        Instruction::LoadADirectPageIndirectLong => cpu_only(
            sload(c, m, Register::A, AddressingMode::DirectPageIndirectLong),
            m,
        ),
        Instruction::LoadAAbsoluteIndexedX => cpu_only(
            sload(c, m, Register::A, AddressingMode::AbsoluteIndexedX),
            m,
        ),
        Instruction::LoadAAbsoluteLongIndexedX => cpu_only(
            sload(c, m, Register::A, AddressingMode::AbsoluteLongIndexedX),
            m,
        ),
        Instruction::LoadAAbsoluteIndexedY => cpu_only(
            sload(c, m, Register::A, AddressingMode::AbsoluteIndexedY),
            m,
        ),
        Instruction::LoadXImmediate => cpu_only(
            sload(c, m, Register::X, imm_mode(spec_eight_bit(c, Register::X))),
            m,
        ),
        Instruction::LoadXDirectPage => cpu_only(
            sload(c, m, Register::X, AddressingMode::DirectPage),
            m,
        ),
        Instruction::LoadYImmediate => cpu_only(
            sload(c, m, Register::Y, imm_mode(spec_eight_bit(c, Register::Y))),
            m,
        ),
        Instruction::LoadYDirectPage => cpu_only(
            sload(c, m, Register::Y, AddressingMode::DirectPage),
            m,
        ),
        Instruction::StoreAAbsolute => sstore(c, m, Register::A, AddressingMode::Absolute),
        Instruction::StoreADirectPage => sstore(c, m, Register::A, AddressingMode::DirectPage),
        Instruction::StoreAAbsoluteIndexedX => sstore(
            c,
            m,
            Register::A,
            AddressingMode::AbsoluteIndexedX,
        ),
        Instruction::StoreAAbsoluteLongIndexedX => sstore(
            c,
            m,
            Register::A,
            AddressingMode::AbsoluteLongIndexedX,
        ),
        Instruction::StoreAAbsoluteIndexedY => sstore(
            c,
            m,
            Register::A,
            AddressingMode::AbsoluteIndexedY,
        ),
        Instruction::StoreADirectPageIndexedX => sstore(
            c,
            m,
            Register::A,
            AddressingMode::DirectPageIndexedX,
        ),
        Instruction::StoreXAbsolute => sstore(c, m, Register::X, AddressingMode::Absolute),
        Instruction::StoreXDirectPage => sstore(c, m, Register::X, AddressingMode::DirectPage),
        Instruction::StoreYDirectPage => sstore(c, m, Register::Y, AddressingMode::DirectPage),
        Instruction::StoreZeroAbsolute => sstore_zero(c, m, AddressingMode::Absolute),
        Instruction::StoreZeroDirectPage => sstore_zero(c, m, AddressingMode::DirectPage),
        Instruction::StoreZeroAbsoluteIndexedX => sstore_zero(
            c,
            m,
            AddressingMode::AbsoluteIndexedX,
        ),
        Instruction::StoreZeroDirectPageIndexedX => sstore_zero(
            c,
            m,
            AddressingMode::DirectPageIndexedX,
        ),
        Instruction::AddWithCarryImmediate => cpu_only(
            sadc(c, m, imm_mode(spec_eight_bit(c, Register::A))),
            m,
        ),
        Instruction::AddWithCarryAbsolute => cpu_only(sadc(c, m, AddressingMode::Absolute), m),
        Instruction::AddWithCarryDirectPage => cpu_only(sadc(c, m, AddressingMode::DirectPage), m),
        Instruction::AddWithCarryAbsoluteIndexedY => cpu_only(
            sadc(c, m, AddressingMode::AbsoluteIndexedY),
            m,
        ),
        Instruction::IncrementDirectPage => sincdec_mem(c, m, AddressingMode::DirectPage, 1),
        Instruction::IncrementA => Some((sincdec_reg(c, Register::A, 1), m)),
        Instruction::IncrementX => Some((sincdec_reg(c, Register::X, 1), m)),
        Instruction::IncrementY => Some((sincdec_reg(c, Register::Y, 1), m)),
        Instruction::DecrementX => Some((sincdec_reg(c, Register::X, -1i8), m)),
        Instruction::DecrementY => Some((sincdec_reg(c, Register::Y, -1i8), m)),
        Instruction::ShiftLeft => {
            let orig = (c.a % 0x100) as u8;
            let v = wadd8(orig, orig as int);
            Some(
                (
                    Cpu {
                        a: v as u16,
                        status: Flags {
                            negative: v >= 0x80,
                            zero: v == 0,
                            carry: orig >= 0x80,
                            ..c.status
                        },
                        ..c
                    },
                    m,
                ),
            )
        },
        Instruction::MoveAX => Some((apply_nz16(Cpu { x: c.a, ..c }, c.a), m)),
        Instruction::MoveAY => Some((apply_nz16(Cpu { y: c.a, ..c }, c.a), m)),
        Instruction::MoveDA => Some((apply_nz16(Cpu { a: c.direct_page, ..c }, c.direct_page), m)),
        Instruction::MoveXSP => Some((apply_nz16(Cpu { sp: c.x, sp_base: c.x, ..c }, c.x), m)),
        Instruction::MoveYA => Some(
            (
                Cpu {
                    a: if spec_eight_bit(c, Register::A) || spec_eight_bit(c, Register::Y) {
                        (c.y % 0x100) as u16
                    } else {
                        c.y
                    },
                    ..c
                },
                m,
            ),
        ),
        Instruction::ExchangeBA => {
            let v = ((c.a % 0x100) * 0x100 + c.a / 0x100) as u16;
            Some((apply_nz16(Cpu { a: v, ..c }, v), m))
        },
        Instruction::BlockMoveNext => sblock_move(c, m),
        Instruction::CompareImmediate => cpu_only(
            scompare(c, m, Register::A, imm_mode(spec_eight_bit(c, Register::A))),
            m,
        ),
        Instruction::CompareAbsolute => cpu_only(
            scompare(c, m, Register::A, AddressingMode::Absolute),
            m,
        ),
        Instruction::CompareDirectPage => cpu_only(
            scompare(c, m, Register::A, AddressingMode::DirectPage),
            m,
        ),
        Instruction::CompareAbsoluteLongIndexedX => cpu_only(
            scompare(c, m, Register::A, AddressingMode::AbsoluteLongIndexedX),
            m,
        ),
        Instruction::CompareXImmediate => cpu_only(
            scompare(c, m, Register::X, imm_mode(spec_eight_bit(c, Register::X))),
            m,
        ),
        Instruction::BranchCarryClear => cpu_only(sbranch(c, m, !c.status.carry), m),
        Instruction::BranchCarrySet => cpu_only(sbranch(c, m, c.status.carry), m),
        Instruction::BranchNotEqual => cpu_only(sbranch(c, m, !c.status.zero), m),
        Instruction::BranchEqual => cpu_only(sbranch(c, m, c.status.zero), m),
        Instruction::BranchAlways => cpu_only(sbranch(c, m, true), m),
        Instruction::PushA => Some(
            if spec_eight_bit(c, Register::A) {
                spush8(c, m, (c.a % 0x100) as u8)
            } else {
                spush16(c, m, c.a)
            },
        ),
        Instruction::PushB => Some(spush8(c, m, c.data_bank)),
        Instruction::PushD => Some(spush16(c, m, c.direct_page)),
        Instruction::PushX => Some(
            if spec_eight_bit(c, Register::X) {
                spush8(c, m, (c.x % 0x100) as u8)
            } else {
                spush16(c, m, c.x)
            },
        ),
        Instruction::PushY => Some(
            if spec_eight_bit(c, Register::Y) {
                spush8(c, m, (c.y % 0x100) as u8)
            } else {
                spush16(c, m, c.y)
            },
        ),
        Instruction::PushStatus => Some(spush8(c, m, spec_bits(c.status))),
        Instruction::PushAbsolute => match sfetch16(c, m) {
            Some((v, c1)) => Some(spush16(c1, m, v)),
            None => None,
        },
        Instruction::PullA => cpu_only(spull_reg(c, m, Register::A), m),
        Instruction::PullB => match spull8(c, m) {
            Some((v, c1)) => Some((apply_nz8(Cpu { data_bank: v, ..c1 }, v), m)),
            None => None,
        },
        Instruction::PullD => cpu_only(spull_reg(c, m, Register::D), m),
        Instruction::PullX => cpu_only(spull_reg(c, m, Register::X), m),
        Instruction::PullY => cpu_only(spull_reg(c, m, Register::Y), m),
        Instruction::PullStatus => match spull8(c, m) {
            Some((v, c1)) => Some(
                (Cpu { status: Flags { zero: v == 0, ..spec_from_bits(v) }, ..c1 }, m),
            ),
            None => None,
        },
        Instruction::JumpAbsolute => match sfetch16(c, m) {
            Some((a, c1)) => Some((Cpu { pc: a, ..c1 }, m)),
            None => None,
        },
        Instruction::JumpSubRoutineAbsolute => match sfetch16(c, m) {
            Some((a, c1)) => {
                let pushed = spush16(c1, m, wsub16(c1.pc, 1));
                Some((Cpu { pc: a, ..pushed.0 }, pushed.1))
            },
            None => None,
        },
        Instruction::JumpSubRoutineAbsoluteLong => match sfetch16(c, m) {
            Some((a, c1)) => match sfetch8(c1, m) {
                Some((bank, c2)) => {
                    let pushed = spush16(c2, m, wsub16(c2.pc, 1));
                    let pushed2 = spush8(pushed.0, pushed.1, c2.program_bank);
                    Some((Cpu { program_bank: bank, pc: a, ..pushed2.0 }, pushed2.1))
                },
                None => None,
            },
            None => None,
        },
        Instruction::Return => match spull16(c, m) {
            Some((v, c1)) => Some((Cpu { pc: wadd16(v, 1), ..c1 }, m)),
            None => None,
        },
        Instruction::ReturnLong => match spull8(c, m) {
            Some((bank, c1)) => match spull16(c1, m) {
                Some((v, c2)) => Some((Cpu { pc: wadd16(v, 1), program_bank: bank, ..c2 }, m)),
                None => None,
            },
            None => None,
        },
        Instruction::ClearCarry => Some((Cpu { status: Flags { carry: false, ..c.status }, ..c }, m)),
        Instruction::SetIrqDisable => Some(
            (Cpu { status: Flags { irq_disable: true, ..c.status }, ..c }, m),
        ),
        Instruction::ResetFlags => match sfetch8(c, m) {
            Some((mask, c1)) => Some(
                (Cpu { status: flags_and_not(c1.status, spec_from_bits(mask)), ..c1 }, m),
            ),
            None => None,
        },
        Instruction::SetFlags => match sfetch8(c, m) {
            Some((mask, c1)) => Some(
                (Cpu { status: flags_or(c1.status, spec_from_bits(mask)), ..c1 }, m),
            ),
            None => None,
        },
        Instruction::ExchangeCE => Some(
            (
                Cpu {
                    emulation: c.status.carry,
                    status: Flags { carry: !c.status.carry, ..c.status },
                    ..c
                },
                m,
            ),
        ),
        Instruction::Break => Some((c, m)),
    }
}

/// One whole step: the opcode byte is fetched and decoded, then the
/// instruction executes as [`sexec`] says. `None` when any access of the
/// step faults.
pub open spec fn sstep(c: Cpu, m: MemView) -> Option<(Cpu, MemView, Instruction)> {
    match sfetch8(c, m) {
        Some((opcode, c1)) => {
            let i = spec_from_opcode(opcode);
            match sexec(c1, m, i) {
                Some((c2, m2)) => Some((c2, m2, i)),
                None => None,
            }
        },
        None => None,
    }
}

impl Cpu {
    /// Power-on state: registers clear, the stack at 0x1FF, emulation mode
    /// active, every status bit clear.
    pub fn new() -> (cpu: Cpu)
        ensures
            cpu == (Cpu {
                a: 0u16,
                x: 0u16,
                y: 0u16,
                pc: 0u16,
                sp: 0x1FFu16,
                direct_page: 0u16,
                program_bank: 0u8,
                data_bank: 0u8,
                status: spec_empty(),
                emulation: true,
                sp_base: 0x1FFu16,
            }),
    {
        Cpu {
            a: 0,
            x: 0,
            y: 0,
            pc: 0,
            sp: 0x1FF,
            direct_page: 0,
            program_bank: 0,
            data_bank: 0,
            status: Flags::empty(),
            emulation: true,
            sp_base: 0x1FF,
        }
    }

    /// The 24-bit address the next instruction byte comes from.
    pub fn current_addr(&self) -> (r: u32)
        ensures
            r == cur_addr(*self),
    {
        bank_addr(self.program_bank, self.pc)
    }

    /// Repositions execution: the top 8 bits become the program bank, the
    /// bottom 16 the program counter.
    pub fn set_current_addr(&mut self, addr: u32)
        ensures
            *final(self) == (Cpu {
                program_bank: (addr / 0x10000 % 0x100) as u8,
                pc: (addr % 0x10000) as u16,
                ..*old(self)
            }),
    {
        self.program_bank = (addr / 0x10000 % 0x100) as u8;
        self.pc = (addr % 0x10000) as u16;
    }

    /// Whether the index registers currently act at 8 bits.
    pub fn xy_u8_mode(&self) -> (r: bool)
        ensures
            r == spec_eight_bit(*self, Register::X),
    {
        self.emulation || self.status.index_break
    }

    /// Value of one register.
    pub fn get_register(&self, register: Register) -> (v: u16)
        ensures
            v == spec_get_register(*self, register),
    {
        match register {
            Register::A => self.a,
            Register::D => self.direct_page,
            Register::X => self.x,
            Register::Y => self.y,
        }
    }

    /// Replaces one register.
    pub fn set_register(&mut self, register: Register, value: u16)
        ensures
            *final(self) == spec_set_register(*old(self), register, value),
    {
        match register {
            Register::A => self.a = value,
            Register::D => self.direct_page = value,
            Register::X => self.x = value,
            Register::Y => self.y = value,
        }
    }

    /// Whether `register` currently acts at 8 bits.
    pub fn is_eight_bit_mode(&self, register: Register) -> (r: bool)
        ensures
            r == spec_eight_bit(*self, register),
    {
        match register {
            Register::A => self.emulation || self.status.memory_select,
            Register::D => false,
            Register::X | Register::Y => self.emulation || self.status.index_break,
        }
    }

    /// Fetches one instruction byte and advances the counter past it; on an
    /// unmapped fetch the state is left as it was.
    fn try_fetch_u8(&mut self, mmu: &Mmu) -> (r: Result<u8, MemoryFault>)
        requires
            mmu.inv(),
        ensures
            match sfetch8(*old(self), mmu@) {
                Some(p) => r == Ok::<u8, MemoryFault>(p.0) && *final(self) == p.1,
                None => r is Err && *final(self) == *old(self),
            },
    {
        match mmu.try_read_u8(self.current_addr()) {
            Ok(v) => {
                self.pc = self.pc.wrapping_add(1);
                Ok(v)
            },
            Err(f) => Err(f),
        }
    }

    /// Fetches a little-endian operand word and advances the counter by two.
    fn try_fetch_u16(&mut self, mmu: &Mmu) -> (r: Result<u16, MemoryFault>)
        requires
            mmu.inv(),
        ensures
            match sfetch16(*old(self), mmu@) {
                Some(p) => r == Ok::<u16, MemoryFault>(p.0) && *final(self) == p.1,
                None => r is Err && *final(self) == *old(self),
            },
    {
        match mmu.try_read_u16(self.current_addr()) {
            Ok(v) => {
                self.pc = self.pc.wrapping_add(2);
                Ok(v)
            },
            Err(f) => Err(f),
        }
    }

    /// Fetches a little-endian 24-bit operand and advances the counter by
    /// three.
    fn try_fetch_long(&mut self, mmu: &Mmu) -> (r: Result<u32, MemoryFault>)
        requires
            mmu.inv(),
        ensures
            match sfetch_long(*old(self), mmu@) {
                Some(p) => r == Ok::<u32, MemoryFault>(p.0) && *final(self) == p.1,
                None => r is Err && *final(self) == *old(self),
            },
    {
        match mmu.try_read_long(self.current_addr()) {
            Ok(v) => {
                self.pc = self.pc.wrapping_add(3);
                Ok(v)
            },
            Err(f) => Err(f),
        }
    }

    /// Resolves the effective address of an operand under `addr_mode`,
    /// consuming its operand bytes.
    fn try_fetch_addr(&mut self, mmu: &Mmu, addr_mode: AddressingMode) -> (r: Result<
        u32,
        MemoryFault,
    >)
        requires
            mmu.inv(),
        ensures
            match sresolve(*old(self), mmu@, addr_mode) {
                Some(p) => r is Ok && r->Ok_0 == p.0 && *final(self) == p.1,
                None => r is Err,
            },
            r is Ok ==> r->Ok_0 < 0x1010000,
    {
        match addr_mode {
            AddressingMode::Immediate8 => {
                let addr = self.current_addr();
                self.pc = self.pc.wrapping_add(1);
                Ok(addr)
            },
            AddressingMode::Immediate16 => {
                let addr = self.current_addr();
                self.pc = self.pc.wrapping_add(2);
                Ok(addr)
            },
            AddressingMode::Absolute => {
                let addr = self.try_fetch_u16(mmu)?;
                Ok(bank_addr(self.data_bank, addr))
            },
            AddressingMode::DirectPage => {
                let addr = self.try_fetch_u8(mmu)?;
                Ok(self.direct_page as u32 + addr as u32)
            },
            AddressingMode::DirectPageIndirectLong => {
                let dp = self.direct_page;
                let addr = self.try_fetch_u8(mmu)?;
                let target = mmu.try_read_long(dp as u32 + addr as u32)?;
                Ok(target)
            },
            AddressingMode::AbsoluteIndexedX => {
                let addr = self.try_fetch_u16(mmu)?;
                Ok(bank_addr(self.data_bank, addr) + self.x as u32)
            },
            AddressingMode::AbsoluteLongIndexedX => {
                let addr = self.try_fetch_long(mmu)?;
                Ok(addr + self.x as u32)
            },
            AddressingMode::AbsoluteIndexedY => {
                let addr = self.try_fetch_u16(mmu)?;
                Ok(bank_addr(self.data_bank, addr) + self.y as u32)
            },
            AddressingMode::DirectPageIndexedX => {
                let addr = self.try_fetch_u8(mmu)?;
                Ok(self.direct_page as u32 + addr as u32 + self.x as u32)
            },
        }
    }

    /// Pushes one byte at the stack pointer, then decrements it.
    fn push_u8(&mut self, mmu: &mut Mmu, value: u8)
        requires
            old(mmu).inv(),
        ensures
            final(mmu).inv(),
            *final(self) == spush8(*old(self), old(mmu)@, value).0,
            final(mmu)@ == spush8(*old(self), old(mmu)@, value).1,
    {
        mmu.store_u8(self.sp as u32, value);
        self.sp = self.sp.wrapping_sub(1);
    }

    /// Pushes a 16-bit word as one little-endian word access, then
    /// decrements the pointer by two.
    fn push_u16(&mut self, mmu: &mut Mmu, value: u16)
        requires
            old(mmu).inv(),
        ensures
            final(mmu).inv(),
            *final(self) == spush16(*old(self), old(mmu)@, value).0,
            final(mmu)@ == spush16(*old(self), old(mmu)@, value).1,
    {
        let base = self.sp.wrapping_sub(1);
        mmu.store_u16(base as u32, value);
        self.sp = self.sp.wrapping_sub(2);
    }

    /// Increments the stack pointer, then pulls the byte at it.
    fn try_pull_u8(&mut self, mmu: &Mmu) -> (r: Result<u8, MemoryFault>)
        requires
            mmu.inv(),
        ensures
            match spull8(*old(self), mmu@) {
                Some(p) => r == Ok::<u8, MemoryFault>(p.0) && *final(self) == p.1,
                None => r is Err,
            },
    {
        self.sp = self.sp.wrapping_add(1);
        mmu.try_read_u8(self.sp as u32)
    }

    /// Increments the stack pointer by two, then pulls the word below it.
    fn try_pull_u16(&mut self, mmu: &Mmu) -> (r: Result<u16, MemoryFault>)
        requires
            mmu.inv(),
        ensures
            match spull16(*old(self), mmu@) {
                Some(p) => r == Ok::<u16, MemoryFault>(p.0) && *final(self) == p.1,
                None => r is Err,
            },
    {
        self.sp = self.sp.wrapping_add(2);
        mmu.try_read_u16(self.sp.wrapping_sub(1) as u32)
    }

    /// Load through an addressing mode, reporting an unmapped access.
    fn try_load(&mut self, mmu: &Mmu, register: Register, addr_mode: AddressingMode) -> (r:
        Result<(), MemoryFault>)
        requires
            mmu.inv(),
        ensures
            match sload(*old(self), mmu@, register, addr_mode) {
                Some(c) => r is Ok && *final(self) == c,
                None => r is Err,
            },
    {
        let addr = self.try_fetch_addr(mmu, addr_mode)?;
        if self.is_eight_bit_mode(register) {
            let v = mmu.try_read_u8(addr)?;
            let mut target: u16 = 0;
            let mut st = self.status;
            ops::load_u8(&mut target, &mut st, v);
            self.set_register(register, target);
            self.status = st;
        } else {
            let v = mmu.try_read_u16(addr)?;
            let mut target: u16 = 0;
            let mut st = self.status;
            ops::load_u16(&mut target, &mut st, v);
            self.set_register(register, target);
            self.status = st;
        }
        Ok(())
    }

    /// Reads a memory operand into `register` at the register's current
    /// width and recomputes Negative and Zero from the value.
    pub fn load(&mut self, mmu: &Mmu, register: Register, addr_mode: AddressingMode)
        requires
            mmu.inv(),
            sload(*old(self), mmu@, register, addr_mode) is Some,
        ensures
            sload(*old(self), mmu@, register, addr_mode) == Some(*final(self)),
    {
        let _ = self.try_load(mmu, register, addr_mode);
    }

    /// Pull into a register, reporting an unmapped stack read.
    fn try_pull_reg(&mut self, mmu: &Mmu, register: Register) -> (r: Result<(), MemoryFault>)
        requires
            mmu.inv(),
        ensures
            match spull_reg(*old(self), mmu@, register) {
                Some(c) => r is Ok && *final(self) == c,
                None => r is Err,
            },
    {
        if self.is_eight_bit_mode(register) {
            let v = self.try_pull_u8(mmu)?;
            let mut target: u16 = 0;
            let mut st = self.status;
            ops::load_u8(&mut target, &mut st, v);
            self.set_register(register, target);
            self.status = st;
        } else {
            let v = self.try_pull_u16(mmu)?;
            let mut target: u16 = 0;
            let mut st = self.status;
            ops::load_u16(&mut target, &mut st, v);
            self.set_register(register, target);
            self.status = st;
        }
        Ok(())
    }

    /// Pulls `register` from the stack at its current width and recomputes
    /// Negative and Zero from the pulled value. The memory unit is only
    /// read.
    pub fn pull(&mut self, mmu: &mut Mmu, register: Register)
        requires
            old(mmu).inv(),
            spull_reg(*old(self), old(mmu)@, register) is Some,
        ensures
            *final(mmu) == *old(mmu),
            spull_reg(*old(self), old(mmu)@, register) == Some(*final(self)),
    {
        let _ = self.try_pull_reg(mmu, register);
    }

    /// Store through an addressing mode, reporting an unmapped access in
    /// the address resolution.
    fn try_store(&mut self, mmu: &mut Mmu, register: Register, addr_mode: AddressingMode) -> (r:
        Result<(), MemoryFault>)
        requires
            old(mmu).inv(),
        ensures
            final(mmu).inv(),
            match sstore(*old(self), old(mmu)@, register, addr_mode) {
                Some(p) => r is Ok && *final(self) == p.0 && final(mmu)@ == p.1,
                None => r is Err,
            },
    {
        let addr = self.try_fetch_addr(mmu, addr_mode)?;
        if self.is_eight_bit_mode(register) {
            mmu.store_u8(addr, (self.get_register(register) % 0x100) as u8);
        } else {
            mmu.store_u16(addr, self.get_register(register));
        }
        Ok(())
    }

    /// Writes `register` to the operand address at the register's current
    /// width; flags are untouched.
    pub fn store(&mut self, mmu: &mut Mmu, register: Register, addr_mode: AddressingMode)
        requires
            old(mmu).inv(),
            sstore(*old(self), old(mmu)@, register, addr_mode) is Some,
        ensures
            final(mmu).inv(),
            sstore(*old(self), old(mmu)@, register, addr_mode) == Some(
                (*final(self), final(mmu)@),
            ),
    {
        let _ = self.try_store(mmu, register, addr_mode);
    }

    /// Store of zero, reporting an unmapped access in the address
    /// resolution.
    fn try_store_zero(&mut self, mmu: &mut Mmu, addr_mode: AddressingMode) -> (r: Result<
        (),
        MemoryFault,
    >)
        requires
            old(mmu).inv(),
        ensures
            final(mmu).inv(),
            match sstore_zero(*old(self), old(mmu)@, addr_mode) {
                Some(p) => r is Ok && *final(self) == p.0 && final(mmu)@ == p.1,
                None => r is Err,
            },
    {
        let addr = self.try_fetch_addr(mmu, addr_mode)?;
        if self.is_eight_bit_mode(Register::A) {
            mmu.store_u8(addr, 0);
        } else {
            mmu.store_u16(addr, 0);
        }
        Ok(())
    }

    /// Writes zero to the operand address at the accumulator's current
    /// width; flags are untouched.
    pub fn store_zero(&mut self, mmu: &mut Mmu, addr_mode: AddressingMode)
        requires
            old(mmu).inv(),
            sstore_zero(*old(self), old(mmu)@, addr_mode) is Some,
        ensures
            final(mmu).inv(),
            sstore_zero(*old(self), old(mmu)@, addr_mode) == Some((*final(self), final(mmu)@)),
    {
        let _ = self.try_store_zero(mmu, addr_mode);
    }

    /// Add-with-carry, reporting an unmapped access.
    fn try_add_with_carry(&mut self, mmu: &Mmu, addr_mode: AddressingMode) -> (r: Result<
        (),
        MemoryFault,
    >)
        requires
            mmu.inv(),
        ensures
            match sadc(*old(self), mmu@, addr_mode) {
                Some(c) => r is Ok && *final(self) == c,
                None => r is Err,
            },
    {
        let addr = self.try_fetch_addr(mmu, addr_mode)?;
        if self.is_eight_bit_mode(Register::A) {
            let v = mmu.try_read_u8(addr)?;
            let mut a = self.a;
            let mut st = self.status;
            ops::adc_u8(&mut a, &mut st, v);
            self.a = a;
            self.status = st;
        } else {
            let v = mmu.try_read_u16(addr)?;
            let mut a = self.a;
            let mut st = self.status;
            ops::adc_u16(&mut a, &mut st, v);
            self.a = a;
            self.status = st;
        }
        Ok(())
    }

    /// Adds the operand and the carry-in to the accumulator at its current
    /// width, wrapping; Negative and Zero follow the result, Carry is set
    /// exactly when the wrapped result fell below the pre-operation
    /// accumulator (unsigned overflow).
    pub fn add_with_carry(&mut self, mmu: &Mmu, addr_mode: AddressingMode)
        requires
            mmu.inv(),
            sadc(*old(self), mmu@, addr_mode) is Some,
        ensures
            sadc(*old(self), mmu@, addr_mode) == Some(*final(self)),
    {
        let _ = self.try_add_with_carry(mmu, addr_mode);
    }

    /// Compare, reporting an unmapped access.
    fn try_compare(&mut self, mmu: &Mmu, register: Register, addr_mode: AddressingMode) -> (r:
        Result<(), MemoryFault>)
        requires
            mmu.inv(),
        ensures
            match scompare(*old(self), mmu@, register, addr_mode) {
                Some(c) => r is Ok && *final(self) == c,
                None => r is Err,
            },
    {
        let addr = self.try_fetch_addr(mmu, addr_mode)?;
        if self.is_eight_bit_mode(register) {
            let lhs = (self.get_register(register) % 0x100) as u8;
            let rhs = mmu.try_read_u8(addr)?;
            let mut st = self.status;
            ops::compare_u8(&mut st, lhs, rhs);
            self.status = st;
        } else {
            let lhs = self.get_register(register);
            let rhs = mmu.try_read_u16(addr)?;
            let mut st = self.status;
            ops::compare_u16(&mut st, lhs, rhs);
            self.status = st;
        }
        Ok(())
    }

    /// Compares `register` against the operand at the register's current
    /// width: Carry iff register >= operand (unsigned), Zero iff equal,
    /// Negative from the wrapped difference; registers are untouched.
    pub fn compare(&mut self, mmu: &Mmu, register: Register, addr_mode: AddressingMode)
        requires
            mmu.inv(),
            scompare(*old(self), mmu@, register, addr_mode) is Some,
        ensures
            scompare(*old(self), mmu@, register, addr_mode) == Some(*final(self)),
    {
        let _ = self.try_compare(mmu, register, addr_mode);
    }

    /// Branch, reporting an unmapped displacement fetch.
    fn try_branch(&mut self, mmu: &Mmu, should_branch: bool) -> (r: Result<(), MemoryFault>)
        requires
            mmu.inv(),
        ensures
            match sbranch(*old(self), mmu@, should_branch) {
                Some(c) => r is Ok && *final(self) == c,
                None => r is Err,
            },
    {
        let offset = self.try_fetch_u8(mmu)?;
        let mut pc = self.pc;
        ops::branch(&mut pc, offset, should_branch);
        self.pc = pc;
        Ok(())
    }

    /// Consumes the displacement byte; when `should_branch` holds, moves
    /// the program counter by its two's-complement value, wrapping within
    /// 16 bits.
    pub fn branch(&mut self, mmu: &Mmu, should_branch: bool)
        requires
            mmu.inv(),
            sbranch(*old(self), mmu@, should_branch) is Some,
        ensures
            sbranch(*old(self), mmu@, should_branch) == Some(*final(self)),
    {
        let _ = self.try_branch(mmu, should_branch);
    }

    /// Increments or decrements `register` by `amount` at the register's
    /// current width, wrapping; Negative and Zero follow the result.
    pub fn inc_dec_register(&mut self, register: Register, amount: i8)
        ensures
            *final(self) == sincdec_reg(*old(self), register, amount),
    {
        if self.is_eight_bit_mode(register) {
            let v = (self.get_register(register) % 0x100) as u8;
            let v1 = v.wrapping_add_signed(amount);
            self.set_register(register, v1 as u16);
            let mut st = self.status;
            st.negative = v1 >= 0x80;
            st.zero = v1 == 0;
            self.status = st;
        } else {
            let v1 = self.get_register(register).wrapping_add_signed(amount as i16);
            self.set_register(register, v1);
            let mut st = self.status;
            st.negative = v1 >= 0x8000;
            st.zero = v1 == 0;
            self.status = st;
        }
    }

    /// Memory increment or decrement, reporting an unmapped access.
    fn try_inc_dec_memory(&mut self, mmu: &mut Mmu, addr_mode: AddressingMode, amount: i8) -> (r:
        Result<(), MemoryFault>)
        requires
            old(mmu).inv(),
        ensures
            final(mmu).inv(),
            match sincdec_mem(*old(self), old(mmu)@, addr_mode, amount) {
                Some(p) => r is Ok && *final(self) == p.0 && final(mmu)@ == p.1,
                None => r is Err,
            },
    {
        let addr = self.try_fetch_addr(mmu, addr_mode)?;
        let v = mmu.try_read_u8(addr)?;
        let v1 = v.wrapping_add_signed(amount);
        mmu.store_u8(addr, v1);
        let mut st = self.status;
        st.negative = v1 >= 0x80;
        st.zero = v1 == 0;
        self.status = st;
        Ok(())
    }

    /// Increments or decrements the byte at the operand address by
    /// `amount`, wrapping at 8 bits; Negative and Zero follow the result.
    pub fn inc_dec_memory(&mut self, mmu: &mut Mmu, addr_mode: AddressingMode, amount: i8)
        requires
            old(mmu).inv(),
            sincdec_mem(*old(self), old(mmu)@, addr_mode, amount) is Some,
        ensures
            final(mmu).inv(),
            sincdec_mem(*old(self), old(mmu)@, addr_mode, amount) == Some(
                (*final(self), final(mmu)@),
            ),
    {
        let _ = self.try_inc_dec_memory(mmu, addr_mode, amount);
    }

    /// The block-copy loop after its two bank operands were consumed and
    /// the data bank was set; runs to completion within the step, provably
    /// bounded by the counter in A.
    #[verifier::loop_isolation(false)]
    fn run_block_copy(&mut self, mmu: &mut Mmu, src: u8) -> (r: Result<(), MemoryFault>)
        requires
            old(mmu).inv(),
        ensures
            final(mmu).inv(),
            ({
                let n = block_count(old(self).a);
                match scopy(old(mmu)@, src, old(self).data_bank, old(self).x, old(self).y, n) {
                    Some(m2) => r is Ok && final(mmu)@ == m2 && *final(self) == (Cpu {
                        a: 0xFFFF,
                        x: wadd16(old(self).x, n as int),
                        y: wadd16(old(self).y, n as int),
                        ..*old(self)
                    }),
                    None => r is Err,
                }
            }),
    {
        let ghost c0 = *self;
        let ghost m0 = mmu@;
        let ghost n = block_count(c0.a);
        let count: u32 = if self.a == 0xFFFF {
            0
        } else {
            self.a as u32 + 1
        };
        let mut i: u32 = 0;
        while i < count
            invariant
                mmu.inv(),
                i <= count,
                count == n,
                n == block_count(c0.a),
                *self == (Cpu { x: wadd16(c0.x, i as int), y: wadd16(c0.y, i as int), ..c0 }),
                scopy(m0, src, c0.data_bank, c0.x, c0.y, n) == scopy(
                    mmu@,
                    src,
                    c0.data_bank,
                    self.x,
                    self.y,
                    (n - i) as nat,
                ),
            decreases count - i,
        {
            let value = match mmu.try_read_u8(bank_addr(src, self.x)) {
                Ok(v) => v,
                Err(f) => {
                    proof {
                        assert(sread(mmu@, bank_addr_spec(src, self.x)) is None);
                        assert(scopy(mmu@, src, c0.data_bank, self.x, self.y, (n - i) as nat)
                            is None);
                    }
                    return Err(f);
                },
            };
            mmu.store_u8(bank_addr(self.data_bank, self.y), value);
            self.x = self.x.wrapping_add(1);
            self.y = self.y.wrapping_add(1);
            i = i + 1;
        }
        self.a = 0xFFFF;
        Ok(())
    }


    /// Executes one decoded memory-operand instruction: the loads, stores,
    /// add-with-carries, compares and the memory increment.
    #[verifier::rlimit(100)]
    fn exec_mem(&mut self, mmu: &mut Mmu, inst: Instruction) -> (r: Result<(), MemoryFault>)
        requires
            old(mmu).inv(),
            is_mem_op(inst),
        ensures
            final(mmu).inv(),
            match sexec(*old(self), old(mmu)@, inst) {
                Some(p) => r is Ok && *final(self) == p.0 && final(mmu)@ == p.1,
                None => r is Err,
            },
    {
        match inst {
            Instruction::LoadAImmediate => {
                if self.is_eight_bit_mode(Register::A) {
                    self.try_load(mmu, Register::A, AddressingMode::Immediate8)?;
                } else {
                    self.try_load(mmu, Register::A, AddressingMode::Immediate16)?;
                }
            },
            Instruction::LoadAAbsolute => {
                self.try_load(mmu, Register::A, AddressingMode::Absolute)?;
            },
            Instruction::LoadADirectPage => {
                self.try_load(mmu, Register::A, AddressingMode::DirectPage)?;
            },
            Instruction::LoadADirectPageIndirectLong => {
                self.try_load(mmu, Register::A, AddressingMode::DirectPageIndirectLong)?;
            },
            Instruction::LoadAAbsoluteIndexedX => {
                self.try_load(mmu, Register::A, AddressingMode::AbsoluteIndexedX)?;
            },
            Instruction::LoadAAbsoluteLongIndexedX => {
                self.try_load(mmu, Register::A, AddressingMode::AbsoluteLongIndexedX)?;
            },
            Instruction::LoadAAbsoluteIndexedY => {
                self.try_load(mmu, Register::A, AddressingMode::AbsoluteIndexedY)?;
            },
            Instruction::LoadXImmediate => {
                if self.xy_u8_mode() {
                    self.try_load(mmu, Register::X, AddressingMode::Immediate8)?;
                } else {
                    self.try_load(mmu, Register::X, AddressingMode::Immediate16)?;
                }
            },
            Instruction::LoadXDirectPage => {
                self.try_load(mmu, Register::X, AddressingMode::DirectPage)?;
            },
            Instruction::LoadYImmediate => {
                if self.xy_u8_mode() {
                    self.try_load(mmu, Register::Y, AddressingMode::Immediate8)?;
                } else {
                    self.try_load(mmu, Register::Y, AddressingMode::Immediate16)?;
                }
            },
            Instruction::LoadYDirectPage => {
                self.try_load(mmu, Register::Y, AddressingMode::DirectPage)?;
            },
            Instruction::StoreAAbsolute => {
                self.try_store(mmu, Register::A, AddressingMode::Absolute)?;
            },
            Instruction::StoreADirectPage => {
                self.try_store(mmu, Register::A, AddressingMode::DirectPage)?;
            },
            Instruction::StoreAAbsoluteIndexedX => {
                self.try_store(mmu, Register::A, AddressingMode::AbsoluteIndexedX)?;
            },
            Instruction::StoreAAbsoluteLongIndexedX => {
                self.try_store(mmu, Register::A, AddressingMode::AbsoluteLongIndexedX)?;
            },
            Instruction::StoreAAbsoluteIndexedY => {
                self.try_store(mmu, Register::A, AddressingMode::AbsoluteIndexedY)?;
            },
            Instruction::StoreADirectPageIndexedX => {
                self.try_store(mmu, Register::A, AddressingMode::DirectPageIndexedX)?;
            },
            Instruction::StoreXAbsolute => {
                self.try_store(mmu, Register::X, AddressingMode::Absolute)?;
            },
            Instruction::StoreXDirectPage => {
                self.try_store(mmu, Register::X, AddressingMode::DirectPage)?;
            },
            Instruction::StoreYDirectPage => {
                self.try_store(mmu, Register::Y, AddressingMode::DirectPage)?;
            },
            Instruction::StoreZeroAbsolute => {
                self.try_store_zero(mmu, AddressingMode::Absolute)?;
            },
            Instruction::StoreZeroDirectPage => {
                self.try_store_zero(mmu, AddressingMode::DirectPage)?;
            },
            Instruction::StoreZeroAbsoluteIndexedX => {
                self.try_store_zero(mmu, AddressingMode::AbsoluteIndexedX)?;
            },
            Instruction::StoreZeroDirectPageIndexedX => {
                self.try_store_zero(mmu, AddressingMode::DirectPageIndexedX)?;
            },
            Instruction::AddWithCarryImmediate => {
                if self.is_eight_bit_mode(Register::A) {
                    self.try_add_with_carry(mmu, AddressingMode::Immediate8)?;
                } else {
                    self.try_add_with_carry(mmu, AddressingMode::Immediate16)?;
                }
            },
            Instruction::AddWithCarryAbsolute => {
                self.try_add_with_carry(mmu, AddressingMode::Absolute)?;
            },
            Instruction::AddWithCarryDirectPage => {
                self.try_add_with_carry(mmu, AddressingMode::DirectPage)?;
            },
            Instruction::AddWithCarryAbsoluteIndexedY => {
                self.try_add_with_carry(mmu, AddressingMode::AbsoluteIndexedY)?;
            },
            Instruction::IncrementDirectPage => {
                self.try_inc_dec_memory(mmu, AddressingMode::DirectPage, 1)?;
            },
            Instruction::CompareImmediate => {
                if self.is_eight_bit_mode(Register::A) {
                    self.try_compare(mmu, Register::A, AddressingMode::Immediate8)?;
                } else {
                    self.try_compare(mmu, Register::A, AddressingMode::Immediate16)?;
                }
            },
            Instruction::CompareAbsolute => {
                self.try_compare(mmu, Register::A, AddressingMode::Absolute)?;
            },
            Instruction::CompareDirectPage => {
                self.try_compare(mmu, Register::A, AddressingMode::DirectPage)?;
            },
            Instruction::CompareAbsoluteLongIndexedX => {
                self.try_compare(mmu, Register::A, AddressingMode::AbsoluteLongIndexedX)?;
            },
            Instruction::CompareXImmediate => {
                if self.xy_u8_mode() {
                    self.try_compare(mmu, Register::X, AddressingMode::Immediate8)?;
                } else {
                    self.try_compare(mmu, Register::X, AddressingMode::Immediate16)?;
                }
            },
            _ => {
                return unreached();
            },
        }
        Ok(())
    }

    /// Executes one decoded stack or control-transfer instruction: the
    /// pushes, pulls, jumps, subroutine calls and returns.
    #[verifier::rlimit(100)]
    fn exec_stack(&mut self, mmu: &mut Mmu, inst: Instruction) -> (r: Result<(), MemoryFault>)
        requires
            old(mmu).inv(),
            is_stack_op(inst),
        ensures
            final(mmu).inv(),
            match sexec(*old(self), old(mmu)@, inst) {
                Some(p) => r is Ok && *final(self) == p.0 && final(mmu)@ == p.1,
                None => r is Err,
            },
    {
        match inst {
            Instruction::PushA => {
                if self.is_eight_bit_mode(Register::A) {
                    let v = (self.a % 0x100) as u8;
                    self.push_u8(mmu, v);
                } else {
                    let v = self.a;
                    self.push_u16(mmu, v);
                }
            },
            Instruction::PushB => {
                let v = self.data_bank;
                self.push_u8(mmu, v);
            },
            Instruction::PushD => {
                let v = self.direct_page;
                self.push_u16(mmu, v);
            },
            Instruction::PushX => {
                if self.xy_u8_mode() {
                    let v = (self.x % 0x100) as u8;
                    self.push_u8(mmu, v);
                } else {
                    let v = self.x;
                    self.push_u16(mmu, v);
                }
            },
            Instruction::PushY => {
                if self.xy_u8_mode() {
                    let v = (self.y % 0x100) as u8;
                    self.push_u8(mmu, v);
                } else {
                    let v = self.y;
                    self.push_u16(mmu, v);
                }
            },
            Instruction::PushStatus => {
                let v = self.status.bits();
                self.push_u8(mmu, v);
            },
            Instruction::PushAbsolute => {
                let addr = self.try_fetch_u16(mmu)?;
                self.push_u16(mmu, addr);
            },
            Instruction::PullA => {
                self.try_pull_reg(mmu, Register::A)?;
            },
            Instruction::PullB => {
                let v = self.try_pull_u8(mmu)?;
                self.data_bank = v;
                let mut st = self.status;
                st.negative = v >= 0x80;
                st.zero = v == 0;
                self.status = st;
            },
            Instruction::PullD => {
                self.try_pull_reg(mmu, Register::D)?;
            },
            Instruction::PullX => {
                self.try_pull_reg(mmu, Register::X)?;
            },
            Instruction::PullY => {
                self.try_pull_reg(mmu, Register::Y)?;
            },
            Instruction::PullStatus => {
                let v = self.try_pull_u8(mmu)?;
                let mut st = Flags::from_bits(v);
                st.zero = v == 0;
                self.status = st;
            },
            Instruction::JumpAbsolute => {
                let addr = self.try_fetch_u16(mmu)?;
                self.pc = addr;
            },
            Instruction::JumpSubRoutineAbsolute => {
                let addr = self.try_fetch_u16(mmu)?;
                let ret = self.pc.wrapping_sub(1);
                self.push_u16(mmu, ret);
                self.pc = addr;
            },
            Instruction::JumpSubRoutineAbsoluteLong => {
                let addr = self.try_fetch_u16(mmu)?;
                let bank = self.try_fetch_u8(mmu)?;
                let ret = self.pc.wrapping_sub(1);
                self.push_u16(mmu, ret);
                let pb = self.program_bank;
                self.push_u8(mmu, pb);
                self.program_bank = bank;
                self.pc = addr;
            },
            Instruction::Return => {
                let addr = self.try_pull_u16(mmu)?;
                self.pc = addr.wrapping_add(1);
            },
            Instruction::ReturnLong => {
                let bank = self.try_pull_u8(mmu)?;
                let addr = self.try_pull_u16(mmu)?;
                self.pc = addr.wrapping_add(1);
                self.program_bank = bank;
            },
            _ => {
                return unreached();
            },
        }
        Ok(())
    }

    /// Executes one decoded register-to-register or flag instruction;
    /// memory is untouched.
    #[verifier::rlimit(100)]
    fn exec_transfer(&mut self, mmu: &mut Mmu, inst: Instruction) -> (r: Result<(), MemoryFault>)
        requires
            old(mmu).inv(),
            is_transfer_op(inst),
        ensures
            final(mmu).inv(),
            match sexec(*old(self), old(mmu)@, inst) {
                Some(p) => r is Ok && *final(self) == p.0 && final(mmu)@ == p.1,
                None => r is Err,
            },
    {
        match inst {
            Instruction::IncrementA => {
                self.inc_dec_register(Register::A, 1);
            },
            Instruction::IncrementX => {
                self.inc_dec_register(Register::X, 1);
            },
            Instruction::IncrementY => {
                self.inc_dec_register(Register::Y, 1);
            },
            Instruction::DecrementX => {
                self.inc_dec_register(Register::X, -1);
            },
            Instruction::DecrementY => {
                self.inc_dec_register(Register::Y, -1);
            },
            Instruction::ClearCarry => {
                let mut st = self.status;
                st.carry = false;
                self.status = st;
            },
            Instruction::SetIrqDisable => {
                let mut st = self.status;
                st.irq_disable = true;
                self.status = st;
            },
            Instruction::ExchangeCE => {
                let carry = self.status.carry;
                self.emulation = carry;
                let mut st = self.status;
                st.carry = !carry;
                self.status = st;
            },
            _ => {
                return unreached();
            },
        }
        Ok(())
    }

    /// Executes one decoded shift, register-to-register transfer or byte
    /// exchange; memory is untouched.
    #[verifier::rlimit(100)]
    fn exec_move(&mut self, mmu: &mut Mmu, inst: Instruction) -> (r: Result<(), MemoryFault>)
        requires
            old(mmu).inv(),
            is_move_op(inst),
        ensures
            final(mmu).inv(),
            match sexec(*old(self), old(mmu)@, inst) {
                Some(p) => r is Ok && *final(self) == p.0 && final(mmu)@ == p.1,
                None => r is Err,
            },
    {
        match inst {
            Instruction::ShiftLeft => {
                let orig = (self.a % 0x100) as u8;
                let v = ((orig as u16 * 2) % 0x100) as u8;
                let mut st = self.status;
                st.negative = v >= 0x80;
                st.zero = v == 0;
                st.carry = orig >= 0x80;
                self.status = st;
                self.a = v as u16;
            },
            Instruction::MoveAX => {
                let v = self.a;
                self.x = v;
                let mut st = self.status;
                st.negative = v >= 0x8000;
                st.zero = v == 0;
                self.status = st;
            },
            Instruction::MoveAY => {
                let v = self.a;
                self.y = v;
                let mut st = self.status;
                st.negative = v >= 0x8000;
                st.zero = v == 0;
                self.status = st;
            },
            Instruction::MoveDA => {
                let v = self.direct_page;
                self.a = v;
                let mut st = self.status;
                st.negative = v >= 0x8000;
                st.zero = v == 0;
                self.status = st;
            },
            Instruction::MoveXSP => {
                let v = self.x;
                self.sp = v;
                self.sp_base = v;
                let mut st = self.status;
                st.negative = v >= 0x8000;
                st.zero = v == 0;
                self.status = st;
            },
            Instruction::MoveYA => {
                if self.is_eight_bit_mode(Register::A) || self.is_eight_bit_mode(Register::Y) {
                    self.a = self.y % 0x100;
                } else {
                    self.a = self.y;
                }
            },
            Instruction::ExchangeBA => {
                let v = (self.a % 0x100) * 0x100 + self.a / 0x100;
                self.a = v;
                let mut st = self.status;
                st.negative = v >= 0x8000;
                st.zero = v == 0;
                self.status = st;
            },
            _ => {
                return unreached();
            },
        }
        Ok(())
    }

    /// Executes one decoded branch, flag-mask or block-copy instruction.
    #[verifier::rlimit(100)]
    fn exec_flow(&mut self, mmu: &mut Mmu, inst: Instruction) -> (r: Result<(), MemoryFault>)
        requires
            old(mmu).inv(),
            is_flow_op(inst),
        ensures
            final(mmu).inv(),
            match sexec(*old(self), old(mmu)@, inst) {
                Some(p) => r is Ok && *final(self) == p.0 && final(mmu)@ == p.1,
                None => r is Err,
            },
    {
        match inst {
            Instruction::BlockMoveNext => {
                let dest = self.try_fetch_u8(mmu)?;
                let src = self.try_fetch_u8(mmu)?;
                self.data_bank = dest;
                self.run_block_copy(mmu, src)?;
            },
            Instruction::BranchCarryClear => {
                let cond = !self.status.carry;
                self.try_branch(mmu, cond)?;
            },
            Instruction::BranchCarrySet => {
                let cond = self.status.carry;
                self.try_branch(mmu, cond)?;
            },
            Instruction::BranchNotEqual => {
                let cond = !self.status.zero;
                self.try_branch(mmu, cond)?;
            },
            Instruction::BranchEqual => {
                let cond = self.status.zero;
                self.try_branch(mmu, cond)?;
            },
            Instruction::BranchAlways => {
                self.try_branch(mmu, true)?;
            },
            Instruction::ResetFlags => {
                let mask = self.try_fetch_u8(mmu)?;
                self.status = self.status.with_cleared(Flags::from_bits(mask));
            },
            Instruction::SetFlags => {
                let mask = self.try_fetch_u8(mmu)?;
                self.status = self.status.with_set(Flags::from_bits(mask));
            },
            _ => {
                return unreached();
            },
        }
        Ok(())
    }

    /// One atomic step: fetches and decodes the opcode at the current
    /// program address, then executes it, exactly as [`sstep`] describes.
    ///
    /// Returns the executed instruction; the run loop must stop once it is
    /// [`Instruction::Unknown`] (which itself mutates nothing but the
    /// program counter), or once a step reports a [`MemoryFault`], after
    /// which the machine state is diagnostic only.
    #[verifier::rlimit(100)]
    pub fn tick(&mut self, mmu: &mut Mmu) -> (r: Result<Instruction, MemoryFault>)
        requires
            old(mmu).inv(),
        ensures
            final(mmu).inv(),
            match sstep(*old(self), old(mmu)@) {
                Some(p) => r == Ok::<Instruction, MemoryFault>(p.2) && *final(self) == p.0
                    && final(mmu)@ == p.1,
                None => r is Err,
            },
    {
        let opcode = match self.try_fetch_u8(mmu) {
            Ok(v) => v,
            Err(f) => {
                return Err(f);
            },
        };
        let inst = Instruction::from_opcode(opcode);
        let stepped: Result<(), MemoryFault> = match inst {
            Instruction::Unknown | Instruction::Break => Ok(()),
            Instruction::IncrementA | Instruction::IncrementX | Instruction::IncrementY
            | Instruction::DecrementX | Instruction::DecrementY | Instruction::ClearCarry
            | Instruction::SetIrqDisable | Instruction::ExchangeCE =>
                self.exec_transfer(mmu, inst),
            Instruction::ShiftLeft | Instruction::MoveAX | Instruction::MoveAY
            | Instruction::MoveDA | Instruction::MoveXSP | Instruction::MoveYA
            | Instruction::ExchangeBA => self.exec_move(mmu, inst),
            Instruction::BlockMoveNext | Instruction::BranchCarryClear
            | Instruction::BranchCarrySet | Instruction::BranchNotEqual
            | Instruction::BranchEqual | Instruction::BranchAlways | Instruction::ResetFlags
            | Instruction::SetFlags => self.exec_flow(mmu, inst),
            Instruction::PushA | Instruction::PushB | Instruction::PushD | Instruction::PushX
            | Instruction::PushY | Instruction::PushStatus | Instruction::PushAbsolute
            | Instruction::PullA | Instruction::PullB | Instruction::PullD | Instruction::PullX
            | Instruction::PullY | Instruction::PullStatus | Instruction::JumpAbsolute
            | Instruction::JumpSubRoutineAbsolute | Instruction::JumpSubRoutineAbsoluteLong
            | Instruction::Return | Instruction::ReturnLong => self.exec_stack(mmu, inst),
            _ => self.exec_mem(mmu, inst),
        };
        match stepped {
            Ok(()) => Ok(inst),
            Err(f) => Err(f),
        }
    }
}

/// The instruction families [`Cpu::exec_mem`] handles: every instruction
/// whose operand comes from or goes to memory through an addressing mode.
pub open spec fn is_mem_op(i: Instruction) -> bool {
    ||| i is LoadAImmediate
    ||| i is LoadAAbsolute
    ||| i is LoadADirectPage
    ||| i is LoadADirectPageIndirectLong
    ||| i is LoadAAbsoluteIndexedX
    ||| i is LoadAAbsoluteLongIndexedX
    ||| i is LoadAAbsoluteIndexedY
    ||| i is LoadXImmediate
    ||| i is LoadXDirectPage
    ||| i is LoadYImmediate
    ||| i is LoadYDirectPage
    ||| i is StoreAAbsolute
    ||| i is StoreADirectPage
    ||| i is StoreAAbsoluteIndexedX
    ||| i is StoreAAbsoluteLongIndexedX
    ||| i is StoreAAbsoluteIndexedY
    ||| i is StoreADirectPageIndexedX
    ||| i is StoreXAbsolute
    ||| i is StoreXDirectPage
    ||| i is StoreYDirectPage
    ||| i is StoreZeroAbsolute
    ||| i is StoreZeroDirectPage
    ||| i is StoreZeroAbsoluteIndexedX
    ||| i is StoreZeroDirectPageIndexedX
    ||| i is AddWithCarryImmediate
    ||| i is AddWithCarryAbsolute
    ||| i is AddWithCarryDirectPage
    ||| i is AddWithCarryAbsoluteIndexedY
    ||| i is IncrementDirectPage
    ||| i is CompareImmediate
    ||| i is CompareAbsolute
    ||| i is CompareDirectPage
    ||| i is CompareAbsoluteLongIndexedX
    ||| i is CompareXImmediate
}

/// The instruction families [`Cpu::exec_stack`] handles: pushes, pulls,
/// jumps, subroutine calls and returns.
pub open spec fn is_stack_op(i: Instruction) -> bool {
    ||| i is PushA
    ||| i is PushB
    ||| i is PushD
    ||| i is PushX
    ||| i is PushY
    ||| i is PushStatus
    ||| i is PushAbsolute
    ||| i is PullA
    ||| i is PullB
    ||| i is PullD
    ||| i is PullX
    ||| i is PullY
    ||| i is PullStatus
    ||| i is JumpAbsolute
    ||| i is JumpSubRoutineAbsolute
    ||| i is JumpSubRoutineAbsoluteLong
    ||| i is Return
    ||| i is ReturnLong
}

/// The instruction families [`Cpu::exec_transfer`] handles: register
/// increments and decrements and single-flag updates.
pub open spec fn is_transfer_op(i: Instruction) -> bool {
    ||| i is IncrementA
    ||| i is IncrementX
    ||| i is IncrementY
    ||| i is DecrementX
    ||| i is DecrementY
    ||| i is ClearCarry
    ||| i is SetIrqDisable
    ||| i is ExchangeCE
}

/// The instruction families [`Cpu::exec_move`] handles: the shift, the
/// register-to-register transfers and the byte exchange.
pub open spec fn is_move_op(i: Instruction) -> bool {
    ||| i is ShiftLeft
    ||| i is MoveAX
    ||| i is MoveAY
    ||| i is MoveDA
    ||| i is MoveXSP
    ||| i is MoveYA
    ||| i is ExchangeBA
}

/// The instruction families [`Cpu::exec_flow`] handles: branches, the
/// flag-mask updates and the block copy.
pub open spec fn is_flow_op(i: Instruction) -> bool {
    ||| i is BlockMoveNext
    ||| i is BranchCarryClear
    ||| i is BranchCarrySet
    ||| i is BranchNotEqual
    ||| i is BranchEqual
    ||| i is BranchAlways
    ||| i is ResetFlags
    ||| i is SetFlags
}

/// An opcode absent from the decode table executes as the Unknown sentinel:
/// no register, no flag and no memory cell changes; only the program
/// counter advances past the opcode byte itself.
pub proof fn lemma_unknown_mutates_nothing(c: Cpu, m: MemView, opcode: u8)
    requires
        sread(m, cur_addr(c)) == Some(opcode),
        spec_from_opcode(opcode) is Unknown,
    ensures
        sstep(c, m) == Some((Cpu { pc: wadd16(c.pc, 1), ..c }, m, Instruction::Unknown)),
{
}

/// A byte push followed directly by a byte pull returns the pushed value
/// and restores the stack pointer to its pre-push value, provided the
/// stack cell sits in the RAM window.
pub proof fn lemma_stack_round_trip_u8(c: Cpu, m: MemView, v: u8)
    requires
        mem_wf(m),
        c.sp < 0x2000,
    ensures
        ({
            let (c1, m1) = spush8(c, m, v);
            spull8(c1, m1) == Some((v, Cpu { sp: c.sp, ..c1 }))
        }),
{
    let (c1, m1) = spush8(c, m, v);
    assert(wadd16(c1.sp, 1) == c.sp);
    assert(sread(m1, c.sp as int) == Some(v));
}

/// A 16-bit push followed directly by a 16-bit pull returns the pushed
/// word and restores the stack pointer, provided both stack cells sit in
/// the RAM window.
pub proof fn lemma_stack_round_trip_u16(c: Cpu, m: MemView, v: u16)
    requires
        mem_wf(m),
        1 <= c.sp < 0x2000,
    ensures
        ({
            let (c1, m1) = spush16(c, m, v);
            spull16(c1, m1) == Some((v, Cpu { sp: c.sp, ..c1 }))
        }),
{
    let (c1, m1) = spush16(c, m, v);
    assert(wadd16(c1.sp, 1) == wsub16(c.sp, 1));
    assert(wadd16(c1.sp, 2) == c.sp);
    assert(sread(m1, c.sp - 1) == Some((v % 0x100) as u8));
    assert(sread(m1, c.sp as int) == Some((v / 0x100) as u8));
}

} // verus!
