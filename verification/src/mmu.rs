//! The memory management unit: cartridge ROM, console RAM and a small
//! coprocessor I/O register file, reached through a bank/offset decode.
//!
//! A 24-bit effective address splits into a bank (top 8 bits) and an offset
//! (bottom 16 bits). Banks 0x00-0x3F window RAM, hardware registers and ROM;
//! bank 0x7E is a flat RAM mirror. Every other bank is unimplemented: a read
//! or a store there is reported as a [`MemoryFault`] instead of corrupting
//! state, so that a host embedding the core can stop cleanly.

use vstd::prelude::*;

verus! {

/// Bytes of console RAM backing banks 0x00-0x3F (low window) and bank 0x7E.
pub const RAM_SIZE: usize = 128000;

/// Number of coprocessor I/O scratch registers.
pub const SPC_PORTS: usize = 4;

/// A memory access that no implemented window accepts.
///
/// `addr` is the offending 24-bit effective address.
#[derive(Clone, Copy, PartialEq, Eq, Structural, Debug)]
pub struct MemoryFault {
    pub addr: u32,
}

/// The memory map state as mathematical sequences of bytes.
#[verifier::ext_equal]
pub ghost struct MemView {
    pub cartridge: Seq<u8>,
    pub ram: Seq<u8>,
    pub spc: Seq<u8>,
}

/// The sequences have the lengths the hardware map assumes.
pub open spec fn mem_wf(m: MemView) -> bool {
    &&& m.ram.len() == RAM_SIZE
    &&& m.spc.len() == SPC_PORTS
}

/// Bank byte of an effective address: bits 16-23.
pub open spec fn bank_of(addr: int) -> int {
    addr / 0x10000 % 0x100
}

/// Offset word of an effective address: bits 0-15.
pub open spec fn offset_of(addr: int) -> int {
    addr % 0x10000
}

/// Cartridge index of a ROM access: offset 0x8000-0xFFFF of bank `bank` maps
/// to `(offset - 0x8000) + bank * 0x8000` (the LoROM convention).
pub open spec fn rom_index(bank: int, offset: int) -> int {
    offset - 0x8000 + bank * 0x8000
}

/// The byte a read of `addr` returns, or `None` when the address falls in no
/// implemented window (an unimplemented bank, or ROM beyond the cartridge).
///
/// Offsets 0x2000-0x7FFF of the low banks outside the I/O register file are
/// placeholders for unimplemented hardware and read as constant zero.
pub open spec fn sread(m: MemView, addr: int) -> Option<u8> {
    let bank = bank_of(addr);
    let offset = offset_of(addr);
    if bank <= 0x3F {
        if offset < 0x2000 {
            Some(m.ram[offset])
        } else if 0x2140 <= offset <= 0x2143 {
            Some(m.spc[offset - 0x2140])
        } else if offset < 0x8000 {
            Some(0)
        } else if rom_index(bank, offset) < m.cartridge.len() {
            Some(m.cartridge[rom_index(bank, offset)])
        } else {
            None
        }
    } else if bank == 0x7E {
        Some(m.ram[offset])
    } else {
        None
    }
}

/// Two-byte little-endian read.
pub open spec fn sread16(m: MemView, addr: int) -> Option<u16> {
    match (sread(m, addr), sread(m, addr + 1)) {
        (Some(lo), Some(hi)) => Some((lo + hi * 0x100) as u16),
        _ => None,
    }
}

/// Three-byte little-endian read of a long (24-bit) value.
pub open spec fn sread_long(m: MemView, addr: int) -> Option<u32> {
    match (sread(m, addr), sread(m, addr + 1), sread(m, addr + 2)) {
        (Some(b0), Some(b1), Some(b2)) => Some((b0 + b1 * 0x100 + b2 * 0x10000) as u32),
        _ => None,
    }
}

/// Whether the bank of `addr` is implemented at all; a store elsewhere is a
/// fault.
pub open spec fn bank_mapped(addr: int) -> bool {
    bank_of(addr) <= 0x3F || bank_of(addr) == 0x7E
}

/// The memory state after a store of `value` at `addr`. Total: stores to
/// placeholder or ROM windows and to unimplemented banks leave the state
/// unchanged.
pub open spec fn swrite(m: MemView, addr: int, value: u8) -> MemView {
    let bank = bank_of(addr);
    let offset = offset_of(addr);
    if bank <= 0x3F && offset < 0x2000 {
        MemView { ram: m.ram.update(offset, value), ..m }
    } else if bank <= 0x3F && 0x2140 <= offset <= 0x2143 {
        MemView { spc: m.spc.update(offset - 0x2140, value), ..m }
    } else if bank == 0x7E {
        MemView { ram: m.ram.update(offset, value), ..m }
    } else {
        m
    }
}

/// Two-byte little-endian store.
pub open spec fn swrite16(m: MemView, addr: int, value: u16) -> MemView {
    swrite(swrite(m, addr, (value % 0x100) as u8), addr + 1, (value / 0x100) as u8)
}

/// The memory management unit. Owns the cartridge image exclusively after
/// construction.
pub struct Mmu {
    cartridge: Vec<u8>,
    ram: Vec<u8>,
    spc: [u8; 4],
}

impl View for Mmu {
    type V = MemView;

    closed spec fn view(&self) -> MemView {
        MemView { cartridge: self.cartridge@, ram: self.ram@, spc: self.spc@ }
    }
}

impl Mmu {
    /// The backing storage has the lengths the decode assumes.
    pub open spec fn inv(&self) -> bool {
        mem_wf(self@)
    }

    /// A fresh unit over the given cartridge image: RAM cleared, the I/O
    /// register file in its power-on state.
    pub fn new(cartridge: Vec<u8>) -> (mmu: Mmu)
        ensures
            mmu.inv(),
            mmu@.cartridge == cartridge@,
            mmu@.ram == Seq::<u8>::new(RAM_SIZE as nat, |i: int| 0u8),
            mmu@.spc == seq![0xAAu8, 0xBBu8, 0x00u8, 0x00u8],
    {
        let mmu = Mmu { cartridge, ram: vec![0u8; RAM_SIZE], spc: [0xAA, 0xBB, 0x00, 0x00] };
        proof {
            assert(mmu@.ram =~= Seq::<u8>::new(RAM_SIZE as nat, |i: int| 0u8));
            assert(mmu@.spc =~= seq![0xAAu8, 0xBBu8, 0x00u8, 0x00u8]);
        }
        mmu
    }

    /// Total read: the mapped byte, or the fault for an address outside every
    /// implemented window.
    pub fn try_read_u8(&self, addr: u32) -> (r: Result<u8, MemoryFault>)
        requires
            self.inv(),
        ensures
            match sread(self@, addr as int) {
                Some(v) => r == Ok::<u8, MemoryFault>(v),
                None => r == Err::<u8, MemoryFault>(MemoryFault { addr }),
            },
    {
        let bank: u32 = addr / 0x10000 % 0x100;
        let offset: u32 = addr % 0x10000;
        if bank <= 0x3F {
            if offset < 0x2000 {
                Ok(self.ram[offset as usize])
            } else if 0x2140 <= offset && offset <= 0x2143 {
                Ok(self.spc[(offset - 0x2140) as usize])
            } else if offset < 0x8000 {
                Ok(0)
            } else {
                let index: usize = (offset - 0x8000) as usize + bank as usize * 0x8000;
                if index < self.cartridge.len() {
                    Ok(self.cartridge[index])
                } else {
                    Err(MemoryFault { addr })
                }
            }
        } else if bank == 0x7E {
            Ok(self.ram[offset as usize])
        } else {
            Err(MemoryFault { addr })
        }
    }

    /// Read of an address known to be mapped.
    pub fn read_u8(&self, addr: u32) -> (v: u8)
        requires
            self.inv(),
            sread(self@, addr as int) is Some,
        ensures
            sread(self@, addr as int) == Some(v),
    {
        match self.try_read_u8(addr) {
            Ok(v) => v,
            Err(_) => unreached(),
        }
    }

    /// Total two-byte little-endian read; the fault names the first unmapped
    /// byte.
    pub fn try_read_u16(&self, addr: u32) -> (r: Result<u16, MemoryFault>)
        requires
            self.inv(),
        ensures
            match sread16(self@, addr as int) {
                Some(v) => r == Ok::<u16, MemoryFault>(v),
                None => r is Err,
            },
            r is Err ==> sread16(self@, addr as int) is None,
    {
        let byte0 = match self.try_read_u8(addr) {
            Ok(v) => v,
            Err(f) => {
                return Err(f);
            },
        };
        proof {
            lemma_mapped_bounds(self@, addr as int);
        }
        let byte1 = match self.try_read_u8(addr + 1) {
            Ok(v) => v,
            Err(f) => {
                return Err(f);
            },
        };
        Ok(byte0 as u16 + byte1 as u16 * 0x100)
    }

    /// Two-byte read of an address pair known to be mapped.
    pub fn read_u16(&self, addr: u32) -> (v: u16)
        requires
            self.inv(),
            sread16(self@, addr as int) is Some,
        ensures
            sread16(self@, addr as int) == Some(v),
    {
        match self.try_read_u16(addr) {
            Ok(v) => v,
            Err(_) => unreached(),
        }
    }

    /// Total three-byte little-endian read of a 24-bit value.
    pub fn try_read_long(&self, addr: u32) -> (r: Result<u32, MemoryFault>)
        requires
            self.inv(),
        ensures
            match sread_long(self@, addr as int) {
                Some(v) => r == Ok::<u32, MemoryFault>(v),
                None => r is Err,
            },
            r is Err ==> sread_long(self@, addr as int) is None,
    {
        let byte0 = match self.try_read_u8(addr) {
            Ok(v) => v,
            Err(f) => {
                return Err(f);
            },
        };
        proof {
            lemma_mapped_bounds(self@, addr as int);
        }
        let byte1 = match self.try_read_u8(addr + 1) {
            Ok(v) => v,
            Err(f) => {
                return Err(f);
            },
        };
        let byte2 = match self.try_read_u8(addr + 2) {
            Ok(v) => v,
            Err(f) => {
                return Err(f);
            },
        };
        Ok(byte0 as u32 + byte1 as u32 * 0x100 + byte2 as u32 * 0x10000)
    }

    /// Three-byte read of an address triple known to be mapped.
    pub fn read_long(&self, addr: u32) -> (v: u32)
        requires
            self.inv(),
            sread_long(self@, addr as int) is Some,
        ensures
            sread_long(self@, addr as int) == Some(v),
    {
        match self.try_read_long(addr) {
            Ok(v) => v,
            Err(_) => unreached(),
        }
    }

    /// Total store. Writes to RAM and the I/O register file take effect;
    /// writes to the placeholder and ROM windows are dropped; a write to an
    /// unimplemented bank is dropped and reported.
    pub fn try_store_u8(&mut self, addr: u32, value: u8) -> (r: Result<(), MemoryFault>)
        requires
            old(self).inv(),
        ensures
            final(self).inv(),
            final(self)@ == swrite(old(self)@, addr as int, value),
            r == if bank_mapped(addr as int) {
                Ok::<(), MemoryFault>(())
            } else {
                Err::<(), MemoryFault>(MemoryFault { addr })
            },
    {
        let bank: u32 = addr / 0x10000 % 0x100;
        let offset: u32 = addr % 0x10000;
        if bank <= 0x3F {
            if offset < 0x2000 {
                self.ram[offset as usize] = value;
            } else if 0x2140 <= offset && offset <= 0x2143 {
                self.spc[(offset - 0x2140) as usize] = value;
            }
            Ok(())
        } else if bank == 0x7E {
            self.ram[offset as usize] = value;
            Ok(())
        } else {
            Err(MemoryFault { addr })
        }
    }

    /// Store as the hardware map takes it, faults dropped silently.
    pub fn store_u8(&mut self, addr: u32, value: u8)
        requires
            old(self).inv(),
        ensures
            final(self).inv(),
            final(self)@ == swrite(old(self)@, addr as int, value),
    {
        let _ = self.try_store_u8(addr, value);
    }

    /// Two-byte little-endian store, each byte as [`Mmu::store_u8`] takes it.
    pub fn store_u16(&mut self, addr: u32, value: u16)
        requires
            old(self).inv(),
            addr + 1 <= u32::MAX,
        ensures
            final(self).inv(),
            final(self)@ == swrite16(old(self)@, addr as int, value),
    {
        self.store_u8(addr, (value % 0x100) as u8);
        self.store_u8(addr + 1, (value / 0x100) as u8);
    }

    /// The two-byte ROM location that seeds the initial program address.
    pub fn reset_vector(&self) -> (v: u16)
        requires
            self@.cartridge.len() > 0x7FFD,
        ensures
            v == self@.cartridge[0x7FFC] + self@.cartridge[0x7FFD] * 0x100,
    {
        self.cartridge[0x7FFC] as u16 + self.cartridge[0x7FFD] as u16 * 0x100
    }
}

/// A mapped address never sits at the very top of the 32-bit range, so the
/// following one or two byte addresses exist.
pub proof fn lemma_mapped_bounds(m: MemView, addr: int)
    requires
        0 <= addr <= u32::MAX,
        sread(m, addr) is Some,
    ensures
        addr + 2 <= u32::MAX,
{
    if addr + 2 > u32::MAX {
        assert(addr / 0x10000 == 0xFFFF);
        assert(bank_of(addr) == 0xFF);
    }
}

/// Bank 0x7E is a flat mirror of the RAM behind the low-bank RAM window:
/// for every low bank and every offset below 0x2000, both map to the same
/// RAM cell.
pub proof fn lemma_ram_mirror(m: MemView, bank: u8, offset: u16)
    requires
        bank <= 0x3F,
        offset < 0x2000,
    ensures
        sread(m, bank * 0x10000 + offset) == Some(m.ram[offset as int]),
        sread(m, 0x7E0000 + offset) == sread(m, bank * 0x10000 + offset),
{
    lemma_split_addr(bank, offset);
    lemma_split_addr(0x7E, offset);
}

/// The ROM window: offsets 0x8000 and up of a low bank read the cartridge
/// at `(offset - 0x8000) + bank * 0x8000`.
pub proof fn lemma_lorom_mapping(m: MemView, bank: u8, offset: u16)
    requires
        bank <= 0x3F,
        0x8000 <= offset,
        rom_index(bank as int, offset as int) < m.cartridge.len(),
    ensures
        sread(m, bank * 0x10000 + offset) == Some(
            m.cartridge[rom_index(bank as int, offset as int)],
        ),
{
    lemma_split_addr(bank, offset);
}

/// A bank byte and a 16-bit offset joined into an address decompose back
/// into themselves.
pub proof fn lemma_split_addr(bank: u8, offset: u16)
    ensures
        bank_of(bank * 0x10000 + offset) == bank,
        offset_of(bank * 0x10000 + offset) == offset,
{
    assert((bank * 0x10000 + offset) / 0x10000 == bank) by (nonlinear_arith);
    assert((bank * 0x10000 + offset) % 0x10000 == offset) by (nonlinear_arith);
}

} // verus!
