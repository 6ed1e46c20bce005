use emu816::cpu::Cpu;
use emu816::disasm::{render_immediate16, render_immediate8};
use emu816::inst::Instruction;
use emu816::mmu::Mmu;

#[test]
fn decoded_immediate_load_renders_documented_syntax() {
    let inst = Instruction::from_opcode(0xA9);
    assert_eq!(render_immediate8(inst, 0x42), "LDA #$42");
    assert_eq!(render_immediate16(inst, 0x1234), "LDA #$1234");
}

#[test]
fn decoded_immediate_compare_and_loads_render() {
    assert_eq!(render_immediate8(Instruction::from_opcode(0xC9), 0x0F), "CMP #$0F");
    assert_eq!(render_immediate8(Instruction::from_opcode(0xA2), 0x00), "LDX #$00");
    assert_eq!(render_immediate8(Instruction::from_opcode(0xA0), 0xFF), "LDY #$FF");
    assert_eq!(render_immediate8(Instruction::from_opcode(0x69), 0x80), "ADC #$80");
    assert_eq!(render_immediate8(Instruction::from_opcode(0xE2), 0x20), "SEP #$20");
    assert_eq!(render_immediate8(Instruction::from_opcode(0xC2), 0x20), "REP #$20");
}

#[test]
fn mnemonics_follow_the_decode_table() {
    assert_eq!(Instruction::from_opcode(0x54).mnemonic(), "MVN");
    assert_eq!(Instruction::from_opcode(0xFB).mnemonic(), "XCE");
    assert_eq!(Instruction::from_opcode(0x48).mnemonic(), "PHA");
    assert_eq!(Instruction::from_opcode(0x68).mnemonic(), "PLA");
    assert_eq!(Instruction::from_opcode(0x20).mnemonic(), "JSR");
    assert_eq!(Instruction::from_opcode(0x60).mnemonic(), "RTS");
    assert_eq!(Instruction::from_opcode(0x80).mnemonic(), "BRA");
    assert_eq!(Instruction::from_opcode(0x0A).mnemonic(), "ASL");
    assert_eq!(Instruction::from_opcode(0x9C).mnemonic(), "STZ");
    assert_eq!(Instruction::from_opcode(0xFF).mnemonic(), "???");
    assert_eq!(Instruction::from_opcode(0x42).mnemonic(), "???");
}

#[test]
fn register_debug_line_of_power_on_state() {
    let cpu = Cpu::new();
    assert_eq!(
        cpu.register_debug(),
        "A: 0000 | X: 0000 | Y: 0000 | SP: 01FF | D: 0000 | DB: 00 | PB: 00 | Flags: E"
    );
}

#[test]
fn register_debug_line_shows_set_flags_in_order() {
    let mut cpu = Cpu::new();
    cpu.emulation = false;
    cpu.a = 0x12AB;
    cpu.status.negative = true;
    cpu.status.zero = true;
    cpu.status.carry = true;
    assert_eq!(
        cpu.register_debug(),
        "A: 12AB | X: 0000 | Y: 0000 | SP: 01FF | D: 0000 | DB: 00 | PB: 00 | Flags: NZC"
    );
}

#[test]
fn stack_debug_lists_bytes_from_stack_base_down() {
    let mut mmu = Mmu::new(vec![0u8; 0x8000]);
    let mut cpu = Cpu::new();
    mmu.store_u8(0x0001FF, 0xAB);
    mmu.store_u8(0x0001FE, 0xCD);
    cpu.sp = 0x01FD;
    assert_eq!(cpu.stack_debug(&mmu), "0xAB, 0xCD");
}

#[test]
fn stack_debug_of_empty_stack_is_empty() {
    let mmu = Mmu::new(vec![0u8; 0x8000]);
    let cpu = Cpu::new();
    assert_eq!(cpu.stack_debug(&mmu), "");
}
