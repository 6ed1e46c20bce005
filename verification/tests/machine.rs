use emu816::cpu::Cpu;
use emu816::inst::Instruction;
use emu816::mmu::Mmu;

/// A machine whose cartridge starts with `program` at address 0x008000,
/// with execution positioned on its first byte.
fn machine(program: &[u8]) -> (Cpu, Mmu) {
    let mut cart = vec![0u8; 0x10000];
    cart[..program.len()].copy_from_slice(program);
    let mmu = Mmu::new(cart);
    let mut cpu = Cpu::new();
    cpu.set_current_addr(0x008000);
    (cpu, mmu)
}

#[test]
fn lda_immediate_eight_bit() {
    let (mut cpu, mut mmu) = machine(&[0xA9, 0x42]);
    let r = cpu.tick(&mut mmu);
    assert_eq!(r, Ok(Instruction::LoadAImmediate));
    assert_eq!(cpu.a, 0x42);
    assert!(!cpu.status.zero);
    assert!(!cpu.status.negative);
    assert_eq!(cpu.pc, 0x8002);
}

#[test]
fn lda_immediate_sixteen_bit_in_native_mode() {
    let (mut cpu, mut mmu) = machine(&[0xA9, 0x34, 0x92]);
    cpu.emulation = false;
    let r = cpu.tick(&mut mmu);
    assert_eq!(r, Ok(Instruction::LoadAImmediate));
    assert_eq!(cpu.a, 0x9234);
    assert!(cpu.status.negative);
    assert_eq!(cpu.pc, 0x8003);
}

#[test]
fn lda_immediate_zero_sets_zero_flag() {
    let (mut cpu, mut mmu) = machine(&[0xA9, 0x00]);
    let r = cpu.tick(&mut mmu);
    assert_eq!(r, Ok(Instruction::LoadAImmediate));
    assert!(cpu.status.zero);
    assert!(!cpu.status.negative);
}

#[test]
fn lda_absolute_reads_data_bank() {
    let (mut cpu, mut mmu) = machine(&[0xAD, 0x34, 0x12]);
    mmu.store_u8(0x001234, 0x77);
    let r = cpu.tick(&mut mmu);
    assert_eq!(r, Ok(Instruction::LoadAAbsolute));
    assert_eq!(cpu.a, 0x77);
}

#[test]
fn ldx_direct_page_uses_direct_page_base() {
    let (mut cpu, mut mmu) = machine(&[0xA6, 0x10]);
    cpu.direct_page = 0x0100;
    mmu.store_u8(0x000110, 0x5A);
    let r = cpu.tick(&mut mmu);
    assert_eq!(r, Ok(Instruction::LoadXDirectPage));
    assert_eq!(cpu.x, 0x5A);
}

#[test]
fn sta_direct_page_stores_low_byte() {
    let (mut cpu, mut mmu) = machine(&[0x85, 0x10]);
    cpu.a = 0x12AB;
    let r = cpu.tick(&mut mmu);
    assert_eq!(r, Ok(Instruction::StoreADirectPage));
    assert_eq!(mmu.read_u8(0x000010), 0xAB);
}

#[test]
fn stz_clears_memory() {
    let (mut cpu, mut mmu) = machine(&[0x64, 0x20]);
    mmu.store_u8(0x000020, 0xFF);
    let r = cpu.tick(&mut mmu);
    assert_eq!(r, Ok(Instruction::StoreZeroDirectPage));
    assert_eq!(mmu.read_u8(0x000020), 0x00);
}

#[test]
fn unknown_opcode_mutates_nothing_but_pc() {
    let (mut cpu, mut mmu) = machine(&[0xFF]);
    mmu.store_u8(0x000100, 0x42);
    let before = cpu;
    let r = cpu.tick(&mut mmu);
    assert_eq!(r, Ok(Instruction::Unknown));
    assert_eq!(cpu.a, before.a);
    assert_eq!(cpu.x, before.x);
    assert_eq!(cpu.y, before.y);
    assert_eq!(cpu.sp, before.sp);
    assert_eq!(cpu.direct_page, before.direct_page);
    assert_eq!(cpu.program_bank, before.program_bank);
    assert_eq!(cpu.data_bank, before.data_bank);
    assert_eq!(cpu.status, before.status);
    assert_eq!(cpu.emulation, before.emulation);
    assert_eq!(cpu.pc, before.pc + 1);
    assert_eq!(mmu.read_u8(0x000100), 0x42);
    assert_eq!(mmu.read_u8(0x000000), 0x00);
}

#[test]
fn adc_immediate_overflow_scenario() {
    let (mut cpu, mut mmu) = machine(&[0x69, 0x01]);
    cpu.a = 0x00FF;
    let r = cpu.tick(&mut mmu);
    assert_eq!(r, Ok(Instruction::AddWithCarryImmediate));
    assert_eq!(cpu.a, 0x0000);
    assert!(cpu.status.carry);
    assert!(cpu.status.zero);
    assert!(!cpu.status.negative);
}

#[test]
fn cmp_immediate_sets_carry_when_a_not_below_operand() {
    let (mut cpu, mut mmu) = machine(&[0xC9, 0x10]);
    cpu.a = 0x0020;
    let r = cpu.tick(&mut mmu);
    assert_eq!(r, Ok(Instruction::CompareImmediate));
    assert!(cpu.status.carry);
    assert!(!cpu.status.zero);
    assert_eq!(cpu.a, 0x0020);
}

#[test]
fn branch_taken_moves_pc_backwards() {
    let (mut cpu, mut mmu) = machine(&[0x80, 0x80]);
    let r = cpu.tick(&mut mmu);
    assert_eq!(r, Ok(Instruction::BranchAlways));
    assert_eq!(cpu.pc, 0x8002 - 128);
}

#[test]
fn branch_taken_moves_pc_forwards() {
    let (mut cpu, mut mmu) = machine(&[0x80, 0x7F]);
    let r = cpu.tick(&mut mmu);
    assert_eq!(r, Ok(Instruction::BranchAlways));
    assert_eq!(cpu.pc, 0x8002 + 127);
}

#[test]
fn branch_condition_not_met_only_consumes_displacement() {
    let (mut cpu, mut mmu) = machine(&[0x90, 0x10]);
    cpu.status.carry = true;
    let r = cpu.tick(&mut mmu);
    assert_eq!(r, Ok(Instruction::BranchCarryClear));
    assert_eq!(cpu.pc, 0x8002);
}

#[test]
fn stack_round_trip_eight_bit() {
    let (mut cpu, mut mmu) = machine(&[0x48, 0x68]);
    cpu.a = 0x0042;
    let sp_before = cpu.sp;
    assert_eq!(cpu.tick(&mut mmu), Ok(Instruction::PushA));
    assert_eq!(cpu.sp, sp_before - 1);
    cpu.a = 0;
    assert_eq!(cpu.tick(&mut mmu), Ok(Instruction::PullA));
    assert_eq!(cpu.a, 0x0042);
    assert_eq!(cpu.sp, sp_before);
}

#[test]
fn stack_round_trip_sixteen_bit() {
    let (mut cpu, mut mmu) = machine(&[0x48, 0x68]);
    cpu.emulation = false;
    cpu.a = 0x9234;
    let sp_before = cpu.sp;
    assert_eq!(cpu.tick(&mut mmu), Ok(Instruction::PushA));
    assert_eq!(cpu.sp, sp_before - 2);
    cpu.a = 0;
    assert_eq!(cpu.tick(&mut mmu), Ok(Instruction::PullA));
    assert_eq!(cpu.a, 0x9234);
    assert_eq!(cpu.sp, sp_before);
    assert!(cpu.status.negative);
}

#[test]
fn block_copy_moves_counter_plus_one_bytes() {
    let (mut cpu, mut mmu) = machine(&[0x54, 0x00, 0x00]);
    cpu.a = 0x0002;
    cpu.x = 0x0100;
    cpu.y = 0x0200;
    mmu.store_u8(0x000100, 0x11);
    mmu.store_u8(0x000101, 0x22);
    mmu.store_u8(0x000102, 0x33);
    let r = cpu.tick(&mut mmu);
    assert_eq!(r, Ok(Instruction::BlockMoveNext));
    assert_eq!(mmu.read_u8(0x000200), 0x11);
    assert_eq!(mmu.read_u8(0x000201), 0x22);
    assert_eq!(mmu.read_u8(0x000202), 0x33);
    assert_eq!(mmu.read_u8(0x000203), 0x00);
    assert_eq!(cpu.a, 0xFFFF);
    assert_eq!(cpu.x, 0x0103);
    assert_eq!(cpu.y, 0x0203);
    assert_eq!(cpu.data_bank, 0x00);
}

#[test]
fn block_copy_with_exhausted_counter_copies_nothing() {
    let (mut cpu, mut mmu) = machine(&[0x54, 0x00, 0x00]);
    cpu.a = 0xFFFF;
    cpu.x = 0x0100;
    cpu.y = 0x0200;
    mmu.store_u8(0x000100, 0x11);
    let r = cpu.tick(&mut mmu);
    assert_eq!(r, Ok(Instruction::BlockMoveNext));
    assert_eq!(mmu.read_u8(0x000200), 0x00);
    assert_eq!(cpu.x, 0x0100);
    assert_eq!(cpu.y, 0x0200);
}

#[test]
fn jsr_and_rts_resume_after_call_site() {
    // The subroutine target at 0x8010 holds a return instruction.
    let mut program = [0u8; 0x11];
    program[0x00] = 0x20;
    program[0x01] = 0x10;
    program[0x02] = 0x80;
    program[0x10] = 0x60;
    let (mut cpu, mut mmu) = machine(&program);
    let sp_before = cpu.sp;
    assert_eq!(cpu.tick(&mut mmu), Ok(Instruction::JumpSubRoutineAbsolute));
    assert_eq!(cpu.pc, 0x8010);
    assert_eq!(cpu.sp, sp_before - 2);
    assert_eq!(cpu.tick(&mut mmu), Ok(Instruction::Return));
    assert_eq!(cpu.pc, 0x8003);
    assert_eq!(cpu.sp, sp_before);
}

#[test]
fn sep_and_rep_update_flag_masks() {
    let (mut cpu, mut mmu) = machine(&[0xE2, 0x20, 0xC2, 0x20]);
    cpu.emulation = false;
    assert_eq!(cpu.tick(&mut mmu), Ok(Instruction::SetFlags));
    assert!(cpu.status.memory_select);
    assert_eq!(cpu.tick(&mut mmu), Ok(Instruction::ResetFlags));
    assert!(!cpu.status.memory_select);
}

#[test]
fn xce_swaps_carry_into_emulation_mode() {
    let (mut cpu, mut mmu) = machine(&[0xFB]);
    cpu.emulation = false;
    cpu.status.carry = true;
    assert_eq!(cpu.tick(&mut mmu), Ok(Instruction::ExchangeCE));
    assert!(cpu.emulation);
    assert!(!cpu.status.carry);
}

#[test]
fn increment_and_decrement_wrap_at_register_width() {
    let (mut cpu, mut mmu) = machine(&[0xE8, 0xCA, 0xCA]);
    cpu.x = 0x00FF;
    assert_eq!(cpu.tick(&mut mmu), Ok(Instruction::IncrementX));
    // Emulation mode forces the 8-bit width, so the low byte wraps to zero.
    assert_eq!(cpu.x, 0x0000);
    assert!(cpu.status.zero);
    assert_eq!(cpu.tick(&mut mmu), Ok(Instruction::DecrementX));
    assert_eq!(cpu.x, 0x00FF);
    assert!(cpu.status.negative);
}

#[test]
fn transfer_a_to_x_sets_flags_from_value() {
    let (mut cpu, mut mmu) = machine(&[0xAA]);
    cpu.a = 0x8001;
    assert_eq!(cpu.tick(&mut mmu), Ok(Instruction::MoveAX));
    assert_eq!(cpu.x, 0x8001);
    assert!(cpu.status.negative);
    assert!(!cpu.status.zero);
}

#[test]
fn exchange_ba_swaps_accumulator_bytes() {
    let (mut cpu, mut mmu) = machine(&[0xEB]);
    cpu.a = 0x12AB;
    assert_eq!(cpu.tick(&mut mmu), Ok(Instruction::ExchangeBA));
    assert_eq!(cpu.a, 0xAB12);
}

#[test]
fn shift_left_sets_carry_from_old_bit_seven() {
    let (mut cpu, mut mmu) = machine(&[0x0A]);
    cpu.a = 0x0081;
    assert_eq!(cpu.tick(&mut mmu), Ok(Instruction::ShiftLeft));
    assert_eq!(cpu.a, 0x0002);
    assert!(cpu.status.carry);
    assert!(!cpu.status.zero);
}

#[test]
fn fetch_from_unmapped_bank_reports_fault() {
    let (mut cpu, mut mmu) = machine(&[0xA9, 0x42]);
    cpu.set_current_addr(0x400000);
    let r = cpu.tick(&mut mmu);
    assert!(r.is_err());
    assert_eq!(r.unwrap_err().addr, 0x400000);
}

#[test]
fn operand_read_beyond_cartridge_reports_fault() {
    let mut cart = vec![0u8; 0x100];
    cart[0] = 0xAD; // absolute load whose target offset lies in the ROM window
    cart[1] = 0x00;
    cart[2] = 0x90;
    let mut mmu = Mmu::new(cart);
    let mut cpu = Cpu::new();
    cpu.set_current_addr(0x008000);
    assert!(cpu.tick(&mut mmu).is_err());
}

#[test]
fn reset_vector_positions_execution() {
    let mut cart = vec![0u8; 0x8000];
    cart[0x7FFC] = 0x34;
    cart[0x7FFD] = 0x92;
    let mmu = Mmu::new(cart);
    let mut cpu = Cpu::new();
    cpu.set_current_addr(mmu.reset_vector() as u32);
    assert_eq!(cpu.current_addr(), 0x009234);
    assert_eq!(cpu.pc, 0x9234);
    assert_eq!(cpu.program_bank, 0x00);
}

#[test]
fn pull_status_restores_pushed_flags() {
    let (mut cpu, mut mmu) = machine(&[0x08, 0x28]);
    cpu.status.carry = true;
    cpu.status.overflow = true;
    assert_eq!(cpu.tick(&mut mmu), Ok(Instruction::PushStatus));
    cpu.status = emu816::flags::Flags::empty();
    assert_eq!(cpu.tick(&mut mmu), Ok(Instruction::PullStatus));
    assert!(cpu.status.carry);
    assert!(cpu.status.overflow);
    assert!(!cpu.status.zero);
}

#[test]
fn jsl_and_rtl_save_and_restore_program_bank() {
    // JSL into bank 1; the target there holds a long return.
    let mut cart = vec![0u8; 0x10000];
    cart[0x0000] = 0x22;
    cart[0x0001] = 0x20;
    cart[0x0002] = 0x80;
    cart[0x0003] = 0x01;
    cart[0x8020] = 0x6B;
    let mut mmu = Mmu::new(cart);
    let mut cpu = Cpu::new();
    cpu.set_current_addr(0x008000);
    let sp_before = cpu.sp;
    assert_eq!(cpu.tick(&mut mmu), Ok(Instruction::JumpSubRoutineAbsoluteLong));
    assert_eq!(cpu.program_bank, 0x01);
    assert_eq!(cpu.pc, 0x8020);
    assert_eq!(cpu.sp, sp_before - 3);
    assert_eq!(cpu.tick(&mut mmu), Ok(Instruction::ReturnLong));
    assert_eq!(cpu.program_bank, 0x00);
    assert_eq!(cpu.pc, 0x8004);
    assert_eq!(cpu.sp, sp_before);
}

#[test]
fn pea_pushes_its_operand_word() {
    let (mut cpu, mut mmu) = machine(&[0xF4, 0x34, 0x12]);
    assert_eq!(cpu.tick(&mut mmu), Ok(Instruction::PushAbsolute));
    assert_eq!(cpu.sp, 0x01FD);
    assert_eq!(mmu.read_u16(0x0001FE), 0x1234);
}

#[test]
fn push_and_pull_data_bank() {
    let (mut cpu, mut mmu) = machine(&[0x8B, 0xAB]);
    cpu.data_bank = 0x12;
    assert_eq!(cpu.tick(&mut mmu), Ok(Instruction::PushB));
    cpu.data_bank = 0x00;
    assert_eq!(cpu.tick(&mut mmu), Ok(Instruction::PullB));
    assert_eq!(cpu.data_bank, 0x12);
    assert!(!cpu.status.zero);
    assert!(!cpu.status.negative);
}

#[test]
fn push_and_pull_direct_page() {
    let (mut cpu, mut mmu) = machine(&[0x0B, 0x2B]);
    cpu.direct_page = 0x9234;
    assert_eq!(cpu.tick(&mut mmu), Ok(Instruction::PushD));
    cpu.direct_page = 0x0000;
    assert_eq!(cpu.tick(&mut mmu), Ok(Instruction::PullD));
    // The direct-page base is 16-bit even in emulation mode.
    assert_eq!(cpu.direct_page, 0x9234);
    assert!(cpu.status.negative);
}

#[test]
fn txs_moves_x_to_stack_pointer_and_base() {
    let (mut cpu, mut mmu) = machine(&[0x9A]);
    cpu.x = 0x1234;
    assert_eq!(cpu.tick(&mut mmu), Ok(Instruction::MoveXSP));
    assert_eq!(cpu.sp, 0x1234);
    assert_eq!(cpu.sp_base, 0x1234);
}

#[test]
fn tdc_moves_direct_page_to_accumulator_at_full_width() {
    let (mut cpu, mut mmu) = machine(&[0x7B]);
    cpu.direct_page = 0x8001;
    assert_eq!(cpu.tick(&mut mmu), Ok(Instruction::MoveDA));
    assert_eq!(cpu.a, 0x8001);
    assert!(cpu.status.negative);
}

#[test]
fn tya_keeps_only_low_byte_in_eight_bit_mode() {
    let (mut cpu, mut mmu) = machine(&[0x98]);
    cpu.y = 0x1234;
    assert_eq!(cpu.tick(&mut mmu), Ok(Instruction::MoveYA));
    assert_eq!(cpu.a, 0x0034);
}

#[test]
fn inc_direct_page_wraps_memory_byte() {
    let (mut cpu, mut mmu) = machine(&[0xE6, 0x40]);
    mmu.store_u8(0x000040, 0xFF);
    assert_eq!(cpu.tick(&mut mmu), Ok(Instruction::IncrementDirectPage));
    assert_eq!(mmu.read_u8(0x000040), 0x00);
    assert!(cpu.status.zero);
}

#[test]
fn lda_direct_page_indirect_long_follows_pointer() {
    let (mut cpu, mut mmu) = machine(&[0xA7, 0x10]);
    mmu.store_u8(0x000010, 0x00);
    mmu.store_u8(0x000011, 0x03);
    mmu.store_u8(0x000012, 0x7E);
    mmu.store_u8(0x000300, 0x66);
    assert_eq!(cpu.tick(&mut mmu), Ok(Instruction::LoadADirectPageIndirectLong));
    assert_eq!(cpu.a, 0x66);
}

#[test]
fn lda_absolute_indexed_adds_x_after_base() {
    let (mut cpu, mut mmu) = machine(&[0xBD, 0x00, 0x02]);
    cpu.x = 0x0005;
    mmu.store_u8(0x000205, 0x42);
    assert_eq!(cpu.tick(&mut mmu), Ok(Instruction::LoadAAbsoluteIndexedX));
    assert_eq!(cpu.a, 0x42);
}

#[test]
fn lda_absolute_long_indexed_takes_explicit_bank() {
    let (mut cpu, mut mmu) = machine(&[0xBF, 0x00, 0x03, 0x7E]);
    cpu.x = 0x0002;
    mmu.store_u8(0x000302, 0x43);
    assert_eq!(cpu.tick(&mut mmu), Ok(Instruction::LoadAAbsoluteLongIndexedX));
    assert_eq!(cpu.a, 0x43);
}

#[test]
fn cpx_immediate_sixteen_bit() {
    let (mut cpu, mut mmu) = machine(&[0xE0, 0x34, 0x12]);
    cpu.emulation = false;
    cpu.x = 0x1234;
    assert_eq!(cpu.tick(&mut mmu), Ok(Instruction::CompareXImmediate));
    assert!(cpu.status.zero);
    assert!(cpu.status.carry);
    assert_eq!(cpu.pc, 0x8003);
}

#[test]
fn beq_taken_only_when_zero_set() {
    let (mut cpu, mut mmu) = machine(&[0xF0, 0x02]);
    cpu.status.zero = true;
    assert_eq!(cpu.tick(&mut mmu), Ok(Instruction::BranchEqual));
    assert_eq!(cpu.pc, 0x8004);

    let (mut cpu2, mut mmu2) = machine(&[0xD0, 0x02]);
    cpu2.status.zero = true;
    assert_eq!(cpu2.tick(&mut mmu2), Ok(Instruction::BranchNotEqual));
    assert_eq!(cpu2.pc, 0x8002);
}

#[test]
fn sta_sixteen_bit_stores_both_bytes() {
    let (mut cpu, mut mmu) = machine(&[0x8D, 0x00, 0x04]);
    cpu.emulation = false;
    cpu.a = 0x9234;
    assert_eq!(cpu.tick(&mut mmu), Ok(Instruction::StoreAAbsolute));
    assert_eq!(mmu.read_u16(0x000400), 0x9234);
}

#[test]
fn clc_and_sei_touch_only_their_flag() {
    let (mut cpu, mut mmu) = machine(&[0x18, 0x78]);
    cpu.status.carry = true;
    cpu.status.negative = true;
    assert_eq!(cpu.tick(&mut mmu), Ok(Instruction::ClearCarry));
    assert!(!cpu.status.carry);
    assert!(cpu.status.negative);
    assert_eq!(cpu.tick(&mut mmu), Ok(Instruction::SetIrqDisable));
    assert!(cpu.status.irq_disable);
    assert!(cpu.status.negative);
}

#[test]
fn word_read_across_bank_boundary_is_linear() {
    let mut cart = vec![0u8; 0x10000];
    cart[0x7FFF] = 0x55;
    let mut mmu = Mmu::new(cart);
    mmu.store_u8(0x000000, 0x99);
    // The high byte of a word at the very top of bank 0 comes from the
    // next linear address, which decodes as bank 1 offset 0 (RAM).
    assert_eq!(mmu.read_u16(0x00FFFF), 0x9955);
}
