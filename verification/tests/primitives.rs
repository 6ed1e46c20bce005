use emu816::flags::Flags;
use emu816::ops;

fn empty_flags() -> Flags {
    Flags::empty()
}

#[test]
fn load_u8_flags_all_values() {
    for v in 0..=255u8 {
        let mut target: u16 = 0xFFFF;
        let mut st = empty_flags();
        ops::load_u8(&mut target, &mut st, v);
        assert_eq!(target, v as u16);
        assert_eq!(st.zero, v == 0);
        assert_eq!(st.negative, v >= 0x80);
    }
}

#[test]
fn load_u16_flags_samples() {
    let cases: [(u16, bool, bool); 5] = [
        (0x0000, true, false),
        (0x0001, false, false),
        (0x7FFF, false, false),
        (0x8000, false, true),
        (0xFFFF, false, true),
    ];
    for (v, zero, negative) in cases {
        let mut target: u16 = 0;
        let mut st = empty_flags();
        ops::load_u16(&mut target, &mut st, v);
        assert_eq!(target, v);
        assert_eq!(st.zero, zero);
        assert_eq!(st.negative, negative);
    }
}

#[test]
fn compare_u8_carry_iff_lhs_ge_rhs() {
    for lhs in (0..=255u8).step_by(7) {
        for rhs in (0..=255u8).step_by(11) {
            let mut st = empty_flags();
            ops::compare_u8(&mut st, lhs, rhs);
            assert_eq!(st.carry, lhs >= rhs);
            assert_eq!(st.zero, lhs == rhs);
        }
    }
}

#[test]
fn compare_u16_carry_iff_lhs_ge_rhs() {
    let samples: [u16; 6] = [0, 1, 0x00FF, 0x8000, 0xFFFE, 0xFFFF];
    for &lhs in &samples {
        for &rhs in &samples {
            let mut st = empty_flags();
            ops::compare_u16(&mut st, lhs, rhs);
            assert_eq!(st.carry, lhs >= rhs);
            assert_eq!(st.zero, lhs == rhs);
        }
    }
}

#[test]
fn adc_u8_wraps_and_sets_carry_and_zero() {
    let mut target: u16 = 0x00FF;
    let mut st = empty_flags();
    ops::adc_u8(&mut target, &mut st, 0x01);
    assert_eq!(target, 0x0000);
    assert!(st.carry);
    assert!(st.zero);
    assert!(!st.negative);
}

#[test]
fn adc_u8_carry_in_is_added() {
    let mut target: u16 = 0x0010;
    let mut st = empty_flags();
    st.carry = true;
    ops::adc_u8(&mut target, &mut st, 0x05);
    assert_eq!(target, 0x0016);
    assert!(!st.carry);
    assert!(!st.zero);
}

#[test]
fn adc_u16_wraps_and_uses_bit_15_for_negative() {
    let mut target: u16 = 0x7FFF;
    let mut st = empty_flags();
    ops::adc_u16(&mut target, &mut st, 0x0001);
    assert_eq!(target, 0x8000);
    assert!(!st.carry);
    assert!(!st.zero);
    assert!(st.negative);

    let mut target2: u16 = 0xFFFF;
    let mut st2 = empty_flags();
    ops::adc_u16(&mut target2, &mut st2, 0x0001);
    assert_eq!(target2, 0x0000);
    assert!(st2.carry);
    assert!(st2.zero);
}

#[test]
fn branch_displacement_is_twos_complement() {
    let mut pc: u16 = 0x8000;
    ops::branch(&mut pc, 0x80, true);
    assert_eq!(pc, 0x8000 - 128);

    let mut pc2: u16 = 0x8000;
    ops::branch(&mut pc2, 0x7F, true);
    assert_eq!(pc2, 0x8000 + 127);
}

#[test]
fn branch_not_taken_keeps_pc() {
    let mut pc: u16 = 0x1234;
    ops::branch(&mut pc, 0x80, false);
    assert_eq!(pc, 0x1234);
}

#[test]
fn branch_wraps_within_sixteen_bits() {
    let mut pc: u16 = 0x0001;
    ops::branch(&mut pc, 0xFE, true);
    assert_eq!(pc, 0xFFFF);

    let mut pc2: u16 = 0xFFFF;
    ops::branch(&mut pc2, 0x01, true);
    assert_eq!(pc2, 0x0000);
}

#[test]
fn flags_bits_round_trip() {
    for v in 0..=255u8 {
        let f = Flags::from_bits(v);
        assert_eq!(f.bits(), v);
    }
    let mut f = Flags::empty();
    f.carry = true;
    f.negative = true;
    assert_eq!(f.bits(), 0x81);
    assert!(Flags::from_bits(0x20).memory_select);
    assert!(Flags::from_bits(0x10).index_break);
}
