//! Textual projections of machine state: assembly mnemonics, hexadecimal
//! rendering, and the register and stack debug lines. All are pure: none
//! reads the instruction stream or changes engine state.

use vstd::prelude::*;

verus! {

use vstd::string::StringExecFns;

use crate::cpu::Cpu;
use crate::inst::Instruction;
use crate::mmu::{MemView, Mmu, sread};

/// The character of one hexadecimal digit, upper case.
pub open spec fn hex_digit_spec(n: int) -> char {
    if n == 0 {
        '0'
    } else if n == 1 {
        '1'
    } else if n == 2 {
        '2'
    } else if n == 3 {
        '3'
    } else if n == 4 {
        '4'
    } else if n == 5 {
        '5'
    } else if n == 6 {
        '6'
    } else if n == 7 {
        '7'
    } else if n == 8 {
        '8'
    } else if n == 9 {
        '9'
    } else if n == 10 {
        'A'
    } else if n == 11 {
        'B'
    } else if n == 12 {
        'C'
    } else if n == 13 {
        'D'
    } else if n == 14 {
        'E'
    } else if n == 15 {
        'F'
    } else {
        '?'
    }
}

/// Two hexadecimal digits of a byte, high nibble first.
pub open spec fn hex2_spec(v: u8) -> Seq<char> {
    seq![hex_digit_spec((v / 16) as int), hex_digit_spec((v % 16) as int)]
}

/// Four hexadecimal digits of a 16-bit value, high nibble first.
pub open spec fn hex4_spec(v: u16) -> Seq<char> {
    seq![
        hex_digit_spec((v / 0x1000) as int),
        hex_digit_spec((v / 0x100 % 16) as int),
        hex_digit_spec((v / 16 % 16) as int),
        hex_digit_spec((v % 16) as int),
    ]
}

/// One hexadecimal digit as text.
fn hex_digit_str(n: u8) -> (s: &'static str)
    requires
        n < 16,
    ensures
        s@ == seq![hex_digit_spec(n as int)],
{
    match n {
        0 => {
            proof {
                reveal_strlit("0");
                assert("0"@ =~= seq![hex_digit_spec(n as int)]);
            }
            "0"
        },
        1 => {
            proof {
                reveal_strlit("1");
                assert("1"@ =~= seq![hex_digit_spec(n as int)]);
            }
            "1"
        },
        2 => {
            proof {
                reveal_strlit("2");
                assert("2"@ =~= seq![hex_digit_spec(n as int)]);
            }
            "2"
        },
        3 => {
            proof {
                reveal_strlit("3");
                assert("3"@ =~= seq![hex_digit_spec(n as int)]);
            }
            "3"
        },
        4 => {
            proof {
                reveal_strlit("4");
                assert("4"@ =~= seq![hex_digit_spec(n as int)]);
            }
            "4"
        },
        5 => {
            proof {
                reveal_strlit("5");
                assert("5"@ =~= seq![hex_digit_spec(n as int)]);
            }
            "5"
        },
        6 => {
            proof {
                reveal_strlit("6");
                assert("6"@ =~= seq![hex_digit_spec(n as int)]);
            }
            "6"
        },
        7 => {
            proof {
                reveal_strlit("7");
                assert("7"@ =~= seq![hex_digit_spec(n as int)]);
            }
            "7"
        },
        8 => {
            proof {
                reveal_strlit("8");
                assert("8"@ =~= seq![hex_digit_spec(n as int)]);
            }
            "8"
        },
        9 => {
            proof {
                reveal_strlit("9");
                assert("9"@ =~= seq![hex_digit_spec(n as int)]);
            }
            "9"
        },
        10 => {
            proof {
                reveal_strlit("A");
                assert("A"@ =~= seq![hex_digit_spec(n as int)]);
            }
            "A"
        },
        11 => {
            proof {
                reveal_strlit("B");
                assert("B"@ =~= seq![hex_digit_spec(n as int)]);
            }
            "B"
        },
        12 => {
            proof {
                reveal_strlit("C");
                assert("C"@ =~= seq![hex_digit_spec(n as int)]);
            }
            "C"
        },
        13 => {
            proof {
                reveal_strlit("D");
                assert("D"@ =~= seq![hex_digit_spec(n as int)]);
            }
            "D"
        },
        14 => {
            proof {
                reveal_strlit("E");
                assert("E"@ =~= seq![hex_digit_spec(n as int)]);
            }
            "E"
        },
        _ => {
            proof {
                reveal_strlit("F");
                assert("F"@ =~= seq![hex_digit_spec(n as int)]);
            }
            "F"
        },
    }
}

/// Appends the two hexadecimal digits of a byte.
fn push_hex2(out: &mut String, v: u8)
    ensures
        final(out)@ == old(out)@ + hex2_spec(v),
{
    out.append(hex_digit_str(v / 16));
    out.append(hex_digit_str(v % 16));
    proof {
        assert(final(out)@ =~= old(out)@ + hex2_spec(v));
    }
}

/// Appends the four hexadecimal digits of a 16-bit value.
fn push_hex4(out: &mut String, v: u16)
    ensures
        final(out)@ == old(out)@ + hex4_spec(v),
{
    out.append(hex_digit_str((v / 0x1000) as u8));
    out.append(hex_digit_str((v / 0x100 % 16) as u8));
    out.append(hex_digit_str((v / 16 % 16) as u8));
    out.append(hex_digit_str((v % 16) as u8));
    proof {
        assert(final(out)@ =~= old(out)@ + hex4_spec(v));
    }
}

/// The documented assembly mnemonic of each opcode family; the sentinel
/// renders as three question marks.
pub open spec fn mnemonic_spec(i: Instruction) -> Seq<char> {
    match i {
        Instruction::Unknown => seq!['?', '?', '?'],
        Instruction::LoadAImmediate => seq!['L', 'D', 'A'],
        Instruction::LoadAAbsolute => seq!['L', 'D', 'A'],
        Instruction::LoadADirectPage => seq!['L', 'D', 'A'],
        Instruction::LoadADirectPageIndirectLong => seq!['L', 'D', 'A'],
        Instruction::LoadAAbsoluteIndexedX => seq!['L', 'D', 'A'],
        Instruction::LoadAAbsoluteLongIndexedX => seq!['L', 'D', 'A'],
        Instruction::LoadAAbsoluteIndexedY => seq!['L', 'D', 'A'],
        Instruction::LoadXImmediate => seq!['L', 'D', 'X'],
        Instruction::LoadXDirectPage => seq!['L', 'D', 'X'],
        Instruction::LoadYImmediate => seq!['L', 'D', 'Y'],
        Instruction::LoadYDirectPage => seq!['L', 'D', 'Y'],
        Instruction::StoreAAbsolute => seq!['S', 'T', 'A'],
        Instruction::StoreADirectPage => seq!['S', 'T', 'A'],
        Instruction::StoreAAbsoluteIndexedX => seq!['S', 'T', 'A'],
        Instruction::StoreAAbsoluteLongIndexedX => seq!['S', 'T', 'A'],
        Instruction::StoreAAbsoluteIndexedY => seq!['S', 'T', 'A'],
        Instruction::StoreADirectPageIndexedX => seq!['S', 'T', 'A'],
        Instruction::StoreXAbsolute => seq!['S', 'T', 'X'],
        Instruction::StoreXDirectPage => seq!['S', 'T', 'X'],
        Instruction::StoreYDirectPage => seq!['S', 'T', 'Y'],
        Instruction::StoreZeroAbsolute => seq!['S', 'T', 'Z'],
        Instruction::StoreZeroDirectPage => seq!['S', 'T', 'Z'],
        Instruction::StoreZeroAbsoluteIndexedX => seq!['S', 'T', 'Z'],
        Instruction::StoreZeroDirectPageIndexedX => seq!['S', 'T', 'Z'],
        Instruction::AddWithCarryImmediate => seq!['A', 'D', 'C'],
        Instruction::AddWithCarryAbsolute => seq!['A', 'D', 'C'],
        Instruction::AddWithCarryDirectPage => seq!['A', 'D', 'C'],
        Instruction::AddWithCarryAbsoluteIndexedY => seq!['A', 'D', 'C'],
        Instruction::IncrementDirectPage => seq!['I', 'N', 'C'],
        Instruction::IncrementA => seq!['I', 'N', 'C'],
        Instruction::IncrementX => seq!['I', 'N', 'X'],
        Instruction::IncrementY => seq!['I', 'N', 'Y'],
        Instruction::DecrementX => seq!['D', 'E', 'X'],
        Instruction::DecrementY => seq!['D', 'E', 'Y'],
        Instruction::ShiftLeft => seq!['A', 'S', 'L'],
        Instruction::MoveAX => seq!['T', 'A', 'X'],
        Instruction::MoveAY => seq!['T', 'A', 'Y'],
        Instruction::MoveDA => seq!['T', 'D', 'C'],
        Instruction::MoveXSP => seq!['T', 'X', 'S'],
        Instruction::MoveYA => seq!['T', 'Y', 'A'],
        Instruction::ExchangeBA => seq!['X', 'B', 'A'],
        Instruction::BlockMoveNext => seq!['M', 'V', 'N'],
        Instruction::CompareImmediate => seq!['C', 'M', 'P'],
        Instruction::CompareAbsolute => seq!['C', 'M', 'P'],
        Instruction::CompareDirectPage => seq!['C', 'M', 'P'],
        Instruction::CompareAbsoluteLongIndexedX => seq!['C', 'M', 'P'],
        Instruction::CompareXImmediate => seq!['C', 'P', 'X'],
        Instruction::BranchCarryClear => seq!['B', 'C', 'C'],
        Instruction::BranchCarrySet => seq!['B', 'C', 'S'],
        Instruction::BranchNotEqual => seq!['B', 'N', 'E'],
        Instruction::BranchEqual => seq!['B', 'E', 'Q'],
        Instruction::BranchAlways => seq!['B', 'R', 'A'],
        Instruction::PushA => seq!['P', 'H', 'A'],
        Instruction::PushB => seq!['P', 'H', 'B'],
        Instruction::PushD => seq!['P', 'H', 'D'],
        Instruction::PushX => seq!['P', 'H', 'X'],
        Instruction::PushY => seq!['P', 'H', 'Y'],
        Instruction::PushStatus => seq!['P', 'H', 'P'],
        Instruction::PushAbsolute => seq!['P', 'E', 'A'],
        Instruction::PullA => seq!['P', 'L', 'A'],
        Instruction::PullB => seq!['P', 'L', 'B'],
        Instruction::PullD => seq!['P', 'L', 'D'],
        Instruction::PullX => seq!['P', 'L', 'X'],
        Instruction::PullY => seq!['P', 'L', 'Y'],
        Instruction::PullStatus => seq!['P', 'L', 'P'],
        Instruction::JumpAbsolute => seq!['J', 'M', 'P'],
        Instruction::JumpSubRoutineAbsolute => seq!['J', 'S', 'R'],
        Instruction::JumpSubRoutineAbsoluteLong => seq!['J', 'S', 'L'],
        Instruction::Return => seq!['R', 'T', 'S'],
        Instruction::ReturnLong => seq!['R', 'T', 'L'],
        Instruction::ClearCarry => seq!['C', 'L', 'C'],
        Instruction::SetIrqDisable => seq!['S', 'E', 'I'],
        Instruction::ResetFlags => seq!['R', 'E', 'P'],
        Instruction::SetFlags => seq!['S', 'E', 'P'],
        Instruction::ExchangeCE => seq!['X', 'C', 'E'],
        Instruction::Break => seq!['B', 'R', 'K'],
    }
}

impl Instruction {
    /// The documented assembly mnemonic of this opcode family.
    pub fn mnemonic(&self) -> (s: &'static str)
        ensures
            s@ == mnemonic_spec(*self),
    {
        match *self {
            Instruction::Unknown => {
                proof {
                    reveal_strlit("???");
                    assert("???"@ =~= mnemonic_spec(*self));
                }
                "???"
            },
            Instruction::LoadAImmediate => {
                proof {
                    reveal_strlit("LDA");
                    assert("LDA"@ =~= mnemonic_spec(*self));
                }
                "LDA"
            },
            Instruction::LoadAAbsolute => {
                proof {
                    reveal_strlit("LDA");
                    assert("LDA"@ =~= mnemonic_spec(*self));
                }
                "LDA"
            },
            Instruction::LoadADirectPage => {
                proof {
                    reveal_strlit("LDA");
                    assert("LDA"@ =~= mnemonic_spec(*self));
                }
                "LDA"
            },
            Instruction::LoadADirectPageIndirectLong => {
                proof {
                    reveal_strlit("LDA");
                    assert("LDA"@ =~= mnemonic_spec(*self));
                }
                "LDA"
            },
            Instruction::LoadAAbsoluteIndexedX => {
                proof {
                    reveal_strlit("LDA");
                    assert("LDA"@ =~= mnemonic_spec(*self));
                }
                "LDA"
            },
            Instruction::LoadAAbsoluteLongIndexedX => {
                proof {
                    reveal_strlit("LDA");
                    assert("LDA"@ =~= mnemonic_spec(*self));
                }
                "LDA"
            },
            Instruction::LoadAAbsoluteIndexedY => {
                proof {
                    reveal_strlit("LDA");
                    assert("LDA"@ =~= mnemonic_spec(*self));
                }
                "LDA"
            },
            Instruction::LoadXImmediate => {
                proof {
                    reveal_strlit("LDX");
                    assert("LDX"@ =~= mnemonic_spec(*self));
                }
                "LDX"
            },
            Instruction::LoadXDirectPage => {
                proof {
                    reveal_strlit("LDX");
                    assert("LDX"@ =~= mnemonic_spec(*self));
                }
                "LDX"
            },
            Instruction::LoadYImmediate => {
                proof {
                    reveal_strlit("LDY");
                    assert("LDY"@ =~= mnemonic_spec(*self));
                }
                "LDY"
            },
            Instruction::LoadYDirectPage => {
                proof {
                    reveal_strlit("LDY");
                    assert("LDY"@ =~= mnemonic_spec(*self));
                }
                "LDY"
            },
            Instruction::StoreAAbsolute => {
                proof {
                    reveal_strlit("STA");
                    assert("STA"@ =~= mnemonic_spec(*self));
                }
                "STA"
            },
            Instruction::StoreADirectPage => {
                proof {
                    reveal_strlit("STA");
                    assert("STA"@ =~= mnemonic_spec(*self));
                }
                "STA"
            },
            Instruction::StoreAAbsoluteIndexedX => {
                proof {
                    reveal_strlit("STA");
                    assert("STA"@ =~= mnemonic_spec(*self));
                }
                "STA"
            },
            Instruction::StoreAAbsoluteLongIndexedX => {
                proof {
                    reveal_strlit("STA");
                    assert("STA"@ =~= mnemonic_spec(*self));
                }
                "STA"
            },
            Instruction::StoreAAbsoluteIndexedY => {
                proof {
                    reveal_strlit("STA");
                    assert("STA"@ =~= mnemonic_spec(*self));
                }
                "STA"
            },
            Instruction::StoreADirectPageIndexedX => {
                proof {
                    reveal_strlit("STA");
                    assert("STA"@ =~= mnemonic_spec(*self));
                }
                "STA"
            },
            Instruction::StoreXAbsolute => {
                proof {
                    reveal_strlit("STX");
                    assert("STX"@ =~= mnemonic_spec(*self));
                }
                "STX"
            },
            Instruction::StoreXDirectPage => {
                proof {
                    reveal_strlit("STX");
                    assert("STX"@ =~= mnemonic_spec(*self));
                }
                "STX"
            },
            Instruction::StoreYDirectPage => {
                proof {
                    reveal_strlit("STY");
                    assert("STY"@ =~= mnemonic_spec(*self));
                }
                "STY"
            },
            Instruction::StoreZeroAbsolute => {
                proof {
                    reveal_strlit("STZ");
                    assert("STZ"@ =~= mnemonic_spec(*self));
                }
                "STZ"
            },
            Instruction::StoreZeroDirectPage => {
                proof {
                    reveal_strlit("STZ");
                    assert("STZ"@ =~= mnemonic_spec(*self));
                }
                "STZ"
            },
            Instruction::StoreZeroAbsoluteIndexedX => {
                proof {
                    reveal_strlit("STZ");
                    assert("STZ"@ =~= mnemonic_spec(*self));
                }
                "STZ"
            },
            Instruction::StoreZeroDirectPageIndexedX => {
                proof {
                    reveal_strlit("STZ");
                    assert("STZ"@ =~= mnemonic_spec(*self));
                }
                "STZ"
            },
            Instruction::AddWithCarryImmediate => {
                proof {
                    reveal_strlit("ADC");
                    assert("ADC"@ =~= mnemonic_spec(*self));
                }
                "ADC"
            },
            Instruction::AddWithCarryAbsolute => {
                proof {
                    reveal_strlit("ADC");
                    assert("ADC"@ =~= mnemonic_spec(*self));
                }
                "ADC"
            },
            Instruction::AddWithCarryDirectPage => {
                proof {
                    reveal_strlit("ADC");
                    assert("ADC"@ =~= mnemonic_spec(*self));
                }
                "ADC"
            },
            Instruction::AddWithCarryAbsoluteIndexedY => {
                proof {
                    reveal_strlit("ADC");
                    assert("ADC"@ =~= mnemonic_spec(*self));
                }
                "ADC"
            },
            Instruction::IncrementDirectPage => {
                proof {
                    reveal_strlit("INC");
                    assert("INC"@ =~= mnemonic_spec(*self));
                }
                "INC"
            },
            Instruction::IncrementA => {
                proof {
                    reveal_strlit("INC");
                    assert("INC"@ =~= mnemonic_spec(*self));
                }
                "INC"
            },
            Instruction::IncrementX => {
                proof {
                    reveal_strlit("INX");
                    assert("INX"@ =~= mnemonic_spec(*self));
                }
                "INX"
            },
            Instruction::IncrementY => {
                proof {
                    reveal_strlit("INY");
                    assert("INY"@ =~= mnemonic_spec(*self));
                }
                "INY"
            },
            Instruction::DecrementX => {
                proof {
                    reveal_strlit("DEX");
                    assert("DEX"@ =~= mnemonic_spec(*self));
                }
                "DEX"
            },
            Instruction::DecrementY => {
                proof {
                    reveal_strlit("DEY");
                    assert("DEY"@ =~= mnemonic_spec(*self));
                }
                "DEY"
            },
            Instruction::ShiftLeft => {
                proof {
                    reveal_strlit("ASL");
                    assert("ASL"@ =~= mnemonic_spec(*self));
                }
                "ASL"
            },
            Instruction::MoveAX => {
                proof {
                    reveal_strlit("TAX");
                    assert("TAX"@ =~= mnemonic_spec(*self));
                }
                "TAX"
            },
            Instruction::MoveAY => {
                proof {
                    reveal_strlit("TAY");
                    assert("TAY"@ =~= mnemonic_spec(*self));
                }
                "TAY"
            },
            Instruction::MoveDA => {
                proof {
                    reveal_strlit("TDC");
                    assert("TDC"@ =~= mnemonic_spec(*self));
                }
                "TDC"
            },
            Instruction::MoveXSP => {
                proof {
                    reveal_strlit("TXS");
                    assert("TXS"@ =~= mnemonic_spec(*self));
                }
                "TXS"
            },
            Instruction::MoveYA => {
                proof {
                    reveal_strlit("TYA");
                    assert("TYA"@ =~= mnemonic_spec(*self));
                }
                "TYA"
            },
            Instruction::ExchangeBA => {
                proof {
                    reveal_strlit("XBA");
                    assert("XBA"@ =~= mnemonic_spec(*self));
                }
                "XBA"
            },
            Instruction::BlockMoveNext => {
                proof {
                    reveal_strlit("MVN");
                    assert("MVN"@ =~= mnemonic_spec(*self));
                }
                "MVN"
            },
            Instruction::CompareImmediate => {
                proof {
                    reveal_strlit("CMP");
                    assert("CMP"@ =~= mnemonic_spec(*self));
                }
                "CMP"
            },
            Instruction::CompareAbsolute => {
                proof {
                    reveal_strlit("CMP");
                    assert("CMP"@ =~= mnemonic_spec(*self));
                }
                "CMP"
            },
            Instruction::CompareDirectPage => {
                proof {
                    reveal_strlit("CMP");
                    assert("CMP"@ =~= mnemonic_spec(*self));
                }
                "CMP"
            },
            Instruction::CompareAbsoluteLongIndexedX => {
                proof {
                    reveal_strlit("CMP");
                    assert("CMP"@ =~= mnemonic_spec(*self));
                }
                "CMP"
            },
            Instruction::CompareXImmediate => {
                proof {
                    reveal_strlit("CPX");
                    assert("CPX"@ =~= mnemonic_spec(*self));
                }
                "CPX"
            },
            Instruction::BranchCarryClear => {
                proof {
                    reveal_strlit("BCC");
                    assert("BCC"@ =~= mnemonic_spec(*self));
                }
                "BCC"
            },
            Instruction::BranchCarrySet => {
                proof {
                    reveal_strlit("BCS");
                    assert("BCS"@ =~= mnemonic_spec(*self));
                }
                "BCS"
            },
            Instruction::BranchNotEqual => {
                proof {
                    reveal_strlit("BNE");
                    assert("BNE"@ =~= mnemonic_spec(*self));
                }
                "BNE"
            },
            Instruction::BranchEqual => {
                proof {
                    reveal_strlit("BEQ");
                    assert("BEQ"@ =~= mnemonic_spec(*self));
                }
                "BEQ"
            },
            Instruction::BranchAlways => {
                proof {
                    reveal_strlit("BRA");
                    assert("BRA"@ =~= mnemonic_spec(*self));
                }
                "BRA"
            },
            Instruction::PushA => {
                proof {
                    reveal_strlit("PHA");
                    assert("PHA"@ =~= mnemonic_spec(*self));
                }
                "PHA"
            },
            Instruction::PushB => {
                proof {
                    reveal_strlit("PHB");
                    assert("PHB"@ =~= mnemonic_spec(*self));
                }
                "PHB"
            },
            Instruction::PushD => {
                proof {
                    reveal_strlit("PHD");
                    assert("PHD"@ =~= mnemonic_spec(*self));
                }
                "PHD"
            },
            Instruction::PushX => {
                proof {
                    reveal_strlit("PHX");
                    assert("PHX"@ =~= mnemonic_spec(*self));
                }
                "PHX"
            },
            Instruction::PushY => {
                proof {
                    reveal_strlit("PHY");
                    assert("PHY"@ =~= mnemonic_spec(*self));
                }
                "PHY"
            },
            Instruction::PushStatus => {
                proof {
                    reveal_strlit("PHP");
                    assert("PHP"@ =~= mnemonic_spec(*self));
                }
                "PHP"
            },
            Instruction::PushAbsolute => {
                proof {
                    reveal_strlit("PEA");
                    assert("PEA"@ =~= mnemonic_spec(*self));
                }
                "PEA"
            },
            Instruction::PullA => {
                proof {
                    reveal_strlit("PLA");
                    assert("PLA"@ =~= mnemonic_spec(*self));
                }
                "PLA"
            },
            Instruction::PullB => {
                proof {
                    reveal_strlit("PLB");
                    assert("PLB"@ =~= mnemonic_spec(*self));
                }
                "PLB"
            },
            Instruction::PullD => {
                proof {
                    reveal_strlit("PLD");
                    assert("PLD"@ =~= mnemonic_spec(*self));
                }
                "PLD"
            },
            Instruction::PullX => {
                proof {
                    reveal_strlit("PLX");
                    assert("PLX"@ =~= mnemonic_spec(*self));
                }
                "PLX"
            },
            Instruction::PullY => {
                proof {
                    reveal_strlit("PLY");
                    assert("PLY"@ =~= mnemonic_spec(*self));
                }
                "PLY"
            },
            Instruction::PullStatus => {
                proof {
                    reveal_strlit("PLP");
                    assert("PLP"@ =~= mnemonic_spec(*self));
                }
                "PLP"
            },
            Instruction::JumpAbsolute => {
                proof {
                    reveal_strlit("JMP");
                    assert("JMP"@ =~= mnemonic_spec(*self));
                }
                "JMP"
            },
            Instruction::JumpSubRoutineAbsolute => {
                proof {
                    reveal_strlit("JSR");
                    assert("JSR"@ =~= mnemonic_spec(*self));
                }
                "JSR"
            },
            Instruction::JumpSubRoutineAbsoluteLong => {
                proof {
                    reveal_strlit("JSL");
                    assert("JSL"@ =~= mnemonic_spec(*self));
                }
                "JSL"
            },
            Instruction::Return => {
                proof {
                    reveal_strlit("RTS");
                    assert("RTS"@ =~= mnemonic_spec(*self));
                }
                "RTS"
            },
            Instruction::ReturnLong => {
                proof {
                    reveal_strlit("RTL");
                    assert("RTL"@ =~= mnemonic_spec(*self));
                }
                "RTL"
            },
            Instruction::ClearCarry => {
                proof {
                    reveal_strlit("CLC");
                    assert("CLC"@ =~= mnemonic_spec(*self));
                }
                "CLC"
            },
            Instruction::SetIrqDisable => {
                proof {
                    reveal_strlit("SEI");
                    assert("SEI"@ =~= mnemonic_spec(*self));
                }
                "SEI"
            },
            Instruction::ResetFlags => {
                proof {
                    reveal_strlit("REP");
                    assert("REP"@ =~= mnemonic_spec(*self));
                }
                "REP"
            },
            Instruction::SetFlags => {
                proof {
                    reveal_strlit("SEP");
                    assert("SEP"@ =~= mnemonic_spec(*self));
                }
                "SEP"
            },
            Instruction::ExchangeCE => {
                proof {
                    reveal_strlit("XCE");
                    assert("XCE"@ =~= mnemonic_spec(*self));
                }
                "XCE"
            },
            Instruction::Break => {
                proof {
                    reveal_strlit("BRK");
                    assert("BRK"@ =~= mnemonic_spec(*self));
                }
                "BRK"
            },
        }
    }
}

/// The assembly text of an instruction with an 8-bit immediate operand:
/// mnemonic, then the operand as `#$` and two hexadecimal digits.
pub open spec fn render_immediate8_spec(i: Instruction, operand: u8) -> Seq<char> {
    mnemonic_spec(i) + seq![' ', '#', '$'] + hex2_spec(operand)
}

/// The assembly text of an instruction with a 16-bit immediate operand.
pub open spec fn render_immediate16_spec(i: Instruction, operand: u16) -> Seq<char> {
    mnemonic_spec(i) + seq![' ', '#', '$'] + hex4_spec(operand)
}

/// Renders an instruction with its 8-bit immediate operand, e.g. the
/// immediate accumulator load with operand 0x42 as `LDA #$42`.
pub fn render_immediate8(inst: Instruction, operand: u8) -> (s: String)
    ensures
        s@ == render_immediate8_spec(inst, operand),
{
    let mut out = String::from_str(inst.mnemonic());
    proof {
        reveal_strlit(" #$");
    }
    out.append(" #$");
    push_hex2(&mut out, operand);
    proof {
        assert(out@ =~= render_immediate8_spec(inst, operand));
    }
    out
}

/// Renders an instruction with its 16-bit immediate operand.
pub fn render_immediate16(inst: Instruction, operand: u16) -> (s: String)
    ensures
        s@ == render_immediate16_spec(inst, operand),
{
    let mut out = String::from_str(inst.mnemonic());
    proof {
        reveal_strlit(" #$");
    }
    out.append(" #$");
    push_hex4(&mut out, operand);
    proof {
        assert(out@ =~= render_immediate16_spec(inst, operand));
    }
    out
}

/// One letter when a flag is set, nothing when it is clear.
pub open spec fn flag_mark(set: bool, ch: char) -> Seq<char> {
    if set {
        seq![ch]
    } else {
        Seq::empty()
    }
}

/// The flag letters of the debug line, in the fixed order N V M X D I Z C
/// E, each present exactly when its flag (or the emulation mode) is set.
pub open spec fn flags_text_spec(c: Cpu) -> Seq<char> {
    flag_mark(c.status.negative, 'N') + flag_mark(c.status.overflow, 'V') + flag_mark(
        c.status.memory_select,
        'M',
    ) + flag_mark(c.status.index_break, 'X') + flag_mark(c.status.decimal, 'D') + flag_mark(
        c.status.irq_disable,
        'I',
    ) + flag_mark(c.status.zero, 'Z') + flag_mark(c.status.carry, 'C') + flag_mark(
        c.emulation,
        'E',
    )
}

/// The register part of the debug line: every register as fixed-width
/// upper-case hexadecimal under its label.
pub open spec fn registers_text_spec(c: Cpu) -> Seq<char> {
    seq!['A', ':', ' '] + hex4_spec(c.a) + seq![' ', '|', ' ', 'X', ':', ' '] + hex4_spec(c.x)
        + seq![' ', '|', ' ', 'Y', ':', ' '] + hex4_spec(c.y) + seq![
        ' ',
        '|',
        ' ',
        'S',
        'P',
        ':',
        ' ',
    ] + hex4_spec(c.sp) + seq![' ', '|', ' ', 'D', ':', ' '] + hex4_spec(c.direct_page) + seq![
        ' ',
        '|',
        ' ',
        'D',
        'B',
        ':',
        ' ',
    ] + hex2_spec(c.data_bank) + seq![' ', '|', ' ', 'P', 'B', ':', ' '] + hex2_spec(
        c.program_bank,
    ) + seq![' ', '|', ' ', 'F', 'l', 'a', 'g', 's', ':', ' ']
}

/// The whole register/flag debug line.
pub open spec fn register_debug_spec(c: Cpu) -> Seq<char> {
    registers_text_spec(c) + flags_text_spec(c)
}

/// How many stack bytes the debug projection shows: from the cell above
/// the stack pointer up to where the stack started.
pub open spec fn stack_depth(c: Cpu) -> nat {
    if c.sp_base >= c.sp {
        (c.sp_base - c.sp) as nat
    } else {
        0
    }
}

/// The stack debug text over the `n` bytes above `sp`, highest address
/// first: each as `0x` and two hexadecimal digits, separated by a comma
/// and a space.
pub open spec fn stack_debug_spec(m: MemView, sp: u16, n: nat) -> Seq<char>
    decreases n,
{
    if n == 0 {
        Seq::empty()
    } else {
        let v = match sread(m, sp + n) {
            Some(b) => b,
            None => 0u8,
        };
        seq!['0', 'x'] + hex2_spec(v) + (if n == 1 {
            Seq::<char>::empty()
        } else {
            seq![',', ' ']
        }) + stack_debug_spec(m, sp, (n - 1) as nat)
    }
}

impl Cpu {
    /// The register part of the debug line.
    #[verifier::rlimit(100)]
    fn registers_text(&self) -> (s: String)
        ensures
            s@ == registers_text_spec(*self),
    {
        let mut out = String::new();
        proof {
            reveal_strlit("A: ");
            assert("A: "@ =~= seq!['A', ':', ' ']);
            reveal_strlit(" | X: ");
            assert(" | X: "@ =~= seq![' ', '|', ' ', 'X', ':', ' ']);
            reveal_strlit(" | Y: ");
            assert(" | Y: "@ =~= seq![' ', '|', ' ', 'Y', ':', ' ']);
            reveal_strlit(" | SP: ");
            assert(" | SP: "@ =~= seq![' ', '|', ' ', 'S', 'P', ':', ' ']);
            reveal_strlit(" | D: ");
            assert(" | D: "@ =~= seq![' ', '|', ' ', 'D', ':', ' ']);
            reveal_strlit(" | DB: ");
            assert(" | DB: "@ =~= seq![' ', '|', ' ', 'D', 'B', ':', ' ']);
            reveal_strlit(" | PB: ");
            assert(" | PB: "@ =~= seq![' ', '|', ' ', 'P', 'B', ':', ' ']);
            reveal_strlit(" | Flags: ");
            assert(" | Flags: "@ =~= seq![' ', '|', ' ', 'F', 'l', 'a', 'g', 's', ':', ' ']);
        }
        out.append("A: ");
        push_hex4(&mut out, self.a);
        out.append(" | X: ");
        push_hex4(&mut out, self.x);
        out.append(" | Y: ");
        push_hex4(&mut out, self.y);
        out.append(" | SP: ");
        push_hex4(&mut out, self.sp);
        out.append(" | D: ");
        push_hex4(&mut out, self.direct_page);
        out.append(" | DB: ");
        push_hex2(&mut out, self.data_bank);
        out.append(" | PB: ");
        push_hex2(&mut out, self.program_bank);
        out.append(" | Flags: ");
        out
    }

    /// The register and flag snapshot as one line of text, for a host that
    /// logs execution; reads nothing but the registers.
    pub fn register_debug(&self) -> (s: String)
        ensures
            s@ == register_debug_spec(*self),
    {
        let mut out = self.registers_text();
        let mut flags_out = String::new();
        let ghost mut expect: Seq<char> = Seq::empty();
        if self.status.negative {
            proof {
                reveal_strlit("N");
                assert("N"@ =~= seq!['N']);
            }
            flags_out.append("N");
        }
        proof {
            if !self.status.negative {
                Seq::<char>::add_empty_right(expect, flag_mark(self.status.negative, 'N'));
            }
            expect = expect + flag_mark(self.status.negative, 'N');
        }
        if self.status.overflow {
            proof {
                reveal_strlit("V");
                assert("V"@ =~= seq!['V']);
            }
            flags_out.append("V");
        }
        proof {
            if !self.status.overflow {
                Seq::<char>::add_empty_right(expect, flag_mark(self.status.overflow, 'V'));
            }
            expect = expect + flag_mark(self.status.overflow, 'V');
        }
        if self.status.memory_select {
            proof {
                reveal_strlit("M");
                assert("M"@ =~= seq!['M']);
            }
            flags_out.append("M");
        }
        proof {
            if !self.status.memory_select {
                Seq::<char>::add_empty_right(expect, flag_mark(self.status.memory_select, 'M'));
            }
            expect = expect + flag_mark(self.status.memory_select, 'M');
        }
        if self.status.index_break {
            proof {
                reveal_strlit("X");
                assert("X"@ =~= seq!['X']);
            }
            flags_out.append("X");
        }
        proof {
            if !self.status.index_break {
                Seq::<char>::add_empty_right(expect, flag_mark(self.status.index_break, 'X'));
            }
            expect = expect + flag_mark(self.status.index_break, 'X');
        }
        if self.status.decimal {
            proof {
                reveal_strlit("D");
                assert("D"@ =~= seq!['D']);
            }
            flags_out.append("D");
        }
        proof {
            if !self.status.decimal {
                Seq::<char>::add_empty_right(expect, flag_mark(self.status.decimal, 'D'));
            }
            expect = expect + flag_mark(self.status.decimal, 'D');
        }
        if self.status.irq_disable {
            proof {
                reveal_strlit("I");
                assert("I"@ =~= seq!['I']);
            }
            flags_out.append("I");
        }
        proof {
            if !self.status.irq_disable {
                Seq::<char>::add_empty_right(expect, flag_mark(self.status.irq_disable, 'I'));
            }
            expect = expect + flag_mark(self.status.irq_disable, 'I');
        }
        if self.status.zero {
            proof {
                reveal_strlit("Z");
                assert("Z"@ =~= seq!['Z']);
            }
            flags_out.append("Z");
        }
        proof {
            if !self.status.zero {
                Seq::<char>::add_empty_right(expect, flag_mark(self.status.zero, 'Z'));
            }
            expect = expect + flag_mark(self.status.zero, 'Z');
        }
        if self.status.carry {
            proof {
                reveal_strlit("C");
                assert("C"@ =~= seq!['C']);
            }
            flags_out.append("C");
        }
        proof {
            if !self.status.carry {
                Seq::<char>::add_empty_right(expect, flag_mark(self.status.carry, 'C'));
            }
            expect = expect + flag_mark(self.status.carry, 'C');
        }
        if self.emulation {
            proof {
                reveal_strlit("E");
                assert("E"@ =~= seq!['E']);
            }
            flags_out.append("E");
        }
        proof {
            if !self.emulation {
                Seq::<char>::add_empty_right(expect, flag_mark(self.emulation, 'E'));
            }
            expect = expect + flag_mark(self.emulation, 'E');
            assert(flags_out@ == flags_text_spec(*self));
        }
        out.append(flags_out.as_str());
        out
    }

    /// The bytes between the stack pointer and where the stack started, as
    /// one line of text, highest address first; reads memory without
    /// changing it.
    #[verifier::loop_isolation(false)]
    pub fn stack_debug(&self, mmu: &Mmu) -> (s: String)
        requires
            mmu.inv(),
            forall|a: int| self.sp < a <= self.sp_base ==> sread(mmu@, a) is Some,
        ensures
            s@ == stack_debug_spec(mmu@, self.sp, stack_depth(*self)),
    {
        let mut out = String::new();
        let ghost n0 = stack_depth(*self);
        let mut addr: u16 = if self.sp_base > self.sp {
            self.sp_base
        } else {
            self.sp
        };
        proof {
            reveal_strlit("0x");
            reveal_strlit(", ");
        }
        while addr > self.sp
            invariant
                self.sp <= addr,
                addr - self.sp <= n0,
                out@ + stack_debug_spec(mmu@, self.sp, (addr - self.sp) as nat)
                    == stack_debug_spec(mmu@, self.sp, n0),
            decreases addr - self.sp,
        {
            let ghost n = (addr - self.sp) as nat;
            let v = mmu.read_u8(addr as u32);
            out.append("0x");
            push_hex2(&mut out, v);
            if addr != self.sp + 1 {
                out.append(", ");
            }
            proof {
                assert(stack_debug_spec(mmu@, self.sp, n) =~= seq!['0', 'x'] + hex2_spec(v) + (
                if n == 1 {
                    Seq::<char>::empty()
                } else {
                    seq![',', ' ']
                }) + stack_debug_spec(mmu@, self.sp, (n - 1) as nat));
                assert(out@ + stack_debug_spec(mmu@, self.sp, (n - 1) as nat)
                    =~= stack_debug_spec(mmu@, self.sp, n0));
            }
            addr = addr - 1;
        }
        proof {
            assert(out@ =~= stack_debug_spec(mmu@, self.sp, n0));
        }
        out
    }
}

} // verus!
