use vstd::prelude::*;

verus! {

use crate::arithmetictarget::{ArithmeticTarget, WideArithmeticTarget};
use crate::flagsregister::FlagsRegister;

/// The condition a jump, call or return evaluates against the flags.
#[derive(Debug, Clone, Copy)]
pub enum JumpTest {
    Always,
    Zero,
    NotZero,
    Carry,
    NotCarry,
}

impl JumpTest {
    /// What the condition means over the flags register.
    pub open spec fn spec_evaluate(self, flags: FlagsRegister) -> bool {
        match self {
            JumpTest::Always => true,
            JumpTest::Zero => flags.zero,
            JumpTest::NotZero => !flags.zero,
            JumpTest::Carry => flags.carry,
            JumpTest::NotCarry => !flags.carry,
        }
    }

    /// Evaluate the condition against the flags register.
    pub fn evaluate(&self, flags: &FlagsRegister) -> (r: bool)
        ensures
            r == self.spec_evaluate(*flags),
    {
        match self {
            JumpTest::Always => true,
            JumpTest::Zero => flags.zero(),
            JumpTest::NotZero => !flags.zero(),
            JumpTest::Carry => flags.carry(),
            JumpTest::NotCarry => !flags.carry(),
        }
    }
}

/// Where a jump takes its destination from.
#[derive(Debug, Clone, Copy)]
pub enum JumpType {
    /// A signed 8-bit displacement in the byte following the opcode
    Relative8,
    /// An absolute pointer in the two bytes following the opcode
    Pointer16,
    /// The value of the HL pair
    HL,
}

/// One decoded operation: a mnemonic family together with its operand
/// descriptors.  Values are transient: the decoder builds one per step and
/// the executor consumes it at once.
#[derive(Debug, Clone, Copy)]
#[allow(inconsistent_fields)]
pub enum Instruction {
    Adc(ArithmeticTarget),
    Add(ArithmeticTarget),
    AddSp,
    And(ArithmeticTarget),
    Bit(ArithmeticTarget, u8),
    Ccf,
    Cp(ArithmeticTarget),
    Cpl,
    Dec(ArithmeticTarget),
    Dec16(WideArithmeticTarget),
    Inc(ArithmeticTarget),
    Inc16(WideArithmeticTarget),
    Or(ArithmeticTarget),
    Res(ArithmeticTarget, u8),
    Rla,
    Rlc(ArithmeticTarget),
    Rr(ArithmeticTarget),
    Rl(ArithmeticTarget),
    Rra,
    Rrc(ArithmeticTarget),
    Rrca,
    Rlca,
    Sbc(ArithmeticTarget),
    SetBit(ArithmeticTarget, u8),
    Sla(ArithmeticTarget),
    Sra(ArithmeticTarget),
    Srl(ArithmeticTarget),
    Sub(ArithmeticTarget),
    Swap(ArithmeticTarget),
    Xor(ArithmeticTarget),
    Jump(JumpTest, JumpType),
    Load { to: ArithmeticTarget, from: ArithmeticTarget },
    Load16 { to: WideArithmeticTarget, from: WideArithmeticTarget },
    Push(WideArithmeticTarget),
    Pop(WideArithmeticTarget),
    Call(JumpTest),
    Ret(JumpTest),
    DisableInterrupt,
    EnableInterrupt,
    Nop,
    Halt,
    Stop,
    Rst(u16),
    Daa,
    Scf,
}

/// The 8-bit operand that the three low bits of an opcode select, in the
/// fixed order B, C, D, E, H, L, memory at HL, A.
pub open spec fn spec_target_of_index(i: int) -> ArithmeticTarget {
    if i == 0 {
        ArithmeticTarget::B
    } else if i == 1 {
        ArithmeticTarget::C
    } else if i == 2 {
        ArithmeticTarget::D
    } else if i == 3 {
        ArithmeticTarget::E
    } else if i == 4 {
        ArithmeticTarget::H
    } else if i == 5 {
        ArithmeticTarget::L
    } else if i == 6 {
        ArithmeticTarget::HLTarget
    } else {
        ArithmeticTarget::A
    }
}

fn target_of_index(i: u8) -> (r: ArithmeticTarget)
    ensures
        r == spec_target_of_index(i as int),
{
    if i == 0 {
        ArithmeticTarget::B
    } else if i == 1 {
        ArithmeticTarget::C
    } else if i == 2 {
        ArithmeticTarget::D
    } else if i == 3 {
        ArithmeticTarget::E
    } else if i == 4 {
        ArithmeticTarget::H
    } else if i == 5 {
        ArithmeticTarget::L
    } else if i == 6 {
        ArithmeticTarget::HLTarget
    } else {
        ArithmeticTarget::A
    }
}

impl Instruction {
    /// The primary opcode table.  0x40 to 0x7F are the register-to-register
    /// loads (0x76 is Halt); 0x80 to 0xBF the eight arithmetic families over
    /// the eight standard operands; the rest is irregular.  0xCB is the
    /// prefix byte and decodes to nothing here: the fetch loop resolves the
    /// byte after it against the secondary table.  Opcodes this engine does
    /// not model decode to nothing as well.
    pub open spec fn spec_from_byte(byte: u8) -> Option<Instruction> {
        if 0x40 <= byte && byte <= 0x7F {
            if byte == 0x76 {
                Option::Some(Instruction::Halt)
            } else {
                Option::Some(Instruction::Load {
                    to: spec_target_of_index((byte - 0x40) as int / 8),
                    from: spec_target_of_index(byte as int % 8),
                })
            }
        } else if 0x80 <= byte && byte <= 0xBF {
            let t = spec_target_of_index(byte as int % 8);
            if byte < 0x88 {
                Option::Some(Instruction::Add(t))
            } else if byte < 0x90 {
                Option::Some(Instruction::Adc(t))
            } else if byte < 0x98 {
                Option::Some(Instruction::Sub(t))
            } else if byte < 0xA0 {
                Option::Some(Instruction::Sbc(t))
            } else if byte < 0xA8 {
                Option::Some(Instruction::And(t))
            } else if byte < 0xB0 {
                Option::Some(Instruction::Xor(t))
            } else if byte < 0xB8 {
                Option::Some(Instruction::Or(t))
            } else {
                Option::Some(Instruction::Cp(t))
            }
        } else {
        match byte {
            0x00 => Option::Some(Instruction::Nop),
            0x01 => Option::Some(Instruction::Load16 { to: WideArithmeticTarget::BC, from: WideArithmeticTarget::ReadWord }),
            0x02 => Option::Some(Instruction::Load { to: ArithmeticTarget::BCTarget, from: ArithmeticTarget::A }),
            0x03 => Option::Some(Instruction::Inc16(WideArithmeticTarget::BC)),
            0x04 => Option::Some(Instruction::Inc(ArithmeticTarget::B)),
            0x05 => Option::Some(Instruction::Dec(ArithmeticTarget::B)),
            0x06 => Option::Some(Instruction::Load { to: ArithmeticTarget::B, from: ArithmeticTarget::ReadByte }),
            0x07 => Option::Some(Instruction::Rlca),
            0x08 => Option::Some(Instruction::Load16 { to: WideArithmeticTarget::ReadAddress, from: WideArithmeticTarget::SP }),
            0x0A => Option::Some(Instruction::Load { to: ArithmeticTarget::A, from: ArithmeticTarget::BCTarget }),
            0x0B => Option::Some(Instruction::Dec16(WideArithmeticTarget::BC)),
            0x0C => Option::Some(Instruction::Inc(ArithmeticTarget::C)),
            0x0D => Option::Some(Instruction::Dec(ArithmeticTarget::C)),
            0x0E => Option::Some(Instruction::Load { to: ArithmeticTarget::C, from: ArithmeticTarget::ReadByte }),
            0x0F => Option::Some(Instruction::Rrca),
            0x10 => Option::Some(Instruction::Stop),
            0x11 => Option::Some(Instruction::Load16 { to: WideArithmeticTarget::DE, from: WideArithmeticTarget::ReadWord }),
            0x12 => Option::Some(Instruction::Load { to: ArithmeticTarget::DETarget, from: ArithmeticTarget::A }),
            0x13 => Option::Some(Instruction::Inc16(WideArithmeticTarget::DE)),
            0x14 => Option::Some(Instruction::Inc(ArithmeticTarget::D)),
            0x15 => Option::Some(Instruction::Dec(ArithmeticTarget::D)),
            0x16 => Option::Some(Instruction::Load { to: ArithmeticTarget::D, from: ArithmeticTarget::ReadByte }),
            0x17 => Option::Some(Instruction::Rla),
            0x18 => Option::Some(Instruction::Jump(JumpTest::Always, JumpType::Relative8)),
            0x1A => Option::Some(Instruction::Load { to: ArithmeticTarget::A, from: ArithmeticTarget::DETarget }),
            0x1B => Option::Some(Instruction::Dec16(WideArithmeticTarget::DE)),
            0x1C => Option::Some(Instruction::Inc(ArithmeticTarget::E)),
            0x1D => Option::Some(Instruction::Dec(ArithmeticTarget::E)),
            0x1E => Option::Some(Instruction::Load { to: ArithmeticTarget::E, from: ArithmeticTarget::ReadByte }),
            0x1F => Option::Some(Instruction::Rra),
            0x20 => Option::Some(Instruction::Jump(JumpTest::NotZero, JumpType::Relative8)),
            0x21 => Option::Some(Instruction::Load16 { to: WideArithmeticTarget::HL, from: WideArithmeticTarget::ReadWord }),
            0x22 => Option::Some(Instruction::Load { to: ArithmeticTarget::HLInc, from: ArithmeticTarget::A }),
            0x23 => Option::Some(Instruction::Inc16(WideArithmeticTarget::HL)),
            0x24 => Option::Some(Instruction::Inc(ArithmeticTarget::H)),
            0x25 => Option::Some(Instruction::Dec(ArithmeticTarget::H)),
            0x26 => Option::Some(Instruction::Load { to: ArithmeticTarget::H, from: ArithmeticTarget::ReadByte }),
            0x27 => Option::Some(Instruction::Daa),
            0x28 => Option::Some(Instruction::Jump(JumpTest::Zero, JumpType::Relative8)),
            0x2A => Option::Some(Instruction::Load { to: ArithmeticTarget::A, from: ArithmeticTarget::HLInc }),
            0x2B => Option::Some(Instruction::Dec16(WideArithmeticTarget::HL)),
            0x2C => Option::Some(Instruction::Inc(ArithmeticTarget::L)),
            0x2D => Option::Some(Instruction::Dec(ArithmeticTarget::L)),
            0x2E => Option::Some(Instruction::Load { to: ArithmeticTarget::L, from: ArithmeticTarget::ReadByte }),
            0x2F => Option::Some(Instruction::Cpl),
            0x30 => Option::Some(Instruction::Jump(JumpTest::NotCarry, JumpType::Relative8)),
            0x31 => Option::Some(Instruction::Load16 { to: WideArithmeticTarget::SP, from: WideArithmeticTarget::ReadWord }),
            0x32 => Option::Some(Instruction::Load { to: ArithmeticTarget::HLDec, from: ArithmeticTarget::A }),
            0x33 => Option::Some(Instruction::Inc16(WideArithmeticTarget::SP)),
            0x34 => Option::Some(Instruction::Inc(ArithmeticTarget::HLTarget)),
            0x35 => Option::Some(Instruction::Dec(ArithmeticTarget::HLTarget)),
            0x36 => Option::Some(Instruction::Load { to: ArithmeticTarget::HLTarget, from: ArithmeticTarget::ReadByte }),
            0x37 => Option::Some(Instruction::Scf),
            0x38 => Option::Some(Instruction::Jump(JumpTest::Carry, JumpType::Relative8)),
            0x3A => Option::Some(Instruction::Load { to: ArithmeticTarget::A, from: ArithmeticTarget::HLDec }),
            0x3B => Option::Some(Instruction::Dec16(WideArithmeticTarget::SP)),
            0x3C => Option::Some(Instruction::Inc(ArithmeticTarget::A)),
            0x3D => Option::Some(Instruction::Dec(ArithmeticTarget::A)),
            0x3E => Option::Some(Instruction::Load { to: ArithmeticTarget::A, from: ArithmeticTarget::ReadByte }),
            0x3F => Option::Some(Instruction::Ccf),
            0xC0 => Option::Some(Instruction::Ret(JumpTest::NotZero)),
            0xC1 => Option::Some(Instruction::Pop(WideArithmeticTarget::BC)),
            0xC2 => Option::Some(Instruction::Jump(JumpTest::NotZero, JumpType::Pointer16)),
            0xC3 => Option::Some(Instruction::Jump(JumpTest::Always, JumpType::Pointer16)),
            0xC4 => Option::Some(Instruction::Call(JumpTest::NotZero)),
            0xC5 => Option::Some(Instruction::Push(WideArithmeticTarget::BC)),
            0xC6 => Option::Some(Instruction::Add(ArithmeticTarget::ReadByte)),
            0xC7 => Option::Some(Instruction::Rst(0x0000)),
            0xC8 => Option::Some(Instruction::Ret(JumpTest::Zero)),
            0xC9 => Option::Some(Instruction::Ret(JumpTest::Always)),
            0xCA => Option::Some(Instruction::Jump(JumpTest::Zero, JumpType::Pointer16)),
            0xCC => Option::Some(Instruction::Call(JumpTest::Zero)),
            0xCD => Option::Some(Instruction::Call(JumpTest::Always)),
            0xCE => Option::Some(Instruction::Adc(ArithmeticTarget::ReadByte)),
            0xCF => Option::Some(Instruction::Rst(0x0008)),
            0xD0 => Option::Some(Instruction::Ret(JumpTest::NotCarry)),
            0xD1 => Option::Some(Instruction::Pop(WideArithmeticTarget::DE)),
            0xD2 => Option::Some(Instruction::Jump(JumpTest::NotCarry, JumpType::Pointer16)),
            0xD4 => Option::Some(Instruction::Call(JumpTest::NotCarry)),
            0xD5 => Option::Some(Instruction::Push(WideArithmeticTarget::DE)),
            0xD6 => Option::Some(Instruction::Sub(ArithmeticTarget::ReadByte)),
            0xD7 => Option::Some(Instruction::Rst(0x0010)),
            0xD8 => Option::Some(Instruction::Ret(JumpTest::Carry)),
            0xDA => Option::Some(Instruction::Jump(JumpTest::Carry, JumpType::Pointer16)),
            0xDC => Option::Some(Instruction::Call(JumpTest::Carry)),
            0xDE => Option::Some(Instruction::Sbc(ArithmeticTarget::ReadByte)),
            0xDF => Option::Some(Instruction::Rst(0x0018)),
            0xE0 => Option::Some(Instruction::Load { to: ArithmeticTarget::FFRead, from: ArithmeticTarget::A }),
            0xE1 => Option::Some(Instruction::Pop(WideArithmeticTarget::HL)),
            0xE2 => Option::Some(Instruction::Load { to: ArithmeticTarget::FFC, from: ArithmeticTarget::A }),
            0xE5 => Option::Some(Instruction::Push(WideArithmeticTarget::HL)),
            0xE6 => Option::Some(Instruction::And(ArithmeticTarget::ReadByte)),
            0xE7 => Option::Some(Instruction::Rst(0x0020)),
            0xE8 => Option::Some(Instruction::AddSp),
            0xE9 => Option::Some(Instruction::Jump(JumpTest::Always, JumpType::HL)),
            0xEE => Option::Some(Instruction::Xor(ArithmeticTarget::ReadByte)),
            0xEF => Option::Some(Instruction::Rst(0x0028)),
            0xF0 => Option::Some(Instruction::Load { to: ArithmeticTarget::A, from: ArithmeticTarget::FFRead }),
            0xF1 => Option::Some(Instruction::Pop(WideArithmeticTarget::AF)),
            0xF2 => Option::Some(Instruction::Load { to: ArithmeticTarget::A, from: ArithmeticTarget::FFC }),
            0xF3 => Option::Some(Instruction::DisableInterrupt),
            0xF5 => Option::Some(Instruction::Push(WideArithmeticTarget::AF)),
            0xF6 => Option::Some(Instruction::Or(ArithmeticTarget::ReadByte)),
            0xF7 => Option::Some(Instruction::Rst(0x0030)),
            0xF9 => Option::Some(Instruction::Load16 { to: WideArithmeticTarget::SP, from: WideArithmeticTarget::HL }),
            0xFB => Option::Some(Instruction::EnableInterrupt),
            0xFE => Option::Some(Instruction::Cp(ArithmeticTarget::ReadByte)),
            0xFF => Option::Some(Instruction::Rst(0x0038)),
            _ => Option::None,
        }
        }
    }

    /// The secondary table behind the 0xCB prefix: rotates and shifts over
    /// 0x00 to 0x3F, then Bit, Res and Set with the bit index in bits 3 to 5.
    pub open spec fn spec_from_prefixed_byte(byte: u8) -> Option<Instruction> {
        let t = spec_target_of_index(byte as int % 8);
        if byte < 0x08 {
            Option::Some(Instruction::Rlc(t))
        } else if byte < 0x10 {
            Option::Some(Instruction::Rrc(t))
        } else if byte < 0x18 {
            Option::Some(Instruction::Rl(t))
        } else if byte < 0x20 {
            Option::Some(Instruction::Rr(t))
        } else if byte < 0x28 {
            Option::Some(Instruction::Sla(t))
        } else if byte < 0x30 {
            Option::Some(Instruction::Sra(t))
        } else if byte < 0x38 {
            Option::Some(Instruction::Swap(t))
        } else if byte < 0x40 {
            Option::Some(Instruction::Srl(t))
        } else if byte < 0x80 {
            Option::Some(Instruction::Bit(t, ((byte - 0x40) / 8) as u8))
        } else if byte < 0xC0 {
            Option::Some(Instruction::Res(t, ((byte - 0x80) / 8) as u8))
        } else {
            Option::Some(Instruction::SetBit(t, ((byte - 0xC0) / 8) as u8))
        }
    }

    /// Decode one primary-table opcode byte.
    pub fn from_byte(byte: u8) -> (r: Option<Instruction>)
        ensures
            r == Instruction::spec_from_byte(byte),
    {
        if 0x40 <= byte && byte <= 0x7F {
            if byte == 0x76 {
                Option::Some(Instruction::Halt)
            } else {
                Option::Some(Instruction::Load {
                    to: target_of_index((byte - 0x40) / 8),
                    from: target_of_index(byte % 8),
                })
            }
        } else if 0x80 <= byte && byte <= 0xBF {
            let t = target_of_index(byte % 8);
            if byte < 0x88 {
                Option::Some(Instruction::Add(t))
            } else if byte < 0x90 {
                Option::Some(Instruction::Adc(t))
            } else if byte < 0x98 {
                Option::Some(Instruction::Sub(t))
            } else if byte < 0xA0 {
                Option::Some(Instruction::Sbc(t))
            } else if byte < 0xA8 {
                Option::Some(Instruction::And(t))
            } else if byte < 0xB0 {
                Option::Some(Instruction::Xor(t))
            } else if byte < 0xB8 {
                Option::Some(Instruction::Or(t))
            } else {
                Option::Some(Instruction::Cp(t))
            }
        } else {
        match byte {
            0x00 => Option::Some(Instruction::Nop),
            0x01 => Option::Some(Instruction::Load16 { to: WideArithmeticTarget::BC, from: WideArithmeticTarget::ReadWord }),
            0x02 => Option::Some(Instruction::Load { to: ArithmeticTarget::BCTarget, from: ArithmeticTarget::A }),
            0x03 => Option::Some(Instruction::Inc16(WideArithmeticTarget::BC)),
            0x04 => Option::Some(Instruction::Inc(ArithmeticTarget::B)),
            0x05 => Option::Some(Instruction::Dec(ArithmeticTarget::B)),
            0x06 => Option::Some(Instruction::Load { to: ArithmeticTarget::B, from: ArithmeticTarget::ReadByte }),
            0x07 => Option::Some(Instruction::Rlca),
            0x08 => Option::Some(Instruction::Load16 { to: WideArithmeticTarget::ReadAddress, from: WideArithmeticTarget::SP }),
            0x0A => Option::Some(Instruction::Load { to: ArithmeticTarget::A, from: ArithmeticTarget::BCTarget }),
            0x0B => Option::Some(Instruction::Dec16(WideArithmeticTarget::BC)),
            0x0C => Option::Some(Instruction::Inc(ArithmeticTarget::C)),
            0x0D => Option::Some(Instruction::Dec(ArithmeticTarget::C)),
            0x0E => Option::Some(Instruction::Load { to: ArithmeticTarget::C, from: ArithmeticTarget::ReadByte }),
            0x0F => Option::Some(Instruction::Rrca),
            0x10 => Option::Some(Instruction::Stop),
            0x11 => Option::Some(Instruction::Load16 { to: WideArithmeticTarget::DE, from: WideArithmeticTarget::ReadWord }),
            0x12 => Option::Some(Instruction::Load { to: ArithmeticTarget::DETarget, from: ArithmeticTarget::A }),
            0x13 => Option::Some(Instruction::Inc16(WideArithmeticTarget::DE)),
            0x14 => Option::Some(Instruction::Inc(ArithmeticTarget::D)),
            0x15 => Option::Some(Instruction::Dec(ArithmeticTarget::D)),
            0x16 => Option::Some(Instruction::Load { to: ArithmeticTarget::D, from: ArithmeticTarget::ReadByte }),
            0x17 => Option::Some(Instruction::Rla),
            0x18 => Option::Some(Instruction::Jump(JumpTest::Always, JumpType::Relative8)),
            0x1A => Option::Some(Instruction::Load { to: ArithmeticTarget::A, from: ArithmeticTarget::DETarget }),
            0x1B => Option::Some(Instruction::Dec16(WideArithmeticTarget::DE)),
            0x1C => Option::Some(Instruction::Inc(ArithmeticTarget::E)),
            0x1D => Option::Some(Instruction::Dec(ArithmeticTarget::E)),
            0x1E => Option::Some(Instruction::Load { to: ArithmeticTarget::E, from: ArithmeticTarget::ReadByte }),
            0x1F => Option::Some(Instruction::Rra),
            0x20 => Option::Some(Instruction::Jump(JumpTest::NotZero, JumpType::Relative8)),
            0x21 => Option::Some(Instruction::Load16 { to: WideArithmeticTarget::HL, from: WideArithmeticTarget::ReadWord }),
            0x22 => Option::Some(Instruction::Load { to: ArithmeticTarget::HLInc, from: ArithmeticTarget::A }),
            0x23 => Option::Some(Instruction::Inc16(WideArithmeticTarget::HL)),
            0x24 => Option::Some(Instruction::Inc(ArithmeticTarget::H)),
            0x25 => Option::Some(Instruction::Dec(ArithmeticTarget::H)),
            0x26 => Option::Some(Instruction::Load { to: ArithmeticTarget::H, from: ArithmeticTarget::ReadByte }),
            0x27 => Option::Some(Instruction::Daa),
            0x28 => Option::Some(Instruction::Jump(JumpTest::Zero, JumpType::Relative8)),
            0x2A => Option::Some(Instruction::Load { to: ArithmeticTarget::A, from: ArithmeticTarget::HLInc }),
            0x2B => Option::Some(Instruction::Dec16(WideArithmeticTarget::HL)),
            0x2C => Option::Some(Instruction::Inc(ArithmeticTarget::L)),
            0x2D => Option::Some(Instruction::Dec(ArithmeticTarget::L)),
            0x2E => Option::Some(Instruction::Load { to: ArithmeticTarget::L, from: ArithmeticTarget::ReadByte }),
            0x2F => Option::Some(Instruction::Cpl),
            0x30 => Option::Some(Instruction::Jump(JumpTest::NotCarry, JumpType::Relative8)),
            0x31 => Option::Some(Instruction::Load16 { to: WideArithmeticTarget::SP, from: WideArithmeticTarget::ReadWord }),
            0x32 => Option::Some(Instruction::Load { to: ArithmeticTarget::HLDec, from: ArithmeticTarget::A }),
            0x33 => Option::Some(Instruction::Inc16(WideArithmeticTarget::SP)),
            0x34 => Option::Some(Instruction::Inc(ArithmeticTarget::HLTarget)),
            0x35 => Option::Some(Instruction::Dec(ArithmeticTarget::HLTarget)),
            0x36 => Option::Some(Instruction::Load { to: ArithmeticTarget::HLTarget, from: ArithmeticTarget::ReadByte }),
            0x37 => Option::Some(Instruction::Scf),
            0x38 => Option::Some(Instruction::Jump(JumpTest::Carry, JumpType::Relative8)),
            0x3A => Option::Some(Instruction::Load { to: ArithmeticTarget::A, from: ArithmeticTarget::HLDec }),
            0x3B => Option::Some(Instruction::Dec16(WideArithmeticTarget::SP)),
            0x3C => Option::Some(Instruction::Inc(ArithmeticTarget::A)),
            0x3D => Option::Some(Instruction::Dec(ArithmeticTarget::A)),
            0x3E => Option::Some(Instruction::Load { to: ArithmeticTarget::A, from: ArithmeticTarget::ReadByte }),
            0x3F => Option::Some(Instruction::Ccf),
            0xC0 => Option::Some(Instruction::Ret(JumpTest::NotZero)),
            0xC1 => Option::Some(Instruction::Pop(WideArithmeticTarget::BC)),
            0xC2 => Option::Some(Instruction::Jump(JumpTest::NotZero, JumpType::Pointer16)),
            0xC3 => Option::Some(Instruction::Jump(JumpTest::Always, JumpType::Pointer16)),
            0xC4 => Option::Some(Instruction::Call(JumpTest::NotZero)),
            0xC5 => Option::Some(Instruction::Push(WideArithmeticTarget::BC)),
            0xC6 => Option::Some(Instruction::Add(ArithmeticTarget::ReadByte)),
            0xC7 => Option::Some(Instruction::Rst(0x0000)),
            0xC8 => Option::Some(Instruction::Ret(JumpTest::Zero)),
            0xC9 => Option::Some(Instruction::Ret(JumpTest::Always)),
            0xCA => Option::Some(Instruction::Jump(JumpTest::Zero, JumpType::Pointer16)),
            0xCC => Option::Some(Instruction::Call(JumpTest::Zero)),
            0xCD => Option::Some(Instruction::Call(JumpTest::Always)),
            0xCE => Option::Some(Instruction::Adc(ArithmeticTarget::ReadByte)),
            0xCF => Option::Some(Instruction::Rst(0x0008)),
            0xD0 => Option::Some(Instruction::Ret(JumpTest::NotCarry)),
            0xD1 => Option::Some(Instruction::Pop(WideArithmeticTarget::DE)),
            0xD2 => Option::Some(Instruction::Jump(JumpTest::NotCarry, JumpType::Pointer16)),
            0xD4 => Option::Some(Instruction::Call(JumpTest::NotCarry)),
            0xD5 => Option::Some(Instruction::Push(WideArithmeticTarget::DE)),
            0xD6 => Option::Some(Instruction::Sub(ArithmeticTarget::ReadByte)),
            0xD7 => Option::Some(Instruction::Rst(0x0010)),
            0xD8 => Option::Some(Instruction::Ret(JumpTest::Carry)),
            0xDA => Option::Some(Instruction::Jump(JumpTest::Carry, JumpType::Pointer16)),
            0xDC => Option::Some(Instruction::Call(JumpTest::Carry)),
            0xDE => Option::Some(Instruction::Sbc(ArithmeticTarget::ReadByte)),
            0xDF => Option::Some(Instruction::Rst(0x0018)),
            0xE0 => Option::Some(Instruction::Load { to: ArithmeticTarget::FFRead, from: ArithmeticTarget::A }),
            0xE1 => Option::Some(Instruction::Pop(WideArithmeticTarget::HL)),
            0xE2 => Option::Some(Instruction::Load { to: ArithmeticTarget::FFC, from: ArithmeticTarget::A }),
            0xE5 => Option::Some(Instruction::Push(WideArithmeticTarget::HL)),
            0xE6 => Option::Some(Instruction::And(ArithmeticTarget::ReadByte)),
            0xE7 => Option::Some(Instruction::Rst(0x0020)),
            0xE8 => Option::Some(Instruction::AddSp),
            0xE9 => Option::Some(Instruction::Jump(JumpTest::Always, JumpType::HL)),
            0xEE => Option::Some(Instruction::Xor(ArithmeticTarget::ReadByte)),
            0xEF => Option::Some(Instruction::Rst(0x0028)),
            0xF0 => Option::Some(Instruction::Load { to: ArithmeticTarget::A, from: ArithmeticTarget::FFRead }),
            0xF1 => Option::Some(Instruction::Pop(WideArithmeticTarget::AF)),
            0xF2 => Option::Some(Instruction::Load { to: ArithmeticTarget::A, from: ArithmeticTarget::FFC }),
            0xF3 => Option::Some(Instruction::DisableInterrupt),
            0xF5 => Option::Some(Instruction::Push(WideArithmeticTarget::AF)),
            0xF6 => Option::Some(Instruction::Or(ArithmeticTarget::ReadByte)),
            0xF7 => Option::Some(Instruction::Rst(0x0030)),
            0xF9 => Option::Some(Instruction::Load16 { to: WideArithmeticTarget::SP, from: WideArithmeticTarget::HL }),
            0xFB => Option::Some(Instruction::EnableInterrupt),
            0xFE => Option::Some(Instruction::Cp(ArithmeticTarget::ReadByte)),
            0xFF => Option::Some(Instruction::Rst(0x0038)),
            _ => Option::None,
        }
        }
    }

    /// Decode one secondary-table opcode byte.
    pub fn from_prefixed_byte(byte: u8) -> (r: Option<Instruction>)
        ensures
            r == Instruction::spec_from_prefixed_byte(byte),
    {
        let t = target_of_index(byte % 8);
        if byte < 0x08 {
            Option::Some(Instruction::Rlc(t))
        } else if byte < 0x10 {
            Option::Some(Instruction::Rrc(t))
        } else if byte < 0x18 {
            Option::Some(Instruction::Rl(t))
        } else if byte < 0x20 {
            Option::Some(Instruction::Rr(t))
        } else if byte < 0x28 {
            Option::Some(Instruction::Sla(t))
        } else if byte < 0x30 {
            Option::Some(Instruction::Sra(t))
        } else if byte < 0x38 {
            Option::Some(Instruction::Swap(t))
        } else if byte < 0x40 {
            Option::Some(Instruction::Srl(t))
        } else if byte < 0x80 {
            Option::Some(Instruction::Bit(t, (byte - 0x40) / 8))
        } else if byte < 0xC0 {
            Option::Some(Instruction::Res(t, (byte - 0x80) / 8))
        } else {
            Option::Some(Instruction::SetBit(t, (byte - 0xC0) / 8))
        }
    }
}

} // verus!
