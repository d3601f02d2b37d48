//! The instruction decoder: a pure, total mapping from an opcode byte (plus
//! the extended-page flag) to a structured operation descriptor, or to an
//! explicit "undefined opcode" result for the base-page bytes that the
//! hardware leaves unassigned.

use vstd::prelude::*;

verus! {

/// Where an operation finds (or stores) its operand: a single register, a
/// 16-bit pair, an immediate, a memory cell addressed by a pair (with the
/// `HLi_`/`HLd_` forms auto-incrementing or -decrementing HL once per
/// access), an absolute immediate address, or a high-page cell at 0xFF00
/// plus an offset. `SPA` is the stack pointer plus a signed immediate.
#[derive(Clone, Copy, Debug, PartialEq, Eq, Structural)]
pub enum ArithmeticTarget {
    A,
    B,
    C,
    D,
    E,
    H,
    L,
    BC_,
    DE_,
    HL_,
    HLi_,
    HLd_,
    BC,
    DE,
    HL,
    SP,
    D8,
    D16,
    D16_,
    FD8_,
    FDC_,
    SPA,
}

/// The condition evaluated by conditional jumps, calls and returns.
#[derive(Clone, Copy, Debug, PartialEq, Eq, Structural)]
pub enum JumpTest {
    NotZero,
    Zero,
    NotCarry,
    Carry,
    Always,
}

/// The two shapes of a load: an 8-bit move between two byte operands, or a
/// 16-bit move between two word operands.
#[derive(Clone, Copy, Debug, PartialEq, Eq, Structural)]
pub enum LoadType {
    Byte(ArithmeticTarget, ArithmeticTarget),
    WORD(ArithmeticTarget, ArithmeticTarget),
}

/// The register pair moved by a stack push or pop. `D16` carries a raw word
/// (used internally for call return addresses) and `NONE` asks a pop to
/// return the word without storing it.
#[derive(Clone, Copy, Debug, PartialEq, Eq, Structural)]
pub enum StackTarget {
    AF,
    BC,
    DE,
    HL,
    D16(u16),
    NONE,
}

/// A decoded operation: the closed set of operation kinds, each carrying the
/// operands needed to execute it.
#[derive(Clone, Copy, Debug, PartialEq, Eq, Structural)]
pub enum Instruction {
    NOP,
    LD(LoadType),
    INC(ArithmeticTarget),
    DEC(ArithmeticTarget),
    ADD(ArithmeticTarget),
    ADC(ArithmeticTarget),
    ADDHL(ArithmeticTarget),
    SUB(ArithmeticTarget),
    SBC(ArithmeticTarget),
    AND(ArithmeticTarget),
    OR(ArithmeticTarget),
    XOR(ArithmeticTarget),
    CP(ArithmeticTarget),
    CCF,
    SCF,
    DAA,
    JP(JumpTest),
    JPHL,
    JR(JumpTest),
    PUSH(StackTarget),
    POP(StackTarget),
    CALL(JumpTest),
    RST(u16),
    RET(JumpTest),
    RETI,
    CPL,
    BIT(ArithmeticTarget, u8),
    RES(ArithmeticTarget, u8),
    SET(ArithmeticTarget, u8),
    SRL(ArithmeticTarget),
    RR(ArithmeticTarget),
    RRA,
    RL(ArithmeticTarget),
    RLA,
    RRC(ArithmeticTarget),
    RRCA,
    RLC(ArithmeticTarget),
    RLCA,
    SRA(ArithmeticTarget),
    SLA(ArithmeticTarget),
    SWAP(ArithmeticTarget),
    STOP,
    HALT,
    DI,
    EI,
}

/// The 8-bit operand encoded by the low three bits of a regularly-shaped
/// opcode: B, C, D, E, H, L, the memory cell at HL, then A.
pub open spec fn spec_reg8_target(i: int) -> ArithmeticTarget {
    if i == 0 {
        ArithmeticTarget::B
    } else if i == 1 {
        ArithmeticTarget::C
    } else if i == 2 {
        ArithmeticTarget::D
    } else if i == 3 {
        ArithmeticTarget::E
    } else if i == 4 {
        ArithmeticTarget::H
    } else if i == 5 {
        ArithmeticTarget::L
    } else if i == 6 {
        ArithmeticTarget::HL_
    } else {
        ArithmeticTarget::A
    }
}

/// The extended-page decode table: rotates and shifts in the first quarter,
/// then BIT, RES and SET over each operand and bit index. Every byte decodes.
pub open spec fn spec_from_byte_prefixed(byte: u8) -> Option<Instruction> {
    let t = spec_reg8_target((byte % 8) as int);
    let g = byte / 8;
    if g == 0 {
        Some(Instruction::RLC(t))
    } else if g == 1 {
        Some(Instruction::RRC(t))
    } else if g == 2 {
        Some(Instruction::RL(t))
    } else if g == 3 {
        Some(Instruction::RR(t))
    } else if g == 4 {
        Some(Instruction::SLA(t))
    } else if g == 5 {
        Some(Instruction::SRA(t))
    } else if g == 6 {
        Some(Instruction::SWAP(t))
    } else if g == 7 {
        Some(Instruction::SRL(t))
    } else if g < 16 {
        Some(Instruction::BIT(t, (g - 8) as u8))
    } else if g < 24 {
        Some(Instruction::RES(t, (g - 16) as u8))
    } else {
        Some(Instruction::SET(t, (g - 24) as u8))
    }
}

/// The bytes of the base page that decode to no operation: the extended-page
/// sentinel itself and the bytes the hardware leaves unassigned.
pub open spec fn spec_base_undefined(b: u8) -> bool {
    b == 0xCB || b == 0xD3 || b == 0xDB || b == 0xDD || b == 0xE3 || b == 0xE4 || b == 0xEB || b
        == 0xEC || b == 0xED || b == 0xF4 || b == 0xFC || b == 0xFD
}

/// The base-page decode table. The two regular quarters (register-to-register
/// loads and the accumulator arithmetic block) are computed from the bit
/// fields of the byte; the rest is an explicit table.
pub open spec fn spec_from_byte_not_prefixed(byte: u8) -> Option<Instruction> {
    if 0x40 <= byte && byte <= 0x7F {
        if byte == 0x76 {
            Some(Instruction::HALT)
        } else {
            Some(
                Instruction::LD(
                    LoadType::Byte(
                        spec_reg8_target(((byte - 0x40) / 8) as int),
                        spec_reg8_target((byte % 8) as int),
                    ),
                ),
            )
        }
    } else if 0x80 <= byte && byte <= 0xBF {
        let t = spec_reg8_target((byte % 8) as int);
        let g = (byte - 0x80) / 8;
        if g == 0 {
            Some(Instruction::ADD(t))
        } else if g == 1 {
            Some(Instruction::ADC(t))
        } else if g == 2 {
            Some(Instruction::SUB(t))
        } else if g == 3 {
            Some(Instruction::SBC(t))
        } else if g == 4 {
            Some(Instruction::AND(t))
        } else if g == 5 {
            Some(Instruction::XOR(t))
        } else if g == 6 {
            Some(Instruction::OR(t))
        } else {
            Some(Instruction::CP(t))
        }
    } else {
        match byte {
            0x00 => Some(Instruction::NOP),
            0x01 => Some(
                Instruction::LD(LoadType::WORD(ArithmeticTarget::BC, ArithmeticTarget::D16)),
            ),
            0x02 => Some(
                Instruction::LD(LoadType::Byte(ArithmeticTarget::BC_, ArithmeticTarget::A)),
            ),
            0x03 => Some(Instruction::INC(ArithmeticTarget::BC)),
            0x04 => Some(Instruction::INC(ArithmeticTarget::B)),
            0x05 => Some(Instruction::DEC(ArithmeticTarget::B)),
            0x06 => Some(Instruction::LD(LoadType::Byte(ArithmeticTarget::B, ArithmeticTarget::D8))),
            0x07 => Some(Instruction::RLCA),
            0x08 => Some(
                Instruction::LD(LoadType::WORD(ArithmeticTarget::D16_, ArithmeticTarget::SP)),
            ),
            0x09 => Some(Instruction::ADDHL(ArithmeticTarget::BC)),
            0x0A => Some(
                Instruction::LD(LoadType::Byte(ArithmeticTarget::A, ArithmeticTarget::BC_)),
            ),
            0x0B => Some(Instruction::DEC(ArithmeticTarget::BC)),
            0x0C => Some(Instruction::INC(ArithmeticTarget::C)),
            0x0D => Some(Instruction::DEC(ArithmeticTarget::C)),
            0x0E => Some(Instruction::LD(LoadType::Byte(ArithmeticTarget::C, ArithmeticTarget::D8))),
            0x0F => Some(Instruction::RRCA),
            0x10 => Some(Instruction::STOP),
            0x11 => Some(
                Instruction::LD(LoadType::WORD(ArithmeticTarget::DE, ArithmeticTarget::D16)),
            ),
            0x12 => Some(
                Instruction::LD(LoadType::Byte(ArithmeticTarget::DE_, ArithmeticTarget::A)),
            ),
            0x13 => Some(Instruction::INC(ArithmeticTarget::DE)),
            0x14 => Some(Instruction::INC(ArithmeticTarget::D)),
            0x15 => Some(Instruction::DEC(ArithmeticTarget::D)),
            0x16 => Some(Instruction::LD(LoadType::Byte(ArithmeticTarget::D, ArithmeticTarget::D8))),
            0x17 => Some(Instruction::RLA),
            0x18 => Some(Instruction::JR(JumpTest::Always)),
            0x19 => Some(Instruction::ADDHL(ArithmeticTarget::DE)),
            0x1A => Some(
                Instruction::LD(LoadType::Byte(ArithmeticTarget::A, ArithmeticTarget::DE_)),
            ),
            0x1B => Some(Instruction::DEC(ArithmeticTarget::DE)),
            0x1C => Some(Instruction::INC(ArithmeticTarget::E)),
            0x1D => Some(Instruction::DEC(ArithmeticTarget::E)),
            0x1E => Some(Instruction::LD(LoadType::Byte(ArithmeticTarget::E, ArithmeticTarget::D8))),
            0x1F => Some(Instruction::RRA),
            0x20 => Some(Instruction::JR(JumpTest::NotZero)),
            0x21 => Some(
                Instruction::LD(LoadType::WORD(ArithmeticTarget::HL, ArithmeticTarget::D16)),
            ),
            0x22 => Some(
                Instruction::LD(LoadType::Byte(ArithmeticTarget::HLi_, ArithmeticTarget::A)),
            ),
            0x23 => Some(Instruction::INC(ArithmeticTarget::HL)),
            0x24 => Some(Instruction::INC(ArithmeticTarget::H)),
            0x25 => Some(Instruction::DEC(ArithmeticTarget::H)),
            0x26 => Some(Instruction::LD(LoadType::Byte(ArithmeticTarget::H, ArithmeticTarget::D8))),
            0x27 => Some(Instruction::DAA),
            0x28 => Some(Instruction::JR(JumpTest::Zero)),
            0x29 => Some(Instruction::ADDHL(ArithmeticTarget::HL)),
            0x2A => Some(
                Instruction::LD(LoadType::Byte(ArithmeticTarget::A, ArithmeticTarget::HLi_)),
            ),
            0x2B => Some(Instruction::DEC(ArithmeticTarget::HL)),
            0x2C => Some(Instruction::INC(ArithmeticTarget::L)),
            0x2D => Some(Instruction::DEC(ArithmeticTarget::L)),
            0x2E => Some(Instruction::LD(LoadType::Byte(ArithmeticTarget::L, ArithmeticTarget::D8))),
            0x2F => Some(Instruction::CPL),
            0x30 => Some(Instruction::JR(JumpTest::NotCarry)),
            0x31 => Some(
                Instruction::LD(LoadType::WORD(ArithmeticTarget::SP, ArithmeticTarget::D16)),
            ),
            0x32 => Some(
                Instruction::LD(LoadType::Byte(ArithmeticTarget::HLd_, ArithmeticTarget::A)),
            ),
            0x33 => Some(Instruction::INC(ArithmeticTarget::SP)),
            0x34 => Some(Instruction::INC(ArithmeticTarget::HL_)),
            0x35 => Some(Instruction::DEC(ArithmeticTarget::HL_)),
            0x36 => Some(
                Instruction::LD(LoadType::Byte(ArithmeticTarget::HL_, ArithmeticTarget::D8)),
            ),
            0x37 => Some(Instruction::SCF),
            0x38 => Some(Instruction::JR(JumpTest::Carry)),
            0x39 => Some(Instruction::ADDHL(ArithmeticTarget::SP)),
            0x3A => Some(
                Instruction::LD(LoadType::Byte(ArithmeticTarget::A, ArithmeticTarget::HLd_)),
            ),
            0x3B => Some(Instruction::DEC(ArithmeticTarget::SP)),
            0x3C => Some(Instruction::INC(ArithmeticTarget::A)),
            0x3D => Some(Instruction::DEC(ArithmeticTarget::A)),
            0x3E => Some(Instruction::LD(LoadType::Byte(ArithmeticTarget::A, ArithmeticTarget::D8))),
            0x3F => Some(Instruction::CCF),
            0xC0 => Some(Instruction::RET(JumpTest::NotZero)),
            0xC1 => Some(Instruction::POP(StackTarget::BC)),
            0xC2 => Some(Instruction::JP(JumpTest::NotZero)),
            0xC3 => Some(Instruction::JP(JumpTest::Always)),
            0xC4 => Some(Instruction::CALL(JumpTest::NotZero)),
            0xC5 => Some(Instruction::PUSH(StackTarget::BC)),
            0xC6 => Some(Instruction::ADD(ArithmeticTarget::D8)),
            0xC7 => Some(Instruction::RST(0x0000)),
            0xC8 => Some(Instruction::RET(JumpTest::Zero)),
            0xC9 => Some(Instruction::RET(JumpTest::Always)),
            0xCA => Some(Instruction::JP(JumpTest::Zero)),
            0xCB => None,
            0xCC => Some(Instruction::CALL(JumpTest::Zero)),
            0xCD => Some(Instruction::CALL(JumpTest::Always)),
            0xCE => Some(Instruction::ADC(ArithmeticTarget::D8)),
            0xCF => Some(Instruction::RST(0x0008)),
            0xD0 => Some(Instruction::RET(JumpTest::NotCarry)),
            0xD1 => Some(Instruction::POP(StackTarget::DE)),
            0xD2 => Some(Instruction::JP(JumpTest::NotCarry)),
            0xD3 => None,
            0xD4 => Some(Instruction::CALL(JumpTest::NotCarry)),
            0xD5 => Some(Instruction::PUSH(StackTarget::DE)),
            0xD6 => Some(Instruction::SUB(ArithmeticTarget::D8)),
            0xD7 => Some(Instruction::RST(0x0010)),
            0xD8 => Some(Instruction::RET(JumpTest::Carry)),
            0xD9 => Some(Instruction::RETI),
            0xDA => Some(Instruction::JP(JumpTest::Carry)),
            0xDB => None,
            0xDC => Some(Instruction::CALL(JumpTest::Carry)),
            0xDD => None,
            0xDE => Some(Instruction::SBC(ArithmeticTarget::D8)),
            0xDF => Some(Instruction::RST(0x0018)),
            0xE0 => Some(
                Instruction::LD(LoadType::Byte(ArithmeticTarget::FD8_, ArithmeticTarget::A)),
            ),
            0xE1 => Some(Instruction::POP(StackTarget::HL)),
            0xE2 => Some(
                Instruction::LD(LoadType::Byte(ArithmeticTarget::FDC_, ArithmeticTarget::A)),
            ),
            0xE3 => None,
            0xE4 => None,
            0xE5 => Some(Instruction::PUSH(StackTarget::HL)),
            0xE6 => Some(Instruction::AND(ArithmeticTarget::D8)),
            0xE7 => Some(Instruction::RST(0x0020)),
            0xE8 => Some(Instruction::ADD(ArithmeticTarget::SP)),
            0xE9 => Some(Instruction::JPHL),
            0xEA => Some(
                Instruction::LD(LoadType::Byte(ArithmeticTarget::D16_, ArithmeticTarget::A)),
            ),
            0xEB => None,
            0xEC => None,
            0xED => None,
            0xEE => Some(Instruction::XOR(ArithmeticTarget::D8)),
            0xEF => Some(Instruction::RST(0x0028)),
            0xF0 => Some(
                Instruction::LD(LoadType::Byte(ArithmeticTarget::A, ArithmeticTarget::FD8_)),
            ),
            0xF1 => Some(Instruction::POP(StackTarget::AF)),
            0xF2 => Some(
                Instruction::LD(LoadType::Byte(ArithmeticTarget::A, ArithmeticTarget::FDC_)),
            ),
            0xF3 => Some(Instruction::DI),
            0xF4 => None,
            0xF5 => Some(Instruction::PUSH(StackTarget::AF)),
            0xF6 => Some(Instruction::OR(ArithmeticTarget::D8)),
            0xF7 => Some(Instruction::RST(0x0030)),
            0xF8 => Some(
                Instruction::LD(LoadType::WORD(ArithmeticTarget::HL, ArithmeticTarget::SPA)),
            ),
            0xF9 => Some(
                Instruction::LD(LoadType::WORD(ArithmeticTarget::SP, ArithmeticTarget::HL)),
            ),
            0xFA => Some(
                Instruction::LD(LoadType::Byte(ArithmeticTarget::A, ArithmeticTarget::D16_)),
            ),
            0xFB => Some(Instruction::EI),
            0xFC => None,
            0xFD => None,
            0xFE => Some(Instruction::CP(ArithmeticTarget::D8)),
            0xFF => Some(Instruction::RST(0x0038)),
            _ => None,
        }
    }
}

/// The decode table selected by the extended-page flag.
pub open spec fn spec_from_byte(byte: u8, prefixed: bool) -> Option<Instruction> {
    if prefixed {
        spec_from_byte_prefixed(byte)
    } else {
        spec_from_byte_not_prefixed(byte)
    }
}

/// Decoder totality: every extended-page byte decodes to an operation, and a
/// base-page byte decodes to an operation exactly when it is not one of the
/// explicitly enumerated undefined bytes.
pub proof fn lemma_decoder_total(byte: u8)
    ensures
        spec_from_byte_prefixed(byte) is Some,
        spec_from_byte_not_prefixed(byte) is Some <==> !spec_base_undefined(byte),
{
}

fn reg8_target(i: u8) -> (t: ArithmeticTarget)
    requires
        i < 8,
    ensures
        t == spec_reg8_target(i as int),
{
    if i == 0 {
        ArithmeticTarget::B
    } else if i == 1 {
        ArithmeticTarget::C
    } else if i == 2 {
        ArithmeticTarget::D
    } else if i == 3 {
        ArithmeticTarget::E
    } else if i == 4 {
        ArithmeticTarget::H
    } else if i == 5 {
        ArithmeticTarget::L
    } else if i == 6 {
        ArithmeticTarget::HL_
    } else {
        ArithmeticTarget::A
    }
}

impl Instruction {
    /// Decodes one opcode byte against the table the extended-page flag
    /// selects.
    pub fn from_byte(byte: u8, prefixed: bool) -> (r: Option<Instruction>)
        ensures
            r == spec_from_byte(byte, prefixed),
    {
        if prefixed {
            Instruction::from_byte_prefixed(byte)
        } else {
            Instruction::from_byte_not_prefixed(byte)
        }
    }

    /// Decodes an extended-page opcode byte; every byte decodes.
    pub fn from_byte_prefixed(byte: u8) -> (r: Option<Instruction>)
        ensures
            r == spec_from_byte_prefixed(byte),
    {
        let t = reg8_target(byte % 8);
        let g = byte / 8;
        if g == 0 {
            Some(Instruction::RLC(t))
        } else if g == 1 {
            Some(Instruction::RRC(t))
        } else if g == 2 {
            Some(Instruction::RL(t))
        } else if g == 3 {
            Some(Instruction::RR(t))
        } else if g == 4 {
            Some(Instruction::SLA(t))
        } else if g == 5 {
            Some(Instruction::SRA(t))
        } else if g == 6 {
            Some(Instruction::SWAP(t))
        } else if g == 7 {
            Some(Instruction::SRL(t))
        } else if g < 16 {
            Some(Instruction::BIT(t, g - 8))
        } else if g < 24 {
            Some(Instruction::RES(t, g - 16))
        } else {
            Some(Instruction::SET(t, g - 24))
        }
    }

    /// Decodes a base-page opcode byte, or reports the byte undefined.
    pub fn from_byte_not_prefixed(byte: u8) -> (r: Option<Instruction>)
        ensures
            r == spec_from_byte_not_prefixed(byte),
    {
        if 0x40 <= byte && byte <= 0x7F {
            if byte == 0x76 {
                Some(Instruction::HALT)
            } else {
                Some(
                    Instruction::LD(
                        LoadType::Byte(reg8_target((byte - 0x40) / 8), reg8_target(byte % 8)),
                    ),
                )
            }
        } else if 0x80 <= byte && byte <= 0xBF {
            let t = reg8_target(byte % 8);
            let g = (byte - 0x80) / 8;
            if g == 0 {
                Some(Instruction::ADD(t))
            } else if g == 1 {
                Some(Instruction::ADC(t))
            } else if g == 2 {
                Some(Instruction::SUB(t))
            } else if g == 3 {
                Some(Instruction::SBC(t))
            } else if g == 4 {
                Some(Instruction::AND(t))
            } else if g == 5 {
                Some(Instruction::XOR(t))
            } else if g == 6 {
                Some(Instruction::OR(t))
            } else {
                Some(Instruction::CP(t))
            }
        } else {
            match byte {
                0x00 => Some(Instruction::NOP),
                0x01 => Some(
                    Instruction::LD(LoadType::WORD(ArithmeticTarget::BC, ArithmeticTarget::D16)),
                ),
                0x02 => Some(
                    Instruction::LD(LoadType::Byte(ArithmeticTarget::BC_, ArithmeticTarget::A)),
                ),
                0x03 => Some(Instruction::INC(ArithmeticTarget::BC)),
                0x04 => Some(Instruction::INC(ArithmeticTarget::B)),
                0x05 => Some(Instruction::DEC(ArithmeticTarget::B)),
                0x06 => Some(
                    Instruction::LD(LoadType::Byte(ArithmeticTarget::B, ArithmeticTarget::D8)),
                ),
                0x07 => Some(Instruction::RLCA),
                0x08 => Some(
                    Instruction::LD(LoadType::WORD(ArithmeticTarget::D16_, ArithmeticTarget::SP)),
                ),
                0x09 => Some(Instruction::ADDHL(ArithmeticTarget::BC)),
                0x0A => Some(
                    Instruction::LD(LoadType::Byte(ArithmeticTarget::A, ArithmeticTarget::BC_)),
                ),
                0x0B => Some(Instruction::DEC(ArithmeticTarget::BC)),
                0x0C => Some(Instruction::INC(ArithmeticTarget::C)),
                0x0D => Some(Instruction::DEC(ArithmeticTarget::C)),
                0x0E => Some(
                    Instruction::LD(LoadType::Byte(ArithmeticTarget::C, ArithmeticTarget::D8)),
                ),
                0x0F => Some(Instruction::RRCA),
                0x10 => Some(Instruction::STOP),
                0x11 => Some(
                    Instruction::LD(LoadType::WORD(ArithmeticTarget::DE, ArithmeticTarget::D16)),
                ),
                0x12 => Some(
                    Instruction::LD(LoadType::Byte(ArithmeticTarget::DE_, ArithmeticTarget::A)),
                ),
                0x13 => Some(Instruction::INC(ArithmeticTarget::DE)),
                0x14 => Some(Instruction::INC(ArithmeticTarget::D)),
                0x15 => Some(Instruction::DEC(ArithmeticTarget::D)),
                0x16 => Some(
                    Instruction::LD(LoadType::Byte(ArithmeticTarget::D, ArithmeticTarget::D8)),
                ),
                0x17 => Some(Instruction::RLA),
                0x18 => Some(Instruction::JR(JumpTest::Always)),
                0x19 => Some(Instruction::ADDHL(ArithmeticTarget::DE)),
                0x1A => Some(
                    Instruction::LD(LoadType::Byte(ArithmeticTarget::A, ArithmeticTarget::DE_)),
                ),
                0x1B => Some(Instruction::DEC(ArithmeticTarget::DE)),
                0x1C => Some(Instruction::INC(ArithmeticTarget::E)),
                0x1D => Some(Instruction::DEC(ArithmeticTarget::E)),
                0x1E => Some(
                    Instruction::LD(LoadType::Byte(ArithmeticTarget::E, ArithmeticTarget::D8)),
                ),
                0x1F => Some(Instruction::RRA),
                0x20 => Some(Instruction::JR(JumpTest::NotZero)),
                0x21 => Some(
                    Instruction::LD(LoadType::WORD(ArithmeticTarget::HL, ArithmeticTarget::D16)),
                ),
                0x22 => Some(
                    Instruction::LD(LoadType::Byte(ArithmeticTarget::HLi_, ArithmeticTarget::A)),
                ),
                0x23 => Some(Instruction::INC(ArithmeticTarget::HL)),
                0x24 => Some(Instruction::INC(ArithmeticTarget::H)),
                0x25 => Some(Instruction::DEC(ArithmeticTarget::H)),
                0x26 => Some(
                    Instruction::LD(LoadType::Byte(ArithmeticTarget::H, ArithmeticTarget::D8)),
                ),
                0x27 => Some(Instruction::DAA),
                0x28 => Some(Instruction::JR(JumpTest::Zero)),
                0x29 => Some(Instruction::ADDHL(ArithmeticTarget::HL)),
                0x2A => Some(
                    Instruction::LD(LoadType::Byte(ArithmeticTarget::A, ArithmeticTarget::HLi_)),
                ),
                0x2B => Some(Instruction::DEC(ArithmeticTarget::HL)),
                0x2C => Some(Instruction::INC(ArithmeticTarget::L)),
                0x2D => Some(Instruction::DEC(ArithmeticTarget::L)),
                0x2E => Some(
                    Instruction::LD(LoadType::Byte(ArithmeticTarget::L, ArithmeticTarget::D8)),
                ),
                0x2F => Some(Instruction::CPL),
                0x30 => Some(Instruction::JR(JumpTest::NotCarry)),
                0x31 => Some(
                    Instruction::LD(LoadType::WORD(ArithmeticTarget::SP, ArithmeticTarget::D16)),
                ),
                0x32 => Some(
                    Instruction::LD(LoadType::Byte(ArithmeticTarget::HLd_, ArithmeticTarget::A)),
                ),
                0x33 => Some(Instruction::INC(ArithmeticTarget::SP)),
                0x34 => Some(Instruction::INC(ArithmeticTarget::HL_)),
                0x35 => Some(Instruction::DEC(ArithmeticTarget::HL_)),
                0x36 => Some(
                    Instruction::LD(LoadType::Byte(ArithmeticTarget::HL_, ArithmeticTarget::D8)),
                ),
                0x37 => Some(Instruction::SCF),
                0x38 => Some(Instruction::JR(JumpTest::Carry)),
                0x39 => Some(Instruction::ADDHL(ArithmeticTarget::SP)),
                0x3A => Some(
                    Instruction::LD(LoadType::Byte(ArithmeticTarget::A, ArithmeticTarget::HLd_)),
                ),
                0x3B => Some(Instruction::DEC(ArithmeticTarget::SP)),
                0x3C => Some(Instruction::INC(ArithmeticTarget::A)),
                0x3D => Some(Instruction::DEC(ArithmeticTarget::A)),
                0x3E => Some(
                    Instruction::LD(LoadType::Byte(ArithmeticTarget::A, ArithmeticTarget::D8)),
                ),
                0x3F => Some(Instruction::CCF),
                0xC0 => Some(Instruction::RET(JumpTest::NotZero)),
                0xC1 => Some(Instruction::POP(StackTarget::BC)),
                0xC2 => Some(Instruction::JP(JumpTest::NotZero)),
                0xC3 => Some(Instruction::JP(JumpTest::Always)),
                0xC4 => Some(Instruction::CALL(JumpTest::NotZero)),
                0xC5 => Some(Instruction::PUSH(StackTarget::BC)),
                0xC6 => Some(Instruction::ADD(ArithmeticTarget::D8)),
                0xC7 => Some(Instruction::RST(0x0000)),
                0xC8 => Some(Instruction::RET(JumpTest::Zero)),
                0xC9 => Some(Instruction::RET(JumpTest::Always)),
                0xCA => Some(Instruction::JP(JumpTest::Zero)),
                0xCB => None,
                0xCC => Some(Instruction::CALL(JumpTest::Zero)),
                0xCD => Some(Instruction::CALL(JumpTest::Always)),
                0xCE => Some(Instruction::ADC(ArithmeticTarget::D8)),
                0xCF => Some(Instruction::RST(0x0008)),
                0xD0 => Some(Instruction::RET(JumpTest::NotCarry)),
                0xD1 => Some(Instruction::POP(StackTarget::DE)),
                0xD2 => Some(Instruction::JP(JumpTest::NotCarry)),
                0xD3 => None,
                0xD4 => Some(Instruction::CALL(JumpTest::NotCarry)),
                0xD5 => Some(Instruction::PUSH(StackTarget::DE)),
                0xD6 => Some(Instruction::SUB(ArithmeticTarget::D8)),
                0xD7 => Some(Instruction::RST(0x0010)),
                0xD8 => Some(Instruction::RET(JumpTest::Carry)),
                0xD9 => Some(Instruction::RETI),
                0xDA => Some(Instruction::JP(JumpTest::Carry)),
                0xDB => None,
                0xDC => Some(Instruction::CALL(JumpTest::Carry)),
                0xDD => None,
                0xDE => Some(Instruction::SBC(ArithmeticTarget::D8)),
                0xDF => Some(Instruction::RST(0x0018)),
                0xE0 => Some(
                    Instruction::LD(LoadType::Byte(ArithmeticTarget::FD8_, ArithmeticTarget::A)),
                ),
                0xE1 => Some(Instruction::POP(StackTarget::HL)),
                0xE2 => Some(
                    Instruction::LD(LoadType::Byte(ArithmeticTarget::FDC_, ArithmeticTarget::A)),
                ),
                0xE3 => None,
                0xE4 => None,
                0xE5 => Some(Instruction::PUSH(StackTarget::HL)),
                0xE6 => Some(Instruction::AND(ArithmeticTarget::D8)),
                0xE7 => Some(Instruction::RST(0x0020)),
                0xE8 => Some(Instruction::ADD(ArithmeticTarget::SP)),
                0xE9 => Some(Instruction::JPHL),
                0xEA => Some(
                    Instruction::LD(LoadType::Byte(ArithmeticTarget::D16_, ArithmeticTarget::A)),
                ),
                0xEB => None,
                0xEC => None,
                0xED => None,
                0xEE => Some(Instruction::XOR(ArithmeticTarget::D8)),
                0xEF => Some(Instruction::RST(0x0028)),
                0xF0 => Some(
                    Instruction::LD(LoadType::Byte(ArithmeticTarget::A, ArithmeticTarget::FD8_)),
                ),
                0xF1 => Some(Instruction::POP(StackTarget::AF)),
                0xF2 => Some(
                    Instruction::LD(LoadType::Byte(ArithmeticTarget::A, ArithmeticTarget::FDC_)),
                ),
                0xF3 => Some(Instruction::DI),
                0xF4 => None,
                0xF5 => Some(Instruction::PUSH(StackTarget::AF)),
                0xF6 => Some(Instruction::OR(ArithmeticTarget::D8)),
                0xF7 => Some(Instruction::RST(0x0030)),
                0xF8 => Some(
                    Instruction::LD(LoadType::WORD(ArithmeticTarget::HL, ArithmeticTarget::SPA)),
                ),
                0xF9 => Some(
                    Instruction::LD(LoadType::WORD(ArithmeticTarget::SP, ArithmeticTarget::HL)),
                ),
                0xFA => Some(
                    Instruction::LD(LoadType::Byte(ArithmeticTarget::A, ArithmeticTarget::D16_)),
                ),
                0xFB => Some(Instruction::EI),
                0xFC => None,
                0xFD => None,
                0xFE => Some(Instruction::CP(ArithmeticTarget::D8)),
                0xFF => Some(Instruction::RST(0x0038)),
                _ => None,
            }
        }
    }
}

} // verus!
