//! The instruction decoder: two total mapping functions, one for the base
//! opcode space and one for the escape-prefixed opcode space.
//!
//! Decoding matches the raw byte against an ordered rule set: irregular
//! single-purpose opcodes are matched by exact value first (the halt byte
//! 0x76 lies inside the 0x40..0x7f load block and must win over the load
//! rule), then masked bit-pattern rules exploit the regular structure of
//! the opcode space. Any byte no rule covers decodes to an explicit
//! illegal-opcode outcome carrying the offending byte.

use vstd::prelude::*;
use crate::instr::{instr_wf, IllegalOpcode, Instr};
use crate::operand::{
    operand16_from_index, operand8_from_index, spec_operand16_from_index,
    spec_operand8_from_index, Op16, Op8,
};
use crate::regs::{Reg8, Reg16};

verus! {

/// The fixed escape byte that selects the prefixed opcode table. It is not
/// a valid standalone instruction.
pub const PREFIX: u8 = 0xcb;

/// The 3-bit and 2-bit operand codes cut out of an opcode byte are always
/// in range for the operand mapping functions.
proof fn lemma_code_fields(op: u8)
    by (bit_vector)
    ensures
        (op >> 3) & 0b111 < 8,
        op & 0b111 < 8,
        (op >> 4) & 0b11 < 4,
{
}

/// Exact-match rules for the irregular single-purpose opcodes. These run
/// first because several of them fall inside ranges that a masked rule
/// would otherwise also match.
pub open spec fn spec_decode_misc(op: u8) -> Option<Instr> {
    if op == 0x00 {
        Some(Instr::NOP)
    } else if op == 0x10 {
        Some(Instr::STOP)
    } else if op == 0x27 {
        Some(Instr::DAA)
    } else if op == 0x2f {
        Some(Instr::CPL)
    } else if op == 0x3f {
        Some(Instr::CCF)
    } else if op == 0x37 {
        Some(Instr::SCF)
    } else if op == 0x76 {
        Some(Instr::HALT)
    } else if op == 0xf3 {
        Some(Instr::DI)
    } else if op == 0xfb {
        Some(Instr::EI)
    } else {
        None
    }
}

/// The load rules of the base table: exact matches first, then the masked
/// rows of the regular load block.
pub open spec fn spec_decode_load(op: u8) -> Option<Instr> {
    let op8_to = spec_operand8_from_index((op >> 3) & 0b111);
    let op8_from = spec_operand8_from_index(op & 0b111);
    let op16 = spec_operand16_from_index((op >> 4) & 0b11);
    if op == 0x0a {
        Some(Instr::LD(Op8::Reg(Reg8::A), Op8::AddrBC))
    } else if op == 0x1a {
        Some(Instr::LD(Op8::Reg(Reg8::A), Op8::AddrDE))
    } else if op == 0x02 {
        Some(Instr::LD(Op8::AddrBC, Op8::Reg(Reg8::A)))
    } else if op == 0x12 {
        Some(Instr::LD(Op8::AddrDE, Op8::Reg(Reg8::A)))
    } else if op == 0xfa {
        Some(Instr::LD(Op8::Reg(Reg8::A), Op8::AddrNN))
    } else if op == 0xea {
        Some(Instr::LD(Op8::AddrNN, Op8::Reg(Reg8::A)))
    } else if op == 0x36 {
        Some(Instr::LD(Op8::AddrHL, Op8::N))
    } else if op == 0x22 {
        Some(Instr::LD(Op8::AddrHLInc, Op8::Reg(Reg8::A)))
    } else if op == 0x2a {
        Some(Instr::LD(Op8::Reg(Reg8::A), Op8::AddrHLInc))
    } else if op == 0x32 {
        Some(Instr::LD(Op8::AddrHLDec, Op8::Reg(Reg8::A)))
    } else if op == 0x3a {
        Some(Instr::LD(Op8::Reg(Reg8::A), Op8::AddrHLDec))
    } else if op == 0xe0 {
        Some(Instr::LDH(Op8::AddrN, Op8::Reg(Reg8::A)))
    } else if op == 0xe2 {
        Some(Instr::LDH(Op8::AddrC, Op8::Reg(Reg8::A)))
    } else if op == 0xf0 {
        Some(Instr::LDH(Op8::Reg(Reg8::A), Op8::AddrN))
    } else if op == 0xf2 {
        Some(Instr::LDH(Op8::Reg(Reg8::A), Op8::AddrC))
    } else if op == 0x08 {
        Some(Instr::LD16(Op16::AddrNN, Op16::Reg(Reg16::SP)))
    } else if op == 0xf9 {
        Some(Instr::LD16(Op16::Reg(Reg16::SP), Op16::Reg(Reg16::HL)))
    } else if op & 0b11111000 == 0x70 {
        Some(Instr::LD(Op8::AddrHL, op8_from))
    } else if op & 0b11000111 == 0x46 {
        Some(Instr::LD(op8_to, Op8::AddrHL))
    } else if op & 0b11000111 == 0x06 {
        Some(Instr::LD(op8_to, Op8::N))
    } else if op & 0b11000000 == 0x40 {
        Some(Instr::LD(op8_to, op8_from))
    } else if op & 0b11001111 == 0x01 {
        Some(Instr::LD16(op16, Op16::NN))
    } else if op & 0b11001111 == 0xc5 {
        Some(Instr::PUSH(op16))
    } else if op & 0b11001111 == 0xc1 {
        Some(Instr::POP(op16))
    } else {
        None
    }
}

/// The arithmetic and logic rules of the base table: exact matches for the
/// immediate forms and the accumulator-only rotates, then the masked rows
/// of the 0x80..0xbf block and the increment/decrement families.
pub open spec fn spec_decode_alu(op: u8) -> Option<Instr> {
    let op8_to = spec_operand8_from_index((op >> 3) & 0b111);
    let op8_from = spec_operand8_from_index(op & 0b111);
    let op16 = spec_operand16_from_index((op >> 4) & 0b11);
    if op == 0xc6 {
        Some(Instr::ADD(Op8::Reg(Reg8::A), Op8::N))
    } else if op == 0xce {
        Some(Instr::ADC(Op8::Reg(Reg8::A), Op8::N))
    } else if op == 0xd6 {
        Some(Instr::SUB(Op8::N))
    } else if op == 0xe6 {
        Some(Instr::AND(Op8::N))
    } else if op == 0xf6 {
        Some(Instr::OR(Op8::N))
    } else if op == 0xee {
        Some(Instr::XOR(Op8::N))
    } else if op == 0xfe {
        Some(Instr::CP(Op8::N))
    } else if op == 0xe8 {
        Some(Instr::ADD16(Op16::Reg(Reg16::SP), Op16::N))
    } else if op == 0x07 {
        Some(Instr::RLC(Op8::Reg(Reg8::A)))
    } else if op == 0x17 {
        Some(Instr::RL(Op8::Reg(Reg8::A)))
    } else if op == 0x0f {
        Some(Instr::RRC(Op8::Reg(Reg8::A)))
    } else if op == 0x1f {
        Some(Instr::RR(Op8::Reg(Reg8::A)))
    } else if op & 0b11111000 == 0x80 {
        Some(Instr::ADD(Op8::Reg(Reg8::A), op8_from))
    } else if op & 0b11111000 == 0x88 {
        Some(Instr::ADC(Op8::Reg(Reg8::A), op8_from))
    } else if op & 0b11111000 == 0x90 {
        Some(Instr::SUB(op8_from))
    } else if op & 0b11111000 == 0x98 {
        Some(Instr::SBC(op8_from))
    } else if op & 0b11111000 == 0xa0 {
        Some(Instr::AND(op8_from))
    } else if op & 0b11111000 == 0xb0 {
        Some(Instr::OR(op8_from))
    } else if op & 0b11111000 == 0xa8 {
        Some(Instr::XOR(op8_from))
    } else if op & 0b11111000 == 0xb8 {
        Some(Instr::CP(op8_from))
    } else if op & 0b11000111 == 0x04 {
        Some(Instr::INC(op8_to))
    } else if op & 0b11000111 == 0x05 {
        Some(Instr::DEC(op8_to))
    } else if op & 0b11001111 == 0x09 {
        Some(Instr::ADD16(Op16::Reg(Reg16::HL), op16))
    } else if op & 0b11001111 == 0x03 {
        Some(Instr::INC16(op16))
    } else if op & 0b11001111 == 0x0b {
        Some(Instr::DEC16(op16))
    } else {
        None
    }
}

/// The whole base table: exact-match rules first, then load rules, then
/// arithmetic and logic rules. `None` is the documented illegal set.
pub open spec fn spec_decode_unprefixed(op: u8) -> Option<Instr> {
    match spec_decode_misc(op) {
        Some(i) => Some(i),
        None => match spec_decode_load(op) {
            Some(i) => Some(i),
            None => spec_decode_alu(op),
        },
    }
}

/// The escape-prefixed table: rotate, shift and bit-operation rows. The
/// block 0x30..0x37 has no rule and is the table's documented gap.
pub open spec fn spec_decode_prefixed(op: u8) -> Option<Instr> {
    let bit_index = (op >> 3) & 0b111;
    let op8 = spec_operand8_from_index(op & 0b111);
    if op & 0b11111000 == 0x00 {
        Some(Instr::RLC(op8))
    } else if op & 0b11111000 == 0x10 {
        Some(Instr::RL(op8))
    } else if op & 0b11111000 == 0x08 {
        Some(Instr::RRC(op8))
    } else if op & 0b11111000 == 0x18 {
        Some(Instr::RR(op8))
    } else if op & 0b11111000 == 0x20 {
        Some(Instr::SLA(op8))
    } else if op & 0b11111000 == 0x28 {
        Some(Instr::SRA(op8))
    } else if op & 0b11111000 == 0x38 {
        Some(Instr::SRL(op8))
    } else if op & 0b11000000 == 0x40 {
        Some(Instr::BIT(bit_index, op8))
    } else if op & 0b11000000 == 0xc0 {
        Some(Instr::SET(bit_index, op8))
    } else if op & 0b11000000 == 0x80 {
        Some(Instr::RES(bit_index, op8))
    } else {
        None
    }
}

/// Exact-match stage of the base table.
fn decode_misc(opcode: u8) -> (r: Option<Instr>)
    ensures
        r == spec_decode_misc(opcode),
{
    if opcode == 0x00 {
        Some(Instr::NOP)
    } else if opcode == 0x10 {
        Some(Instr::STOP)
    } else if opcode == 0x27 {
        Some(Instr::DAA)
    } else if opcode == 0x2f {
        Some(Instr::CPL)
    } else if opcode == 0x3f {
        Some(Instr::CCF)
    } else if opcode == 0x37 {
        Some(Instr::SCF)
    } else if opcode == 0x76 {
        Some(Instr::HALT)
    } else if opcode == 0xf3 {
        Some(Instr::DI)
    } else if opcode == 0xfb {
        Some(Instr::EI)
    } else {
        None
    }
}

/// Load stage of the base table.
fn decode_load(opcode: u8) -> (r: Option<Instr>)
    ensures
        r == spec_decode_load(opcode),
{
    proof {
        lemma_code_fields(opcode);
    }
    let op8_to = operand8_from_index((opcode >> 3) & 0b111);
    let op8_from = operand8_from_index(opcode & 0b111);
    let op16 = operand16_from_index((opcode >> 4) & 0b11);
    if opcode == 0x0a {
        Some(Instr::LD(Op8::Reg(Reg8::A), Op8::AddrBC))
    } else if opcode == 0x1a {
        Some(Instr::LD(Op8::Reg(Reg8::A), Op8::AddrDE))
    } else if opcode == 0x02 {
        Some(Instr::LD(Op8::AddrBC, Op8::Reg(Reg8::A)))
    } else if opcode == 0x12 {
        Some(Instr::LD(Op8::AddrDE, Op8::Reg(Reg8::A)))
    } else if opcode == 0xfa {
        Some(Instr::LD(Op8::Reg(Reg8::A), Op8::AddrNN))
    } else if opcode == 0xea {
        Some(Instr::LD(Op8::AddrNN, Op8::Reg(Reg8::A)))
    } else if opcode == 0x36 {
        Some(Instr::LD(Op8::AddrHL, Op8::N))
    } else if opcode == 0x22 {
        Some(Instr::LD(Op8::AddrHLInc, Op8::Reg(Reg8::A)))
    } else if opcode == 0x2a {
        Some(Instr::LD(Op8::Reg(Reg8::A), Op8::AddrHLInc))
    } else if opcode == 0x32 {
        Some(Instr::LD(Op8::AddrHLDec, Op8::Reg(Reg8::A)))
    } else if opcode == 0x3a {
        Some(Instr::LD(Op8::Reg(Reg8::A), Op8::AddrHLDec))
    } else if opcode == 0xe0 {
        Some(Instr::LDH(Op8::AddrN, Op8::Reg(Reg8::A)))
    } else if opcode == 0xe2 {
        Some(Instr::LDH(Op8::AddrC, Op8::Reg(Reg8::A)))
    } else if opcode == 0xf0 {
        Some(Instr::LDH(Op8::Reg(Reg8::A), Op8::AddrN))
    } else if opcode == 0xf2 {
        Some(Instr::LDH(Op8::Reg(Reg8::A), Op8::AddrC))
    } else if opcode == 0x08 {
        Some(Instr::LD16(Op16::AddrNN, Op16::Reg(Reg16::SP)))
    } else if opcode == 0xf9 {
        Some(Instr::LD16(Op16::Reg(Reg16::SP), Op16::Reg(Reg16::HL)))
    } else if opcode & 0b11111000 == 0x70 {
        Some(Instr::LD(Op8::AddrHL, op8_from))
    } else if opcode & 0b11000111 == 0x46 {
        Some(Instr::LD(op8_to, Op8::AddrHL))
    } else if opcode & 0b11000111 == 0x06 {
        Some(Instr::LD(op8_to, Op8::N))
    } else if opcode & 0b11000000 == 0x40 {
        Some(Instr::LD(op8_to, op8_from))
    } else if opcode & 0b11001111 == 0x01 {
        Some(Instr::LD16(op16, Op16::NN))
    } else if opcode & 0b11001111 == 0xc5 {
        Some(Instr::PUSH(op16))
    } else if opcode & 0b11001111 == 0xc1 {
        Some(Instr::POP(op16))
    } else {
        None
    }
}

/// Arithmetic and logic stage of the base table.
fn decode_alu(opcode: u8) -> (r: Option<Instr>)
    ensures
        r == spec_decode_alu(opcode),
{
    proof {
        lemma_code_fields(opcode);
    }
    let op8_to = operand8_from_index((opcode >> 3) & 0b111);
    let op8_from = operand8_from_index(opcode & 0b111);
    let op16 = operand16_from_index((opcode >> 4) & 0b11);
    if opcode == 0xc6 {
        Some(Instr::ADD(Op8::Reg(Reg8::A), Op8::N))
    } else if opcode == 0xce {
        Some(Instr::ADC(Op8::Reg(Reg8::A), Op8::N))
    } else if opcode == 0xd6 {
        Some(Instr::SUB(Op8::N))
    } else if opcode == 0xe6 {
        Some(Instr::AND(Op8::N))
    } else if opcode == 0xf6 {
        Some(Instr::OR(Op8::N))
    } else if opcode == 0xee {
        Some(Instr::XOR(Op8::N))
    } else if opcode == 0xfe {
        Some(Instr::CP(Op8::N))
    } else if opcode == 0xe8 {
        Some(Instr::ADD16(Op16::Reg(Reg16::SP), Op16::N))
    } else if opcode == 0x07 {
        Some(Instr::RLC(Op8::Reg(Reg8::A)))
    } else if opcode == 0x17 {
        Some(Instr::RL(Op8::Reg(Reg8::A)))
    } else if opcode == 0x0f {
        Some(Instr::RRC(Op8::Reg(Reg8::A)))
    } else if opcode == 0x1f {
        Some(Instr::RR(Op8::Reg(Reg8::A)))
    } else if opcode & 0b11111000 == 0x80 {
        Some(Instr::ADD(Op8::Reg(Reg8::A), op8_from))
    } else if opcode & 0b11111000 == 0x88 {
        Some(Instr::ADC(Op8::Reg(Reg8::A), op8_from))
    } else if opcode & 0b11111000 == 0x90 {
        Some(Instr::SUB(op8_from))
    } else if opcode & 0b11111000 == 0x98 {
        Some(Instr::SBC(op8_from))
    } else if opcode & 0b11111000 == 0xa0 {
        Some(Instr::AND(op8_from))
    } else if opcode & 0b11111000 == 0xb0 {
        Some(Instr::OR(op8_from))
    } else if opcode & 0b11111000 == 0xa8 {
        Some(Instr::XOR(op8_from))
    } else if opcode & 0b11111000 == 0xb8 {
        Some(Instr::CP(op8_from))
    } else if opcode & 0b11000111 == 0x04 {
        Some(Instr::INC(op8_to))
    } else if opcode & 0b11000111 == 0x05 {
        Some(Instr::DEC(op8_to))
    } else if opcode & 0b11001111 == 0x09 {
        Some(Instr::ADD16(Op16::Reg(Reg16::HL), op16))
    } else if opcode & 0b11001111 == 0x03 {
        Some(Instr::INC16(op16))
    } else if opcode & 0b11001111 == 0x0b {
        Some(Instr::DEC16(op16))
    } else {
        None
    }
}

/// Decodes one byte of the base opcode space. Total: every byte yields
/// either its instruction or the explicit illegal-opcode outcome carrying
/// the byte itself.
pub fn decode_unprefixed(opcode: u8) -> (r: Result<Instr, IllegalOpcode>)
    ensures
        match r {
            Ok(i) => spec_decode_unprefixed(opcode) == Some(i) && instr_wf(i, false),
            Err(e) => spec_decode_unprefixed(opcode) == None::<Instr> && e == (IllegalOpcode {
                opcode,
                prefixed: false,
            }),
        },
{
    let r = decode_misc(opcode);
    if let Some(i) = r {
        return Ok(i);
    }
    let r = decode_load(opcode);
    if let Some(i) = r {
        return Ok(i);
    }
    let r = decode_alu(opcode);
    if let Some(i) = r {
        return Ok(i);
    }
    Err(IllegalOpcode { opcode, prefixed: false })
}

/// Decodes one byte of the escape-prefixed opcode space, reached only
/// after the base table yields the escape byte. Total in the same sense
/// as the base decoder; its documented gap is the block 0x30..0x37.
pub fn decode_prefixed(opcode: u8) -> (r: Result<Instr, IllegalOpcode>)
    ensures
        match r {
            Ok(i) => spec_decode_prefixed(opcode) == Some(i) && instr_wf(i, true),
            Err(e) => spec_decode_prefixed(opcode) == None::<Instr> && e == (IllegalOpcode {
                opcode,
                prefixed: true,
            }),
        },
{
    proof {
        lemma_code_fields(opcode);
    }
    let bit_index = (opcode >> 3) & 0b111;
    let op8 = operand8_from_index(opcode & 0b111);
    if opcode & 0b11111000 == 0x00 {
        Ok(Instr::RLC(op8))
    } else if opcode & 0b11111000 == 0x10 {
        Ok(Instr::RL(op8))
    } else if opcode & 0b11111000 == 0x08 {
        Ok(Instr::RRC(op8))
    } else if opcode & 0b11111000 == 0x18 {
        Ok(Instr::RR(op8))
    } else if opcode & 0b11111000 == 0x20 {
        Ok(Instr::SLA(op8))
    } else if opcode & 0b11111000 == 0x28 {
        Ok(Instr::SRA(op8))
    } else if opcode & 0b11111000 == 0x38 {
        Ok(Instr::SRL(op8))
    } else if opcode & 0b11000000 == 0x40 {
        Ok(Instr::BIT(bit_index, op8))
    } else if opcode & 0b11000000 == 0xc0 {
        Ok(Instr::SET(bit_index, op8))
    } else if opcode & 0b11000000 == 0x80 {
        Ok(Instr::RES(bit_index, op8))
    } else {
        Err(IllegalOpcode { opcode, prefixed: true })
    }
}

/// Decoding is a pure function of the opcode byte alone: two results of
/// decoding the same byte, with no state to mutate in between, are equal.
pub proof fn lemma_decode_unprefixed_deterministic(
    op: u8,
    r1: Option<Instr>,
    r2: Option<Instr>,
)
    requires
        r1 == spec_decode_unprefixed(op),
        r2 == spec_decode_unprefixed(op),
    ensures
        r1 == r2,
{
}

/// The prefixed decoder is pure in the same sense as the base decoder.
pub proof fn lemma_decode_prefixed_deterministic(
    op: u8,
    r1: Option<Instr>,
    r2: Option<Instr>,
)
    requires
        r1 == spec_decode_prefixed(op),
        r2 == spec_decode_prefixed(op),
    ensures
        r1 == r2,
{
}

} // verus!
