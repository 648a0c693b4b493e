//! The decoded instruction: an immutable tagged value produced once per
//! fetch by the decoder and consumed by the execution step. Also the
//! explicit illegal-opcode outcomes of decoding and stepping.

use vstd::prelude::*;
use crate::operand::{Op8, Op16};
use crate::regs::{Reg8, Reg16};

verus! {

/// One decoded instruction together with its operand descriptors.
#[derive(Clone, Copy, Debug, PartialEq, Eq, Structural)]
#[allow(non_camel_case_types)]
pub enum Instr {
    /// No operation.
    NOP,
    /// Decimal-adjust register A back into packed-BCD form.
    DAA,
    /// Complement register A (flip all bits).
    CPL,
    /// Complement the carry flag.
    CCF,
    /// Set the carry flag.
    SCF,
    /// Power down the core until an interrupt occurs.
    HALT,
    /// Halt core and display until a button is pressed.
    STOP,
    /// Disable interrupts.
    DI,
    /// Enable interrupts.
    EI,
    /// 8-bit load: first operand is the destination.
    LD(Op8, Op8),
    /// 16-bit load: first operand is the destination.
    LD16(Op16, Op16),
    /// High-page load between register A and address `0xFF00 + offset`.
    LDH(Op8, Op8),
    /// Push a 16-bit register onto the stack.
    PUSH(Op16),
    /// Pop a 16-bit register off the stack.
    POP(Op16),
    /// 8-bit add into register A.
    ADD(Op8, Op8),
    /// 16-bit add: a pair into HL, or a signed immediate into SP.
    ADD16(Op16, Op16),
    /// 8-bit add with carry into register A.
    ADC(Op8, Op8),
    /// Subtract from register A.
    SUB(Op8),
    /// Subtract with carry (borrow) from register A.
    SBC(Op8),
    /// Bitwise AND into register A.
    AND(Op8),
    /// Bitwise OR into register A.
    OR(Op8),
    /// Bitwise XOR into register A.
    XOR(Op8),
    /// Compare with register A: subtraction for flags only.
    CP(Op8),
    /// 8-bit increment.
    INC(Op8),
    /// 16-bit increment (no flags affected).
    INC16(Op16),
    /// 8-bit decrement.
    DEC(Op8),
    /// 16-bit decrement (no flags affected).
    DEC16(Op16),
    /// Rotate left circularly; the evicted bit enters carry and bit 0.
    RLC(Op8),
    /// Rotate left through the carry flag.
    RL(Op8),
    /// Rotate right circularly; the evicted bit enters carry and bit 7.
    RRC(Op8),
    /// Rotate right through the carry flag.
    RR(Op8),
    /// Shift left arithmetically; bit 0 becomes 0, bit 7 enters carry.
    SLA(Op8),
    /// Shift right arithmetically; bit 7 is preserved, bit 0 enters carry.
    SRA(Op8),
    /// Shift right logically; bit 7 becomes 0, bit 0 enters carry.
    SRL(Op8),
    /// Test the given bit of the operand (bit index 0 to 7).
    BIT(u8, Op8),
    /// Set the given bit of the operand (bit index 0 to 7).
    SET(u8, Op8),
    /// Reset the given bit of the operand (bit index 0 to 7).
    RES(u8, Op8),
}

/// The explicit outcome of decoding a byte that no table rule covers:
/// never a silent default and never an implicit no-operation.
#[derive(Clone, Copy, Debug, PartialEq, Eq, Structural)]
pub struct IllegalOpcode {
    /// The offending byte.
    pub opcode: u8,
    /// Whether the byte was read from the escape-prefixed table.
    pub prefixed: bool,
}

/// An 8-bit source operand of an arithmetic or logic instruction: one of
/// the registers, the immediate byte, or the byte at address HL.
pub open spec fn alu_src_ok(op: Op8) -> bool {
    op matches Op8::Reg(_) || op == Op8::N || op == Op8::AddrHL
}

/// An operand of a prefixed rotate, shift or bit instruction: one of the
/// registers or the byte at address HL.
pub open spec fn rmw_operand_ok(op: Op8) -> bool {
    op matches Op8::Reg(_) || op == Op8::AddrHL
}

/// An 8-bit load destination: anything but the immediate byte.
pub open spec fn ld_dst_ok(op: Op8) -> bool {
    op != Op8::N
}

/// The operand shapes that the two decode tables can produce for each
/// instruction, together with which table the instruction may come from.
/// The execution step relies on these shapes; a register or pair code
/// outside them can never be cut out of an opcode byte.
pub open spec fn instr_wf(i: Instr, prefixed: bool) -> bool {
    match i {
        Instr::NOP => !prefixed,
        Instr::DAA => !prefixed,
        Instr::CPL => !prefixed,
        Instr::CCF => !prefixed,
        Instr::SCF => !prefixed,
        Instr::HALT => !prefixed,
        Instr::STOP => !prefixed,
        Instr::DI => !prefixed,
        Instr::EI => !prefixed,
        Instr::LD(o1, _o2) => !prefixed && ld_dst_ok(o1),
        Instr::LDH(o1, _o2) => !prefixed && ld_dst_ok(o1),
        Instr::LD16(o1, o2) => !prefixed && (o1 matches Op16::Reg(_) || o1 == Op16::AddrNN)
            && (o2 matches Op16::Reg(_) || o2 == Op16::NN),
        Instr::PUSH(o) => !prefixed && o matches Op16::Reg(_),
        Instr::POP(o) => !prefixed && o matches Op16::Reg(_),
        Instr::ADD(o1, o2) => !prefixed && o1 == Op8::Reg(Reg8::A) && alu_src_ok(o2),
        Instr::ADC(o1, o2) => !prefixed && o1 == Op8::Reg(Reg8::A) && alu_src_ok(o2),
        Instr::ADD16(o1, o2) => !prefixed && ((o1 == Op16::Reg(Reg16::HL)
            && o2 matches Op16::Reg(_)) || (o1 == Op16::Reg(Reg16::SP) && o2 == Op16::N)),
        Instr::SUB(o) => !prefixed && alu_src_ok(o),
        Instr::SBC(o) => !prefixed && alu_src_ok(o),
        Instr::AND(o) => !prefixed && alu_src_ok(o),
        Instr::OR(o) => !prefixed && alu_src_ok(o),
        Instr::XOR(o) => !prefixed && alu_src_ok(o),
        Instr::CP(o) => !prefixed && alu_src_ok(o),
        Instr::INC(o) => !prefixed && rmw_operand_ok(o),
        Instr::DEC(o) => !prefixed && rmw_operand_ok(o),
        Instr::INC16(o) => !prefixed && o matches Op16::Reg(_),
        Instr::DEC16(o) => !prefixed && o matches Op16::Reg(_),
        Instr::RLC(o) => rmw_operand_ok(o) && (!prefixed ==> o == Op8::Reg(Reg8::A)),
        Instr::RL(o) => rmw_operand_ok(o) && (!prefixed ==> o == Op8::Reg(Reg8::A)),
        Instr::RRC(o) => rmw_operand_ok(o) && (!prefixed ==> o == Op8::Reg(Reg8::A)),
        Instr::RR(o) => rmw_operand_ok(o) && (!prefixed ==> o == Op8::Reg(Reg8::A)),
        Instr::SLA(o) => prefixed && rmw_operand_ok(o),
        Instr::SRA(o) => prefixed && rmw_operand_ok(o),
        Instr::SRL(o) => prefixed && rmw_operand_ok(o),
        Instr::BIT(b, o) => prefixed && b < 8 && rmw_operand_ok(o),
        Instr::SET(b, o) => prefixed && b < 8 && rmw_operand_ok(o),
        Instr::RES(b, o) => prefixed && b < 8 && rmw_operand_ok(o),
    }
}

/// The fault surfaced by the stepped engine when the instruction stream
/// reaches an illegal opcode: the offending byte(s) and the address the
/// byte was fetched from. The embedder decides how to react; the core
/// only reports.
#[derive(Clone, Copy, Debug, PartialEq, Eq, Structural)]
pub struct Fault {
    /// The illegal byte and which table rejected it.
    pub illegal: IllegalOpcode,
    /// The address the offending byte was fetched from.
    pub pc: u16,
}

} // verus!
