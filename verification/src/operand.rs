//! Addressing-mode descriptors shared by the 8-bit and 16-bit instruction
//! forms. An operand names where a value lives; it is resolved against the
//! register file and memory only at the moment of use.

use vstd::prelude::*;
use crate::regs::{spec_reg8_from_index, spec_reg16_from_index, Reg8, Reg16};

verus! {

/// 8-bit operand kinds.
#[derive(Clone, Copy, Debug, PartialEq, Eq, Structural)]
#[allow(non_camel_case_types)]
pub enum Op8 {
    /// One of the 8-bit registers.
    Reg(Reg8),
    /// The high-page address `0xFF00 + n`, with `n` the byte following the opcode.
    AddrN,
    /// The high-page address `0xFF00 + C`.
    AddrC,
    /// The direct 16-bit address following the opcode (low byte first).
    AddrNN,
    /// The address held in register pair BC.
    AddrBC,
    /// The address held in register pair DE.
    AddrDE,
    /// The address held in register pair HL.
    AddrHL,
    /// The address held in HL, with HL incremented after the access.
    AddrHLInc,
    /// The address held in HL, with HL decremented after the access.
    AddrHLDec,
    /// The immediate byte following the opcode.
    N,
}

/// 16-bit operand kinds.
#[derive(Clone, Copy, Debug, PartialEq, Eq, Structural)]
#[allow(non_camel_case_types)]
pub enum Op16 {
    /// One of the 16-bit registers (a pair, SP or PC).
    Reg(Reg16),
    /// The two-byte immediate following the opcode (low byte first).
    NN,
    /// The direct 16-bit address following the opcode, used as a store target.
    AddrNN,
    /// The immediate byte following the opcode, sign-extended (SP-relative add).
    N,
}

/// The 3-bit operand code: 6 denotes the byte at address HL, every other
/// code an 8-bit register.
pub open spec fn spec_operand8_from_index(i: u8) -> Op8 {
    if i == 6 {
        Op8::AddrHL
    } else {
        Op8::Reg(spec_reg8_from_index(i))
    }
}

/// Maps a 3-bit operand code to its 8-bit operand. Code 6 is the memory
/// operand at address HL, never a register.
pub fn operand8_from_index(i: u8) -> (op: Op8)
    requires
        i < 8,
    ensures
        op == spec_operand8_from_index(i),
{
    if i == 6 {
        return Op8::AddrHL;
    }
    Op8::Reg(Reg8::from_index(i))
}

/// The 2-bit operand code for 16-bit forms: always a 16-bit register.
pub open spec fn spec_operand16_from_index(i: u8) -> Op16 {
    Op16::Reg(spec_reg16_from_index(i))
}

/// Maps a 2-bit operand code to its 16-bit register operand.
pub fn operand16_from_index(i: u8) -> (op: Op16)
    requires
        i < 4,
    ensures
        op == spec_operand16_from_index(i),
{
    Op16::Reg(Reg16::from_index(i))
}

} // verus!
