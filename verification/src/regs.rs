//! Register names and condition-flag names of the register file.

use vstd::prelude::*;

verus! {

/// The eight 8-bit register slots. `F` is the flags register.
#[derive(Clone, Copy, Debug, PartialEq, Eq, Hash, Structural)]
#[allow(non_camel_case_types)]
pub enum Reg8 {
    A,
    B,
    C,
    D,
    E,
    F,
    H,
    L,
}

/// The 3-bit register code used by the opcode tables.
/// Code 6 is not a register (it denotes the byte at address HL) and
/// code 6 therefore never reaches this mapping.
pub open spec fn spec_reg8_from_index(i: u8) -> Reg8 {
    if i == 0 {
        Reg8::B
    } else if i == 1 {
        Reg8::C
    } else if i == 2 {
        Reg8::D
    } else if i == 3 {
        Reg8::E
    } else if i == 4 {
        Reg8::H
    } else if i == 5 {
        Reg8::L
    } else {
        Reg8::A
    }
}

impl Reg8 {
    /// Maps a 3-bit register code to its register: 0 B, 1 C, 2 D, 3 E,
    /// 4 H, 5 L, 7 A. Code 6 denotes a memory operand and is excluded.
    pub fn from_index(i: u8) -> (r: Reg8)
        requires
            i < 8,
            i != 6,
        ensures
            r == spec_reg8_from_index(i),
    {
        if i == 0 {
            Reg8::B
        } else if i == 1 {
            Reg8::C
        } else if i == 2 {
            Reg8::D
        } else if i == 3 {
            Reg8::E
        } else if i == 4 {
            Reg8::H
        } else if i == 5 {
            Reg8::L
        } else {
            Reg8::A
        }
    }
}

/// The 16-bit register names: the two true 16-bit slots SP and PC, and the
/// three pairs BC, DE, HL composed from two 8-bit slots (high byte first).
#[derive(Clone, Copy, Debug, PartialEq, Eq, Hash, Structural)]
#[allow(non_camel_case_types)]
pub enum Reg16 {
    SP,
    PC,
    BC,
    DE,
    HL,
}

/// The 2-bit register-pair code used by the opcode tables:
/// 0 BC, 1 DE, 2 HL, 3 SP.
pub open spec fn spec_reg16_from_index(i: u8) -> Reg16 {
    if i == 0 {
        Reg16::BC
    } else if i == 1 {
        Reg16::DE
    } else if i == 2 {
        Reg16::HL
    } else {
        Reg16::SP
    }
}

impl Reg16 {
    /// Maps a 2-bit register-pair code to its 16-bit register.
    pub fn from_index(i: u8) -> (r: Reg16)
        requires
            i < 4,
        ensures
            r == spec_reg16_from_index(i),
    {
        if i == 0 {
            Reg16::BC
        } else if i == 1 {
            Reg16::DE
        } else if i == 2 {
            Reg16::HL
        } else {
            Reg16::SP
        }
    }
}

/// The four used condition-flag bits of the flags register F.
#[derive(Clone, Copy, Debug, PartialEq, Eq, Hash, Structural)]
#[allow(non_camel_case_types)]
pub enum Flag {
    /// Zero flag: the result of the last operation was 0 (bit 7).
    Z,
    /// Subtract flag: the last operation was a subtraction (bit 6).
    N,
    /// Half-carry flag: a carry out of the low nibble occurred (bit 5).
    H,
    /// Carry flag: a carry or borrow out of the full width occurred (bit 4).
    C,
}

/// The bit position of a flag inside the flags register F.
pub open spec fn spec_flag_bit(flag: Flag) -> u8 {
    match flag {
        Flag::Z => 7,
        Flag::N => 6,
        Flag::H => 5,
        Flag::C => 4,
    }
}

impl Flag {
    /// The bit position of this flag inside the flags register F.
    pub fn bit(&self) -> (b: u8)
        ensures
            b == spec_flag_bit(*self),
    {
        match self {
            Flag::Z => 7,
            Flag::N => 6,
            Flag::H => 5,
            Flag::C => 4,
        }
    }
}

} // verus!
