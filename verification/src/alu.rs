//! Flag-accurate arithmetic, logic, shift, rotate and bit-operation
//! semantics. Every operation here is a pure function from operand
//! values (and, where the operation consults them, the incoming flags)
//! to a result and a fresh flags byte.
//!
//! The flags byte holds Z in bit 7, N in bit 6, H in bit 5 and C in
//! bit 4; its low four bits are always zero.

use vstd::prelude::*;

verus! {

/// The flags byte built from the four condition bits; bits 0 to 3 are zero.
pub open spec fn spec_flags_byte(z: bool, n: bool, h: bool, c: bool) -> u8 {
    ((if z {
        0x80int
    } else {
        0int
    }) + (if n {
        0x40int
    } else {
        0int
    }) + (if h {
        0x20int
    } else {
        0int
    }) + (if c {
        0x10int
    } else {
        0int
    })) as u8
}

/// Builds the flags byte from the four condition bits.
pub fn flags_byte(z: bool, n: bool, h: bool, c: bool) -> (f: u8)
    ensures
        f == spec_flags_byte(z, n, h, c),
{
    let fz: u8 = if z {
        0x80
    } else {
        0
    };
    let fn_: u8 = if n {
        0x40
    } else {
        0
    };
    let fh: u8 = if h {
        0x20
    } else {
        0
    };
    let fc: u8 = if c {
        0x10
    } else {
        0
    };
    fz + fn_ + fh + fc
}

/// The zero flag held in a flags byte (bit 7).
pub open spec fn spec_flag_z(f: u8) -> bool {
    f / 128 % 2 == 1
}

/// The subtract flag held in a flags byte (bit 6).
pub open spec fn spec_flag_n(f: u8) -> bool {
    f / 64 % 2 == 1
}

/// The half-carry flag held in a flags byte (bit 5).
pub open spec fn spec_flag_h(f: u8) -> bool {
    f / 32 % 2 == 1
}

/// The carry flag held in a flags byte (bit 4).
pub open spec fn spec_flag_c(f: u8) -> bool {
    f / 16 % 2 == 1
}

/// Reads the carry flag out of a flags byte.
pub fn flag_c_of(f: u8) -> (b: bool)
    ensures
        b == spec_flag_c(f),
{
    f / 16 % 2 == 1
}

/// Result of an 8-bit addition, with optional carry in.
pub open spec fn spec_add8_r(a: u8, b: u8, cin: bool) -> u8 {
    ((a + b + (if cin {
        1int
    } else {
        0int
    })) % 256) as u8
}

/// Flags of an 8-bit addition: Z from the result, N clear, H on carry out
/// of bit 3, C on carry out of bit 7.
pub open spec fn spec_add8_flags(a: u8, b: u8, cin: bool) -> u8 {
    let ci: int = if cin {
        1
    } else {
        0
    };
    spec_flags_byte(
        spec_add8_r(a, b, cin) == 0,
        false,
        a % 16 + b % 16 + ci > 15,
        a + b + ci > 255,
    )
}

/// 8-bit add (ADD/ADC): returns the result and the fresh flags byte.
pub fn alu_add8(a: u8, b: u8, cin: bool) -> (rf: (u8, u8))
    ensures
        rf.0 == spec_add8_r(a, b, cin),
        rf.1 == spec_add8_flags(a, b, cin),
{
    let ci: u16 = if cin {
        1
    } else {
        0
    };
    let sum: u16 = a as u16 + b as u16 + ci;
    let r: u8 = (sum % 256) as u8;
    let h: bool = a % 16 + b % 16 + (ci as u8) > 15;
    let f = flags_byte(r == 0, false, h, sum > 255);
    (r, f)
}

/// Result of an 8-bit subtraction, with optional borrow in.
pub open spec fn spec_sub8_r(a: u8, b: u8, bin: bool) -> u8 {
    ((256 + a - b - (if bin {
        1int
    } else {
        0int
    })) % 256) as u8
}

/// Flags of an 8-bit subtraction: Z from the result, N set, H on borrow
/// from bit 4, C when the subtrahend (plus borrow) exceeds the minuend.
pub open spec fn spec_sub8_flags(a: u8, b: u8, bin: bool) -> u8 {
    let bi: int = if bin {
        1
    } else {
        0
    };
    spec_flags_byte(
        spec_sub8_r(a, b, bin) == 0,
        true,
        b % 16 + bi > a % 16,
        b + bi > a,
    )
}

/// 8-bit subtract (SUB/SBC, and CP for flags only): returns the result
/// and the fresh flags byte.
pub fn alu_sub8(a: u8, b: u8, bin: bool) -> (rf: (u8, u8))
    ensures
        rf.0 == spec_sub8_r(a, b, bin),
        rf.1 == spec_sub8_flags(a, b, bin),
{
    let bi: u16 = if bin {
        1
    } else {
        0
    };
    let r: u8 = ((256 + a as u16 - b as u16 - bi) % 256) as u8;
    let h: bool = b % 16 + (bi as u8) > a % 16;
    let c: bool = b as u16 + bi > a as u16;
    let f = flags_byte(r == 0, true, h, c);
    (r, f)
}

/// Flags of a bitwise AND: Z from the result, N clear, H set, C clear.
pub open spec fn spec_and8_flags(a: u8, b: u8) -> u8 {
    spec_flags_byte((a & b) == 0, false, true, false)
}

/// Bitwise AND into the accumulator.
pub fn alu_and8(a: u8, b: u8) -> (rf: (u8, u8))
    ensures
        rf.0 == (a & b),
        rf.1 == spec_and8_flags(a, b),
{
    let r = a & b;
    let f = flags_byte(r == 0, false, true, false);
    (r, f)
}

/// Flags of a bitwise OR or XOR: Z from the result, N, H and C clear.
pub open spec fn spec_orx8_flags(r: u8) -> u8 {
    spec_flags_byte(r == 0, false, false, false)
}

/// Bitwise OR into the accumulator.
pub fn alu_or8(a: u8, b: u8) -> (rf: (u8, u8))
    ensures
        rf.0 == (a | b),
        rf.1 == spec_orx8_flags(a | b),
{
    let r = a | b;
    let f = flags_byte(r == 0, false, false, false);
    (r, f)
}

/// Bitwise XOR into the accumulator.
pub fn alu_xor8(a: u8, b: u8) -> (rf: (u8, u8))
    ensures
        rf.0 == (a ^ b),
        rf.1 == spec_orx8_flags(a ^ b),
{
    let r = a ^ b;
    let f = flags_byte(r == 0, false, false, false);
    (r, f)
}

/// Result of an 8-bit increment.
pub open spec fn spec_inc8_r(v: u8) -> u8 {
    ((v + 1) % 256) as u8
}

/// Flags of an 8-bit increment: Z from the result, N clear, H on carry
/// out of bit 3, C unchanged from the incoming flags.
pub open spec fn spec_inc8_flags(v: u8, f: u8) -> u8 {
    spec_flags_byte(spec_inc8_r(v) == 0, false, v % 16 == 15, spec_flag_c(f))
}

/// 8-bit increment; the carry flag of `f` is carried through.
pub fn alu_inc8(v: u8, f: u8) -> (rf: (u8, u8))
    ensures
        rf.0 == spec_inc8_r(v),
        rf.1 == spec_inc8_flags(v, f),
{
    let r: u8 = ((v as u16 + 1) % 256) as u8;
    let nf = flags_byte(r == 0, false, v % 16 == 15, flag_c_of(f));
    (r, nf)
}

/// Result of an 8-bit decrement.
pub open spec fn spec_dec8_r(v: u8) -> u8 {
    ((v + 255) % 256) as u8
}

/// Flags of an 8-bit decrement: Z from the result, N set, H on borrow
/// from bit 4, C unchanged from the incoming flags.
pub open spec fn spec_dec8_flags(v: u8, f: u8) -> u8 {
    spec_flags_byte(spec_dec8_r(v) == 0, true, v % 16 == 0, spec_flag_c(f))
}

/// 8-bit decrement; the carry flag of `f` is carried through.
pub fn alu_dec8(v: u8, f: u8) -> (rf: (u8, u8))
    ensures
        rf.0 == spec_dec8_r(v),
        rf.1 == spec_dec8_flags(v, f),
{
    let r: u8 = ((v as u16 + 255) % 256) as u8;
    let nf = flags_byte(r == 0, true, v % 16 == 0, flag_c_of(f));
    (r, nf)
}

/// Rotate left circularly: bit 7 moves into carry and into bit 0.
pub open spec fn spec_rlc_r(v: u8) -> u8 {
    (v * 2 % 256 + v / 128) as u8
}

/// The bit evicted by a left rotate or shift.
pub open spec fn spec_high_bit(v: u8) -> bool {
    v / 128 == 1
}

/// Rotate left circularly: returns the rotated byte and the carry out.
pub fn alu_rlc8(v: u8) -> (rc: (u8, bool))
    ensures
        rc.0 == spec_rlc_r(v),
        rc.1 == spec_high_bit(v),
{
    let r: u8 = ((v as u16 * 2) % 256 + v as u16 / 128) as u8;
    (r, v / 128 == 1)
}

/// Rotate left through carry: the old carry enters bit 0, bit 7 leaves
/// into carry.
pub open spec fn spec_rl_r(v: u8, cin: bool) -> u8 {
    (v * 2 % 256 + (if cin {
        1int
    } else {
        0int
    })) as u8
}

/// Rotate left through carry.
pub fn alu_rl8(v: u8, cin: bool) -> (rc: (u8, bool))
    ensures
        rc.0 == spec_rl_r(v, cin),
        rc.1 == spec_high_bit(v),
{
    let ci: u16 = if cin {
        1
    } else {
        0
    };
    let r: u8 = ((v as u16 * 2) % 256 + ci) as u8;
    (r, v / 128 == 1)
}

/// Rotate right circularly: bit 0 moves into carry and into bit 7.
pub open spec fn spec_rrc_r(v: u8) -> u8 {
    (v / 2 + v % 2 * 128) as u8
}

/// The bit evicted by a right rotate or shift.
pub open spec fn spec_low_bit(v: u8) -> bool {
    v % 2 == 1
}

/// Rotate right circularly.
pub fn alu_rrc8(v: u8) -> (rc: (u8, bool))
    ensures
        rc.0 == spec_rrc_r(v),
        rc.1 == spec_low_bit(v),
{
    (v / 2 + v % 2 * 128, v % 2 == 1)
}

/// Rotate right through carry: the old carry enters bit 7, bit 0 leaves
/// into carry.
pub open spec fn spec_rr_r(v: u8, cin: bool) -> u8 {
    (v / 2 + (if cin {
        128int
    } else {
        0int
    })) as u8
}

/// Rotate right through carry.
pub fn alu_rr8(v: u8, cin: bool) -> (rc: (u8, bool))
    ensures
        rc.0 == spec_rr_r(v, cin),
        rc.1 == spec_low_bit(v),
{
    let hi: u8 = if cin {
        128
    } else {
        0
    };
    (v / 2 + hi, v % 2 == 1)
}

/// Shift left arithmetically: bit 0 becomes 0, bit 7 leaves into carry.
pub open spec fn spec_sla_r(v: u8) -> u8 {
    (v * 2 % 256) as u8
}

/// Shift left arithmetically.
pub fn alu_sla8(v: u8) -> (rc: (u8, bool))
    ensures
        rc.0 == spec_sla_r(v),
        rc.1 == spec_high_bit(v),
{
    let r: u8 = ((v as u16 * 2) % 256) as u8;
    (r, v / 128 == 1)
}

/// Shift right arithmetically: bit 7 is copied back into place, bit 0
/// leaves into carry.
pub open spec fn spec_sra_r(v: u8) -> u8 {
    (v / 2 + v / 128 * 128) as u8
}

/// Shift right arithmetically.
pub fn alu_sra8(v: u8) -> (rc: (u8, bool))
    ensures
        rc.0 == spec_sra_r(v),
        rc.1 == spec_low_bit(v),
{
    (v / 2 + v / 128 * 128, v % 2 == 1)
}

/// Shift right logically: bit 7 becomes 0, bit 0 leaves into carry.
pub open spec fn spec_srl_r(v: u8) -> u8 {
    v / 2
}

/// Shift right logically.
pub fn alu_srl8(v: u8) -> (rc: (u8, bool))
    ensures
        rc.0 == spec_srl_r(v),
        rc.1 == spec_low_bit(v),
{
    (v / 2, v % 2 == 1)
}

/// Flags of a rotate or shift: Z as instructed by the caller (the
/// accumulator-only forms always clear it, the prefixed forms take it
/// from the result), N and H clear, C the evicted bit.
pub open spec fn spec_rot_flags(z: bool, cout: bool) -> u8 {
    spec_flags_byte(z, false, false, cout)
}

/// The single-bit mask for a bit index 0 to 7.
pub open spec fn spec_bit_mask(idx: u8) -> u8 {
    if idx == 0 {
        0x01
    } else if idx == 1 {
        0x02
    } else if idx == 2 {
        0x04
    } else if idx == 3 {
        0x08
    } else if idx == 4 {
        0x10
    } else if idx == 5 {
        0x20
    } else if idx == 6 {
        0x40
    } else {
        0x80
    }
}

/// The single-bit mask for a bit index 0 to 7.
pub fn bit_mask(idx: u8) -> (m: u8)
    requires
        idx < 8,
    ensures
        m == spec_bit_mask(idx),
{
    if idx == 0 {
        0x01
    } else if idx == 1 {
        0x02
    } else if idx == 2 {
        0x04
    } else if idx == 3 {
        0x08
    } else if idx == 4 {
        0x10
    } else if idx == 5 {
        0x20
    } else if idx == 6 {
        0x40
    } else {
        0x80
    }
}

/// Whether the given bit of a byte is set.
pub open spec fn spec_bit_test(v: u8, idx: u8) -> bool {
    v & spec_bit_mask(idx) != 0
}

/// Flags of BIT: Z says the tested bit is clear, N clear, H set,
/// C unchanged from the incoming flags.
pub open spec fn spec_bit_flags(v: u8, idx: u8, f: u8) -> u8 {
    spec_flags_byte(!spec_bit_test(v, idx), false, true, spec_flag_c(f))
}

/// Tests one bit (BIT): only the flags change; the operand is not mutated.
pub fn alu_bit8(v: u8, idx: u8, f: u8) -> (nf: u8)
    requires
        idx < 8,
    ensures
        nf == spec_bit_flags(v, idx, f),
{
    let set: bool = v & bit_mask(idx) != 0;
    flags_byte(!set, false, true, flag_c_of(f))
}

/// A byte with the given bit set (SET); no flags are affected.
pub open spec fn spec_set_bit(v: u8, idx: u8) -> u8 {
    v | spec_bit_mask(idx)
}

/// Sets one bit unconditionally.
pub fn alu_set8(v: u8, idx: u8) -> (r: u8)
    requires
        idx < 8,
    ensures
        r == spec_set_bit(v, idx),
{
    v | bit_mask(idx)
}

/// A byte with the given bit cleared (RES); no flags are affected.
pub open spec fn spec_res_bit(v: u8, idx: u8) -> u8 {
    v & !spec_bit_mask(idx)
}

/// Clears one bit unconditionally.
pub fn alu_res8(v: u8, idx: u8) -> (r: u8)
    requires
        idx < 8,
    ensures
        r == spec_res_bit(v, idx),
{
    v & !bit_mask(idx)
}

/// Decimal-adjust result: corrects the accumulator after BCD arithmetic.
/// The low correction 0x06 applies when the half-carry flag is set or, in
/// addition mode, when the low digit exceeds 9; the high correction 0x60
/// applies when the carry flag is set or, in addition mode, when the
/// accumulator exceeds the largest packed-BCD value 0x99. The correction
/// is added after an addition and subtracted after a subtraction.
pub open spec fn spec_daa_r(a: u8, f: u8) -> u8 {
    let n = spec_flag_n(f);
    let adj: int = (if spec_flag_h(f) || (!n && a % 16 > 9) {
        0x06int
    } else {
        0int
    }) + (if spec_flag_c(f) || (!n && a > 0x99) {
        0x60int
    } else {
        0int
    });
    if n {
        ((a + 256 - adj) % 256) as u8
    } else {
        ((a + adj) % 256) as u8
    }
}

/// Flags after decimal adjust: Z from the corrected accumulator, N kept,
/// H cleared, C set when the high correction was applied (and never
/// cleared after a subtraction).
pub open spec fn spec_daa_flags(a: u8, f: u8) -> u8 {
    let n = spec_flag_n(f);
    let c = spec_flag_c(f);
    spec_flags_byte(
        spec_daa_r(a, f) == 0,
        n,
        false,
        if n {
            c
        } else {
            c || a > 0x99
        },
    )
}

/// Decimal adjust (DAA): returns the corrected accumulator and flags.
pub fn alu_daa8(a: u8, f: u8) -> (rf: (u8, u8))
    ensures
        rf.0 == spec_daa_r(a, f),
        rf.1 == spec_daa_flags(a, f),
{
    let n: bool = f / 64 % 2 == 1;
    let h: bool = f / 32 % 2 == 1;
    let c: bool = flag_c_of(f);
    let adj_low: u16 = if h || (!n && a % 16 > 9) {
        0x06
    } else {
        0
    };
    let high: bool = c || (!n && a > 0x99);
    let adj: u16 = adj_low + (if high {
        0x60u16
    } else {
        0u16
    });
    let r: u8 = if n {
        ((a as u16 + 256 - adj) % 256) as u8
    } else {
        ((a as u16 + adj) % 256) as u8
    };
    let cout: bool = if n {
        c
    } else {
        high
    };
    let nf = flags_byte(r == 0, n, false, cout);
    (r, nf)
}

/// Result of the 16-bit add of a pair into HL.
pub open spec fn spec_add16_r(hl: u16, rr: u16) -> u16 {
    ((hl + rr) % 0x10000) as u16
}

/// Flags of the 16-bit add into HL: Z unchanged, N clear, H on carry out
/// of bit 11, C on carry out of bit 15.
pub open spec fn spec_add16_flags(hl: u16, rr: u16, f: u8) -> u8 {
    spec_flags_byte(
        spec_flag_z(f),
        false,
        hl % 0x1000 + rr % 0x1000 > 0xfff,
        hl + rr > 0xffff,
    )
}

/// 16-bit add of a pair into HL.
pub fn alu_add16(hl: u16, rr: u16, f: u8) -> (rf: (u16, u8))
    ensures
        rf.0 == spec_add16_r(hl, rr),
        rf.1 == spec_add16_flags(hl, rr, f),
{
    let sum: u32 = hl as u32 + rr as u32;
    let r: u16 = (sum % 0x10000) as u16;
    let z: bool = f / 128 % 2 == 1;
    let h: bool = hl % 0x1000 + rr % 0x1000 > 0xfff;
    let nf = flags_byte(z, false, h, sum > 0xffff);
    (r, nf)
}

/// Result of adding a signed 8-bit immediate to the stack pointer.
pub open spec fn spec_addsp_r(sp: u16, nb: u8) -> u16 {
    if nb < 0x80 {
        ((sp + nb) % 0x10000) as u16
    } else {
        ((sp + nb + 0xff00) % 0x10000) as u16
    }
}

/// Flags of the stack-pointer-relative add: Z and N clear, H and C from
/// the low-byte addition only.
pub open spec fn spec_addsp_flags(sp: u16, nb: u8) -> u8 {
    spec_flags_byte(false, false, sp % 16 + nb % 16 > 15, sp % 256 + nb > 255)
}

/// Adds a signed 8-bit immediate to the stack pointer.
pub fn alu_addsp16(sp: u16, nb: u8) -> (rf: (u16, u8))
    ensures
        rf.0 == spec_addsp_r(sp, nb),
        rf.1 == spec_addsp_flags(sp, nb),
{
    let ext: u32 = if nb >= 0x80 {
        0xff00
    } else {
        0
    };
    let r: u16 = ((sp as u32 + nb as u32 + ext) % 0x10000) as u16;
    let h: bool = sp % 16 + (nb % 16) as u16 > 15;
    let c: bool = sp % 256 + nb as u16 > 255;
    let nf = flags_byte(false, false, h, c);
    (r, nf)
}

} // verus!
