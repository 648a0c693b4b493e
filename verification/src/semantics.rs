//! The mathematical model of instruction execution: for every instruction,
//! its complete effect on the core and on memory, and the sub-cycle on
//! which that effect lands. The cycle-stepped machine and every
//! instruction routine are specified against these functions, so one
//! spec-level step function describes the whole engine.

use vstd::prelude::*;
use crate::alu::{
    spec_add8_flags, spec_add8_r, spec_add16_flags, spec_add16_r, spec_addsp_flags, spec_addsp_r,
    spec_and8_flags, spec_bit_flags, spec_daa_flags, spec_daa_r, spec_dec8_flags, spec_dec8_r,
    spec_flag_c, spec_flag_z, spec_flags_byte, spec_high_bit, spec_inc8_flags, spec_inc8_r,
    spec_low_bit, spec_orx8_flags, spec_res_bit, spec_rl_r, spec_rlc_r, spec_rot_flags, spec_rr_r,
    spec_rrc_r, spec_set_bit, spec_sla_r, spec_sra_r, spec_srl_r, spec_sub8_flags, spec_sub8_r,
};
use crate::cpu::{spec_wdec16, spec_winc16, CPU, CPUState};
use crate::decode::{spec_decode_prefixed, spec_decode_unprefixed, PREFIX};
use crate::instr::{Fault, IllegalOpcode, Instr};
use crate::operand::{Op8, Op16};
use crate::regs::{Reg8, Reg16};

verus! {

/// A 16-bit value assembled from a low and a high byte.
pub open spec fn spec_le16(lo: u8, hi: u8) -> u16 {
    (hi * 256 + lo) as u16
}

/// Extra machine cycles needed to resolve an 8-bit operand: none for a
/// register, one for each immediate byte to consume, one for each memory
/// access.
pub open spec fn spec_op8_cycles(op: Op8) -> nat {
    match op {
        Op8::Reg(_) => 0,
        Op8::N => 1,
        Op8::AddrC => 1,
        Op8::AddrN => 2,
        Op8::AddrNN => 3,
        Op8::AddrBC => 1,
        Op8::AddrDE => 1,
        Op8::AddrHL => 1,
        Op8::AddrHLInc => 1,
        Op8::AddrHLDec => 1,
    }
}

/// The address an 8-bit memory operand denotes, resolved against the
/// current register file, memory and program counter.
pub open spec fn spec_ea8(cpu: CPU, mem: Seq<u8>, op: Op8) -> u16 {
    match op {
        Op8::AddrBC => cpu.spec_bc(),
        Op8::AddrDE => cpu.spec_de(),
        Op8::AddrHL => cpu.spec_hl(),
        Op8::AddrHLInc => cpu.spec_hl(),
        Op8::AddrHLDec => cpu.spec_hl(),
        Op8::AddrNN => spec_le16(mem[cpu.pc as int], mem[spec_winc16(cpu.pc) as int]),
        Op8::AddrN => (0xff00 + mem[cpu.pc as int]) as u16,
        Op8::AddrC => (0xff00 + cpu.c) as u16,
        Op8::Reg(_) => 0,
        Op8::N => 0,
    }
}

/// Whether an 8-bit operand denotes a memory location.
pub open spec fn spec_op8_is_mem(op: Op8) -> bool {
    match op {
        Op8::Reg(_) => false,
        Op8::N => false,
        _ => true,
    }
}

/// The value an 8-bit operand denotes: a register slot, the immediate
/// byte at PC, or the byte at the operand's address.
pub open spec fn spec_src8(cpu: CPU, mem: Seq<u8>, op: Op8) -> u8 {
    match op {
        Op8::Reg(r) => cpu.spec_reg8(r),
        Op8::N => mem[cpu.pc as int],
        _ => mem[spec_ea8(cpu, mem, op) as int],
    }
}

/// The core after an 8-bit operand has been consumed: the program counter
/// has moved past the operand's immediate bytes, and HL has been adjusted
/// for the auto-increment and auto-decrement modes.
pub open spec fn spec_after_op8(cpu: CPU, op: Op8) -> CPU {
    let cpu1 = match op {
        Op8::N => CPU { pc: spec_winc16(cpu.pc), ..cpu },
        Op8::AddrN => CPU { pc: spec_winc16(cpu.pc), ..cpu },
        Op8::AddrNN => CPU { pc: spec_winc16(spec_winc16(cpu.pc)), ..cpu },
        _ => cpu,
    };
    match op {
        Op8::AddrHLInc => cpu1.spec_with_reg16(Reg16::HL, spec_winc16(cpu1.spec_hl())),
        Op8::AddrHLDec => cpu1.spec_with_reg16(Reg16::HL, spec_wdec16(cpu1.spec_hl())),
        _ => cpu1,
    }
}

/// The complete effect of an 8-bit load: resolve the source, consume its
/// bytes, then store at the destination and consume its bytes.
pub open spec fn spec_apply_ld(cpu: CPU, mem: Seq<u8>, o1: Op8, o2: Op8) -> (CPU, Seq<u8>) {
    let v = spec_src8(cpu, mem, o2);
    let cpu1 = spec_after_op8(cpu, o2);
    match o1 {
        Op8::Reg(r) => (cpu1.spec_with_reg8(r, v), mem),
        _ => {
            let ea = spec_ea8(cpu1, mem, o1);
            (spec_after_op8(cpu1, o1), mem.update(ea as int, v))
        },
    }
}

/// Final sub-cycle of an 8-bit load: the sum of what its two operands
/// cost (a pure register-to-register move completes on the fetch cycle).
pub open spec fn spec_ld_done(o1: Op8, o2: Op8) -> nat {
    spec_op8_cycles(o2) + (match o1 {
        Op8::Reg(_) => 0nat,
        _ => spec_op8_cycles(o1),
    })
}

/// The value a 16-bit operand denotes: a 16-bit register or the two-byte
/// immediate at PC (low byte first).
pub open spec fn spec_src16(cpu: CPU, mem: Seq<u8>, op: Op16) -> u16 {
    match op {
        Op16::Reg(rr) => cpu.spec_reg16(rr),
        _ => spec_le16(mem[cpu.pc as int], mem[spec_winc16(cpu.pc) as int]),
    }
}

/// The core after a 16-bit operand has been consumed.
pub open spec fn spec_after_op16(cpu: CPU, op: Op16) -> CPU {
    match op {
        Op16::NN => CPU { pc: spec_winc16(spec_winc16(cpu.pc)), ..cpu },
        Op16::AddrNN => CPU { pc: spec_winc16(spec_winc16(cpu.pc)), ..cpu },
        _ => cpu,
    }
}

/// The complete effect of a 16-bit load: into a 16-bit register, or the
/// stack pointer stored little-endian at a direct address.
pub open spec fn spec_apply_ld16(cpu: CPU, mem: Seq<u8>, o1: Op16, o2: Op16) -> (CPU, Seq<u8>) {
    let v = spec_src16(cpu, mem, o2);
    let cpu1 = spec_after_op16(cpu, o2);
    match o1 {
        Op16::Reg(rr) => (cpu1.spec_with_reg16(rr, v), mem),
        _ => {
            let ea = spec_le16(mem[cpu1.pc as int], mem[spec_winc16(cpu1.pc) as int]);
            (
                spec_after_op16(cpu1, o1),
                mem.update(ea as int, (v % 256) as u8).update(
                    spec_winc16(ea) as int,
                    (v / 256) as u8,
                ),
            )
        },
    }
}

/// Final sub-cycle of a 16-bit load.
pub open spec fn spec_ld16_done(o1: Op16, o2: Op16) -> nat {
    if o1 == Op16::AddrNN {
        4
    } else if o2 == Op16::NN {
        2
    } else {
        1
    }
}

/// The complete effect of PUSH: the high byte goes below the old stack
/// top, the low byte below that, and SP drops by two.
pub open spec fn spec_apply_push(cpu: CPU, mem: Seq<u8>, rr: Reg16) -> (CPU, Seq<u8>) {
    let v = cpu.spec_reg16(rr);
    let sp1 = spec_wdec16(cpu.sp);
    let sp2 = spec_wdec16(sp1);
    (
        CPU { sp: sp2, ..cpu },
        mem.update(sp1 as int, (v / 256) as u8).update(sp2 as int, (v % 256) as u8),
    )
}

/// The complete effect of POP: the low byte comes from the stack top, the
/// high byte above it, and SP rises by two.
pub open spec fn spec_apply_pop(cpu: CPU, mem: Seq<u8>, rr: Reg16) -> CPU {
    let lo = mem[cpu.sp as int];
    let hi = mem[spec_winc16(cpu.sp) as int];
    let cpu1 = CPU { sp: spec_winc16(spec_winc16(cpu.sp)), ..cpu };
    cpu1.spec_with_reg16(rr, spec_le16(lo, hi))
}

/// An accumulator operation: the source operand is consumed, the flags
/// are replaced, and the accumulator is replaced unless the operation is
/// a pure comparison.
pub open spec fn spec_apply_acc(cpu: CPU, op: Op8, r: u8, f: u8, store: bool) -> CPU {
    let cpu1 = spec_after_op8(cpu, op);
    if store {
        CPU { a: r, f, ..cpu1 }
    } else {
        CPU { f, ..cpu1 }
    }
}

/// The complete effect of ADD or ADC into the accumulator.
pub open spec fn spec_apply_add(cpu: CPU, mem: Seq<u8>, op: Op8, use_carry: bool) -> CPU {
    let v = spec_src8(cpu, mem, op);
    let cin = use_carry && spec_flag_c(cpu.f);
    spec_apply_acc(cpu, op, spec_add8_r(cpu.a, v, cin), spec_add8_flags(cpu.a, v, cin), true)
}

/// The complete effect of SUB or SBC from the accumulator, and of CP,
/// which computes the subtraction for flags only.
pub open spec fn spec_apply_sub(
    cpu: CPU,
    mem: Seq<u8>,
    op: Op8,
    use_carry: bool,
    store: bool,
) -> CPU {
    let v = spec_src8(cpu, mem, op);
    let bin = use_carry && spec_flag_c(cpu.f);
    spec_apply_acc(cpu, op, spec_sub8_r(cpu.a, v, bin), spec_sub8_flags(cpu.a, v, bin), store)
}

/// The complete effect of AND into the accumulator.
pub open spec fn spec_apply_and(cpu: CPU, mem: Seq<u8>, op: Op8) -> CPU {
    let v = spec_src8(cpu, mem, op);
    spec_apply_acc(cpu, op, cpu.a & v, spec_and8_flags(cpu.a, v), true)
}

/// The complete effect of OR into the accumulator.
pub open spec fn spec_apply_or(cpu: CPU, mem: Seq<u8>, op: Op8) -> CPU {
    let v = spec_src8(cpu, mem, op);
    spec_apply_acc(cpu, op, cpu.a | v, spec_orx8_flags(cpu.a | v), true)
}

/// The complete effect of XOR into the accumulator.
pub open spec fn spec_apply_xor(cpu: CPU, mem: Seq<u8>, op: Op8) -> CPU {
    let v = spec_src8(cpu, mem, op);
    spec_apply_acc(cpu, op, cpu.a ^ v, spec_orx8_flags(cpu.a ^ v), true)
}

/// The value of a read-modify-write operand: a register slot or the byte
/// at address HL.
pub open spec fn spec_rmw_val(cpu: CPU, mem: Seq<u8>, op: Op8) -> u8 {
    match op {
        Op8::Reg(r) => cpu.spec_reg8(r),
        _ => mem[cpu.spec_hl() as int],
    }
}

/// Writes a read-modify-write operand back and replaces the flags byte.
pub open spec fn spec_apply_rmw(cpu: CPU, mem: Seq<u8>, op: Op8, nv: u8, nf: u8) -> (
    CPU,
    Seq<u8>,
) {
    let cpu1 = CPU { f: nf, ..cpu };
    match op {
        Op8::Reg(r) => (cpu1.spec_with_reg8(r, nv), mem),
        _ => (cpu1, mem.update(cpu.spec_hl() as int, nv)),
    }
}

/// Final sub-cycle of a read-modify-write operation on a register or on
/// the byte at HL (a memory operand needs a read and a write cycle).
pub open spec fn spec_rmw_done(op: Op8) -> nat {
    match op {
        Op8::Reg(_) => 0,
        _ => 2,
    }
}

/// The complete effect of an 8-bit increment: carry flag untouched.
pub open spec fn spec_apply_inc(cpu: CPU, mem: Seq<u8>, op: Op8) -> (CPU, Seq<u8>) {
    let v = spec_rmw_val(cpu, mem, op);
    spec_apply_rmw(cpu, mem, op, spec_inc8_r(v), spec_inc8_flags(v, cpu.f))
}

/// The complete effect of an 8-bit decrement: carry flag untouched.
pub open spec fn spec_apply_dec(cpu: CPU, mem: Seq<u8>, op: Op8) -> (CPU, Seq<u8>) {
    let v = spec_rmw_val(cpu, mem, op);
    spec_apply_rmw(cpu, mem, op, spec_dec8_r(v), spec_dec8_flags(v, cpu.f))
}

/// Zero flag of a rotate or shift result: the accumulator-only forms
/// always clear it, the prefixed forms take it from the result.
pub open spec fn spec_rot_z(nv: u8, prefixed: bool) -> bool {
    prefixed && nv == 0
}

/// The complete effect of a rotate left circular.
pub open spec fn spec_apply_rlc(cpu: CPU, mem: Seq<u8>, op: Op8, prefixed: bool) -> (
    CPU,
    Seq<u8>,
) {
    let v = spec_rmw_val(cpu, mem, op);
    let nv = spec_rlc_r(v);
    spec_apply_rmw(cpu, mem, op, nv, spec_rot_flags(spec_rot_z(nv, prefixed), spec_high_bit(v)))
}

/// The complete effect of a rotate left through carry.
pub open spec fn spec_apply_rl(cpu: CPU, mem: Seq<u8>, op: Op8, prefixed: bool) -> (CPU, Seq<u8>) {
    let v = spec_rmw_val(cpu, mem, op);
    let nv = spec_rl_r(v, spec_flag_c(cpu.f));
    spec_apply_rmw(cpu, mem, op, nv, spec_rot_flags(spec_rot_z(nv, prefixed), spec_high_bit(v)))
}

/// The complete effect of a rotate right circular.
pub open spec fn spec_apply_rrc(cpu: CPU, mem: Seq<u8>, op: Op8, prefixed: bool) -> (
    CPU,
    Seq<u8>,
) {
    let v = spec_rmw_val(cpu, mem, op);
    let nv = spec_rrc_r(v);
    spec_apply_rmw(cpu, mem, op, nv, spec_rot_flags(spec_rot_z(nv, prefixed), spec_low_bit(v)))
}

/// The complete effect of a rotate right through carry.
pub open spec fn spec_apply_rr(cpu: CPU, mem: Seq<u8>, op: Op8, prefixed: bool) -> (CPU, Seq<u8>) {
    let v = spec_rmw_val(cpu, mem, op);
    let nv = spec_rr_r(v, spec_flag_c(cpu.f));
    spec_apply_rmw(cpu, mem, op, nv, spec_rot_flags(spec_rot_z(nv, prefixed), spec_low_bit(v)))
}

/// The complete effect of a shift left arithmetic (prefixed only).
pub open spec fn spec_apply_sla(cpu: CPU, mem: Seq<u8>, op: Op8) -> (CPU, Seq<u8>) {
    let v = spec_rmw_val(cpu, mem, op);
    let nv = spec_sla_r(v);
    spec_apply_rmw(cpu, mem, op, nv, spec_rot_flags(nv == 0, spec_high_bit(v)))
}

/// The complete effect of a shift right arithmetic (prefixed only).
pub open spec fn spec_apply_sra(cpu: CPU, mem: Seq<u8>, op: Op8) -> (CPU, Seq<u8>) {
    let v = spec_rmw_val(cpu, mem, op);
    let nv = spec_sra_r(v);
    spec_apply_rmw(cpu, mem, op, nv, spec_rot_flags(nv == 0, spec_low_bit(v)))
}

/// The complete effect of a shift right logical (prefixed only).
pub open spec fn spec_apply_srl(cpu: CPU, mem: Seq<u8>, op: Op8) -> (CPU, Seq<u8>) {
    let v = spec_rmw_val(cpu, mem, op);
    let nv = spec_srl_r(v);
    spec_apply_rmw(cpu, mem, op, nv, spec_rot_flags(nv == 0, spec_low_bit(v)))
}

/// The complete effect of BIT: flags only, the operand is not mutated and
/// the carry flag is untouched.
pub open spec fn spec_apply_bit(cpu: CPU, mem: Seq<u8>, idx: u8, op: Op8) -> CPU {
    CPU { f: spec_bit_flags(spec_rmw_val(cpu, mem, op), idx, cpu.f), ..cpu }
}

/// Final sub-cycle of BIT: one read cycle for the memory operand.
pub open spec fn spec_bit_done(op: Op8) -> nat {
    match op {
        Op8::Reg(_) => 0,
        _ => 1,
    }
}

/// The complete effect of SET: the bit is set, no flags are affected.
pub open spec fn spec_apply_set(cpu: CPU, mem: Seq<u8>, idx: u8, op: Op8) -> (CPU, Seq<u8>) {
    spec_apply_rmw(cpu, mem, op, spec_set_bit(spec_rmw_val(cpu, mem, op), idx), cpu.f)
}

/// The complete effect of RES: the bit is cleared, no flags are affected.
pub open spec fn spec_apply_res(cpu: CPU, mem: Seq<u8>, idx: u8, op: Op8) -> (CPU, Seq<u8>) {
    spec_apply_rmw(cpu, mem, op, spec_res_bit(spec_rmw_val(cpu, mem, op), idx), cpu.f)
}

/// The complete effect of ADD16: a pair into HL (Z untouched), or the
/// signed immediate into SP (Z cleared, H and C from the low byte).
pub open spec fn spec_apply_add16(cpu: CPU, mem: Seq<u8>, o2: Op16) -> CPU {
    match o2 {
        Op16::Reg(rr) => {
            let hl = cpu.spec_hl();
            let v = cpu.spec_reg16(rr);
            CPU {
                f: spec_add16_flags(hl, v, cpu.f),
                ..cpu.spec_with_reg16(Reg16::HL, spec_add16_r(hl, v))
            }
        },
        _ => {
            let nb = mem[cpu.pc as int];
            CPU {
                pc: spec_winc16(cpu.pc),
                sp: spec_addsp_r(cpu.sp, nb),
                f: spec_addsp_flags(cpu.sp, nb),
                ..cpu
            }
        },
    }
}

/// Final sub-cycle of ADD16.
pub open spec fn spec_add16_done(o2: Op16) -> nat {
    match o2 {
        Op16::N => 3,
        _ => 1,
    }
}

/// The complete effect of a 16-bit increment: no flags affected.
pub open spec fn spec_apply_inc16(cpu: CPU, rr: Reg16) -> CPU {
    cpu.spec_with_reg16(rr, spec_winc16(cpu.spec_reg16(rr)))
}

/// The complete effect of a 16-bit decrement: no flags affected.
pub open spec fn spec_apply_dec16(cpu: CPU, rr: Reg16) -> CPU {
    cpu.spec_with_reg16(rr, spec_wdec16(cpu.spec_reg16(rr)))
}

/// The complete effect of DAA.
pub open spec fn spec_apply_daa(cpu: CPU) -> CPU {
    CPU { a: spec_daa_r(cpu.a, cpu.f), f: spec_daa_flags(cpu.a, cpu.f), ..cpu }
}

/// The complete effect of CPL: A is complemented, N and H are set, Z and
/// C are untouched.
pub open spec fn spec_apply_cpl(cpu: CPU) -> CPU {
    CPU {
        a: !cpu.a,
        f: spec_flags_byte(spec_flag_z(cpu.f), true, true, spec_flag_c(cpu.f)),
        ..cpu
    }
}

/// The complete effect of CCF: the carry flag is complemented, N and H
/// are cleared, Z is untouched.
pub open spec fn spec_apply_ccf(cpu: CPU) -> CPU {
    CPU { f: spec_flags_byte(spec_flag_z(cpu.f), false, false, !spec_flag_c(cpu.f)), ..cpu }
}

/// The complete effect of SCF: the carry flag is set, N and H are
/// cleared, Z is untouched.
pub open spec fn spec_apply_scf(cpu: CPU) -> CPU {
    CPU { f: spec_flags_byte(spec_flag_z(cpu.f), false, false, true), ..cpu }
}

/// The register-pair operand of a 16-bit instruction (always a register
/// by well-formedness).
pub open spec fn spec_op16_reg(op: Op16) -> Reg16 {
    match op {
        Op16::Reg(rr) => rr,
        _ => Reg16::SP,
    }
}

/// The sub-cycle on which an instruction's effect lands, counted from the
/// cycle its opcode byte was fetched on. Instructions from the prefixed
/// table spent one extra machine cycle on the escape byte before this
/// count begins.
pub open spec fn spec_done_at(i: Instr, prefixed: bool) -> nat {
    match i {
        Instr::NOP => 0,
        Instr::DAA => 0,
        Instr::CPL => 0,
        Instr::CCF => 0,
        Instr::SCF => 0,
        Instr::HALT => 0,
        Instr::STOP => 0,
        Instr::DI => 0,
        Instr::EI => 0,
        Instr::LD(o1, o2) => spec_ld_done(o1, o2),
        Instr::LDH(o1, o2) => spec_ld_done(o1, o2),
        Instr::LD16(o1, o2) => spec_ld16_done(o1, o2),
        Instr::PUSH(_) => 3,
        Instr::POP(_) => 2,
        Instr::ADD(_, o2) => spec_op8_cycles(o2),
        Instr::ADC(_, o2) => spec_op8_cycles(o2),
        Instr::ADD16(_, o2) => spec_add16_done(o2),
        Instr::SUB(o) => spec_op8_cycles(o),
        Instr::SBC(o) => spec_op8_cycles(o),
        Instr::AND(o) => spec_op8_cycles(o),
        Instr::OR(o) => spec_op8_cycles(o),
        Instr::XOR(o) => spec_op8_cycles(o),
        Instr::CP(o) => spec_op8_cycles(o),
        Instr::INC(o) => spec_rmw_done(o),
        Instr::DEC(o) => spec_rmw_done(o),
        Instr::INC16(_) => 1,
        Instr::DEC16(_) => 1,
        Instr::RLC(o) => if prefixed {
            spec_rmw_done(o)
        } else {
            0
        },
        Instr::RL(o) => if prefixed {
            spec_rmw_done(o)
        } else {
            0
        },
        Instr::RRC(o) => if prefixed {
            spec_rmw_done(o)
        } else {
            0
        },
        Instr::RR(o) => if prefixed {
            spec_rmw_done(o)
        } else {
            0
        },
        Instr::SLA(o) => spec_rmw_done(o),
        Instr::SRA(o) => spec_rmw_done(o),
        Instr::SRL(o) => spec_rmw_done(o),
        Instr::BIT(_, o) => spec_bit_done(o),
        Instr::SET(_, o) => spec_rmw_done(o),
        Instr::RES(_, o) => spec_rmw_done(o),
    }
}

/// The complete effect of one instruction on the core and on memory,
/// applied on its final sub-cycle. HALT and STOP move the engine state;
/// every other instruction leaves the engine state to the machine.
#[verifier::opaque]
pub open spec fn spec_apply_instr(cpu: CPU, mem: Seq<u8>, i: Instr, prefixed: bool) -> (
    CPU,
    Seq<u8>,
) {
    match i {
        Instr::NOP => (cpu, mem),
        Instr::DAA => (spec_apply_daa(cpu), mem),
        Instr::CPL => (spec_apply_cpl(cpu), mem),
        Instr::CCF => (spec_apply_ccf(cpu), mem),
        Instr::SCF => (spec_apply_scf(cpu), mem),
        Instr::HALT => (CPU { state: CPUState::Halted, ..cpu }, mem),
        Instr::STOP => (CPU { state: CPUState::Stopped, ..cpu }, mem),
        Instr::DI => (CPU { interrupt_master_enable: false, ..cpu }, mem),
        Instr::EI => (CPU { interrupt_master_enable: true, ..cpu }, mem),
        Instr::LD(o1, o2) => spec_apply_ld(cpu, mem, o1, o2),
        Instr::LDH(o1, o2) => spec_apply_ld(cpu, mem, o1, o2),
        Instr::LD16(o1, o2) => spec_apply_ld16(cpu, mem, o1, o2),
        Instr::PUSH(o) => spec_apply_push(cpu, mem, spec_op16_reg(o)),
        Instr::POP(o) => (spec_apply_pop(cpu, mem, spec_op16_reg(o)), mem),
        Instr::ADD(_, o2) => (spec_apply_add(cpu, mem, o2, false), mem),
        Instr::ADC(_, o2) => (spec_apply_add(cpu, mem, o2, true), mem),
        Instr::ADD16(_, o2) => (spec_apply_add16(cpu, mem, o2), mem),
        Instr::SUB(o) => (spec_apply_sub(cpu, mem, o, false, true), mem),
        Instr::SBC(o) => (spec_apply_sub(cpu, mem, o, true, true), mem),
        Instr::AND(o) => (spec_apply_and(cpu, mem, o), mem),
        Instr::OR(o) => (spec_apply_or(cpu, mem, o), mem),
        Instr::XOR(o) => (spec_apply_xor(cpu, mem, o), mem),
        Instr::CP(o) => (spec_apply_sub(cpu, mem, o, false, false), mem),
        Instr::INC(o) => spec_apply_inc(cpu, mem, o),
        Instr::DEC(o) => spec_apply_dec(cpu, mem, o),
        Instr::INC16(o) => (spec_apply_inc16(cpu, spec_op16_reg(o)), mem),
        Instr::DEC16(o) => (spec_apply_dec16(cpu, spec_op16_reg(o)), mem),
        Instr::RLC(o) => spec_apply_rlc(cpu, mem, o, prefixed),
        Instr::RL(o) => spec_apply_rl(cpu, mem, o, prefixed),
        Instr::RRC(o) => spec_apply_rrc(cpu, mem, o, prefixed),
        Instr::RR(o) => spec_apply_rr(cpu, mem, o, prefixed),
        Instr::SLA(o) => spec_apply_sla(cpu, mem, o),
        Instr::SRA(o) => spec_apply_sra(cpu, mem, o),
        Instr::SRL(o) => spec_apply_srl(cpu, mem, o),
        Instr::BIT(b, o) => (spec_apply_bit(cpu, mem, b, o), mem),
        Instr::SET(b, o) => spec_apply_set(cpu, mem, b, o),
        Instr::RES(b, o) => spec_apply_res(cpu, mem, b, o),
    }
}

/// The control and move instructions leave the cycle counter alone.
#[verifier::rlimit(100)]
proof fn lemma_keeps_cycle_misc(cpu: CPU, mem: Seq<u8>, i: Instr, prefixed: bool)
    requires
        matches!(i, Instr::NOP | Instr::DAA | Instr::CPL | Instr::CCF | Instr::SCF | Instr::HALT
            | Instr::STOP | Instr::DI | Instr::EI),
    ensures
        spec_apply_instr(cpu, mem, i, prefixed).0.cycle == cpu.cycle,
{
    reveal(spec_apply_instr);
}

/// The load instructions leave the cycle counter alone.
#[verifier::rlimit(100)]
proof fn lemma_keeps_cycle_ld(cpu: CPU, mem: Seq<u8>, i: Instr, prefixed: bool)
    requires
        matches!(i, Instr::LD(_, _) | Instr::LDH(_, _) | Instr::LD16(_, _)),
    ensures
        spec_apply_instr(cpu, mem, i, prefixed).0.cycle == cpu.cycle,
{
    reveal(spec_apply_instr);
}

/// The accumulator, 16-bit arithmetic and stack instructions leave the
/// cycle counter alone.
#[verifier::rlimit(100)]
proof fn lemma_keeps_cycle_arith(cpu: CPU, mem: Seq<u8>, i: Instr, prefixed: bool)
    requires
        matches!(i, Instr::ADD(_, _) | Instr::ADC(_, _) | Instr::ADD16(_, _) | Instr::SUB(_)
            | Instr::SBC(_) | Instr::AND(_) | Instr::OR(_) | Instr::XOR(_) | Instr::CP(_)
            | Instr::PUSH(_) | Instr::POP(_) | Instr::INC16(_) | Instr::DEC16(_)),
    ensures
        spec_apply_instr(cpu, mem, i, prefixed).0.cycle == cpu.cycle,
{
    reveal(spec_apply_instr);
}

/// The read-modify-write instructions leave the cycle counter alone.
#[verifier::rlimit(100)]
proof fn lemma_keeps_cycle_rmw(cpu: CPU, mem: Seq<u8>, i: Instr, prefixed: bool)
    requires
        matches!(i, Instr::INC(_) | Instr::DEC(_) | Instr::RLC(_) | Instr::RL(_) | Instr::RRC(_)
            | Instr::RR(_) | Instr::SLA(_) | Instr::SRA(_) | Instr::SRL(_) | Instr::BIT(_, _)
            | Instr::SET(_, _) | Instr::RES(_, _)),
    ensures
        spec_apply_instr(cpu, mem, i, prefixed).0.cycle == cpu.cycle,
{
    reveal(spec_apply_instr);
}

/// Executing an instruction's effect never touches the machine-cycle
/// counter: only the stepped machine advances it.
pub proof fn lemma_apply_instr_keeps_cycle(cpu: CPU, mem: Seq<u8>, i: Instr, prefixed: bool)
    ensures
        spec_apply_instr(cpu, mem, i, prefixed).0.cycle == cpu.cycle,
{
    match i {
        Instr::NOP => lemma_keeps_cycle_misc(cpu, mem, i, prefixed),
        Instr::DAA => lemma_keeps_cycle_misc(cpu, mem, i, prefixed),
        Instr::CPL => lemma_keeps_cycle_misc(cpu, mem, i, prefixed),
        Instr::CCF => lemma_keeps_cycle_misc(cpu, mem, i, prefixed),
        Instr::SCF => lemma_keeps_cycle_misc(cpu, mem, i, prefixed),
        Instr::HALT => lemma_keeps_cycle_misc(cpu, mem, i, prefixed),
        Instr::STOP => lemma_keeps_cycle_misc(cpu, mem, i, prefixed),
        Instr::DI => lemma_keeps_cycle_misc(cpu, mem, i, prefixed),
        Instr::EI => lemma_keeps_cycle_misc(cpu, mem, i, prefixed),
        Instr::LD(_, _) => lemma_keeps_cycle_ld(cpu, mem, i, prefixed),
        Instr::LDH(_, _) => lemma_keeps_cycle_ld(cpu, mem, i, prefixed),
        Instr::LD16(_, _) => lemma_keeps_cycle_ld(cpu, mem, i, prefixed),
        Instr::ADD(_, _) => lemma_keeps_cycle_arith(cpu, mem, i, prefixed),
        Instr::ADC(_, _) => lemma_keeps_cycle_arith(cpu, mem, i, prefixed),
        Instr::ADD16(_, _) => lemma_keeps_cycle_arith(cpu, mem, i, prefixed),
        Instr::SUB(_) => lemma_keeps_cycle_arith(cpu, mem, i, prefixed),
        Instr::SBC(_) => lemma_keeps_cycle_arith(cpu, mem, i, prefixed),
        Instr::AND(_) => lemma_keeps_cycle_arith(cpu, mem, i, prefixed),
        Instr::OR(_) => lemma_keeps_cycle_arith(cpu, mem, i, prefixed),
        Instr::XOR(_) => lemma_keeps_cycle_arith(cpu, mem, i, prefixed),
        Instr::CP(_) => lemma_keeps_cycle_arith(cpu, mem, i, prefixed),
        Instr::PUSH(_) => lemma_keeps_cycle_arith(cpu, mem, i, prefixed),
        Instr::POP(_) => lemma_keeps_cycle_arith(cpu, mem, i, prefixed),
        Instr::INC16(_) => lemma_keeps_cycle_arith(cpu, mem, i, prefixed),
        Instr::DEC16(_) => lemma_keeps_cycle_arith(cpu, mem, i, prefixed),
        Instr::INC(_) => lemma_keeps_cycle_rmw(cpu, mem, i, prefixed),
        Instr::DEC(_) => lemma_keeps_cycle_rmw(cpu, mem, i, prefixed),
        Instr::RLC(_) => lemma_keeps_cycle_rmw(cpu, mem, i, prefixed),
        Instr::RL(_) => lemma_keeps_cycle_rmw(cpu, mem, i, prefixed),
        Instr::RRC(_) => lemma_keeps_cycle_rmw(cpu, mem, i, prefixed),
        Instr::RR(_) => lemma_keeps_cycle_rmw(cpu, mem, i, prefixed),
        Instr::SLA(_) => lemma_keeps_cycle_rmw(cpu, mem, i, prefixed),
        Instr::SRA(_) => lemma_keeps_cycle_rmw(cpu, mem, i, prefixed),
        Instr::SRL(_) => lemma_keeps_cycle_rmw(cpu, mem, i, prefixed),
        Instr::BIT(_, _) => lemma_keeps_cycle_rmw(cpu, mem, i, prefixed),
        Instr::SET(_, _) => lemma_keeps_cycle_rmw(cpu, mem, i, prefixed),
        Instr::RES(_, _) => lemma_keeps_cycle_rmw(cpu, mem, i, prefixed),
    }
}

/// Every step call performs exactly one machine cycle's worth of work:
/// the counter advances by one, except in the halted and stopped states,
/// which ignore the step entirely.
pub proof fn lemma_step_one_cycle(cpu: CPU, mem: Seq<u8>)
    requires
        cpu.cycle < u128::MAX,
    ensures
        spec_step(cpu, mem).0.cycle == (match cpu.state {
            CPUState::Halted => cpu.cycle,
            CPUState::Stopped => cpu.cycle,
            _ => (cpu.cycle + 1) as u128,
        }),
{
    match cpu.state {
        CPUState::Fetch => {
            let op = mem[cpu.pc as int];
            let cpu1 = CPU { pc: spec_winc16(cpu.pc), cycle: (cpu.cycle + 1) as u128, ..cpu };
            if op != PREFIX {
                if let Some(i) = spec_decode_unprefixed(op) {
                    lemma_apply_instr_keeps_cycle(cpu1, mem, i, false);
                }
            }
        },
        CPUState::FetchPrefixed => {
            let op = mem[cpu.pc as int];
            let cpu1 = CPU { pc: spec_winc16(cpu.pc), cycle: (cpu.cycle + 1) as u128, ..cpu };
            if let Some(i) = spec_decode_prefixed(op) {
                lemma_apply_instr_keeps_cycle(cpu1, mem, i, true);
            }
        },
        CPUState::Executing(i, start, prefixed) => {
            let cpu1 = CPU { cycle: (cpu.cycle + 1) as u128, ..cpu };
            lemma_apply_instr_keeps_cycle(cpu1, mem, i, prefixed);
        },
        _ => {},
    }
}

/// The engine state an instruction leaves behind once its final sub-cycle
/// has completed: HALT and STOP park the engine, everything else returns
/// it to fetch.
pub open spec fn spec_finish_state(i: Instr) -> CPUState {
    match i {
        Instr::HALT => CPUState::Halted,
        Instr::STOP => CPUState::Stopped,
        _ => CPUState::Fetch,
    }
}

/// Entering execution right after a fetch: a single-cycle instruction
/// completes on the fetch cycle itself, anything longer parks the engine
/// in the executing state with the current cycle as its start.
pub open spec fn spec_begin_execute(cpu1: CPU, mem: Seq<u8>, i: Instr, prefixed: bool) -> (
    CPU,
    Seq<u8>,
    Result<(), Fault>,
) {
    if spec_done_at(i, prefixed) == 0 {
        let (c2, m2) = spec_apply_instr(cpu1, mem, i, prefixed);
        (CPU { state: spec_finish_state(i), ..c2 }, m2, Ok(()))
    } else {
        (CPU { state: CPUState::Executing(i, cpu1.cycle, prefixed), ..cpu1 }, mem, Ok(()))
    }
}

/// One machine cycle of the engine, as a pure function of the core and
/// memory: fetch reads and decodes one byte (or recognises the escape
/// byte), a fault carries the illegal byte and the address it was fetched
/// from, execution dispatches the active instruction's sub-cycle, and the
/// halted and stopped states ignore the step entirely.
pub open spec fn spec_step(cpu: CPU, mem: Seq<u8>) -> (CPU, Seq<u8>, Result<(), Fault>) {
    match cpu.state {
        CPUState::Halted => (cpu, mem, Ok(())),
        CPUState::Stopped => (cpu, mem, Ok(())),
        CPUState::Fetch => {
            let op = mem[cpu.pc as int];
            let cpu1 = CPU { pc: spec_winc16(cpu.pc), cycle: (cpu.cycle + 1) as u128, ..cpu };
            if op == PREFIX {
                (CPU { state: CPUState::FetchPrefixed, ..cpu1 }, mem, Ok(()))
            } else {
                match spec_decode_unprefixed(op) {
                    Some(i) => spec_begin_execute(cpu1, mem, i, false),
                    None => (
                        cpu1,
                        mem,
                        Err(
                            Fault {
                                illegal: IllegalOpcode { opcode: op, prefixed: false },
                                pc: cpu.pc,
                            },
                        ),
                    ),
                }
            }
        },
        CPUState::FetchPrefixed => {
            let op = mem[cpu.pc as int];
            let cpu1 = CPU { pc: spec_winc16(cpu.pc), cycle: (cpu.cycle + 1) as u128, ..cpu };
            match spec_decode_prefixed(op) {
                Some(i) => spec_begin_execute(cpu1, mem, i, true),
                None => (
                    cpu1,
                    mem,
                    Err(
                        Fault {
                            illegal: IllegalOpcode { opcode: op, prefixed: true },
                            pc: cpu.pc,
                        },
                    ),
                ),
            }
        },
        CPUState::Executing(i, start, prefixed) => {
            let cpu1 = CPU { cycle: (cpu.cycle + 1) as u128, ..cpu };
            if cpu1.cycle - start == spec_done_at(i, prefixed) {
                let (c2, m2) = spec_apply_instr(cpu1, mem, i, prefixed);
                (CPU { state: spec_finish_state(i), ..c2 }, m2, Ok(()))
            } else {
                (cpu1, mem, Ok(()))
            }
        },
    }
}

} // verus!
