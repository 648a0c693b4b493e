//! The instruction routines of the core. Each routine is called once per
//! machine cycle of its instruction with the elapsed sub-cycle count; it
//! performs its whole effect on the final sub-cycle and reports whether
//! that sub-cycle has completed. Every routine meets the semantic model
//! in `semantics` exactly.

use vstd::prelude::*;
use crate::alu::{
    alu_add16, alu_add8, alu_addsp16, alu_and8, alu_bit8, alu_daa8, alu_dec8, alu_inc8, alu_or8,
    alu_res8, alu_rl8, alu_rlc8, alu_rr8, alu_rrc8, alu_set8, alu_sla8, alu_sra8, alu_srl8,
    alu_sub8, alu_xor8, flags_byte,
};
use crate::cpu::{spec_winc16, wdec16, winc16, CPU, CPUState};
use crate::gameboy::Memory;
use crate::instr::{alu_src_ok, ld_dst_ok, rmw_operand_ok};
use crate::operand::{Op8, Op16};
use crate::regs::{Flag, Reg8, Reg16};
use crate::semantics::{
    spec_add16_done, spec_apply_add, spec_apply_add16, spec_apply_and, spec_apply_bit,
    spec_apply_ccf, spec_apply_cpl, spec_apply_daa, spec_apply_dec, spec_apply_dec16,
    spec_apply_inc, spec_apply_inc16, spec_apply_ld, spec_apply_ld16, spec_apply_or,
    spec_apply_pop, spec_apply_push, spec_apply_res, spec_apply_rl, spec_apply_rlc,
    spec_apply_rmw, spec_apply_rr, spec_apply_rrc, spec_apply_scf, spec_apply_set, spec_apply_sla,
    spec_apply_sra, spec_apply_srl, spec_apply_sub, spec_apply_xor, spec_after_op8,
    spec_bit_done, spec_ea8,
    spec_ld16_done, spec_ld_done, spec_le16, spec_op16_reg, spec_op8_cycles, spec_op8_is_mem,
    spec_rmw_done, spec_rmw_val, spec_src8,
};

verus! {

impl CPU {
    /// Extra machine cycles needed to resolve an 8-bit operand.
    fn op8_cycles(op: Op8) -> (n: u8)
        ensures
            n == spec_op8_cycles(op),
    {
        match op {
            Op8::Reg(_) => 0,
            Op8::N => 1,
            Op8::AddrC => 1,
            Op8::AddrN => 2,
            Op8::AddrNN => 3,
            Op8::AddrBC => 1,
            Op8::AddrDE => 1,
            Op8::AddrHL => 1,
            Op8::AddrHLInc => 1,
            Op8::AddrHLDec => 1,
        }
    }

    /// Resolves the address of an 8-bit memory operand, consuming its
    /// immediate bytes and applying the HL auto-increment or -decrement.
    fn operand_addr8(&mut self, mem: &Memory, op: Op8) -> (ea: u16)
        requires
            spec_op8_is_mem(op),
        ensures
            ea == spec_ea8(*old(self), mem@, op),
            *final(self) == spec_after_op8(*old(self), op),
    {
        match op {
            Op8::AddrBC => self.read_reg16(Reg16::BC),
            Op8::AddrDE => self.read_reg16(Reg16::DE),
            Op8::AddrHL => self.read_reg16(Reg16::HL),
            Op8::AddrHLInc => {
                let a = self.read_reg16(Reg16::HL);
                let na = winc16(a);
                self.write_reg16(Reg16::HL, na);
                a
            },
            Op8::AddrHLDec => {
                let a = self.read_reg16(Reg16::HL);
                let na = wdec16(a);
                self.write_reg16(Reg16::HL, na);
                a
            },
            Op8::AddrNN => {
                let lo = self.pc_read_next(mem);
                let hi = self.pc_read_next(mem);
                hi as u16 * 256 + lo as u16
            },
            Op8::AddrN => {
                let n = self.pc_read_next(mem);
                0xff00 + n as u16
            },
            Op8::AddrC => 0xff00 + self.c as u16,
            Op8::Reg(_) => 0,
            Op8::N => 0,
        }
    }

    /// Reads the value an 8-bit operand denotes, consuming its immediate
    /// bytes and applying the HL auto-increment or -decrement.
    fn read_operand8(&mut self, mem: &Memory, op: Op8) -> (v: u8)
        ensures
            v == spec_src8(*old(self), mem@, op),
            *final(self) == spec_after_op8(*old(self), op),
    {
        match op {
            Op8::Reg(r) => self.read_reg8(r),
            Op8::N => self.pc_read_next(mem),
            _ => {
                let ea = self.operand_addr8(mem, op);
                mem.read_byte(ea)
            },
        }
    }

    /// Reads the two-byte immediate at PC, low byte first.
    fn read_imm16(&mut self, mem: &Memory) -> (v: u16)
        ensures
            v == spec_le16(mem@[old(self).pc as int], mem@[spec_winc16(old(self).pc) as int]),
            *final(self) == (CPU {
                pc: spec_winc16(spec_winc16(old(self).pc)),
                ..*old(self)
            }),
    {
        let lo = self.pc_read_next(mem);
        let hi = self.pc_read_next(mem);
        hi as u16 * 256 + lo as u16
    }

    /// Reads a read-modify-write operand: a register slot or the byte at
    /// address HL.
    fn rmw_read(&self, mem: &Memory, op: Op8) -> (v: u8)
        ensures
            v == spec_rmw_val(*self, mem@, op),
    {
        match op {
            Op8::Reg(r) => self.read_reg8(r),
            _ => {
                let addr = self.read_reg16(Reg16::HL);
                mem.read_byte(addr)
            },
        }
    }

    /// Writes a read-modify-write operand back and replaces the flags.
    fn rmw_write(&mut self, mem: &mut Memory, op: Op8, nv: u8, nf: u8)
        ensures
            *final(self) == spec_apply_rmw(*old(self), old(mem)@, op, nv, nf).0,
            final(mem)@ == spec_apply_rmw(*old(self), old(mem)@, op, nv, nf).1,
    {
        self.f = nf;
        match op {
            Op8::Reg(r) => self.write_reg8(r, nv),
            _ => {
                let addr = self.read_reg16(Reg16::HL);
                mem.write_byte(addr, nv);
            },
        }
    }

    /// No operation: nothing changes.
    pub fn nop(&mut self)
        ensures
            *final(self) == *old(self),
    {
    }

    /// Decimal-adjusts register A back into packed-BCD form after a BCD
    /// addition or subtraction, per the flags of that operation.
    pub fn daa(&mut self)
        ensures
            *final(self) == spec_apply_daa(*old(self)),
    {
        let (r, nf) = alu_daa8(self.a, self.f);
        self.a = r;
        self.f = nf;
    }

    /// Complements register A; sets N and H, leaves Z and C.
    pub fn cpl(&mut self)
        ensures
            *final(self) == spec_apply_cpl(*old(self)),
    {
        let z = self.test_flag(Flag::Z);
        let c = self.test_flag(Flag::C);
        self.a = !self.a;
        self.f = flags_byte(z, true, true, c);
    }

    /// Complements the carry flag; clears N and H, leaves Z.
    pub fn ccf(&mut self)
        ensures
            *final(self) == spec_apply_ccf(*old(self)),
    {
        let z = self.test_flag(Flag::Z);
        let c = self.test_flag(Flag::C);
        self.f = flags_byte(z, false, false, !c);
    }

    /// Sets the carry flag; clears N and H, leaves Z.
    pub fn scf(&mut self)
        ensures
            *final(self) == spec_apply_scf(*old(self)),
    {
        let z = self.test_flag(Flag::Z);
        self.f = flags_byte(z, false, false, true);
    }

    /// Powers the core down until an interrupt occurs.
    pub fn halt(&mut self)
        ensures
            *final(self) == (CPU { state: CPUState::Halted, ..*old(self) }),
    {
        self.state = CPUState::Halted;
    }

    /// Halts core and display until a button is pressed.
    pub fn stop(&mut self)
        ensures
            *final(self) == (CPU { state: CPUState::Stopped, ..*old(self) }),
    {
        self.state = CPUState::Stopped;
    }

    /// Disables interrupts.
    pub fn di(&mut self)
        ensures
            *final(self) == (CPU { interrupt_master_enable: false, ..*old(self) }),
    {
        self.interrupt_master_enable = false;
    }

    /// Enables interrupts.
    pub fn ei(&mut self)
        ensures
            *final(self) == (CPU { interrupt_master_enable: true, ..*old(self) }),
    {
        self.interrupt_master_enable = true;
    }

    /// 8-bit load: moves the source operand's byte to the destination on
    /// the final sub-cycle.
    pub fn ld(&mut self, mem: &mut Memory, cycle: u8, op1: Op8, op2: Op8) -> (done: bool)
        requires
            ld_dst_ok(op1),
            cycle <= spec_ld_done(op1, op2),
        ensures
            done == (cycle == spec_ld_done(op1, op2)),
            done ==> *final(self) == spec_apply_ld(*old(self), old(mem)@, op1, op2).0,
            done ==> final(mem)@ == spec_apply_ld(*old(self), old(mem)@, op1, op2).1,
            !done ==> *final(self) == *old(self) && final(mem)@ == old(mem)@,
    {
        let src_cycles = CPU::op8_cycles(op2);
        let dst_cycles: u8 = match op1 {
            Op8::Reg(_) => 0,
            _ => CPU::op8_cycles(op1),
        };
        if cycle < src_cycles + dst_cycles {
            return false;
        }
        let v = self.read_operand8(&*mem, op2);
        match op1 {
            Op8::Reg(r) => self.write_reg8(r, v),
            _ => {
                let ea = self.operand_addr8(&*mem, op1);
                mem.write_byte(ea, v);
            },
        }
        true
    }

    /// High-page load between register A and `0xFF00 + offset`; the
    /// semantics are those of the 8-bit load over the high-page operands.
    pub fn ldh(&mut self, mem: &mut Memory, cycle: u8, op1: Op8, op2: Op8) -> (done: bool)
        requires
            ld_dst_ok(op1),
            cycle <= spec_ld_done(op1, op2),
        ensures
            done == (cycle == spec_ld_done(op1, op2)),
            done ==> *final(self) == spec_apply_ld(*old(self), old(mem)@, op1, op2).0,
            done ==> final(mem)@ == spec_apply_ld(*old(self), old(mem)@, op1, op2).1,
            !done ==> *final(self) == *old(self) && final(mem)@ == old(mem)@,
    {
        self.ld(mem, cycle, op1, op2)
    }

    /// 16-bit load: into a 16-bit register, or the stack pointer stored
    /// little-endian at a direct address.
    pub fn ld16(&mut self, mem: &mut Memory, cycle: u8, op1: Op16, op2: Op16) -> (done: bool)
        requires
            op1 matches Op16::Reg(_) || op1 == Op16::AddrNN,
            op2 matches Op16::Reg(_) || op2 == Op16::NN,
            cycle <= spec_ld16_done(op1, op2),
        ensures
            done == (cycle == spec_ld16_done(op1, op2)),
            done ==> *final(self) == spec_apply_ld16(*old(self), old(mem)@, op1, op2).0,
            done ==> final(mem)@ == spec_apply_ld16(*old(self), old(mem)@, op1, op2).1,
            !done ==> *final(self) == *old(self) && final(mem)@ == old(mem)@,
    {
        let done_at: u8 = match op1 {
            Op16::AddrNN => 4,
            _ => match op2 {
                Op16::NN => 2,
                _ => 1,
            },
        };
        if cycle < done_at {
            return false;
        }
        let v = match op2 {
            Op16::Reg(rr) => self.read_reg16(rr),
            _ => self.read_imm16(&*mem),
        };
        match op1 {
            Op16::Reg(rr) => self.write_reg16(rr, v),
            _ => {
                let ea = self.read_imm16(&*mem);
                mem.write_byte(ea, (v % 256) as u8);
                mem.write_byte(winc16(ea), (v / 256) as u8);
            },
        }
        true
    }

    /// Pushes a 16-bit register onto the stack: high byte below the old
    /// stack top, low byte below that, SP dropped by two.
    pub fn push(&mut self, mem: &mut Memory, cycle: u8, op: Op16) -> (done: bool)
        requires
            op matches Op16::Reg(_),
            cycle <= 3,
        ensures
            done == (cycle == 3),
            done ==> *final(self) == spec_apply_push(*old(self), old(mem)@, spec_op16_reg(op)).0,
            done ==> final(mem)@ == spec_apply_push(*old(self), old(mem)@, spec_op16_reg(op)).1,
            !done ==> *final(self) == *old(self) && final(mem)@ == old(mem)@,
    {
        if cycle < 3 {
            return false;
        }
        let rr = match op {
            Op16::Reg(rr) => rr,
            _ => Reg16::SP,
        };
        let v = self.read_reg16(rr);
        let sp1 = wdec16(self.sp);
        let sp2 = wdec16(sp1);
        mem.write_byte(sp1, (v / 256) as u8);
        mem.write_byte(sp2, (v % 256) as u8);
        self.sp = sp2;
        true
    }

    /// Pops a 16-bit register off the stack: low byte from the stack top,
    /// high byte above it, SP raised by two.
    pub fn pop(&mut self, mem: &Memory, cycle: u8, op: Op16) -> (done: bool)
        requires
            op matches Op16::Reg(_),
            cycle <= 2,
        ensures
            done == (cycle == 2),
            done ==> *final(self) == spec_apply_pop(*old(self), mem@, spec_op16_reg(op)),
            !done ==> *final(self) == *old(self),
    {
        if cycle < 2 {
            return false;
        }
        let rr = match op {
            Op16::Reg(rr) => rr,
            _ => Reg16::SP,
        };
        let lo = mem.read_byte(self.sp);
        let hi = mem.read_byte(winc16(self.sp));
        let sp2 = winc16(winc16(self.sp));
        self.sp = sp2;
        self.write_reg16(rr, hi as u16 * 256 + lo as u16);
        true
    }

    /// 8-bit add into register A.
    pub fn add(&mut self, mem: &Memory, cycle: u8, op1: Op8, op2: Op8) -> (done: bool)
        requires
            op1 == Op8::Reg(Reg8::A),
            alu_src_ok(op2),
            cycle <= spec_op8_cycles(op2),
        ensures
            done == (cycle == spec_op8_cycles(op2)),
            done ==> *final(self) == spec_apply_add(*old(self), mem@, op2, false),
            !done ==> *final(self) == *old(self),
    {
        let done_at: u8 = match op2 {
            Op8::Reg(_) => 0,
            _ => 1,
        };
        if cycle < done_at {
            return false;
        }
        let v = self.read_operand8(mem, op2);
        let (r, nf) = alu_add8(self.a, v, false);
        self.a = r;
        self.f = nf;
        true
    }

    /// 8-bit add with carry into register A.
    pub fn adc(&mut self, mem: &Memory, cycle: u8, op1: Op8, op2: Op8) -> (done: bool)
        requires
            op1 == Op8::Reg(Reg8::A),
            alu_src_ok(op2),
            cycle <= spec_op8_cycles(op2),
        ensures
            done == (cycle == spec_op8_cycles(op2)),
            done ==> *final(self) == spec_apply_add(*old(self), mem@, op2, true),
            !done ==> *final(self) == *old(self),
    {
        let done_at: u8 = match op2 {
            Op8::Reg(_) => 0,
            _ => 1,
        };
        if cycle < done_at {
            return false;
        }
        let cin = self.test_flag(Flag::C);
        let v = self.read_operand8(mem, op2);
        let (r, nf) = alu_add8(self.a, v, cin);
        self.a = r;
        self.f = nf;
        true
    }

    /// Subtract from register A.
    pub fn sub(&mut self, mem: &Memory, cycle: u8, op: Op8) -> (done: bool)
        requires
            alu_src_ok(op),
            cycle <= spec_op8_cycles(op),
        ensures
            done == (cycle == spec_op8_cycles(op)),
            done ==> *final(self) == spec_apply_sub(*old(self), mem@, op, false, true),
            !done ==> *final(self) == *old(self),
    {
        let done_at: u8 = match op {
            Op8::Reg(_) => 0,
            _ => 1,
        };
        if cycle < done_at {
            return false;
        }
        let v = self.read_operand8(mem, op);
        let (r, nf) = alu_sub8(self.a, v, false);
        self.a = r;
        self.f = nf;
        true
    }

    /// Subtract with carry (borrow) from register A.
    pub fn sbc(&mut self, mem: &Memory, cycle: u8, op: Op8) -> (done: bool)
        requires
            alu_src_ok(op),
            cycle <= spec_op8_cycles(op),
        ensures
            done == (cycle == spec_op8_cycles(op)),
            done ==> *final(self) == spec_apply_sub(*old(self), mem@, op, true, true),
            !done ==> *final(self) == *old(self),
    {
        let done_at: u8 = match op {
            Op8::Reg(_) => 0,
            _ => 1,
        };
        if cycle < done_at {
            return false;
        }
        let bin = self.test_flag(Flag::C);
        let v = self.read_operand8(mem, op);
        let (r, nf) = alu_sub8(self.a, v, bin);
        self.a = r;
        self.f = nf;
        true
    }

    /// Bitwise AND into register A.
    pub fn and(&mut self, mem: &Memory, cycle: u8, op: Op8) -> (done: bool)
        requires
            alu_src_ok(op),
            cycle <= spec_op8_cycles(op),
        ensures
            done == (cycle == spec_op8_cycles(op)),
            done ==> *final(self) == spec_apply_and(*old(self), mem@, op),
            !done ==> *final(self) == *old(self),
    {
        let done_at: u8 = match op {
            Op8::Reg(_) => 0,
            _ => 1,
        };
        if cycle < done_at {
            return false;
        }
        let v = self.read_operand8(mem, op);
        let (r, nf) = alu_and8(self.a, v);
        self.a = r;
        self.f = nf;
        true
    }

    /// Bitwise OR into register A.
    pub fn or(&mut self, mem: &Memory, cycle: u8, op: Op8) -> (done: bool)
        requires
            alu_src_ok(op),
            cycle <= spec_op8_cycles(op),
        ensures
            done == (cycle == spec_op8_cycles(op)),
            done ==> *final(self) == spec_apply_or(*old(self), mem@, op),
            !done ==> *final(self) == *old(self),
    {
        let done_at: u8 = match op {
            Op8::Reg(_) => 0,
            _ => 1,
        };
        if cycle < done_at {
            return false;
        }
        let v = self.read_operand8(mem, op);
        let (r, nf) = alu_or8(self.a, v);
        self.a = r;
        self.f = nf;
        true
    }

    /// Bitwise XOR into register A.
    pub fn xor(&mut self, mem: &Memory, cycle: u8, op: Op8) -> (done: bool)
        requires
            alu_src_ok(op),
            cycle <= spec_op8_cycles(op),
        ensures
            done == (cycle == spec_op8_cycles(op)),
            done ==> *final(self) == spec_apply_xor(*old(self), mem@, op),
            !done ==> *final(self) == *old(self),
    {
        let done_at: u8 = match op {
            Op8::Reg(_) => 0,
            _ => 1,
        };
        if cycle < done_at {
            return false;
        }
        let v = self.read_operand8(mem, op);
        let (r, nf) = alu_xor8(self.a, v);
        self.a = r;
        self.f = nf;
        true
    }

    /// Compare with register A: the subtraction is computed for flags
    /// only; the accumulator is not mutated.
    pub fn cp(&mut self, mem: &Memory, cycle: u8, op: Op8) -> (done: bool)
        requires
            alu_src_ok(op),
            cycle <= spec_op8_cycles(op),
        ensures
            done == (cycle == spec_op8_cycles(op)),
            done ==> *final(self) == spec_apply_sub(*old(self), mem@, op, false, false),
            !done ==> *final(self) == *old(self),
    {
        let done_at: u8 = match op {
            Op8::Reg(_) => 0,
            _ => 1,
        };
        if cycle < done_at {
            return false;
        }
        let v = self.read_operand8(mem, op);
        let (_r, nf) = alu_sub8(self.a, v, false);
        self.f = nf;
        true
    }

    /// 8-bit increment of a register or of the byte at HL; the carry flag
    /// is untouched.
    pub fn inc(&mut self, mem: &mut Memory, cycle: u8, op: Op8) -> (done: bool)
        requires
            rmw_operand_ok(op),
            cycle <= spec_rmw_done(op),
        ensures
            done == (cycle == spec_rmw_done(op)),
            done ==> *final(self) == spec_apply_inc(*old(self), old(mem)@, op).0,
            done ==> final(mem)@ == spec_apply_inc(*old(self), old(mem)@, op).1,
            !done ==> *final(self) == *old(self) && final(mem)@ == old(mem)@,
    {
        let done_at: u8 = match op {
            Op8::Reg(_) => 0,
            _ => 2,
        };
        if cycle < done_at {
            return false;
        }
        let v = self.rmw_read(&*mem, op);
        let (nv, nf) = alu_inc8(v, self.f);
        self.rmw_write(mem, op, nv, nf);
        true
    }

    /// 8-bit decrement of a register or of the byte at HL; the carry flag
    /// is untouched.
    pub fn dec(&mut self, mem: &mut Memory, cycle: u8, op: Op8) -> (done: bool)
        requires
            rmw_operand_ok(op),
            cycle <= spec_rmw_done(op),
        ensures
            done == (cycle == spec_rmw_done(op)),
            done ==> *final(self) == spec_apply_dec(*old(self), old(mem)@, op).0,
            done ==> final(mem)@ == spec_apply_dec(*old(self), old(mem)@, op).1,
            !done ==> *final(self) == *old(self) && final(mem)@ == old(mem)@,
    {
        let done_at: u8 = match op {
            Op8::Reg(_) => 0,
            _ => 2,
        };
        if cycle < done_at {
            return false;
        }
        let v = self.rmw_read(&*mem, op);
        let (nv, nf) = alu_dec8(v, self.f);
        self.rmw_write(mem, op, nv, nf);
        true
    }

    /// 16-bit add: a pair into HL, or the signed immediate into SP.
    pub fn add16(&mut self, mem: &Memory, cycle: u8, op1: Op16, op2: Op16) -> (done: bool)
        requires
            (op1 == Op16::Reg(Reg16::HL) && op2 matches Op16::Reg(_)) || (op1 == Op16::Reg(
                Reg16::SP,
            ) && op2 == Op16::N),
            cycle <= spec_add16_done(op2),
        ensures
            done == (cycle == spec_add16_done(op2)),
            done ==> *final(self) == spec_apply_add16(*old(self), mem@, op2),
            !done ==> *final(self) == *old(self),
    {
        let done_at: u8 = match op2 {
            Op16::N => 3,
            _ => 1,
        };
        if cycle < done_at {
            return false;
        }
        match op2 {
            Op16::Reg(rr) => {
                let hl = self.read_reg16(Reg16::HL);
                let v = self.read_reg16(rr);
                let (r, nf) = alu_add16(hl, v, self.f);
                self.f = nf;
                self.write_reg16(Reg16::HL, r);
            },
            _ => {
                let nb = self.pc_read_next(mem);
                let (r, nf) = alu_addsp16(self.sp, nb);
                self.sp = r;
                self.f = nf;
            },
        }
        true
    }

    /// 16-bit increment of a register; no flags are affected.
    pub fn inc16(&mut self, cycle: u8, op: Op16) -> (done: bool)
        requires
            op matches Op16::Reg(_),
            cycle <= 1,
        ensures
            done == (cycle == 1),
            done ==> *final(self) == spec_apply_inc16(*old(self), spec_op16_reg(op)),
            !done ==> *final(self) == *old(self),
    {
        if cycle < 1 {
            return false;
        }
        let rr = match op {
            Op16::Reg(rr) => rr,
            _ => Reg16::SP,
        };
        let v = self.read_reg16(rr);
        self.write_reg16(rr, winc16(v));
        true
    }

    /// 16-bit decrement of a register; no flags are affected.
    pub fn dec16(&mut self, cycle: u8, op: Op16) -> (done: bool)
        requires
            op matches Op16::Reg(_),
            cycle <= 1,
        ensures
            done == (cycle == 1),
            done ==> *final(self) == spec_apply_dec16(*old(self), spec_op16_reg(op)),
            !done ==> *final(self) == *old(self),
    {
        if cycle < 1 {
            return false;
        }
        let rr = match op {
            Op16::Reg(rr) => rr,
            _ => Reg16::SP,
        };
        let v = self.read_reg16(rr);
        self.write_reg16(rr, wdec16(v));
        true
    }

    /// The final sub-cycle of a rotate: 0 for the accumulator-only forms
    /// and for prefixed register forms, 2 for the prefixed memory form.
    fn rot_done_at(op: Op8, prefixed: bool) -> (n: u8)
        ensures
            n == (if prefixed {
                spec_rmw_done(op)
            } else {
                0nat
            }),
    {
        if !prefixed {
            0
        } else {
            match op {
                Op8::Reg(_) => 0,
                _ => 2,
            }
        }
    }

    /// Rotate left circularly. The accumulator-only form (not prefixed)
    /// always clears Z; the prefixed forms set Z from the result.
    pub fn rlc(&mut self, mem: &mut Memory, cycle: u8, op: Op8, prefixed: bool) -> (done: bool)
        requires
            rmw_operand_ok(op),
            !prefixed ==> op == Op8::Reg(Reg8::A),
            cycle <= (if prefixed {
                spec_rmw_done(op)
            } else {
                0nat
            }),
        ensures
            done == (cycle == (if prefixed {
                spec_rmw_done(op)
            } else {
                0nat
            })),
            done ==> *final(self) == spec_apply_rlc(*old(self), old(mem)@, op, prefixed).0,
            done ==> final(mem)@ == spec_apply_rlc(*old(self), old(mem)@, op, prefixed).1,
            !done ==> *final(self) == *old(self) && final(mem)@ == old(mem)@,
    {
        let done_at = CPU::rot_done_at(op, prefixed);
        if cycle < done_at {
            return false;
        }
        let v = self.rmw_read(&*mem, op);
        let (nv, cout) = alu_rlc8(v);
        let z = prefixed && nv == 0;
        let nf = flags_byte(z, false, false, cout);
        self.rmw_write(mem, op, nv, nf);
        true
    }

    /// Rotate left through the carry flag.
    pub fn rl(&mut self, mem: &mut Memory, cycle: u8, op: Op8, prefixed: bool) -> (done: bool)
        requires
            rmw_operand_ok(op),
            !prefixed ==> op == Op8::Reg(Reg8::A),
            cycle <= (if prefixed {
                spec_rmw_done(op)
            } else {
                0nat
            }),
        ensures
            done == (cycle == (if prefixed {
                spec_rmw_done(op)
            } else {
                0nat
            })),
            done ==> *final(self) == spec_apply_rl(*old(self), old(mem)@, op, prefixed).0,
            done ==> final(mem)@ == spec_apply_rl(*old(self), old(mem)@, op, prefixed).1,
            !done ==> *final(self) == *old(self) && final(mem)@ == old(mem)@,
    {
        let done_at = CPU::rot_done_at(op, prefixed);
        if cycle < done_at {
            return false;
        }
        let cin = self.test_flag(Flag::C);
        let v = self.rmw_read(&*mem, op);
        let (nv, cout) = alu_rl8(v, cin);
        let z = prefixed && nv == 0;
        let nf = flags_byte(z, false, false, cout);
        self.rmw_write(mem, op, nv, nf);
        true
    }

    /// Rotate right circularly.
    pub fn rrc(&mut self, mem: &mut Memory, cycle: u8, op: Op8, prefixed: bool) -> (done: bool)
        requires
            rmw_operand_ok(op),
            !prefixed ==> op == Op8::Reg(Reg8::A),
            cycle <= (if prefixed {
                spec_rmw_done(op)
            } else {
                0nat
            }),
        ensures
            done == (cycle == (if prefixed {
                spec_rmw_done(op)
            } else {
                0nat
            })),
            done ==> *final(self) == spec_apply_rrc(*old(self), old(mem)@, op, prefixed).0,
            done ==> final(mem)@ == spec_apply_rrc(*old(self), old(mem)@, op, prefixed).1,
            !done ==> *final(self) == *old(self) && final(mem)@ == old(mem)@,
    {
        let done_at = CPU::rot_done_at(op, prefixed);
        if cycle < done_at {
            return false;
        }
        let v = self.rmw_read(&*mem, op);
        let (nv, cout) = alu_rrc8(v);
        let z = prefixed && nv == 0;
        let nf = flags_byte(z, false, false, cout);
        self.rmw_write(mem, op, nv, nf);
        true
    }

    /// Rotate right through the carry flag.
    pub fn rr(&mut self, mem: &mut Memory, cycle: u8, op: Op8, prefixed: bool) -> (done: bool)
        requires
            rmw_operand_ok(op),
            !prefixed ==> op == Op8::Reg(Reg8::A),
            cycle <= (if prefixed {
                spec_rmw_done(op)
            } else {
                0nat
            }),
        ensures
            done == (cycle == (if prefixed {
                spec_rmw_done(op)
            } else {
                0nat
            })),
            done ==> *final(self) == spec_apply_rr(*old(self), old(mem)@, op, prefixed).0,
            done ==> final(mem)@ == spec_apply_rr(*old(self), old(mem)@, op, prefixed).1,
            !done ==> *final(self) == *old(self) && final(mem)@ == old(mem)@,
    {
        let done_at = CPU::rot_done_at(op, prefixed);
        if cycle < done_at {
            return false;
        }
        let cin = self.test_flag(Flag::C);
        let v = self.rmw_read(&*mem, op);
        let (nv, cout) = alu_rr8(v, cin);
        let z = prefixed && nv == 0;
        let nf = flags_byte(z, false, false, cout);
        self.rmw_write(mem, op, nv, nf);
        true
    }

    /// Shift left arithmetically (prefixed only); Z from the result.
    pub fn sla(&mut self, mem: &mut Memory, cycle: u8, op: Op8) -> (done: bool)
        requires
            rmw_operand_ok(op),
            cycle <= spec_rmw_done(op),
        ensures
            done == (cycle == spec_rmw_done(op)),
            done ==> *final(self) == spec_apply_sla(*old(self), old(mem)@, op).0,
            done ==> final(mem)@ == spec_apply_sla(*old(self), old(mem)@, op).1,
            !done ==> *final(self) == *old(self) && final(mem)@ == old(mem)@,
    {
        let done_at: u8 = match op {
            Op8::Reg(_) => 0,
            _ => 2,
        };
        if cycle < done_at {
            return false;
        }
        let v = self.rmw_read(&*mem, op);
        let (nv, cout) = alu_sla8(v);
        let nf = flags_byte(nv == 0, false, false, cout);
        self.rmw_write(mem, op, nv, nf);
        true
    }

    /// Shift right arithmetically, preserving the high bit (prefixed
    /// only); Z from the result.
    pub fn sra(&mut self, mem: &mut Memory, cycle: u8, op: Op8) -> (done: bool)
        requires
            rmw_operand_ok(op),
            cycle <= spec_rmw_done(op),
        ensures
            done == (cycle == spec_rmw_done(op)),
            done ==> *final(self) == spec_apply_sra(*old(self), old(mem)@, op).0,
            done ==> final(mem)@ == spec_apply_sra(*old(self), old(mem)@, op).1,
            !done ==> *final(self) == *old(self) && final(mem)@ == old(mem)@,
    {
        let done_at: u8 = match op {
            Op8::Reg(_) => 0,
            _ => 2,
        };
        if cycle < done_at {
            return false;
        }
        let v = self.rmw_read(&*mem, op);
        let (nv, cout) = alu_sra8(v);
        let nf = flags_byte(nv == 0, false, false, cout);
        self.rmw_write(mem, op, nv, nf);
        true
    }

    /// Shift right logically, clearing the high bit (prefixed only); Z
    /// from the result.
    pub fn srl(&mut self, mem: &mut Memory, cycle: u8, op: Op8) -> (done: bool)
        requires
            rmw_operand_ok(op),
            cycle <= spec_rmw_done(op),
        ensures
            done == (cycle == spec_rmw_done(op)),
            done ==> *final(self) == spec_apply_srl(*old(self), old(mem)@, op).0,
            done ==> final(mem)@ == spec_apply_srl(*old(self), old(mem)@, op).1,
            !done ==> *final(self) == *old(self) && final(mem)@ == old(mem)@,
    {
        let done_at: u8 = match op {
            Op8::Reg(_) => 0,
            _ => 2,
        };
        if cycle < done_at {
            return false;
        }
        let v = self.rmw_read(&*mem, op);
        let (nv, cout) = alu_srl8(v);
        let nf = flags_byte(nv == 0, false, false, cout);
        self.rmw_write(mem, op, nv, nf);
        true
    }

    /// Tests one bit of the operand: Z says the bit is clear, N cleared,
    /// H set, C untouched; the operand is not mutated.
    pub fn bit(&mut self, mem: &Memory, cycle: u8, index: u8, op: Op8) -> (done: bool)
        requires
            index < 8,
            rmw_operand_ok(op),
            cycle <= spec_bit_done(op),
        ensures
            done == (cycle == spec_bit_done(op)),
            done ==> *final(self) == spec_apply_bit(*old(self), mem@, index, op),
            !done ==> *final(self) == *old(self),
    {
        let done_at: u8 = match op {
            Op8::Reg(_) => 0,
            _ => 1,
        };
        if cycle < done_at {
            return false;
        }
        let v = self.rmw_read(mem, op);
        let nf = alu_bit8(v, index, self.f);
        self.f = nf;
        true
    }

    /// Sets one bit of the operand unconditionally; no flags affected.
    pub fn set(&mut self, mem: &mut Memory, cycle: u8, index: u8, op: Op8) -> (done: bool)
        requires
            index < 8,
            rmw_operand_ok(op),
            cycle <= spec_rmw_done(op),
        ensures
            done == (cycle == spec_rmw_done(op)),
            done ==> *final(self) == spec_apply_set(*old(self), old(mem)@, index, op).0,
            done ==> final(mem)@ == spec_apply_set(*old(self), old(mem)@, index, op).1,
            !done ==> *final(self) == *old(self) && final(mem)@ == old(mem)@,
    {
        let done_at: u8 = match op {
            Op8::Reg(_) => 0,
            _ => 2,
        };
        if cycle < done_at {
            return false;
        }
        let v = self.rmw_read(&*mem, op);
        let nv = alu_set8(v, index);
        let f = self.f;
        self.rmw_write(mem, op, nv, f);
        true
    }

    /// Clears one bit of the operand unconditionally; no flags affected.
    pub fn res(&mut self, mem: &mut Memory, cycle: u8, index: u8, op: Op8) -> (done: bool)
        requires
            index < 8,
            rmw_operand_ok(op),
            cycle <= spec_rmw_done(op),
        ensures
            done == (cycle == spec_rmw_done(op)),
            done ==> *final(self) == spec_apply_res(*old(self), old(mem)@, index, op).0,
            done ==> final(mem)@ == spec_apply_res(*old(self), old(mem)@, index, op).1,
            !done ==> *final(self) == *old(self) && final(mem)@ == old(mem)@,
    {
        let done_at: u8 = match op {
            Op8::Reg(_) => 0,
            _ => 2,
        };
        if cycle < done_at {
            return false;
        }
        let v = self.rmw_read(&*mem, op);
        let nv = alu_res8(v, index);
        let f = self.f;
        self.rmw_write(mem, op, nv, f);
        true
    }
}

} // verus!
