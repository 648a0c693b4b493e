//! The processor core: register file and flags, engine state, and the
//! cycle-stepped fetch/execute machine.

use vstd::prelude::*;
use crate::alu::{flags_byte, spec_flag_c, spec_flag_h, spec_flag_n, spec_flag_z, spec_flags_byte};
use crate::decode::{decode_prefixed, decode_unprefixed, PREFIX};
use crate::gameboy::Memory;
use crate::instr::{instr_wf, Fault, Instr};
use crate::regs::{Flag, Reg8, Reg16};
use crate::semantics::{
    spec_apply_instr, spec_begin_execute, spec_done_at, spec_step,
};

verus! {

/// Program counter reset vector.
pub const INITIAL_PC: u16 = 0x100;

/// Stack pointer reset value.
pub const INITIAL_SP: u16 = 0xfff;

/// A 16-bit value incremented by one, wrapping at the end of the address
/// space.
pub open spec fn spec_winc16(v: u16) -> u16 {
    if v == 0xffff {
        0
    } else {
        (v + 1) as u16
    }
}

/// Increments a 16-bit value, wrapping at the end of the address space.
pub fn winc16(v: u16) -> (r: u16)
    ensures
        r == spec_winc16(v),
{
    if v == 0xffff {
        0
    } else {
        v + 1
    }
}

/// A 16-bit value decremented by one, wrapping below zero.
pub open spec fn spec_wdec16(v: u16) -> u16 {
    if v == 0 {
        0xffff
    } else {
        (v - 1) as u16
    }
}

/// Decrements a 16-bit value, wrapping below zero.
pub fn wdec16(v: u16) -> (r: u16)
    ensures
        r == spec_wdec16(v),
{
    if v == 0 {
        0xffff
    } else {
        v - 1
    }
}

/// The engine state: exactly one of fetch, prefixed fetch, executing (the
/// active instruction, the cycle its execution started on, and whether it
/// came from the prefixed table), halted, or stopped.
#[derive(Clone, Copy, Debug, PartialEq, Eq, Structural)]
pub enum CPUState {
    /// About to read and decode the next opcode byte.
    Fetch,
    /// The escape byte was read; about to read the prefixed opcode byte.
    FetchPrefixed,
    /// An instruction is executing: the instruction, the machine cycle its
    /// execution began on, and whether the prefixed table produced it.
    Executing(Instr, u128, bool),
    /// Powered down until an external wake condition (pending interrupt).
    Halted,
    /// Halted together with the display until a button event.
    Stopped,
}

/// The processor core state: eight 8-bit register slots, the two true
/// 16-bit slots SP and PC, the engine state, the interrupt-master-enable
/// bit, and the machine-cycle counter. The register pairs BC, DE and HL
/// are views composed of two 8-bit slots; they are never stored
/// separately, so a pair read always reflects the latest half write and
/// vice versa.
pub struct CPU {
    /// Accumulator.
    pub a: u8,
    /// Register B, the high half of pair BC.
    pub b: u8,
    /// Register C, the low half of pair BC.
    pub c: u8,
    /// Register D, the high half of pair DE.
    pub d: u8,
    /// Register E, the low half of pair DE.
    pub e: u8,
    /// Flags register.
    pub f: u8,
    /// Register H, the high half of pair HL.
    pub h: u8,
    /// Register L, the low half of pair HL.
    pub l: u8,
    /// Stack pointer (true 16-bit storage).
    pub sp: u16,
    /// Program counter (true 16-bit storage).
    pub pc: u16,
    /// The engine state.
    pub state: CPUState,
    /// Interrupt master enable, toggled by DI and EI.
    pub interrupt_master_enable: bool,
    /// Machine cycles elapsed since construction.
    pub cycle: u128,
}

/// Register-pair mapping round trip: writing any 16-bit register and
/// reading it back, with no intervening half-write, returns the written
/// value exactly; and for a composed pair the two constituent slots hold
/// exactly the high and the low byte of the written value.
pub proof fn lemma_reg16_round_trip(cpu: CPU, r: Reg16, v: u16)
    ensures
        cpu.spec_with_reg16(r, v).spec_reg16(r) == v,
        r == Reg16::BC ==> cpu.spec_with_reg16(r, v).b == v / 256 && cpu.spec_with_reg16(r, v).c
            == v % 256,
        r == Reg16::DE ==> cpu.spec_with_reg16(r, v).d == v / 256 && cpu.spec_with_reg16(r, v).e
            == v % 256,
        r == Reg16::HL ==> cpu.spec_with_reg16(r, v).h == v / 256 && cpu.spec_with_reg16(r, v).l
            == v % 256,
{
}

/// A write to either half of a composed pair is immediately reflected by
/// the next pair read: the pair is a view over the two 8-bit slots,
/// never separate storage.
pub proof fn lemma_pair_reflects_half_write(cpu: CPU, x: u8)
    ensures
        cpu.spec_with_reg8(Reg8::B, x).spec_bc() == x * 256 + cpu.c,
        cpu.spec_with_reg8(Reg8::C, x).spec_bc() == cpu.b * 256 + x,
        cpu.spec_with_reg8(Reg8::D, x).spec_de() == x * 256 + cpu.e,
        cpu.spec_with_reg8(Reg8::E, x).spec_de() == cpu.d * 256 + x,
        cpu.spec_with_reg8(Reg8::H, x).spec_hl() == x * 256 + cpu.l,
        cpu.spec_with_reg8(Reg8::L, x).spec_hl() == cpu.h * 256 + x,
{
}

/// One flag of a flags byte.
pub open spec fn spec_flag(f: u8, flag: Flag) -> bool {
    match flag {
        Flag::Z => spec_flag_z(f),
        Flag::N => spec_flag_n(f),
        Flag::H => spec_flag_h(f),
        Flag::C => spec_flag_c(f),
    }
}

/// A flags byte with one flag replaced; the unused low bits are zero.
pub open spec fn spec_set_flag(f: u8, flag: Flag, value: bool) -> u8 {
    spec_flags_byte(
        if flag == Flag::Z {
            value
        } else {
            spec_flag_z(f)
        },
        if flag == Flag::N {
            value
        } else {
            spec_flag_n(f)
        },
        if flag == Flag::H {
            value
        } else {
            spec_flag_h(f)
        },
        if flag == Flag::C {
            value
        } else {
            spec_flag_c(f)
        },
    )
}

impl CPU {
    /// The value of an 8-bit register slot.
    pub open spec fn spec_reg8(self, r: Reg8) -> u8 {
        match r {
            Reg8::A => self.a,
            Reg8::B => self.b,
            Reg8::C => self.c,
            Reg8::D => self.d,
            Reg8::E => self.e,
            Reg8::F => self.f,
            Reg8::H => self.h,
            Reg8::L => self.l,
        }
    }

    /// The pair BC composed from its halves, high byte first.
    pub open spec fn spec_bc(self) -> u16 {
        (self.b * 256 + self.c) as u16
    }

    /// The pair DE composed from its halves, high byte first.
    pub open spec fn spec_de(self) -> u16 {
        (self.d * 256 + self.e) as u16
    }

    /// The pair HL composed from its halves, high byte first.
    pub open spec fn spec_hl(self) -> u16 {
        (self.h * 256 + self.l) as u16
    }

    /// The value of a 16-bit register: SP and PC from their own storage,
    /// the pairs composed from their 8-bit halves.
    pub open spec fn spec_reg16(self, r: Reg16) -> u16 {
        match r {
            Reg16::SP => self.sp,
            Reg16::PC => self.pc,
            Reg16::BC => self.spec_bc(),
            Reg16::DE => self.spec_de(),
            Reg16::HL => self.spec_hl(),
        }
    }

    /// This core with one 8-bit register slot replaced. The flags
    /// register keeps only its four used bits: bits 0 to 3 of F are
    /// always zero on write.
    pub open spec fn spec_with_reg8(self, r: Reg8, v: u8) -> CPU {
        match r {
            Reg8::A => CPU { a: v, ..self },
            Reg8::B => CPU { b: v, ..self },
            Reg8::C => CPU { c: v, ..self },
            Reg8::D => CPU { d: v, ..self },
            Reg8::E => CPU { e: v, ..self },
            Reg8::F => CPU { f: (v / 16 * 16) as u8, ..self },
            Reg8::H => CPU { h: v, ..self },
            Reg8::L => CPU { l: v, ..self },
        }
    }

    /// This core with one 16-bit register replaced: a pair write splits the
    /// value into its two 8-bit halves.
    pub open spec fn spec_with_reg16(self, r: Reg16, v: u16) -> CPU {
        match r {
            Reg16::SP => CPU { sp: v, ..self },
            Reg16::PC => CPU { pc: v, ..self },
            Reg16::BC => CPU { b: (v / 256) as u8, c: (v % 256) as u8, ..self },
            Reg16::DE => CPU { d: (v / 256) as u8, e: (v % 256) as u8, ..self },
            Reg16::HL => CPU { h: (v / 256) as u8, l: (v % 256) as u8, ..self },
        }
    }

    /// The reset state: all 8-bit slots zero, SP and PC at their reset
    /// values, the engine about to fetch, interrupts enabled, no cycles
    /// elapsed.
    pub open spec fn spec_new() -> CPU {
        CPU {
            a: 0,
            b: 0,
            c: 0,
            d: 0,
            e: 0,
            f: 0,
            h: 0,
            l: 0,
            sp: INITIAL_SP,
            pc: INITIAL_PC,
            state: CPUState::Fetch,
            interrupt_master_enable: true,
            cycle: 0,
        }
    }

    /// Engine-state well-formedness: while an instruction is executing,
    /// the instruction has a shape its decode table can produce, its start
    /// cycle is in the past, and its final sub-cycle has not yet passed.
    pub open spec fn wf(self) -> bool {
        match self.state {
            CPUState::Executing(i, start, prefixed) => instr_wf(i, prefixed) && start <= self.cycle
                && self.cycle - start < spec_done_at(i, prefixed),
            _ => true,
        }
    }

    /// A fresh core at its reset state.
    pub fn new() -> (cpu: CPU)
        ensures
            cpu == CPU::spec_new(),
    {
        CPU {
            a: 0,
            b: 0,
            c: 0,
            d: 0,
            e: 0,
            f: 0,
            h: 0,
            l: 0,
            sp: INITIAL_SP,
            pc: INITIAL_PC,
            state: CPUState::Fetch,
            interrupt_master_enable: true,
            cycle: 0,
        }
    }

    /// Advances the machine-cycle counter by one.
    pub fn increment_cycle(&mut self)
        requires
            old(self).cycle < u128::MAX,
        ensures
            *final(self) == (CPU { cycle: (old(self).cycle + 1) as u128, ..*old(self) }),
    {
        self.cycle = self.cycle + 1;
    }

    /// The machine cycles elapsed since construction.
    pub fn cycle_count(&self) -> (n: u128)
        ensures
            n == self.cycle,
    {
        self.cycle
    }

    /// Reads an 8-bit register slot. Cannot fail.
    pub fn read_reg8(&self, r: Reg8) -> (v: u8)
        ensures
            v == self.spec_reg8(r),
    {
        match r {
            Reg8::A => self.a,
            Reg8::B => self.b,
            Reg8::C => self.c,
            Reg8::D => self.d,
            Reg8::E => self.e,
            Reg8::F => self.f,
            Reg8::H => self.h,
            Reg8::L => self.l,
        }
    }

    /// Writes an 8-bit register slot. Cannot fail; no other slot changes.
    /// A write of F stores only the four flag bits: bits 0 to 3 of the
    /// flags register are always zero on read and write.
    pub fn write_reg8(&mut self, r: Reg8, value: u8)
        ensures
            *final(self) == old(self).spec_with_reg8(r, value),
    {
        match r {
            Reg8::A => self.a = value,
            Reg8::B => self.b = value,
            Reg8::C => self.c = value,
            Reg8::D => self.d = value,
            Reg8::E => self.e = value,
            Reg8::F => self.f = value / 16 * 16,
            Reg8::H => self.h = value,
            Reg8::L => self.l = value,
        }
    }

    /// Reads a 16-bit register. A pair read composes the two halves, high
    /// byte first, and always reflects the latest half write.
    pub fn read_reg16(&self, r: Reg16) -> (v: u16)
        ensures
            v == self.spec_reg16(r),
    {
        match r {
            Reg16::SP => self.sp,
            Reg16::PC => self.pc,
            Reg16::BC => self.b as u16 * 256 + self.c as u16,
            Reg16::DE => self.d as u16 * 256 + self.e as u16,
            Reg16::HL => self.h as u16 * 256 + self.l as u16,
        }
    }

    /// Writes a 16-bit register. A pair write splits the value into the
    /// two constituent 8-bit slots; SP and PC store directly.
    pub fn write_reg16(&mut self, r: Reg16, value: u16)
        ensures
            *final(self) == old(self).spec_with_reg16(r, value),
    {
        match r {
            Reg16::SP => self.sp = value,
            Reg16::PC => self.pc = value,
            Reg16::BC => {
                self.b = (value / 256) as u8;
                self.c = (value % 256) as u8;
            },
            Reg16::DE => {
                self.d = (value / 256) as u8;
                self.e = (value % 256) as u8;
            },
            Reg16::HL => {
                self.h = (value / 256) as u8;
                self.l = (value % 256) as u8;
            },
        }
    }

    /// Tests one condition flag of the flags register.
    pub fn test_flag(&self, flag: Flag) -> (b: bool)
        ensures
            b == spec_flag(self.f, flag),
    {
        match flag {
            Flag::Z => self.f / 128 % 2 == 1,
            Flag::N => self.f / 64 % 2 == 1,
            Flag::H => self.f / 32 % 2 == 1,
            Flag::C => self.f / 16 % 2 == 1,
        }
    }

    /// Sets or clears one condition flag. The other three flags keep their
    /// values; the unused low bits of F are zero afterwards.
    pub fn set_flag_to(&mut self, flag: Flag, value: bool)
        ensures
            *final(self) == (CPU { f: spec_set_flag(old(self).f, flag, value), ..*old(self) }),
    {
        let z = self.test_flag(Flag::Z);
        let n = self.test_flag(Flag::N);
        let h = self.test_flag(Flag::H);
        let c = self.test_flag(Flag::C);
        let nf = match flag {
            Flag::Z => flags_byte(value, n, h, c),
            Flag::N => flags_byte(z, value, h, c),
            Flag::H => flags_byte(z, n, value, c),
            Flag::C => flags_byte(z, n, h, value),
        };
        self.f = nf;
    }

    /// Reads the byte at PC and advances PC by one, wrapping at the end
    /// of the address space. The cycle counter is not touched.
    pub fn pc_read_next(&mut self, mem: &Memory) -> (b: u8)
        ensures
            b == mem@[old(self).pc as int],
            *final(self) == (CPU { pc: spec_winc16(old(self).pc), ..*old(self) }),
    {
        let pc = self.pc;
        let byte = mem.read_byte(pc);
        self.pc = winc16(pc);
        byte
    }

    /// Reads the next opcode byte at PC, advancing PC and the cycle
    /// counter by one each.
    fn read_next_opcode(&mut self, mem: &Memory) -> (b: u8)
        requires
            old(self).cycle < u128::MAX,
        ensures
            b == mem@[old(self).pc as int],
            *final(self) == (CPU {
                pc: spec_winc16(old(self).pc),
                cycle: (old(self).cycle + 1) as u128,
                ..*old(self)
            }),
    {
        let b = self.pc_read_next(mem);
        self.increment_cycle();
        b
    }

    /// Dispatches one sub-cycle of the active instruction to its routine.
    fn execute(&mut self, mem: &mut Memory, i: Instr, elapsed: u8, prefixed: bool) -> (done: bool)
        requires
            instr_wf(i, prefixed),
            elapsed <= spec_done_at(i, prefixed),
        ensures
            done == (elapsed == spec_done_at(i, prefixed)),
            done ==> *final(self) == spec_apply_instr(*old(self), old(mem)@, i, prefixed).0,
            done ==> final(mem)@ == spec_apply_instr(*old(self), old(mem)@, i, prefixed).1,
            !done ==> *final(self) == *old(self) && final(mem)@ == old(mem)@,
    {
        proof {
            reveal(crate::semantics::spec_apply_instr);
        }
        match i {
            Instr::NOP => {
                self.nop();
                true
            },
            Instr::DAA => {
                self.daa();
                true
            },
            Instr::CPL => {
                self.cpl();
                true
            },
            Instr::CCF => {
                self.ccf();
                true
            },
            Instr::SCF => {
                self.scf();
                true
            },
            Instr::HALT => {
                self.halt();
                true
            },
            Instr::STOP => {
                self.stop();
                true
            },
            Instr::DI => {
                self.di();
                true
            },
            Instr::EI => {
                self.ei();
                true
            },
            Instr::LD(op1, op2) => self.ld(mem, elapsed, op1, op2),
            Instr::LD16(op1, op2) => self.ld16(mem, elapsed, op1, op2),
            Instr::LDH(op1, op2) => self.ldh(mem, elapsed, op1, op2),
            Instr::PUSH(op) => self.push(mem, elapsed, op),
            Instr::POP(op) => self.pop(&*mem, elapsed, op),
            Instr::ADD(op1, op2) => self.add(&*mem, elapsed, op1, op2),
            Instr::ADD16(op1, op2) => self.add16(&*mem, elapsed, op1, op2),
            Instr::ADC(op1, op2) => self.adc(&*mem, elapsed, op1, op2),
            Instr::SUB(op) => self.sub(&*mem, elapsed, op),
            Instr::SBC(op) => self.sbc(&*mem, elapsed, op),
            Instr::AND(op) => self.and(&*mem, elapsed, op),
            Instr::OR(op) => self.or(&*mem, elapsed, op),
            Instr::XOR(op) => self.xor(&*mem, elapsed, op),
            Instr::CP(op) => self.cp(&*mem, elapsed, op),
            Instr::INC(op) => self.inc(mem, elapsed, op),
            Instr::INC16(op) => self.inc16(elapsed, op),
            Instr::DEC(op) => self.dec(mem, elapsed, op),
            Instr::DEC16(op) => self.dec16(elapsed, op),
            Instr::RLC(op) => self.rlc(mem, elapsed, op, prefixed),
            Instr::RL(op) => self.rl(mem, elapsed, op, prefixed),
            Instr::RRC(op) => self.rrc(mem, elapsed, op, prefixed),
            Instr::RR(op) => self.rr(mem, elapsed, op, prefixed),
            Instr::SLA(op) => self.sla(mem, elapsed, op),
            Instr::SRA(op) => self.sra(mem, elapsed, op),
            Instr::SRL(op) => self.srl(mem, elapsed, op),
            Instr::BIT(index, op) => self.bit(&*mem, elapsed, index, op),
            Instr::SET(index, op) => self.set(mem, elapsed, index, op),
            Instr::RES(index, op) => self.res(mem, elapsed, index, op),
        }
    }

    /// Enters execution of a freshly decoded instruction: a single-cycle
    /// instruction completes on the fetch cycle itself, anything longer
    /// parks the engine in the executing state.
    #[verifier::rlimit(100)]
    fn begin_execute(&mut self, mem: &mut Memory, i: Instr, prefixed: bool) -> (r: Result<
        (),
        Fault,
    >)
        requires
            instr_wf(i, prefixed),
            old(self).state == CPUState::Fetch || old(self).state == CPUState::FetchPrefixed,
        ensures
            final(self).wf(),
            *final(self) == spec_begin_execute(*old(self), old(mem)@, i, prefixed).0,
            final(mem)@ == spec_begin_execute(*old(self), old(mem)@, i, prefixed).1,
            r == spec_begin_execute(*old(self), old(mem)@, i, prefixed).2,
    {
        let done = self.execute(mem, i, 0, prefixed);
        if done {
            match i {
                Instr::HALT => {
                    proof {
                        assert(self.state == CPUState::Halted) by {
                            reveal(crate::semantics::spec_apply_instr);
                        };
                    }
                },
                Instr::STOP => {
                    proof {
                        assert(self.state == CPUState::Stopped) by {
                            reveal(crate::semantics::spec_apply_instr);
                        };
                    }
                },
                _ => {
                    self.state = CPUState::Fetch;
                },
            }
        } else {
            self.state = CPUState::Executing(i, self.cycle, prefixed);
        }
        Ok(())
    }

    /// One fetch cycle: reads the byte at PC, recognises the escape byte,
    /// or decodes and enters execution; an illegal opcode is surfaced as
    /// a fault carrying the byte and the address it was fetched from.
    fn fetch(&mut self, mem: &mut Memory) -> (r: Result<(), Fault>)
        requires
            old(self).state == CPUState::Fetch,
            old(self).cycle < u128::MAX,
        ensures
            final(self).wf(),
            *final(self) == spec_step(*old(self), old(mem)@).0,
            final(mem)@ == spec_step(*old(self), old(mem)@).1,
            r == spec_step(*old(self), old(mem)@).2,
    {
        let pc0 = self.pc;
        let opcode = self.read_next_opcode(&*mem);
        if opcode == PREFIX {
            self.state = CPUState::FetchPrefixed;
            return Ok(());
        }
        match decode_unprefixed(opcode) {
            Ok(i) => self.begin_execute(mem, i, false),
            Err(e) => Err(Fault { illegal: e, pc: pc0 }),
        }
    }

    /// One prefixed-fetch cycle: reads the byte after the escape byte and
    /// decodes it via the prefixed table.
    fn fetch_prefixed(&mut self, mem: &mut Memory) -> (r: Result<(), Fault>)
        requires
            old(self).state == CPUState::FetchPrefixed,
            old(self).cycle < u128::MAX,
        ensures
            final(self).wf(),
            *final(self) == spec_step(*old(self), old(mem)@).0,
            final(mem)@ == spec_step(*old(self), old(mem)@).1,
            r == spec_step(*old(self), old(mem)@).2,
    {
        let pc0 = self.pc;
        let opcode = self.read_next_opcode(&*mem);
        match decode_prefixed(opcode) {
            Ok(i) => self.begin_execute(mem, i, true),
            Err(e) => Err(Fault { illegal: e, pc: pc0 }),
        }
    }

    /// Performs exactly one machine cycle of work and never blocks: one
    /// fetch, one prefixed fetch, or one sub-cycle of the executing
    /// instruction; the halted and stopped states ignore the step. The
    /// whole step is the pure function `spec_step` of the core and
    /// memory, so runs are reproducible and replayable.
    #[verifier::rlimit(100)]
    pub fn cycle(&mut self, mem: &mut Memory) -> (r: Result<(), Fault>)
        requires
            old(self).wf(),
            old(self).cycle < u128::MAX,
        ensures
            final(self).wf(),
            *final(self) == spec_step(*old(self), old(mem)@).0,
            final(mem)@ == spec_step(*old(self), old(mem)@).1,
            r == spec_step(*old(self), old(mem)@).2,
    {
        match self.state {
            CPUState::Fetch => self.fetch(mem),
            CPUState::FetchPrefixed => self.fetch_prefixed(mem),
            CPUState::Executing(i, start, prefixed) => {
                self.increment_cycle();
                proof {
                    assert(spec_done_at(i, prefixed) <= 6);
                }
                let elapsed: u8 = (self.cycle - start) as u8;
                let done = self.execute(mem, i, elapsed, prefixed);
                if done {
                    match i {
                        Instr::HALT => {
                            proof {
                                assert(self.state == CPUState::Halted) by {
                                    reveal(crate::semantics::spec_apply_instr);
                                };
                            }
                        },
                        Instr::STOP => {
                            proof {
                                assert(self.state == CPUState::Stopped) by {
                                    reveal(crate::semantics::spec_apply_instr);
                                };
                            }
                        },
                        _ => {
                            self.state = CPUState::Fetch;
                        },
                    }
                }
                Ok(())
            },
            CPUState::Halted => Ok(()),
            CPUState::Stopped => Ok(()),
        }
    }

    /// If the core is halted or stopped, an external wake condition (a
    /// pending interrupt, or a button event while stopped) returns it to
    /// the fetch state; otherwise nothing changes.
    pub fn wake(&mut self)
        ensures
            *final(self) == (match old(self).state {
                CPUState::Halted => CPU { state: CPUState::Fetch, ..*old(self) },
                CPUState::Stopped => CPU { state: CPUState::Fetch, ..*old(self) },
                _ => *old(self),
            }),
    {
        match self.state {
            CPUState::Halted => self.state = CPUState::Fetch,
            CPUState::Stopped => self.state = CPUState::Fetch,
            _ => {},
        }
    }
}

} // verus!
