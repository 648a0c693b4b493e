//! Cycle-stepped processor core of an 8-bit handheld-console emulator.
//!
//! The core fetches bytes from a flat 64 KiB memory space, decodes them into
//! structured instructions over a base and an escape-prefixed opcode table,
//! and executes them with cycle-accurate timing and bit-exact flag semantics.

pub mod alu;
pub mod cpu;
pub mod decode;
pub mod gameboy;
pub mod instr;
pub mod instr_funcs;
pub mod operand;
pub mod regs;
pub mod semantics;
