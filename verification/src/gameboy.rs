//! The flat 64 KiB byte-addressable memory space the core consumes, and
//! the console value that owns one memory and one processor core. Bank
//! switching, mirroring and memory-mapped peripherals are the memory
//! collaborator's responsibility; the core sees plain bytes.

use vstd::prelude::*;
use crate::cpu::CPU;

verus! {

/// Number of addressable bytes: one byte for every 16-bit address.
pub const MEMORY_SIZE: usize = 0x10000;

/// The flat byte-addressable memory space. Every 16-bit address reads and
/// writes exactly one byte; no access can fail.
pub struct Memory {
    bytes: Vec<u8>,
}

impl View for Memory {
    type V = Seq<u8>;

    closed spec fn view(&self) -> Seq<u8> {
        self.bytes@
    }
}

impl Memory {
    /// One byte of storage per address, always.
    #[verifier::type_invariant]
    spec fn inv(self) -> bool {
        self.bytes@.len() == MEMORY_SIZE
    }

    /// A fresh memory with every byte zero.
    pub fn new() -> (m: Memory)
        ensures
            m@.len() == MEMORY_SIZE,
            forall|i: int| 0 <= i < MEMORY_SIZE ==> m@[i] == 0u8,
    {
        let bytes: Vec<u8> = vec![0u8; MEMORY_SIZE];
        Memory { bytes }
    }

    /// Reads the byte at an address.
    pub fn read_byte(&self, addr: u16) -> (b: u8)
        ensures
            b == self@[addr as int],
    {
        proof {
            use_type_invariant(self);
        }
        self.bytes[addr as usize]
    }

    /// Writes the byte at an address.
    pub fn write_byte(&mut self, addr: u16, value: u8)
        ensures
            final(self)@ == old(self)@.update(addr as int, value),
    {
        proof {
            use_type_invariant(&*self);
        }
        self.bytes[addr as usize] = value;
    }
}

/// The console: the memory space and the processor core.
pub struct GameBoy {
    /// The flat memory space.
    pub memory: Memory,
    /// The processor core.
    pub cpu: CPU,
}

impl GameBoy {
    /// A fresh console: zeroed memory and a core at its reset state.
    pub fn new() -> (gb: GameBoy)
        ensures
            gb.memory@.len() == MEMORY_SIZE,
            forall|i: int| 0 <= i < MEMORY_SIZE ==> gb.memory@[i] == 0u8,
            gb.cpu == CPU::spec_new(),
    {
        GameBoy { memory: Memory::new(), cpu: CPU::new() }
    }
}

} // verus!
