//! Fetching an instruction word from memory and splitting it into fields.
use vstd::prelude::*;
use crate::machine::{Chip8, MEMORY_SIZE};

verus! {

/// One instruction word with its commonly used operand fields.
#[derive(Clone, Copy, Debug, PartialEq, Eq, Structural)]
pub struct Instruction {
    /// The whole 16-bit word.
    pub opcode: u16,
    /// Top nibble: the opcode family.
    pub family: u8,
    /// Second nibble: a register index.
    pub x: usize,
    /// Third nibble: a register index.
    pub y: usize,
    /// Low nibble: a 4-bit immediate.
    pub n: u8,
    /// Low byte: an 8-bit immediate.
    pub nn: u8,
    /// Low twelve bits: an address.
    pub nnn: u16,
}

/// The fields of instruction word `w`, read as digits of its base-16 form.
pub open spec fn decode_spec(w: u16) -> Instruction {
    Instruction {
        opcode: w,
        family: (w / 4096) as u8,
        x: ((w / 256) % 16) as usize,
        y: ((w / 16) % 16) as usize,
        n: (w % 16) as u8,
        nn: (w % 256) as u8,
        nnn: (w % 4096) as u16,
    }
}

/// The big-endian word whose high byte sits at `addr` and low byte at the next
/// address, both taken modulo the size of memory.
pub open spec fn word_at(memory: Seq<u8>, addr: int) -> u16 {
    (memory[addr % (MEMORY_SIZE as int)] * 256 + memory[(addr + 1) % (MEMORY_SIZE as int)]) as u16
}

/// Splits an instruction word into its fields.
pub fn decode(opcode: u16) -> (ins: Instruction)
    ensures
        ins == decode_spec(opcode),
        ins.x < 16,
        ins.y < 16,
        ins.n < 16,
        ins.nnn < 4096,
{
    let family = ((opcode & 0xF000) >> 12) as u8;
    let x = ((opcode & 0x0F00) >> 8) as usize;
    let y = ((opcode & 0x00F0) >> 4) as usize;
    let n = (opcode & 0x000F) as u8;
    let nn = (opcode & 0x00FF) as u8;
    let nnn = opcode & 0x0FFF;
    assert(((opcode & 0xF000) >> 12) == opcode / 4096) by (bit_vector);
    assert(((opcode & 0x0F00) >> 8) == (opcode / 256) % 16) by (bit_vector);
    assert(((opcode & 0x00F0) >> 4) == (opcode / 16) % 16) by (bit_vector);
    assert((opcode & 0x000F) == opcode % 16) by (bit_vector);
    assert((opcode & 0x00FF) == opcode % 256) by (bit_vector);
    assert((opcode & 0x0FFF) == opcode % 4096) by (bit_vector);
    Instruction { opcode, family, x, y, n, nn, nnn }
}

impl Chip8 {
    /// Reads the instruction word at the program counter.
    pub fn fetch(&self) -> (w: u16)
        ensures
            w == word_at(self.memory@, self.pc as int),
    {
        let at = (self.pc as usize) % MEMORY_SIZE;
        let next = (at + 1) % MEMORY_SIZE;
        assert(next as int == (self.pc + 1) % (MEMORY_SIZE as int));
        (self.memory[at] as u16) * 256 + (self.memory[next] as u16)
    }
}

} // verus!
