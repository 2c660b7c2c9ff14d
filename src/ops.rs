//! The semantics of each opcode. A handler changes the machine state and says
//! how the program counter moves; the cycle driver then moves it.
use vstd::prelude::*;
use crate::machine::{Chip8, Chip8View, FLAG_REGISTER, MEMORY_SIZE, STACK_DEPTH};

verus! {

/// How the program counter moves after an instruction.
#[allow(non_camel_case_types)]
#[derive(Clone, Copy, Debug, PartialEq, Eq, Structural)]
pub enum ProgramCounterInstruction {
    /// Advance to the following instruction (by 2).
    NEXT,
    /// Skip the following instruction (advance by 4).
    SKIP,
    /// Continue at the given address.
    GOTO(u16),
}

/// The conditions under which the machine cannot go on.
#[derive(Clone, Copy, Debug, PartialEq, Eq, Structural)]
pub enum Fault {
    /// The instruction word matches no known opcode.
    DecodeError,
    /// A return was executed with an empty call stack.
    StackUnderflow,
    /// A call was executed with the call stack full.
    StackOverflow,
}

/// `SKIP` when the condition holds, `NEXT` otherwise.
pub open spec fn skip_if(cond: bool) -> ProgramCounterInstruction {
    if cond {
        ProgramCounterInstruction::SKIP
    } else {
        ProgramCounterInstruction::NEXT
    }
}

/// Where a return resumes: the instruction after the call recorded at `call`,
/// within the 12-bit address space.
pub open spec fn return_address(call: u16) -> u16 {
    ((call + 2) % (MEMORY_SIZE as int)) as u16
}

/// Whether key number `k` is held down; a number above 0xF names no key.
pub open spec fn key_is_down(key: Seq<bool>, k: u8) -> bool {
    k < 16 && key[k as int]
}

/// 1 when the condition holds, 0 otherwise.
pub open spec fn flag(cond: bool) -> u8 {
    if cond { 1 } else { 0 }
}

/// The state after `8xy4`: the low byte of the sum in Vx, then the carry in VF.
pub open spec fn add_with_carry(s: Chip8View, x: int, y: int) -> Chip8View {
    let sum = s.v[x] + s.v[y];
    s.set_reg(x, (sum % 256) as u8).set_reg(FLAG_REGISTER as int, flag(sum > 255))
}

/// The state after `8xy5`: "no borrow" in VF, then Vx - Vy modulo 256 in Vx.
pub open spec fn sub_xy(s: Chip8View, x: int, y: int) -> Chip8View {
    s.set_reg(FLAG_REGISTER as int, flag(s.v[x] > s.v[y])).set_reg(
        x,
        ((s.v[x] - s.v[y] + 256) % 256) as u8,
    )
}

/// The state after `8xy7`: "no borrow" in VF, then Vy - Vx modulo 256 in Vx.
pub open spec fn sub_yx(s: Chip8View, x: int, y: int) -> Chip8View {
    s.set_reg(FLAG_REGISTER as int, flag(s.v[y] > s.v[x])).set_reg(
        x,
        ((s.v[y] - s.v[x] + 256) % 256) as u8,
    )
}

/// The state after `8xy6`: the low bit of Vx in VF, then Vx halved.
pub open spec fn shift_right(s: Chip8View, x: int) -> Chip8View {
    s.set_reg(FLAG_REGISTER as int, (s.v[x] % 2) as u8).set_reg(x, (s.v[x] / 2) as u8)
}

/// The state after `8xyE`: the high bit of Vx in VF, then Vx doubled modulo 256.
pub open spec fn shift_left(s: Chip8View, x: int) -> Chip8View {
    s.set_reg(FLAG_REGISTER as int, (s.v[x] / 128) as u8).set_reg(x, ((s.v[x] * 2) % 256) as u8)
}

/// Relies on `rand::random::<u8>`: a byte drawn from the thread-local generator.
/// Nothing is promised of its value.
#[verifier::external_body]
pub(crate) fn draw_random_byte() -> (b: u8) {
    rand::random::<u8>()
}

impl Chip8 {
    /// `00EE`: returns from a subroutine to the instruction after the call.
    pub fn op_0x00ee(&mut self) -> (r: Result<ProgramCounterInstruction, Fault>)
        ensures
            old(self)@.stack.len() == 0 ==> r == Err::<ProgramCounterInstruction, Fault>(
                Fault::StackUnderflow,
            ) && final(self)@ == old(self)@,
            old(self)@.stack.len() > 0 ==> r == Ok::<ProgramCounterInstruction, Fault>(
                ProgramCounterInstruction::GOTO(return_address(old(self)@.stack.last())),
            ) && final(self)@ == old(self)@.pop(),
    {
        match self.stack.pop() {
            Some(call) => {
                let back = ((call as u32 + 2) % (MEMORY_SIZE as u32)) as u16;
                Ok(ProgramCounterInstruction::GOTO(back))
            },
            None => Err(Fault::StackUnderflow),
        }
    }

    /// `1nnn`: jumps to `nnn`.
    pub fn op_0x1nnn(&self, nnn: u16) -> (r: ProgramCounterInstruction)
        ensures
            r == ProgramCounterInstruction::GOTO(nnn),
    {
        ProgramCounterInstruction::GOTO(nnn)
    }

    /// `2nnn`: records the address of this call on the stack and jumps to `nnn`.
    pub fn op_0x2nnn(&mut self, nnn: u16) -> (r: Result<ProgramCounterInstruction, Fault>)
        ensures
            old(self)@.stack.len() >= STACK_DEPTH ==> r == Err::<ProgramCounterInstruction, Fault>(
                Fault::StackOverflow,
            ) && final(self)@ == old(self)@,
            old(self)@.stack.len() < STACK_DEPTH ==> r == Ok::<ProgramCounterInstruction, Fault>(
                ProgramCounterInstruction::GOTO(nnn),
            ) && final(self)@ == old(self)@.push(old(self).pc),
    {
        if self.stack.len() >= STACK_DEPTH {
            return Err(Fault::StackOverflow);
        }
        self.stack.push(self.pc);
        Ok(ProgramCounterInstruction::GOTO(nnn))
    }

    /// `3xnn`: skips the next instruction when Vx equals `nn`.
    pub fn op_0x3xnn(&self, x: usize, nn: u8) -> (r: ProgramCounterInstruction)
        requires
            x < 16,
        ensures
            r == skip_if(self.v[x as int] == nn),
    {
        if self.v[x] == nn {
            ProgramCounterInstruction::SKIP
        } else {
            ProgramCounterInstruction::NEXT
        }
    }

    /// `4xnn`: skips the next instruction when Vx differs from `nn`.
    pub fn op_0x4xnn(&self, x: usize, nn: u8) -> (r: ProgramCounterInstruction)
        requires
            x < 16,
        ensures
            r == skip_if(self.v[x as int] != nn),
    {
        if self.v[x] != nn {
            ProgramCounterInstruction::SKIP
        } else {
            ProgramCounterInstruction::NEXT
        }
    }

    /// `5xy0`: skips the next instruction when Vx equals Vy.
    pub fn op_0x5xy0(&self, x: usize, y: usize) -> (r: ProgramCounterInstruction)
        requires
            x < 16,
            y < 16,
        ensures
            r == skip_if(self.v[x as int] == self.v[y as int]),
    {
        if self.v[x] == self.v[y] {
            ProgramCounterInstruction::SKIP
        } else {
            ProgramCounterInstruction::NEXT
        }
    }

    /// `6xnn`: sets Vx to `nn`.
    pub fn op_0x6xnn(&mut self, x: usize, nn: u8) -> (r: ProgramCounterInstruction)
        requires
            x < 16,
        ensures
            r == ProgramCounterInstruction::NEXT,
            final(self)@ == old(self)@.set_reg(x as int, nn),
    {
        self.v[x] = nn;
        ProgramCounterInstruction::NEXT
    }

    /// `7xnn`: adds `nn` to Vx modulo 256; VF is left alone.
    pub fn op_0x7xnn(&mut self, x: usize, nn: u8) -> (r: ProgramCounterInstruction)
        requires
            x < 16,
        ensures
            r == ProgramCounterInstruction::NEXT,
            final(self)@ == old(self)@.set_reg(x as int, ((old(self).v[x as int] + nn) % 256) as u8),
    {
        let sum = self.v[x] as u16 + nn as u16;
        self.v[x] = (sum % 256) as u8;
        ProgramCounterInstruction::NEXT
    }

    /// `8xy0`: sets Vx to Vy.
    pub fn op_0x8xy0(&mut self, x: usize, y: usize) -> (r: ProgramCounterInstruction)
        requires
            x < 16,
            y < 16,
        ensures
            r == ProgramCounterInstruction::NEXT,
            final(self)@ == old(self)@.set_reg(x as int, old(self).v[y as int]),
    {
        self.v[x] = self.v[y];
        ProgramCounterInstruction::NEXT
    }

    /// `8xy1`: sets Vx to Vx OR Vy.
    pub fn op_0x8xy1(&mut self, x: usize, y: usize) -> (r: ProgramCounterInstruction)
        requires
            x < 16,
            y < 16,
        ensures
            r == ProgramCounterInstruction::NEXT,
            final(self)@ == old(self)@.set_reg(x as int, old(self).v[x as int] | old(self).v[y as int]),
    {
        self.v[x] = self.v[x] | self.v[y];
        ProgramCounterInstruction::NEXT
    }

    /// `8xy2`: sets Vx to Vx AND Vy.
    pub fn op_0x8xy2(&mut self, x: usize, y: usize) -> (r: ProgramCounterInstruction)
        requires
            x < 16,
            y < 16,
        ensures
            r == ProgramCounterInstruction::NEXT,
            final(self)@ == old(self)@.set_reg(x as int, old(self).v[x as int] & old(self).v[y as int]),
    {
        self.v[x] = self.v[x] & self.v[y];
        ProgramCounterInstruction::NEXT
    }

    /// `8xy3`: sets Vx to Vx XOR Vy.
    pub fn op_0x8xy3(&mut self, x: usize, y: usize) -> (r: ProgramCounterInstruction)
        requires
            x < 16,
            y < 16,
        ensures
            r == ProgramCounterInstruction::NEXT,
            final(self)@ == old(self)@.set_reg(x as int, old(self).v[x as int] ^ old(self).v[y as int]),
    {
        self.v[x] = self.v[x] ^ self.v[y];
        ProgramCounterInstruction::NEXT
    }

    /// `8xy4`: adds Vy to Vx modulo 256 and sets VF to the carry.
    pub fn op_0x8xy4(&mut self, x: usize, y: usize) -> (r: ProgramCounterInstruction)
        requires
            x < 16,
            y < 16,
        ensures
            r == ProgramCounterInstruction::NEXT,
            final(self)@ == add_with_carry(old(self)@, x as int, y as int),
    {
        let sum = self.v[x] as u16 + self.v[y] as u16;
        self.v[x] = (sum % 256) as u8;
        self.v[FLAG_REGISTER] = if sum > 0xFF { 1 } else { 0 };
        ProgramCounterInstruction::NEXT
    }

    /// `8xy5`: sets VF to 1 when Vx > Vy (no borrow) and 0 otherwise, then
    /// subtracts Vy from Vx modulo 256.
    pub fn op_0x8xy5(&mut self, x: usize, y: usize) -> (r: ProgramCounterInstruction)
        requires
            x < 16,
            y < 16,
        ensures
            r == ProgramCounterInstruction::NEXT,
            final(self)@ == sub_xy(old(self)@, x as int, y as int),
    {
        let vx = self.v[x];
        let vy = self.v[y];
        let diff = ((vx as u16 + 256 - vy as u16) % 256) as u8;
        self.v[FLAG_REGISTER] = if vx > vy { 1 } else { 0 };
        self.v[x] = diff;
        ProgramCounterInstruction::NEXT
    }

    /// `8xy6`: stores the low bit of Vx in VF, then shifts Vx right by one.
    pub fn op_0x8xy6(&mut self, x: usize) -> (r: ProgramCounterInstruction)
        requires
            x < 16,
        ensures
            r == ProgramCounterInstruction::NEXT,
            final(self)@ == shift_right(old(self)@, x as int),
    {
        let vx = self.v[x];
        self.v[FLAG_REGISTER] = vx & 0x1;
        self.v[x] = vx >> 1;
        assert(vx & 0x1 == vx % 2) by (bit_vector);
        assert(vx >> 1 == vx / 2) by (bit_vector);
        ProgramCounterInstruction::NEXT
    }

    /// `8xy7`: sets VF to 1 when Vy > Vx (no borrow) and 0 otherwise, then
    /// sets Vx to Vy - Vx modulo 256.
    pub fn op_0x8xy7(&mut self, x: usize, y: usize) -> (r: ProgramCounterInstruction)
        requires
            x < 16,
            y < 16,
        ensures
            r == ProgramCounterInstruction::NEXT,
            final(self)@ == sub_yx(old(self)@, x as int, y as int),
    {
        let vx = self.v[x];
        let vy = self.v[y];
        let diff = ((vy as u16 + 256 - vx as u16) % 256) as u8;
        self.v[FLAG_REGISTER] = if vy > vx { 1 } else { 0 };
        self.v[x] = diff;
        ProgramCounterInstruction::NEXT
    }

    /// `8xyE`: stores the high bit of Vx in VF, then shifts Vx left by one,
    /// dropping the bit shifted out.
    pub fn op_0x8xye(&mut self, x: usize) -> (r: ProgramCounterInstruction)
        requires
            x < 16,
        ensures
            r == ProgramCounterInstruction::NEXT,
            final(self)@ == shift_left(old(self)@, x as int),
    {
        let vx = self.v[x];
        self.v[FLAG_REGISTER] = (vx & 0b1000_0000) >> 7;
        self.v[x] = ((vx as u16 * 2) % 256) as u8;
        assert((vx & 0b1000_0000) >> 7 == vx / 128) by (bit_vector);
        ProgramCounterInstruction::NEXT
    }

    /// `9xy0`: skips the next instruction when Vx differs from Vy.
    pub fn op_0x9xy0(&self, x: usize, y: usize) -> (r: ProgramCounterInstruction)
        requires
            x < 16,
            y < 16,
        ensures
            r == skip_if(self.v[x as int] != self.v[y as int]),
    {
        if self.v[x] != self.v[y] {
            ProgramCounterInstruction::SKIP
        } else {
            ProgramCounterInstruction::NEXT
        }
    }

    /// `Annn`: sets the index register to `nnn`.
    pub fn op_0xannn(&mut self, nnn: u16) -> (r: ProgramCounterInstruction)
        ensures
            r == ProgramCounterInstruction::NEXT,
            final(self)@ == old(self)@.set_index(nnn),
    {
        self.i = nnn;
        ProgramCounterInstruction::NEXT
    }

    /// `Bnnn`: jumps to `nnn` plus V0.
    pub fn op_0xbnnn(&mut self, nnn: u16) -> (r: ProgramCounterInstruction)
        requires
            nnn < 4096,
        ensures
            r == ProgramCounterInstruction::GOTO((nnn + old(self).v[0]) as u16),
            final(self)@ == old(self)@,
    {
        ProgramCounterInstruction::GOTO(self.v[0] as u16 + nnn)
    }

    /// `Ex9E`: skips the next instruction when the key numbered Vx is down.
    pub fn op_0xex9e(&self, x: usize) -> (r: ProgramCounterInstruction)
        requires
            x < 16,
        ensures
            r == skip_if(key_is_down(self.key@, self.v[x as int])),
    {
        if self.key_pressed(self.v[x]) {
            ProgramCounterInstruction::SKIP
        } else {
            ProgramCounterInstruction::NEXT
        }
    }

    /// `ExA1`: skips the next instruction when the key numbered Vx is up.
    pub fn op_0xexa1(&self, x: usize) -> (r: ProgramCounterInstruction)
        requires
            x < 16,
        ensures
            r == skip_if(!key_is_down(self.key@, self.v[x as int])),
    {
        if !self.key_pressed(self.v[x]) {
            ProgramCounterInstruction::SKIP
        } else {
            ProgramCounterInstruction::NEXT
        }
    }

    /// `Cxnn` with the random byte given: sets Vx to `random` AND `nn`.
    pub fn op_0xcxnn_using(&mut self, x: usize, nn: u8, random: u8) -> (r: ProgramCounterInstruction)
        requires
            x < 16,
        ensures
            r == ProgramCounterInstruction::NEXT,
            final(self)@ == old(self)@.set_reg(x as int, random & nn),
    {
        self.v[x] = random & nn;
        ProgramCounterInstruction::NEXT
    }

    /// `Cxnn`: sets Vx to a uniformly drawn random byte AND `nn`.
    pub fn op_0xcxnn(&mut self, x: usize, nn: u8) -> (r: ProgramCounterInstruction)
        requires
            x < 16,
        ensures
            r == ProgramCounterInstruction::NEXT,
            exists|b: u8| final(self)@ == old(self)@.set_reg(x as int, b & nn),
    {
        let b = draw_random_byte();
        self.op_0xcxnn_using(x, nn, b)
    }

    /// Whether key number `k` is held down.
    pub fn key_pressed(&self, k: u8) -> (r: bool)
        ensures
            r == key_is_down(self.key@, k),
    {
        (k as usize) < 16 && self.key[k as usize]
    }

    /// Takes in the current state of the keypad.
    pub fn set_keys(&mut self, keys: [bool; 16])
        ensures
            final(self)@ == (Chip8View { key: keys@, ..old(self)@ }),
    {
        self.key = keys;
    }
}

} // verus!
