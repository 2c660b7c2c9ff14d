//! Dispatching a decoded instruction, moving the program counter, ticking the
//! timers, and one full fetch-decode-execute cycle.
use vstd::prelude::*;
use crate::decode::{decode, decode_spec, word_at, Instruction};
use crate::display::{blank_screen, draw_sprite};
use crate::machine::{Chip8, Chip8View, MEMORY_SIZE, STACK_DEPTH};
use crate::ops::{
    add_with_carry, key_is_down, return_address, shift_left, shift_right, skip_if, sub_xy, sub_yx,
    Fault, ProgramCounterInstruction,
};

verus! {

/// Why the machine stopped: the fault, the instruction word that raised it and
/// the address it was fetched from.
#[derive(Clone, Copy, Debug, PartialEq, Eq, Structural)]
pub struct Halt {
    pub fault: Fault,
    pub opcode: u16,
    pub pc: u16,
}

/// The state change and program-counter move of one decoded instruction, with
/// `random` as the byte that `Cxnn` draws. On a fault the state is unchanged.
pub open spec fn execute_spec(s: Chip8View, ins: Instruction, random: u8) -> (
    Chip8View,
    Result<ProgramCounterInstruction, Fault>,
) {
    let x = ins.x as int;
    let y = ins.y as int;
    let next = Ok(ProgramCounterInstruction::NEXT);
    let unknown = (s, Err(Fault::DecodeError));
    if ins.family == 0x0 {
        if ins.opcode == 0x00E0 {
            (s.set_screen(blank_screen()), next)
        } else if ins.opcode == 0x00EE {
            if s.stack.len() == 0 {
                (s, Err(Fault::StackUnderflow))
            } else {
                (s.pop(), Ok(ProgramCounterInstruction::GOTO(return_address(s.stack.last()))))
            }
        } else {
            unknown
        }
    } else if ins.family == 0x1 {
        (s, Ok(ProgramCounterInstruction::GOTO(ins.nnn)))
    } else if ins.family == 0x2 {
        if s.stack.len() >= STACK_DEPTH {
            (s, Err(Fault::StackOverflow))
        } else {
            (s.push(s.pc), Ok(ProgramCounterInstruction::GOTO(ins.nnn)))
        }
    } else if ins.family == 0x3 {
        (s, Ok(skip_if(s.v[x] == ins.nn)))
    } else if ins.family == 0x4 {
        (s, Ok(skip_if(s.v[x] != ins.nn)))
    } else if ins.family == 0x5 && ins.n == 0 {
        (s, Ok(skip_if(s.v[x] == s.v[y])))
    } else if ins.family == 0x6 {
        (s.set_reg(x, ins.nn), next)
    } else if ins.family == 0x7 {
        (s.set_reg(x, ((s.v[x] + ins.nn) % 256) as u8), next)
    } else if ins.family == 0x8 {
        if ins.n == 0x0 {
            (s.set_reg(x, s.v[y]), next)
        } else if ins.n == 0x1 {
            (s.set_reg(x, s.v[x] | s.v[y]), next)
        } else if ins.n == 0x2 {
            (s.set_reg(x, s.v[x] & s.v[y]), next)
        } else if ins.n == 0x3 {
            (s.set_reg(x, s.v[x] ^ s.v[y]), next)
        } else if ins.n == 0x4 {
            (add_with_carry(s, x, y), next)
        } else if ins.n == 0x5 {
            (sub_xy(s, x, y), next)
        } else if ins.n == 0x6 {
            (shift_right(s, x), next)
        } else if ins.n == 0x7 {
            (sub_yx(s, x, y), next)
        } else if ins.n == 0xE {
            (shift_left(s, x), next)
        } else {
            unknown
        }
    } else if ins.family == 0x9 && ins.n == 0 {
        (s, Ok(skip_if(s.v[x] != s.v[y])))
    } else if ins.family == 0xA {
        (s.set_index(ins.nnn), next)
    } else if ins.family == 0xB {
        (s, Ok(ProgramCounterInstruction::GOTO((ins.nnn + s.v[0]) as u16)))
    } else if ins.family == 0xC {
        (s.set_reg(x, random & ins.nn), next)
    } else if ins.family == 0xD {
        (draw_sprite(s, x, y, ins.n), next)
    } else if ins.family == 0xE && ins.nn == 0x9E {
        (s, Ok(skip_if(key_is_down(s.key, s.v[x]))))
    } else if ins.family == 0xE && ins.nn == 0xA1 {
        (s, Ok(skip_if(!key_is_down(s.key, s.v[x]))))
    } else {
        unknown
    }
}

/// The program counter after a move, kept within the 12-bit address space.
pub open spec fn next_pc(pc: u16, t: ProgramCounterInstruction) -> u16 {
    match t {
        ProgramCounterInstruction::NEXT => ((pc + 2) % MEMORY_SIZE as int) as u16,
        ProgramCounterInstruction::SKIP => ((pc + 4) % MEMORY_SIZE as int) as u16,
        ProgramCounterInstruction::GOTO(addr) => (addr as int % MEMORY_SIZE as int) as u16,
    }
}

/// A timer after one tick: one less, but never below zero.
pub open spec fn tick_value(t: u8) -> u8 {
    if t > 0 { (t - 1) as u8 } else { 0 }
}

/// The state after both timers tick.
pub open spec fn tick(s: Chip8View) -> Chip8View {
    Chip8View { delay_timer: tick_value(s.delay_timer), sound_timer: tick_value(s.sound_timer), ..s }
}

/// One cycle from state `s`, with `random` as the byte that `Cxnn` draws:
/// the new state, and either whether the tone ended (the sound timer went
/// from 1 to 0) or why the machine halted. A halt changes nothing.
pub open spec fn cycle_spec(s: Chip8View, random: u8) -> (Chip8View, Result<bool, Halt>) {
    let w = word_at(s.memory, s.pc as int);
    let (s1, r) = execute_spec(s, decode_spec(w), random);
    match r {
        Ok(t) => (tick(Chip8View { pc: next_pc(s.pc, t), ..s1 }), Ok(s1.sound_timer == 1)),
        Err(f) => (s, Err(Halt { fault: f, opcode: w, pc: s.pc })),
    }
}

impl Chip8 {
    /// Executes one decoded instruction, with `random` as the byte that `Cxnn`
    /// uses, and says how the program counter moves. On a fault nothing changes.
    pub fn execute(&mut self, ins: Instruction, random: u8) -> (r: Result<
        ProgramCounterInstruction,
        Fault,
    >)
        requires
            ins == decode_spec(ins.opcode),
        ensures
            (final(self)@, r) == execute_spec(old(self)@, ins, random),
    {
        let x = ins.x;
        let y = ins.y;
        let n = ins.n;
        let nn = ins.nn;
        let nnn = ins.nnn;
        assert(x < 16 && y < 16 && n < 16 && nnn < 4096);
        match ins.family {
            0x0 => if ins.opcode == 0x00E0 {
                Ok(self.op_0x00e0())
            } else if ins.opcode == 0x00EE {
                self.op_0x00ee()
            } else {
                Err(Fault::DecodeError)
            },
            0x1 => Ok(self.op_0x1nnn(nnn)),
            0x2 => self.op_0x2nnn(nnn),
            0x3 => Ok(self.op_0x3xnn(x, nn)),
            0x4 => Ok(self.op_0x4xnn(x, nn)),
            0x5 => if n == 0 {
                Ok(self.op_0x5xy0(x, y))
            } else {
                Err(Fault::DecodeError)
            },
            0x6 => Ok(self.op_0x6xnn(x, nn)),
            0x7 => Ok(self.op_0x7xnn(x, nn)),
            0x8 => match n {
                0x0 => Ok(self.op_0x8xy0(x, y)),
                0x1 => Ok(self.op_0x8xy1(x, y)),
                0x2 => Ok(self.op_0x8xy2(x, y)),
                0x3 => Ok(self.op_0x8xy3(x, y)),
                0x4 => Ok(self.op_0x8xy4(x, y)),
                0x5 => Ok(self.op_0x8xy5(x, y)),
                0x6 => Ok(self.op_0x8xy6(x)),
                0x7 => Ok(self.op_0x8xy7(x, y)),
                0xE => Ok(self.op_0x8xye(x)),
                _ => Err(Fault::DecodeError),
            },
            0x9 => if n == 0 {
                Ok(self.op_0x9xy0(x, y))
            } else {
                Err(Fault::DecodeError)
            },
            0xA => Ok(self.op_0xannn(nnn)),
            0xB => Ok(self.op_0xbnnn(nnn)),
            0xC => Ok(self.op_0xcxnn_using(x, nn, random)),
            0xD => Ok(self.op_0xdxyn(x, y, n)),
            0xE => if nn == 0x9E {
                Ok(self.op_0xex9e(x))
            } else if nn == 0xA1 {
                Ok(self.op_0xexa1(x))
            } else {
                Err(Fault::DecodeError)
            },
            _ => Err(Fault::DecodeError),
        }
    }

    /// Moves the program counter as `t` says.
    pub fn apply_pc(&mut self, t: ProgramCounterInstruction)
        ensures
            final(self)@ == (Chip8View { pc: next_pc(old(self).pc, t), ..old(self)@ }),
    {
        let pc = self.pc as u32;
        let target = match t {
            ProgramCounterInstruction::NEXT => pc + 2,
            ProgramCounterInstruction::SKIP => pc + 4,
            ProgramCounterInstruction::GOTO(addr) => addr as u32,
        };
        self.pc = (target % (MEMORY_SIZE as u32)) as u16;
    }

    /// Counts both timers down by one, stopping at zero. Returns whether the
    /// sound timer went from 1 to 0, the moment the tone ends.
    pub fn tick_timers(&mut self) -> (tone_end: bool)
        ensures
            final(self)@ == tick(old(self)@),
            tone_end == (old(self).sound_timer == 1),
    {
        if self.delay_timer > 0 {
            self.delay_timer = self.delay_timer - 1;
        }
        let tone_end = self.sound_timer == 1;
        if self.sound_timer > 0 {
            self.sound_timer = self.sound_timer - 1;
        }
        tone_end
    }

    /// One cycle with `random` as the byte that `Cxnn` uses: fetch, decode,
    /// execute, move the program counter, tick the timers. Returns whether the
    /// tone ended, or, on a fault, why the machine halted, with nothing changed.
    pub fn emulate_cycle_using(&mut self, random: u8) -> (r: Result<bool, Halt>)
        ensures
            (final(self)@, r) == cycle_spec(old(self)@, random),
            old(self).wf() ==> final(self).wf(),
    {
        let pc = self.pc;
        let opcode = self.fetch();
        let ins = decode(opcode);
        match self.execute(ins, random) {
            Ok(t) => {
                self.apply_pc(t);
                Ok(self.tick_timers())
            },
            Err(fault) => Err(Halt { fault, opcode, pc }),
        }
    }

    /// One cycle, drawing a random byte for `Cxnn`. Whatever byte was drawn,
    /// the outcome is that of `emulate_cycle_using` with it.
    pub fn emulate_cycle(&mut self) -> (r: Result<bool, Halt>)
        ensures
            exists|b: u8| (final(self)@, r) == #[trigger] cycle_spec(old(self)@, b),
            old(self).wf() ==> final(self).wf(),
    {
        let b = crate::ops::draw_random_byte();
        self.emulate_cycle_using(b)
    }
}

} // verus!
