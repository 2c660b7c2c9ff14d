//! The machine state and its mathematical model.
use vstd::prelude::*;

verus! {

/// Bytes of addressable memory (a 12-bit address space).
pub const MEMORY_SIZE: usize = 4096;

/// Address at which a program image is loaded and execution starts.
pub const PROGRAM_START: u16 = 0x200;

/// Number of general registers, V0 to VF.
pub const REGISTER_COUNT: usize = 16;

/// Index of VF, the register that doubles as the flag output.
pub const FLAG_REGISTER: usize = 0xF;

/// Deepest the call stack may grow.
pub const STACK_DEPTH: usize = 16;

/// Number of keys on the hexadecimal keypad.
pub const KEY_COUNT: usize = 16;

/// Framebuffer width in pixels.
pub const SCREEN_WIDTH: usize = 64;

/// Framebuffer height in pixels.
pub const SCREEN_HEIGHT: usize = 32;

/// Number of framebuffer pixels, row after row.
pub const SCREEN_SIZE: usize = 2048;

/// The whole state of one machine. Pixel `(col, row)` of the framebuffer is
/// `gfx[row * 64 + col]`.
pub struct Chip8 {
    pub memory: [u8; MEMORY_SIZE],
    pub v: [u8; REGISTER_COUNT],
    pub i: u16,
    pub pc: u16,
    pub gfx: [bool; SCREEN_SIZE],
    pub delay_timer: u8,
    pub sound_timer: u8,
    pub stack: Vec<u16>,
    pub key: [bool; KEY_COUNT],
    pub draw_flag: bool,
}

/// The mathematical model of a `Chip8`: every array and vector seen as a sequence.
pub struct Chip8View {
    pub memory: Seq<u8>,
    pub v: Seq<u8>,
    pub i: u16,
    pub pc: u16,
    pub gfx: Seq<bool>,
    pub delay_timer: u8,
    pub sound_timer: u8,
    pub stack: Seq<u16>,
    pub key: Seq<bool>,
    pub draw_flag: bool,
}

impl View for Chip8 {
    type V = Chip8View;

    open spec fn view(&self) -> Chip8View {
        Chip8View {
            memory: self.memory@,
            v: self.v@,
            i: self.i,
            pc: self.pc,
            gfx: self.gfx@,
            delay_timer: self.delay_timer,
            sound_timer: self.sound_timer,
            stack: self.stack@,
            key: self.key@,
            draw_flag: self.draw_flag,
        }
    }
}

impl Chip8View {
    /// The sequences have the machine's fixed sizes.
    pub open spec fn shaped(self) -> bool {
        &&& self.memory.len() == MEMORY_SIZE
        &&& self.v.len() == REGISTER_COUNT
        &&& self.gfx.len() == SCREEN_SIZE
        &&& self.key.len() == KEY_COUNT
    }

    /// Well-formed: fixed sizes, and the call stack within its bound.
    pub open spec fn wf(self) -> bool {
        &&& self.shaped()
        &&& self.stack.len() <= STACK_DEPTH
    }

    /// The state with register `x` holding `val`.
    pub open spec fn set_reg(self, x: int, val: u8) -> Chip8View {
        Chip8View { v: self.v.update(x, val), ..self }
    }

    /// The state with the index register holding `val`.
    pub open spec fn set_index(self, val: u16) -> Chip8View {
        Chip8View { i: val, ..self }
    }

    /// The state with `addr` pushed on the call stack.
    pub open spec fn push(self, addr: u16) -> Chip8View {
        Chip8View { stack: self.stack.push(addr), ..self }
    }

    /// The state with the top of the call stack removed.
    pub open spec fn pop(self) -> Chip8View {
        Chip8View { stack: self.stack.drop_last(), ..self }
    }

    /// The state with the framebuffer replaced and the redraw flag raised.
    pub open spec fn set_screen(self, gfx: Seq<bool>) -> Chip8View {
        Chip8View { gfx, draw_flag: true, ..self }
    }
}

impl Chip8 {
    pub open spec fn wf(&self) -> bool {
        self@.wf()
    }
}

/// A fresh machine: memory, registers, timers, keys and screen zeroed, the
/// stack empty, execution about to start at the program address.
pub open spec fn initial_state(s: Chip8View) -> bool {
    &&& s.shaped()
    &&& forall|a: int| 0 <= a < MEMORY_SIZE ==> s.memory[a] == 0
    &&& forall|r: int| 0 <= r < REGISTER_COUNT ==> s.v[r] == 0
    &&& forall|p: int| 0 <= p < SCREEN_SIZE ==> !s.gfx[p]
    &&& forall|k: int| 0 <= k < KEY_COUNT ==> !s.key[k]
    &&& s.stack.len() == 0
    &&& s.i == 0
    &&& s.pc == PROGRAM_START
    &&& s.delay_timer == 0
    &&& s.sound_timer == 0
    &&& !s.draw_flag
}

/// Memory with `program` copied in from the program address on; every other
/// byte as it was.
pub open spec fn loaded(memory: Seq<u8>, program: Seq<u8>) -> Seq<u8> {
    Seq::new(
        MEMORY_SIZE as nat,
        |a: int|
            if PROGRAM_START <= a < PROGRAM_START + program.len() {
                program[a - PROGRAM_START]
            } else {
                memory[a]
            },
    )
}

impl Chip8 {
    /// Copies a program image into memory from the program address on. The
    /// image must fit in the memory above that address.
    pub fn load_program(&mut self, program: &[u8])
        requires
            program@.len() <= MEMORY_SIZE - PROGRAM_START,
        ensures
            final(self)@ == (Chip8View { memory: loaded(old(self).memory@, program@), ..old(self)@ }),
    {
        let start = PROGRAM_START as usize;
        let mut k: usize = 0;
        while k < program.len()
            invariant
                k <= program@.len() <= MEMORY_SIZE - PROGRAM_START,
                start == PROGRAM_START,
                self@ == (Chip8View { memory: self.memory@, ..old(self)@ }),
                forall|a: int|
                    0 <= a < MEMORY_SIZE ==> #[trigger] self.memory@[a] == (if start <= a < start + k {
                        program@[a - start]
                    } else {
                        old(self).memory@[a]
                    }),
            decreases program@.len() - k,
        {
            self.memory[start + k] = program[k];
            k = k + 1;
        }
        assert(self.memory@ =~= loaded(old(self).memory@, program@));
    }
}

impl Default for Chip8 {
    fn default() -> (r: Chip8)
        ensures
            initial_state(r@),
            r.wf(),
    {
        Chip8 {
            memory: [0u8; MEMORY_SIZE],
            v: [0u8; REGISTER_COUNT],
            i: 0,
            pc: PROGRAM_START,
            gfx: [false; SCREEN_SIZE],
            delay_timer: 0,
            sound_timer: 0,
            stack: Vec::with_capacity(STACK_DEPTH),
            key: [false; KEY_COUNT],
            draw_flag: false,
        }
    }
}

} // verus!
