//! The framebuffer: clearing it, and drawing sprites by XOR with collision detection.
use vstd::prelude::*;
use crate::machine::{Chip8, Chip8View, FLAG_REGISTER, MEMORY_SIZE, SCREEN_SIZE, SCREEN_WIDTH, SCREEN_HEIGHT};
use crate::ops::{flag, ProgramCounterInstruction};

verus! {

/// Bit `col` of a sprite row, counting from the most significant bit (the
/// leftmost pixel).
pub open spec fn sprite_bit(byte: u8, col: int) -> bool {
    (byte >> ((7 - col) as u8)) & 1 == 1
}

/// The sprite row that lands on the screen row of pixel `p` when the sprite's
/// top edge is at `vy`, counting rows modulo the screen height.
pub open spec fn row_of(p: int, vy: u8) -> int {
    (p / SCREEN_WIDTH as int + 256 - vy) % SCREEN_HEIGHT as int
}

/// The sprite column that lands on the screen column of pixel `p` when the
/// sprite's left edge is at `vx`, counting columns modulo the screen width.
pub open spec fn col_of(p: int, vx: u8) -> int {
    (p % SCREEN_WIDTH as int + 256 - vx) % SCREEN_WIDTH as int
}

/// Whether the `n`-row sprite stored at `i`, placed at `(vx, vy)`, has a set
/// bit over pixel `p`. Rows are read at successive addresses modulo the size
/// of memory.
pub open spec fn sprite_pixel(memory: Seq<u8>, i: u16, vx: u8, vy: u8, n: u8, p: int) -> bool {
    let r = row_of(p, vy);
    let c = col_of(p, vx);
    r < n && c < 8 && sprite_bit(memory[(i + r) % MEMORY_SIZE as int], c)
}

/// The framebuffer after XOR-ing the sprite onto it.
pub open spec fn drawn(gfx: Seq<bool>, memory: Seq<u8>, i: u16, vx: u8, vy: u8, n: u8) -> Seq<bool> {
    Seq::new(SCREEN_SIZE as nat, |p: int| gfx[p] != sprite_pixel(memory, i, vx, vy, n, p))
}

/// Whether drawing the sprite turns some set pixel off.
pub open spec fn collides(gfx: Seq<bool>, memory: Seq<u8>, i: u16, vx: u8, vy: u8, n: u8) -> bool {
    exists|p: int| 0 <= p < SCREEN_SIZE && #[trigger] gfx[p] && sprite_pixel(memory, i, vx, vy, n, p)
}

/// An all-dark framebuffer.
pub open spec fn blank_screen() -> Seq<bool> {
    Seq::new(SCREEN_SIZE as nat, |p: int| false)
}

/// The state after `Dxyn`: the sprite at `I` drawn at `(Vx, Vy)`, then VF set
/// to whether it collided.
pub open spec fn draw_sprite(s: Chip8View, x: int, y: int, n: u8) -> Chip8View {
    let vx = s.v[x];
    let vy = s.v[y];
    s.set_screen(drawn(s.gfx, s.memory, s.i, vx, vy, n)).set_reg(
        FLAG_REGISTER as int,
        flag(collides(s.gfx, s.memory, s.i, vx, vy, n)),
    )
}

/// Pixels covered by the sprite before position `(row, col)` of the scan.
spec fn scanned(p: int, vx: u8, vy: u8, row: int, col: int) -> bool {
    row_of(p, vy) < row || (row_of(p, vy) == row && col_of(p, vx) < col)
}

/// The screen position of sprite row `r`, column `c` is the one pixel whose
/// sprite row and column are `r` and `c`.
proof fn lemma_pixel_position(p: u32, vx: u32, vy: u32, r: u32, c: u32)
    by (bit_vector)
    requires
        p < 2048,
        vx < 256,
        vy < 256,
        r < 32,
        c < 64,
    ensures
        ((p / 64 + 256 - vy) % 32 == r && (p % 64 + 256 - vx) % 64 == c) <==> p == ((vy + r) % 32)
            * 64 + (vx + c) % 64,
{
}

impl Chip8 {
    /// Turns every pixel off and raises the redraw flag.
    pub fn clear_screen(&mut self)
        ensures
            final(self)@ == old(self)@.set_screen(blank_screen()),
    {
        self.gfx = [false; SCREEN_SIZE];
        self.draw_flag = true;
        assert(self.gfx@ =~= blank_screen());
    }

    /// XORs the `n`-row sprite stored at `I` onto the screen with its top-left
    /// corner at `(vx, vy)`, wrapping around the edges, and raises the redraw
    /// flag. Returns whether some pixel went from set to unset.
    pub fn draw(&mut self, vx: u8, vy: u8, n: u8) -> (collision: bool)
        requires
            n < 16,
        ensures
            final(self)@ == old(self)@.set_screen(drawn(old(self).gfx@, old(self).memory@, old(self).i, vx, vy, n)),
            collision == collides(old(self).gfx@, old(self).memory@, old(self).i, vx, vy, n),
    {
        let ghost start = self.gfx@;
        let mut collision = false;
        let mut row: u8 = 0;
        while row < n
            invariant
                row <= n < 16,
                self@ == (Chip8View { gfx: self.gfx@, ..old(self)@ }),
                start == old(self).gfx@,
                forall|p: int|
                    0 <= p < SCREEN_SIZE ==> #[trigger] self.gfx@[p] == (start[p] != (sprite_pixel(
                        self.memory@,
                        self.i,
                        vx,
                        vy,
                        n,
                        p,
                    ) && scanned(p, vx, vy, row as int, 0))),
                collision == exists|p: int|
                    0 <= p < SCREEN_SIZE && #[trigger] start[p] && sprite_pixel(
                        self.memory@,
                        self.i,
                        vx,
                        vy,
                        n,
                        p,
                    ) && scanned(p, vx, vy, row as int, 0),
            decreases n - row,
        {
            let sprite = self.memory[(self.i as usize + row as usize) % MEMORY_SIZE];
            let sy = (vy as usize + row as usize) % SCREEN_HEIGHT;
            let mut col: u8 = 0;
            while col < 8
                invariant
                    row < n < 16,
                    col <= 8,
                    sy == (vy + row) % 32,
                    sprite == self.memory@[(self.i + row) % MEMORY_SIZE as int],
                    self@ == (Chip8View { gfx: self.gfx@, ..old(self)@ }),
                    start == old(self).gfx@,
                    forall|p: int|
                        0 <= p < SCREEN_SIZE ==> #[trigger] self.gfx@[p] == (start[p] != (
                        sprite_pixel(self.memory@, self.i, vx, vy, n, p) && scanned(
                            p,
                            vx,
                            vy,
                            row as int,
                            col as int,
                        ))),
                    collision == exists|p: int|
                        0 <= p < SCREEN_SIZE && #[trigger] start[p] && sprite_pixel(
                            self.memory@,
                            self.i,
                            vx,
                            vy,
                            n,
                            p,
                        ) && scanned(p, vx, vy, row as int, col as int),
                decreases 8 - col,
            {
                let sx = (vx as usize + col as usize) % SCREEN_WIDTH;
                let pos = sy * SCREEN_WIDTH + sx;
                let set = (sprite >> (7 - col)) & 1 == 1;
                proof {
                    assert forall|p: int| 0 <= p < SCREEN_SIZE implies (row_of(p, vy) == row
                        && col_of(p, vx) == col) == (p == pos) by {
                        lemma_pixel_position(p as u32, vx as u32, vy as u32, row as u32, col as u32);
                    }
                    assert(set == sprite_bit(sprite, col as int));
                    assert(0 <= pos < SCREEN_SIZE);
                    assert(sprite_pixel(self.memory@, self.i, vx, vy, n, pos as int) == set);
                }
                if set {
                    if self.gfx[pos] {
                        collision = true;
                    }
                    self.gfx[pos] = !self.gfx[pos];
                }
                col = col + 1;
            }
            row = row + 1;
        }
        self.draw_flag = true;
        proof {
            assert(self.gfx@ =~= drawn(start, self.memory@, self.i, vx, vy, n));
        }
        collision
    }

    /// `Dxyn`: draws the `n`-row sprite stored at `I` at `(Vx, Vy)` and sets VF
    /// to 1 when a set pixel was turned off, 0 otherwise.
    pub fn op_0xdxyn(&mut self, x: usize, y: usize, n: u8) -> (r: ProgramCounterInstruction)
        requires
            x < 16,
            y < 16,
            n < 16,
        ensures
            r == ProgramCounterInstruction::NEXT,
            final(self)@ == draw_sprite(old(self)@, x as int, y as int, n),
    {
        let collision = self.draw(self.v[x], self.v[y], n);
        self.v[FLAG_REGISTER] = if collision { 1 } else { 0 };
        ProgramCounterInstruction::NEXT
    }

    /// `00E0`: clears the screen.
    pub fn op_0x00e0(&mut self) -> (r: ProgramCounterInstruction)
        ensures
            r == ProgramCounterInstruction::NEXT,
            final(self)@ == old(self)@.set_screen(blank_screen()),
    {
        self.clear_screen();
        ProgramCounterInstruction::NEXT
    }
}

} // verus!
