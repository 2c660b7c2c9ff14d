//! Properties of the machine that relate several steps or hold of all inputs.
use vstd::prelude::*;
use crate::cycle::{cycle_spec, tick, tick_value, Halt};
use crate::decode::{decode_spec, word_at};
use crate::display::{draw_sprite, drawn, sprite_pixel};
use crate::machine::{Chip8View, FLAG_REGISTER, MEMORY_SIZE, SCREEN_SIZE, STACK_DEPTH};
use crate::ops::Fault;

verus! {

/// The state after one cycle per byte of `randoms`, each cycle drawing its
/// byte for `Cxnn`. A halted machine stays as it is.
pub open spec fn run(s: Chip8View, randoms: Seq<u8>) -> Chip8View
    decreases randoms.len(),
{
    if randoms.len() == 0 {
        s
    } else {
        run(cycle_spec(s, randoms[0]).0, randoms.drop_first())
    }
}

/// No cycle of the run halts.
pub open spec fn runs_without_halt(s: Chip8View, randoms: Seq<u8>) -> bool
    decreases randoms.len(),
{
    randoms.len() == 0 || (cycle_spec(s, randoms[0]).1 is Ok && runs_without_halt(
        cycle_spec(s, randoms[0]).0,
        randoms.drop_first(),
    ))
}

/// A timer after `k` ticks: `k` less, but never below zero.
pub open spec fn after_ticks(t: u8, k: nat) -> int {
    if t >= k { t - k } else { 0 }
}

/// `6xnn` sets Vx to `nn`, leaves every other register as it was, and moves
/// the program counter on by 2 (within the 12-bit address space).
pub proof fn law_load_immediate(s: Chip8View, x: int, nn: u8, random: u8)
    requires
        s.shaped(),
        0 <= x < 16,
        word_at(s.memory, s.pc as int) == 0x6000 + x * 256 + nn,
    ensures
        cycle_spec(s, random).1 is Ok,
        cycle_spec(s, random).0.v[x] == nn,
        forall|r: int| 0 <= r < 16 && r != x ==> #[trigger] cycle_spec(s, random).0.v[r] == s.v[r],
        cycle_spec(s, random).0.pc == (s.pc + 2) % MEMORY_SIZE as int,
{
    let w = word_at(s.memory, s.pc as int);
    assert(decode_spec(w).family == 6 && decode_spec(w).x == x && decode_spec(w).nn == nn);
}

/// Whether a skip instruction's condition holds in state `s`.
pub open spec fn skip_condition(s: Chip8View, w: u16) -> bool {
    let ins = decode_spec(w);
    let vx = s.v[ins.x as int];
    let vy = s.v[ins.y as int];
    if ins.family == 0x3 {
        vx == ins.nn
    } else if ins.family == 0x4 {
        vx != ins.nn
    } else if ins.family == 0x5 {
        vx == vy
    } else {
        vx != vy
    }
}

/// The skip instructions `3xnn`, `4xnn`, `5xy0` and `9xy0` move the program
/// counter on by 4 when their condition holds and by 2 when it does not, and
/// change nothing else but the timers.
pub proof fn law_skip_distance(s: Chip8View, random: u8)
    requires
        s.shaped(),
        ({
            let ins = decode_spec(word_at(s.memory, s.pc as int));
            ins.family == 0x3 || ins.family == 0x4 || ((ins.family == 0x5 || ins.family == 0x9)
                && ins.n == 0)
        }),
    ensures
        ({
            let delta: int = if skip_condition(s, word_at(s.memory, s.pc as int)) { 4 } else { 2 };
            cycle_spec(s, random) == (
                tick(Chip8View { pc: ((s.pc + delta) % MEMORY_SIZE as int) as u16, ..s }),
                Ok::<bool, Halt>(s.sound_timer == 1),
            )
        }),
{
}

/// A call `2nnn` followed, once the stack is back as the call left it, by a
/// return `00EE` resumes at the instruction after the call and leaves the
/// stack as deep as before the call.
pub proof fn law_call_return(s0: Chip8View, s2: Chip8View, r0: u8, r2: u8)
    requires
        s0.shaped(),
        s2.shaped(),
        decode_spec(word_at(s0.memory, s0.pc as int)).family == 0x2,
        s0.stack.len() < STACK_DEPTH,
        s2.stack == cycle_spec(s0, r0).0.stack,
        word_at(s2.memory, s2.pc as int) == 0x00EE,
    ensures
        cycle_spec(s0, r0).1 is Ok,
        cycle_spec(s2, r2).1 is Ok,
        cycle_spec(s2, r2).0.pc == (s0.pc + 2) % MEMORY_SIZE as int,
        cycle_spec(s2, r2).0.stack == s0.stack,
{
    assert(cycle_spec(s0, r0).0.stack == s0.stack.push(s0.pc));
    assert(s2.stack.drop_last() =~= s0.stack);
    assert(decode_spec(0x00EE).family == 0);
}

/// Drawing the same sprite at the same place twice restores the screen. The
/// second draw sets VF to 1 whenever the sprite has a set pixel over a pixel
/// that was dark before the first: the first draw lit it, the second turns it
/// off. Neither coordinate register is VF, which the first draw overwrites.
pub proof fn law_draw_twice(s: Chip8View, x: int, y: int, n: u8)
    requires
        s.shaped(),
        0 <= x < 16,
        0 <= y < 16,
        x != FLAG_REGISTER,
        y != FLAG_REGISTER,
        n < 16,
    ensures
        draw_sprite(draw_sprite(s, x, y, n), x, y, n).gfx == s.gfx,
        (exists|p: int|
            0 <= p < SCREEN_SIZE && !s.gfx[p] && #[trigger] sprite_pixel(
                s.memory,
                s.i,
                s.v[x],
                s.v[y],
                n,
                p,
            )) ==> draw_sprite(draw_sprite(s, x, y, n), x, y, n).v[FLAG_REGISTER as int] == 1,
{
    let s1 = draw_sprite(s, x, y, n);
    assert(s1.v[x] == s.v[x] && s1.v[y] == s.v[y]);
    assert(s1.memory == s.memory && s1.i == s.i);
    assert(drawn(s1.gfx, s.memory, s.i, s.v[x], s.v[y], n) =~= s.gfx);
    if exists|p: int|
        0 <= p < SCREEN_SIZE && !s.gfx[p] && #[trigger] sprite_pixel(
            s.memory,
            s.i,
            s.v[x],
            s.v[y],
            n,
            p,
        ) {
        let p = choose|p: int|
            0 <= p < SCREEN_SIZE && !s.gfx[p] && #[trigger] sprite_pixel(
                s.memory,
                s.i,
                s.v[x],
                s.v[y],
                n,
                p,
            );
        assert(s1.gfx[p]);
    }
}

/// With no instruction that sets a timer, each timer drops by exactly one per
/// cycle until it reaches zero and stays at zero from then on.
pub proof fn law_timers_count_down(s: Chip8View, randoms: Seq<u8>)
    requires
        runs_without_halt(s, randoms),
    ensures
        run(s, randoms).delay_timer == after_ticks(s.delay_timer, randoms.len()),
        run(s, randoms).sound_timer == after_ticks(s.sound_timer, randoms.len()),
    decreases randoms.len(),
{
    if randoms.len() > 0 {
        let s1 = cycle_spec(s, randoms[0]).0;
        assert(s1.delay_timer == tick_value(s.delay_timer));
        assert(s1.sound_timer == tick_value(s.sound_timer));
        law_timers_count_down(s1, randoms.drop_first());
    }
}

/// A return `00EE` with an empty call stack halts with a stack underflow at
/// that instruction, and from then on no cycle changes anything.
pub proof fn law_return_on_empty_stack(s: Chip8View, randoms: Seq<u8>)
    requires
        word_at(s.memory, s.pc as int) == 0x00EE,
        s.stack.len() == 0,
    ensures
        forall|r: u8|
            #[trigger] cycle_spec(s, r) == (s, Err::<bool, Halt>(
                Halt { fault: Fault::StackUnderflow, opcode: 0x00EE, pc: s.pc },
            )),
        run(s, randoms) == s,
    decreases randoms.len(),
{
    assert(decode_spec(0x00EE).family == 0);
    if randoms.len() > 0 {
        assert(cycle_spec(s, randoms[0]).0 == s);
        law_return_on_empty_stack(s, randoms.drop_first());
    }
}

} // verus!
