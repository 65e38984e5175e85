//! Laws of the machine, stated over the model and proved.
use vstd::arithmetic::div_mod::lemma_fundamental_div_mod_converse;
use vstd::prelude::*;

use crate::frame_buffer::ScreenState;
use crate::keyboard::{pressed_spec, Keyboard};
use crate::model::{
    advanced, cycle, cycle_fault, family, fetch_fault, fetched, first_released_from, op_n, op_nn, op_x,
    op_y, playing_after, run, sprite_bit, step, timers_after, tone_action, MachineState, ToneAction,
};

verus! {

/// The machine state has its 4096 bytes of memory, 16 registers and a
/// 16-deep stack.
pub open spec fn well_sized(s: MachineState) -> bool {
    &&& s.mem.len() == 4096
    &&& s.v.len() == 16
    &&& s.stack.len() == 16
}

/// Add with carry (`8XY4`) into a register other than the flag register:
/// the register receives `(a + b) mod 256` and the flag register is 1
/// exactly when `a + b > 255`.
pub proof fn law_add_with_carry(s: MachineState, scr: ScreenState, kb: Keyboard, op: u16, rnd: u8)
    requires
        well_sized(s),
        family(op) == 8,
        op_n(op) == 4,
        op_x(op) != 15,
    ensures
        ({
            let a = s.v[op_x(op)] as int;
            let b = s.v[op_y(op)] as int;
            let v = step(s, scr, kb, op, rnd).machine.v;
            &&& v[op_x(op)] == (a + b) % 256
            &&& v[15] == (if a + b > 255 { 1u8 } else { 0u8 })
        }),
{
}

/// Add immediate (`7XNN`): the register receives `(a + nn) mod 256` and
/// the flag register is left as it was, unless it is the target.
pub proof fn law_add_immediate(s: MachineState, scr: ScreenState, kb: Keyboard, op: u16, rnd: u8)
    requires
        well_sized(s),
        family(op) == 7,
    ensures
        ({
            let v = step(s, scr, kb, op, rnd).machine.v;
            &&& v[op_x(op)] == (s.v[op_x(op)] + op_nn(op)) % 256
            &&& op_x(op) != 15 ==> v[15] == s.v[15]
        }),
{
}

/// Subtraction (`8XY5` is `Vx - Vy`, `8XY7` is `Vy - Vx`): the flag
/// register is 1 exactly when the minuend is at least the subtrahend, and a
/// target other than the flag register receives the difference modulo 256.
pub proof fn law_subtract(s: MachineState, scr: ScreenState, kb: Keyboard, op: u16, rnd: u8)
    requires
        well_sized(s),
        family(op) == 8,
        op_n(op) == 5 || op_n(op) == 7,
    ensures
        ({
            let vx = s.v[op_x(op)] as int;
            let vy = s.v[op_y(op)] as int;
            let minuend = if op_n(op) == 5 { vx } else { vy };
            let subtrahend = if op_n(op) == 5 { vy } else { vx };
            let v = step(s, scr, kb, op, rnd).machine.v;
            &&& v[15] == (if minuend >= subtrahend { 1u8 } else { 0u8 })
            &&& op_x(op) != 15 ==> v[op_x(op)] == (minuend - subtrahend) % 256
        }),
{
}

/// Shifts (`8XY6` right, `8XYE` left): the flag register receives the bit
/// shifted out, the least significant bit before a right shift and the most
/// significant bit before a left shift.
pub proof fn law_shift_flag(s: MachineState, scr: ScreenState, kb: Keyboard, op: u16, rnd: u8)
    requires
        well_sized(s),
        family(op) == 8,
        op_n(op) == 6 || op_n(op) == 14,
    ensures
        ({
            let vx = s.v[op_x(op)];
            let v = step(s, scr, kb, op, rnd).machine.v;
            &&& op_n(op) == 6 ==> v[15] == vx % 2
            &&& op_n(op) == 14 ==> v[15] == vx / 128
        }),
{
}

/// Whether `op` is a conditional skip, and if so whether its condition
/// holds in `s`.
pub open spec fn skip_condition(s: MachineState, kb: Keyboard, op: u16) -> Option<bool> {
    let vx = s.v[op_x(op)];
    let vy = s.v[op_y(op)];
    let f = family(op);
    if f == 3 {
        Some(vx == op_nn(op))
    } else if f == 4 {
        Some(vx != op_nn(op))
    } else if f == 5 {
        Some(vx == vy)
    } else if f == 9 {
        Some(vx != vy)
    } else if f == 14 && op_nn(op) == 0x9E {
        Some(pressed_spec(kb, vx as int))
    } else if f == 14 && op_nn(op) == 0xA1 {
        Some(!pressed_spec(kb, vx as int))
    } else {
        None
    }
}

/// A skip instruction moves the program counter past itself, and past one
/// more instruction exactly when its condition holds.
pub proof fn law_skip(s: MachineState, scr: ScreenState, kb: Keyboard, rnd: u8)
    requires
        well_sized(s),
        fetch_fault(s) is None,
        skip_condition(advanced(s), kb, fetched(s)) is Some,
    ensures
        cycle(s, scr, kb, rnd).machine.pc == if skip_condition(advanced(s), kb, fetched(s)) == Some(true) {
            s.pc + 4
        } else {
            s.pc + 2
        },
{
}

/// The sprite draw flips exactly the on-screen pixels that a set sprite bit
/// falls on: rows from `Vy` down to the last sprite row or the bottom edge,
/// whichever comes first, and columns from `Vx mod 64` to the right edge.
/// No row wraps to the top and no column wraps to the left.
pub proof fn law_draw(s: MachineState, scr: ScreenState, kb: Keyboard, op: u16, rnd: u8, r: int, c: int)
    requires
        well_sized(s),
        scr.pixels.len() == 2048,
        family(op) == 13,
        0 <= r < 32,
        0 <= c < 64,
    ensures
        ({
            let vx = s.v[op_x(op)] as int;
            let vy = s.v[op_y(op)] as int;
            let x0 = vx % 64;
            let o = step(s, scr, kb, op, rnd);
            &&& o.screen.dirty
            &&& (o.screen.pixels[r * 64 + c] != scr.pixels[r * 64 + c]) == (vy <= r < vy + op_n(op) && x0 <= c
                < x0 + 8 && sprite_bit(s.mem[s.i + (r - vy)], c - x0))
        }),
{
    lemma_fundamental_div_mod_converse(r * 64 + c, 64, r, c);
}

/// The key wait (`FX0A`) with no key released: the cycle comes back to the
/// very same machine, program counter included, at a cost of one.
pub proof fn law_key_wait_holds(s: MachineState, scr: ScreenState, kb: Keyboard, rnd: u8)
    requires
        well_sized(s),
        fetch_fault(s) is None,
        family(fetched(s)) == 15,
        op_nn(fetched(s)) == 0x0A,
        first_released_from(kb, 0) is None,
    ensures
        cycle_fault(s) is None,
        cycle(s, scr, kb, rnd).machine == s,
        cycle(s, scr, kb, rnd).screen == scr,
        cycle(s, scr, kb, rnd).cost == 1,
{
    assert(cycle(s, scr, kb, rnd).machine =~= s);
}

/// With the key wait at the program counter and no key released, a whole
/// frame leaves the machine and the display as they were, whatever the
/// budget and the random bytes: the wait is retried until the budget is
/// spent, one microsecond per try.
pub proof fn law_key_wait_frame(s: MachineState, scr: ScreenState, kb: Keyboard, budget: int, rnd: Seq<u8>)
    requires
        well_sized(s),
        fetch_fault(s) is None,
        family(fetched(s)) == 15,
        op_nn(fetched(s)) == 0x0A,
        first_released_from(kb, 0) is None,
    ensures
        run(s, scr, kb, budget, rnd).machine == s,
        run(s, scr, kb, budget, rnd).screen == scr,
        run(s, scr, kb, budget, rnd).fault is None,
    decreases budget,
{
    reveal(run);
    law_key_wait_holds(s, scr, kb, rnd[0]);
    if budget - 1 > 0 {
        law_key_wait_frame(s, scr, kb, budget - 1, rnd.drop_first());
    }
}

/// The key wait (`FX0A`) once a key has been released: the target register
/// receives the lowest released key and execution goes on with the next
/// instruction.
pub proof fn law_key_wait_completes(s: MachineState, scr: ScreenState, kb: Keyboard, rnd: u8)
    requires
        well_sized(s),
        fetch_fault(s) is None,
        family(fetched(s)) == 15,
        op_nn(fetched(s)) == 0x0A,
        first_released_from(kb, 0) is Some,
    ensures
        cycle(s, scr, kb, rnd).machine.v[op_x(fetched(s))] == first_released_from(kb, 0)->Some_0,
        cycle(s, scr, kb, rnd).machine.pc == s.pc + 2,
{
    lemma_first_released_bounded(kb, 0);
}

proof fn lemma_first_released_bounded(kb: Keyboard, k: int)
    requires
        0 <= k,
    ensures
        first_released_from(kb, k) matches Some(j) ==> k <= j < 16,
    decreases 16 - k,
{
    if k < 16 {
        lemma_first_released_bounded(kb, k + 1);
    }
}

/// At a frame boundary each timer drops by exactly one, or stays at zero;
/// nothing else changes.
pub proof fn law_timers(s: MachineState)
    ensures
        timers_after(s).dt == (if s.dt > 0 { s.dt - 1 } else { 0 }),
        timers_after(s).st == (if s.st > 0 { s.st - 1 } else { 0 }),
        (MachineState { dt: s.dt, st: s.st, ..timers_after(s) }) == s,
{
}

/// The tone generator is started only while the sound timer runs and the
/// tone is silent, and stopped only once the timer has run out and the tone
/// still plays; so, when it carries out each edge, the same edge never
/// comes twice in a row, whatever the timer does meanwhile.
pub proof fn law_tone_edges(st1: u8, st2: u8, playing: bool)
    ensures
        (tone_action(st1, playing) == ToneAction::Start) == (st1 > 0 && !playing),
        (tone_action(st1, playing) == ToneAction::Stop) == (st1 == 0 && playing),
        tone_action(st1, playing) != ToneAction::Keep ==> tone_action(
            st2,
            playing_after(tone_action(st1, playing), playing),
        ) != tone_action(st1, playing),
{
}


/// A frame runs at least one cycle, whatever budget it starts with: when
/// the first instruction neither faults nor is undecodable, its effect is
/// in the frame's outcome.
pub proof fn law_frame_runs_an_instruction(
    s: MachineState,
    scr: ScreenState,
    kb: Keyboard,
    budget: int,
    rnd: Seq<u8>,
)
    requires
        cycle_fault(s) is None,
        cycle(s, scr, kb, rnd[0]).cost >= budget,
    ensures
        run(s, scr, kb, budget, rnd).machine == cycle(s, scr, kb, rnd[0]).machine,
        run(s, scr, kb, budget, rnd).screen == cycle(s, scr, kb, rnd[0]).screen,
        run(s, scr, kb, budget, rnd).fault is None,
{
    reveal(run);
}

} // verus!
