//! The mathematical model of the machine: what one instruction, one
//! fetch-and-execute cycle and one frame do to the machine state.
use vstd::prelude::*;

use crate::frame_buffer::{blank_pixels, ScreenState};
use crate::keyboard::{pressed_spec, released_spec, Keyboard};
use crate::memory::loaded;

verus! {

/// The machine state as values: memory, program counter, index register,
/// general registers, stack pointer and stack, delay and sound timers.
pub struct MachineState {
    pub mem: Seq<u8>,
    pub pc: u16,
    pub i: u16,
    pub v: Seq<u8>,
    pub sp: u8,
    pub stack: Seq<u16>,
    pub dt: u8,
    pub st: u8,
}

/// What one instruction leaves behind: the machine, the display and the
/// cost of the instruction in microseconds (zero for an undecodable one).
pub struct Outcome {
    pub machine: MachineState,
    pub screen: ScreenState,
    pub cost: u32,
}

/// What one frame leaves behind: the machine, the display, the budget left
/// over, and the first address out of memory if an access faulted.
pub struct Frame {
    pub machine: MachineState,
    pub screen: ScreenState,
    pub budget: int,
    pub fault: Option<usize>,
}

/// What the tone generator is asked to do at a frame boundary.
#[derive(Clone, Copy, Debug, PartialEq, Eq, Structural)]
pub enum ToneAction {
    Start,
    Stop,
    Keep,
}

/// An access outside the address space; `address` is the lowest address of
/// the access that lies outside it.
#[derive(Clone, Copy, Debug, PartialEq, Eq, Structural)]
pub struct AddressFault {
    pub address: usize,
}

pub open spec fn wrap8(n: int) -> u8 {
    (n % 256) as u8
}

pub open spec fn wrap16(n: int) -> u16 {
    (n % 65536) as u16
}

/// Top nibble of an instruction: its family.
pub open spec fn family(op: u16) -> int {
    op as int / 4096
}

/// Second nibble: the register index `x`.
pub open spec fn op_x(op: u16) -> int {
    (op as int / 256) % 16
}

/// Third nibble: the register index `y`.
pub open spec fn op_y(op: u16) -> int {
    (op as int / 16) % 16
}

/// Low nibble `n`.
pub open spec fn op_n(op: u16) -> int {
    op as int % 16
}

/// Low byte `nn`.
pub open spec fn op_nn(op: u16) -> u8 {
    (op as int % 256) as u8
}

/// Low twelve bits `nnn`.
pub open spec fn op_nnn(op: u16) -> u16 {
    (op as int % 4096) as u16
}

pub open spec fn set_reg(s: MachineState, x: int, val: u8) -> MachineState {
    MachineState { v: s.v.update(x, val), ..s }
}

pub open spec fn set_pc(s: MachineState, pc: u16) -> MachineState {
    MachineState { pc: pc, ..s }
}

/// Skips the next instruction when `cond` holds.
pub open spec fn skip_if(s: MachineState, cond: bool) -> MachineState {
    if cond {
        set_pc(s, wrap16(s.pc + 2))
    } else {
        s
    }
}

/// Cost of a skip instruction: a taken skip is cheaper by nine.
pub open spec fn skip_cost(cond: bool, base: u32) -> u32 {
    if cond {
        base
    } else {
        (base + 9) as u32
    }
}

pub open spec fn keep_screen(m: MachineState, scr: ScreenState, cost: u32) -> Outcome {
    Outcome { machine: m, screen: scr, cost: cost }
}

/// Subroutine call: push the program counter and jump, unless the stack is full.
pub open spec fn call(s: MachineState, addr: u16) -> MachineState {
    if s.sp < 16 {
        MachineState { stack: s.stack.update(s.sp as int, s.pc), sp: (s.sp + 1) as u8, pc: addr, ..s }
    } else {
        s
    }
}

/// Subroutine return: pop the program counter, unless the stack is empty.
pub open spec fn ret(s: MachineState) -> MachineState {
    if s.sp > 0 {
        MachineState { sp: (s.sp - 1) as u8, pc: s.stack[s.sp - 1], ..s }
    } else {
        s
    }
}

/// Register-to-register instructions of family 8, by low nibble.
pub open spec fn alu(s: MachineState, op: u16) -> MachineState {
    let x = op_x(op);
    let vx = s.v[x];
    let vy = s.v[op_y(op)];
    let n = op_n(op);
    if n == 0 {
        set_reg(s, x, vy)
    } else if n == 1 {
        set_reg(s, x, vx | vy)
    } else if n == 2 {
        set_reg(s, x, vx & vy)
    } else if n == 3 {
        set_reg(s, x, vx ^ vy)
    } else if n == 4 {
        set_reg(set_reg(s, 15, if vx + vy > 255 { 1u8 } else { 0u8 }), x, wrap8(vx + vy))
    } else if n == 5 {
        set_reg(set_reg(s, x, wrap8(vx - vy)), 15, if vx >= vy { 1u8 } else { 0u8 })
    } else if n == 6 {
        set_reg(set_reg(s, x, (vx / 2) as u8), 15, (vx % 2) as u8)
    } else if n == 7 {
        set_reg(set_reg(s, x, wrap8(vy - vx)), 15, if vy >= vx { 1u8 } else { 0u8 })
    } else if n == 14 {
        set_reg(set_reg(s, x, wrap8(vx * 2)), 15, (vx / 128) as u8)
    } else {
        s
    }
}

pub open spec fn alu_cost(op: u16) -> u32 {
    if op_n(op) <= 7 || op_n(op) == 14 {
        200
    } else {
        0
    }
}

/// The lowest key index at or after `k` that has been released.
pub open spec fn first_released_from(kb: Keyboard, k: int) -> Option<int>
    decreases 16 - k,
{
    if k >= 16 {
        None
    } else if released_spec(kb, k) {
        Some(k)
    } else {
        first_released_from(kb, k + 1)
    }
}

/// Number of sprite rows drawn from row `vy` on: rows at or past the bottom
/// of the display are not drawn.
pub open spec fn rows_drawn(vy: int, n: int) -> int {
    if vy >= 32 {
        0
    } else if vy + n > 32 {
        32 - vy
    } else {
        n
    }
}

/// Bit `k` of a sprite row, counted from the most significant bit.
pub open spec fn sprite_bit(b: u8, k: int) -> bool {
    (b >> ((7 - k) as u8)) & 1u8 == 1u8
}

/// The pixel at row `r`, column `c` is flipped by drawing the `n`-row sprite
/// at memory address `i` at `(vx, vy)`: the start column is taken modulo the
/// width, columns past the right edge and rows past the bottom are clipped.
pub open spec fn sprite_hit(mem: Seq<u8>, i: int, vx: int, vy: int, n: int, r: int, c: int) -> bool {
    let x0 = vx % 64;
    &&& vy <= r < vy + n
    &&& r < 32
    &&& x0 <= c < x0 + 8
    &&& c < 64
    &&& sprite_bit(mem[i + (r - vy)], c - x0)
}

pub open spec fn draw_pixels(pixels: Seq<bool>, mem: Seq<u8>, i: int, vx: int, vy: int, n: int) -> Seq<bool> {
    Seq::new(pixels.len(), |p: int| pixels[p] != sprite_hit(mem, i, vx, vy, n, p / 64, p % 64))
}

/// Registers `0..=x` copied to memory from address `i` on.
pub open spec fn store_regs(s: MachineState, x: int) -> MachineState {
    MachineState { mem: loaded(s.mem, s.i as int, s.v.take(x + 1)), ..s }
}

/// Registers `0..=x` read from memory from address `i` on.
pub open spec fn load_regs(s: MachineState, x: int) -> MachineState {
    MachineState { v: Seq::new(16, |k: int| if k <= x { s.mem[s.i + k] } else { s.v[k] }), ..s }
}

/// The three decimal digits of `Vx` written at `i`, `i + 1`, `i + 2`.
pub open spec fn bcd(s: MachineState, x: int) -> MachineState {
    let vx = s.v[x];
    MachineState {
        mem: s.mem.update(s.i as int, (vx / 100) as u8).update(s.i + 1, ((vx / 10) % 10) as u8).update(
            s.i + 2,
            (vx % 10) as u8,
        ),
        ..s
    }
}

/// Instructions of family F, by low byte.
pub open spec fn misc(s: MachineState, kb: Keyboard, op: u16) -> MachineState {
    let x = op_x(op);
    let nn = op_nn(op);
    if nn == 0x07 {
        set_reg(s, x, s.dt)
    } else if nn == 0x0A {
        match first_released_from(kb, 0) {
            Some(k) => set_reg(s, x, k as u8),
            None => set_pc(s, wrap16(s.pc + 65534)),  // one instruction back
        }
    } else if nn == 0x15 {
        MachineState { dt: s.v[x], ..s }
    } else if nn == 0x18 {
        MachineState { st: s.v[x], ..s }
    } else if nn == 0x1E {
        MachineState { i: wrap16(s.i + s.v[x]), ..s }
    } else if nn == 0x29 {
        MachineState { i: (0x50 + s.v[x]) as u16, ..s }
    } else if nn == 0x33 {
        bcd(s, x)
    } else if nn == 0x55 {
        store_regs(s, x)
    } else if nn == 0x65 {
        load_regs(s, x)
    } else {
        s
    }
}

pub open spec fn misc_cost(op: u16) -> u32 {
    let nn = op_nn(op);
    if nn == 0x07 || nn == 0x15 || nn == 0x18 {
        45
    } else if nn == 0x0A {
        1
    } else if nn == 0x1E {
        86
    } else if nn == 0x29 {
        91
    } else if nn == 0x33 {
        927
    } else if nn == 0x55 || nn == 0x65 {
        (605 + 64 * op_x(op)) as u32
    } else {
        0
    }
}

/// Instructions of family 0, by low byte: clear the screen, jump to the
/// index register, return from a subroutine.
pub open spec fn system(s: MachineState, scr: ScreenState, op: u16) -> Outcome {
    let nn = op_nn(op);
    if nn == 0xE0 {
        Outcome { machine: s, screen: ScreenState { pixels: blank_pixels(), dirty: true }, cost: 109 }
    } else if nn == 0x0E {
        keep_screen(set_pc(s, s.i), scr, 1)
    } else if nn == 0xEE {
        keep_screen(ret(s), scr, 105)
    } else {
        keep_screen(s, scr, 0)
    }
}

/// What executing instruction `op` does, `rnd` being the random byte drawn
/// for the random instruction.
pub open spec fn step(s: MachineState, scr: ScreenState, kb: Keyboard, op: u16, rnd: u8) -> Outcome {
    let f = family(op);
    let x = op_x(op);
    let y = op_y(op);
    let nn = op_nn(op);
    let nnn = op_nnn(op);
    if f == 0 {
        system(s, scr, op)
    } else if f == 1 {
        keep_screen(set_pc(s, nnn), scr, 105)
    } else if f == 2 {
        keep_screen(call(s, nnn), scr, 105)
    } else if f == 3 {
        keep_screen(skip_if(s, s.v[x] == nn), scr, skip_cost(s.v[x] == nn, 55))
    } else if f == 4 {
        keep_screen(skip_if(s, s.v[x] != nn), scr, skip_cost(s.v[x] != nn, 55))
    } else if f == 5 {
        keep_screen(skip_if(s, s.v[x] == s.v[y]), scr, skip_cost(s.v[x] == s.v[y], 55))
    } else if f == 6 {
        keep_screen(set_reg(s, x, nn), scr, 27)
    } else if f == 7 {
        keep_screen(set_reg(s, x, wrap8(s.v[x] + nn)), scr, 45)
    } else if f == 8 {
        keep_screen(alu(s, op), scr, alu_cost(op))
    } else if f == 9 {
        keep_screen(skip_if(s, s.v[x] != s.v[y]), scr, skip_cost(s.v[x] != s.v[y], 73))
    } else if f == 10 {
        keep_screen(MachineState { i: nnn, ..s }, scr, 55)
    } else if f == 11 {
        keep_screen(set_pc(s, (nnn + s.v[0]) as u16), scr, 105)
    } else if f == 12 {
        keep_screen(set_reg(s, x, rnd & nn), scr, 164)
    } else if f == 13 {
        Outcome {
            machine: s,
            screen: ScreenState {
                pixels: draw_pixels(scr.pixels, s.mem, s.i as int, s.v[x] as int, s.v[y] as int, op_n(op)),
                dirty: true,
            },
            cost: 22734,
        }
    } else if f == 14 {
        if nn == 0x9E {
            keep_screen(skip_if(s, pressed_spec(kb, s.v[x] as int)), scr, 73)
        } else if nn == 0xA1 {
            keep_screen(skip_if(s, !pressed_spec(kb, s.v[x] as int)), scr, 73)
        } else {
            keep_screen(s, scr, 0)
        }
    } else {
        keep_screen(misc(s, kb, op), scr, misc_cost(op))
    }
}

/// The fault of an access to `len` bytes from `start`, if it leaves memory.
pub open spec fn range_fault(start: int, len: int) -> Option<usize> {
    if len > 0 && start + len > 4096 {
        Some(if start < 4096 { 4096usize } else { start as usize })
    } else {
        None
    }
}

/// The fault, if any, of executing `op`: only the sprite, decimal and
/// register store/load instructions touch memory.
pub open spec fn exec_fault(s: MachineState, op: u16) -> Option<usize> {
    let f = family(op);
    let nn = op_nn(op);
    if f == 13 {
        range_fault(s.i as int, rows_drawn(s.v[op_y(op)] as int, op_n(op)))
    } else if f == 15 && nn == 0x33 {
        range_fault(s.i as int, 3)
    } else if f == 15 && (nn == 0x55 || nn == 0x65) {
        range_fault(s.i as int, op_x(op) + 1)
    } else {
        None
    }
}

/// The fault, if any, of fetching the instruction at the program counter.
pub open spec fn fetch_fault(s: MachineState) -> Option<usize> {
    range_fault(s.pc as int, 2)
}

/// The big-endian instruction at the program counter.
pub open spec fn fetched(s: MachineState) -> u16 {
    (s.mem[s.pc as int] * 256 + s.mem[s.pc + 1]) as u16
}

/// The machine with its program counter moved past the fetched instruction.
pub open spec fn advanced(s: MachineState) -> MachineState {
    set_pc(s, (s.pc + 2) as u16)
}

/// The fault, if any, of one fetch-and-execute cycle.
pub open spec fn cycle_fault(s: MachineState) -> Option<usize> {
    match fetch_fault(s) {
        Some(a) => Some(a),
        None => exec_fault(advanced(s), fetched(s)),
    }
}

/// One fetch-and-execute cycle.
pub open spec fn cycle(s: MachineState, scr: ScreenState, kb: Keyboard, rnd: u8) -> Outcome {
    step(advanced(s), scr, kb, fetched(s), rnd)
}

/// The timers after a frame boundary: each drops by one unless it is zero.
pub open spec fn timers_after(s: MachineState) -> MachineState {
    MachineState {
        dt: if s.dt > 0 { (s.dt - 1) as u8 } else { 0u8 },
        st: if s.st > 0 { (s.st - 1) as u8 } else { 0u8 },
        ..s
    }
}

/// The tone edge at a frame boundary: start while the sound timer runs and
/// the tone is silent, stop once it has run out and the tone still plays.
pub open spec fn tone_action(st: u8, playing: bool) -> ToneAction {
    if st > 0 {
        if playing {
            ToneAction::Keep
        } else {
            ToneAction::Start
        }
    } else if playing {
        ToneAction::Stop
    } else {
        ToneAction::Keep
    }
}

/// Whether the tone plays once `a` has been carried out.
pub open spec fn playing_after(a: ToneAction, playing: bool) -> bool {
    match a {
        ToneAction::Start => true,
        ToneAction::Stop => false,
        ToneAction::Keep => playing,
    }
}

/// The instruction burst of one frame with `budget` microseconds: at least
/// one cycle runs, and cycles go on while budget is left after them; an
/// undecodable instruction ends the burst and discards what is left, a
/// fault ends it too. The `k`-th cycle draws `rnd[k]` as its random byte.
#[verifier::opaque]
pub open spec fn run(s: MachineState, scr: ScreenState, kb: Keyboard, budget: int, rnd: Seq<u8>) -> Frame
    decreases budget,
{
    match cycle_fault(s) {
        Some(a) => Frame { machine: s, screen: scr, budget: 0, fault: Some(a) },
        None => {
            let o = cycle(s, scr, kb, rnd[0]);
            if o.cost == 0 {
                Frame { machine: o.machine, screen: o.screen, budget: 0, fault: None }
            } else if budget - o.cost <= 0 {
                Frame { machine: o.machine, screen: o.screen, budget: budget - o.cost, fault: None }
            } else {
                run(o.machine, o.screen, kb, budget - o.cost, rnd.drop_first())
            }
        },
    }
}

} // verus!
