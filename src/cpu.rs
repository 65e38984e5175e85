//! The virtual CPU: register file, call stack, timers, the instruction
//! decoder with one handler per instruction, and the frame scheduler.
use vstd::prelude::*;

use crate::frame_buffer::{blank_pixels, FrameBuffer, ScreenState};
use crate::keyboard::{pressed_spec, Keyboard};
use crate::memory::{loaded, Memory};
use crate::sprite::{drawn_upto, lemma_draw_column, lemma_drawn_at, lemma_drawn_none};
use crate::model::{
    advanced, alu, alu_cost, bcd, call, cycle, cycle_fault, draw_pixels, exec_fault, family, fetch_fault,
    fetched, first_released_from, load_regs, misc, misc_cost, range_fault, ret, rows_drawn, run, set_pc,
    set_reg, skip_cost, skip_if, sprite_hit, step, store_regs, system, timers_after, tone_action,
    wrap16, wrap8, AddressFault, Frame, MachineState, Outcome, ToneAction,
};
use crate::{FRAME_TICKS, KEY_COUNT, PROGRAM_START_ADDRESS, RAM_SIZE, SPRITE_CHARS_ADDR};

verus! {

/// Cost in microseconds of the most expensive instruction, the sprite draw.
pub const MAX_COST: i32 = 22734;

/// Relies on rand::random::<u8>: a byte from the thread-local generator.
/// Nothing is known of its value.
#[verifier::external_body]
fn random_byte() -> u8 {
    rand::random::<u8>()
}

/// The fault of an access to `len` bytes from `start`, checked before it is made.
fn check_range(start: usize, len: usize) -> (r: Result<(), AddressFault>)
    requires
        start + len <= usize::MAX,
    ensures
        match r {
            Ok(()) => range_fault(start as int, len as int) is None,
            Err(f) => range_fault(start as int, len as int) == Some(f.address),
        },
{
    if len > 0 && start + len > RAM_SIZE {
        Err(AddressFault { address: if start < RAM_SIZE { RAM_SIZE } else { start } })
    } else {
        Ok(())
    }
}

/// The virtual CPU and the memory it owns.
pub struct CPU {
    pub memory: Memory,
    pub pc: u16,
    pub dt: u8,
    pub st: u8,
    pub i: u16,
    pub v: [u8; 16],
    pub sp: u8,
    pub stack: [u16; 16],
    /// Execution budget carried from frame to frame, in microseconds.
    pub microseconds: i32,
}

impl View for CPU {
    type V = MachineState;

    open spec fn view(&self) -> MachineState {
        MachineState {
            mem: self.memory.ram@,
            pc: self.pc,
            i: self.i,
            v: self.v@,
            sp: self.sp,
            stack: self.stack@,
            dt: self.dt,
            st: self.st,
        }
    }
}

impl CPU {
    /// The stack pointer stays within the stack.
    pub open spec fn wf(&self) -> bool {
        self.sp <= 16
    }

    /// Between frames the carried budget is never positive, and the debt is
    /// small enough for another frame to run without overflow.
    pub open spec fn budget_ok(&self) -> bool {
        i32::MIN + MAX_COST < self.microseconds <= 0
    }

    /// A CPU over `memory`, about to execute at the program load address.
    pub fn new(memory: Memory) -> (cpu: CPU)
        ensures
            cpu.wf(),
            cpu.budget_ok(),
            cpu.microseconds == 0,
            cpu@ == (MachineState {
                mem: memory.ram@,
                pc: PROGRAM_START_ADDRESS,
                i: 0,
                v: Seq::new(16, |k: int| 0u8),
                sp: 0,
                stack: Seq::new(16, |k: int| 0u16),
                dt: 0,
                st: 0,
            }),
    {
        let cpu = CPU {
            memory,
            pc: PROGRAM_START_ADDRESS,
            dt: 0,
            st: 0,
            i: 0,
            v: [0; 16],
            sp: 0,
            stack: [0; 16],
            microseconds: 0,
        };
        assert(cpu.v@ =~= Seq::new(16, |k: int| 0u8));
        assert(cpu.stack@ =~= Seq::new(16, |k: int| 0u16));
        cpu
    }
}

impl CPU {
    // 0x00E0
    fn op_clear_screen(&mut self, display: &mut FrameBuffer) -> (c: u32)
        ensures
            final(display)@ == (ScreenState { pixels: blank_pixels(), dirty: true }),
            *final(self) == *old(self),
            c == 109,
    {
        display.clear();
        109
    }

    // 0x000E
    fn op_return(&mut self) -> (c: u32)
        ensures
            final(self)@ == set_pc(old(self)@, old(self).i),
            final(self).microseconds == old(self).microseconds,
            c == 1,
    {
        self.pc = self.i;
        1
    }

    // 0x1NNN
    fn op_jump(&mut self, address: u16) -> (c: u32)
        ensures
            final(self)@ == set_pc(old(self)@, address),
            final(self).microseconds == old(self).microseconds,
            c == 105,
    {
        self.pc = address;
        105
    }

    // 0x2NNN
    fn op_jump_to_subroutine(&mut self, address: u16) -> (c: u32)
        requires
            old(self).sp <= 16,
        ensures
            final(self)@ == call(old(self)@, address),
            final(self).microseconds == old(self).microseconds,
            c == 105,
    {
        if (self.sp as usize) < self.stack.len() {
            self.stack[self.sp as usize] = self.pc;
            self.sp = self.sp + 1;
            self.pc = address;
        }
        105
    }

    // 0x00EE
    fn op_return_from_subroutine(&mut self) -> (c: u32)
        requires
            old(self).sp <= 16,
        ensures
            final(self)@ == ret(old(self)@),
            final(self).microseconds == old(self).microseconds,
            c == 105,
    {
        if self.sp > 0 {
            self.sp = self.sp - 1;
            self.pc = self.stack[self.sp as usize];
        }
        105
    }

    /// Moves the program counter past the next instruction.
    fn skip(&mut self)
        ensures
            final(self)@ == skip_if(old(self)@, true),
            final(self).microseconds == old(self).microseconds,
    {
        self.pc = ((self.pc as u32 + 2) % 65536) as u16;
    }

    // 0x3XNN
    fn op_skip_if_vx_equals_nn(&mut self, x: usize, nn: u8) -> (c: u32)
        requires
            x < 16,
        ensures
            final(self)@ == skip_if(old(self)@, old(self).v@[x as int] == nn),
            final(self).microseconds == old(self).microseconds,
            c == skip_cost(old(self).v@[x as int] == nn, 55),
    {
        let mut clock_cycles: u32 = 55;
        if self.v[x] == nn {
            self.skip();
        } else {
            clock_cycles += 9;
        }
        clock_cycles
    }

    // 0x4XNN
    fn op_skip_if_vx_not_equals_nn(&mut self, x: usize, nn: u8) -> (c: u32)
        requires
            x < 16,
        ensures
            final(self)@ == skip_if(old(self)@, old(self).v@[x as int] != nn),
            final(self).microseconds == old(self).microseconds,
            c == skip_cost(old(self).v@[x as int] != nn, 55),
    {
        let mut clock_cycles: u32 = 55;
        if self.v[x] != nn {
            self.skip();
        } else {
            clock_cycles += 9;
        }
        clock_cycles
    }

    // 0x5XY0
    fn op_skip_if_vx_equals_vy(&mut self, x: usize, y: usize) -> (c: u32)
        requires
            x < 16,
            y < 16,
        ensures
            final(self)@ == skip_if(old(self)@, old(self).v@[x as int] == old(self).v@[y as int]),
            final(self).microseconds == old(self).microseconds,
            c == skip_cost(old(self).v@[x as int] == old(self).v@[y as int], 55),
    {
        let mut clock_cycles: u32 = 55;
        if self.v[x] == self.v[y] {
            self.skip();
        } else {
            clock_cycles += 9;
        }
        clock_cycles
    }

    // 0x9XY0
    fn op_skip_if_vx_not_equals_vy(&mut self, x: usize, y: usize) -> (c: u32)
        requires
            x < 16,
            y < 16,
        ensures
            final(self)@ == skip_if(old(self)@, old(self).v@[x as int] != old(self).v@[y as int]),
            final(self).microseconds == old(self).microseconds,
            c == skip_cost(old(self).v@[x as int] != old(self).v@[y as int], 73),
    {
        let mut clock_cycles: u32 = 73;
        if self.v[x] != self.v[y] {
            self.skip();
        } else {
            clock_cycles += 9;
        }
        clock_cycles
    }

    // 0xEX9E
    fn op_skip_if_key_pressed(&mut self, x: usize, keyboard: &Keyboard) -> (c: u32)
        requires
            x < 16,
        ensures
            final(self)@ == skip_if(old(self)@, pressed_spec(*keyboard, old(self).v@[x as int] as int)),
            final(self).microseconds == old(self).microseconds,
            c == 73,
    {
        if keyboard.is_pressed(self.v[x] as usize) {
            self.skip();
        }
        73
    }

    // 0xEXA1
    fn op_skip_if_not_key_pressed(&mut self, x: usize, keyboard: &Keyboard) -> (c: u32)
        requires
            x < 16,
        ensures
            final(self)@ == skip_if(old(self)@, !pressed_spec(*keyboard, old(self).v@[x as int] as int)),
            final(self).microseconds == old(self).microseconds,
            c == 73,
    {
        if !keyboard.is_pressed(self.v[x] as usize) {
            self.skip();
        }
        73
    }

    // 0x6XNN
    fn op_set_register(&mut self, x: usize, value: u8) -> (c: u32)
        requires
            x < 16,
        ensures
            final(self)@ == set_reg(old(self)@, x as int, value),
            final(self).microseconds == old(self).microseconds,
            c == 27,
    {
        self.v[x] = value;
        27
    }

    // 0x7XNN
    fn op_add_value_to_register(&mut self, x: usize, value: u8) -> (c: u32)
        requires
            x < 16,
        ensures
            final(self)@ == set_reg(old(self)@, x as int, wrap8(old(self).v@[x as int] + value)),
            final(self).microseconds == old(self).microseconds,
            c == 45,
    {
        self.v[x] = ((self.v[x] as u16 + value as u16) % 256) as u8;
        45
    }

    // 0xANNN
    fn op_set_index_register(&mut self, value: u16) -> (c: u32)
        ensures
            final(self)@ == (MachineState { i: value, ..old(self)@ }),
            final(self).microseconds == old(self).microseconds,
            c == 55,
    {
        self.i = value;
        55
    }

    // 0xBNNN
    fn op_jump_with_offset(&mut self, address: u16) -> (c: u32)
        requires
            address < 4096,
        ensures
            final(self)@ == set_pc(old(self)@, (address + old(self).v@[0]) as u16),
            final(self).microseconds == old(self).microseconds,
            c == 105,
    {
        self.pc = address + self.v[0] as u16;
        105
    }

    // 0xCXNN, given the random byte `rnd`
    fn op_random(&mut self, x: usize, nn: u8, rnd: u8) -> (c: u32)
        requires
            x < 16,
        ensures
            final(self)@ == set_reg(old(self)@, x as int, rnd & nn),
            final(self).microseconds == old(self).microseconds,
            c == 164,
    {
        self.v[x] = rnd & nn;
        164
    }
}

impl CPU {
    // 0x8XY0
    fn op_set_vx_to_value_of_vy(&mut self, x: usize, y: usize) -> (c: u32)
        requires
            x < 16,
            y < 16,
        ensures
            final(self)@ == set_reg(old(self)@, x as int, old(self).v@[y as int]),
            final(self).microseconds == old(self).microseconds,
            c == 200,
    {
        self.v[x] = self.v[y];
        200
    }

    // 0x8XY1
    fn op_binary_or(&mut self, x: usize, y: usize) -> (c: u32)
        requires
            x < 16,
            y < 16,
        ensures
            final(self)@ == set_reg(old(self)@, x as int, old(self).v@[x as int] | old(self).v@[y as int]),
            final(self).microseconds == old(self).microseconds,
            c == 200,
    {
        self.v[x] = self.v[x] | self.v[y];
        200
    }

    // 0x8XY2
    fn op_binary_and(&mut self, x: usize, y: usize) -> (c: u32)
        requires
            x < 16,
            y < 16,
        ensures
            final(self)@ == set_reg(old(self)@, x as int, old(self).v@[x as int] & old(self).v@[y as int]),
            final(self).microseconds == old(self).microseconds,
            c == 200,
    {
        self.v[x] = self.v[x] & self.v[y];
        200
    }

    // 0x8XY3
    fn op_binary_xor(&mut self, x: usize, y: usize) -> (c: u32)
        requires
            x < 16,
            y < 16,
        ensures
            final(self)@ == set_reg(old(self)@, x as int, old(self).v@[x as int] ^ old(self).v@[y as int]),
            final(self).microseconds == old(self).microseconds,
            c == 200,
    {
        self.v[x] = self.v[x] ^ self.v[y];
        200
    }

    // 0x8XY4: the flag is written first, so with `x == 0xF` the sum wins.
    fn op_add_with_carry(&mut self, x: usize, y: usize) -> (c: u32)
        requires
            x < 16,
            y < 16,
        ensures
            final(self)@ == set_reg(set_reg(old(self)@, 15, if old(self).v@[x as int] + old(self).v@[y as int] > 255 { 1u8 } else { 0u8 }), x as int, wrap8(old(self).v@[x as int] + old(self).v@[y as int])),
            final(self).microseconds == old(self).microseconds,
            c == 200,
    {
        let sum: u16 = self.v[x] as u16 + self.v[y] as u16;
        self.v[15] = if sum > 255 { 1 } else { 0 };
        self.v[x] = (sum % 256) as u8;
        200
    }

    // 0x8XY5
    fn op_subtract_y_from_x(&mut self, x: usize, y: usize) -> (c: u32)
        requires
            x < 16,
            y < 16,
        ensures
            final(self)@ == set_reg(set_reg(old(self)@, x as int, wrap8(old(self).v@[x as int] - old(self).v@[y as int])), 15, if old(self).v@[x as int] >= old(self).v@[y as int] { 1u8 } else { 0u8 }),
            final(self).microseconds == old(self).microseconds,
            c == 200,
    {
        let vx = self.v[x];
        let vy = self.v[y];
        let flag: u8 = if vx >= vy { 1 } else { 0 };
        self.v[x] = ((vx as u16 + 256 - vy as u16) % 256) as u8;
        self.v[15] = flag;
        200
    }

    // 0x8XY7
    fn op_subtract_x_from_y(&mut self, x: usize, y: usize) -> (c: u32)
        requires
            x < 16,
            y < 16,
        ensures
            final(self)@ == set_reg(set_reg(old(self)@, x as int, wrap8(old(self).v@[y as int] - old(self).v@[x as int])), 15, if old(self).v@[y as int] >= old(self).v@[x as int] { 1u8 } else { 0u8 }),
            final(self).microseconds == old(self).microseconds,
            c == 200,
    {
        let vx = self.v[x];
        let vy = self.v[y];
        let flag: u8 = if vy >= vx { 1 } else { 0 };
        self.v[x] = ((vy as u16 + 256 - vx as u16) % 256) as u8;
        self.v[15] = flag;
        200
    }

    // 0x8XY6
    fn op_shift_right(&mut self, x: usize) -> (c: u32)
        requires
            x < 16,
        ensures
            final(self)@ == set_reg(set_reg(old(self)@, x as int, (old(self).v@[x as int] / 2) as u8), 15, (old(self).v@[x as int] % 2) as u8),
            final(self).microseconds == old(self).microseconds,
            c == 200,
    {
        let vx = self.v[x];
        self.v[x] = vx / 2;
        self.v[15] = vx % 2;
        200
    }

    // 0x8XYE
    fn op_shift_left(&mut self, x: usize) -> (c: u32)
        requires
            x < 16,
        ensures
            final(self)@ == set_reg(set_reg(old(self)@, x as int, wrap8(old(self).v@[x as int] * 2)), 15, (old(self).v@[x as int] / 128) as u8),
            final(self).microseconds == old(self).microseconds,
            c == 200,
    {
        let vx = self.v[x];
        self.v[x] = ((vx as u16 * 2) % 256) as u8;
        self.v[15] = vx / 128;
        200
    }
}

impl CPU {
    // 0xFX07
    fn op_get_delay_timer(&mut self, x: usize) -> (c: u32)
        requires
            x < 16,
        ensures
            final(self)@ == set_reg(old(self)@, x as int, old(self).dt),
            final(self).microseconds == old(self).microseconds,
            c == 45,
    {
        self.v[x] = self.dt;
        45
    }

    // 0xFX15
    fn op_set_delay_timer(&mut self, x: usize) -> (c: u32)
        requires
            x < 16,
        ensures
            final(self)@ == (MachineState { dt: old(self).v@[x as int], ..old(self)@ }),
            final(self).microseconds == old(self).microseconds,
            c == 45,
    {
        self.dt = self.v[x];
        45
    }

    // 0xFX18
    fn op_set_sound_timer(&mut self, x: usize) -> (c: u32)
        requires
            x < 16,
        ensures
            final(self)@ == (MachineState { st: old(self).v@[x as int], ..old(self)@ }),
            final(self).microseconds == old(self).microseconds,
            c == 45,
    {
        self.st = self.v[x];
        45
    }

    // 0xFX1E
    fn op_add_to_index(&mut self, x: usize) -> (c: u32)
        requires
            x < 16,
        ensures
            final(self)@ == (MachineState { i: wrap16(old(self).i + old(self).v@[x as int]), ..old(self)@ }),
            final(self).microseconds == old(self).microseconds,
            c == 86,
    {
        self.i = ((self.i as u32 + self.v[x] as u32) % 65536) as u16;
        86
    }

    // 0xFX29
    fn op_font_character(&mut self, x: usize) -> (c: u32)
        requires
            x < 16,
        ensures
            final(self)@ == (MachineState { i: (0x50 + old(self).v@[x as int]) as u16, ..old(self)@ }),
            final(self).microseconds == old(self).microseconds,
            c == 91,
    {
        self.i = SPRITE_CHARS_ADDR + self.v[x] as u16;
        91
    }

    // 0xFX0A: completes on a released key, else rewinds to wait again.
    fn op_get_key(&mut self, x: usize, keyboard: &Keyboard) -> (c: u32)
        requires
            x < 16,
        ensures
            final(self)@ == match first_released_from(*keyboard, 0) {
                Some(k) => set_reg(old(self)@, x as int, k as u8),
                None => set_pc(old(self)@, wrap16(old(self).pc + 65534)),
            },
            final(self).microseconds == old(self).microseconds,
            c == 1,
    {
        let mut k: usize = 0;
        while k < KEY_COUNT
            invariant
                k <= 16,
                x < 16,
                *self == *old(self),
                first_released_from(*keyboard, 0) == first_released_from(*keyboard, k as int),
            decreases 16 - k,
        {
            if keyboard.has_been_released(k) {
                self.v[x] = k as u8;
                return 1;
            }
            k = k + 1;
        }
        self.pc = ((self.pc as u32 + 65534) % 65536) as u16;
        1
    }

    // 0xFX33
    fn op_binary_coded_decimal_conversion(&mut self, x: usize) -> (c: u32)
        requires
            x < 16,
            old(self).i + 3 <= 4096,
        ensures
            final(self)@ == bcd(old(self)@, x as int),
            final(self).microseconds == old(self).microseconds,
            c == 927,
    {
        let i = self.i as usize;
        let vx = self.v[x];
        self.memory.set(i, vx / 100);
        self.memory.set(i + 1, (vx / 10) % 10);
        self.memory.set(i + 2, vx % 10);
        927
    }

    // 0xFX55
    fn op_store_register_to_memory(&mut self, x: usize) -> (c: u32)
        requires
            x < 16,
            old(self).i + x + 1 <= 4096,
        ensures
            final(self)@ == store_regs(old(self)@, x as int),
            final(self).microseconds == old(self).microseconds,
            c == 605 + 64 * x,
    {
        let base = self.i as usize;
        let mut k: usize = 0;
        assert(self.memory.ram@ =~= loaded(old(self)@.mem, base as int, old(self)@.v.take(0)));
        while k <= x
            invariant
                x < 16,
                base == old(self).i,
                base + x + 1 <= 4096,
                k <= x + 1,
                self@ == (MachineState {
                    mem: loaded(old(self)@.mem, base as int, old(self)@.v.take(k as int)),
                    ..old(self)@
                }),
                self.microseconds == old(self).microseconds,
            decreases x + 1 - k,
        {
            let value = self.v[k];
            self.memory.set(base + k, value);
            k = k + 1;
            assert(self.memory.ram@ =~= loaded(old(self)@.mem, base as int, old(self)@.v.take(k as int)));
        }
        (605 + x * 64) as u32
    }

    // 0xFX65
    fn op_load_register_from_memory(&mut self, x: usize) -> (c: u32)
        requires
            x < 16,
            old(self).i + x + 1 <= 4096,
        ensures
            final(self)@ == load_regs(old(self)@, x as int),
            final(self).microseconds == old(self).microseconds,
            c == 605 + 64 * x,
    {
        let base = self.i as usize;
        let mut k: usize = 0;
        assert(self.v@ =~= Seq::new(16, |j: int| if j < 0 { old(self)@.mem[base + j] } else { old(self)@.v[j] }));
        while k <= x
            invariant
                x < 16,
                base == old(self).i,
                base + x + 1 <= 4096,
                k <= x + 1,
                self@ == (MachineState {
                    v: Seq::new(16, |j: int| if j < k { old(self)@.mem[base + j] } else { old(self)@.v[j] }),
                    ..old(self)@
                }),
                self.microseconds == old(self).microseconds,
            decreases x + 1 - k,
        {
            self.v[k] = self.memory.get(base + k);
            k = k + 1;
            assert(self.v@ =~= Seq::new(16, |j: int| if j < k { old(self)@.mem[base + j] } else { old(self)@.v[j] }));
        }
        assert(self.v@ =~= load_regs(old(self)@, x as int).v);
        (605 + x * 64) as u32
    }
}

impl CPU {
    // 0xDXYN: draws rows `I..I+n` of memory at `(Vx mod 64, Vy)`, flipping
    // the pixels of set bits, clipped at the right and bottom edges. It
    // sets no collision flag.
    fn op_display(&self, x: usize, y: usize, n: u8, display: &mut FrameBuffer) -> (c: u32)
        requires
            x < 16,
            y < 16,
            n < 16,
            range_fault(self.i as int, rows_drawn(self.v@[y as int] as int, n as int)) is None,
        ensures
            final(display)@ == (ScreenState {
                pixels: draw_pixels(
                    old(display)@.pixels,
                    self@.mem,
                    self.i as int,
                    self.v@[x as int] as int,
                    self.v@[y as int] as int,
                    n as int,
                ),
                dirty: true,
            }),
            c == 22734,
    {
        let ghost old_px = display.pixels@;
        let ghost mem = self@.mem;
        let base = self.i as usize;
        let vx = self.v[x] as usize;
        let vy = self.v[y] as usize;
        let height = n as usize;
        let x0 = vx % 64;
        let rows: usize = if vy >= 32 {
            0
        } else if vy + height > 32 {
            32 - vy
        } else {
            height
        };
        let mut r: usize = 0;
        proof {
            lemma_drawn_none(old_px, mem, base as int, vx as int, vy as int, height as int);
        }
        while r < rows
            invariant
                r <= rows,
                rows == rows_drawn(vy as int, height as int),
                rows > 0 ==> base + rows <= 4096,
                base == self.i,
                x0 == vx % 64,
                vx < 256,
                vy < 256,
                height < 16,
                mem == self@.mem,
                old_px.len() == 2048,
                display.pixels@.len() == 2048,
                drawn_upto(display.pixels@, old_px, mem, base as int, vx as int, vy as int, height as int, r * 8),
            decreases rows - r,
        {
            let row = vy + r;
            let data = self.memory.get(base + r);
            let mut k: usize = 0;
            while k < 8
                invariant
                    r < rows,
                    rows == rows_drawn(vy as int, height as int),
                    base + rows <= 4096,
                    mem == self@.mem,
                    vx < 256,
                    vy < 256,
                    height < 16,
                    old_px.len() == 2048,
                    display.pixels@.len() == 2048,
                    row == vy + r,
                    row < 32,
                    k <= 8,
                    x0 < 64,
                    x0 == vx % 64,
                    data == mem[base + r],
                    drawn_upto(display.pixels@, old_px, mem, base as int, vx as int, vy as int, height as int, r * 8 + k),
                decreases 8 - k,
            {
                let col = x0 + k;
                let ghost before = display.pixels@;
                if col < 64 && (data >> ((7 - k) as u8)) & 1u8 == 1u8 {
                    display.flip_pixel(row * 64 + col);
                }
                proof {
                    lemma_draw_column(before, display.pixels@, old_px, mem, base as int, vx as int, vy as int, height as int, row as int, k as int);
                }
                k = k + 1;
            }
            r = r + 1;
        }
        display.set_draw_flag(true);
        let ghost target = draw_pixels(old_px, mem, base as int, vx as int, vy as int, height as int);
        assert forall|p: int| 0 <= p < 2048 implies display.pixels@[p] == target[p] by {
            let rr = p / 64;
            let cc = p % 64;
            assert(p == rr * 64 + cc);
            lemma_drawn_at(display.pixels@, old_px, mem, base as int, vx as int, vy as int, height as int, rows * 8, rr, cc);
            if sprite_hit(mem, base as int, vx as int, vy as int, height as int, rr, cc) {
                assert((rr - vy) * 8 + (cc - vx % 64) < rows * 8) by (nonlinear_arith)
                    requires
                        rr - vy < rows,
                        0 <= cc - vx % 64 < 8,
                ;
            }
        }
        assert(display.pixels@ =~= target);
        22734
    }
}



impl CPU {
    // Family 0: screen clear and returns.
    fn exec_system(&mut self, opcode: u16, display: &mut FrameBuffer) -> (c: u32)
        requires
            old(self).wf(),
            family(opcode) == 0,
        ensures
            final(self).wf(),
            final(self).microseconds == old(self).microseconds,
            (Outcome { machine: final(self)@, screen: final(display)@, cost: c }) == system(
                old(self)@,
                old(display)@,
                opcode,
            ),
    {
        let nn: u8 = (opcode % 256) as u8;
        match nn {
            0xE0 => self.op_clear_screen(display),
            0x0E => self.op_return(),
            0xEE => self.op_return_from_subroutine(),
            _ => 0,
        }
    }

    // Family 8: register-to-register operations.
    fn exec_alu(&mut self, opcode: u16) -> (c: u32)
        requires
            old(self).wf(),
            family(opcode) == 8,
        ensures
            final(self).wf(),
            final(self).microseconds == old(self).microseconds,
            final(self)@ == alu(old(self)@, opcode),
            c == alu_cost(opcode),
    {
        let x: usize = ((opcode / 256) % 16) as usize;
        let y: usize = ((opcode / 16) % 16) as usize;
        match opcode % 16 {
            0x0 => self.op_set_vx_to_value_of_vy(x, y),
            0x1 => self.op_binary_or(x, y),
            0x2 => self.op_binary_and(x, y),
            0x3 => self.op_binary_xor(x, y),
            0x4 => self.op_add_with_carry(x, y),
            0x5 => self.op_subtract_y_from_x(x, y),
            0x6 => self.op_shift_right(x),
            0x7 => self.op_subtract_x_from_y(x, y),
            0xE => self.op_shift_left(x),
            _ => 0,
        }
    }

    // Family F: timers, key wait, index and memory transfers.
    fn exec_misc(&mut self, opcode: u16, keyboard: &Keyboard) -> (r: Result<u32, AddressFault>)
        requires
            old(self).wf(),
            family(opcode) == 15,
        ensures
            final(self).wf(),
            final(self).microseconds == old(self).microseconds,
            match r {
                Ok(c) => exec_fault(old(self)@, opcode) is None && final(self)@ == misc(old(self)@, *keyboard, opcode)
                    && c == misc_cost(opcode),
                Err(f) => exec_fault(old(self)@, opcode) == Some(f.address) && final(self)@ == old(self)@,
            },
    {
        let x: usize = ((opcode / 256) % 16) as usize;
        let base = self.i as usize;
        match opcode % 256 {
            0x07 => Ok(self.op_get_delay_timer(x)),
            0x0A => Ok(self.op_get_key(x, keyboard)),
            0x15 => Ok(self.op_set_delay_timer(x)),
            0x18 => Ok(self.op_set_sound_timer(x)),
            0x1E => Ok(self.op_add_to_index(x)),
            0x29 => Ok(self.op_font_character(x)),
            0x33 => match check_range(base, 3) {
                Err(f) => Err(f),
                Ok(()) => Ok(self.op_binary_coded_decimal_conversion(x)),
            },
            0x55 => match check_range(base, x + 1) {
                Err(f) => Err(f),
                Ok(()) => Ok(self.op_store_register_to_memory(x)),
            },
            0x65 => match check_range(base, x + 1) {
                Err(f) => Err(f),
                Ok(()) => Ok(self.op_load_register_from_memory(x)),
            },
            _ => Ok(0),
        }
    }
}


impl CPU {
    /// Executes instruction `opcode`, `rnd` being the byte the random
    /// instruction uses. An access outside memory is reported, and then
    /// nothing has changed; an undecodable instruction changes nothing and
    /// costs zero.
    pub fn execute(&mut self, opcode: u16, keyboard: &Keyboard, display: &mut FrameBuffer, rnd: u8) -> (r: Result<
        u32,
        AddressFault,
    >)
        requires
            old(self).wf(),
        ensures
            final(self).wf(),
            final(self).microseconds == old(self).microseconds,
            match r {
                Ok(c) => exec_fault(old(self)@, opcode) is None && (Outcome {
                    machine: final(self)@,
                    screen: final(display)@,
                    cost: c,
                }) == step(old(self)@, old(display)@, *keyboard, opcode, rnd),
                Err(f) => exec_fault(old(self)@, opcode) == Some(f.address) && final(self)@ == old(self)@
                    && final(display)@ == old(display)@,
            },
    {
        let x: usize = ((opcode / 256) % 16) as usize;
        let y: usize = ((opcode / 16) % 16) as usize;
        let n: u8 = (opcode % 16) as u8;
        let nn: u8 = (opcode % 256) as u8;
        let nnn: u16 = opcode % 4096;
        match opcode / 4096 {
            0 => Ok(self.exec_system(opcode, display)),
            1 => Ok(self.op_jump(nnn)),
            2 => Ok(self.op_jump_to_subroutine(nnn)),
            3 => Ok(self.op_skip_if_vx_equals_nn(x, nn)),
            4 => Ok(self.op_skip_if_vx_not_equals_nn(x, nn)),
            5 => Ok(self.op_skip_if_vx_equals_vy(x, y)),
            6 => Ok(self.op_set_register(x, nn)),
            7 => Ok(self.op_add_value_to_register(x, nn)),
            8 => Ok(self.exec_alu(opcode)),
            9 => Ok(self.op_skip_if_vx_not_equals_vy(x, y)),
            0xA => Ok(self.op_set_index_register(nnn)),
            0xB => Ok(self.op_jump_with_offset(nnn)),
            0xC => Ok(self.op_random(x, nn, rnd)),
            0xD => {
                let vy = self.v[y] as usize;
                let height = n as usize;
                let rows: usize = if vy >= 32 {
                    0
                } else if vy + height > 32 {
                    32 - vy
                } else {
                    height
                };
                match check_range(self.i as usize, rows) {
                    Err(f) => Err(f),
                    Ok(()) => Ok(self.op_display(x, y, n, display)),
                }
            },
            0xE => match nn {
                0x9E => Ok(self.op_skip_if_key_pressed(x, keyboard)),
                0xA1 => Ok(self.op_skip_if_not_key_pressed(x, keyboard)),
                _ => Ok(0),
            },
            _ => self.exec_misc(opcode, keyboard),
        }
    }
}


impl CPU {
    /// Executes instruction `opcode`, drawing a random byte for the random
    /// instruction. Whatever byte is drawn, the outcome is that of `step`
    /// for it.
    pub fn exec(&mut self, opcode: u16, keyboard: &Keyboard, display: &mut FrameBuffer) -> (r: Result<u32, AddressFault>)
        requires
            old(self).wf(),
        ensures
            final(self).wf(),
            final(self).microseconds == old(self).microseconds,
            match r {
                Ok(c) => exec_fault(old(self)@, opcode) is None && exists|rnd: u8|
                    #[trigger] step(old(self)@, old(display)@, *keyboard, opcode, rnd) == (Outcome {
                        machine: final(self)@,
                        screen: final(display)@,
                        cost: c,
                    }),
                Err(f) => exec_fault(old(self)@, opcode) == Some(f.address) && final(self)@ == old(self)@
                    && final(display)@ == old(display)@,
            },
    {
        let rnd = if opcode / 4096 == 0xC {
            random_byte()
        } else {
            0
        };
        self.execute(opcode, keyboard, display, rnd)
    }

    /// Fetches the big-endian instruction at the program counter and moves
    /// the counter past it.
    fn get_opcode(&mut self) -> (r: Result<u16, AddressFault>)
        requires
            old(self).wf(),
        ensures
            final(self).wf(),
            final(self).microseconds == old(self).microseconds,
            match r {
                Ok(op) => fetch_fault(old(self)@) is None && op == fetched(old(self)@)
                    && final(self)@ == advanced(old(self)@),
                Err(f) => fetch_fault(old(self)@) == Some(f.address) && final(self)@ == old(self)@,
            },
    {
        let pc = self.pc as usize;
        match check_range(pc, 2) {
            Err(f) => Err(f),
            Ok(()) => {
                let highbyte = self.memory.get(pc);
                let lowbyte = self.memory.get(pc + 1);
                self.pc = self.pc + 2;
                Ok(highbyte as u16 * 256 + lowbyte as u16)
            },
        }
    }

    /// One fetch-and-execute cycle; also hands back, as a ghost value, the
    /// random byte the instruction was given.
    fn cycle_with_byte(&mut self, keyboard: &Keyboard, display: &mut FrameBuffer) -> (res: (
        Result<u32, AddressFault>,
        Ghost<u8>,
    ))
        requires
            old(self).wf(),
        ensures
            final(self).wf(),
            final(self).microseconds == old(self).microseconds,
            match res.0 {
                Ok(c) => cycle_fault(old(self)@) is None && cycle(old(self)@, old(display)@, *keyboard, res.1@)
                    == (Outcome { machine: final(self)@, screen: final(display)@, cost: c }),
                Err(f) => cycle_fault(old(self)@) == Some(f.address) && final(self)@ == old(self)@
                    && final(display)@ == old(display)@,
            },
    {
        let start = self.pc;
        match self.get_opcode() {
            Err(f) => (Err(f), Ghost(0u8)),
            Ok(opcode) => {
                let rnd = if opcode / 4096 == 0xC {
                    random_byte()
                } else {
                    0
                };
                match self.execute(opcode, keyboard, display, rnd) {
                    Err(f) => {
                        self.pc = start;
                        (Err(f), Ghost(rnd))
                    },
                    Ok(c) => (Ok(c), Ghost(rnd)),
                }
            },
        }
    }

    /// One fetch-and-execute cycle: whatever random byte is drawn, the
    /// outcome is that of `cycle` for it. On a fault nothing changes.
    pub fn emulate_cycle(&mut self, keyboard: &Keyboard, display: &mut FrameBuffer) -> (r: Result<u32, AddressFault>)
        requires
            old(self).wf(),
        ensures
            final(self).wf(),
            final(self).microseconds == old(self).microseconds,
            match r {
                Ok(c) => cycle_fault(old(self)@) is None && exists|rnd: u8|
                    #[trigger] cycle(old(self)@, old(display)@, *keyboard, rnd) == (Outcome {
                        machine: final(self)@,
                        screen: final(display)@,
                        cost: c,
                    }),
                Err(f) => cycle_fault(old(self)@) == Some(f.address) && final(self)@ == old(self)@
                    && final(display)@ == old(display)@,
            },
    {
        let (r, rnd) = self.cycle_with_byte(keyboard, display);
        r
    }

    /// The frame boundary's timer step: both timers drop by one unless they
    /// are zero, and the tone edge owed for the sound timer is returned.
    pub fn update_timers(&mut self, tone_playing: bool) -> (a: ToneAction)
        requires
            old(self).wf(),
        ensures
            final(self).wf(),
            final(self).microseconds == old(self).microseconds,
            final(self)@ == timers_after(old(self)@),
            a == tone_action(old(self).st, tone_playing),
    {
        if self.dt > 0 {
            self.dt = self.dt - 1;
        }
        if self.st > 0 {
            self.st = self.st - 1;
            if !tone_playing {
                ToneAction::Start
            } else {
                ToneAction::Keep
            }
        } else if tone_playing {
            ToneAction::Stop
        } else {
            ToneAction::Keep
        }
    }
}


/// Every instruction costs at most `MAX_COST` microseconds.
proof fn lemma_cost_bounded(s: MachineState, scr: ScreenState, kb: Keyboard, op: u16, rnd: u8)
    ensures
        step(s, scr, kb, op, rnd).cost <= MAX_COST,
{
}

/// A faulting cycle ends the frame with its fault.
proof fn lemma_run_fault(s: MachineState, scr: ScreenState, kb: Keyboard, budget: int, t: Seq<u8>)
    requires
        cycle_fault(s) is Some,
    ensures
        run(s, scr, kb, budget, t) == (Frame { machine: s, screen: scr, budget: 0, fault: cycle_fault(s) }),
{
    reveal(run);
}

/// An undecodable instruction ends the frame and discards the budget.
proof fn lemma_run_stop(s: MachineState, scr: ScreenState, kb: Keyboard, budget: int, r: u8, t: Seq<u8>)
    requires
        cycle_fault(s) is None,
        cycle(s, scr, kb, r).cost == 0,
    ensures
        run(s, scr, kb, budget, seq![r] + t) == (Frame {
            machine: cycle(s, scr, kb, r).machine,
            screen: cycle(s, scr, kb, r).screen,
            budget: 0,
            fault: None,
        }),
{
    reveal(run);
    assert((seq![r] + t)[0] == r);
}

/// A cycle that spends the budget ends the frame, carrying the debt.
proof fn lemma_run_last(s: MachineState, scr: ScreenState, kb: Keyboard, budget: int, r: u8, t: Seq<u8>)
    requires
        cycle_fault(s) is None,
        cycle(s, scr, kb, r).cost > 0,
        budget - cycle(s, scr, kb, r).cost <= 0,
    ensures
        run(s, scr, kb, budget, seq![r] + t) == (Frame {
            machine: cycle(s, scr, kb, r).machine,
            screen: cycle(s, scr, kb, r).screen,
            budget: budget - cycle(s, scr, kb, r).cost,
            fault: None,
        }),
{
    reveal(run);
    assert((seq![r] + t)[0] == r);
}

/// A cycle that leaves budget over hands the rest of the frame to the
/// following random bytes.
proof fn lemma_run_cycle(s: MachineState, scr: ScreenState, kb: Keyboard, budget: int, r: u8, t: Seq<u8>)
    requires
        cycle_fault(s) is None,
        cycle(s, scr, kb, r).cost > 0,
        budget - cycle(s, scr, kb, r).cost > 0,
    ensures
        run(s, scr, kb, budget, seq![r] + t) == run(
            cycle(s, scr, kb, r).machine,
            cycle(s, scr, kb, r).screen,
            kb,
            budget - cycle(s, scr, kb, r).cost,
            t,
        ),
{
    reveal(run);
    assert((seq![r] + t)[0] == r);
    assert((seq![r] + t).drop_first() =~= t);
}

impl CPU {
    /// One 60 Hz frame: the timers step and the tone edge is computed, the
    /// frame's budget is added to the carried one, and instructions run, at
    /// least one and then while budget is left. An undecodable instruction
    /// ends the frame and discards the budget left; an access outside
    /// memory ends it with that fault. Whatever random bytes are drawn, the
    /// outcome is that of `run` for them.
    pub fn tick(&mut self, keyboard: &Keyboard, display: &mut FrameBuffer, tone_playing: bool) -> (r: Result<
        ToneAction,
        AddressFault,
    >)
        requires
            old(self).wf(),
            old(self).budget_ok(),
        ensures
            final(self).wf(),
            final(self).microseconds <= 0,
            final(self).microseconds >= old(self).microseconds + FRAME_TICKS - MAX_COST || final(self).microseconds
                > -MAX_COST,
            r is Ok ==> r->Ok_0 == tone_action(old(self).st, tone_playing),
            exists|rnd: Seq<u8>|
                #[trigger] run(
                    timers_after(old(self)@),
                    old(display)@,
                    *keyboard,
                    old(self).microseconds + FRAME_TICKS,
                    rnd,
                ) == (Frame {
                    machine: final(self)@,
                    screen: final(display)@,
                    budget: final(self).microseconds as int,
                    fault: match r {
                        Ok(_) => None,
                        Err(f) => Some(f.address),
                    },
                }),
    {
        let action = self.update_timers(tone_playing);
        self.microseconds = self.microseconds + FRAME_TICKS;
        let ghost s0 = self@;
        let ghost scr0 = display@;
        let ghost m0 = self.microseconds as int;
        let ghost mut used: Seq<u8> = Seq::empty();
        assert forall|t: Seq<u8>| #[trigger] run(s0, scr0, *keyboard, m0, used + t) == run(
            self@,
            display@,
            *keyboard,
            self.microseconds as int,
            t,
        ) by {
            assert(used + t =~= t);
        }
        loop
            invariant
                self.wf(),
                i32::MIN + MAX_COST < m0 <= FRAME_TICKS,
                self.microseconds == m0 || 0 < self.microseconds <= FRAME_TICKS,
                s0 == timers_after(old(self)@),
                scr0 == old(display)@,
                m0 == old(self).microseconds + FRAME_TICKS,
                action == tone_action(old(self).st, tone_playing),
                forall|t: Seq<u8>| #[trigger] run(s0, scr0, *keyboard, m0, used + t) == run(
                    self@,
                    display@,
                    *keyboard,
                    self.microseconds as int,
                    t,
                ),
            decreases self.microseconds - i32::MIN,
        {
            let ghost before = self@;
            let ghost before_screen = display@;
            let ghost budget = self.microseconds as int;
            let (res, rnd) = self.cycle_with_byte(keyboard, display);
            match res {
                Err(f) => {
                    self.microseconds = 0;
                    proof {
                        lemma_run_fault(before, before_screen, *keyboard, budget, Seq::empty());
                        assert(used + Seq::empty() =~= used);
                        assert(run(s0, scr0, *keyboard, m0, used + Seq::empty()) == run(
                            before,
                            before_screen,
                            *keyboard,
                            budget,
                            Seq::empty(),
                        ));
                    }
                    return Err(f);
                },
                Ok(c) => {
                    proof {
                        lemma_cost_bounded(advanced(before), before_screen, *keyboard, fetched(before), rnd@);
                    }
                    if c == 0 {
                        self.microseconds = 0;
                        proof {
                            lemma_run_stop(before, before_screen, *keyboard, budget, rnd@, Seq::empty());
                            assert(used + (seq![rnd@] + Seq::empty()) =~= used.push(rnd@));
                            assert(run(s0, scr0, *keyboard, m0, used + (seq![rnd@] + Seq::empty())) == run(
                                before,
                                before_screen,
                                *keyboard,
                                budget,
                                seq![rnd@] + Seq::empty(),
                            ));
                        }
                        return Ok(action);
                    }
                    assert(0 < c <= MAX_COST);
                    self.microseconds = self.microseconds - c as i32;
                    if self.microseconds <= 0 {
                        proof {
                            lemma_run_last(before, before_screen, *keyboard, budget, rnd@, Seq::empty());
                            assert(used + (seq![rnd@] + Seq::empty()) =~= used.push(rnd@));
                            assert(run(s0, scr0, *keyboard, m0, used + (seq![rnd@] + Seq::empty())) == run(
                                before,
                                before_screen,
                                *keyboard,
                                budget,
                                seq![rnd@] + Seq::empty(),
                            ));
                        }
                        return Ok(action);
                    }
                    proof {
                        assert forall|t: Seq<u8>| #[trigger] run(s0, scr0, *keyboard, m0, used.push(rnd@) + t) == run(
                            self@,
                            display@,
                            *keyboard,
                            self.microseconds as int,
                            t,
                        ) by {
                            assert(used.push(rnd@) + t =~= used + (seq![rnd@] + t));
                            lemma_run_cycle(before, before_screen, *keyboard, budget, rnd@, t);
                        }
                        used = used.push(rnd@);
                    }
                },
            }
        }
    }
}

} // verus!
