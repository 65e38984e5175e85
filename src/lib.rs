//! A CHIP-8 style virtual machine: memory, register file, instruction
//! decoder and the frame-budgeted scheduler, with the display, keypad and
//! tone generator modelled as plain values.
use vstd::prelude::*;

pub mod cpu;
pub mod frame_buffer;
pub mod keyboard;
pub mod laws;
pub mod memory;
pub mod model;
pub mod sprite;

verus! {

/// Size of the address space in bytes.
pub const RAM_SIZE: usize = 4096;

/// Address at which a program image is loaded and execution starts.
pub const PROGRAM_START_ADDRESS: u16 = 512;

/// Address of the built-in hexadecimal font table.
pub const SPRITE_CHARS_ADDR: u16 = 0x50;

/// Number of general registers.
pub const REGISTER_COUNT: usize = 16;

/// Number of return addresses the call stack holds.
pub const STACK_DEPTH: usize = 16;

/// Width of the display in pixels.
pub const COLS: u16 = 64;

/// Height of the display in pixels.
pub const ROWS: u16 = 32;

/// Number of pixels of the display.
pub const PIXEL_COUNT: usize = 2048;

/// Number of keys of the keypad.
pub const KEY_COUNT: usize = 16;

/// Microseconds of execution granted per 60 Hz frame.
pub const FRAME_TICKS: i32 = 16666;

/// Pixel scale a front end uses when it shows the display.
pub const SCALE: u32 = 10;

} // verus!
