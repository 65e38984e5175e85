//! The address space: a fixed block of bytes seeded with the font table.
use vstd::prelude::*;

use crate::SPRITE_CHARS_ADDR;

verus! {

/// The sixteen 5-byte glyphs of the hexadecimal digits 0 to F, in order.
pub open spec fn font() -> Seq<u8> {
    seq![
        0xF0u8, 0x90, 0x90, 0x90, 0xF0, // 0
        0x20, 0x60, 0x20, 0x20, 0x70, // 1
        0xF0, 0x10, 0xF0, 0x80, 0xF0, // 2
        0xF0, 0x10, 0xF0, 0x10, 0xF0, // 3
        0x90, 0x90, 0xF0, 0x10, 0x10, // 4
        0xF0, 0x80, 0xF0, 0x10, 0xF0, // 5
        0xF0, 0x80, 0xF0, 0x90, 0xF0, // 6
        0xF0, 0x10, 0x20, 0x40, 0x40, // 7
        0xF0, 0x90, 0xF0, 0x90, 0xF0, // 8
        0xF0, 0x90, 0xF0, 0x10, 0xF0, // 9
        0xF0, 0x90, 0xF0, 0x90, 0x90, // A
        0xE0, 0x90, 0xE0, 0x90, 0xE0, // B
        0xF0, 0x80, 0x80, 0x80, 0xF0, // C
        0xE0, 0x90, 0x90, 0x90, 0xE0, // D
        0xF0, 0x80, 0xF0, 0x80, 0xF0, // E
        0xF0, 0x80, 0xF0, 0x80, 0x80, // F
    ]
}

/// `ram` with the bytes of `data` copied in from address `addr` on.
pub open spec fn loaded(ram: Seq<u8>, addr: int, data: Seq<u8>) -> Seq<u8> {
    Seq::new(
        ram.len(),
        |a: int|
            if addr <= a < addr + data.len() {
                data[a - addr]
            } else {
                ram[a]
            },
    )
}

/// Contents of a freshly built address space: zero but for the font table.
pub open spec fn initial_ram() -> Seq<u8> {
    loaded(Seq::new(4096, |a: int| 0u8), SPRITE_CHARS_ADDR as int, font())
}

fn font_table() -> (r: Vec<u8>)
    ensures
        r@ == font(),
{
    vec![
        0xF0u8, 0x90, 0x90, 0x90, 0xF0,
        0x20, 0x60, 0x20, 0x20, 0x70,
        0xF0, 0x10, 0xF0, 0x80, 0xF0,
        0xF0, 0x10, 0xF0, 0x10, 0xF0,
        0x90, 0x90, 0xF0, 0x10, 0x10,
        0xF0, 0x80, 0xF0, 0x10, 0xF0,
        0xF0, 0x80, 0xF0, 0x90, 0xF0,
        0xF0, 0x10, 0x20, 0x40, 0x40,
        0xF0, 0x90, 0xF0, 0x90, 0xF0,
        0xF0, 0x90, 0xF0, 0x10, 0xF0,
        0xF0, 0x90, 0xF0, 0x90, 0x90,
        0xE0, 0x90, 0xE0, 0x90, 0xE0,
        0xF0, 0x80, 0x80, 0x80, 0xF0,
        0xE0, 0x90, 0x90, 0x90, 0xE0,
        0xF0, 0x80, 0xF0, 0x80, 0xF0,
        0xF0, 0x80, 0xF0, 0x80, 0x80,
    ]
}

/// The machine's byte-addressable memory of 4096 bytes.
pub struct Memory {
    pub ram: [u8; 4096],
}

impl Memory {
    /// A zeroed address space holding the font table at `SPRITE_CHARS_ADDR`.
    pub fn new() -> (m: Memory)
        ensures
            m.ram@ == initial_ram(),
    {
        let mut m = Memory::default();
        let font = font_table();
        m.load_data(SPRITE_CHARS_ADDR as usize, font.as_slice());
        m
    }

    /// Copies `data` into memory from address `addr` on.
    pub fn load_data(&mut self, addr: usize, data: &[u8])
        requires
            addr + data@.len() <= 4096,
        ensures
            final(self).ram@ == loaded(old(self).ram@, addr as int, data@),
    {
        let n = data.len();
        let mut k: usize = 0;
        while k < n
            invariant
                n == data@.len(),
                addr + n <= 4096,
                k <= n,
                self.ram@ == loaded(old(self).ram@, addr as int, data@.take(k as int)),
            decreases n - k,
        {
            self.ram[addr + k] = data[k];
            k = k + 1;
            assert(self.ram@ =~= loaded(old(self).ram@, addr as int, data@.take(k as int)));
        }
        assert(data@.take(n as int) =~= data@);
    }

    /// The byte at `addr`.
    pub fn get(&self, addr: usize) -> (r: u8)
        requires
            addr < 4096,
        ensures
            r == self.ram@[addr as int],
    {
        self.ram[addr]
    }

    /// Writes `value` at `addr`.
    pub fn set(&mut self, addr: usize, value: u8)
        requires
            addr < 4096,
        ensures
            final(self).ram@ == old(self).ram@.update(addr as int, value),
    {
        self.ram[addr] = value;
    }
}

impl Default for Memory {
    /// A zeroed address space, without the font table.
    fn default() -> (m: Memory)
        ensures
            m.ram@ == Seq::new(4096, |a: int| 0u8),
    {
        let m = Memory { ram: [0u8; 4096] };
        assert(m.ram@ =~= Seq::new(4096, |a: int| 0u8));
        m
    }
}

} // verus!
