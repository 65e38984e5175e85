//! The monochrome 64x32 frame buffer and its redraw flag.
use vstd::prelude::*;

use crate::PIXEL_COUNT;

verus! {

/// What a frame buffer holds: one flag per pixel, row by row, and whether a
/// redraw is owed.
pub struct ScreenState {
    pub pixels: Seq<bool>,
    pub dirty: bool,
}

/// The blank display.
pub open spec fn blank_pixels() -> Seq<bool> {
    Seq::new(2048, |p: int| false)
}

/// Pixels of the display, row by row; the pixel at row `r` and column `c`
/// has index `r * 64 + c`.
pub struct FrameBuffer {
    pub pixels: [bool; 2048],
    pub draw_flag: bool,
}

impl View for FrameBuffer {
    type V = ScreenState;

    open spec fn view(&self) -> ScreenState {
        ScreenState { pixels: self.pixels@, dirty: self.draw_flag }
    }
}

impl FrameBuffer {
    /// A blank display with no redraw owed.
    pub fn new() -> (fb: FrameBuffer)
        ensures
            fb@ == (ScreenState { pixels: blank_pixels(), dirty: false }),
    {
        let fb = FrameBuffer { pixels: [false; 2048], draw_flag: false };
        assert(fb.pixels@ =~= blank_pixels());
        fb
    }

    /// Turns every pixel off and marks the display for redraw.
    pub fn clear(&mut self)
        ensures
            final(self)@ == (ScreenState { pixels: blank_pixels(), dirty: true }),
    {
        self.pixels = [false; 2048];
        self.draw_flag = true;
        assert(self.pixels@ =~= blank_pixels());
    }

    /// The pixel of index `addr`.
    pub fn get_pixel(&self, addr: usize) -> (r: bool)
        requires
            addr < PIXEL_COUNT,
        ensures
            r == self.pixels@[addr as int],
    {
        self.pixels[addr]
    }

    /// Sets the pixel of index `addr` to `value`.
    pub fn set_pixel(&mut self, addr: usize, value: bool)
        requires
            addr < PIXEL_COUNT,
        ensures
            final(self)@ == (ScreenState {
                pixels: old(self)@.pixels.update(addr as int, value),
                dirty: old(self)@.dirty,
            }),
    {
        self.pixels[addr] = value;
    }

    /// Flips the pixel of index `addr`.
    pub fn flip_pixel(&mut self, addr: usize)
        requires
            addr < PIXEL_COUNT,
        ensures
            final(self)@ == (ScreenState {
                pixels: old(self)@.pixels.update(addr as int, !old(self)@.pixels[addr as int]),
                dirty: old(self)@.dirty,
            }),
    {
        self.pixels[addr] = !self.pixels[addr];
    }

    /// Sets whether a redraw is owed.
    pub fn set_draw_flag(&mut self, value: bool)
        ensures
            final(self)@ == (ScreenState { pixels: old(self)@.pixels, dirty: value }),
    {
        self.draw_flag = value;
    }
}

} // verus!
