//! The 160 x 144 output image, one 32-bit ARGB color per pixel, stored
//! row-major.

use vstd::prelude::*;

verus! {

/// Screen width in pixels.
pub const SCREEN_W: usize = 160;

/// Screen height in pixels.
pub const SCREEN_H: usize = 144;

/// The output image.
pub struct Framebuffer {
    pub pixels: Vec<u32>,
}

impl Framebuffer {
    /// The image always holds exactly one color per screen pixel.
    pub open spec fn wf(self) -> bool {
        self.pixels@.len() == 160 * 144
    }

    /// The pixel at column `x` of row `y`.
    pub open spec fn spec_pixel(self, x: int, y: int) -> u32 {
        self.pixels@[y * 160 + x]
    }

    /// A white image.
    pub fn new() -> (r: Framebuffer)
        ensures
            r.pixels@ == Seq::new(160 * 144, |i: int| 0xFFFFFFFFu32),
            r.wf(),
    {
        let mut pixels: Vec<u32> = Vec::new();
        let mut i: usize = 0;
        while i < 160 * 144
            invariant
                i <= 160 * 144,
                pixels@ == Seq::new(i as nat, |j: int| 0xFFFFFFFFu32),
            decreases 160 * 144 - i,
        {
            pixels.push(0xFFFFFFFF);
            proof {
                assert(pixels@ =~= Seq::new((i + 1) as nat, |j: int| 0xFFFFFFFFu32));
            }
            i = i + 1;
        }
        Framebuffer { pixels }
    }

    /// Writes one pixel.
    pub fn set_pixel(&mut self, x: usize, y: usize, color: u32)
        requires
            old(self).wf(),
            x < 160,
            y < 144,
        ensures
            final(self).pixels@ == old(self).pixels@.update(y * 160 + x, color),
            final(self).wf(),
    {
        self.pixels.set(y * 160 + x, color);
    }

    /// Reads one pixel.
    pub fn get_pixel(&self, x: usize, y: usize) -> (r: u32)
        requires
            self.wf(),
            x < 160,
            y < 144,
        ensures
            r == self.spec_pixel(x as int, y as int),
    {
        self.pixels[y * 160 + x]
    }

    /// The image as one row-major buffer, top row first.
    pub fn as_flat_buffer(&self) -> (r: Vec<u32>)
        requires
            self.wf(),
        ensures
            r@ == self.pixels@,
    {
        let mut out: Vec<u32> = Vec::new();
        let mut i: usize = 0;
        while i < 160 * 144
            invariant
                self.wf(),
                i <= 160 * 144,
                out@ == self.pixels@.take(i as int),
            decreases 160 * 144 - i,
        {
            out.push(self.pixels[i]);
            proof {
                assert(out@ =~= self.pixels@.take((i + 1) as int));
            }
            i = i + 1;
        }
        proof {
            assert(out@ =~= self.pixels@);
        }
        out
    }
}

} // verus!
