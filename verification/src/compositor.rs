//! The frame compositor: owns the pixel buffer the UI runtime renders into
//! and converts it to the host surface's packed format.
//!
//! Invariant: the buffer holds exactly `width * height` pixels at all times;
//! a resize reallocates it to the new area before returning. The packed
//! format is `0x00RRGGBB`, one `u32` per pixel.

use vstd::prelude::*;

verus! {

/// One rendered pixel: 8-bit red, green and blue.
#[derive(Clone, Copy, Debug, PartialEq, Eq, Structural)]
pub struct Rgb8Pixel {
    pub r: u8,
    pub g: u8,
    pub b: u8,
}

/// An all-black pixel, the buffer's initial contents.
pub open spec fn black_pixel() -> Rgb8Pixel {
    Rgb8Pixel { r: 0, g: 0, b: 0 }
}

/// A pixel in the host surface's packed format: `0x00RRGGBB`.
pub open spec fn packed_pixel(p: Rgb8Pixel) -> int {
    p.r * 0x10000 + p.g * 0x100 + p.b
}

/// Convert one pixel to the packed format.
pub fn pack_pixel(p: Rgb8Pixel) -> (packed: u32)
    ensures
        packed == packed_pixel(p),
{
    let red = p.r as u32;
    let green = p.g as u32;
    let blue = p.b as u32;
    proof {
        assert((red << 16u32) | (green << 8u32) | blue == red * 0x10000 + green * 0x100 + blue)
            by (bit_vector)
            requires
                red < 256u32,
                green < 256u32,
                blue < 256u32,
        ;
    }
    (red << 16u32) | (green << 8u32) | blue
}

/// The pixel buffer for one open window, at the window's physical size.
pub struct FrameCompositor {
    /// Physical width in pixels.
    pub physical_width: u32,
    /// Physical height in pixels.
    pub physical_height: u32,
    /// The rendered pixels, row-major, exactly `width * height` of them.
    pub pixel_buffer: Vec<Rgb8Pixel>,
}

impl FrameCompositor {
    /// The buffer always covers the physical area exactly.
    pub open spec fn wf(&self) -> bool {
        self.pixel_buffer@.len() == self.physical_width * self.physical_height
    }

    /// The physical area, and so the buffer length, in pixels.
    pub open spec fn spec_area(&self) -> int {
        self.physical_width * self.physical_height
    }

    /// Allocate a black pixel buffer covering the given physical size.
    pub fn new(physical_width: u32, physical_height: u32) -> (c: FrameCompositor)
        requires
            physical_width * physical_height <= u32::MAX,
        ensures
            c.wf(),
            c.physical_width == physical_width,
            c.physical_height == physical_height,
            forall|i: int| 0 <= i < c.pixel_buffer@.len() ==> c.pixel_buffer@[i] == black_pixel(),
    {
        proof {
            assert(physical_width * physical_height >= 0) by (nonlinear_arith);
        }
        let count = physical_width as usize * physical_height as usize;
        let mut pixel_buffer: Vec<Rgb8Pixel> = Vec::new();
        while pixel_buffer.len() < count
            invariant
                pixel_buffer@.len() <= count,
                forall|i: int|
                    0 <= i < pixel_buffer@.len() ==> pixel_buffer@[i] == black_pixel(),
            decreases count - pixel_buffer@.len(),
        {
            pixel_buffer.push(Rgb8Pixel { r: 0, g: 0, b: 0 });
        }
        FrameCompositor { physical_width, physical_height, pixel_buffer }
    }

    /// The number of pixels in the buffer.
    pub fn pixel_count(&self) -> (count: usize)
        ensures
            count == self.pixel_buffer@.len(),
    {
        self.pixel_buffer.len()
    }

    /// Resize the buffer to exactly cover a new physical size. Pixels both
    /// sizes cover are kept; any newly exposed area starts out black.
    pub fn resize(&mut self, physical_width: u32, physical_height: u32)
        requires
            physical_width * physical_height <= u32::MAX,
        ensures
            final(self).wf(),
            final(self).physical_width == physical_width,
            final(self).physical_height == physical_height,
            final(self).pixel_buffer@.len() == physical_width * physical_height,
            forall|i: int|
                0 <= i < final(self).pixel_buffer@.len() ==> final(self).pixel_buffer@[i] == (
                if i < old(self).pixel_buffer@.len() {
                    old(self).pixel_buffer@[i]
                } else {
                    black_pixel()
                }),
    {
        proof {
            assert(physical_width * physical_height >= 0) by (nonlinear_arith);
        }
        let count = physical_width as usize * physical_height as usize;
        if self.pixel_buffer.len() > count {
            self.pixel_buffer.truncate(count);
        }
        while self.pixel_buffer.len() < count
            invariant
                self.pixel_buffer@.len() <= count,
                old(self).pixel_buffer@.len() <= count ==> self.pixel_buffer@.len()
                    >= old(self).pixel_buffer@.len(),
                old(self).pixel_buffer@.len() > count ==> self.pixel_buffer@.len() == count,
                self.physical_width == old(self).physical_width,
                self.physical_height == old(self).physical_height,
                forall|i: int|
                    0 <= i < self.pixel_buffer@.len() ==> self.pixel_buffer@[i] == (
                    if i < old(self).pixel_buffer@.len() {
                        old(self).pixel_buffer@[i]
                    } else {
                        black_pixel()
                    }),
            decreases count - self.pixel_buffer@.len(),
        {
            self.pixel_buffer.push(Rgb8Pixel { r: 0, g: 0, b: 0 });
        }
        self.physical_width = physical_width;
        self.physical_height = physical_height;
    }

    /// Replace the buffer's contents with freshly rendered pixels of the
    /// same physical size.
    pub fn set_pixels(&mut self, pixels: Vec<Rgb8Pixel>)
        requires
            pixels@.len() == old(self).pixel_buffer@.len(),
        ensures
            final(self).pixel_buffer@ == pixels@,
            final(self).physical_width == old(self).physical_width,
            final(self).physical_height == old(self).physical_height,
    {
        self.pixel_buffer = pixels;
    }

    /// The whole buffer in the host surface's packed format, pixel for
    /// pixel.
    pub fn packed_frame(&self) -> (packed: Vec<u32>)
        ensures
            packed@.len() == self.pixel_buffer@.len(),
            forall|i: int|
                0 <= i < packed@.len() ==> packed@[i] == packed_pixel(self.pixel_buffer@[i]),
    {
        let mut packed: Vec<u32> = Vec::new();
        let mut index: usize = 0;
        while index < self.pixel_buffer.len()
            invariant
                index == packed@.len(),
                index <= self.pixel_buffer@.len(),
                forall|i: int|
                    0 <= i < packed@.len() ==> packed@[i] == packed_pixel(self.pixel_buffer@[i]),
            decreases self.pixel_buffer@.len() - index,
        {
            let pixel = self.pixel_buffer[index];
            packed.push(pack_pixel(pixel));
            index = index + 1;
        }
        packed
    }
}

} // verus!
