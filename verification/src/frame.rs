use vstd::prelude::*;
use crate::color::Color;
use crate::color::color_at;

verus! {

/// A decoded rectangular RGBA8 pixel buffer: `width * height` pixels in
/// row-major order, four bytes per pixel.
#[derive(Debug)]
pub struct Frame {
    pub width: u32,
    pub height: u32,
    pub data: Vec<u8>,
}

impl Frame {
    /// The buffer holds exactly four bytes for every pixel.
    pub open spec fn wf(self) -> bool {
        self.data@.len() == self.width as int * self.height as int * 4
    }

    pub open spec fn pixel_count(self) -> int {
        self.width as int * self.height as int
    }

    /// The color of the pixel with linear (row-major) index `i`.
    pub open spec fn pixel(self, i: int) -> Color {
        color_at(self.data@, i)
    }

    /// Wraps raw RGBA8 bytes; rejects a buffer whose length does not match
    /// the dimensions, handing the bytes back unchanged.
    pub fn new(width: u32, height: u32, data: Vec<u8>) -> (r: Result<Frame, Vec<u8>>)
        ensures
            data@.len() == width as int * height as int * 4 ==> r == Ok::<Frame, Vec<u8>>(
                Frame { width, height, data },
            ),
            data@.len() != width as int * height as int * 4 ==> r == Err::<Frame, Vec<u8>>(data),
            r matches Ok(f) ==> f.wf(),
    {
        proof {
            assert(width as int * height as int <= u32::MAX as int * u32::MAX as int)
                by (nonlinear_arith)
                requires
                    width <= u32::MAX,
                    height <= u32::MAX,
            ;
        }
        let expected: u128 = width as u128 * height as u128 * 4;
        if data.len() as u128 == expected {
            Ok(Frame { width, height, data })
        } else {
            Err(data)
        }
    }

    /// The color of the pixel at column `x`, row `y`.
    pub fn pixel_at(&self, x: u32, y: u32) -> (c: Color)
        requires
            self.wf(),
            x < self.width,
            y < self.height,
        ensures
            c == self.pixel(y as int * self.width as int + x as int),
    {
        let n: usize = self.data.len();
        proof {
            lemma_pixel_index_in_range(self.width as int, self.height as int, x as int, y as int);
            assert(self.width as int * self.height as int <= n as int);
            assert((y as int * self.width as int + x as int) < n as int);
        }
        let i: usize = (y as usize) * (self.width as usize) + (x as usize);
        Color {
            r: self.data[4 * i],
            g: self.data[4 * i + 1],
            b: self.data[4 * i + 2],
            a: self.data[4 * i + 3],
        }
    }
}

/// In a `width` by `height` image, the linear index of an in-range pixel
/// coordinate lies below `width * height`.
pub proof fn lemma_pixel_index_in_range(width: int, height: int, x: int, y: int)
    requires
        0 <= x < width,
        0 <= y < height,
    ensures
        0 <= y * width + x < width * height,
{
    assert(y * width + x < width * height) by (nonlinear_arith)
        requires
            0 <= x < width,
            0 <= y < height,
    ;
    assert(y * width + x >= 0) by (nonlinear_arith)
        requires
            0 <= x,
            0 <= y,
            0 < width,
    ;
}

} // verus!
