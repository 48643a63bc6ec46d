use vstd::prelude::*;
use crate::color::Color;
use crate::extract::{Ratio, Uv};
use crate::frame::Frame;

verus! {

/// Wraps a decoded RGBA8 image and answers nearest-neighbor lookups at
/// normalized coordinates: the coordinate is scaled by the image's
/// dimensions and truncated toward zero. An index that would land outside
/// the image (a coordinate at or above 1) is clamped to the last pixel, so a
/// lookup never goes out of bounds.
pub struct Sampler(Frame);

impl Sampler {
    /// The wrapped image.
    pub closed spec fn frame(self) -> Frame {
        self.0
    }

    pub open spec fn wf(self) -> bool {
        self.frame().wf() && self.frame().width > 0 && self.frame().height > 0
    }

    /// The pixel index a normalized coordinate maps to along an axis of
    /// `extent` pixels: scale, truncate toward zero, clamp to the last index.
    pub open spec fn spec_texel(r: Ratio, extent: u32) -> int {
        let i = r.num as int * extent as int / r.den as int;
        if i < extent as int {
            i
        } else {
            extent as int - 1
        }
    }

    /// The color `sample_u8` looks up for `uv`.
    pub open spec fn spec_sample(self, uv: Uv) -> Color {
        self.frame().pixel(
            Self::spec_texel(uv.y, self.frame().height) * self.frame().width as int
                + Self::spec_texel(uv.x, self.frame().width),
        )
    }

    /// Wraps a nonempty decoded image.
    pub fn new(image: Frame) -> (s: Sampler)
        requires
            image.wf(),
            image.width > 0,
            image.height > 0,
        ensures
            s.frame() == image,
            s.wf(),
    {
        Sampler(image)
    }

    /// The wrapped image's dimensions.
    pub fn resolution(&self) -> (r: (u32, u32))
        ensures
            r.0 == self.frame().width,
            r.1 == self.frame().height,
    {
        (self.0.width, self.0.height)
    }

    fn texel(r: Ratio, extent: u32) -> (i: u32)
        requires
            r.wf(),
            extent > 0,
        ensures
            i as int == Self::spec_texel(r, extent),
            i < extent,
    {
        proof {
            assert(r.num as int * extent as int <= u32::MAX as int * u32::MAX as int)
                by (nonlinear_arith)
                requires
                    r.num <= u32::MAX,
                    extent <= u32::MAX,
            ;
        }
        let scaled: u64 = (r.num as u64 * extent as u64) / (r.den as u64);
        if scaled < extent as u64 {
            scaled as u32
        } else {
            extent - 1
        }
    }

    /// Nearest-neighbor lookup at the normalized coordinate `uv`.
    pub fn sample_u8(&self, uv: Uv) -> (c: Color)
        requires
            self.wf(),
            uv.x.wf(),
            uv.y.wf(),
        ensures
            c == self.spec_sample(uv),
    {
        let x = Self::texel(uv.x, self.0.width);
        let y = Self::texel(uv.y, self.0.height);
        self.0.pixel_at(x, y)
    }
}

} // verus!
