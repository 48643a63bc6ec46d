use vstd::prelude::*;

verus! {

/// An RGBA pixel with 8 bits per channel, in RGBA order.
///
/// A channel byte `v` stands for the normalized intensity `v / 255`, so the
/// range `0 ..= 255` maps onto `[0, 1]`. All color arithmetic in this crate is
/// done exactly in this fixed-point scale, which makes the byte round trip
/// through a transform lossless.
#[derive(Clone, Copy, PartialEq, Eq, Structural, Debug)]
pub struct Color {
    pub r: u8,
    pub g: u8,
    pub b: u8,
    pub a: u8,
}

impl Color {
    /// The opaque default color: black with full alpha.
    pub open spec fn spec_default() -> Color {
        Color { r: 0, g: 0, b: 0, a: 255 }
    }

    pub fn new(r: u8, g: u8, b: u8, a: u8) -> (c: Color)
        ensures
            c == (Color { r, g, b, a }),
    {
        Color { r, g, b, a }
    }

    /// The four channel bytes of this color, in RGBA order.
    pub open spec fn bytes(self) -> Seq<u8> {
        seq![self.r, self.g, self.b, self.a]
    }
}

impl Default for Color {
    /// The opaque default color, also produced by the zero-parameter transform.
    fn default() -> (c: Color)
        ensures
            c == Color::spec_default(),
    {
        Color { r: 0, g: 0, b: 0, a: 255 }
    }
}

/// The color whose four channel bytes open a byte sequence.
pub open spec fn color_of_bytes(s: Seq<u8>) -> Color {
    Color { r: s[0], g: s[1], b: s[2], a: s[3] }
}

/// The color stored at pixel index `i` of a raw RGBA8 byte sequence.
pub open spec fn color_at(data: Seq<u8>, i: int) -> Color {
    Color {
        r: data[4 * i],
        g: data[4 * i + 1],
        b: data[4 * i + 2],
        a: data[4 * i + 3],
    }
}

} // verus!
