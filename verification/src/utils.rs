use vstd::prelude::*;
use crate::color::Color;

verus! {

/// The shader step functions over this crate's fixed-point scale, where the
/// byte `v` stands for `v / 255`: `step` snaps a value to 0 or 1 against an
/// edge, and `smoothstep` is the cubic Hermite ramp `t * t * (3 - 2 * t)` of
/// the value's clamped position `t` inside an edge interval, rounded to the
/// nearest fixed-point step.
pub trait Step: Sized {
    spec fn spec_step(self, edge: Self) -> Self;

    /// The edge interval `smoothstep` ramps over is nonempty.
    spec fn smoothstep_wf(self, edge0: Self, edge1: Self) -> bool;

    spec fn spec_smoothstep(self, edge0: Self, edge1: Self) -> Self;

    /// 0 where the value is below the edge, 1 (full scale) elsewhere.
    fn step(self, edge: Self) -> (r: Self)
        ensures
            r == self.spec_step(edge);

    /// The cubic Hermite ramp from `edge0` to `edge1`.
    fn smoothstep(self, edge0: Self, edge1: Self) -> (r: Self)
        requires
            self.smoothstep_wf(edge0, edge1),
        ensures
            r == self.spec_smoothstep(edge0, edge1);
}

/// The exact fixed-point Hermite ramp: for a value strictly inside the edge
/// interval, with offset `n` of width `d`, the full-scale result is
/// `255 * (n/d)^2 * (3 - 2 * (n/d))`, rounded to the nearest integer.
pub open spec fn hermite_scaled(n: int, d: int) -> int {
    (255 * n * n * (3 * d - 2 * n) + d * d * d / 2) / (d * d * d)
}

/// The Hermite numerator `n * n * (3 * d - 2 * n)` never exceeds `d * d * d`
/// on `0 <= n <= d`: the ramp stays within the unit interval.
pub proof fn lemma_hermite_bounded(n: int, d: int)
    requires
        0 <= n <= d,
    ensures
        0 <= n * n * (3 * d - 2 * n) <= d * d * d,
{
    assert(d * d * d - n * n * (3 * d - 2 * n) == (d - n) * (d - n) * (d + 2 * n))
        by (nonlinear_arith);
    assert((d - n) * (d - n) * (d + 2 * n) >= 0) by (nonlinear_arith)
        requires
            0 <= n <= d,
    ;
    assert(n * n * (3 * d - 2 * n) >= 0) by (nonlinear_arith)
        requires
            0 <= n <= d,
    ;
}

impl Step for u8 {
    open spec fn spec_step(self, edge: u8) -> u8 {
        if self < edge {
            0
        } else {
            255
        }
    }

    open spec fn smoothstep_wf(self, edge0: u8, edge1: u8) -> bool {
        edge0 < edge1
    }

    open spec fn spec_smoothstep(self, edge0: u8, edge1: u8) -> u8 {
        if self <= edge0 {
            0
        } else if self >= edge1 {
            255
        } else {
            hermite_scaled(self - edge0, edge1 - edge0) as u8
        }
    }

    fn step(self, edge: u8) -> (r: u8) {
        if self < edge {
            0
        } else {
            255
        }
    }

    fn smoothstep(self, edge0: u8, edge1: u8) -> (r: u8) {
        if self <= edge0 {
            0
        } else if self >= edge1 {
            255
        } else {
            hermite_round((self - edge0) as u64, (edge1 - edge0) as u64)
        }
    }
}

/// The rounded fixed-point Hermite ramp for an offset `n` strictly inside an
/// interval of width `d`, both in the byte scale.
fn hermite_round(n: u64, d: u64) -> (r: u8)
    requires
        0 < n < d,
        d <= 255,
    ensures
        r == hermite_scaled(n as int, d as int) as u8,
{
    let e: u64 = 3 * d - 2 * n;
    proof {
        assert((n as int) * (n as int) <= 255 * 255) by (nonlinear_arith)
            requires
                0 < n <= 255,
        ;
    }
    let nn: u64 = n * n;
    proof {
        assert((nn as int) * (e as int) <= 65025 * 765) by (nonlinear_arith)
            requires
                0 <= nn <= 65025,
                0 <= e <= 765,
        ;
    }
    let p: u64 = nn * e;
    let num: u64 = 255 * p;
    proof {
        assert((d as int) * (d as int) <= 255 * 255) by (nonlinear_arith)
            requires
                0 < d <= 255,
        ;
    }
    let dd: u64 = d * d;
    proof {
        assert((dd as int) * (d as int) <= 65025 * 255) by (nonlinear_arith)
            requires
                0 <= dd <= 65025,
                0 < d <= 255,
        ;
    }
    let den: u64 = dd * d;
    proof {
        lemma_hermite_bounded(n as int, d as int);
        assert(num as int == 255 * (n as int) * (n as int) * (3 * (d as int) - 2 * (n as int)))
            by (nonlinear_arith)
            requires
                e as int == 3 * (d as int) - 2 * (n as int),
                nn as int == (n as int) * (n as int),
                p as int == (nn as int) * (e as int),
                num as int == 255 * (p as int),
        ;
        assert(den as int == (d as int) * (d as int) * (d as int)) by (nonlinear_arith)
            requires
                dd as int == (d as int) * (d as int),
                den as int == (dd as int) * (d as int),
        ;
        assert(0 < den as int) by (nonlinear_arith)
            requires
                den as int == (d as int) * (d as int) * (d as int),
                0 < d,
        ;
        assert(num as int <= 255 * (den as int)) by (nonlinear_arith)
            requires
                num as int == 255 * ((n as int) * (n as int) * (3 * (d as int) - 2 * (n as int))),
                (n as int) * (n as int) * (3 * (d as int) - 2 * (n as int)) <= den as int,
        ;
        assert((num as int + den as int / 2) / (den as int) <= 255) by (nonlinear_arith)
            requires
                num as int <= 255 * (den as int),
                0 < den as int,
        ;
    }
    let rounded: u64 = (num + den / 2) / den;
    rounded as u8
}

impl Step for Color {
    open spec fn spec_step(self, edge: Color) -> Color {
        Color {
            r: self.r.spec_step(edge.r),
            g: self.g.spec_step(edge.g),
            b: self.b.spec_step(edge.b),
            a: self.a.spec_step(edge.a),
        }
    }

    open spec fn smoothstep_wf(self, edge0: Color, edge1: Color) -> bool {
        self.r.smoothstep_wf(edge0.r, edge1.r) && self.g.smoothstep_wf(edge0.g, edge1.g)
            && self.b.smoothstep_wf(edge0.b, edge1.b) && self.a.smoothstep_wf(edge0.a, edge1.a)
    }

    open spec fn spec_smoothstep(self, edge0: Color, edge1: Color) -> Color {
        Color {
            r: self.r.spec_smoothstep(edge0.r, edge1.r),
            g: self.g.spec_smoothstep(edge0.g, edge1.g),
            b: self.b.spec_smoothstep(edge0.b, edge1.b),
            a: self.a.spec_smoothstep(edge0.a, edge1.a),
        }
    }

    fn step(self, edge: Color) -> (r: Color) {
        Color {
            r: self.r.step(edge.r),
            g: self.g.step(edge.g),
            b: self.b.step(edge.b),
            a: self.a.step(edge.a),
        }
    }

    fn smoothstep(self, edge0: Color, edge1: Color) -> (r: Color) {
        Color {
            r: self.r.smoothstep(edge0.r, edge1.r),
            g: self.g.smoothstep(edge0.g, edge1.g),
            b: self.b.smoothstep(edge0.b, edge1.b),
            a: self.a.smoothstep(edge0.a, edge1.a),
        }
    }
}

} // verus!
