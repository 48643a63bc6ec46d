use vstd::prelude::*;
use crate::color::Color;

verus! {

/// An exact nonnegative fraction `num / den`.
///
/// Normalized coordinates are kept as fractions instead of being divided out,
/// so every derivation in this crate is exact; a well-formed fraction has a
/// positive denominator, and a unit fraction lies in `[0, 1)`.
#[derive(Clone, Copy, PartialEq, Eq, Structural, Debug)]
pub struct Ratio {
    pub num: u32,
    pub den: u32,
}

impl Ratio {
    pub open spec fn wf(self) -> bool {
        self.den > 0
    }

    /// The fraction lies in `[0, 1)`.
    pub open spec fn is_unit(self) -> bool {
        self.num < self.den
    }

    pub fn new(num: u32, den: u32) -> (r: Ratio)
        ensures
            r == (Ratio { num, den }),
    {
        Ratio { num, den }
    }
}

/// The mathematical content of one pixel's extraction context: the pixel's
/// coordinate, the image dimensions, the pixel's input color, and the shared
/// uniform state, all by value.
pub struct CtxView<U> {
    pub x: u32,
    pub y: u32,
    pub width: u32,
    pub height: u32,
    pub color: Color,
    pub uniforms: U,
}

impl<U> CtxView<U> {
    /// The dimensions are nonzero and the coordinate is in range.
    pub open spec fn wf(self) -> bool {
        0 < self.width && 0 < self.height && self.x < self.width && self.y < self.height
    }
}

/// The ephemeral, read-only bundle of facts handed to every extractor for one
/// pixel: created fresh per pixel, discarded after the output color is
/// produced.
pub struct Context<'a, U> {
    x: u32,
    y: u32,
    width: u32,
    height: u32,
    color: Color,
    uniforms: &'a U,
}

impl<'a, U> View for Context<'a, U> {
    type V = CtxView<U>;

    closed spec fn view(&self) -> CtxView<U> {
        CtxView {
            x: self.x,
            y: self.y,
            width: self.width,
            height: self.height,
            color: self.color,
            uniforms: *self.uniforms,
        }
    }
}

impl<'a, U> Context<'a, U> {
    /// Bundles one pixel's facts; the coordinate must lie inside the image.
    pub fn new(x: u32, y: u32, width: u32, height: u32, color: Color, uniforms: &'a U) -> (ctx:
        Context<'a, U>)
        requires
            x < width,
            y < height,
        ensures
            ctx@ == (CtxView { x, y, width, height, color, uniforms: *uniforms }),
            ctx@.wf(),
    {
        Context { x, y, width, height, color, uniforms }
    }
}

/// A named per-pixel value that knows how to derive itself from an extraction
/// context. Every derivation is pure and total over well-formed contexts.
pub trait FromContext<U>: Sized {
    /// Whether `self` is a value this extractor may yield for context `ctx`.
    /// For every extractor but `Uniforms` the value is unique.
    spec fn models(self, ctx: CtxView<U>) -> bool;

    /// Derives the extractor's value from the context.
    fn from_context(ctx: &Context<'_, U>) -> (r: Self)
        requires
            ctx@.wf(),
        ensures
            r.models(ctx@);
}

/// The current pixel's integer coordinate.
#[derive(Clone, Copy, PartialEq, Eq, Structural, Debug)]
pub struct Fragcoord {
    pub x: u32,
    pub y: u32,
}

impl<U> FromContext<U> for Fragcoord {
    open spec fn models(self, ctx: CtxView<U>) -> bool {
        self.x == ctx.x && self.y == ctx.y
    }

    fn from_context(ctx: &Context<'_, U>) -> (r: Self) {
        Fragcoord { x: ctx.x, y: ctx.y }
    }
}

/// The source image's dimensions, identical for every pixel of a run.
#[derive(Clone, Copy, PartialEq, Eq, Structural, Debug)]
pub struct Resolution {
    pub width: u32,
    pub height: u32,
}

impl<U> FromContext<U> for Resolution {
    open spec fn models(self, ctx: CtxView<U>) -> bool {
        self.width == ctx.width && self.height == ctx.height
    }

    fn from_context(ctx: &Context<'_, U>) -> (r: Self) {
        Resolution { width: ctx.width, height: ctx.height }
    }
}

/// The pixel coordinate normalized by the resolution: `(x / width, y / height)`,
/// kept as exact fractions. For an in-range coordinate both components lie in
/// `[0, 1)`.
#[derive(Clone, Copy, PartialEq, Eq, Structural, Debug)]
pub struct Uv {
    pub x: Ratio,
    pub y: Ratio,
}

impl<U> FromContext<U> for Uv {
    open spec fn models(self, ctx: CtxView<U>) -> bool {
        self.x == (Ratio { num: ctx.x, den: ctx.width }) && self.y == (Ratio {
            num: ctx.y,
            den: ctx.height,
        })
    }

    fn from_context(ctx: &Context<'_, U>) -> (r: Self) {
        let res = Resolution::from_context(ctx);
        Uv { x: Ratio::new(ctx.x, res.width), y: Ratio::new(ctx.y, res.height) }
    }
}

/// For any well-formed context, the normalized coordinate that `Uv` derives
/// lies in `[0, 1)` in both components.
pub proof fn lemma_uv_in_unit_range<U>(uv: Uv, ctx: CtxView<U>)
    requires
        ctx.wf(),
        uv.models(ctx),
    ensures
        uv.x.wf(),
        uv.y.wf(),
        uv.x.is_unit(),
        uv.y.is_unit(),
{
}

/// The resolution extractor is constant across a run: whatever pixel's
/// context of a `width` by `height` image it is derived from, its value is
/// exactly those dimensions.
pub proof fn lemma_resolution_uniform<U>(r: Resolution, ctx: CtxView<U>)
    requires
        r.models(ctx),
    ensures
        r == (Resolution { width: ctx.width, height: ctx.height }),
{
}

/// A copy of the engine's shared uniform state.
pub struct Uniforms<U>(pub U) where U: Clone;

impl<U: Clone> FromContext<U> for Uniforms<U> {
    open spec fn models(self, ctx: CtxView<U>) -> bool {
        cloned(ctx.uniforms, self.0)
    }

    fn from_context(ctx: &Context<'_, U>) -> (r: Self) {
        Uniforms(ctx.uniforms.clone())
    }
}

/// The current pixel's input color.
#[derive(Clone, Copy, PartialEq, Eq, Structural, Debug)]
pub struct FragColor(pub Color);

impl<U> FromContext<U> for FragColor {
    open spec fn models(self, ctx: CtxView<U>) -> bool {
        self.0 == ctx.color
    }

    fn from_context(ctx: &Context<'_, U>) -> (r: Self) {
        FragColor(ctx.color)
    }
}

/// A per-pixel transform of 0 to 9 extractor-typed parameters, adapted into
/// the uniform operation "given a context, produce an output color". The
/// adaptation is resolved at compile time: `A` is the parameter tuple, and an
/// implementation exists for every function arity from 0 through 9.
pub trait Handler<A, U> {
    /// The transform may be invoked on every extraction of context `ctx`.
    spec fn pre(&self, ctx: CtxView<U>) -> bool;

    /// `out` is a color the transform may produce for context `ctx`.
    spec fn post(&self, ctx: CtxView<U>, out: Color) -> bool;

    /// Extracts each declared parameter from `ctx`, in parameter order, and
    /// calls the transform once.
    fn handle(&self, ctx: &Context<'_, U>) -> (out: Color)
        requires
            ctx@.wf(),
            self.pre(ctx@),
        ensures
            self.post(ctx@, out);
}

/// The zero-parameter placeholder transform: always yields the opaque default
/// color.
impl<U> Handler<(), U> for () {
    open spec fn pre(&self, ctx: CtxView<U>) -> bool {
        true
    }

    open spec fn post(&self, ctx: CtxView<U>, out: Color) -> bool {
        out == Color::spec_default()
    }

    fn handle(&self, ctx: &Context<'_, U>) -> (out: Color) {
        Color::default()
    }
}

impl<U, F, T1> Handler<(T1,), U> for F where F: Fn(T1) -> Color, T1: FromContext<U> {
    open spec fn pre(&self, ctx: CtxView<U>) -> bool {
        forall|t1: T1| t1.models(ctx) ==> call_requires(*self, (t1,))
    }

    open spec fn post(&self, ctx: CtxView<U>, out: Color) -> bool {
        exists|t1: T1| t1.models(ctx) && call_ensures(*self, (t1,), out)
    }

    fn handle(&self, ctx: &Context<'_, U>) -> (out: Color) {
        let t1 = T1::from_context(ctx);
        (self)(t1)
    }
}

impl<U, F, T1, T2> Handler<(T1, T2), U> for F where
    F: Fn(T1, T2) -> Color,
    T1: FromContext<U>,
    T2: FromContext<U>,
 {
    open spec fn pre(&self, ctx: CtxView<U>) -> bool {
        forall|t1: T1, t2: T2|
            t1.models(ctx) && t2.models(ctx) ==> call_requires(*self, (t1, t2))
    }

    open spec fn post(&self, ctx: CtxView<U>, out: Color) -> bool {
        exists|t1: T1, t2: T2|
            t1.models(ctx) && t2.models(ctx) && call_ensures(*self, (t1, t2), out)
    }

    fn handle(&self, ctx: &Context<'_, U>) -> (out: Color) {
        let t1 = T1::from_context(ctx);
        let t2 = T2::from_context(ctx);
        (self)(t1, t2)
    }
}


impl<U, F, T1, T2, T3> Handler<(T1, T2, T3), U> for F where
    F: Fn(T1, T2, T3) -> Color,
    T1: FromContext<U>,
    T2: FromContext<U>,
    T3: FromContext<U>,
 {
    open spec fn pre(&self, ctx: CtxView<U>) -> bool {
        forall|t1: T1, t2: T2, t3: T3|
            t1.models(ctx) && t2.models(ctx) && t3.models(ctx) ==> call_requires(*self, (t1, t2, t3))
    }

    open spec fn post(&self, ctx: CtxView<U>, out: Color) -> bool {
        exists|t1: T1, t2: T2, t3: T3|
            t1.models(ctx) && t2.models(ctx) && t3.models(ctx) && call_ensures(*self, (t1, t2, t3), out)
    }

    fn handle(&self, ctx: &Context<'_, U>) -> (out: Color) {
        let t1 = T1::from_context(ctx);
        let t2 = T2::from_context(ctx);
        let t3 = T3::from_context(ctx);
        (self)(t1, t2, t3)
    }
}


impl<U, F, T1, T2, T3, T4> Handler<(T1, T2, T3, T4), U> for F where
    F: Fn(T1, T2, T3, T4) -> Color,
    T1: FromContext<U>,
    T2: FromContext<U>,
    T3: FromContext<U>,
    T4: FromContext<U>,
 {
    open spec fn pre(&self, ctx: CtxView<U>) -> bool {
        forall|t1: T1, t2: T2, t3: T3, t4: T4|
            t1.models(ctx) && t2.models(ctx) && t3.models(ctx) && t4.models(ctx) ==> call_requires(*self, (t1, t2, t3, t4))
    }

    open spec fn post(&self, ctx: CtxView<U>, out: Color) -> bool {
        exists|t1: T1, t2: T2, t3: T3, t4: T4|
            t1.models(ctx) && t2.models(ctx) && t3.models(ctx) && t4.models(ctx) && call_ensures(*self, (t1, t2, t3, t4), out)
    }

    fn handle(&self, ctx: &Context<'_, U>) -> (out: Color) {
        let t1 = T1::from_context(ctx);
        let t2 = T2::from_context(ctx);
        let t3 = T3::from_context(ctx);
        let t4 = T4::from_context(ctx);
        (self)(t1, t2, t3, t4)
    }
}


impl<U, F, T1, T2, T3, T4, T5> Handler<(T1, T2, T3, T4, T5), U> for F where
    F: Fn(T1, T2, T3, T4, T5) -> Color,
    T1: FromContext<U>,
    T2: FromContext<U>,
    T3: FromContext<U>,
    T4: FromContext<U>,
    T5: FromContext<U>,
 {
    open spec fn pre(&self, ctx: CtxView<U>) -> bool {
        forall|t1: T1, t2: T2, t3: T3, t4: T4, t5: T5|
            t1.models(ctx) && t2.models(ctx) && t3.models(ctx) && t4.models(ctx) && t5.models(ctx) ==> call_requires(*self, (t1, t2, t3, t4, t5))
    }

    open spec fn post(&self, ctx: CtxView<U>, out: Color) -> bool {
        exists|t1: T1, t2: T2, t3: T3, t4: T4, t5: T5|
            t1.models(ctx) && t2.models(ctx) && t3.models(ctx) && t4.models(ctx) && t5.models(ctx) && call_ensures(*self, (t1, t2, t3, t4, t5), out)
    }

    fn handle(&self, ctx: &Context<'_, U>) -> (out: Color) {
        let t1 = T1::from_context(ctx);
        let t2 = T2::from_context(ctx);
        let t3 = T3::from_context(ctx);
        let t4 = T4::from_context(ctx);
        let t5 = T5::from_context(ctx);
        (self)(t1, t2, t3, t4, t5)
    }
}


impl<U, F, T1, T2, T3, T4, T5, T6> Handler<(T1, T2, T3, T4, T5, T6), U> for F where
    F: Fn(T1, T2, T3, T4, T5, T6) -> Color,
    T1: FromContext<U>,
    T2: FromContext<U>,
    T3: FromContext<U>,
    T4: FromContext<U>,
    T5: FromContext<U>,
    T6: FromContext<U>,
 {
    open spec fn pre(&self, ctx: CtxView<U>) -> bool {
        forall|t1: T1, t2: T2, t3: T3, t4: T4, t5: T5, t6: T6|
            t1.models(ctx) && t2.models(ctx) && t3.models(ctx) && t4.models(ctx) && t5.models(ctx) && t6.models(ctx) ==> call_requires(*self, (t1, t2, t3, t4, t5, t6))
    }

    open spec fn post(&self, ctx: CtxView<U>, out: Color) -> bool {
        exists|t1: T1, t2: T2, t3: T3, t4: T4, t5: T5, t6: T6|
            t1.models(ctx) && t2.models(ctx) && t3.models(ctx) && t4.models(ctx) && t5.models(ctx) && t6.models(ctx) && call_ensures(*self, (t1, t2, t3, t4, t5, t6), out)
    }

    fn handle(&self, ctx: &Context<'_, U>) -> (out: Color) {
        let t1 = T1::from_context(ctx);
        let t2 = T2::from_context(ctx);
        let t3 = T3::from_context(ctx);
        let t4 = T4::from_context(ctx);
        let t5 = T5::from_context(ctx);
        let t6 = T6::from_context(ctx);
        (self)(t1, t2, t3, t4, t5, t6)
    }
}


impl<U, F, T1, T2, T3, T4, T5, T6, T7> Handler<(T1, T2, T3, T4, T5, T6, T7), U> for F where
    F: Fn(T1, T2, T3, T4, T5, T6, T7) -> Color,
    T1: FromContext<U>,
    T2: FromContext<U>,
    T3: FromContext<U>,
    T4: FromContext<U>,
    T5: FromContext<U>,
    T6: FromContext<U>,
    T7: FromContext<U>,
 {
    open spec fn pre(&self, ctx: CtxView<U>) -> bool {
        forall|t1: T1, t2: T2, t3: T3, t4: T4, t5: T5, t6: T6, t7: T7|
            t1.models(ctx) && t2.models(ctx) && t3.models(ctx) && t4.models(ctx) && t5.models(ctx) && t6.models(ctx) && t7.models(ctx) ==> call_requires(*self, (t1, t2, t3, t4, t5, t6, t7))
    }

    open spec fn post(&self, ctx: CtxView<U>, out: Color) -> bool {
        exists|t1: T1, t2: T2, t3: T3, t4: T4, t5: T5, t6: T6, t7: T7|
            t1.models(ctx) && t2.models(ctx) && t3.models(ctx) && t4.models(ctx) && t5.models(ctx) && t6.models(ctx) && t7.models(ctx) && call_ensures(*self, (t1, t2, t3, t4, t5, t6, t7), out)
    }

    fn handle(&self, ctx: &Context<'_, U>) -> (out: Color) {
        let t1 = T1::from_context(ctx);
        let t2 = T2::from_context(ctx);
        let t3 = T3::from_context(ctx);
        let t4 = T4::from_context(ctx);
        let t5 = T5::from_context(ctx);
        let t6 = T6::from_context(ctx);
        let t7 = T7::from_context(ctx);
        (self)(t1, t2, t3, t4, t5, t6, t7)
    }
}


impl<U, F, T1, T2, T3, T4, T5, T6, T7, T8> Handler<(T1, T2, T3, T4, T5, T6, T7, T8), U> for F where
    F: Fn(T1, T2, T3, T4, T5, T6, T7, T8) -> Color,
    T1: FromContext<U>,
    T2: FromContext<U>,
    T3: FromContext<U>,
    T4: FromContext<U>,
    T5: FromContext<U>,
    T6: FromContext<U>,
    T7: FromContext<U>,
    T8: FromContext<U>,
 {
    open spec fn pre(&self, ctx: CtxView<U>) -> bool {
        forall|t1: T1, t2: T2, t3: T3, t4: T4, t5: T5, t6: T6, t7: T7, t8: T8|
            t1.models(ctx) && t2.models(ctx) && t3.models(ctx) && t4.models(ctx) && t5.models(ctx) && t6.models(ctx) && t7.models(ctx) && t8.models(ctx) ==> call_requires(*self, (t1, t2, t3, t4, t5, t6, t7, t8))
    }

    open spec fn post(&self, ctx: CtxView<U>, out: Color) -> bool {
        exists|t1: T1, t2: T2, t3: T3, t4: T4, t5: T5, t6: T6, t7: T7, t8: T8|
            t1.models(ctx) && t2.models(ctx) && t3.models(ctx) && t4.models(ctx) && t5.models(ctx) && t6.models(ctx) && t7.models(ctx) && t8.models(ctx) && call_ensures(*self, (t1, t2, t3, t4, t5, t6, t7, t8), out)
    }

    fn handle(&self, ctx: &Context<'_, U>) -> (out: Color) {
        let t1 = T1::from_context(ctx);
        let t2 = T2::from_context(ctx);
        let t3 = T3::from_context(ctx);
        let t4 = T4::from_context(ctx);
        let t5 = T5::from_context(ctx);
        let t6 = T6::from_context(ctx);
        let t7 = T7::from_context(ctx);
        let t8 = T8::from_context(ctx);
        (self)(t1, t2, t3, t4, t5, t6, t7, t8)
    }
}


impl<U, F, T1, T2, T3, T4, T5, T6, T7, T8, T9> Handler<(T1, T2, T3, T4, T5, T6, T7, T8, T9), U> for F where
    F: Fn(T1, T2, T3, T4, T5, T6, T7, T8, T9) -> Color,
    T1: FromContext<U>,
    T2: FromContext<U>,
    T3: FromContext<U>,
    T4: FromContext<U>,
    T5: FromContext<U>,
    T6: FromContext<U>,
    T7: FromContext<U>,
    T8: FromContext<U>,
    T9: FromContext<U>,
 {
    open spec fn pre(&self, ctx: CtxView<U>) -> bool {
        forall|t1: T1, t2: T2, t3: T3, t4: T4, t5: T5, t6: T6, t7: T7, t8: T8, t9: T9|
            t1.models(ctx) && t2.models(ctx) && t3.models(ctx) && t4.models(ctx) && t5.models(ctx) && t6.models(ctx) && t7.models(ctx) && t8.models(ctx) && t9.models(ctx) ==> call_requires(*self, (t1, t2, t3, t4, t5, t6, t7, t8, t9))
    }

    open spec fn post(&self, ctx: CtxView<U>, out: Color) -> bool {
        exists|t1: T1, t2: T2, t3: T3, t4: T4, t5: T5, t6: T6, t7: T7, t8: T8, t9: T9|
            t1.models(ctx) && t2.models(ctx) && t3.models(ctx) && t4.models(ctx) && t5.models(ctx) && t6.models(ctx) && t7.models(ctx) && t8.models(ctx) && t9.models(ctx) && call_ensures(*self, (t1, t2, t3, t4, t5, t6, t7, t8, t9), out)
    }

    fn handle(&self, ctx: &Context<'_, U>) -> (out: Color) {
        let t1 = T1::from_context(ctx);
        let t2 = T2::from_context(ctx);
        let t3 = T3::from_context(ctx);
        let t4 = T4::from_context(ctx);
        let t5 = T5::from_context(ctx);
        let t6 = T6::from_context(ctx);
        let t7 = T7::from_context(ctx);
        let t8 = T8::from_context(ctx);
        let t9 = T9::from_context(ctx);
        (self)(t1, t2, t3, t4, t5, t6, t7, t8, t9)
    }
}


/// Verus does not unfold the `pre` of a function-backed handler at a concrete
/// function or closure type, so a caller could not discharge it by itself.
/// One lemma per arity introduces `pre` from the function's own
/// precondition, quantified over the extractor values of the context.
pub proof fn lemma_handler_pre_1<U, F: Fn(T1) -> Color, T1: FromContext<U>>(f: &F, ctx: CtxView<U>)
    requires
        forall|t1: T1|
            t1.models(ctx) ==> call_requires(*f, (t1,)),
    ensures
        Handler::<(T1,), U>::pre(f, ctx),
{
}

pub proof fn lemma_handler_pre_2<U, F: Fn(T1, T2) -> Color, T1: FromContext<U>, T2: FromContext<U>>(f: &F, ctx: CtxView<U>)
    requires
        forall|t1: T1, t2: T2|
            t1.models(ctx) && t2.models(ctx) ==> call_requires(*f, (t1, t2)),
    ensures
        Handler::<(T1, T2), U>::pre(f, ctx),
{
}

pub proof fn lemma_handler_pre_3<U, F: Fn(T1, T2, T3) -> Color, T1: FromContext<U>, T2: FromContext<U>, T3: FromContext<U>>(f: &F, ctx: CtxView<U>)
    requires
        forall|t1: T1, t2: T2, t3: T3|
            t1.models(ctx) && t2.models(ctx) && t3.models(ctx) ==> call_requires(*f, (t1, t2, t3)),
    ensures
        Handler::<(T1, T2, T3), U>::pre(f, ctx),
{
}

pub proof fn lemma_handler_pre_4<U, F: Fn(T1, T2, T3, T4) -> Color, T1: FromContext<U>, T2: FromContext<U>, T3: FromContext<U>, T4: FromContext<U>>(f: &F, ctx: CtxView<U>)
    requires
        forall|t1: T1, t2: T2, t3: T3, t4: T4|
            t1.models(ctx) && t2.models(ctx) && t3.models(ctx) && t4.models(ctx) ==> call_requires(*f, (t1, t2, t3, t4)),
    ensures
        Handler::<(T1, T2, T3, T4), U>::pre(f, ctx),
{
}

pub proof fn lemma_handler_pre_5<U, F: Fn(T1, T2, T3, T4, T5) -> Color, T1: FromContext<U>, T2: FromContext<U>, T3: FromContext<U>, T4: FromContext<U>, T5: FromContext<U>>(f: &F, ctx: CtxView<U>)
    requires
        forall|t1: T1, t2: T2, t3: T3, t4: T4, t5: T5|
            t1.models(ctx) && t2.models(ctx) && t3.models(ctx) && t4.models(ctx) && t5.models(ctx) ==> call_requires(*f, (t1, t2, t3, t4, t5)),
    ensures
        Handler::<(T1, T2, T3, T4, T5), U>::pre(f, ctx),
{
}

pub proof fn lemma_handler_pre_6<U, F: Fn(T1, T2, T3, T4, T5, T6) -> Color, T1: FromContext<U>, T2: FromContext<U>, T3: FromContext<U>, T4: FromContext<U>, T5: FromContext<U>, T6: FromContext<U>>(f: &F, ctx: CtxView<U>)
    requires
        forall|t1: T1, t2: T2, t3: T3, t4: T4, t5: T5, t6: T6|
            t1.models(ctx) && t2.models(ctx) && t3.models(ctx) && t4.models(ctx) && t5.models(ctx) && t6.models(ctx) ==> call_requires(*f, (t1, t2, t3, t4, t5, t6)),
    ensures
        Handler::<(T1, T2, T3, T4, T5, T6), U>::pre(f, ctx),
{
}

pub proof fn lemma_handler_pre_7<U, F: Fn(T1, T2, T3, T4, T5, T6, T7) -> Color, T1: FromContext<U>, T2: FromContext<U>, T3: FromContext<U>, T4: FromContext<U>, T5: FromContext<U>, T6: FromContext<U>, T7: FromContext<U>>(f: &F, ctx: CtxView<U>)
    requires
        forall|t1: T1, t2: T2, t3: T3, t4: T4, t5: T5, t6: T6, t7: T7|
            t1.models(ctx) && t2.models(ctx) && t3.models(ctx) && t4.models(ctx) && t5.models(ctx) && t6.models(ctx) && t7.models(ctx) ==> call_requires(*f, (t1, t2, t3, t4, t5, t6, t7)),
    ensures
        Handler::<(T1, T2, T3, T4, T5, T6, T7), U>::pre(f, ctx),
{
}

pub proof fn lemma_handler_pre_8<U, F: Fn(T1, T2, T3, T4, T5, T6, T7, T8) -> Color, T1: FromContext<U>, T2: FromContext<U>, T3: FromContext<U>, T4: FromContext<U>, T5: FromContext<U>, T6: FromContext<U>, T7: FromContext<U>, T8: FromContext<U>>(f: &F, ctx: CtxView<U>)
    requires
        forall|t1: T1, t2: T2, t3: T3, t4: T4, t5: T5, t6: T6, t7: T7, t8: T8|
            t1.models(ctx) && t2.models(ctx) && t3.models(ctx) && t4.models(ctx) && t5.models(ctx) && t6.models(ctx) && t7.models(ctx) && t8.models(ctx) ==> call_requires(*f, (t1, t2, t3, t4, t5, t6, t7, t8)),
    ensures
        Handler::<(T1, T2, T3, T4, T5, T6, T7, T8), U>::pre(f, ctx),
{
}

pub proof fn lemma_handler_pre_9<U, F: Fn(T1, T2, T3, T4, T5, T6, T7, T8, T9) -> Color, T1: FromContext<U>, T2: FromContext<U>, T3: FromContext<U>, T4: FromContext<U>, T5: FromContext<U>, T6: FromContext<U>, T7: FromContext<U>, T8: FromContext<U>, T9: FromContext<U>>(f: &F, ctx: CtxView<U>)
    requires
        forall|t1: T1, t2: T2, t3: T3, t4: T4, t5: T5, t6: T6, t7: T7, t8: T8, t9: T9|
            t1.models(ctx) && t2.models(ctx) && t3.models(ctx) && t4.models(ctx) && t5.models(ctx) && t6.models(ctx) && t7.models(ctx) && t8.models(ctx) && t9.models(ctx) ==> call_requires(*f, (t1, t2, t3, t4, t5, t6, t7, t8, t9)),
    ensures
        Handler::<(T1, T2, T3, T4, T5, T6, T7, T8, T9), U>::pre(f, ctx),
{
}


/// The mirror image: `post` of a function-backed handler, at any type, means
/// that the output came from one call of the function on extracted values;
/// one lemma per arity eliminates it into that quantified form.
pub proof fn lemma_handler_post_1<U, F: Fn(T1) -> Color, T1: FromContext<U>>(
    f: &F,
    ctx: CtxView<U>,
    out: Color,
)
    requires
        Handler::<(T1,), U>::post(f, ctx, out),
    ensures
        exists|t1: T1|
            t1.models(ctx) && call_ensures(*f, (t1,), out),
{
}

pub proof fn lemma_handler_post_2<U, F: Fn(T1, T2) -> Color, T1: FromContext<U>, T2: FromContext<U>>(
    f: &F,
    ctx: CtxView<U>,
    out: Color,
)
    requires
        Handler::<(T1, T2), U>::post(f, ctx, out),
    ensures
        exists|t1: T1, t2: T2|
            t1.models(ctx) && t2.models(ctx) && call_ensures(*f, (t1, t2), out),
{
}

pub proof fn lemma_handler_post_3<U, F: Fn(T1, T2, T3) -> Color, T1: FromContext<U>, T2: FromContext<U>, T3: FromContext<U>>(
    f: &F,
    ctx: CtxView<U>,
    out: Color,
)
    requires
        Handler::<(T1, T2, T3), U>::post(f, ctx, out),
    ensures
        exists|t1: T1, t2: T2, t3: T3|
            t1.models(ctx) && t2.models(ctx) && t3.models(ctx) && call_ensures(*f, (t1, t2, t3), out),
{
}

pub proof fn lemma_handler_post_4<U, F: Fn(T1, T2, T3, T4) -> Color, T1: FromContext<U>, T2: FromContext<U>, T3: FromContext<U>, T4: FromContext<U>>(
    f: &F,
    ctx: CtxView<U>,
    out: Color,
)
    requires
        Handler::<(T1, T2, T3, T4), U>::post(f, ctx, out),
    ensures
        exists|t1: T1, t2: T2, t3: T3, t4: T4|
            t1.models(ctx) && t2.models(ctx) && t3.models(ctx) && t4.models(ctx) && call_ensures(*f, (t1, t2, t3, t4), out),
{
}

pub proof fn lemma_handler_post_5<U, F: Fn(T1, T2, T3, T4, T5) -> Color, T1: FromContext<U>, T2: FromContext<U>, T3: FromContext<U>, T4: FromContext<U>, T5: FromContext<U>>(
    f: &F,
    ctx: CtxView<U>,
    out: Color,
)
    requires
        Handler::<(T1, T2, T3, T4, T5), U>::post(f, ctx, out),
    ensures
        exists|t1: T1, t2: T2, t3: T3, t4: T4, t5: T5|
            t1.models(ctx) && t2.models(ctx) && t3.models(ctx) && t4.models(ctx) && t5.models(ctx) && call_ensures(*f, (t1, t2, t3, t4, t5), out),
{
}

pub proof fn lemma_handler_post_6<U, F: Fn(T1, T2, T3, T4, T5, T6) -> Color, T1: FromContext<U>, T2: FromContext<U>, T3: FromContext<U>, T4: FromContext<U>, T5: FromContext<U>, T6: FromContext<U>>(
    f: &F,
    ctx: CtxView<U>,
    out: Color,
)
    requires
        Handler::<(T1, T2, T3, T4, T5, T6), U>::post(f, ctx, out),
    ensures
        exists|t1: T1, t2: T2, t3: T3, t4: T4, t5: T5, t6: T6|
            t1.models(ctx) && t2.models(ctx) && t3.models(ctx) && t4.models(ctx) && t5.models(ctx) && t6.models(ctx) && call_ensures(*f, (t1, t2, t3, t4, t5, t6), out),
{
}

pub proof fn lemma_handler_post_7<U, F: Fn(T1, T2, T3, T4, T5, T6, T7) -> Color, T1: FromContext<U>, T2: FromContext<U>, T3: FromContext<U>, T4: FromContext<U>, T5: FromContext<U>, T6: FromContext<U>, T7: FromContext<U>>(
    f: &F,
    ctx: CtxView<U>,
    out: Color,
)
    requires
        Handler::<(T1, T2, T3, T4, T5, T6, T7), U>::post(f, ctx, out),
    ensures
        exists|t1: T1, t2: T2, t3: T3, t4: T4, t5: T5, t6: T6, t7: T7|
            t1.models(ctx) && t2.models(ctx) && t3.models(ctx) && t4.models(ctx) && t5.models(ctx) && t6.models(ctx) && t7.models(ctx) && call_ensures(*f, (t1, t2, t3, t4, t5, t6, t7), out),
{
}

pub proof fn lemma_handler_post_8<U, F: Fn(T1, T2, T3, T4, T5, T6, T7, T8) -> Color, T1: FromContext<U>, T2: FromContext<U>, T3: FromContext<U>, T4: FromContext<U>, T5: FromContext<U>, T6: FromContext<U>, T7: FromContext<U>, T8: FromContext<U>>(
    f: &F,
    ctx: CtxView<U>,
    out: Color,
)
    requires
        Handler::<(T1, T2, T3, T4, T5, T6, T7, T8), U>::post(f, ctx, out),
    ensures
        exists|t1: T1, t2: T2, t3: T3, t4: T4, t5: T5, t6: T6, t7: T7, t8: T8|
            t1.models(ctx) && t2.models(ctx) && t3.models(ctx) && t4.models(ctx) && t5.models(ctx) && t6.models(ctx) && t7.models(ctx) && t8.models(ctx) && call_ensures(*f, (t1, t2, t3, t4, t5, t6, t7, t8), out),
{
}

pub proof fn lemma_handler_post_9<U, F: Fn(T1, T2, T3, T4, T5, T6, T7, T8, T9) -> Color, T1: FromContext<U>, T2: FromContext<U>, T3: FromContext<U>, T4: FromContext<U>, T5: FromContext<U>, T6: FromContext<U>, T7: FromContext<U>, T8: FromContext<U>, T9: FromContext<U>>(
    f: &F,
    ctx: CtxView<U>,
    out: Color,
)
    requires
        Handler::<(T1, T2, T3, T4, T5, T6, T7, T8, T9), U>::post(f, ctx, out),
    ensures
        exists|t1: T1, t2: T2, t3: T3, t4: T4, t5: T5, t6: T6, t7: T7, t8: T8, t9: T9|
            t1.models(ctx) && t2.models(ctx) && t3.models(ctx) && t4.models(ctx) && t5.models(ctx) && t6.models(ctx) && t7.models(ctx) && t8.models(ctx) && t9.models(ctx) && call_ensures(*f, (t1, t2, t3, t4, t5, t6, t7, t8, t9), out),
{
}

} // verus!
