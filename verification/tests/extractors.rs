use fragshade::color::Color;
use fragshade::extract::{
    Context, FragColor, Fragcoord, FromContext, Handler, Ratio, Resolution, Uniforms, Uv,
};

const W: u32 = 8;
const H: u32 = 5;

fn color() -> Color {
    Color {
        r: 1,
        g: 2,
        b: 3,
        a: 4,
    }
}

#[test]
fn uv_at_origin_is_exactly_zero() {
    let u = 0u32;
    let ctx = Context::new(0, 0, W, H, color(), &u);
    let uv = <Uv as FromContext<u32>>::from_context(&ctx);
    assert_eq!(uv.x, Ratio { num: 0, den: W });
    assert_eq!(uv.y, Ratio { num: 0, den: H });
}

#[test]
fn uv_at_last_column_is_w_minus_one_over_w() {
    let u = 0u32;
    let ctx = Context::new(W - 1, 0, W, H, color(), &u);
    let uv = <Uv as FromContext<u32>>::from_context(&ctx);
    assert_eq!(uv.x, Ratio { num: W - 1, den: W });
    assert_eq!(uv.y, Ratio { num: 0, den: H });
}

#[test]
fn uv_stays_below_one_for_every_pixel() {
    let u = 0u32;
    for y in 0..H {
        for x in 0..W {
            let ctx = Context::new(x, y, W, H, color(), &u);
            let uv = <Uv as FromContext<u32>>::from_context(&ctx);
            assert!(uv.x.num < uv.x.den);
            assert!(uv.y.num < uv.y.den);
        }
    }
}

#[test]
fn resolution_is_the_same_from_every_pixel() {
    let u = 0u32;
    for y in 0..H {
        for x in 0..W {
            let ctx = Context::new(x, y, W, H, color(), &u);
            let res = <Resolution as FromContext<u32>>::from_context(&ctx);
            assert_eq!(res.width, W);
            assert_eq!(res.height, H);
        }
    }
}

#[test]
fn fragcoord_and_fragcolor_reproduce_the_context() {
    let u = 0u32;
    let ctx = Context::new(3, 2, W, H, color(), &u);
    let fc = <Fragcoord as FromContext<u32>>::from_context(&ctx);
    assert_eq!(fc.x, 3);
    assert_eq!(fc.y, 2);
    let col = <FragColor as FromContext<u32>>::from_context(&ctx);
    assert_eq!(col.0, color());
}

#[test]
fn uniforms_extractor_clones_the_shared_state() {
    let state: u64 = 99;
    let ctx = Context::new(0, 0, W, H, color(), &state);
    let uni = <Uniforms<u64> as FromContext<u64>>::from_context(&ctx);
    assert_eq!(uni.0, 99);
}

#[test]
fn dispatch_extracts_parameters_in_declaration_order() {
    let u = 7u64;
    let ctx = Context::new(4, 1, W, H, color(), &u);
    let f = |fc: Fragcoord, res: Resolution, col: FragColor| Color {
        r: fc.x as u8,
        g: res.width as u8,
        b: col.0.b,
        a: fc.y as u8,
    };
    let out = f.handle(&ctx);
    assert_eq!(
        out,
        Color {
            r: 4,
            g: 8,
            b: 3,
            a: 1,
        }
    );
}

#[test]
fn zero_arity_dispatch_yields_the_default_color() {
    let u = 0u32;
    let ctx = Context::new(0, 0, W, H, color(), &u);
    let out = ().handle(&ctx);
    assert_eq!(
        out,
        Color {
            r: 0,
            g: 0,
            b: 0,
            a: 255,
        }
    );
}
