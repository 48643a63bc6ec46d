use fragshade::color::Color;
use fragshade::utils::Step;

#[test]
fn step_snaps_against_the_edge() {
    assert_eq!(5u8.step(10), 0);
    assert_eq!(10u8.step(10), 255);
    assert_eq!(200u8.step(10), 255);
    assert_eq!(0u8.step(0), 255);
}

#[test]
fn smoothstep_is_clamped_outside_the_interval() {
    assert_eq!(10u8.smoothstep(20, 200), 0);
    assert_eq!(20u8.smoothstep(20, 200), 0);
    assert_eq!(200u8.smoothstep(20, 200), 255);
    assert_eq!(255u8.smoothstep(20, 200), 255);
}

#[test]
fn smoothstep_midpoint_over_the_full_range() {
    // value 128 of [0, 255]: t = 128/255, 255 * t * t * (3 - 2 * t) rounds to 128
    assert_eq!(128u8.smoothstep(0, 255), 128);
}

#[test]
fn smoothstep_quarter_point() {
    // value 64 of [0, 256): t = 64/255; 255 * t^2 * (3 - 2t) = 40.15... -> 40
    // exact: (255 * 64 * 64 * (3 * 255 - 2 * 64) + 255^3 / 2) / 255^3
    let n: u64 = 64;
    let d: u64 = 255;
    let expected = (255 * n * n * (3 * d - 2 * n) + d * d * d / 2) / (d * d * d);
    assert_eq!(64u8.smoothstep(0, 255) as u64, expected);
    assert_eq!(64u8.smoothstep(0, 255), 40);
}

#[test]
fn color_step_and_smoothstep_are_component_wise() {
    let v = Color {
        r: 5,
        g: 15,
        b: 10,
        a: 255,
    };
    let edge = Color {
        r: 10,
        g: 10,
        b: 10,
        a: 10,
    };
    assert_eq!(
        v.step(edge),
        Color {
            r: 0,
            g: 255,
            b: 255,
            a: 255,
        }
    );
    let lo = Color {
        r: 0,
        g: 0,
        b: 0,
        a: 0,
    };
    let hi = Color {
        r: 255,
        g: 255,
        b: 255,
        a: 255,
    };
    let mid = Color {
        r: 0,
        g: 128,
        b: 255,
        a: 64,
    };
    assert_eq!(
        mid.smoothstep(lo, hi),
        Color {
            r: 0,
            g: 128,
            b: 255,
            a: 40,
        }
    );
}
