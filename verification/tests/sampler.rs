use fragshade::color::Color;
use fragshade::extract::{Ratio, Uv};
use fragshade::frame::Frame;
use fragshade::sampler::Sampler;

fn quad() -> Frame {
    // 2x2: top-left red, top-right green, bottom-left blue, bottom-right white
    let data: Vec<u8> = vec![
        255, 0, 0, 255, 0, 255, 0, 255, 0, 0, 255, 255, 255, 255, 255, 255,
    ];
    Frame::new(2, 2, data).unwrap()
}

fn uv(xn: u32, xd: u32, yn: u32, yd: u32) -> Uv {
    Uv {
        x: Ratio { num: xn, den: xd },
        y: Ratio { num: yn, den: yd },
    }
}

#[test]
fn origin_uv_samples_the_top_left_pixel() {
    let s = Sampler::new(quad());
    let c = s.sample_u8(uv(0, 1, 0, 1));
    assert_eq!(
        c,
        Color {
            r: 255,
            g: 0,
            b: 0,
            a: 255,
        }
    );
}

#[test]
fn uv_just_below_one_samples_the_bottom_right_pixel() {
    let s = Sampler::new(quad());
    let c = s.sample_u8(uv(999, 1000, 999, 1000));
    assert_eq!(
        c,
        Color {
            r: 255,
            g: 255,
            b: 255,
            a: 255,
        }
    );
}

#[test]
fn interior_uv_truncates_toward_zero() {
    let s = Sampler::new(quad());
    // (0.6, 0.2) on a 2x2 image: x = floor(1.2) = 1, y = floor(0.4) = 0
    let c = s.sample_u8(uv(3, 5, 1, 5));
    assert_eq!(
        c,
        Color {
            r: 0,
            g: 255,
            b: 0,
            a: 255,
        }
    );
}

#[test]
fn out_of_range_uv_is_clamped_to_the_last_pixel() {
    let s = Sampler::new(quad());
    let c = s.sample_u8(uv(3, 2, 7, 2));
    assert_eq!(
        c,
        Color {
            r: 255,
            g: 255,
            b: 255,
            a: 255,
        }
    );
}

#[test]
fn resolution_reports_the_wrapped_dimensions() {
    let s = Sampler::new(quad());
    assert_eq!(s.resolution(), (2, 2));
}
