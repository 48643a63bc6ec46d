use fragshade::color::Color;
use fragshade::extract::{FragColor, Uniforms};
use fragshade::{App, EngineError, Image};

fn two_by_two() -> image::DynamicImage {
    let pixels: [[u8; 4]; 4] = [
        [255, 0, 0, 255],
        [0, 255, 0, 255],
        [0, 0, 255, 255],
        [255, 255, 0, 255],
    ];
    let mut buf = image::RgbaImage::new(2, 2);
    let mut i = 0;
    for y in 0..2 {
        for x in 0..2 {
            buf.put_pixel(x, y, image::Rgba(pixels[i]));
            i += 1;
        }
    }
    image::DynamicImage::ImageRgba8(buf)
}

#[test]
fn identity_transform_is_byte_for_byte_lossless() {
    let app = App::new(()).unwrap();
    let out = app
        .run(Image::from(two_by_two()), |c: FragColor| c.0)
        .unwrap();
    assert_eq!(out.source.data, out.output.data);
    assert_eq!(out.source.width, 2);
    assert_eq!(out.source.height, 2);
}

#[test]
fn identity_round_trips_through_png() {
    let app = App::new(()).unwrap();
    let out = app
        .run(Image::from(two_by_two()), |c: FragColor| c.0)
        .unwrap();
    let decoded = image::load_from_memory(&out.png).unwrap().to_rgba8();
    assert_eq!(decoded.dimensions(), (2, 2));
    let expected: Vec<u8> = vec![
        255, 0, 0, 255, 0, 255, 0, 255, 0, 0, 255, 255, 255, 255, 0, 255,
    ];
    assert_eq!(decoded.into_raw(), expected);
}

#[derive(Clone, Copy)]
struct FrameState {
    frame: u64,
    frame_count: u64,
}

#[test]
fn zero_frame_scale_blacks_out_every_channel_but_alpha() {
    let state = FrameState {
        frame: 0,
        frame_count: 8,
    };
    let app = App::new(state).unwrap();
    let out = app
        .run(
            Image::from(two_by_two()),
            |u: Uniforms<FrameState>, c: FragColor| {
                let k = u.0.frame;
                let n = u.0.frame_count;
                Color {
                    r: (c.0.r as u64 * k / n) as u8,
                    g: (c.0.g as u64 * k / n) as u8,
                    b: (c.0.b as u64 * k / n) as u8,
                    a: c.0.a,
                }
            },
        )
        .unwrap();
    for px in 0..4 {
        assert_eq!(out.output.data[4 * px], 0);
        assert_eq!(out.output.data[4 * px + 1], 0);
        assert_eq!(out.output.data[4 * px + 2], 0);
        assert_eq!(out.output.data[4 * px + 3], 255);
    }
}

#[test]
fn progress_counts_every_pixel_and_reports_tenth_milestones() {
    let app = App::new(()).unwrap();
    let out = app
        .run(Image::from(two_by_two()), |c: FragColor| c.0)
        .unwrap();
    assert_eq!(out.progress.expected, 4);
    assert_eq!(out.progress.done, 4);
    assert_eq!(out.milestones, vec![50, 100]);
}

#[test]
fn inversion_lands_at_the_right_row_major_slots() {
    let mut buf = image::RgbaImage::new(2, 1);
    buf.put_pixel(0, 0, image::Rgba([10, 20, 30, 255]));
    buf.put_pixel(1, 0, image::Rgba([40, 50, 60, 255]));
    let app = App::new(()).unwrap();
    let out = app
        .run(
            Image::from(image::DynamicImage::ImageRgba8(buf)),
            |c: FragColor| Color {
                r: 255 - c.0.r,
                g: 255 - c.0.g,
                b: 255 - c.0.b,
                a: c.0.a,
            },
        )
        .unwrap();
    let expected: Vec<u8> = vec![245, 235, 225, 255, 215, 205, 195, 255];
    assert_eq!(out.output.data, expected);
}

#[test]
fn rgb_source_is_normalized_to_rgba_with_opaque_alpha() {
    let mut buf = image::RgbImage::new(1, 1);
    buf.put_pixel(0, 0, image::Rgb([7, 8, 9]));
    let app = App::new(()).unwrap();
    let out = app
        .run(
            Image::from(image::DynamicImage::ImageRgb8(buf)),
            |c: FragColor| c.0,
        )
        .unwrap();
    assert_eq!(out.source.data, vec![7, 8, 9, 255]);
    assert_eq!(out.output.data, vec![7, 8, 9, 255]);
}

#[test]
fn zero_parameter_transform_yields_the_opaque_default_color() {
    let app = App::new(()).unwrap();
    let out = app.run(Image::from(two_by_two()), ()).unwrap();
    let expected: Vec<u8> = vec![
        0, 0, 0, 255, 0, 0, 0, 255, 0, 0, 0, 255, 0, 0, 0, 255,
    ];
    assert_eq!(out.output.data, expected);
}

#[test]
fn empty_image_is_rejected_before_any_work() {
    let app = App::new(()).unwrap();
    let empty = image::DynamicImage::ImageRgba8(image::RgbaImage::new(0, 0));
    let err = app.run(Image::from(empty), |c: FragColor| c.0).unwrap_err();
    assert!(matches!(err, EngineError::EmptyImage));
}

#[test]
fn decode_failure_is_returned_as_a_decode_error() {
    let bad = image::load_from_memory(&[1, 2, 3]).unwrap_err();
    let app = App::new(()).unwrap();
    let err = app
        .run(Image::Error(bad), |c: FragColor| c.0)
        .unwrap_err();
    assert!(matches!(err, EngineError::Decode(_)));
}

#[test]
fn engine_is_reusable_across_runs_with_new_uniforms() {
    let app = App::new(1u64).unwrap();
    let out = app
        .run(Image::from(two_by_two()), |c: FragColor| c.0)
        .unwrap();
    let app = out.engine.set_uniforms(2u64);
    let out = app
        .run(Image::from(two_by_two()), |c: FragColor| c.0)
        .unwrap();
    assert_eq!(out.source.data, out.output.data);
}

#[test]
fn full_frame_scale_is_identity_on_every_channel() {
    let state = FrameState {
        frame: 8,
        frame_count: 8,
    };
    let app = App::new(state).unwrap();
    let out = app
        .run(
            Image::from(two_by_two()),
            |u: Uniforms<FrameState>, c: FragColor| {
                let k = u.0.frame;
                let n = u.0.frame_count;
                Color {
                    r: (c.0.r as u64 * k / n) as u8,
                    g: (c.0.g as u64 * k / n) as u8,
                    b: (c.0.b as u64 * k / n) as u8,
                    a: c.0.a,
                }
            },
        )
        .unwrap();
    assert_eq!(out.output.data, out.source.data);
}

#[test]
fn single_pixel_image_runs_and_completes() {
    let mut buf = image::RgbaImage::new(1, 1);
    buf.put_pixel(0, 0, image::Rgba([1, 2, 3, 4]));
    let app = App::new(()).unwrap();
    let out = app
        .run(
            Image::from(image::DynamicImage::ImageRgba8(buf)),
            |c: FragColor| c.0,
        )
        .unwrap();
    assert_eq!(out.output.data, vec![1, 2, 3, 4]);
    assert_eq!(out.progress.expected, 1);
    assert_eq!(out.progress.done, 1);
    assert_eq!(out.milestones, vec![100]);
}

#[test]
fn ten_by_ten_image_reports_every_tenth_milestone() {
    let buf = image::RgbaImage::from_pixel(10, 10, image::Rgba([9, 9, 9, 9]));
    let app = App::new(()).unwrap();
    let out = app
        .run(
            Image::from(image::DynamicImage::ImageRgba8(buf)),
            |c: FragColor| c.0,
        )
        .unwrap();
    assert_eq!(out.progress.expected, 100);
    assert_eq!(out.progress.done, 100);
    assert_eq!(
        out.milestones,
        vec![10, 20, 30, 40, 50, 60, 70, 80, 90, 100]
    );
}
