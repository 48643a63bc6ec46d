use fragshade::color::Color;
use fragshade::frame::Frame;

#[test]
fn new_accepts_a_buffer_of_exactly_matching_length() {
    let f = Frame::new(2, 3, vec![0u8; 24]).unwrap();
    assert_eq!(f.width, 2);
    assert_eq!(f.height, 3);
    assert_eq!(f.data.len(), 24);
}

#[test]
fn new_hands_back_a_buffer_of_the_wrong_length() {
    let data = vec![1u8, 2, 3];
    let err = Frame::new(2, 2, data).unwrap_err();
    assert_eq!(err, vec![1, 2, 3]);
}

#[test]
fn pixel_at_reads_row_major_rgba() {
    let data: Vec<u8> = (0..24).collect();
    let f = Frame::new(2, 3, data).unwrap();
    assert_eq!(
        f.pixel_at(0, 0),
        Color {
            r: 0,
            g: 1,
            b: 2,
            a: 3,
        }
    );
    assert_eq!(
        f.pixel_at(1, 2),
        Color {
            r: 20,
            g: 21,
            b: 22,
            a: 23,
        }
    );
}
