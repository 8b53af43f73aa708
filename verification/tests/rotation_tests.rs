use raster_frame::layout::{holds_image, rows_countable};
use raster_frame::rotation::{rotate, rotate_180, rotate_270, rotate_90, Rotate};

/// A 3 x 2 image at pitch 10: pixel (x, y) holds the bytes
/// `10 * y + 3 * x + 1 ..= 10 * y + 3 * x + 3`, the padding holds 99.
fn three_by_two() -> Vec<u8> {
    vec![
        1, 2, 3, 4, 5, 6, 7, 8, 9, 99, //
        11, 12, 13, 14, 15, 16, 17, 18, 19, 99,
    ]
}

fn pixel_of(data: &[u8], stride: usize, x: usize, y: usize) -> Vec<u8> {
    data[y * stride + x * 3..y * stride + x * 3 + 3].to_vec()
}

#[test]
fn rotate_90_gives_the_exact_buffer() {
    let (data, width, height, stride) = rotate_90(&three_by_two(), 3, 2, 10);
    assert_eq!((width, height, stride), (2, 3, 8));
    assert_eq!(
        data,
        vec![
            11, 12, 13, 1, 2, 3, 0, 0, //
            14, 15, 16, 4, 5, 6, 0, 0, //
            17, 18, 19, 7, 8, 9, 0, 0,
        ]
    );
}

#[test]
fn rotate_90_sends_each_pixel_to_its_place() {
    let source = three_by_two();
    let (data, _, _, stride) = rotate_90(&source, 3, 2, 10);
    for y in 0..2usize {
        for x in 0..3usize {
            assert_eq!(pixel_of(&data, stride, 2 - 1 - y, x), pixel_of(&source, 10, x, y));
        }
    }
}

#[test]
fn rotate_180_gives_the_exact_buffer() {
    let (data, width, height, stride) = rotate_180(&three_by_two(), 3, 2, 10);
    assert_eq!((width, height, stride), (3, 2, 10));
    assert_eq!(
        data,
        vec![
            17, 18, 19, 14, 15, 16, 11, 12, 13, 0, //
            7, 8, 9, 4, 5, 6, 1, 2, 3, 0,
        ]
    );
}

#[test]
fn rotate_270_gives_the_exact_buffer() {
    let (data, width, height, stride) = rotate_270(&three_by_two(), 3, 2, 10);
    assert_eq!((width, height, stride), (2, 3, 8));
    assert_eq!(
        data,
        vec![
            7, 8, 9, 17, 18, 19, 0, 0, //
            4, 5, 6, 14, 15, 16, 0, 0, //
            1, 2, 3, 11, 12, 13, 0, 0,
        ]
    );
}

#[test]
fn rotate_270_rows_lie_one_padded_pitch_apart() {
    // One row of two pixels: the turned rows have three bytes of pixels
    // and lie four bytes apart, not three.
    let (data, width, height, stride) = rotate_270(&[1, 2, 3, 4, 5, 6], 2, 1, 6);
    assert_eq!((width, height, stride), (1, 2, 4));
    assert_eq!(data, vec![4, 5, 6, 0, 1, 2, 3, 0]);
}

#[test]
fn rotate_90_rows_lie_one_padded_pitch_apart() {
    let (data, width, height, stride) = rotate_90(&[1, 2, 3, 4, 5, 6], 2, 1, 6);
    assert_eq!((width, height, stride), (1, 2, 4));
    assert_eq!(data, vec![1, 2, 3, 0, 4, 5, 6, 0]);
}

#[test]
fn four_quarter_turns_bring_the_pixels_back() {
    let source = three_by_two();
    let (a, aw, ah, astride) = rotate_90(&source, 3, 2, 10);
    let (b, bw, bh, bstride) = rotate_90(&a, aw, ah, astride);
    let (c, cw, ch, cstride) = rotate_90(&b, bw, bh, bstride);
    let (d, dw, dh, dstride) = rotate_90(&c, cw, ch, cstride);
    assert_eq!((dw, dh), (3, 2));
    for y in 0..2usize {
        for x in 0..3usize {
            assert_eq!(pixel_of(&d, dstride, x, y), pixel_of(&source, 10, x, y));
        }
    }
}

#[test]
fn a_quarter_turn_and_three_more_undo_each_other() {
    let source = three_by_two();
    let (a, aw, ah, astride) = rotate_90(&source, 3, 2, 10);
    let (b, bw, bh, bstride) = rotate_270(&a, aw, ah, astride);
    assert_eq!((bw, bh), (3, 2));
    for y in 0..2usize {
        for x in 0..3usize {
            assert_eq!(pixel_of(&b, bstride, x, y), pixel_of(&source, 10, x, y));
        }
    }
}

#[test]
fn turns_of_an_image_without_pixels_are_empty() {
    assert_eq!(rotate_90(&[], 0, 0, 0), (vec![], 0, 0, 0));
    assert_eq!(rotate_180(&[], 0, 5, 0), (vec![], 0, 5, 0));
    assert_eq!(rotate_270(&[], 4, 0, 12), (vec![], 0, 4, 0));
    // No rows, but three columns: three empty rows of no bytes.
    assert_eq!(rotate_90(&[], 3, 0, 9), (vec![], 0, 3, 0));
    // No columns, but two rows of pitch 4: nothing to copy, eight zeros.
    assert_eq!(rotate_180(&[7; 8], 0, 2, 4), (vec![0; 8], 0, 2, 4));
}

#[test]
fn rotate_keeps_or_swaps_the_sides() {
    let source = three_by_two();
    let (_, w0, h0, s0) = rotate(Rotate::Rotate0, source.clone(), 3, 2, 10).unwrap();
    let (_, w90, h90, s90) = rotate(Rotate::Rotate90, source.clone(), 3, 2, 10).unwrap();
    let (_, w180, h180, s180) = rotate(Rotate::Rotate180, source.clone(), 3, 2, 10).unwrap();
    let (_, w270, h270, s270) = rotate(Rotate::Rotate270, source, 3, 2, 10).unwrap();
    assert_eq!((w0, h0, s0), (3, 2, 10));
    assert_eq!((w90, h90, s90), (2, 3, 8));
    assert_eq!((w180, h180, s180), (3, 2, 10));
    assert_eq!((w270, h270, s270), (2, 3, 8));
}

#[test]
fn rotate_without_a_turn_hands_the_buffer_back() {
    let source = three_by_two();
    assert_eq!(
        rotate(Rotate::Rotate0, source.clone(), 3, 2, 10),
        Some((source, 3, 2, 10))
    );
}

#[test]
fn rotate_agrees_with_the_single_turns() {
    let source = three_by_two();
    assert_eq!(
        rotate(Rotate::Rotate90, source.clone(), 3, 2, 10),
        Some(rotate_90(&source, 3, 2, 10))
    );
    assert_eq!(
        rotate(Rotate::Rotate180, source.clone(), 3, 2, 10),
        Some(rotate_180(&source, 3, 2, 10))
    );
    assert_eq!(
        rotate(Rotate::Rotate270, source.clone(), 3, 2, 10),
        Some(rotate_270(&source, 3, 2, 10))
    );
}

#[test]
fn rotate_refuses_a_buffer_that_is_too_short() {
    // The last row needs 10 + 9 bytes.
    let short = vec![0u8; 18];
    assert_eq!(rotate(Rotate::Rotate0, short.clone(), 3, 2, 10), None);
    assert_eq!(rotate(Rotate::Rotate90, short.clone(), 3, 2, 10), None);
    assert_eq!(rotate(Rotate::Rotate180, short.clone(), 3, 2, 10), None);
    assert_eq!(rotate(Rotate::Rotate270, short, 3, 2, 10), None);
    let enough = vec![0u8; 19];
    assert!(rotate(Rotate::Rotate90, enough, 3, 2, 10).is_some());
}

#[test]
fn half_turn_refuses_rows_that_overlap() {
    // Pitch 6 with nine bytes of pixels a row: a quarter turn reads them
    // as they lie, a half turn has nowhere to write them.
    let data = vec![0u8; 15];
    assert!(rotate(Rotate::Rotate90, data.clone(), 3, 2, 6).is_some());
    assert_eq!(rotate(Rotate::Rotate180, data, 3, 2, 6), None);
}

#[test]
fn holds_image_counts_the_last_row_without_padding() {
    assert!(holds_image(19, 3, 2, 10));
    assert!(!holds_image(18, 3, 2, 10));
    assert!(holds_image(0, 0, 7, 10));
    assert!(holds_image(0, 7, 0, 10));
    assert!(!holds_image(usize::MAX, u32::MAX, u32::MAX, usize::MAX));
}

#[test]
fn rows_countable_is_a_bound_on_the_product() {
    assert!(rows_countable(10, 2));
    assert!(rows_countable(usize::MAX, 1));
    assert!(rows_countable(usize::MAX, 0));
    assert!(!rows_countable(usize::MAX, 2));
    assert!(!rows_countable(usize::MAX / 2 + 1, 2));
}
