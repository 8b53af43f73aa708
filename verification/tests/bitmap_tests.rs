use raster_frame::bitmap::{
    bitmap_fits, create_bmp_image_from_frame, HEADER_SIZE, INFO_SIZE, RESOLUTION,
};

fn le_u32(bytes: &[u8], at: usize) -> u32 {
    u32::from_le_bytes([bytes[at], bytes[at + 1], bytes[at + 2], bytes[at + 3]])
}

fn le_u16(bytes: &[u8], at: usize) -> u16 {
    u16::from_le_bytes([bytes[at], bytes[at + 1]])
}

#[test]
fn white_two_by_two_is_seventy_bytes() {
    let bmp = create_bmp_image_from_frame(&[255u8; 12], 2, 2, 6);
    assert_eq!(bmp.len(), 70);
    for row in 0..2 {
        let start = 54 + row * 8;
        assert_eq!(&bmp[start..start + 6], &[0xFF; 6]);
        assert_eq!(&bmp[start + 6..start + 8], &[0, 0]);
    }
}

#[test]
fn header_is_byte_exact() {
    let bmp = create_bmp_image_from_frame(&[255u8; 12], 2, 2, 6);
    assert_eq!(
        &bmp[..54],
        &[
            0x42, 0x4D, // BM
            70, 0, 0, 0, // file size
            0, 0, 0, 0, // reserved
            54, 0, 0, 0, // offset of the pixel data
            40, 0, 0, 0, // size of the image header
            2, 0, 0, 0, // width
            2, 0, 0, 0, // height
            1, 0, // planes
            24, 0, // bits per pixel
            0, 0, 0, 0, // compression
            16, 0, 0, 0, // size of the pixel data
            0x13, 0x0B, 0, 0, // horizontal resolution
            0x13, 0x0B, 0, 0, // vertical resolution
            0, 0, 0, 0, // colours used
            0, 0, 0, 0, // important colours
        ]
    );
}

#[test]
fn header_fields_read_back() {
    let data = vec![7u8; 5 * 16];
    let bmp = create_bmp_image_from_frame(&data, 5, 3, 16);
    assert_eq!(&bmp[0..2], b"BM");
    assert_eq!(le_u32(&bmp, 2) as usize, bmp.len());
    assert_eq!(le_u16(&bmp, 6), 0);
    assert_eq!(le_u16(&bmp, 8), 0);
    assert_eq!(le_u32(&bmp, 10), HEADER_SIZE);
    assert_eq!(le_u32(&bmp, 14), INFO_SIZE);
    assert_eq!(le_u32(&bmp, 14), 40);
    assert_eq!(le_u32(&bmp, 18), 5);
    assert_eq!(le_u32(&bmp, 22), 3);
    assert_eq!(le_u16(&bmp, 26), 1);
    assert_eq!(le_u16(&bmp, 28), 24);
    assert_eq!(le_u32(&bmp, 30), 0);
    assert_eq!(le_u32(&bmp, 34), 16 * 3);
    assert_eq!(le_u32(&bmp, 38), RESOLUTION);
    assert_eq!(le_u32(&bmp, 42), 2835);
    assert_eq!(le_u32(&bmp, 46), 0);
    assert_eq!(le_u32(&bmp, 50), 0);
    assert_eq!(bmp.len(), 54 + 16 * 3);
}

#[test]
fn large_fields_are_little_endian() {
    // 300 pixels a row: 900 bytes, no padding; 300 rows.
    let data = vec![1u8; 900 * 300];
    let bmp = create_bmp_image_from_frame(&data, 300, 300, 900);
    assert_eq!(&bmp[18..22], &[0x2C, 0x01, 0, 0]);
    assert_eq!(&bmp[22..26], &[0x2C, 0x01, 0, 0]);
    assert_eq!(&bmp[34..38], &[0xB0, 0x1E, 0x04, 0]);
    assert_eq!(&bmp[2..6], &[0xE6, 0x1E, 0x04, 0]);
    assert_eq!(bmp.len(), 54 + 270_000);
}

#[test]
fn rows_are_written_from_the_last_to_the_first() {
    // 1 x 3, pitch 4 with one byte of padding in the source.
    let data = [1, 2, 3, 99, 4, 5, 6, 99, 7, 8, 9, 99];
    let bmp = create_bmp_image_from_frame(&data, 1, 3, 4);
    assert_eq!(&bmp[54..], &[7, 8, 9, 0, 4, 5, 6, 0, 1, 2, 3, 0]);
}

#[test]
fn source_padding_is_left_out_and_rows_are_padded_anew() {
    // 3 x 2 at pitch 10: nine bytes of pixels, padded to twelve.
    let data = [
        1, 2, 3, 4, 5, 6, 7, 8, 9, 99, //
        11, 12, 13, 14, 15, 16, 17, 18, 19, 99,
    ];
    let bmp = create_bmp_image_from_frame(&data, 3, 2, 10);
    assert_eq!(bmp.len(), 54 + 24);
    assert_eq!(
        &bmp[54..],
        &[
            11, 12, 13, 14, 15, 16, 17, 18, 19, 0, 0, 0, //
            1, 2, 3, 4, 5, 6, 7, 8, 9, 0, 0, 0,
        ]
    );
}

#[test]
fn a_row_of_four_pixels_needs_no_padding() {
    let data: Vec<u8> = (0..12).collect();
    let bmp = create_bmp_image_from_frame(&data, 4, 1, 12);
    assert_eq!(le_u32(&bmp, 34), 12);
    assert_eq!(&bmp[54..], &data[..]);
}

#[test]
fn the_last_row_may_end_with_its_pixels() {
    // Two rows at pitch 8, the buffer ends after the pixels of the second.
    let data = [1, 2, 3, 0, 0, 0, 0, 0, 4, 5, 6];
    let bmp = create_bmp_image_from_frame(&data, 1, 2, 8);
    assert_eq!(&bmp[54..], &[4, 5, 6, 0, 1, 2, 3, 0]);
}

#[test]
fn an_image_without_pixels_is_a_bare_header() {
    let no_rows = create_bmp_image_from_frame(&[], 4, 0, 12);
    assert_eq!(no_rows.len(), 54);
    assert_eq!(le_u32(&no_rows, 2), 54);
    assert_eq!(le_u32(&no_rows, 18), 4);
    assert_eq!(le_u32(&no_rows, 22), 0);
    assert_eq!(le_u32(&no_rows, 34), 0);
    let no_columns = create_bmp_image_from_frame(&[], 0, 3, 0);
    assert_eq!(no_columns.len(), 54);
    assert_eq!(le_u32(&no_columns, 18), 0);
    assert_eq!(le_u32(&no_columns, 22), 3);
}

#[test]
fn bitmap_fits_is_the_bound_of_the_size_fields() {
    assert!(bitmap_fits(2, 2));
    assert!(bitmap_fits(u32::MAX, 0));
    assert!(bitmap_fits(0, u32::MAX));
    assert!(!bitmap_fits(u32::MAX, 1));
    assert!(!bitmap_fits(u32::MAX, u32::MAX));
    // Rows of 4 bytes: 54 + 4 * h <= 2^32 - 1 holds up to h = 1073741810.
    assert!(bitmap_fits(1, 1_073_741_810));
    assert!(!bitmap_fits(1, 1_073_741_811));
}
