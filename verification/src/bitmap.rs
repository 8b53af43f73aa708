//! The 24-bit bitmap container: a 54-byte header, then the rows from the
//! last to the first, each padded with zeros to a multiple of four bytes.

use vstd::prelude::*;
use crate::layout::{align4, holds_pixels, lemma_align4, lemma_join, lemma_rows_below};

verus! {

/// Bytes of the file header and the image header together.
pub const HEADER_SIZE: u32 = 54;

/// Bytes of the image header alone.
pub const INFO_SIZE: u32 = 40;

/// Pixels per metre, both ways: 72 dots per inch.
pub const RESOLUTION: u32 = 2835;

/// The two bytes of `v`, lowest first.
pub open spec fn le_bytes_u16(v: u16) -> Seq<u8> {
    seq![(v % 256) as u8, (v / 256) as u8]
}

/// The four bytes of `v`, lowest first.
pub open spec fn le_bytes_u32(v: u32) -> Seq<u8> {
    seq![
        (v % 256) as u8,
        (v / 256 % 256) as u8,
        (v / 65536 % 256) as u8,
        (v / 16777216) as u8,
    ]
}

/// The number that the four bytes from `at` on spell, lowest byte first.
pub open spec fn le_value_u32(bytes: Seq<u8>, at: int) -> int {
    bytes[at] + 256 * bytes[at + 1] + 65536 * bytes[at + 2] + 16777216 * bytes[at + 3]
}

/// The number that the two bytes from `at` on spell, lowest byte first.
pub open spec fn le_value_u16(bytes: Seq<u8>, at: int) -> int {
    bytes[at] + 256 * bytes[at + 1]
}

/// Bytes of one row of the container.
pub open spec fn row_size(width: int) -> int {
    align4(width * 3)
}

/// Bytes of all rows of the container.
pub open spec fn image_size(width: int, height: int) -> int {
    row_size(width) * height
}

/// The container's size fields have 32 bits: the whole file must fit.
pub open spec fn fits_bitmap(width: int, height: int) -> bool {
    HEADER_SIZE + image_size(width, height) <= u32::MAX
}

/// The header of a `width` x `height` bitmap: the letters `BM`, the size
/// of the file, two reserved fields, the offset of the pixel data; then the
/// size of the image header, width, height, planes, bits a pixel,
/// compression, the size of the pixel data, the two resolutions, and the
/// two palette counts.
pub open spec fn bitmap_header(width: u32, height: u32) -> Seq<u8> {
    let image = image_size(width as int, height as int);
    seq![0x42u8, 0x4Du8]
        + le_bytes_u32((HEADER_SIZE + image) as u32)
        + le_bytes_u16(0)
        + le_bytes_u16(0)
        + le_bytes_u32(HEADER_SIZE)
        + le_bytes_u32(INFO_SIZE)
        + le_bytes_u32(width)
        + le_bytes_u32(height)
        + le_bytes_u16(1)
        + le_bytes_u16(24)
        + le_bytes_u32(0)
        + le_bytes_u32(image as u32)
        + le_bytes_u32(RESOLUTION)
        + le_bytes_u32(RESOLUTION)
        + le_bytes_u32(0)
        + le_bytes_u32(0)
}

/// Byte `i` behind the header: row `i / row_size` of the container is row
/// `height - 1 - i / row_size` of the source, followed by zeros.
pub open spec fn bitmap_body_byte(data: Seq<u8>, width: int, height: int, stride: int, i: int) -> u8 {
    let row = i / row_size(width);
    let col = i % row_size(width);
    if col < width * 3 {
        data[(height - 1 - row) * stride + col]
    } else {
        0u8
    }
}

/// All bytes behind the header.
pub open spec fn bitmap_body(data: Seq<u8>, width: int, height: int, stride: int) -> Seq<u8> {
    Seq::new(
        image_size(width, height) as nat,
        |i: int| bitmap_body_byte(data, width, height, stride, i),
    )
}

/// The bitmap of the `width` x `height` image that `data` holds at pitch
/// `stride`.
pub open spec fn bitmap_image(data: Seq<u8>, width: u32, height: u32, stride: int) -> Seq<u8> {
    bitmap_header(width, height) + bitmap_body(data, width as int, height as int, stride)
}

/// The bytes of a number spell that number.
pub proof fn lemma_le_bytes_u32(v: u32)
    ensures
        le_bytes_u32(v).len() == 4,
        le_value_u32(le_bytes_u32(v), 0) == v,
{
}

/// Behind `head`, `tail` stands byte for byte, and `head` stays as it was.
proof fn lemma_appended(head: Seq<u8>, tail: Seq<u8>)
    ensures
        (head + tail).len() == head.len() + tail.len(),
        forall|i: int| 0 <= i < head.len() ==> #[trigger] (head + tail)[i] == head[i],
        forall|i: int|
            0 <= i < tail.len() ==> #[trigger] (head + tail)[head.len() + i] == tail[i],
{
}

/// What a bitmap says of itself: it starts with the letters `BM`, its
/// image header has 40 bytes and begins at offset 14, the pixel data begin
/// at offset 54, width and height stand at offsets 18 and 22, and behind the
/// header follow `height` rows of `row_size(width)` bytes.
pub proof fn lemma_bitmap_header(data: Seq<u8>, width: u32, height: u32, stride: int)
    ensures
        ({
            let bmp = bitmap_image(data, width, height, stride);
            let image = image_size(width as int, height as int);
            &&& bmp.len() == HEADER_SIZE + image
            &&& image == align4(width * 3) * height
            &&& bmp[0] == 0x42 && bmp[1] == 0x4D
            &&& fits_bitmap(width as int, height as int) ==> le_value_u32(bmp, 2) == bmp.len()
            &&& le_value_u16(bmp, 6) == 0 && le_value_u16(bmp, 8) == 0
            &&& le_value_u32(bmp, 10) == HEADER_SIZE
            &&& le_value_u32(bmp, 14) == INFO_SIZE
            &&& le_value_u32(bmp, 18) == width
            &&& le_value_u32(bmp, 22) == height
            &&& le_value_u16(bmp, 26) == 1
            &&& le_value_u16(bmp, 28) == 24
            &&& le_value_u32(bmp, 30) == 0
            &&& fits_bitmap(width as int, height as int) ==> le_value_u32(bmp, 34) == image
            &&& le_value_u32(bmp, 38) == RESOLUTION
            &&& le_value_u32(bmp, 42) == RESOLUTION
            &&& le_value_u32(bmp, 46) == 0
            &&& le_value_u32(bmp, 50) == 0
        }),
{
    let image = image_size(width as int, height as int);
    lemma_align4(width * 3);
    assert(0 <= image) by (nonlinear_arith)
        requires
            image == row_size(width as int) * height,
            0 <= row_size(width as int),
            0 <= height,
    ;
    let first_2 = seq![0x42u8, 0x4Du8];
    let first_6 = first_2 + le_bytes_u32((HEADER_SIZE + image) as u32);
    let first_8 = first_6 + le_bytes_u16(0);
    let first_10 = first_8 + le_bytes_u16(0);
    let first_14 = first_10 + le_bytes_u32(HEADER_SIZE);
    let first_18 = first_14 + le_bytes_u32(INFO_SIZE);
    let first_22 = first_18 + le_bytes_u32(width);
    let first_26 = first_22 + le_bytes_u32(height);
    let first_28 = first_26 + le_bytes_u16(1);
    let first_30 = first_28 + le_bytes_u16(24);
    let first_34 = first_30 + le_bytes_u32(0);
    let first_38 = first_34 + le_bytes_u32(image as u32);
    let first_42 = first_38 + le_bytes_u32(RESOLUTION);
    let first_46 = first_42 + le_bytes_u32(RESOLUTION);
    let first_50 = first_46 + le_bytes_u32(0);
    let first_54 = first_50 + le_bytes_u32(0);
    lemma_appended(first_2, le_bytes_u32((HEADER_SIZE + image) as u32));
    lemma_appended(first_6, le_bytes_u16(0));
    lemma_appended(first_8, le_bytes_u16(0));
    lemma_appended(first_10, le_bytes_u32(HEADER_SIZE));
    lemma_appended(first_14, le_bytes_u32(INFO_SIZE));
    lemma_appended(first_18, le_bytes_u32(width));
    lemma_appended(first_22, le_bytes_u32(height));
    lemma_appended(first_26, le_bytes_u16(1));
    lemma_appended(first_28, le_bytes_u16(24));
    lemma_appended(first_30, le_bytes_u32(0));
    lemma_appended(first_34, le_bytes_u32(image as u32));
    lemma_appended(first_38, le_bytes_u32(RESOLUTION));
    lemma_appended(first_42, le_bytes_u32(RESOLUTION));
    lemma_appended(first_46, le_bytes_u32(0));
    lemma_appended(first_50, le_bytes_u32(0));
    lemma_appended(first_54, bitmap_body(data, width as int, height as int, stride));
    lemma_le_bytes_u32((HEADER_SIZE + image) as u32);
    lemma_le_bytes_u32(HEADER_SIZE);
    lemma_le_bytes_u32(INFO_SIZE);
    lemma_le_bytes_u32(width);
    lemma_le_bytes_u32(height);
    lemma_le_bytes_u32(0);
    lemma_le_bytes_u32(image as u32);
    lemma_le_bytes_u32(RESOLUTION);
}

/// Behind the header, row `row` of a bitmap holds the pixel bytes of row
/// `height - 1 - row` of the source, then zeros up to the row's end.
pub proof fn lemma_bitmap_rows(
    data: Seq<u8>,
    width: u32,
    height: u32,
    stride: int,
    row: int,
    col: int,
)
    requires
        0 <= row < height,
        0 <= col < row_size(width as int),
    ensures
        col < width * 3 ==> bitmap_image(data, width, height, stride)[HEADER_SIZE + row * row_size(
            width as int,
        ) + col] == data[(height - 1 - row) * stride + col],
        col >= width * 3 ==> bitmap_image(data, width, height, stride)[HEADER_SIZE + row
            * row_size(width as int) + col] == 0,
{
    let pitch = row_size(width as int);
    lemma_rows_below(row, height as int, pitch, col + 1);
    lemma_join(row, col, pitch);
}

/// Tests whether a bitmap of this width and height fits its own size
/// fields.
pub fn bitmap_fits(width: u32, height: u32) -> (r: bool)
    ensures
        r == fits_bitmap(width as int, height as int),
{
    let pitch: u64 = ((width as u64) * 3 + 3) / 4 * 4;
    assert(0 <= pitch * height <= 0x3_0000_0000 * 0xffff_ffff) by (nonlinear_arith)
        requires
            0 <= pitch <= 0x3_0000_0000,
            0 <= height <= 0xffff_ffff,
    ;
    (HEADER_SIZE as u128) + (pitch as u128) * (height as u128) <= u32::MAX as u128
}

fn push_u16_le(out: &mut Vec<u8>, v: u16)
    ensures
        final(out)@ == old(out)@ + le_bytes_u16(v),
{
    out.push((v % 256) as u8);
    out.push((v / 256) as u8);
}

fn push_u32_le(out: &mut Vec<u8>, v: u32)
    ensures
        final(out)@ == old(out)@ + le_bytes_u32(v),
{
    out.push((v % 256) as u8);
    out.push((v / 256 % 256) as u8);
    out.push((v / 65536 % 256) as u8);
    out.push((v / 16777216) as u8);
}

/// Encodes the image as a 24-bit bitmap: the header, then the rows from
/// the last to the first, each with its `width * 3` bytes of pixels and
/// zeros up to a multiple of four.
pub fn create_bmp_image_from_frame(
    rgb_frame: &[u8],
    width: u32,
    height: u32,
    stride: usize,
) -> (bmp_data: Vec<u8>)
    requires
        holds_pixels(rgb_frame@.len() as int, width as int, height as int, stride as int),
        fits_bitmap(width as int, height as int),
    ensures
        bmp_data@ == bitmap_image(rgb_frame@, width, height, stride as int),
{
    let ghost w = width as int;
    let ghost h = height as int;
    let ghost s = stride as int;
    let len: usize = rgb_frame.len();
    let row_bytes: u64 = (width as u64) * 3;
    let pitch: u64 = (row_bytes + 3) / 4 * 4;
    proof {
        lemma_align4(w * 3);
        if h > 0 {
            lemma_rows_below(0, h, pitch as int, pitch as int);
        }
    }
    let image_bytes: u32 = if height == 0 {
        0
    } else {
        (pitch * (height as u64)) as u32
    };

    let mut bmp_data: Vec<u8> = Vec::new();
    bmp_data.push(0x42u8);
    bmp_data.push(0x4Du8);
    push_u32_le(&mut bmp_data, HEADER_SIZE + image_bytes);
    push_u16_le(&mut bmp_data, 0);
    push_u16_le(&mut bmp_data, 0);
    push_u32_le(&mut bmp_data, HEADER_SIZE);

    push_u32_le(&mut bmp_data, INFO_SIZE);
    push_u32_le(&mut bmp_data, width);
    push_u32_le(&mut bmp_data, height);
    push_u16_le(&mut bmp_data, 1);
    push_u16_le(&mut bmp_data, 24);
    push_u32_le(&mut bmp_data, 0);
    push_u32_le(&mut bmp_data, image_bytes);
    push_u32_le(&mut bmp_data, RESOLUTION);
    push_u32_le(&mut bmp_data, RESOLUTION);
    push_u32_le(&mut bmp_data, 0);
    push_u32_le(&mut bmp_data, 0);
    assert(bmp_data@ == bitmap_header(width, height));

    let ghost header = bitmap_header(width, height);
    let ghost body = bitmap_body(rgb_frame@, w, h, s);
    let mut y: u32 = height;
    while y > 0
        invariant
            holds_pixels(len as int, w, h, s),
            rgb_frame@.len() == len,
            w == width,
            h == height,
            s == stride,
            row_bytes == w * 3,
            pitch == row_size(w),
            row_bytes <= pitch,
            image_bytes == image_size(w, h),
            header == bitmap_header(width, height),
            header.len() == 54,
            body == bitmap_body(rgb_frame@, w, h, s),
            y <= height,
            bmp_data@ == header + body.subrange(0, (h - y) * pitch),
        decreases y,
    {
        y -= 1;
        let ghost done = h - 1 - y;
        proof {
            lemma_rows_below(done, h, pitch as int, pitch as int);
            if w > 0 {
                lemma_rows_below(y as int, h, s, 0);
                assert(y * s <= (h - 1) * s) by (nonlinear_arith)
                    requires
                        0 <= y <= h - 1,
                        0 <= s,
                ;
            }
        }
        let mut col: u64 = 0;
        while col < pitch
            invariant
                holds_pixels(len as int, w, h, s),
                rgb_frame@.len() == len,
                w == width,
                h == height,
                s == stride,
                row_bytes == w * 3,
                pitch == row_size(w),
                row_bytes <= pitch,
                header.len() == 54,
                body == bitmap_body(rgb_frame@, w, h, s),
                y < height,
                done == h - 1 - y,
                0 <= done * pitch,
                done * pitch + pitch <= image_size(w, h),
                w > 0 ==> 0 <= y * s <= (h - 1) * s,
                col <= pitch,
                bmp_data@ == header + body.subrange(0, done * pitch + col),
            decreases pitch - col,
        {
            proof {
                lemma_join(done, col as int, pitch as int);
            }
            if col < row_bytes {
                let at: usize = (y as usize) * stride + (col as usize);
                bmp_data.push(rgb_frame[at]);
            } else {
                bmp_data.push(0);
            }
            col += 1;
        }
        assert(done * pitch + pitch == (h - y) * pitch) by (nonlinear_arith)
            requires
                done == h - 1 - y,
        ;
    }
    assert(body.subrange(0, h * pitch) =~= body);
    bmp_data
}

} // verus!
