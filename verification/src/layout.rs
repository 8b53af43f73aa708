//! How an image of three-byte pixels lies in a byte buffer.
//!
//! A buffer holds `height` rows; row `y` starts at byte `y * stride` and its
//! first `width * 3` bytes are the pixels of that row. Bytes of a row beyond
//! the pixels are padding.

use vstd::prelude::*;
use vstd::arithmetic::div_mod::{
    lemma_fundamental_div_mod, lemma_fundamental_div_mod_converse, lemma_mod_pos_bound,
};

verus! {

/// `n` rounded up to the next multiple of four.
pub open spec fn align4(n: int) -> int {
    (n + 3) / 4 * 4
}

/// Byte offset of channel `c` of pixel `(x, y)` in a buffer of pitch `stride`.
pub open spec fn byte_at(x: int, y: int, c: int, stride: int) -> int {
    y * stride + x * 3 + c
}

/// The three bytes of pixel `(x, y)`.
pub open spec fn pixel(data: Seq<u8>, stride: int, x: int, y: int) -> Seq<u8> {
    data.subrange(byte_at(x, y, 0, stride), byte_at(x, y, 3, stride))
}

/// A buffer of `len` bytes holds every pixel of a `width` x `height` image
/// laid out at pitch `stride`.
pub open spec fn holds_pixels(len: int, width: int, height: int, stride: int) -> bool {
    width > 0 && height > 0 ==> (height - 1) * stride + width * 3 <= len
}

/// Rounding up to a multiple of four adds at most three.
pub(crate) proof fn lemma_align4(n: int)
    requires
        0 <= n,
    ensures
        n <= align4(n) <= n + 3,
        align4(n) % 4 == 0,
{
}

/// An offset below `pitch * rows` splits into a row below `rows` and a
/// column below `pitch`.
pub(crate) proof fn lemma_split(i: int, pitch: int, rows: int)
    requires
        0 <= i < pitch * rows,
        0 < pitch,
    ensures
        0 <= i / pitch < rows,
        0 <= i % pitch < pitch,
        i == (i / pitch) * pitch + i % pitch,
{
    lemma_fundamental_div_mod(i, pitch);
    lemma_mod_pos_bound(i, pitch);
    let q = i / pitch;
    assert(q * pitch == pitch * q) by (nonlinear_arith);
    assert(0 <= q < rows) by (nonlinear_arith)
        requires
            0 <= i < pitch * rows,
            0 < pitch,
            i == q * pitch + i % pitch,
            0 <= i % pitch < pitch,
    ;
}

/// Row `row`, column `col` is the offset `row * pitch + col`, and no other.
pub(crate) proof fn lemma_join(row: int, col: int, pitch: int)
    requires
        0 <= col < pitch,
    ensures
        (row * pitch + col) / pitch == row,
        (row * pitch + col) % pitch == col,
{
    lemma_fundamental_div_mod_converse(row * pitch + col, pitch, row, col);
}

/// A row below `rows` ends no later than the buffer of `rows` rows.
pub(crate) proof fn lemma_rows_below(row: int, rows: int, pitch: int, col: int)
    requires
        0 <= row < rows,
        0 <= col <= pitch,
    ensures
        0 <= row * pitch,
        row * pitch + col <= rows * pitch,
        rows * pitch == pitch * rows,
{
    assert(0 <= row * pitch && row * pitch + pitch <= rows * pitch && rows * pitch == pitch * rows)
        by (nonlinear_arith)
        requires
            0 <= row < rows,
            0 <= pitch,
    ;
}

/// The product of a 32-bit and a 64-bit number fits in 128 bits.
proof fn lemma_product_bound(a: int, b: int)
    requires
        0 <= a <= 0xffff_ffff,
        0 <= b <= 0xffff_ffff_ffff_ffff,
    ensures
        0 <= a * b <= 0xffff_ffff * 0xffff_ffff_ffff_ffff,
{
    assert(0 <= a * b <= 0xffff_ffff * 0xffff_ffff_ffff_ffff) by (nonlinear_arith)
        requires
            0 <= a <= 0xffff_ffff,
            0 <= b <= 0xffff_ffff_ffff_ffff,
    ;
}

/// Tests whether a buffer of `len` bytes holds the image.
pub fn holds_image(len: usize, width: u32, height: u32, stride: usize) -> (r: bool)
    ensures
        r == holds_pixels(len as int, width as int, height as int, stride as int),
{
    if width == 0 || height == 0 {
        return true;
    }
    proof {
        lemma_product_bound(height - 1, stride as int);
    }
    let last_row: u128 = ((height - 1) as u128) * (stride as u128);
    last_row + (width as u128) * 3 <= len as u128
}

/// Tests whether `rows` rows of `pitch` bytes can be counted in a `usize`.
pub fn rows_countable(pitch: usize, rows: u32) -> (r: bool)
    ensures
        r == (pitch * rows <= usize::MAX),
{
    proof {
        lemma_product_bound(rows as int, pitch as int);
    }
    (rows as u128) * (pitch as u128) <= usize::MAX as u128
}

} // verus!
