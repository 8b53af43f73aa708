//! Quarter-turn rotation of packed three-byte pixel buffers.

use vstd::prelude::*;
use crate::layout::{
    align4, byte_at, holds_image, holds_pixels, lemma_align4, lemma_join, lemma_rows_below,
    lemma_split, pixel, rows_countable,
};

verus! {

/// A rotation by a multiple of a quarter turn, clockwise.
#[derive(Clone, Copy, Debug, PartialEq, Eq, Structural)]
pub enum Rotate {
    Rotate0,
    Rotate90,
    Rotate180,
    Rotate270,
}

/// Whether the turn exchanges width and height.
pub open spec fn swaps_sides(turn: Rotate) -> bool {
    turn is Rotate90 || turn is Rotate270
}

/// Width in pixels of a `width` x `height` image after the turn.
pub open spec fn rotated_width(turn: Rotate, width: int, height: int) -> int {
    if swaps_sides(turn) {
        height
    } else {
        width
    }
}

/// Height in pixels of a `width` x `height` image after the turn.
pub open spec fn rotated_height(turn: Rotate, width: int, height: int) -> int {
    if swaps_sides(turn) {
        width
    } else {
        height
    }
}

/// Row pitch of the turned buffer: the old pitch where the sides stay, the
/// new row's bytes rounded up to a multiple of four where they are exchanged.
pub open spec fn rotated_stride(turn: Rotate, height: int, stride: int) -> int {
    if swaps_sides(turn) {
        align4(height * 3)
    } else {
        stride
    }
}

/// Where the source pixel `(x, y)` lands in the turned image.
pub open spec fn dest_of(turn: Rotate, width: int, height: int, x: int, y: int) -> (int, int) {
    match turn {
        Rotate::Rotate0 => (x, y),
        Rotate::Rotate90 => (height - 1 - y, x),
        Rotate::Rotate180 => (width - 1 - x, height - 1 - y),
        Rotate::Rotate270 => (y, width - 1 - x),
    }
}

/// The source pixel that lands on `(dx, dy)` of the turned image.
pub open spec fn source_of(turn: Rotate, width: int, height: int, dx: int, dy: int) -> (int, int) {
    match turn {
        Rotate::Rotate0 => (dx, dy),
        Rotate::Rotate90 => (dy, height - 1 - dx),
        Rotate::Rotate180 => (width - 1 - dx, height - 1 - dy),
        Rotate::Rotate270 => (width - 1 - dy, dx),
    }
}

/// Byte `i` of the turned buffer: the matching source byte inside a row's
/// pixels, zero in its padding.
pub open spec fn rotated_byte(
    turn: Rotate,
    data: Seq<u8>,
    width: int,
    height: int,
    stride: int,
    i: int,
) -> u8 {
    let pitch = rotated_stride(turn, height, stride);
    let row = i / pitch;
    let col = i % pitch;
    if col < rotated_width(turn, width, height) * 3 {
        let (sx, sy) = source_of(turn, width, height, col / 3, row);
        data[byte_at(sx, sy, col % 3, stride)]
    } else {
        0u8
    }
}

/// The buffer that a turn makes of `data`. No turn leaves the buffer as it
/// is; any other gives a fresh buffer of `rotated_height` rows at pitch
/// `rotated_stride`.
pub open spec fn rotated_image(
    turn: Rotate,
    data: Seq<u8>,
    width: int,
    height: int,
    stride: int,
) -> Seq<u8> {
    if turn is Rotate0 {
        data
    } else {
        Seq::new(
            (rotated_stride(turn, height, stride) * rotated_height(turn, width, height)) as nat,
            |i: int| rotated_byte(turn, data, width, height, stride, i),
        )
    }
}

/// The turn can be made: the buffer holds the image, the rows of a half
/// turn do not run into each other, and the turned buffer's size can be
/// counted in a `usize`.
pub open spec fn can_rotate(turn: Rotate, len: int, width: int, height: int, stride: int) -> bool {
    &&& holds_pixels(len, width, height, stride)
    &&& match turn {
        Rotate::Rotate0 => true,
        Rotate::Rotate180 => (width > 0 && height > 0 ==> width * 3 <= stride) && stride * height
            <= usize::MAX,
        _ => align4(height * 3) <= usize::MAX && align4(height * 3) * width <= usize::MAX,
    }
}

/// The source pixel `(x, y)` has been written once the scan, row by row,
/// has reached `(x0, y0)`.
spec fn copied(x0: int, y0: int, x: int, y: int) -> bool {
    y < y0 || (y == y0 && x < x0)
}

/// Byte `i` of the output while the scan stands at `(x0, y0)`.
spec fn partial_byte(
    turn: Rotate,
    data: Seq<u8>,
    width: int,
    height: int,
    stride: int,
    x0: int,
    y0: int,
    i: int,
) -> u8 {
    let pitch = rotated_stride(turn, height, stride);
    let row = i / pitch;
    let col = i % pitch;
    if col < rotated_width(turn, width, height) * 3 {
        let (sx, sy) = source_of(turn, width, height, col / 3, row);
        if copied(x0, y0, sx, sy) {
            data[byte_at(sx, sy, col % 3, stride)]
        } else {
            0u8
        }
    } else {
        0u8
    }
}

spec fn partial_image(
    turn: Rotate,
    data: Seq<u8>,
    width: int,
    height: int,
    stride: int,
    x0: int,
    y0: int,
) -> Seq<u8> {
    Seq::new(
        (rotated_stride(turn, height, stride) * rotated_height(turn, width, height)) as nat,
        |i: int| partial_byte(turn, data, width, height, stride, x0, y0, i),
    )
}

/// Byte `i` of the output once the three bytes of the source pixel `(x, y)`
/// have been written over `before`.
spec fn written_byte(
    turn: Rotate,
    data: Seq<u8>,
    width: int,
    height: int,
    stride: int,
    x: int,
    y: int,
    before: Seq<u8>,
    i: int,
) -> u8 {
    let (dx, dy) = dest_of(turn, width, height, x, y);
    let first = byte_at(dx, dy, 0, rotated_stride(turn, height, stride));
    if first <= i < first + 3 {
        data[byte_at(x, y, i - first, stride)]
    } else {
        before[i]
    }
}

/// Writing the three bytes of the source pixel `(x, y)` to its place moves
/// the scan from `(x, y)` to `(x + 1, y)`.
proof fn lemma_pixel_written(
    turn: Rotate,
    data: Seq<u8>,
    width: int,
    height: int,
    stride: int,
    x: int,
    y: int,
    before: Seq<u8>,
    after: Seq<u8>,
)
    requires
        !(turn is Rotate0),
        0 <= x < width,
        0 <= y < height,
        rotated_width(turn, width, height) * 3 <= rotated_stride(turn, height, stride),
        before == partial_image(turn, data, width, height, stride, x, y),
        after.len() == before.len(),
        forall|i: int|
            0 <= i < before.len() ==> after[i] == written_byte(
                turn,
                data,
                width,
                height,
                stride,
                x,
                y,
                before,
                i,
            ),
    ensures
        after == partial_image(turn, data, width, height, stride, x + 1, y),
{
    let pitch = rotated_stride(turn, height, stride);
    let rows = rotated_height(turn, width, height);
    let (dx, dy) = dest_of(turn, width, height, x, y);
    let first = byte_at(dx, dy, 0, pitch);
    let goal = partial_image(turn, data, width, height, stride, x + 1, y);
    assert forall|i: int| 0 <= i < after.len() implies after[i] == goal[i] by {
        lemma_split(i, pitch, rows);
        if first <= i < first + 3 {
            lemma_join(dy, dx * 3 + (i - first), pitch);
        }
    }
    assert(after =~= goal);
}

/// Copies every pixel of the source to its place in a zeroed buffer of
/// `rows` rows at pitch `pitch`.
fn turn_image(
    turn: Rotate,
    data: &[u8],
    width: u32,
    height: u32,
    stride: usize,
    pitch: usize,
    rows: u32,
) -> (out: Vec<u8>)
    requires
        !(turn is Rotate0),
        holds_pixels(data@.len() as int, width as int, height as int, stride as int),
        pitch == rotated_stride(turn, height as int, stride as int),
        rows == rotated_height(turn, width as int, height as int),
        pitch * rows <= usize::MAX,
        width > 0 && height > 0 ==> rotated_width(turn, width as int, height as int) * 3 <= pitch,
    ensures
        out@ == rotated_image(turn, data@, width as int, height as int, stride as int),
{
    let ghost w = width as int;
    let ghost h = height as int;
    let ghost s = stride as int;
    let len: usize = data.len();
    let size: usize = pitch * (rows as usize);
    let mut out: Vec<u8> = vec![0u8; size];
    proof {
        assert forall|i: int| 0 <= i < size implies out@[i] == partial_byte(
            turn,
            data@,
            w,
            h,
            s,
            0,
            0,
            i,
        ) by {
            lemma_split(i, pitch as int, rows as int);
        }
    }
    let mut y: u32 = 0;
    while y < height
        invariant
            !(turn is Rotate0),
            holds_pixels(data@.len() as int, w, h, s),
            data@.len() == len,
            w == width,
            h == height,
            s == stride,
            pitch == rotated_stride(turn, h, s),
            rows == rotated_height(turn, w, h),
            pitch * rows <= usize::MAX,
            w > 0 && h > 0 ==> rotated_width(turn, w, h) * 3 <= pitch,
            y <= height,
            out@ == partial_image(turn, data@, w, h, s, 0, y as int),
        decreases height - y,
    {
        let mut x: u32 = 0;
        while x < width
            invariant
                !(turn is Rotate0),
                holds_pixels(data@.len() as int, w, h, s),
                data@.len() == len,
                w == width,
                h == height,
                s == stride,
                pitch == rotated_stride(turn, h, s),
                rows == rotated_height(turn, w, h),
                pitch * rows <= usize::MAX,
                w > 0 && h > 0 ==> rotated_width(turn, w, h) * 3 <= pitch,
                y < height,
                x <= width,
                out@ == partial_image(turn, data@, w, h, s, x as int, y as int),
            decreases width - x,
        {
            let (new_x, new_y): (u32, u32) = match turn {
                Rotate::Rotate90 => (height - y - 1, x),
                Rotate::Rotate180 => (width - x - 1, height - y - 1),
                _ => (y, width - x - 1),
            };
            proof {
                lemma_rows_below(new_y as int, rows as int, pitch as int, new_x * 3 + 3);
                lemma_rows_below(y as int, h, s, 0);
                assert(y * s <= (h - 1) * s) by (nonlinear_arith)
                    requires
                        0 <= y <= h - 1,
                        0 <= s,
                ;
            }
            let new_index: usize = (new_y as usize) * pitch + (new_x as usize) * 3;
            let old_index: usize = (y as usize) * stride + (x as usize) * 3;
            let ghost before = out@;
            out.set(new_index, data[old_index]);
            out.set(new_index + 1, data[old_index + 1]);
            out.set(new_index + 2, data[old_index + 2]);
            proof {
                lemma_pixel_written(turn, data@, w, h, s, x as int, y as int, before, out@);
            }
            x += 1;
        }
        proof {
            let done = partial_image(turn, data@, w, h, s, w, y as int);
            let next = partial_image(turn, data@, w, h, s, 0, y + 1);
            assert forall|i: int| 0 <= i < done.len() implies done[i] == next[i] by {
                lemma_split(i, pitch as int, rows as int);
            }
        }
        y += 1;
    }
    proof {
        let done = partial_image(turn, data@, w, h, s, 0, h);
        let goal = rotated_image(turn, data@, w, h, s);
        assert forall|i: int| 0 <= i < done.len() implies done[i] == goal[i] by {
            lemma_split(i, pitch as int, rows as int);
        }
    }
    out
}

/// No turn and a half turn keep width and height; a quarter turn and three
/// quarter turns exchange them.
pub proof fn lemma_rotation_dimensions(turn: Rotate, width: int, height: int)
    ensures
        turn is Rotate0 || turn is Rotate180 ==> rotated_width(turn, width, height) == width
            && rotated_height(turn, width, height) == height,
        turn is Rotate90 || turn is Rotate270 ==> rotated_width(turn, width, height) == height
            && rotated_height(turn, width, height) == width,
{
}

/// Every pixel of the source is found again, byte for byte, at its place in
/// the turned image.
pub proof fn lemma_rotated_pixel(
    turn: Rotate,
    data: Seq<u8>,
    width: int,
    height: int,
    stride: int,
    x: int,
    y: int,
)
    requires
        0 <= x < width,
        0 <= y < height,
        0 <= stride,
        holds_pixels(data.len() as int, width, height, stride),
        turn is Rotate180 ==> width * 3 <= stride,
    ensures
        ({
            let (dx, dy) = dest_of(turn, width, height, x, y);
            pixel(
                rotated_image(turn, data, width, height, stride),
                rotated_stride(turn, height, stride),
                dx,
                dy,
            ) == pixel(data, stride, x, y)
        }),
{
    let pitch = rotated_stride(turn, height, stride);
    let rows = rotated_height(turn, width, height);
    let (dx, dy) = dest_of(turn, width, height, x, y);
    let turned = rotated_image(turn, data, width, height, stride);
    lemma_rows_below(y, height, stride, 0);
    assert(y * stride <= (height - 1) * stride) by (nonlinear_arith)
        requires
            0 <= y <= height - 1,
            0 <= stride,
    ;
    if !(turn is Rotate0) {
        lemma_align4(height * 3);
        lemma_rows_below(dy, rows, pitch, dx * 3 + 3);
        assert forall|c: int| 0 <= c < 3 implies turned[byte_at(dx, dy, c, pitch)] == data[byte_at(
            x,
            y,
            c,
            stride,
        )] by {
            lemma_join(dy, dx * 3 + c, pitch);
        }
    }
    let got = pixel(turned, pitch, dx, dy);
    let want = pixel(data, stride, x, y);
    assert forall|c: int| 0 <= c < 3 implies got[c] == want[c] by {
        assert(got[c] == turned[byte_at(dx, dy, c, pitch)]);
    }
}

/// A turned buffer has `rotated_height` rows of `rotated_stride` bytes, and
/// whatever lies in a row behind its pixels is zero.
pub proof fn lemma_rotated_padding(
    turn: Rotate,
    data: Seq<u8>,
    width: int,
    height: int,
    stride: int,
    row: int,
    col: int,
)
    requires
        !(turn is Rotate0),
        0 <= width,
        0 <= height,
        0 <= stride,
        0 <= row < rotated_height(turn, width, height),
        rotated_width(turn, width, height) * 3 <= col < rotated_stride(turn, height, stride),
    ensures
        rotated_image(turn, data, width, height, stride).len() == rotated_stride(
            turn,
            height,
            stride,
        ) * rotated_height(turn, width, height),
        rotated_image(turn, data, width, height, stride)[row * rotated_stride(turn, height, stride)
            + col] == 0,
{
    let pitch = rotated_stride(turn, height, stride);
    let rows = rotated_height(turn, width, height);
    lemma_rows_below(row, rows, pitch, col + 1);
    lemma_join(row, col, pitch);
}

/// After a quarter turn clockwise the pixel `(x, y)` of the source is the
/// pixel `(height - 1 - y, x)` of the result.
pub proof fn lemma_rotate_90_pixel(
    data: Seq<u8>,
    width: int,
    height: int,
    stride: int,
    x: int,
    y: int,
)
    requires
        0 <= x < width,
        0 <= y < height,
        0 <= stride,
        holds_pixels(data.len() as int, width, height, stride),
    ensures
        pixel(
            rotated_image(Rotate::Rotate90, data, width, height, stride),
            align4(height * 3),
            height - 1 - y,
            x,
        ) == pixel(data, stride, x, y),
{
    lemma_rotated_pixel(Rotate::Rotate90, data, width, height, stride, x, y);
}

/// Bytes of a row of `pixels` pixels, rounded up to a multiple of four.
fn padded_row(pixels: u32) -> (pitch: usize)
    requires
        align4(pixels * 3) <= usize::MAX,
    ensures
        pitch == align4(pixels * 3),
{
    ((pixels as usize) * 3 + 3) / 4 * 4
}

/// Turns the image a quarter turn clockwise: the source pixel `(x, y)`
/// becomes the pixel `(height - 1 - y, x)`. Returns the new buffer, its
/// width, its height and its row pitch.
pub fn rotate_90(data: &[u8], width: u32, height: u32, stride: usize) -> (r: (
    Vec<u8>,
    u32,
    u32,
    usize,
))
    requires
        holds_pixels(data@.len() as int, width as int, height as int, stride as int),
        align4(height * 3) <= usize::MAX,
        align4(height * 3) * width <= usize::MAX,
    ensures
        r.0@ == rotated_image(Rotate::Rotate90, data@, width as int, height as int, stride as int),
        r.1 == height,
        r.2 == width,
        r.3 == align4(height * 3),
{
    let new_stride: usize = padded_row(height);
    proof {
        lemma_align4(height * 3);
    }
    let new_data = turn_image(Rotate::Rotate90, data, width, height, stride, new_stride, width);
    (new_data, height, width, new_stride)
}

/// Turns the image half a turn: the source pixel `(x, y)` becomes the pixel
/// `(width - 1 - x, height - 1 - y)`. Width, height and row pitch stay.
pub fn rotate_180(data: &[u8], width: u32, height: u32, stride: usize) -> (r: (
    Vec<u8>,
    u32,
    u32,
    usize,
))
    requires
        holds_pixels(data@.len() as int, width as int, height as int, stride as int),
        width > 0 && height > 0 ==> width * 3 <= stride,
        stride * height <= usize::MAX,
    ensures
        r.0@ == rotated_image(Rotate::Rotate180, data@, width as int, height as int, stride as int),
        r.1 == width,
        r.2 == height,
        r.3 == stride,
{
    let new_data = turn_image(Rotate::Rotate180, data, width, height, stride, stride, height);
    (new_data, width, height, stride)
}

/// Turns the image three quarter turns clockwise: the source pixel `(x, y)`
/// becomes the pixel `(y, width - 1 - x)`. Rows of the new buffer lie
/// `align4(height * 3)` bytes apart, as after a quarter turn.
pub fn rotate_270(data: &[u8], width: u32, height: u32, stride: usize) -> (r: (
    Vec<u8>,
    u32,
    u32,
    usize,
))
    requires
        holds_pixels(data@.len() as int, width as int, height as int, stride as int),
        align4(height * 3) <= usize::MAX,
        align4(height * 3) * width <= usize::MAX,
    ensures
        r.0@ == rotated_image(Rotate::Rotate270, data@, width as int, height as int, stride as int),
        r.1 == height,
        r.2 == width,
        r.3 == align4(height * 3),
{
    let new_stride: usize = padded_row(height);
    proof {
        lemma_align4(height * 3);
    }
    let new_data = turn_image(Rotate::Rotate270, data, width, height, stride, new_stride, width);
    (new_data, height, width, new_stride)
}

/// Tests whether a quarter turn of an image of this height and width can
/// be made within a `usize`.
fn quarter_turn_countable(width: u32, height: u32) -> (r: bool)
    ensures
        r == (align4(height * 3) <= usize::MAX && align4(height * 3) * width <= usize::MAX),
{
    let pitch: u64 = ((height as u64) * 3 + 3) / 4 * 4;
    if pitch > usize::MAX as u64 {
        return false;
    }
    rows_countable(pitch as usize, width)
}

/// Turns the image by `turn` where that can be done, and says `None` where
/// it cannot. Returns the new buffer, its width, its height and its row
/// pitch; without a turn these are the ones given.
pub fn rotate(turn: Rotate, data: Vec<u8>, width: u32, height: u32, stride: usize) -> (r: Option<
    (Vec<u8>, u32, u32, usize),
>)
    ensures
        r is Some <==> can_rotate(turn, data@.len() as int, width as int, height as int, stride as int),
        r matches Some(t) ==> t.0@ == rotated_image(
            turn,
            data@,
            width as int,
            height as int,
            stride as int,
        ),
        r matches Some(t) ==> t.1 == rotated_width(turn, width as int, height as int),
        r matches Some(t) ==> t.2 == rotated_height(turn, width as int, height as int),
        r matches Some(t) ==> t.3 == rotated_stride(turn, height as int, stride as int),
{
    if !holds_image(data.len(), width, height, stride) {
        return None;
    }
    match turn {
        Rotate::Rotate0 => Some((data, width, height, stride)),
        Rotate::Rotate90 => {
            if quarter_turn_countable(width, height) {
                Some(rotate_90(data.as_slice(), width, height, stride))
            } else {
                None
            }
        },
        Rotate::Rotate180 => {
            if (width == 0 || height == 0 || (width as u64) * 3 <= stride as u64) && rows_countable(
                stride,
                height,
            ) {
                Some(rotate_180(data.as_slice(), width, height, stride))
            } else {
                None
            }
        },
        Rotate::Rotate270 => {
            if quarter_turn_countable(width, height) {
                Some(rotate_270(data.as_slice(), width, height, stride))
            } else {
                None
            }
        },
    }
}

/// A turned buffer holds the turned image: the contract of a turn is met
/// by its own result.
pub proof fn lemma_rotated_holds_pixels(
    turn: Rotate,
    data: Seq<u8>,
    width: int,
    height: int,
    stride: int,
)
    requires
        0 <= width,
        0 <= height,
        0 <= stride,
        can_rotate(turn, data.len() as int, width, height, stride),
    ensures
        holds_pixels(
            rotated_image(turn, data, width, height, stride).len() as int,
            rotated_width(turn, width, height),
            rotated_height(turn, width, height),
            rotated_stride(turn, height, stride),
        ),
{
    let pitch = rotated_stride(turn, height, stride);
    let rows = rotated_height(turn, width, height);
    if !(turn is Rotate0) && width > 0 && height > 0 {
        lemma_align4(height * 3);
        lemma_rows_below(rows - 1, rows, pitch, pitch);
    }
}

} // verus!
