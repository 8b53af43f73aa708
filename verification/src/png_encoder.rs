//! Encoding of packed RGBA pixels as a PNG file.

use vstd::prelude::*;
use crate::errors::PipelineError;

verus! {

/// The error of the `png` encoder, `png::EncodingError`. Nothing is read
/// from it: that there is one is all the pipeline goes by.
#[verifier::external_type_specification]
#[verifier::external_body]
pub struct ExEncodingError(png::EncodingError);

/// The PNG file that the encoder makes of `width` x `height` pixels of
/// four bytes each, eight bits a channel; `None` where it refuses them.
pub uninterp spec fn png_rgba8(rgba: Seq<u8>, width: u32, height: u32) -> Option<Seq<u8>>;

/// The eight bytes that every PNG file starts with.
pub open spec fn png_signature() -> Seq<u8> {
    seq![137u8, 80u8, 78u8, 71u8, 13u8, 10u8, 26u8, 10u8]
}

/// The pixel data of a `width` x `height` image can be counted in a
/// `usize`.
pub open spec fn countable(width: u32, height: u32) -> bool {
    4 * width * height <= usize::MAX
}

/// The PNG file of the pixels, `None` where there are more pixels than a
/// buffer can hold or the encoder refuses them.
pub open spec fn png_encoding(rgba: Seq<u8>, width: u32, height: u32) -> Option<Seq<u8>> {
    if countable(width, height) {
        png_rgba8(rgba, width, height)
    } else {
        None
    }
}

/// Runs `png::Encoder` with colour type RGBA and bit depth eight on an
/// in-memory writer: `write_header`, `write_image_data`, `finish`.
///
/// Believed of the encoder: what it writes depends on the pixels and the
/// two sizes alone; it refuses a width or height of zero and any buffer
/// whose length is not `4 * width * height`; and the first thing it writes
/// is the PNG signature. It multiplies the row length by the height in a
/// `usize`, so the product must fit.
#[verifier::external_body]
fn write_rgba8(rgba: &[u8], width: u32, height: u32) -> (r: Result<Vec<u8>, png::EncodingError>)
    requires
        countable(width, height),
    ensures
        r matches Ok(bytes) ==> png_rgba8(rgba@, width, height) == Some(bytes@),
        r is Err ==> png_rgba8(rgba@, width, height) is None,
        r is Ok ==> width > 0 && height > 0 && rgba@.len() == 4 * width * height,
        r matches Ok(bytes) ==> bytes@.len() >= 8 && bytes@.subrange(0, 8) == png_signature(),
{
    let mut out: Vec<u8> = Vec::new();
    let mut encoder = png::Encoder::new(&mut out, width, height);
    encoder.set_color(png::ColorType::Rgba);
    encoder.set_depth(png::BitDepth::Eight);
    let mut writer = encoder.write_header()?;
    writer.write_image_data(rgba)?;
    writer.finish()?;
    Ok(out)
}

/// What the pipeline makes of the encoder's answer: the file as it is, or
/// an encoder error in place of the encoder's own.
pub fn png_outcome(written: Result<Vec<u8>, png::EncodingError>) -> (r: Result<
    Vec<u8>,
    PipelineError,
>)
    ensures
        written matches Ok(bytes) ==> r == Ok::<Vec<u8>, PipelineError>(bytes),
        written is Err ==> r == Err::<Vec<u8>, PipelineError>(PipelineError::EncoderError),
{
    match written {
        Ok(bytes) => Ok(bytes),
        Err(_) => Err(PipelineError::EncoderError),
    }
}

/// Whether `4 * width * height` fits in a `usize`.
fn is_countable(width: u32, height: u32) -> (r: bool)
    ensures
        r == countable(width, height),
{
    assert(width * height <= 0xffff_ffff * 0xffff_ffff) by (nonlinear_arith)
        requires
            width <= 0xffff_ffff,
            height <= 0xffff_ffff,
    ;
    let pixels: u64 = (width as u64) * (height as u64);
    assert(4 * width * height == 4 * pixels) by (nonlinear_arith)
        requires
            pixels == width * height,
    ;
    pixels <= (usize::MAX as u64) / 4
}

/// Encodes `width` x `height` RGBA pixels as a PNG file. The file starts
/// with the PNG signature; an image without pixels, or one whose buffer is
/// not `4 * width * height` bytes long, yields no file.
pub fn get_png_data(rgba_data: &[u8], width: u32, height: u32) -> (r: Result<
    Vec<u8>,
    PipelineError,
>)
    ensures
        r matches Ok(bytes) ==> png_encoding(rgba_data@, width, height) == Some(bytes@),
        r matches Err(e) ==> e == PipelineError::EncoderError && png_encoding(
            rgba_data@,
            width,
            height,
        ) is None,
        r is Ok ==> width > 0 && height > 0 && rgba_data@.len() == 4 * width * height,
        r matches Ok(bytes) ==> bytes@.len() >= 8 && bytes@.subrange(0, 8) == png_signature(),
{
    if !is_countable(width, height) {
        return Err(PipelineError::EncoderError);
    }
    png_outcome(write_rgba8(rgba_data, width, height))
}

} // verus!
