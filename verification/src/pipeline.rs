//! From a decoded frame to an encoded image: which format the scaler is
//! asked for, and what is made of the plane that it hands back.

use vstd::prelude::*;
use crate::bitmap::{
    bitmap_fits, bitmap_image, create_bmp_image_from_frame, fits_bitmap, le_value_u32,
    lemma_bitmap_header, row_size, HEADER_SIZE, INFO_SIZE,
};
use crate::errors::PipelineError;
use crate::frame::NotRgbFrame;
use crate::png_encoder::{get_png_data, png_encoding, png_signature};
use crate::rotation::{
    can_rotate, lemma_rotated_holds_pixels, rotate, rotated_height, rotated_image, rotated_stride,
    rotated_width,
};
use crate::video::{plane_bytes, PixelFormat};

verus! {

/// The pixel format that the scaler is asked to produce.
#[derive(Clone, Copy, Debug, PartialEq, Eq, Structural)]
pub enum DestinationFormat {
    /// Four bytes a pixel: red, green, blue, alpha.
    RGBA,
    /// Three bytes a pixel: blue, green, red.
    BGR24,
}

/// With transparency the scaler is asked for RGBA, without it for BGR24.
pub open spec fn destination_for(transparent: bool) -> DestinationFormat {
    if transparent {
        DestinationFormat::RGBA
    } else {
        DestinationFormat::BGR24
    }
}

/// The format that the scaler is asked to produce.
pub fn destination_format(transparent: bool) -> (r: DestinationFormat)
    ensures
        r == destination_for(transparent),
{
    match transparent {
        true => DestinationFormat::RGBA,
        false => DestinationFormat::BGR24,
    }
}

/// What the scaler is handed: the source planes with their format, size and
/// pitches, and the format and size wanted. Scaling is always bilinear.
#[derive(Clone, Debug, PartialEq, Eq)]
pub struct ScaleRequest {
    pub src_format: PixelFormat,
    pub src_width: u32,
    pub src_height: u32,
    pub planes: Vec<Vec<u8>>,
    pub linesize: [i32; 8],
    pub dst_format: DestinationFormat,
    pub dst_width: u32,
    pub dst_height: u32,
    pub bilinear: bool,
}

/// `request` asks to scale the given planes from the frame's original size
/// to its target size.
pub open spec fn is_request_for(
    request: ScaleRequest,
    native_frame: NotRgbFrame,
    planes: Seq<Seq<u8>>,
    src_format: PixelFormat,
    linesize: [i32; 8],
    transparent: bool,
) -> bool {
    &&& request.src_format == src_format
    &&& request.src_width == native_frame.original_width
    &&& request.src_height == native_frame.original_height
    &&& plane_bytes(request.planes) == planes
    &&& request.linesize == linesize
    &&& request.dst_format == destination_for(transparent)
    &&& request.dst_width == native_frame.scaled_width
    &&& request.dst_height == native_frame.scaled_height
    &&& request.bilinear
}

/// Puts together what the scaler is handed for the frame.
pub fn scale_request(
    native_frame: &NotRgbFrame,
    planes: Vec<Vec<u8>>,
    src_format: PixelFormat,
    linesize: [i32; 8],
    transparent: bool,
) -> (request: ScaleRequest)
    ensures
        is_request_for(
            request,
            *native_frame,
            plane_bytes(planes),
            src_format,
            linesize,
            transparent,
        ),
{
    ScaleRequest {
        src_format,
        src_width: native_frame.original_width,
        src_height: native_frame.original_height,
        planes,
        linesize,
        dst_format: destination_format(transparent),
        dst_width: native_frame.scaled_width,
        dst_height: native_frame.scaled_height,
        bilinear: true,
    }
}

/// The first plane of the frame that the scaler made, and its row pitch.
#[derive(Clone, Debug, PartialEq, Eq)]
pub struct ScaledFrame {
    pub data: Vec<u8>,
    pub stride: usize,
}

/// An encoded image, and the warning that goes with it where transparency
/// was asked of a source that has none.
#[derive(Clone, Debug, PartialEq, Eq)]
pub struct EncodedImage {
    pub data: Vec<u8>,
    pub warning: Option<String>,
}

/// How an image is encoded.
#[derive(Clone, Copy, Debug, PartialEq, Eq, Structural)]
pub enum Encoding {
    /// As a PNG file, which keeps the alpha channel.
    Png,
    /// As a bitmap, because no transparency was asked for.
    Bitmap,
    /// As a bitmap, although transparency was asked for: the source has
    /// none.
    BitmapWithWarning,
}

/// A PNG file is made where transparency is asked for and the source
/// carries it; in every other case a bitmap.
pub open spec fn encoding_for(transparent: bool, source: PixelFormat) -> Encoding {
    if !transparent {
        Encoding::Bitmap
    } else if source.has_alpha() {
        Encoding::Png
    } else {
        Encoding::BitmapWithWarning
    }
}

/// Chooses how the image of a source of the given format is encoded.
pub fn choose_encoding(transparent: bool, source: &PixelFormat) -> (r: Encoding)
    ensures
        r == encoding_for(transparent, *source),
{
    if transparent {
        if source.is_transparent() {
            Encoding::Png
        } else {
            Encoding::BitmapWithWarning
        }
    } else {
        Encoding::Bitmap
    }
}

/// The warning that names the source and its pixel format.
pub open spec fn warning_text(original_src: Seq<char>, format_name: Seq<char>) -> Seq<char> {
    "Requested transparent image, but the video "@ + original_src
        + " is not transparent (pixel format "@ + format_name + "). Returning BMP."@
}

/// Writes the warning for a source without transparency.
pub fn fallback_warning(original_src: &String, source: &PixelFormat) -> (warning: String)
    ensures
        warning@ == warning_text(original_src@, source.name_text()),
{
    let format_name: String = source.name();
    let mut warning: String = String::from_str("Requested transparent image, but the video ");
    warning.append(original_src.as_str());
    warning.append(" is not transparent (pixel format ");
    warning.append(format_name.as_str());
    warning.append("). Returning BMP.");
    warning
}

/// The text of a warning, if there is one.
pub open spec fn warning_view(warning: Option<String>) -> Option<Seq<char>> {
    match warning {
        Some(text) => Some(text@),
        None => None,
    }
}

/// The image that the pipeline makes of the scaler's plane, with its
/// warning, or the step that fails.
///
/// A plane that cannot be turned as the frame asks is the scaler's fault.
/// The turned plane is encoded with the turned width and height: as a PNG
/// file where `encoding_for` says so, else as a bitmap, with a warning where
/// transparency was asked for. The pixel format of the decoded frame
/// decides, also where a tone-map filter handed the scaler another one. An
/// image too large for a bitmap's size fields, or one that the PNG encoder
/// refuses, is the encoder's fault.
pub open spec fn encoded(
    native_frame: NotRgbFrame,
    scaled: Seq<u8>,
    stride: int,
    transparent: bool,
) -> Result<(Seq<u8>, Option<Seq<char>>), PipelineError> {
    let width = native_frame.scaled_width as int;
    let height = native_frame.scaled_height as int;
    let turn = native_frame.rotate;
    let source = native_frame.unscaled_frame.format;
    if !can_rotate(turn, scaled.len() as int, width, height, stride) {
        Err(PipelineError::ScalerError)
    } else {
        let turned = rotated_image(turn, scaled, width, height, stride);
        let turned_width = rotated_width(turn, width, height) as u32;
        let turned_height = rotated_height(turn, width, height) as u32;
        let turned_stride = rotated_stride(turn, height, stride);
        match encoding_for(transparent, source) {
            Encoding::Png => match png_encoding(turned, turned_width, turned_height) {
                Some(file) => Ok((file, None)),
                None => Err(PipelineError::EncoderError),
            },
            choice => if fits_bitmap(turned_width as int, turned_height as int) {
                Ok(
                    (
                        bitmap_image(turned, turned_width, turned_height, turned_stride),
                        if choice is BitmapWithWarning {
                            Some(warning_text(native_frame.original_src@, source.name_text()))
                        } else {
                            None
                        },
                    ),
                )
            } else {
                Err(PipelineError::EncoderError)
            },
        }
    }
}

/// Makes the encoded image of a frame from the plane that the scaler made
/// of it: turns the plane as the frame asks, then encodes it.
pub fn scale_and_make_bitmap(
    native_frame: &NotRgbFrame,
    scaled: ScaledFrame,
    transparent: bool,
) -> (r: Result<EncodedImage, PipelineError>)
    ensures
        r matches Ok(image) ==> encoded(
            *native_frame,
            scaled.data@,
            scaled.stride as int,
            transparent,
        ) == Ok::<(Seq<u8>, Option<Seq<char>>), PipelineError>(
            (image.data@, warning_view(image.warning)),
        ),
        r matches Err(e) ==> encoded(*native_frame, scaled.data@, scaled.stride as int, transparent)
            == Err::<(Seq<u8>, Option<Seq<char>>), PipelineError>(e),
        r matches Ok(image) ==> (encoding_for(transparent, native_frame.unscaled_frame.format)
            is Png ==> image.data@.len() >= 8 && image.data@.subrange(0, 8) == png_signature()),
{
    let ghost source = scaled.data@;
    let ghost source_stride = scaled.stride as int;
    let turned = rotate(
        native_frame.rotate,
        scaled.data,
        native_frame.scaled_width,
        native_frame.scaled_height,
        scaled.stride,
    );
    let (rotated, rotated_width, rotated_height, stride) = match turned {
        Some(t) => t,
        None => {
            return Err(PipelineError::ScalerError);
        },
    };
    proof {
        lemma_rotated_holds_pixels(
            native_frame.rotate,
            source,
            native_frame.scaled_width as int,
            native_frame.scaled_height as int,
            source_stride,
        );
    }
    let warning: Option<String> = match choose_encoding(
        transparent,
        &native_frame.unscaled_frame.format,
    ) {
        Encoding::Png => {
            return match get_png_data(rotated.as_slice(), rotated_width, rotated_height) {
                Ok(data) => Ok(EncodedImage { data, warning: None }),
                Err(e) => Err(e),
            };
        },
        Encoding::BitmapWithWarning => Some(
            fallback_warning(&native_frame.original_src, &native_frame.unscaled_frame.format),
        ),
        Encoding::Bitmap => None,
    };
    if !bitmap_fits(rotated_width, rotated_height) {
        return Err(PipelineError::EncoderError);
    }
    let data = create_bmp_image_from_frame(rotated.as_slice(), rotated_width, rotated_height, stride);
    Ok(EncodedImage { data, warning })
}

/// A bitmap that the pipeline makes starts with the letters `BM`, has an
/// image header of 40 bytes, says of itself the width and height of the
/// turned image, and has the length that these give. It comes with a
/// warning, which names the source and its pixel format, exactly where
/// transparency was asked for.
pub proof fn lemma_encoded_bitmap(
    native_frame: NotRgbFrame,
    scaled: Seq<u8>,
    stride: int,
    transparent: bool,
)
    requires
        encoded(native_frame, scaled, stride, transparent) is Ok,
        !(encoding_for(transparent, native_frame.unscaled_frame.format) is Png),
    ensures
        ({
            let (image, warning) = encoded(native_frame, scaled, stride, transparent)->Ok_0;
            let width = rotated_width(
                native_frame.rotate,
                native_frame.scaled_width as int,
                native_frame.scaled_height as int,
            );
            let height = rotated_height(
                native_frame.rotate,
                native_frame.scaled_width as int,
                native_frame.scaled_height as int,
            );
            &&& image[0] == 0x42 && image[1] == 0x4D
            &&& le_value_u32(image, 14) == INFO_SIZE
            &&& le_value_u32(image, 18) == width
            &&& le_value_u32(image, 22) == height
            &&& image.len() == HEADER_SIZE + row_size(width) * height
            &&& warning == if transparent {
                Some(
                    warning_text(
                        native_frame.original_src@,
                        native_frame.unscaled_frame.format.name_text(),
                    ),
                )
            } else {
                None
            }
        }),
{
    let width = native_frame.scaled_width as int;
    let height = native_frame.scaled_height as int;
    let turn = native_frame.rotate;
    lemma_bitmap_header(
        rotated_image(turn, scaled, width, height, stride),
        rotated_width(turn, width, height) as u32,
        rotated_height(turn, width, height) as u32,
        rotated_stride(turn, height, stride),
    );
}

/// A PNG file is made only where transparency was asked of a source that
/// carries it, and it comes without a warning.
pub proof fn lemma_encoded_png(
    native_frame: NotRgbFrame,
    scaled: Seq<u8>,
    stride: int,
    transparent: bool,
)
    requires
        encoded(native_frame, scaled, stride, transparent) is Ok,
        encoding_for(transparent, native_frame.unscaled_frame.format) is Png,
    ensures
        transparent,
        native_frame.unscaled_frame.format.has_alpha(),
        encoded(native_frame, scaled, stride, transparent)->Ok_0.1 is None,
        ({
            let width = rotated_width(
                native_frame.rotate,
                native_frame.scaled_width as int,
                native_frame.scaled_height as int,
            );
            let height = rotated_height(
                native_frame.rotate,
                native_frame.scaled_width as int,
                native_frame.scaled_height as int,
            );
            Some(encoded(native_frame, scaled, stride, transparent)->Ok_0.0) == png_encoding(
                rotated_image(
                    native_frame.rotate,
                    scaled,
                    native_frame.scaled_width as int,
                    native_frame.scaled_height as int,
                    stride,
                ),
                width as u32,
                height as u32,
            )
        }),
{
}

} // verus!
