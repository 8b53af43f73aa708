use raster_frame::errors::PipelineError;
use raster_frame::png_encoder::{get_png_data, png_outcome};

const SIGNATURE: [u8; 8] = [137, 80, 78, 71, 13, 10, 26, 10];

fn decode(file: &[u8]) -> (u32, u32, png::ColorType, png::BitDepth, Vec<u8>) {
    let decoder = png::Decoder::new(std::io::Cursor::new(file.to_vec()));
    let mut reader = decoder.read_info().unwrap();
    let mut pixels = vec![0u8; reader.output_buffer_size().unwrap()];
    let info = reader.next_frame(&mut pixels).unwrap();
    pixels.truncate(info.buffer_size());
    (info.width, info.height, info.color_type, info.bit_depth, pixels)
}

#[test]
fn png_starts_with_the_signature() {
    let rgba = [255u8, 0, 0, 255, 0, 255, 0, 128, 0, 0, 255, 0, 9, 9, 9, 9];
    let file = get_png_data(&rgba, 2, 2).unwrap();
    assert!(file.len() > 8);
    assert_eq!(&file[..8], &SIGNATURE);
    assert_ne!(&file[..], &rgba[..]);
}

#[test]
fn png_decodes_to_the_pixels_it_was_made_of() {
    let rgba: Vec<u8> = (0..3 * 2 * 4).map(|i| (i * 7 % 256) as u8).collect();
    let file = get_png_data(&rgba, 3, 2).unwrap();
    let (width, height, color, depth, pixels) = decode(&file);
    assert_eq!((width, height), (3, 2));
    assert_eq!(color, png::ColorType::Rgba);
    assert_eq!(depth, png::BitDepth::Eight);
    assert_eq!(pixels, rgba);
}

#[test]
fn png_of_the_same_pixels_is_the_same_file() {
    let rgba = [1u8, 2, 3, 4, 5, 6, 7, 8];
    assert_eq!(get_png_data(&rgba, 2, 1), get_png_data(&rgba, 2, 1));
    assert_ne!(get_png_data(&rgba, 2, 1), get_png_data(&rgba, 1, 2));
}

#[test]
fn png_refuses_an_image_without_pixels() {
    assert_eq!(get_png_data(&[], 0, 2), Err(PipelineError::EncoderError));
    assert_eq!(get_png_data(&[], 2, 0), Err(PipelineError::EncoderError));
    assert_eq!(get_png_data(&[], 0, 0), Err(PipelineError::EncoderError));
}

#[test]
fn png_refuses_a_buffer_of_the_wrong_length() {
    assert_eq!(get_png_data(&[0u8; 15], 2, 2), Err(PipelineError::EncoderError));
    assert_eq!(get_png_data(&[0u8; 17], 2, 2), Err(PipelineError::EncoderError));
    assert_eq!(get_png_data(&[0u8; 12], 2, 2), Err(PipelineError::EncoderError));
    assert!(get_png_data(&[0u8; 16], 2, 2).is_ok());
}

#[test]
fn png_refuses_more_pixels_than_can_be_counted() {
    assert_eq!(
        get_png_data(&[0u8; 16], u32::MAX, u32::MAX),
        Err(PipelineError::EncoderError)
    );
}

#[test]
fn png_outcome_keeps_the_file_and_renames_the_error() {
    assert_eq!(png_outcome(Ok(vec![1, 2, 3])), Ok(vec![1, 2, 3]));
    assert_eq!(
        png_outcome(Err(png::EncodingError::LimitsExceeded)),
        Err(PipelineError::EncoderError)
    );
}
