//! Frames of a video on their way to becoming images.
//!
//! A [`frame::ScalableFrame`] starts out holding a decoded frame and ends up
//! holding an encoded image: a 24-bit bitmap, or a PNG file where
//! transparency is wanted and the source has it. The tone-map filter and the
//! scaler work outside this crate; the frame says what it needs of them and
//! takes what they made. Turning the scaled plane ([`rotation`]) and writing
//! the bitmap ([`bitmap`]) happen here.

pub mod bitmap;
pub mod errors;
pub mod frame;
pub mod layout;
pub mod pipeline;
pub mod png_encoder;
pub mod rotation;
pub mod video;
