//! A decoded video frame as the pipeline sees it: the bytes of its planes,
//! the name of its pixel format and the pitch of each plane.

use vstd::prelude::*;

verus! {

/// The pixel format of a decoded frame. The formats that carry an alpha
/// plane are named one by one; every other format goes by its name.
#[derive(Clone, Debug, PartialEq, Eq)]
pub enum PixelFormat {
    YUVA420P,
    YUVA444P10LE,
    YUVA444P12LE,
    Other(String),
}

impl PixelFormat {
    /// Whether frames of this format carry transparency.
    pub open spec fn has_alpha(&self) -> bool {
        !(self is Other)
    }

    /// The name under which diagnostics speak of the format.
    pub open spec fn name_text(&self) -> Seq<char> {
        match self {
            PixelFormat::YUVA420P => "YUVA420P"@,
            PixelFormat::YUVA444P10LE => "YUVA444P10LE"@,
            PixelFormat::YUVA444P12LE => "YUVA444P12LE"@,
            PixelFormat::Other(name) => name@,
        }
    }

    /// Whether frames of this format carry transparency.
    pub fn is_transparent(&self) -> (r: bool)
        ensures
            r == self.has_alpha(),
    {
        match self {
            PixelFormat::Other(_) => false,
            _ => true,
        }
    }

    /// The name under which diagnostics speak of the format.
    pub fn name(&self) -> (r: String)
        ensures
            r@ == self.name_text(),
    {
        match self {
            PixelFormat::YUVA420P => String::from_str("YUVA420P"),
            PixelFormat::YUVA444P10LE => String::from_str("YUVA444P10LE"),
            PixelFormat::YUVA444P12LE => String::from_str("YUVA444P12LE"),
            PixelFormat::Other(name) => name.clone(),
        }
    }

    /// A second value of the same format.
    pub fn duplicate(&self) -> (r: PixelFormat)
        ensures
            r == *self,
    {
        match self {
            PixelFormat::YUVA420P => PixelFormat::YUVA420P,
            PixelFormat::YUVA444P10LE => PixelFormat::YUVA444P10LE,
            PixelFormat::YUVA444P12LE => PixelFormat::YUVA444P12LE,
            PixelFormat::Other(name) => PixelFormat::Other(name.clone()),
        }
    }
}

/// The tone-map filter that belongs to a frame. The pipeline hands the
/// handle to whoever builds and runs the filter and reads nothing from it.
#[derive(Clone, Copy, Debug, PartialEq, Eq, Structural)]
pub struct FilterGraph {
    pub handle: u64,
}

/// A decoded frame: one byte buffer per plane, the pixel format, and for
/// each of up to eight planes the distance in bytes between two rows.
#[derive(Clone, Debug, PartialEq, Eq)]
pub struct VideoFrame {
    pub planes: Vec<Vec<u8>>,
    pub format: PixelFormat,
    pub linesize: [i32; 8],
}

/// The bytes of each plane.
pub open spec fn plane_bytes(planes: Vec<Vec<u8>>) -> Seq<Seq<u8>> {
    Seq::new(planes@.len(), |i: int| planes@[i]@)
}

/// Copies every plane, byte for byte, into buffers of their own.
pub fn copy_planes(planes: &Vec<Vec<u8>>) -> (copies: Vec<Vec<u8>>)
    ensures
        plane_bytes(copies) == plane_bytes(*planes),
{
    let amount_of_planes: usize = planes.len();
    let mut copies: Vec<Vec<u8>> = Vec::with_capacity(amount_of_planes);
    let mut i: usize = 0;
    while i < amount_of_planes
        invariant
            amount_of_planes == planes@.len(),
            i <= amount_of_planes,
            copies@.len() == i,
            forall|j: int| 0 <= j < i ==> copies@[j]@ == planes@[j]@,
        decreases amount_of_planes - i,
    {
        copies.push(planes[i].clone());
        i += 1;
    }
    copies
}

} // verus!
