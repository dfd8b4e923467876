//! What encoders and decoders of every platform share.

use vstd::prelude::*;

verus! {

/// An encoded access unit without transport metadata.
#[derive(Debug, Clone)]
pub struct EncodedPacket {
    pub nal_bytes: Vec<u8>,
    pub is_keyframe: bool,
    pub timestamp_us: u64,
}

#[derive(Debug, Clone)]
pub enum CaptureError {
    Backend(String),
}

#[derive(Debug, Clone)]
pub enum EncodeError {
    Backend(String),
    DeviceLost(String),
    FormatMismatch(String),
}

#[derive(Debug, Clone)]
pub enum DecodeError {
    Bitstream(String),
    Backend(String),
}

/// Mastering display and content light level, in the units of the HDR10 static
/// metadata: chromaticity in steps of 0.00002, luminance in steps of 0.0001.
#[derive(Debug, Clone, Copy, PartialEq, Eq)]
pub struct Hdr10Metadata {
    pub display_primaries: [(u16, u16); 3],
    pub white_point: (u16, u16),
    pub min_mastering_luminance: u32,
    pub max_mastering_luminance: u32,
    pub max_content_light_level: u16,
    pub max_frame_average_light_level: u16,
}

/// A decoded picture of 8-bit samples: luma, then U and V in turn. Chroma has half
/// as many rows as luma, rounded up.
#[derive(Debug, Clone)]
pub struct Nv12Frame {
    pub width: u32,
    pub height: u32,
    pub y: Vec<u8>,
    pub uv: Vec<u8>,
    pub stride_y: u32,
    pub stride_uv: u32,
    pub pts_us: u64,
}

/// A decoded picture of 10-bit samples, each in the high bits of a 16-bit word;
/// strides count words.
#[derive(Debug, Clone)]
pub struct Nv12Frame16 {
    pub width: u32,
    pub height: u32,
    pub y: Vec<u16>,
    pub uv: Vec<u16>,
    pub stride_y: u32,
    pub stride_uv: u32,
    pub pts_us: u64,
    pub hdr10: Option<Hdr10Metadata>,
}

} // verus!
