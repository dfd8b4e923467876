//! What producers hand to the transport: encoded frames, failures and cursor
//! messages.

use vstd::prelude::*;

verus! {

/// A shared byte buffer of the `bytes` crate.
#[verifier::external_type_specification]
#[verifier::external_body]
pub struct ExBytes(bytes::Bytes);

/// The bytes that a buffer holds.
pub uninterp spec fn bytes_held(b: bytes::Bytes) -> Seq<u8>;

/// A buffer with the contents of a vector: `From<Vec<u8>>` of `bytes::Bytes`
/// takes the vector over and keeps its bytes.
#[verifier::external_body]
pub(crate) fn bytes_from_vec(v: Vec<u8>) -> (b: bytes::Bytes)
    ensures
        bytes_held(b) == v@,
{
    bytes::Bytes::from(v)
}

/// A vector with the contents of a buffer: `to_vec` of the slice that
/// `bytes::Bytes` dereferences to.
#[verifier::external_body]
pub(crate) fn bytes_to_vec(b: &bytes::Bytes) -> (v: Vec<u8>)
    ensures
        v@ == bytes_held(*b),
{
    b.to_vec()
}

/// A video codec on the wire.
#[derive(Debug, Clone, Copy, PartialEq, Eq, Structural)]
pub enum Codec {
    H264,
    H265,
}

/// One encoded access unit with what the viewer needs to know of it.
#[derive(Debug)]
pub struct EncodedFrame {
    pub seq: u64,
    pub timestamp_host_us: u64,
    pub is_keyframe: bool,
    pub nal_units: bytes::Bytes,
    pub width: u32,
    pub height: u32,
    pub codec: Codec,
}

/// Why a producer has no frame to give.
#[derive(Debug, Clone)]
pub enum ProducerError {
    Capture(String),
    Encode(String),
    DeviceLost { backend: String, reason: String },
    Other(String),
}

/// A cursor bitmap on the wire.
#[derive(Debug, Clone, PartialEq, Eq)]
pub struct WireCursorBitmap {
    pub width: u16,
    pub height: u16,
    pub bgra: Vec<u8>,
}

/// A message beside the video.
#[derive(Debug, Clone, PartialEq, Eq)]
pub enum ControlMessage {
    CursorUpdate {
        id: u32,
        position_x: i32,
        position_y: i32,
        hotspot_x: i32,
        hotspot_y: i32,
        bitmap: Option<WireCursorBitmap>,
    },
}

} // verus!
