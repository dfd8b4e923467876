//! What a software H.264 encoder and decoder offer.

use vstd::prelude::*;
use crate::media_sw::error::MediaSwError;
use crate::media_sw::nv12::I420Frame;
use crate::protocol::EncodedFrame;

verus! {

/// A software H.264 encoder of I420 frames.
pub trait SwH264Encoder: Send {
    /// Frames that the encoder can be handed.
    open spec fn accepts(&self, i420: &I420Frame) -> bool {
        true
    }

    /// Encodes one frame into one access unit; `force_idr` asks for a keyframe
    /// with its parameter sets.
    fn encode(&mut self, i420: &I420Frame, force_idr: bool, timestamp_us: u64) -> (r: Result<
        EncodedFrame,
        MediaSwError,
    >)
        requires
            old(self).accepts(i420),
    ;

    /// Asks for another bitrate, in bits per second.
    fn set_target_bitrate(&mut self, bps: u32);

    /// The name of the encoder in logs.
    fn backend_name(&self) -> &'static str;
}

/// A software H.264 decoder.
pub trait SwH264Decoder: Send {
    /// Decodes one access unit. `Ok(None)` says that more input is needed.
    fn decode(&mut self, nal_units: &[u8]) -> Result<Option<I420Frame>, MediaSwError>;

    /// The name of the decoder in logs.
    fn backend_name(&self) -> &'static str;
}

} // verus!
