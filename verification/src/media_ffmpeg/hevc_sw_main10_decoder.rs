//! The software decoder of 10-bit HEVC.

use vstd::prelude::*;
use crate::media_ffmpeg::decoder_common::{packet_shell, shell_of, DrainCall, Draining, PacketShell};
use crate::media_ffmpeg::setup::{decoder_plan, DecoderKind, Setup, SetupView};

verus! {

#[derive(Debug)]
pub struct HevcSwMain10FfmpegDecoderConfig {
    /// The size that is expected before the stream has said its own.
    pub width: u32,
    pub height: u32,
}

impl Default for HevcSwMain10FfmpegDecoderConfig {
    fn default() -> (r: Self)
        ensures
            r == (HevcSwMain10FfmpegDecoderConfig { width: 1920, height: 1080 }),
    {
        HevcSwMain10FfmpegDecoderConfig { width: 1920, height: 1080 }
    }
}

/// The decoder, but for what FFmpeg holds of it.
#[derive(Debug)]
pub struct HevcSwMain10FfmpegDecoder {
    pub width: u32,
    pub height: u32,
}

impl HevcSwMain10FfmpegDecoder {
    /// The calls that set the decoder up, and the decoder that is there once they
    /// have been made.
    pub fn new(cfg: HevcSwMain10FfmpegDecoderConfig) -> (r: (Setup, Self))
        ensures
            r.0.wf(),
            r.0@ == SetupView::start(
                decoder_plan(DecoderKind::SwMain10),
                seq![],
                None,
                true,
            ),
            r.1 == (HevcSwMain10FfmpegDecoder { width: cfg.width, height: cfg.height }),
    {
        let decoder: HevcSwMain10FfmpegDecoder = HevcSwMain10FfmpegDecoder { width: cfg.width, height: cfg.height };
        (Setup::decoder(DecoderKind::SwMain10, None), decoder)
    }

    /// The packet in which an access unit is sent; an empty one is not sent at all.
    pub fn feed_packet(&self, packet: &[u8], pts_us: u64) -> (r: Option<PacketShell>)
        ensures
            r == shell_of(packet@, pts_us),
    {
        packet_shell(packet, pts_us)
    }

    /// The calls that take one decoded picture.
    pub fn drain_frame(&self) -> (r: Draining)
        ensures
            r == (Draining { kind: DecoderKind::SwMain10, call: DrainCall::Receive }),
    {
        Draining::new(DecoderKind::SwMain10)
    }

    /// The name of the decoder in logs.
    pub fn backend_name(&self) -> (r: &'static str)
        ensures
            r@ == "ffmpeg-sw-hevc-main10"@,
    {
        "ffmpeg-sw-hevc-main10"
    }
}

} // verus!
