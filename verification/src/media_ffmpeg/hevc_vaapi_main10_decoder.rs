//! The VAAPI decoder of 10-bit HEVC.

use vstd::prelude::*;
use crate::media_ffmpeg::decoder_common::{packet_shell, shell_of, DrainCall, Draining, PacketShell};
use crate::media_ffmpeg::setup::{decoder_plan, node_text, DecoderKind, Setup, SetupView};

verus! {

#[derive(Debug)]
pub struct HevcVaapiMain10FfmpegDecoderConfig {
    pub width: u32,
    pub height: u32,
    /// The device file; the default one if there is none.
    pub render_node: Option<String>,
}

impl Default for HevcVaapiMain10FfmpegDecoderConfig {
    fn default() -> (r: Self)
        ensures
            r == (HevcVaapiMain10FfmpegDecoderConfig { width: 1920, height: 1080, render_node: None }),
    {
        HevcVaapiMain10FfmpegDecoderConfig { width: 1920, height: 1080, render_node: None }
    }
}

/// The decoder, but for what FFmpeg holds of it.
#[derive(Debug)]
pub struct HevcVaapiMain10FfmpegDecoder {
    pub width: u32,
    pub height: u32,
}

impl HevcVaapiMain10FfmpegDecoder {
    /// The calls that set the decoder up, and the decoder that is there once they
    /// have been made.
    pub fn new(cfg: HevcVaapiMain10FfmpegDecoderConfig) -> (r: (Setup, Self))
        ensures
            r.0.wf(),
            r.0@ == SetupView::start(
                decoder_plan(DecoderKind::VaapiMain10),
                seq![],
                node_text(cfg.render_node),
                true,
            ),
            r.1 == (HevcVaapiMain10FfmpegDecoder { width: cfg.width, height: cfg.height }),
    {
        let decoder: HevcVaapiMain10FfmpegDecoder = HevcVaapiMain10FfmpegDecoder { width: cfg.width, height: cfg.height };
        (Setup::decoder(DecoderKind::VaapiMain10, cfg.render_node), decoder)
    }

    /// The packet in which an access unit is sent; an empty one is not sent at all.
    pub fn feed_packet(&self, packet: &[u8], pts_us: u64) -> (r: Option<PacketShell>)
        ensures
            r == shell_of(packet@, pts_us),
    {
        packet_shell(packet, pts_us)
    }

    /// The calls that take one decoded picture.
    pub fn drain_frame(&self) -> (r: Draining)
        ensures
            r == (Draining { kind: DecoderKind::VaapiMain10, call: DrainCall::Receive }),
    {
        Draining::new(DecoderKind::VaapiMain10)
    }

    /// The name of the decoder in logs.
    pub fn backend_name(&self) -> (r: &'static str)
        ensures
            r@ == "ffmpeg-vaapi-hevc-main10"@,
    {
        "ffmpeg-vaapi-hevc-main10"
    }
}

} // verus!
