//! Trials of the hardware encoders: a small encoder is set up as any other and
//! dropped at once. A trial is not announced.

use vstd::prelude::*;
use crate::media_ffmpeg::hevc_nvenc_encoder::{
    HevcNvencFfmpegEncoder, HevcNvencFfmpegEncoderConfig,
};
use crate::media_ffmpeg::hevc_vaapi_encoder::{
    HevcVaapiFfmpegEncoder, HevcVaapiFfmpegEncoderConfig,
};
use crate::media_ffmpeg::options::{options_of, EncoderKind};
use crate::media_ffmpeg::setup::{encoder_plan, node_text, Setup, SetupView};

verus! {

pub const PROBE_WIDTH: u32 = 320;

pub const PROBE_HEIGHT: u32 = 180;

pub const PROBE_FPS: u32 = 30;

pub const PROBE_BITRATE_BPS: u32 = 1_000_000;

pub const PROBE_GOP_SIZE: u32 = 30;

/// The trial of the VAAPI encoder on the given device file.
pub fn probe_hevc_vaapi(render_node: Option<String>) -> (r: Setup)
    ensures
        r.wf(),
        r@ == SetupView::start(
            encoder_plan(EncoderKind::Vaapi, 320, 180),
            options_of(EncoderKind::Vaapi, 30),
            node_text(render_node),
            false,
        ),
{
    let cfg: HevcVaapiFfmpegEncoderConfig = HevcVaapiFfmpegEncoderConfig {
        width: PROBE_WIDTH,
        height: PROBE_HEIGHT,
        fps: PROBE_FPS,
        initial_bitrate_bps: PROBE_BITRATE_BPS,
        gop_size: PROBE_GOP_SIZE,
        render_node,
    };
    let (setup, _) = HevcVaapiFfmpegEncoder::new_inner(cfg, false);
    setup
}

/// The trial of the NVENC encoder.
pub fn probe_hevc_nvenc() -> (r: Setup)
    ensures
        r.wf(),
        r@ == SetupView::start(
            encoder_plan(EncoderKind::Nvenc, 320, 180),
            options_of(EncoderKind::Nvenc, 30),
            None,
            false,
        ),
{
    let cfg: HevcNvencFfmpegEncoderConfig = HevcNvencFfmpegEncoderConfig {
        width: PROBE_WIDTH,
        height: PROBE_HEIGHT,
        fps: PROBE_FPS,
        initial_bitrate_bps: PROBE_BITRATE_BPS,
        gop_size: PROBE_GOP_SIZE,
        cuda_device_index: None,
    };
    let (setup, _) = HevcNvencFfmpegEncoder::new_inner(cfg, false);
    setup
}

} // verus!
