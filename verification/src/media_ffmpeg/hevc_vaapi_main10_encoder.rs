//! The VAAPI encoder of 10-bit HEVC. FFmpeg's scaler makes P010 of the BGRA pictures
//! that it takes.

use vstd::prelude::*;
use crate::media_core::EncodeError;
use crate::media_ffmpeg::encoder_core::{
    picture_of, says_closed, says_refused, EncoderCore, Picture,
};
use crate::media_ffmpeg::encoding::{Encoding, EncodingView};
use crate::media_ffmpeg::options::{options_of, EncoderKind, EncoderTunables};
use crate::media_ffmpeg::setup::{encoder_plan, node_text, Setup, SetupView};

verus! {

/// What the caller asks of the encoder.
#[derive(Debug)]
pub struct HevcVaapiMain10FfmpegEncoderConfig {
    pub width: u32,
    pub height: u32,
    pub fps: u32,
    pub initial_bitrate_bps: u32,
    pub gop_size: u32,
    /// The device file; the default one if there is none.
    pub render_node: Option<String>,
}

impl Default for HevcVaapiMain10FfmpegEncoderConfig {
    fn default() -> (r: Self)
        ensures
            r == (HevcVaapiMain10FfmpegEncoderConfig {
                width: 1920,
                height: 1080,
                fps: 60,
                initial_bitrate_bps: 8_000_000,
                gop_size: 60,
                render_node: None,
            }),
    {
        HevcVaapiMain10FfmpegEncoderConfig {
            width: 1920,
            height: 1080,
            fps: 60,
            initial_bitrate_bps: 8_000_000,
            gop_size: 60,
            render_node: None,
        }
    }
}

impl HevcVaapiMain10FfmpegEncoderConfig {
    /// The part of the configuration that the codec is set to.
    pub open spec fn asked(self) -> EncoderTunables {
        EncoderTunables {
            bitrate_bps: self.initial_bitrate_bps,
            fps: self.fps,
            width: self.width,
            height: self.height,
            gop_size: self.gop_size,
        }
    }

    /// The part of the configuration that the codec is set to.
    pub fn tunables(&self) -> (r: EncoderTunables)
        ensures
            r == self.asked(),
    {
        EncoderTunables {
            bitrate_bps: self.initial_bitrate_bps,
            fps: self.fps,
            width: self.width,
            height: self.height,
            gop_size: self.gop_size,
        }
    }
}

/// The encoder, but for what FFmpeg holds of it.
#[derive(Debug)]
pub struct HevcVaapiMain10FfmpegEncoder {
    pub core: EncoderCore,
}

/// What the scaler is handed: the bytes of a row, and how many rows there are.
#[derive(Debug, Clone, Copy, PartialEq, Eq, Structural)]
pub struct ScaleJob {
    pub src_stride: i32,
    pub rows: i32,
}

impl HevcVaapiMain10FfmpegEncoder {
    /// The calls that set the encoder up, and the encoder that is there once they
    /// have been made; its set-up is announced.
    pub fn new(cfg: HevcVaapiMain10FfmpegEncoderConfig) -> (r: (Setup, Self))
        ensures
            r.0.wf(),
            r.0@ == SetupView::start(
                encoder_plan(EncoderKind::VaapiMain10, cfg.width, cfg.height),
                options_of(EncoderKind::VaapiMain10, cfg.gop_size),
                node_text(cfg.render_node),
                true,
            ),
            r.1.core == (EncoderCore {
                kind: EncoderKind::VaapiMain10,
                tunables: cfg.asked(),
                seq: 0,
                closed: false,
                first_frame_logged: false,
                last_bitrate_warn_secs: 0,
            }),
    {
        let t: EncoderTunables = cfg.tunables();
        let setup: Setup = Setup::encoder(EncoderKind::VaapiMain10, &t, cfg.render_node, true);
        (setup, Self { core: EncoderCore::new(EncoderKind::VaapiMain10, t) })
    }

    /// A picture without row padding enters the encoder: it is to be scaled into the
    /// frame in memory, and goes on its way from there. A closed encoder takes none.
    pub fn encode(
        &self,
        bgra: &[u8],
        width: u32,
        height: u32,
        force_idr: bool,
        ts_us: u64,
    ) -> (r: Result<(ScaleJob, Picture, Encoding), EncodeError>)
        requires
            !self.core.closed ==> width * 4 <= i32::MAX && height <= i32::MAX && width * 4 * height
                <= bgra@.len(),
            !self.core.closed ==> ts_us * self.core.tunables.fps <= i64::MAX,
        ensures
            match r {
                Ok(job) => {
                    &&& !self.core.closed
                    &&& job.0 == (ScaleJob { src_stride: (width * 4) as i32, rows: height as i32 })
                    &&& job.1 == picture_of(force_idr, ts_us, self.core.tunables.fps)
                    &&& job.2@ == EncodingView::start(self.core.kind)
                },
                Err(e) => self.core.closed && says_closed(e),
            },
    {
        match self.core.begin(force_idr, ts_us) {
            Ok(job) => Ok(
                (ScaleJob { src_stride: (width * 4) as i32, rows: height as i32 }, job.0, job.1),
            ),
            Err(e) => Err(e),
        }
    }

    /// What became of a change of the bitrate that FFmpeg answered with `code`: a
    /// refused one leaves the old bitrate.
    pub fn set_target_bitrate(&mut self, bps: u32, code: i32) -> (r: Result<(), EncodeError>)
        ensures
            match r {
                Ok(_) => code >= 0 && final(self).core == (EncoderCore {
                    tunables: EncoderTunables { bitrate_bps: bps, ..old(self).core.tunables },
                    ..old(self).core
                }),
                Err(e) => code < 0 && final(self).core == old(self).core && says_refused(
                    e,
                    bps,
                    code,
                ),
            },
    {
        self.core.set_target_bitrate(bps, code)
    }

    /// The name of the encoder in logs.
    pub fn backend_name(&self) -> (r: &'static str)
        ensures
            r@ == EncoderKind::VaapiMain10.backend_text(),
    {
        EncoderKind::VaapiMain10.backend_name()
    }
}

/// A new encoder is open, has coded nothing, and has what its configuration asks for.
pub proof fn law_a_new_encoder_is_as_asked(cfg: HevcVaapiMain10FfmpegEncoderConfig, r: (Setup, HevcVaapiMain10FfmpegEncoder))
    requires
        call_ensures(HevcVaapiMain10FfmpegEncoder::new, (cfg,), r),
    ensures
        r.1.core.kind is VaapiMain10,
        r.1.core.tunables.bitrate_bps == cfg.initial_bitrate_bps,
        r.1.core.tunables.fps == cfg.fps,
        r.1.core.tunables.gop_size == cfg.gop_size,
        (r.1.core.tunables.width, r.1.core.tunables.height) == (cfg.width, cfg.height),
        r.1.core.seq == 0,
        !r.1.core.closed,
        !r.1.core.first_frame_logged,
        r.0@.plan == encoder_plan(EncoderKind::VaapiMain10, cfg.width, cfg.height),
        r.0@.at == 0,
        r.0@.announce,
{
}

/// The scaler is handed the picture's own rows, four bytes to a pixel, all of them; a
/// closed encoder takes no picture.
pub proof fn law_the_scaler_gets_whole_rows(
    e: HevcVaapiMain10FfmpegEncoder,
    bgra: &[u8],
    width: u32,
    height: u32,
    force_idr: bool,
    ts_us: u64,
    r: Result<(ScaleJob, Picture, Encoding), EncodeError>,
)
    requires
        width * 4 <= i32::MAX,
        height <= i32::MAX,
        call_ensures(
            HevcVaapiMain10FfmpegEncoder::encode,
            (&e, bgra, width, height, force_idr, ts_us),
            r,
        ),
    ensures
        r is Ok <==> !e.core.closed,
        r matches Ok(job) ==> {
            &&& job.0.src_stride == 4 * width
            &&& job.0.rows == height
            &&& job.1 == picture_of(force_idr, ts_us, e.core.tunables.fps)
        },
{
}

} // verus!
