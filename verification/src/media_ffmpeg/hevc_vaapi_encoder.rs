//! The VAAPI encoder of 8-bit HEVC.

use vstd::prelude::*;
use crate::media_core::EncodeError;
use crate::media_ffmpeg::encoder_core::{
    picture_of, says_closed, says_refused, EncoderCore, Picture,
};
use crate::media_ffmpeg::encoding::{Encoding, EncodingView};
use crate::media_ffmpeg::options::{options_of, EncoderKind, EncoderTunables};
use crate::media_ffmpeg::planes::{
    chroma_written, i420_to_nv12_into, law_written_planes_keep_every_sample, luma_written,
    planes_fit,
};
use crate::media_ffmpeg::setup::{encoder_plan, node_text, Setup, SetupView};
use crate::media_sw::nv12::I420Frame;

verus! {

/// What the caller asks of the encoder.
#[derive(Debug)]
pub struct HevcVaapiFfmpegEncoderConfig {
    pub width: u32,
    pub height: u32,
    pub fps: u32,
    pub initial_bitrate_bps: u32,
    pub gop_size: u32,
    /// The device file; the default one if there is none.
    pub render_node: Option<String>,
}

impl Default for HevcVaapiFfmpegEncoderConfig {
    fn default() -> (r: Self)
        ensures
            r == (HevcVaapiFfmpegEncoderConfig {
                width: 1920,
                height: 1080,
                fps: 60,
                initial_bitrate_bps: 8_000_000,
                gop_size: 60,
                render_node: None,
            }),
    {
        HevcVaapiFfmpegEncoderConfig {
            width: 1920,
            height: 1080,
            fps: 60,
            initial_bitrate_bps: 8_000_000,
            gop_size: 60,
            render_node: None,
        }
    }
}

impl HevcVaapiFfmpegEncoderConfig {
    /// The part of the configuration that the codec is set to.
    pub open spec fn asked(self) -> EncoderTunables {
        EncoderTunables {
            bitrate_bps: self.initial_bitrate_bps,
            fps: self.fps,
            width: self.width,
            height: self.height,
            gop_size: self.gop_size,
        }
    }

    /// The part of the configuration that the codec is set to.
    pub fn tunables(&self) -> (r: EncoderTunables)
        ensures
            r == self.asked(),
    {
        EncoderTunables {
            bitrate_bps: self.initial_bitrate_bps,
            fps: self.fps,
            width: self.width,
            height: self.height,
            gop_size: self.gop_size,
        }
    }
}

/// The encoder, but for what FFmpeg holds of it.
#[derive(Debug)]
pub struct HevcVaapiFfmpegEncoder {
    pub core: EncoderCore,
}

impl HevcVaapiFfmpegEncoder {
    /// The calls that set the encoder up, and the encoder that is there once they
    /// have been made; its set-up is announced.
    pub fn new(cfg: HevcVaapiFfmpegEncoderConfig) -> (r: (Setup, Self))
        ensures
            r.0.wf(),
            r.0@ == SetupView::start(
                encoder_plan(EncoderKind::Vaapi, cfg.width, cfg.height),
                options_of(EncoderKind::Vaapi, cfg.gop_size),
                node_text(cfg.render_node),
                true,
            ),
            r.1.core == (EncoderCore {
                kind: EncoderKind::Vaapi,
                tunables: cfg.asked(),
                seq: 0,
                closed: false,
                first_frame_logged: false,
                last_bitrate_warn_secs: 0,
            }),
    {
        Self::new_inner(cfg, true)
    }

    /// As `new`, but the set-up is announced only if `emit_ready_event` says so.
    pub fn new_inner(cfg: HevcVaapiFfmpegEncoderConfig, emit_ready_event: bool) -> (r: (Setup, Self))
        ensures
            r.0.wf(),
            r.0@ == SetupView::start(
                encoder_plan(EncoderKind::Vaapi, cfg.width, cfg.height),
                options_of(EncoderKind::Vaapi, cfg.gop_size),
                node_text(cfg.render_node),
                emit_ready_event,
            ),
            r.1.core == (EncoderCore {
                kind: EncoderKind::Vaapi,
                tunables: cfg.asked(),
                seq: 0,
                closed: false,
                first_frame_logged: false,
                last_bitrate_warn_secs: 0,
            }),
    {
        let t: EncoderTunables = cfg.tunables();
        let setup: Setup = Setup::encoder(EncoderKind::Vaapi, &t, cfg.render_node, emit_ready_event);
        (setup, Self { core: EncoderCore::new(EncoderKind::Vaapi, t) })
    }

    /// A picture enters the encoder: it is written into the planes of the frame in
    /// memory, and goes on its way from there. A closed encoder takes none.
    pub fn encode(
        &self,
        frame: &I420Frame,
        y_dst: &mut [u8],
        y_stride: usize,
        uv_dst: &mut [u8],
        uv_stride: usize,
        force_idr: bool,
        ts_us: u64,
    ) -> (r: Result<(Picture, Encoding), EncodeError>)
        requires
            !self.core.closed ==> planes_fit(
                *frame,
                old(y_dst)@.len(),
                y_stride,
                old(uv_dst)@.len(),
                uv_stride,
            ),
            !self.core.closed ==> ts_us * self.core.tunables.fps <= i64::MAX,
        ensures
            match r {
                Ok(job) => {
                    &&& !self.core.closed
                    &&& final(y_dst)@ == luma_written(*frame, old(y_dst)@, y_stride as int)
                    &&& final(uv_dst)@ == chroma_written(*frame, old(uv_dst)@, uv_stride as int)
                    &&& job.0 == picture_of(force_idr, ts_us, self.core.tunables.fps)
                    &&& job.1@ == EncodingView::start(self.core.kind)
                },
                Err(e) => {
                    &&& self.core.closed
                    &&& final(y_dst)@ == old(y_dst)@
                    &&& final(uv_dst)@ == old(uv_dst)@
                    &&& says_closed(e)
                },
            },
    {
        let job: (Picture, Encoding) = match self.core.begin(force_idr, ts_us) {
            Ok(job) => job,
            Err(e) => {
                return Err(e);
            },
        };
        i420_to_nv12_into(frame, y_dst, y_stride, uv_dst, uv_stride);
        Ok(job)
    }

    /// What became of a change of the bitrate that FFmpeg answered with `code`: a
    /// refused one leaves the old bitrate.
    pub fn set_target_bitrate(&mut self, bps: u32, code: i32) -> (r: Result<(), EncodeError>)
        ensures
            match r {
                Ok(_) => code >= 0 && final(self).core == (EncoderCore {
                    tunables: EncoderTunables { bitrate_bps: bps, ..old(self).core.tunables },
                    ..old(self).core
                }),
                Err(e) => code < 0 && final(self).core == old(self).core && says_refused(
                    e,
                    bps,
                    code,
                ),
            },
    {
        self.core.set_target_bitrate(bps, code)
    }

    /// The name of the encoder in logs.
    pub fn backend_name(&self) -> (r: &'static str)
        ensures
            r@ == EncoderKind::Vaapi.backend_text(),
    {
        EncoderKind::Vaapi.backend_name()
    }
}

/// A picture that enters the encoder stands in the planes of its frame, every sample in
/// its place: luma at its column and row, U and V of a pixel side by side.
pub proof fn law_pictures_enter_the_encoder_whole(
    e: HevcVaapiFfmpegEncoder,
    frame: I420Frame,
    y_dst: &mut [u8],
    y_stride: usize,
    uv_dst: &mut [u8],
    uv_stride: usize,
    force_idr: bool,
    ts_us: u64,
    r: Result<(Picture, Encoding), EncodeError>,
    x: int,
    row: int,
)
    requires
        !e.core.closed,
        planes_fit(frame, old(y_dst)@.len(), y_stride, old(uv_dst)@.len(), uv_stride),
        call_ensures(
            HevcVaapiFfmpegEncoder::encode,
            (&e, &frame, y_dst, y_stride, uv_dst, uv_stride, force_idr, ts_us),
            r,
        ),
        0 <= x < frame.width,
        0 <= row < frame.height,
    ensures
        r is Ok,
        final(y_dst)@[row * y_stride + x] == frame.y@[row * frame.stride_y + x],
        x < frame.width / 2 && row < frame.height / 2 ==> {
            &&& final(uv_dst)@[row * uv_stride + 2 * x] == frame.u@[row * frame.stride_uv + x]
            &&& final(uv_dst)@[row * uv_stride + 2 * x + 1] == frame.v@[row * frame.stride_uv + x]
        },
        r matches Ok(job) ==> job.0 == picture_of(force_idr, ts_us, e.core.tunables.fps),
{
    law_written_planes_keep_every_sample(
        frame,
        old(y_dst)@,
        y_stride,
        old(uv_dst)@,
        uv_stride,
        x,
        row,
    );
}

/// A new encoder is open, has coded nothing, and has what its configuration asks for.
pub proof fn law_a_new_encoder_is_as_asked(cfg: HevcVaapiFfmpegEncoderConfig, r: (Setup, HevcVaapiFfmpegEncoder))
    requires
        call_ensures(HevcVaapiFfmpegEncoder::new, (cfg,), r),
    ensures
        r.1.core.kind is Vaapi,
        r.1.core.tunables.bitrate_bps == cfg.initial_bitrate_bps,
        r.1.core.tunables.fps == cfg.fps,
        r.1.core.tunables.gop_size == cfg.gop_size,
        (r.1.core.tunables.width, r.1.core.tunables.height) == (cfg.width, cfg.height),
        r.1.core.seq == 0,
        !r.1.core.closed,
        !r.1.core.first_frame_logged,
        r.0@.plan == encoder_plan(EncoderKind::Vaapi, cfg.width, cfg.height),
        r.0@.at == 0,
        r.0@.announce,
{
}

} // verus!
