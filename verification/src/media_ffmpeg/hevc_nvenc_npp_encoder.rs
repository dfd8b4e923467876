//! The NVENC encoder of 8-bit HEVC that takes BGRA pictures and converts them on the
//! device.

use vstd::prelude::*;
use crate::media_core::EncodeError;
use crate::media_ffmpeg::encoder_core::{
    closed_error, picture_of, says_closed, says_refused, EncoderCore, Picture,
};
use crate::media_ffmpeg::encoding::{Encoding, EncodingView};
use crate::media_ffmpeg::error::{reported_as, Failure, FfmpegError};
use crate::media_ffmpeg::options::{options_of, EncoderKind, EncoderTunables};
use crate::media_ffmpeg::setup::{encoder_plan, scratch_fits, Setup, SetupView};
use crate::media_linux::frame::BgraFrame;
use crate::text::{decimal, push_decimal};

verus! {

/// What the caller asks of the encoder.
#[derive(Debug)]
pub struct HevcNvencNppFfmpegEncoderConfig {
    pub width: u32,
    pub height: u32,
    pub fps: u32,
    pub initial_bitrate_bps: u32,
    pub gop_size: u32,
    /// The CUDA device. The default one is taken whatever it says.
    pub cuda_device_index: Option<u32>,
}

impl Default for HevcNvencNppFfmpegEncoderConfig {
    fn default() -> (r: Self)
        ensures
            r == (HevcNvencNppFfmpegEncoderConfig {
                width: 1920,
                height: 1080,
                fps: 60,
                initial_bitrate_bps: 8_000_000,
                gop_size: 60,
                cuda_device_index: None,
            }),
    {
        HevcNvencNppFfmpegEncoderConfig {
            width: 1920,
            height: 1080,
            fps: 60,
            initial_bitrate_bps: 8_000_000,
            gop_size: 60,
            cuda_device_index: None,
        }
    }
}

impl HevcNvencNppFfmpegEncoderConfig {
    /// The part of the configuration that the codec is set to.
    pub open spec fn asked(self) -> EncoderTunables {
        EncoderTunables {
            bitrate_bps: self.initial_bitrate_bps,
            fps: self.fps,
            width: self.width,
            height: self.height,
            gop_size: self.gop_size,
        }
    }

    /// The part of the configuration that the codec is set to.
    pub fn tunables(&self) -> (r: EncoderTunables)
        ensures
            r == self.asked(),
    {
        EncoderTunables {
            bitrate_bps: self.initial_bitrate_bps,
            fps: self.fps,
            width: self.width,
            height: self.height,
            gop_size: self.gop_size,
        }
    }
}

/// The encoder, but for what FFmpeg and CUDA hold of it.
#[derive(Debug)]
pub struct HevcNvencNppFfmpegEncoder {
    pub core: EncoderCore,
}

/// What the conversion is handed: the bytes of a BGRA row, how many rows there are,
/// and the bytes of a row of each scratch plane.
#[derive(Debug, Clone, Copy, PartialEq, Eq, Structural)]
pub struct ConvertJob {
    pub row_bytes: usize,
    pub rows: usize,
    pub luma_step: u32,
    pub chroma_step: u32,
}

/// The text for a picture of another size than the encoder's.
pub open spec fn size_mismatch(width: u32, height: u32, t: EncoderTunables) -> Seq<char> {
    "BGRA frame size ("@ + decimal(width as nat) + "x"@ + decimal(height as nat)
        + ") does not match encoder ("@ + decimal(t.width as nat) + "x"@ + decimal(t.height as nat)
        + ")"@
}

/// The failure of a picture with too few bytes.
pub open spec fn too_small(len: nat, t: EncoderTunables) -> Failure {
    Failure::HwFrames(
        "bgra slice too small: "@ + decimal(len) + " < expected "@ + decimal(
            (t.width * t.height * 4) as nat,
        ),
    )
}

impl HevcNvencNppFfmpegEncoder {
    /// The calls that set the encoder up, and the encoder that is there once they
    /// have been made; its set-up is announced.
    pub fn new(cfg: HevcNvencNppFfmpegEncoderConfig) -> (r: (Setup, Self))
        requires
            scratch_fits(EncoderKind::NvencNpp, cfg.width, cfg.height),
        ensures
            r.0.wf(),
            r.0@ == SetupView::start(
                encoder_plan(EncoderKind::NvencNpp, cfg.width, cfg.height),
                options_of(EncoderKind::NvencNpp, cfg.gop_size),
                None,
                true,
            ),
            r.1.core == (EncoderCore {
                kind: EncoderKind::NvencNpp,
                tunables: cfg.asked(),
                seq: 0,
                closed: false,
                first_frame_logged: false,
                last_bitrate_warn_secs: 0,
            }),
    {
        let t: EncoderTunables = cfg.tunables();
        let setup: Setup = Setup::encoder(EncoderKind::NvencNpp, &t, None, true);
        (setup, Self { core: EncoderCore::new(EncoderKind::NvencNpp, t) })
    }

    /// The picture has the encoder's size and all its rows.
    pub open spec fn takes(self, frame: BgraFrame) -> bool {
        let t = self.core.tunables;
        frame.width == t.width && frame.height == t.height && frame.bgra@.len() >= t.width * t.height
            * 4
    }

    /// A picture enters the encoder: it is to be copied to the device and converted
    /// there, and goes on its way from there. A closed encoder takes none, and none
    /// takes a picture of another size than its own or with missing rows.
    pub fn encode(&self, frame: &BgraFrame, force_idr: bool, ts_us: u64) -> (r: Result<
        (ConvertJob, Picture, Encoding),
        EncodeError,
    >)
        requires
            scratch_fits(
                EncoderKind::NvencNpp,
                self.core.tunables.width,
                self.core.tunables.height,
            ),
            !self.core.closed && self.takes(*frame) ==> ts_us * self.core.tunables.fps <= i64::MAX,
        ensures
            ({
                let t = self.core.tunables;
                if self.core.closed {
                    r matches Err(e) && says_closed(e)
                } else if frame.width != t.width || frame.height != t.height {
                    r matches Err(EncodeError::Backend(text)) && text@ == size_mismatch(
                        frame.width,
                        frame.height,
                        t,
                    )
                } else if frame.bgra@.len() < t.width * t.height * 4 {
                    r matches Err(e) && reported_as(too_small(frame.bgra@.len(), t), e)
                } else {
                    r matches Ok(job) && job.0 == (ConvertJob {
                        row_bytes: (t.width * 4) as usize,
                        rows: t.height as usize,
                        luma_step: t.width,
                        chroma_step: t.width / 2,
                    }) && job.1 == picture_of(force_idr, ts_us, t.fps) && job.2@
                        == EncodingView::start(self.core.kind)
                }
            }),
    {
        let width: u32 = self.core.tunables.width;
        let height: u32 = self.core.tunables.height;
        if self.core.closed {
            return Err(closed_error());
        }
        if frame.width != width || frame.height != height {
            let mut text: String = String::from_str("BGRA frame size (");
            push_decimal(&mut text, frame.width as u64);
            text.append("x");
            push_decimal(&mut text, frame.height as u64);
            text.append(") does not match encoder (");
            push_decimal(&mut text, width as u64);
            text.append("x");
            push_decimal(&mut text, height as u64);
            text.append(")");
            return Err(EncodeError::Backend(text));
        }
        proof {
            assert(width * height * 4 == width * 4 * height) by (nonlinear_arith);
            assert(0 <= width * 4 * height) by (nonlinear_arith)
                requires
                    0 <= width,
                    0 <= height,
            ;
        }
        let row_bytes: usize = width as usize * 4;
        let rows: usize = height as usize;
        let expected: usize = row_bytes * rows;
        if frame.bgra.len() < expected {
            let mut text: String = String::from_str("bgra slice too small: ");
            push_decimal(&mut text, frame.bgra.len() as u64);
            text.append(" < expected ");
            push_decimal(&mut text, expected as u64);
            return Err(FfmpegError::HwFrames(text).to_encode_error());
        }
        match self.core.begin(force_idr, ts_us) {
            Ok(job) => Ok(
                (
                    ConvertJob { row_bytes, rows, luma_step: width, chroma_step: width / 2 },
                    job.0,
                    job.1,
                ),
            ),
            Err(e) => Err(e),
        }
    }

    /// What became of a change of the bitrate that FFmpeg answered with `code`: a
    /// refused one leaves the old bitrate.
    pub fn set_target_bitrate(&mut self, bps: u32, code: i32) -> (r: Result<(), EncodeError>)
        ensures
            match r {
                Ok(_) => code >= 0 && final(self).core == (EncoderCore {
                    tunables: EncoderTunables { bitrate_bps: bps, ..old(self).core.tunables },
                    ..old(self).core
                }),
                Err(e) => code < 0 && final(self).core == old(self).core && says_refused(
                    e,
                    bps,
                    code,
                ),
            },
    {
        self.core.set_target_bitrate(bps, code)
    }

    /// The name of the encoder in logs.
    pub fn backend_name(&self) -> (r: &'static str)
        ensures
            r@ == EncoderKind::NvencNpp.backend_text(),
    {
        EncoderKind::NvencNpp.backend_name()
    }
}

/// A picture that is converted has four bytes to a pixel, rows of the encoder's width and
/// as many as its height; the scratch planes have one byte to a pixel, and one to two for
/// chroma. A closed encoder takes no picture, and none takes one of another size or with
/// missing rows.
pub proof fn law_converted_pictures_have_whole_rows(
    e: HevcNvencNppFfmpegEncoder,
    frame: BgraFrame,
    force_idr: bool,
    ts_us: u64,
    r: Result<(ConvertJob, Picture, Encoding), EncodeError>,
)
    requires
        scratch_fits(EncoderKind::NvencNpp, e.core.tunables.width, e.core.tunables.height),
        call_ensures(HevcNvencNppFfmpegEncoder::encode, (&e, &frame, force_idr, ts_us), r),
    ensures
        ({
            let t = e.core.tunables;
            &&& r is Ok <==> !e.core.closed && (frame.width, frame.height) == (t.width, t.height)
                && frame.bgra@.len() >= 4 * t.width * t.height
            &&& r matches Ok(job) ==> {
                &&& job.0.row_bytes == 4 * t.width
                &&& job.0.rows == t.height
                &&& job.0.luma_step == t.width
                &&& 2 * job.0.chroma_step <= t.width <= 2 * job.0.chroma_step + 1
                &&& job.1 == picture_of(force_idr, ts_us, t.fps)
            }
        }),
{
    let t = e.core.tunables;
    assert(4 * t.width * t.height == t.width * t.height * 4) by (nonlinear_arith);
    assert(0 <= t.width * t.height) by (nonlinear_arith)
        requires
            0 <= t.width,
            0 <= t.height,
    ;
    if t.height > 0 {
        assert(t.width <= t.width * t.height) by (nonlinear_arith)
            requires
                t.height >= 1,
                t.width >= 0,
        ;
    }
}

/// A new encoder is open, has coded nothing, and has what its configuration asks for.
pub proof fn law_a_new_encoder_is_as_asked(cfg: HevcNvencNppFfmpegEncoderConfig, r: (Setup, HevcNvencNppFfmpegEncoder))
    requires
        scratch_fits(EncoderKind::NvencNpp, cfg.width, cfg.height),
        call_ensures(HevcNvencNppFfmpegEncoder::new, (cfg,), r),
    ensures
        r.1.core.kind is NvencNpp,
        r.1.core.tunables.bitrate_bps == cfg.initial_bitrate_bps,
        r.1.core.tunables.fps == cfg.fps,
        r.1.core.tunables.gop_size == cfg.gop_size,
        (r.1.core.tunables.width, r.1.core.tunables.height) == (cfg.width, cfg.height),
        r.1.core.seq == 0,
        !r.1.core.closed,
        !r.1.core.first_frame_logged,
        r.0@.plan == encoder_plan(EncoderKind::NvencNpp, cfg.width, cfg.height),
        r.0@.at == 0,
        r.0@.announce,
{
}

} // verus!
