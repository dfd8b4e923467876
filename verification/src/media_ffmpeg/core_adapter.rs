//! The encoders as the pipeline uses them: a bitrate that FFmpeg refuses is no error
//! there, but warned of once a minute.

use vstd::prelude::*;
use crate::media_core::EncodeError;
use crate::media_ffmpeg::encoder_core::{says_refused, EncoderCore};
use crate::media_ffmpeg::hevc_nvenc_encoder::HevcNvencFfmpegEncoder;
use crate::media_ffmpeg::hevc_vaapi_encoder::HevcVaapiFfmpegEncoder;
use crate::media_ffmpeg::options::{EncoderKind, EncoderTunables};

verus! {

/// The encoder's state after FFmpeg answered a change of the bitrate with `code`.
pub open spec fn after_bitrate(
    core: EncoderCore,
    bps: u32,
    code: i32,
    now_secs: u64,
) -> EncoderCore {
    if code >= 0 {
        EncoderCore { tunables: EncoderTunables { bitrate_bps: bps, ..core.tunables }, ..core }
    } else if core.warns_at(now_secs) {
        EncoderCore { last_bitrate_warn_secs: now_secs, ..core }
    } else {
        core
    }
}

/// The VAAPI encoder in the pipeline.
#[derive(Debug)]
pub struct HevcVaapiFfmpegEncoderAdapter(pub HevcVaapiFfmpegEncoder);

impl HevcVaapiFfmpegEncoderAdapter {
    /// A change of the bitrate that FFmpeg answered with `code`; the error is what
    /// is to be warned of.
    pub fn set_target_bitrate(&mut self, bps: u32, code: i32, now_secs: u64) -> (r: Option<
        EncodeError,
    >)
        ensures
            final(self).0.core == after_bitrate(old(self).0.core, bps, code, now_secs),
            r is Some <==> code < 0 && old(self).0.core.warns_at(now_secs),
            r matches Some(e) ==> says_refused(e, bps, code),
    {
        self.0.core.try_target_bitrate(bps, code, now_secs)
    }

    /// The name of the encoder in logs.
    pub fn backend_name(&self) -> (r: &'static str)
        ensures
            r@ == EncoderKind::Vaapi.backend_text(),
    {
        self.0.backend_name()
    }
}

/// The NVENC encoder in the pipeline.
#[derive(Debug)]
pub struct HevcNvencFfmpegEncoderAdapter(pub HevcNvencFfmpegEncoder);

impl HevcNvencFfmpegEncoderAdapter {
    /// A change of the bitrate that FFmpeg answered with `code`; the error is what
    /// is to be warned of.
    pub fn set_target_bitrate(&mut self, bps: u32, code: i32, now_secs: u64) -> (r: Option<
        EncodeError,
    >)
        ensures
            final(self).0.core == after_bitrate(old(self).0.core, bps, code, now_secs),
            r is Some <==> code < 0 && old(self).0.core.warns_at(now_secs),
            r matches Some(e) ==> says_refused(e, bps, code),
    {
        self.0.core.try_target_bitrate(bps, code, now_secs)
    }

    /// The name of the encoder in logs.
    pub fn backend_name(&self) -> (r: &'static str)
        ensures
            r@ == EncoderKind::Nvenc.backend_text(),
    {
        self.0.backend_name()
    }
}

/// A bitrate that is taken becomes the encoder's, one that is refused leaves the old one;
/// nothing else changes but the time of the last warning.
pub proof fn law_only_a_taken_bitrate_counts(core: EncoderCore, bps: u32, code: i32, now_secs: u64)
    ensures
        ({
            let after = after_bitrate(core, bps, code, now_secs);
            &&& code >= 0 ==> after.tunables.bitrate_bps == bps
            &&& code < 0 ==> after.tunables == core.tunables
            &&& after.tunables.fps == core.tunables.fps
            &&& after.tunables.gop_size == core.tunables.gop_size
            &&& (after.tunables.width, after.tunables.height) == (
                core.tunables.width,
                core.tunables.height,
            )
            &&& (after.kind, after.seq, after.closed) == (core.kind, core.seq, core.closed)
            &&& code < 0 && now_secs >= core.last_bitrate_warn_secs + 60
                ==> after.last_bitrate_warn_secs == now_secs
            &&& code >= 0 || now_secs < core.last_bitrate_warn_secs + 60
                ==> after.last_bitrate_warn_secs == core.last_bitrate_warn_secs
        }),
{
}

} // verus!
