//! What all FFmpeg encoders have in common once they are set up.

use vstd::prelude::*;
use crate::media_core::{EncodeError, EncodedPacket};
use crate::media_ffmpeg::encoding::{Encoding, EncodingView};
use crate::media_ffmpeg::options::{EncoderKind, EncoderTunables};
use crate::text::{decimal, push_decimal, push_signed, signed_decimal};

verus! {

/// FFmpeg's number of a picture that is coded by itself.
pub const AV_PICTURE_TYPE_I: i32 = 1;

/// The least number of seconds between two warnings of a bitrate that was refused.
pub const WARN_EVERY_SECS: u64 = 60;

/// What an encoder remembers between frames.
#[derive(Debug, Clone, Copy, PartialEq, Eq, Structural)]
pub struct EncoderCore {
    pub kind: EncoderKind,
    pub tunables: EncoderTunables,
    pub seq: u64,
    pub closed: bool,
    pub first_frame_logged: bool,
    pub last_bitrate_warn_secs: u64,
}

/// The fields of a frame that are set before it is sent.
#[derive(Debug, Clone, Copy, PartialEq, Eq, Structural)]
pub struct Picture {
    pub pict_type: i32,
    pub key_frame: i32,
    /// The time in frames.
    pub pts: i64,
}

/// A frame as it is sent: coded by itself if that was asked for, its time cut to
/// whole frames.
pub open spec fn picture_of(force_idr: bool, ts_us: u64, fps: u32) -> Picture {
    Picture {
        pict_type: if force_idr {
            AV_PICTURE_TYPE_I
        } else {
            0
        },
        key_frame: if force_idr {
            1
        } else {
            0
        },
        pts: (ts_us * fps / 1_000_000) as i64,
    }
}

/// The error of an encoder that takes no more frames.
pub open spec fn says_closed(e: EncodeError) -> bool {
    e matches EncodeError::Backend(text) && text@ == "encoder closed"@
}

/// The error of a bitrate that FFmpeg refused.
pub open spec fn says_refused(e: EncodeError, bps: u32, code: i32) -> bool {
    e matches EncodeError::Backend(text) && text@ == "av_opt_set_int(b="@ + decimal(bps as nat)
        + ") returned "@ + signed_decimal(code as int)
}

/// A warning is due if the last one is long enough ago.
pub open spec fn warning_due(last_secs: int, now_secs: int) -> bool {
    now_secs - last_secs >= WARN_EVERY_SECS
}

impl EncoderKind {
    /// The name of the encoder in logs.
    pub open spec fn backend_text(self) -> Seq<char> {
        match self {
            EncoderKind::Vaapi => "ffmpeg-vaapi-hevc"@,
            EncoderKind::VaapiMain10 => "ffmpeg-vaapi-hevc-main10"@,
            EncoderKind::Nvenc => "ffmpeg-nvenc-hevc"@,
            EncoderKind::NvencNpp => "ffmpeg-nvenc-hevc-npp"@,
        }
    }

    /// The name of the encoder in logs.
    pub fn backend_name(self) -> (r: &'static str)
        ensures
            r@ == self.backend_text(),
    {
        match self {
            EncoderKind::Vaapi => "ffmpeg-vaapi-hevc",
            EncoderKind::VaapiMain10 => "ffmpeg-vaapi-hevc-main10",
            EncoderKind::Nvenc => "ffmpeg-nvenc-hevc",
            EncoderKind::NvencNpp => "ffmpeg-nvenc-hevc-npp",
        }
    }
}

/// The error of an encoder that takes nothing any more.
pub fn closed_error() -> (r: EncodeError)
    ensures
        says_closed(r),
{
    EncodeError::Backend(String::from_str("encoder closed"))
}

impl EncoderCore {
    /// An encoder that has coded nothing yet.
    pub fn new(kind: EncoderKind, tunables: EncoderTunables) -> (r: Self)
        ensures
            r == (EncoderCore {
                kind,
                tunables,
                seq: 0,
                closed: false,
                first_frame_logged: false,
                last_bitrate_warn_secs: 0,
            }),
    {
        EncoderCore {
            kind,
            tunables,
            seq: 0,
            closed: false,
            first_frame_logged: false,
            last_bitrate_warn_secs: 0,
        }
    }

    /// A frame enters the encoder, unless it is closed.
    pub fn begin(&self, force_idr: bool, ts_us: u64) -> (r: Result<(Picture, Encoding), EncodeError>)
        requires
            !self.closed ==> ts_us * self.tunables.fps <= i64::MAX,
        ensures
            match r {
                Ok(job) => !self.closed && job.0 == picture_of(force_idr, ts_us, self.tunables.fps)
                    && job.1@ == EncodingView::start(self.kind),
                Err(e) => self.closed && says_closed(e),
            },
    {
        if self.closed {
            return Err(closed_error());
        }
        proof {
            assert(0 <= ts_us * self.tunables.fps) by (nonlinear_arith)
                requires
                    0 <= ts_us,
                    0 <= self.tunables.fps,
            ;
        }
        let pts: i64 = ((ts_us as i128 * self.tunables.fps as i128) / 1_000_000) as i64;
        let picture: Picture = Picture {
            pict_type: if force_idr {
                AV_PICTURE_TYPE_I
            } else {
                0
            },
            key_frame: if force_idr {
                1
            } else {
                0
            },
            pts,
        };
        Ok((picture, Encoding::new(self.kind)))
    }

    /// A frame has come out: the packet that the caller gets, and whether it is the
    /// first and so to be logged.
    pub fn finish(&mut self, nal_bytes: Vec<u8>, is_keyframe: bool, ts_us: u64) -> (r: (
        EncodedPacket,
        bool,
    ))
        requires
            old(self).seq < u64::MAX,
        ensures
            r.0 == (EncodedPacket { nal_bytes, is_keyframe, timestamp_us: ts_us }),
            r.1 == !old(self).first_frame_logged,
            *final(self) == (EncoderCore {
                seq: (old(self).seq + 1) as u64,
                first_frame_logged: true,
                ..*old(self)
            }),
    {
        let first: bool = !self.first_frame_logged;
        self.first_frame_logged = true;
        self.seq = self.seq + 1;
        (EncodedPacket { nal_bytes, is_keyframe, timestamp_us: ts_us }, first)
    }

    /// What became of a change of the bitrate that FFmpeg answered with `code`: a
    /// refused one leaves the old bitrate.
    pub fn set_target_bitrate(&mut self, bps: u32, code: i32) -> (r: Result<(), EncodeError>)
        ensures
            match r {
                Ok(_) => code >= 0 && *final(self) == (EncoderCore {
                    tunables: EncoderTunables { bitrate_bps: bps, ..old(self).tunables },
                    ..*old(self)
                }),
                Err(e) => code < 0 && *final(self) == *old(self) && says_refused(e, bps, code),
            },
    {
        if code < 0 {
            let mut text: String = String::from_str("av_opt_set_int(b=");
            push_decimal(&mut text, bps as u64);
            text.append(") returned ");
            push_signed(&mut text, code as i64);
            return Err(EncodeError::Backend(text));
        }
        self.tunables.bitrate_bps = bps;
        Ok(())
    }

    /// A warning is due now.
    pub open spec fn warns_at(self, now_secs: u64) -> bool {
        warning_due(self.last_bitrate_warn_secs as int, now_secs as int)
    }

    /// Whether a refused bitrate is to be warned of now; if so, the time is kept.
    pub fn maybe_warn_bitrate_failure(&mut self, now_secs: u64) -> (r: bool)
        ensures
            r == old(self).warns_at(now_secs),
            *final(self) == (EncoderCore {
                last_bitrate_warn_secs: if r {
                    now_secs
                } else {
                    old(self).last_bitrate_warn_secs
                },
                ..*old(self)
            }),
    {
        let due: bool = now_secs >= self.last_bitrate_warn_secs && now_secs
            - self.last_bitrate_warn_secs >= WARN_EVERY_SECS;
        if due {
            self.last_bitrate_warn_secs = now_secs;
        }
        due
    }

    /// A change of the bitrate as the pipeline makes it: a refusal is not an error
    /// there, but warned of now and then.
    pub fn try_target_bitrate(&mut self, bps: u32, code: i32, now_secs: u64) -> (r: Option<
        EncodeError,
    >)
        ensures
            r is Some <==> code < 0 && old(self).warns_at(now_secs),
            r matches Some(e) ==> says_refused(e, bps, code),
            *final(self) == (EncoderCore {
                tunables: EncoderTunables {
                    bitrate_bps: if code < 0 {
                        old(self).tunables.bitrate_bps
                    } else {
                        bps
                    },
                    ..old(self).tunables
                },
                last_bitrate_warn_secs: if r is Some {
                    now_secs
                } else {
                    old(self).last_bitrate_warn_secs
                },
                ..*old(self)
            }),
    {
        match self.set_target_bitrate(bps, code) {
            Ok(_) => None,
            Err(e) => if self.maybe_warn_bitrate_failure(now_secs) {
                Some(e)
            } else {
                None
            },
        }
    }
}

/// The times among the given ones at which refused bitrates are warned of, if the
/// last warning was at `last`.
pub open spec fn warned(last: int, times: Seq<u64>) -> Seq<u64>
    decreases times.len(),
{
    if times.len() == 0 {
        seq![]
    } else if warning_due(last, times[0] as int) {
        seq![times[0]] + warned(times[0] as int, times.drop_first())
    } else {
        warned(last, times.drop_first())
    }
}

/// Each time is long enough after the one before it, the first after `last`.
pub open spec fn spaced(last: int, times: Seq<u64>) -> bool {
    forall|i: int|
        0 <= i < times.len() ==> warning_due(
            if i == 0 {
                last
            } else {
                times[i - 1] as int
            },
            #[trigger] times[i] as int,
        )
}

/// However often a bitrate is refused, there is a minute at least between one
/// warning and the next.
pub proof fn law_warnings_are_a_minute_apart(last: int, times: Seq<u64>)
    ensures
        spaced(last, warned(last, times)),
    decreases times.len(),
{
    if times.len() > 0 {
        if warning_due(last, times[0] as int) {
            let rest = warned(times[0] as int, times.drop_first());
            law_warnings_are_a_minute_apart(times[0] as int, times.drop_first());
            let all = warned(last, times);
            assert forall|i: int| 0 <= i < all.len() implies warning_due(
                if i == 0 {
                    last
                } else {
                    all[i - 1] as int
                },
                #[trigger] all[i] as int,
            ) by {
                if i > 0 {
                    assert(all[i] == rest[i - 1]);
                    if i > 1 {
                        assert(all[i - 1] == rest[i - 2]);
                    }
                }
            }
        } else {
            law_warnings_are_a_minute_apart(last, times.drop_first());
        }
    }
}

/// A frame's time is counted in whole frames: the count is the largest whose frames end
/// no later than the frame's microseconds. It is marked as coded by itself (type one) and
/// as a keyframe exactly if that was asked for.
pub proof fn law_times_count_frames(force_idr: bool, ts_us: u64, fps: u32)
    requires
        ts_us * fps <= i64::MAX,
    ensures
        ({
            let p = picture_of(force_idr, ts_us, fps);
            &&& p.pts * 1_000_000 <= ts_us * fps < (p.pts + 1) * 1_000_000
            &&& force_idr <==> p.pict_type == 1
            &&& force_idr <==> p.key_frame == 1
            &&& !force_idr ==> p.pict_type == 0 && p.key_frame == 0
        }),
{
    assert(0 <= ts_us * fps) by (nonlinear_arith)
        requires
            0 <= ts_us,
            0 <= fps,
    ;
}

/// A refused bitrate is warned of exactly if sixty seconds have passed since the last
/// warning.
pub proof fn law_a_minute_makes_a_warning_due(last_secs: int, now_secs: int)
    ensures
        warning_due(last_secs, now_secs) <==> now_secs >= last_secs + 60,
{
}

/// An open encoder takes every frame, a closed one none; a frame that comes out is
/// delivered with its bytes, its time and whether it is a keyframe, counts as one more,
/// and is announced if it is the first.
pub proof fn law_frames_are_counted(
    core: &mut EncoderCore,
    force_idr: bool,
    ts_us: u64,
    began: Result<(Picture, Encoding), EncodeError>,
    nal_bytes: Vec<u8>,
    is_keyframe: bool,
    r: (EncodedPacket, bool),
)
    requires
        old(core).seq < u64::MAX,
        call_ensures(EncoderCore::begin, (old(core), force_idr, ts_us), began),
        call_ensures(EncoderCore::finish, (core, nal_bytes, is_keyframe, ts_us), r),
    ensures
        began is Ok <==> !old(core).closed,
        r.0.nal_bytes == nal_bytes,
        r.0.is_keyframe == is_keyframe,
        r.0.timestamp_us == ts_us,
        r.1 <==> !old(core).first_frame_logged,
        final(core).first_frame_logged,
        final(core).seq == old(core).seq + 1,
        final(core).tunables == old(core).tunables,
        final(core).closed == old(core).closed,
{
}

} // verus!
