//! H.264 encoding with OpenH264, set up for low-latency screen sharing.

use openh264::encoder::{
    BitRate, Complexity, Encoder, EncoderConfig, FrameRate, IntraFramePeriod, Profile,
    RateControlMode, SpsPpsStrategy, UsageType,
};
use vstd::prelude::*;
use crate::media_sw::error::MediaSwError;
use crate::media_sw::nv12::{I420Frame, Picture};
use crate::media_sw::traits::SwH264Encoder;
use crate::protocol::{bytes_from_vec, bytes_held, Codec, EncodedFrame};

verus! {

/// The encoder of the OpenH264 bindings.
#[verifier::external_type_specification]
#[verifier::external_body]
pub struct ExEncoder(openh264::encoder::Encoder);

/// What the encoder is opened with; the frame rate is in whole frames a second.
#[derive(Debug, Clone, Copy, PartialEq, Eq, Structural)]
pub struct Openh264EncoderConfig {
    pub width: u32,
    pub height: u32,
    pub target_bitrate_bps: u32,
    pub max_fps: u32,
}

impl Default for Openh264EncoderConfig {
    fn default() -> (r: Self)
        ensures
            r == (Openh264EncoderConfig {
                width: 1920,
                height: 1080,
                target_bitrate_bps: 30_000_000,
                max_fps: 60,
            }),
    {
        Openh264EncoderConfig {
            width: 1920,
            height: 1080,
            target_bitrate_bps: 30_000_000,
            max_fps: 60,
        }
    }
}

/// How a picture was coded.
#[derive(Debug, Clone, Copy, PartialEq, Eq, Structural)]
pub enum PictureKind {
    Invalid,
    Idr,
    Intra,
    Predicted,
    Skipped,
    Mixed,
}

/// One coded picture: how it was coded, and its bytes.
pub struct CodedPicture {
    pub kind: PictureKind,
    pub bytes: Vec<u8>,
}

/// The H.264 profile that is coded to.
#[derive(Debug, Clone, Copy, PartialEq, Eq, Structural)]
pub enum H264Profile {
    Baseline,
    Main,
}

/// What the encoder keeps to.
#[derive(Debug, Clone, Copy, PartialEq, Eq, Structural)]
pub enum RateControl {
    Quality,
    Bitrate,
}

/// How much the encoder tries for a smaller picture.
#[derive(Debug, Clone, Copy, PartialEq, Eq, Structural)]
pub enum Effort {
    Low,
    Medium,
    High,
}

/// What the pictures show.
#[derive(Debug, Clone, Copy, PartialEq, Eq, Structural)]
pub enum Content {
    Camera,
    Screen,
}

/// How the parameter sets of keyframes are numbered.
#[derive(Debug, Clone, Copy, PartialEq, Eq, Structural)]
pub enum ParameterSets {
    Constant,
    Listing,
}

/// What an encoder works to.
pub ghost struct EncoderSettings {
    pub profile: H264Profile,
    pub rate_control: RateControl,
    pub effort: Effort,
    pub content: Content,
    pub parameter_sets: ParameterSets,
    /// Frames from one keyframe to the next; none come by themselves at zero.
    pub intra_period: u32,
    pub threads: u16,
    pub max_fps: u32,
    pub bitrate_bps: u32,
    pub skip_frames: bool,
}

impl EncoderSettings {
    /// Made for sharing a screen with little delay: the profile that most decoders
    /// know, a steady bitrate, little effort, as many threads as the encoder sees fit,
    /// keyframes only on request and with their parameter sets, no frame left out.
    pub open spec fn for_sharing(self, cfg: Openh264EncoderConfig) -> bool {
        &&& self.profile == H264Profile::Baseline
        &&& self.rate_control == RateControl::Bitrate
        &&& self.effort == Effort::Low
        &&& self.content == Content::Screen
        &&& self.parameter_sets == ParameterSets::Listing
        &&& self.intra_period == 0
        &&& self.threads == 0
        &&& cfg.max_fps <= EXACT_FPS ==> self.max_fps == cfg.max_fps
        &&& self.bitrate_bps == cfg.target_bitrate_bps
        &&& !self.skip_frames
    }
}

/// The settings that an encoder holds.
pub uninterp spec fn encoder_settings(e: Encoder) -> EncoderSettings;

/// Whether asking for a keyframe can make an encoder of what it was before.
pub uninterp spec fn keyframe_forced(before: Encoder, after: Encoder) -> bool;

/// Whether an encoder, on some machine, can answer a picture of the given time so,
/// with the given bytes or with an error, and be left so.
pub uninterp spec fn may_code(
    before: Encoder,
    picture: Picture,
    millis: u64,
    answer: Result<(PictureKind, Seq<u8>), openh264::Error>,
    after: Encoder,
) -> bool;

/// An encoder that has been asked for a keyframe since its last picture.
pub open spec fn keyframe_asked(e: Encoder) -> bool {
    exists|before: Encoder| #[trigger] keyframe_forced(before, e)
}

/// Frame rates up to here are the same number in single precision.
pub const EXACT_FPS: u32 = 16_777_216;

/// Opens an encoder with `Encoder::with_api_config` and a configuration of the given
/// settings, which the encoder then holds; a frame rate that single precision cannot
/// hold is rounded. Whether it opens is up to OpenH264.
#[verifier::external_body]
fn open_encoder(
    profile: H264Profile,
    rate_control: RateControl,
    effort: Effort,
    content: Content,
    parameter_sets: ParameterSets,
    intra_period: u32,
    threads: u16,
    max_fps: u32,
    bitrate_bps: u32,
    skip_frames: bool,
) -> (r: Result<Encoder, openh264::Error>)
    ensures
        r matches Ok(e) ==> {
            &&& encoder_settings(e).profile == profile
            &&& encoder_settings(e).rate_control == rate_control
            &&& encoder_settings(e).effort == effort
            &&& encoder_settings(e).content == content
            &&& encoder_settings(e).parameter_sets == parameter_sets
            &&& encoder_settings(e).intra_period == intra_period
            &&& encoder_settings(e).threads == threads
            &&& max_fps <= EXACT_FPS ==> encoder_settings(e).max_fps == max_fps
            &&& encoder_settings(e).bitrate_bps == bitrate_bps
            &&& encoder_settings(e).skip_frames == skip_frames
        },
{
    let config = EncoderConfig::new()
        .profile(match profile { H264Profile::Baseline => Profile::Baseline, H264Profile::Main => Profile::Main })
        .rate_control_mode(match rate_control { RateControl::Quality => RateControlMode::Quality, RateControl::Bitrate => RateControlMode::Bitrate })
        .complexity(match effort { Effort::Low => Complexity::Low, Effort::Medium => Complexity::Medium, Effort::High => Complexity::High })
        .usage_type(match content { Content::Camera => UsageType::CameraVideoRealTime, Content::Screen => UsageType::ScreenContentRealTime })
        .sps_pps_strategy(match parameter_sets { ParameterSets::Constant => SpsPpsStrategy::ConstantId, ParameterSets::Listing => SpsPpsStrategy::SpsPpsListing })
        .intra_frame_period(IntraFramePeriod::from_num_frames(intra_period))
        .num_threads(threads)
        .max_frame_rate(FrameRate::from_hz(max_fps as _))
        .bitrate(BitRate::from_bps(bitrate_bps))
        .skip_frames(skip_frames);
    Encoder::with_api_config(openh264::OpenH264API::from_source(), config)
}

/// Asks with `Encoder::force_intra_frame` for a keyframe at the next picture; the
/// settings stay.
#[verifier::external_body]
fn force_keyframe(encoder: &mut Encoder)
    ensures
        keyframe_forced(*old(encoder), *final(encoder)),
        encoder_settings(*final(encoder)) == encoder_settings(*old(encoder)),
{
    encoder.force_intra_frame();
}

/// The strides of a frame fit in the native integers of OpenH264.
pub open spec fn native_strides(frame: I420Frame) -> bool {
    frame.stride_y <= i32::MAX && frame.stride_uv <= i32::MAX
}

/// The sizes that OpenH264 codes: at least a macroblock, at most 3840x2160 lying
/// or standing.
pub open spec fn codable_size(width: u32, height: u32) -> bool {
    &&& width >= 16 && height >= 16
    &&& width <= 3840 && height <= 3840
    &&& width <= 2160 || height <= 2160
}

/// Codes one picture with `Encoder::encode_at`. The call panics where the
/// planes do not match the dimensions and strides, or where the time does not
/// fit in a signed integer. Other sizes than OpenH264 codes are refused. What comes
/// back for the others rests on all that this encoder coded before and on the
/// machine's threads: it is one of this encoder's answers to this picture at this
/// time. After a keyframe was asked for, the picture is a keyframe or is skipped. The
/// settings stay.
#[verifier::external_body]
fn code_picture(encoder: &mut Encoder, frame: &I420Frame, millis: u64) -> (r: Result<
    CodedPicture,
    openh264::Error,
>)
    requires
        frame.wf(),
        native_strides(*frame),
        millis <= i64::MAX,
    ensures
        encoder_settings(*final(encoder)) == encoder_settings(*old(encoder)),
        !codable_size(frame.width, frame.height) ==> r is Err,
        may_code(*old(encoder), frame@, millis, answer_of(r), *final(encoder)),
        r matches Ok(p) ==> keyframe_asked(*old(encoder)) ==> answers_request(p.kind),
{
    let (y, uv) = (frame.stride_y as usize, frame.stride_uv as usize);
    let dims = (frame.width as usize, frame.height as usize);
    let planes = openh264::formats::YUVSlices::new((&frame.y, &frame.u, &frame.v), dims, (y, uv, uv));
    let coded = encoder.encode_at(&planes, openh264::Timestamp::from_millis(millis))?;
    let kind = match coded.frame_type() {
        openh264::encoder::FrameType::Invalid => PictureKind::Invalid,
        openh264::encoder::FrameType::IDR => PictureKind::Idr,
        openh264::encoder::FrameType::I => PictureKind::Intra,
        openh264::encoder::FrameType::P => PictureKind::Predicted,
        openh264::encoder::FrameType::Skip => PictureKind::Skipped,
        openh264::encoder::FrameType::IPMixed => PictureKind::Mixed,
    };
    Ok(CodedPicture { kind, bytes: coded.to_vec() })
}

/// An answer, its bytes as a sequence.
pub open spec fn answer_of(r: Result<CodedPicture, openh264::Error>) -> Result<
    (PictureKind, Seq<u8>),
    openh264::Error,
> {
    match r {
        Ok(p) => Ok((p.kind, p.bytes@)),
        Err(e) => Err(e),
    }
}

/// A picture that can be decoded without others.
pub open spec fn is_key(kind: PictureKind) -> bool {
    kind == PictureKind::Idr || kind == PictureKind::Intra
}

/// What a picture for which a keyframe was asked can be.
pub open spec fn answers_request(kind: PictureKind) -> bool {
    is_key(kind) || kind == PictureKind::Skipped
}

/// An encoder was handed a picture, after it was asked for a keyframe where `forced`
/// says so: its answer, and what was left of it.
pub open spec fn codes(
    before: Encoder,
    picture: Picture,
    timestamp_us: u64,
    forced: bool,
    answer: Result<(PictureKind, Seq<u8>), openh264::Error>,
    after: Encoder,
) -> bool {
    exists|start: Encoder|
        {
            &&& #[trigger] may_code(start, picture, timestamp_us / 1000, answer, after)
            &&& if forced {
                keyframe_forced(before, start)
            } else {
                start == before
            }
        }
}

/// The encoder answered with these bytes, which are marked as a keyframe if they are
/// one; `forced` says that a keyframe was asked for.
pub open spec fn coded_from(
    before: Encoder,
    bytes: Seq<u8>,
    is_keyframe: bool,
    picture: Picture,
    timestamp_us: u64,
    forced: bool,
    after: Encoder,
) -> bool {
    exists|kind: PictureKind|
        {
            &&& #[trigger] codes(before, picture, timestamp_us, forced, Ok((kind, bytes)), after)
            &&& is_keyframe == is_key(kind)
            &&& forced ==> answers_request(kind)
        }
}

/// The encoder answered with this error.
pub open spec fn refused_as(
    before: Encoder,
    picture: Picture,
    timestamp_us: u64,
    forced: bool,
    source: openh264::Error,
    after: Encoder,
) -> bool {
    codes(before, picture, timestamp_us, forced, Err(source), after)
}

/// Opening an encoder of the bindings for the configuration ended so.
pub closed spec fn opened_with(
    cfg: Openh264EncoderConfig,
    outcome: Result<Encoder, openh264::Error>,
) -> bool {
    call_ensures(
        open_encoder,
        (
            H264Profile::Baseline,
            RateControl::Bitrate,
            Effort::Low,
            Content::Screen,
            ParameterSets::Listing,
            0u32,
            0u16,
            cfg.max_fps,
            cfg.target_bitrate_bps,
            false,
        ),
        outcome,
    )
}

/// An H.264 encoder of frames of one size.
pub struct Openh264Encoder {
    inner: Encoder,
    cfg: Openh264EncoderConfig,
    seq: u64,
    pending_force_idr: bool,
}

impl Openh264Encoder {
    /// The configuration, with the bitrate last asked for.
    pub closed spec fn config(self) -> Openh264EncoderConfig {
        self.cfg
    }

    /// What the encoder inside works to; a later change of bitrate does not reach it.
    pub closed spec fn settings(self) -> EncoderSettings {
        encoder_settings(self.inner)
    }

    /// The number of the next frame.
    pub closed spec fn next_seq(self) -> u64 {
        self.seq
    }

    /// Whether the next frame is asked to be a keyframe in any case.
    pub closed spec fn keyframe_owed(self) -> bool {
        self.pending_force_idr
    }

    /// The frame has the encoder's size.
    pub open spec fn fits(self, frame: I420Frame) -> bool {
        frame.width == self.config().width && frame.height == self.config().height
    }

    /// The encoder of the bindings inside.
    pub closed spec fn inner(self) -> Encoder {
        self.inner
    }

    /// Nothing has been coded yet, and the first frame is asked to be a keyframe.
    pub open spec fn fresh(self, cfg: Openh264EncoderConfig, inner: Encoder) -> bool {
        &&& self.inner() == inner
        &&& self.settings() == encoder_settings(inner)
        &&& self.config() == cfg
        &&& self.next_seq() == 0
        &&& self.keyframe_owed()
    }

    /// What opening an encoder of the bindings leads to.
    pub open spec fn opened(
        cfg: Openh264EncoderConfig,
        outcome: Result<Encoder, openh264::Error>,
        r: Result<Self, MediaSwError>,
    ) -> bool {
        match outcome {
            Ok(inner) => r matches Ok(e) && e.fresh(cfg, inner),
            Err(e) => r matches Err(MediaSwError::OpenH264 { context, source }) && context@
                == "Encoder::with_api_config"@ && source == e,
        }
    }

    /// Takes over an encoder of the bindings, if it could be opened.
    pub fn from_opened(
        cfg: Openh264EncoderConfig,
        outcome: Result<Encoder, openh264::Error>,
    ) -> (r: Result<Self, MediaSwError>)
        ensures
            Self::opened(cfg, outcome, r),
    {
        match outcome {
            Ok(inner) => Ok(Openh264Encoder { inner, cfg, seq: 0, pending_force_idr: true }),
            Err(e) => Err(MediaSwError::openh264("Encoder::with_api_config", e)),
        }
    }

    pub fn new(cfg: Openh264EncoderConfig) -> (r: Result<Self, MediaSwError>)
        ensures
            exists|outcome: Result<Encoder, openh264::Error>|
                #[trigger] opened_with(cfg, outcome) && Self::opened(cfg, outcome, r),
            r matches Ok(e) ==> e.settings().for_sharing(cfg),
    {
        let outcome: Result<Encoder, openh264::Error> = open_encoder(
            H264Profile::Baseline,
            RateControl::Bitrate,
            Effort::Low,
            Content::Screen,
            ParameterSets::Listing,
            0,
            0,
            cfg.max_fps,
            cfg.target_bitrate_bps,
            false,
        );
        let ghost seen = outcome;
        let r: Result<Self, MediaSwError> = Self::from_opened(cfg, outcome);
        assert(opened_with(cfg, seen) && Self::opened(cfg, seen, r));
        r
    }

    /// Numbers a coded picture and dates it.
    pub fn wrap(&mut self, coded: CodedPicture, timestamp_us: u64) -> (r: EncodedFrame)
        ensures
            r.seq == old(self).next_seq(),
            r.timestamp_host_us == timestamp_us,
            r.is_keyframe == is_key(coded.kind),
            bytes_held(r.nal_units) == coded.bytes@,
            r.width == old(self).config().width,
            r.height == old(self).config().height,
            r.codec == Codec::H264,
            final(self).next_seq() == (old(self).next_seq() + 1) % 0x1_0000_0000_0000_0000,
            final(self).config() == old(self).config(),
            final(self).keyframe_owed() == old(self).keyframe_owed(),
            final(self).settings() == old(self).settings(),
            final(self).inner() == old(self).inner(),
    {
        let is_keyframe: bool = match coded.kind {
            PictureKind::Idr => true,
            PictureKind::Intra => true,
            _ => false,
        };
        let seq: u64 = self.seq;
        self.seq = self.seq.wrapping_add(1);
        EncodedFrame {
            seq,
            timestamp_host_us: timestamp_us,
            is_keyframe,
            nal_units: bytes_from_vec(coded.bytes),
            width: self.cfg.width,
            height: self.cfg.height,
            codec: Codec::H264,
        }
    }

    /// What the answer to a picture leads to: a coded one is numbered and dated, an
    /// error is passed on.
    pub fn answered(&mut self, answer: Result<CodedPicture, openh264::Error>, timestamp_us: u64) -> (r:
        Result<EncodedFrame, MediaSwError>)
        ensures
            match answer {
                Ok(coded) => {
                    &&& r matches Ok(f) && f.seq == old(self).next_seq() && f.timestamp_host_us
                        == timestamp_us && f.is_keyframe == is_key(coded.kind) && bytes_held(
                        f.nal_units,
                    ) == coded.bytes@ && f.width == old(self).config().width && f.height == old(
                        self,
                    ).config().height && f.codec == Codec::H264
                    &&& final(self).next_seq() == (old(self).next_seq() + 1)
                        % 0x1_0000_0000_0000_0000
                },
                Err(e) => {
                    &&& r matches Err(MediaSwError::OpenH264 { context, source }) && context@
                        == "Encoder::encode_at"@ && source == e
                    &&& final(self).next_seq() == old(self).next_seq()
                },
            },
            final(self).config() == old(self).config(),
            final(self).keyframe_owed() == old(self).keyframe_owed(),
            final(self).settings() == old(self).settings(),
            final(self).inner() == old(self).inner(),
    {
        match answer {
            Ok(coded) => Ok(self.wrap(coded, timestamp_us)),
            Err(e) => Err(MediaSwError::openh264("Encoder::encode_at", e)),
        }
    }
}

impl SwH264Encoder for Openh264Encoder {
    open spec fn accepts(&self, i420: &I420Frame) -> bool {
        self.fits(*i420) ==> i420.wf() && native_strides(*i420)
    }

    fn encode(&mut self, i420: &I420Frame, force_idr: bool, timestamp_us: u64) -> (r: Result<
        EncodedFrame,
        MediaSwError,
    >)
        ensures
            final(self).config() == old(self).config(),
            final(self).settings() == old(self).settings(),
            !old(self).fits(*i420) ==> {
                &&& r == Err::<EncodedFrame, MediaSwError>(
                    MediaSwError::DimensionMismatch {
                        expected_w: old(self).config().width,
                        expected_h: old(self).config().height,
                        got_w: i420.width,
                        got_h: i420.height,
                    },
                )
                &&& final(self).next_seq() == old(self).next_seq()
                &&& final(self).keyframe_owed() == old(self).keyframe_owed()
                &&& final(self).inner() == old(self).inner()
            },
            old(self).fits(*i420) ==> !final(self).keyframe_owed(),
            old(self).fits(*i420) && !codable_size(i420.width, i420.height) ==> r is Err,
            old(self).fits(*i420) && r is Ok ==> {
                let f = r->Ok_0;
                &&& f.seq == old(self).next_seq()
                &&& f.timestamp_host_us == timestamp_us
                &&& coded_from(
                    old(self).inner(),
                    bytes_held(f.nal_units),
                    f.is_keyframe,
                    i420@,
                    timestamp_us,
                    force_idr || old(self).keyframe_owed(),
                    final(self).inner(),
                )
                &&& f.width == i420.width
                &&& f.height == i420.height
                &&& f.codec == Codec::H264
                &&& final(self).next_seq() == (old(self).next_seq() + 1) % 0x1_0000_0000_0000_0000
            },
            old(self).fits(*i420) && r is Err ==> {
                &&& r->Err_0 matches MediaSwError::OpenH264 { context, source } && context@
                    == "Encoder::encode_at"@ && refused_as(
                    old(self).inner(),
                    i420@,
                    timestamp_us,
                    force_idr || old(self).keyframe_owed(),
                    source,
                    final(self).inner(),
                )
                &&& final(self).next_seq() == old(self).next_seq()
            },
    {
        if i420.width != self.cfg.width || i420.height != self.cfg.height {
            return Err(
                MediaSwError::DimensionMismatch {
                    expected_w: self.cfg.width,
                    expected_h: self.cfg.height,
                    got_w: i420.width,
                    got_h: i420.height,
                },
            );
        }
        let ghost before = self.inner;
        let ghost forced = force_idr || self.pending_force_idr;
        if force_idr || self.pending_force_idr {
            force_keyframe(&mut self.inner);
            self.pending_force_idr = false;
        }
        let ghost start = self.inner;
        let answer: Result<CodedPicture, openh264::Error> = code_picture(
            &mut self.inner,
            i420,
            timestamp_us / 1000,
        );
        proof {
            let given = answer_of(answer);
            assert(may_code(start, i420@, timestamp_us / 1000, given, self.inner));
            assert(codes(before, i420@, timestamp_us, forced, given, self.inner));
        }
        self.answered(answer, timestamp_us)
    }

    /// Notes the bitrate; OpenH264 has no way to change it while it runs.
    fn set_target_bitrate(&mut self, bps: u32)
        ensures
            final(self).config() == (Openh264EncoderConfig {
                target_bitrate_bps: bps,
                ..old(self).config()
            }),
            final(self).next_seq() == old(self).next_seq(),
            final(self).keyframe_owed() == old(self).keyframe_owed(),
            final(self).settings() == old(self).settings(),
            final(self).inner() == old(self).inner(),
    {
        self.cfg.target_bitrate_bps = bps;
    }

    fn backend_name(&self) -> (r: &'static str)
        ensures
            r@ == "openh264"@,
    {
        "openh264"
    }
}

/// An encoder is handed a picture with its time in whole milliseconds, after a request
/// for a keyframe exactly if there was one.
pub proof fn law_pictures_are_timed_in_milliseconds(
    before: Encoder,
    picture: Picture,
    timestamp_us: u64,
    forced: bool,
    answer: Result<(PictureKind, Seq<u8>), openh264::Error>,
    after: Encoder,
)
    requires
        codes(before, picture, timestamp_us, forced, answer, after),
    ensures
        exists|start: Encoder, millis: u64|
            {
                &&& #[trigger] may_code(start, picture, millis, answer, after)
                &&& millis * 1000 <= timestamp_us < (millis + 1) * 1000
                &&& forced ==> keyframe_forced(before, start)
                &&& !forced ==> start == before
            },
{
    let start = choose|start: Encoder|
        {
            &&& #[trigger] may_code(start, picture, timestamp_us / 1000, answer, after)
            &&& if forced {
                keyframe_forced(before, start)
            } else {
                start == before
            }
        };
    let millis: u64 = timestamp_us / 1000;
    assert(may_code(start, picture, millis, answer, after));
}

/// Only pictures that can be decoded without others are marked as keyframes, and where a
/// keyframe was asked for, the picture is one or was skipped.
pub proof fn law_only_whole_pictures_are_keyframes(
    before: Encoder,
    bytes: Seq<u8>,
    is_keyframe: bool,
    picture: Picture,
    timestamp_us: u64,
    forced: bool,
    after: Encoder,
)
    requires
        coded_from(before, bytes, is_keyframe, picture, timestamp_us, forced, after),
    ensures
        exists|kind: PictureKind|
            {
                &&& #[trigger] codes(
                    before,
                    picture,
                    timestamp_us,
                    forced,
                    Ok((kind, bytes)),
                    after,
                )
                &&& is_keyframe <==> kind is Idr || kind is Intra
                &&& forced && !is_keyframe ==> kind is Skipped
            },
{
}

/// The sizes that can be coded do not depend on which way the picture lies: both sides
/// have sixteen pixels at least, the longer 3840 at most and the shorter 2160.
pub proof fn law_codable_sizes(width: u32, height: u32)
    ensures
        codable_size(width, height) == codable_size(height, width),
        width >= height ==> (codable_size(width, height) <==> height >= 16 && width <= 3840 && height
            <= 2160),
{
}

/// An encoder for sharing a screen works in real time: baseline profile, bitrate kept,
/// least effort, screen content, parameter sets in the stream, keyframes on demand only,
/// as many threads as OpenH264 likes, no frame skipped, and the rate and bitrate that were
/// asked for.
pub proof fn law_sharing_settings(s: EncoderSettings, cfg: Openh264EncoderConfig)
    requires
        s.for_sharing(cfg),
    ensures
        s.profile is Baseline,
        s.rate_control is Bitrate,
        s.effort is Low,
        s.content is Screen,
        s.parameter_sets is Listing,
        s.intra_period == 0,
        s.threads == 0,
        !s.skip_frames,
        s.bitrate_bps == cfg.target_bitrate_bps,
        cfg.max_fps <= 16_777_216 ==> s.max_fps == cfg.max_fps,
{
}

} // verus!
