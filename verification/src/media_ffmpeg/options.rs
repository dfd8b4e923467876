//! What an HEVC encoder is set to for low latency.

use vstd::prelude::*;
use crate::text::{decimal, push_decimal};

verus! {

/// The HEVC standard's number of the Main profile.
pub const AV_PROFILE_HEVC_MAIN: i32 = 1;

/// The HEVC standard's number of the Main 10 profile.
pub const AV_PROFILE_HEVC_MAIN_10: i32 = 2;

/// FFmpeg's number of the primaries of BT.2020.
pub const AVCOL_PRI_BT2020: i32 = 9;

/// FFmpeg's number of the perceptual quantizer of SMPTE ST 2084.
pub const AVCOL_TRC_SMPTE2084: i32 = 16;

/// FFmpeg's number of the matrix of BT.2020 with non-constant luminance.
pub const AVCOL_SPC_BT2020_NCL: i32 = 9;

/// The codec flag that moves parameter sets out of the stream.
pub const AV_CODEC_FLAG_GLOBAL_HEADER: i32 = 0x40_0000;

/// The encoders of this library.
#[derive(Debug, Clone, Copy, PartialEq, Eq, Structural)]
pub enum EncoderKind {
    Vaapi,
    VaapiMain10,
    Nvenc,
    NvencNpp,
}

/// The pixel formats that the backends name.
#[derive(Debug, Clone, Copy, PartialEq, Eq, Structural)]
pub enum PixelFormat {
    Vaapi,
    Cuda,
    Nv12,
    P010le,
    Yuv420p,
    Yuv420p10le,
    Other,
}

/// A fraction as FFmpeg writes it.
#[derive(Debug, Clone, Copy, PartialEq, Eq, Structural)]
pub struct Rational {
    pub num: i32,
    pub den: i32,
}

/// What the caller asks of an encoder.
#[derive(Debug, Clone, Copy, PartialEq, Eq, Structural)]
pub struct EncoderTunables {
    pub bitrate_bps: u32,
    pub fps: u32,
    pub width: u32,
    pub height: u32,
    pub gop_size: u32,
}

/// The fields of a codec context that are set before it is opened.
#[derive(Debug, Clone, Copy, PartialEq, Eq, Structural)]
pub struct CodecSettings {
    pub bit_rate: i64,
    pub rc_max_rate: i64,
    pub rc_buffer_size: i32,
    pub gop_size: i32,
    pub max_b_frames: i32,
    pub time_base: Rational,
    pub framerate: Rational,
    pub pix_fmt: PixelFormat,
    pub profile: i32,
    pub flags: i32,
    /// What the stream says of its colours, where it says anything.
    pub colour: Option<ColourTags>,
}

/// How a stream's samples stand for colours, in the numbers of H.273.
#[derive(Debug, Clone, Copy, PartialEq, Eq, Structural)]
pub struct ColourTags {
    pub primaries: i32,
    pub transfer: i32,
    pub matrix: i32,
}

impl EncoderKind {
    /// The pixel format of the surfaces that the encoder reads.
    pub open spec fn surface(self) -> PixelFormat {
        match self {
            EncoderKind::Vaapi | EncoderKind::VaapiMain10 => PixelFormat::Vaapi,
            EncoderKind::Nvenc | EncoderKind::NvencNpp => PixelFormat::Cuda,
        }
    }

    /// The profile that the encoder writes.
    pub open spec fn profile(self) -> i32 {
        if self is VaapiMain10 {
            AV_PROFILE_HEVC_MAIN_10
        } else {
            AV_PROFILE_HEVC_MAIN
        }
    }

    /// What the encoder writes of the colours: those of HDR10 in 10 bits, nothing
    /// in 8.
    pub open spec fn colour(self) -> Option<ColourTags> {
        if self is VaapiMain10 {
            Some(
                ColourTags {
                    primaries: AVCOL_PRI_BT2020,
                    transfer: AVCOL_TRC_SMPTE2084,
                    matrix: AVCOL_SPC_BT2020_NCL,
                },
            )
        } else {
            None
        }
    }
}

/// The settings of an encoder: constant bitrate with a buffer of one frame, no
/// frames out of order, time in frames, parameter sets in the stream, and the colours
/// of HDR10 in 10 bits. `flags` are those that the context has already.
pub fn apply_low_latency_hevc(kind: EncoderKind, flags: i32, t: &EncoderTunables) -> (r:
    CodecSettings)
    ensures
        r.bit_rate == t.bitrate_bps,
        r.rc_max_rate == t.bitrate_bps,
        r.rc_buffer_size == (t.bitrate_bps as int / (if t.fps == 0 {
            1int
        } else {
            t.fps as int
        })) as i32,
        r.gop_size == t.gop_size as i32,
        r.max_b_frames == 0,
        r.time_base == (Rational { num: 1, den: t.fps as i32 }),
        r.framerate == (Rational { num: t.fps as i32, den: 1 }),
        r.pix_fmt == kind.surface(),
        r.profile == kind.profile(),
        r.colour == kind.colour(),
        r.flags == flags & !AV_CODEC_FLAG_GLOBAL_HEADER,
        r.flags & AV_CODEC_FLAG_GLOBAL_HEADER == 0,
{
    let frames: u32 = if t.fps == 0 {
        1
    } else {
        t.fps
    };
    proof {
        assert((flags & !0x40_0000i32) & 0x40_0000i32 == 0) by (bit_vector);
        assert(0 <= t.bitrate_bps as int / frames as int <= t.bitrate_bps) by (nonlinear_arith)
            requires
                frames >= 1,
        ;
    }
    CodecSettings {
        bit_rate: t.bitrate_bps as i64,
        rc_max_rate: t.bitrate_bps as i64,
        rc_buffer_size: #[verifier::truncate] ((t.bitrate_bps / frames) as i32),
        gop_size: #[verifier::truncate] (t.gop_size as i32),
        max_b_frames: 0,
        time_base: Rational { num: 1, den: #[verifier::truncate] (t.fps as i32) },
        framerate: Rational { num: #[verifier::truncate] (t.fps as i32), den: 1 },
        pix_fmt: match kind {
            EncoderKind::Vaapi | EncoderKind::VaapiMain10 => PixelFormat::Vaapi,
            EncoderKind::Nvenc | EncoderKind::NvencNpp => PixelFormat::Cuda,
        },
        profile: match kind {
            EncoderKind::VaapiMain10 => AV_PROFILE_HEVC_MAIN_10,
            _ => AV_PROFILE_HEVC_MAIN,
        },
        flags: flags & !AV_CODEC_FLAG_GLOBAL_HEADER,
        colour: match kind {
            EncoderKind::VaapiMain10 => Some(
                ColourTags {
                    primaries: AVCOL_PRI_BT2020,
                    transfer: AVCOL_TRC_SMPTE2084,
                    matrix: AVCOL_SPC_BT2020_NCL,
                },
            ),
            _ => None,
        },
    }
}

/// A private option of an encoder.
#[derive(Debug)]
pub struct DictEntry {
    pub key: &'static str,
    pub value: String,
}

impl View for DictEntry {
    type V = (Seq<char>, Seq<char>);

    open spec fn view(&self) -> (Seq<char>, Seq<char>) {
        (self.key@, self.value@)
    }
}

/// The keys and values of a list of options.
pub open spec fn entries(list: Seq<DictEntry>) -> Seq<(Seq<char>, Seq<char>)> {
    list.map_values(|e: DictEntry| e@)
}

/// The private options of a VAAPI encoder, in the order in which they are set.
pub open spec fn vaapi_options(gop_size: u32) -> Seq<(Seq<char>, Seq<char>)> {
    seq![
        ("async_depth"@, "1"@),
        ("rc_mode"@, "CBR"@),
        ("forced_idr"@, "1"@),
        ("low_power"@, "0"@),
        ("idr_interval"@, decimal(gop_size as nat)),
    ]
}

/// The private options of an NVENC encoder, in the order in which they are set.
pub open spec fn nvenc_options() -> Seq<(Seq<char>, Seq<char>)> {
    seq![
        ("preset"@, "p1"@),
        ("tune"@, "ull"@),
        ("rc"@, "cbr"@),
        ("zerolatency"@, "1"@),
        ("bf"@, "0"@),
        ("forced-idr"@, "1"@),
    ]
}

/// The private options of an encoder.
pub open spec fn options_of(kind: EncoderKind, gop_size: u32) -> Seq<(Seq<char>, Seq<char>)> {
    match kind {
        EncoderKind::Vaapi | EncoderKind::VaapiMain10 => vaapi_options(gop_size),
        EncoderKind::Nvenc | EncoderKind::NvencNpp => nvenc_options(),
    }
}

fn entry(key: &'static str, value: &'static str) -> (r: DictEntry)
    ensures
        r@ == (key@, value@),
{
    DictEntry { key, value: String::from_str(value) }
}

/// The private options of a VAAPI encoder.
pub fn build_priv_data_dict(gop_size: u32) -> (r: Vec<DictEntry>)
    ensures
        entries(r@) == vaapi_options(gop_size),
{
    let mut interval: String = String::from_str("");
    push_decimal(&mut interval, gop_size as u64);
    proof {
        reveal_strlit("");
        assert(interval@ =~= decimal(gop_size as nat));
    }
    let r: Vec<DictEntry> = vec![
        entry("async_depth", "1"),
        entry("rc_mode", "CBR"),
        entry("forced_idr", "1"),
        entry("low_power", "0"),
        DictEntry { key: "idr_interval", value: interval },
    ];
    assert(entries(r@) =~= vaapi_options(gop_size));
    r
}

/// The private options of an NVENC encoder.
pub fn build_priv_data_dict_nvenc() -> (r: Vec<DictEntry>)
    ensures
        entries(r@) == nvenc_options(),
{
    let r: Vec<DictEntry> = vec![
        entry("preset", "p1"),
        entry("tune", "ull"),
        entry("rc", "cbr"),
        entry("zerolatency", "1"),
        entry("bf", "0"),
        entry("forced-idr", "1"),
    ];
    assert(entries(r@) =~= nvenc_options());
    r
}

/// The private options of an encoder of the given kind.
pub fn build_options(kind: EncoderKind, gop_size: u32) -> (r: Vec<DictEntry>)
    ensures
        entries(r@) == options_of(kind, gop_size),
{
    match kind {
        EncoderKind::Vaapi | EncoderKind::VaapiMain10 => build_priv_data_dict(gop_size),
        EncoderKind::Nvenc | EncoderKind::NvencNpp => build_priv_data_dict_nvenc(),
    }
}

/// The settings of every encoder keep delay low: the bitrate is constant, the buffer
/// holds one frame's share of it, no frame waits for a later one, parameter sets stay in
/// the stream while the other flags of the context are kept, and time counts frames. Only
/// the ten-bit encoder writes the Main 10 profile (number two), with the colours of HDR10.
pub proof fn law_settings_keep_delay_low(
    kind: EncoderKind,
    flags: i32,
    t: EncoderTunables,
    r: CodecSettings,
)
    requires
        call_ensures(apply_low_latency_hevc, (kind, flags, &t), r),
        t.bitrate_bps <= i32::MAX,
        t.fps <= i32::MAX,
        t.gop_size <= i32::MAX,
    ensures
        r.bit_rate == t.bitrate_bps,
        r.rc_max_rate == r.bit_rate,
        t.fps > 0 ==> r.rc_buffer_size * t.fps <= t.bitrate_bps < (r.rc_buffer_size + 1) * t.fps,
        t.fps == 0 ==> r.rc_buffer_size == t.bitrate_bps,
        r.max_b_frames == 0,
        r.gop_size == t.gop_size,
        (r.time_base.num, r.time_base.den) == (1i32, t.fps as i32),
        (r.framerate.num, r.framerate.den) == (t.fps as i32, 1i32),
        r.flags & 0x40_0000 == 0,
        r.flags | 0x40_0000 == flags | 0x40_0000,
        kind is VaapiMain10 ==> r.profile == 2,
        !(kind is VaapiMain10) ==> r.profile == 1,
        r.pix_fmt is Vaapi <==> kind is Vaapi || kind is VaapiMain10,
        r.pix_fmt is Cuda <==> kind is Nvenc || kind is NvencNpp,
        r.colour is Some <==> kind is VaapiMain10,
        r.colour matches Some(c) ==> c.primaries == 9 && c.transfer == 16 && c.matrix == 9,
{
    assert((flags & !0x40_0000i32) & 0x40_0000i32 == 0) by (bit_vector);
    assert((flags & !0x40_0000i32) | 0x40_0000i32 == flags | 0x40_0000i32) by (bit_vector);
    if t.fps > 0 {
        let n = t.fps as int;
        let b = t.bitrate_bps as int;
        let q = b / n;
        assert(q * n <= b < (q + 1) * n) by (nonlinear_arith)
            requires
                n >= 1,
                q == b / n,
        ;
        assert(0 <= q <= b) by (nonlinear_arith)
            requires
                n >= 1,
                b >= 0,
                q == b / n,
        ;
    }
}

/// The private options ask for constant bitrate, no delay, and keyframes on demand; on
/// VAAPI also for the path of the better picture, and for a keyframe in every group.
pub proof fn law_options_keep_delay_low(gop_size: u32)
    ensures
        vaapi_options(gop_size).contains(("rc_mode"@, "CBR"@)),
        vaapi_options(gop_size).contains(("async_depth"@, "1"@)),
        vaapi_options(gop_size).contains(("forced_idr"@, "1"@)),
        vaapi_options(gop_size).contains(("low_power"@, "0"@)),
        vaapi_options(gop_size).contains(("idr_interval"@, decimal(gop_size as nat))),
        nvenc_options().contains(("rc"@, "cbr"@)),
        nvenc_options().contains(("preset"@, "p1"@)),
        nvenc_options().contains(("tune"@, "ull"@)),
        nvenc_options().contains(("zerolatency"@, "1"@)),
        nvenc_options().contains(("bf"@, "0"@)),
        nvenc_options().contains(("forced-idr"@, "1"@)),
        options_of(EncoderKind::Vaapi, gop_size) == options_of(EncoderKind::VaapiMain10, gop_size),
        options_of(EncoderKind::Vaapi, gop_size) == vaapi_options(gop_size),
        options_of(EncoderKind::Nvenc, gop_size) == options_of(EncoderKind::NvencNpp, gop_size),
        options_of(EncoderKind::Nvenc, gop_size) == nvenc_options(),
{
    let v = vaapi_options(gop_size);
    assert(v[0] == ("async_depth"@, "1"@));
    assert(v[1] == ("rc_mode"@, "CBR"@));
    assert(v[2] == ("forced_idr"@, "1"@));
    assert(v[3] == ("low_power"@, "0"@));
    assert(v[4] == ("idr_interval"@, decimal(gop_size as nat)));
    let n = nvenc_options();
    assert(n[0] == ("preset"@, "p1"@));
    assert(n[1] == ("tune"@, "ull"@));
    assert(n[2] == ("rc"@, "cbr"@));
    assert(n[3] == ("zerolatency"@, "1"@));
    assert(n[4] == ("bf"@, "0"@));
    assert(n[5] == ("forced-idr"@, "1"@));
}

} // verus!
