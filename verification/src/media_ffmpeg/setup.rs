//! How an encoder or a decoder comes to be: a fixed list of calls, each of which
//! may be refused. A refused call ends the set-up, and what was acquired until then
//! is released in reverse.

use vstd::prelude::*;
use crate::media_ffmpeg::error::{text_and_code, Failure, FfmpegError};
use crate::media_ffmpeg::options::{
    build_options, entries, options_of, DictEntry, EncoderKind, EncoderTunables, PixelFormat,
};
use crate::text::{decimal, push_decimal, push_signed, signed_decimal};

verus! {

/// The oldest CUDA driver that the on-GPU conversion works with.
pub const MIN_DRIVER_VERSION: i32 = 12000;

/// The hardware frames that a pool starts with.
pub const FRAMES_IN_POOL: i32 = 4;

/// The decoders of this library.
#[derive(Debug, Clone, Copy, PartialEq, Eq, Structural)]
pub enum DecoderKind {
    Sw,
    SwMain10,
    Nvdec,
    VaapiMain10,
}

/// The codecs that are looked up by name.
#[derive(Debug, Clone, Copy, PartialEq, Eq, Structural)]
pub enum CodecName {
    HevcVaapi,
    HevcNvenc,
    Hevc,
    HevcCuvid,
}

#[derive(Debug, Clone, Copy, PartialEq, Eq, Structural)]
pub enum DeviceKind {
    Vaapi,
    Cuda,
}

/// What a set-up acquires and has to release again.
#[derive(Debug, Clone, Copy, PartialEq, Eq, Structural)]
pub enum Resource {
    Device,
    /// The pool of hardware frames.
    Frames,
    /// A reference to the pool that no codec context owns yet.
    FramesRef,
    Context,
    /// The bitstream filter.
    Filter,
    CpuFrame,
    HwFrame,
    SwFrame,
    Packet,
    Scaler,
    ScratchBgra,
    ScratchY,
    ScratchU,
    ScratchV,
}

/// A call that a set-up makes.
#[derive(Debug, Clone, Copy, PartialEq, Eq, Structural)]
pub enum Call {
    /// `avcodec_find_encoder_by_name`.
    FindEncoder(CodecName),
    /// `avcodec_find_decoder_by_name`.
    FindDecoder(CodecName),
    /// `av_hwdevice_ctx_create`.
    OpenDevice(DeviceKind),
    /// `av_hwframe_ctx_alloc`.
    AllocFrames,
    /// `av_hwframe_ctx_init`, with the pool set to the given formats and size and to
    /// `FRAMES_IN_POOL`.
    InitFrames { surface: PixelFormat, content: PixelFormat, width: u32, height: u32 },
    /// Which content the initialised pool has.
    CheckFrames,
    /// `avcodec_find_encoder_by_name`, only to see that there is one.
    ProbeEncoder(CodecName),
    /// `avcodec_alloc_context3` for the codec that was found under this name. The
    /// context gets the settings of its encoder or decoder, and a reference that was
    /// made before.
    AllocContext(CodecName),
    /// `av_buffer_ref` on the pool, for the context that is there.
    RefFrames,
    /// `av_buffer_ref` on the pool, for a context that is still to come.
    LendFrames,
    /// `av_buffer_ref` on the device, for the context that is there.
    RefDevice,
    /// `av_dict_set` with the private option of this number.
    SetOption(u8),
    /// The finished list of private options.
    TakeOptions,
    /// `avcodec_open2` on the context, for the codec that was found under this name.
    OpenCodec(CodecName),
    /// `av_bsf_get_by_name` for `hevc_mp4toannexb`.
    FindFilter,
    /// `av_bsf_alloc`.
    AllocFilter,
    /// `avcodec_parameters_from_context`.
    CopyParameters,
    /// `av_bsf_init`.
    InitFilter,
    /// `av_frame_alloc`.
    AllocCpuFrame,
    /// `av_frame_get_buffer`, with the frame set to the given format and size.
    FillCpuFrame { format: PixelFormat, width: u32, height: u32 },
    /// `av_frame_alloc`.
    AllocHwFrame,
    /// `av_hwframe_get_buffer`.
    FillHwFrame,
    /// `av_frame_alloc`.
    AllocSwFrame,
    /// `av_packet_alloc`.
    AllocPacket,
    /// `sws_getContext` from BGRA to P010 of this size.
    AllocScaler { width: u32, height: u32 },
    /// `cudaDriverGetVersion`.
    DriverVersion,
    /// `cudaMalloc` of this many bytes.
    AllocScratch { plane: Resource, bytes: usize },
}

/// The answer to a call. A call that returns no pointer leaves `null` false, one
/// that returns no code leaves `code` zero; the driver's version and the pool's
/// content are there for the calls that ask for them.
#[derive(Debug, Clone, Copy, PartialEq, Eq, Structural)]
pub struct Reply {
    pub null: bool,
    pub code: i32,
    pub version: i32,
    pub content: PixelFormat,
}

impl CodecName {
    pub open spec fn text(self) -> Seq<char> {
        match self {
            CodecName::HevcVaapi => "hevc_vaapi"@,
            CodecName::HevcNvenc => "hevc_nvenc"@,
            CodecName::Hevc => "hevc"@,
            CodecName::HevcCuvid => "hevc_cuvid"@,
        }
    }

    /// The name that FFmpeg knows the codec by.
    pub fn as_str(self) -> (r: &'static str)
        ensures
            r@ == self.text(),
    {
        match self {
            CodecName::HevcVaapi => "hevc_vaapi",
            CodecName::HevcNvenc => "hevc_nvenc",
            CodecName::Hevc => "hevc",
            CodecName::HevcCuvid => "hevc_cuvid",
        }
    }
}

/// The failure that ends the set-up if the call is answered so; none if the answer
/// lets the set-up go on.
pub open spec fn refusal(
    call: Call,
    reply: Reply,
    options: Seq<(Seq<char>, Seq<char>)>,
) -> Option<Failure> {
    let code = reply.code as int;
    match call {
        Call::FindEncoder(name) | Call::ProbeEncoder(name) | Call::FindDecoder(name) => if reply.null {
            Some(Failure::EncoderNotFound(name.text()))
        } else {
            None
        },
        Call::OpenDevice(kind) => if code < 0 {
            Some(
                Failure::HwDevice(
                    if kind is Cuda {
                        "av_hwdevice_ctx_create(CUDA) returned "@ + signed_decimal(code)
                    } else {
                        "av_hwdevice_ctx_create returned "@ + signed_decimal(code)
                    },
                ),
            )
        } else {
            None
        },
        Call::AllocFrames => if reply.null {
            Some(Failure::HwFrames("av_hwframe_ctx_alloc returned null"@))
        } else {
            None
        },
        Call::InitFrames { .. } => if code < 0 {
            Some(Failure::HwFrames("av_hwframe_ctx_init returned "@ + signed_decimal(code)))
        } else {
            None
        },
        Call::CheckFrames => if reply.content != PixelFormat::Nv12 {
            Some(Failure::HwFrames("driver coerced sw_format away from NV12"@))
        } else {
            None
        },
        Call::RefFrames | Call::LendFrames => if reply.null {
            Some(Failure::HwFrames("av_buffer_ref returned null"@))
        } else {
            None
        },
        Call::RefDevice => if reply.null {
            Some(Failure::HwDevice("av_buffer_ref returned null"@))
        } else {
            None
        },
        Call::SetOption(i) => if code < 0 {
            Some(Failure::HwDevice(option_refused(options[i as int], code)))
        } else {
            None
        },
        Call::TakeOptions => if reply.null {
            Some(Failure::HwDevice("av_dict_set produced null dict"@))
        } else {
            None
        },
        Call::OpenCodec(_) | Call::FillCpuFrame { .. } => if code < 0 {
            Some(Failure::OpenCodec(code))
        } else {
            None
        },
        Call::FindFilter => if reply.null {
            Some(Failure::Bsf(-1))
        } else {
            None
        },
        Call::AllocFilter => if code < 0 || reply.null {
            Some(Failure::Bsf(code))
        } else {
            None
        },
        Call::CopyParameters | Call::InitFilter => if code < 0 {
            Some(Failure::Bsf(code))
        } else {
            None
        },
        Call::AllocContext(_)
        | Call::AllocCpuFrame
        | Call::AllocHwFrame
        | Call::AllocSwFrame
        | Call::AllocPacket => if reply.null {
            Some(Failure::OpenCodec(-1))
        } else {
            None
        },
        Call::FillHwFrame => if code < 0 {
            Some(Failure::HwFrames("av_hwframe_get_buffer returned "@ + signed_decimal(code)))
        } else {
            None
        },
        Call::AllocScaler { .. } => if reply.null {
            Some(Failure::HwDevice("sws_getContext returned null"@))
        } else {
            None
        },
        Call::DriverVersion => if code != 0 {
            Some(
                Failure::HwDevice(
                    "cudaDriverGetVersion returned "@ + signed_decimal(code)
                        + " (CUDA runtime not loadable)"@,
                ),
            )
        } else if reply.version < MIN_DRIVER_VERSION {
            Some(
                Failure::HwDevice(
                    "CUDA driver too old: "@ + signed_decimal(reply.version as int)
                        + " < 12000 (need >= 12.0); upgrade NVIDIA driver to >= 535"@,
                ),
            )
        } else {
            None
        },
        Call::AllocScratch { plane, bytes } => if code != 0 {
            Some(
                Failure::HwDevice(
                    "cudaMalloc("@ + decimal(bytes as nat) + ") returned "@ + signed_decimal(code),
                ),
            )
        } else {
            None
        },
    }
}

/// The text for a private option that was not taken.
pub open spec fn option_refused(option: (Seq<char>, Seq<char>), code: int) -> Seq<char> {
    "av_dict_set("@ + option.0 + "="@ + option.1 + ") returned "@ + signed_decimal(code)
}

/// What is held after a call that was not refused.
pub open spec fn effect(held: Seq<Resource>, call: Call) -> Seq<Resource> {
    match call {
        Call::OpenDevice(_) => held.push(Resource::Device),
        Call::AllocFrames => held.push(Resource::Frames),
        Call::LendFrames => held.push(Resource::FramesRef),
        Call::AllocContext(_) => if held.len() > 0 && held.last() == Resource::FramesRef {
            held.drop_last().push(Resource::Context)
        } else {
            held.push(Resource::Context)
        },
        Call::AllocFilter => held.push(Resource::Filter),
        Call::AllocCpuFrame => held.push(Resource::CpuFrame),
        Call::AllocHwFrame => held.push(Resource::HwFrame),
        Call::AllocSwFrame => held.push(Resource::SwFrame),
        Call::AllocPacket => held.push(Resource::Packet),
        Call::AllocScaler { .. } => held.push(Resource::Scaler),
        Call::AllocScratch { plane, .. } => held.push(plane),
        _ => held,
    }
}

/// What is held after the first `n` calls of a plan.
pub open spec fn held_after(plan: Seq<Call>, n: nat) -> Seq<Resource>
    decreases n,
{
    if n == 0 {
        seq![]
    } else {
        effect(held_after(plan, (n - 1) as nat), plan[n - 1])
    }
}

fn option_error(options: &Vec<DictEntry>, i: usize, code: i32) -> (r: FfmpegError)
    requires
        i < options@.len(),
    ensures
        r@ == Failure::HwDevice(option_refused(entries(options@)[i as int], code as int)),
{
    let mut text: String = String::from_str("av_dict_set(");
    text.append(options[i].key);
    text.append("=");
    text.append(options[i].value.as_str());
    text.append(") returned ");
    push_signed(&mut text, code as i64);
    FfmpegError::HwDevice(text)
}

fn driver_error(reply: &Reply) -> (r: FfmpegError)
    requires
        reply.code != 0 || reply.version < MIN_DRIVER_VERSION,
    ensures
        Some(r@) == refusal(Call::DriverVersion, *reply, seq![]),
{
    if reply.code != 0 {
        let mut text: String = text_and_code("cudaDriverGetVersion returned ", reply.code);
        text.append(" (CUDA runtime not loadable)");
        FfmpegError::HwDevice(text)
    } else {
        let mut text: String = text_and_code("CUDA driver too old: ", reply.version);
        text.append(" < 12000 (need >= 12.0); upgrade NVIDIA driver to >= 535");
        FfmpegError::HwDevice(text)
    }
}

/// The options that the call names are there.
pub open spec fn option_there(call: Call, options: nat) -> bool {
    call matches Call::SetOption(i) ==> i < options
}

/// Whether the answer ends the set-up, and with which failure.
pub fn check(call: Call, reply: &Reply, options: &Vec<DictEntry>) -> (r: Option<FfmpegError>)
    requires
        option_there(call, options@.len()),
    ensures
        match r {
            Some(e) => refusal(call, *reply, entries(options@)) == Some(e@),
            None => refusal(call, *reply, entries(options@)) is None,
        },
{
    let code: i32 = reply.code;
    match call {
        Call::FindEncoder(name) | Call::ProbeEncoder(name) | Call::FindDecoder(name) => if reply.null {
            Some(FfmpegError::EncoderNotFound(name.as_str()))
        } else {
            None
        },
        Call::OpenDevice(kind) => if code < 0 {
            Some(
                FfmpegError::HwDevice(
                    match kind {
                        DeviceKind::Cuda => text_and_code(
                            "av_hwdevice_ctx_create(CUDA) returned ",
                            code,
                        ),
                        DeviceKind::Vaapi => text_and_code(
                            "av_hwdevice_ctx_create returned ",
                            code,
                        ),
                    },
                ),
            )
        } else {
            None
        },
        Call::AllocFrames => if reply.null {
            Some(FfmpegError::HwFrames(String::from_str("av_hwframe_ctx_alloc returned null")))
        } else {
            None
        },
        Call::InitFrames { .. } => if code < 0 {
            Some(FfmpegError::HwFrames(text_and_code("av_hwframe_ctx_init returned ", code)))
        } else {
            None
        },
        Call::CheckFrames => if reply.content != PixelFormat::Nv12 {
            Some(
                FfmpegError::HwFrames(String::from_str("driver coerced sw_format away from NV12")),
            )
        } else {
            None
        },
        Call::RefFrames | Call::LendFrames => if reply.null {
            Some(FfmpegError::HwFrames(String::from_str("av_buffer_ref returned null")))
        } else {
            None
        },
        Call::RefDevice => if reply.null {
            Some(FfmpegError::HwDevice(String::from_str("av_buffer_ref returned null")))
        } else {
            None
        },
        Call::SetOption(i) => if code < 0 {
            Some(option_error(options, i as usize, code))
        } else {
            None
        },
        Call::TakeOptions => if reply.null {
            Some(FfmpegError::HwDevice(String::from_str("av_dict_set produced null dict")))
        } else {
            None
        },
        Call::OpenCodec(_) | Call::FillCpuFrame { .. } => if code < 0 {
            Some(FfmpegError::OpenCodec(code))
        } else {
            None
        },
        Call::FindFilter => if reply.null {
            Some(FfmpegError::Bsf(-1))
        } else {
            None
        },
        Call::AllocFilter => if code < 0 || reply.null {
            Some(FfmpegError::Bsf(code))
        } else {
            None
        },
        Call::CopyParameters | Call::InitFilter => if code < 0 {
            Some(FfmpegError::Bsf(code))
        } else {
            None
        },
        Call::AllocContext(_)
        | Call::AllocCpuFrame
        | Call::AllocHwFrame
        | Call::AllocSwFrame
        | Call::AllocPacket => if reply.null {
            Some(FfmpegError::OpenCodec(-1))
        } else {
            None
        },
        Call::FillHwFrame => if code < 0 {
            Some(FfmpegError::HwFrames(text_and_code("av_hwframe_get_buffer returned ", code)))
        } else {
            None
        },
        Call::AllocScaler { .. } => if reply.null {
            Some(FfmpegError::HwDevice(String::from_str("sws_getContext returned null")))
        } else {
            None
        },
        Call::DriverVersion => if code != 0 || reply.version < MIN_DRIVER_VERSION {
            Some(driver_error(reply))
        } else {
            None
        },
        Call::AllocScratch { bytes, .. } => if code != 0 {
            let mut text: String = String::from_str("cudaMalloc(");
            push_decimal(&mut text, bytes as u64);
            text.append(") returned ");
            push_signed(&mut text, code as i64);
            Some(FfmpegError::HwDevice(text))
        } else {
            None
        },
    }
}

/// The calls that every VAAPI encoder makes: the device is opened, the pool and the
/// codec, then the filter that puts start codes into the stream, and last a frame in
/// memory and one on the device.
pub open spec fn vaapi_plan(content: PixelFormat, width: u32, height: u32) -> Seq<Call> {
    seq![
        Call::FindEncoder(CodecName::HevcVaapi),
        Call::OpenDevice(DeviceKind::Vaapi),
        Call::ProbeEncoder(CodecName::HevcVaapi),
        Call::AllocFrames,
        Call::InitFrames { surface: PixelFormat::Vaapi, content, width, height },
        Call::AllocContext(CodecName::HevcVaapi),
        Call::RefFrames,
        Call::SetOption(0),
        Call::SetOption(1),
        Call::SetOption(2),
        Call::SetOption(3),
        Call::SetOption(4),
        Call::TakeOptions,
        Call::OpenCodec(CodecName::HevcVaapi),
        Call::FindFilter,
        Call::AllocFilter,
        Call::CopyParameters,
        Call::InitFilter,
        Call::AllocCpuFrame,
        Call::FillCpuFrame { format: content, width, height },
        Call::AllocHwFrame,
        Call::FillHwFrame,
    ]
}

/// The calls with which every NVENC encoder begins. NVENC writes start codes
/// itself, so there is no filter.
pub open spec fn nvenc_plan(width: u32, height: u32) -> Seq<Call> {
    seq![
        Call::OpenDevice(DeviceKind::Cuda),
        Call::ProbeEncoder(CodecName::HevcNvenc),
        Call::AllocFrames,
        Call::InitFrames {
            surface: PixelFormat::Cuda,
            content: PixelFormat::Nv12,
            width,
            height,
        },
        Call::CheckFrames,
        Call::LendFrames,
        Call::FindEncoder(CodecName::HevcNvenc),
        Call::AllocContext(CodecName::HevcNvenc),
        Call::SetOption(0),
        Call::SetOption(1),
        Call::SetOption(2),
        Call::SetOption(3),
        Call::SetOption(4),
        Call::SetOption(5),
        Call::TakeOptions,
        Call::OpenCodec(CodecName::HevcNvenc),
    ]
}

/// The frames of an encoder that takes pictures from memory.
pub open spec fn nvenc_frames(width: u32, height: u32) -> Seq<Call> {
    seq![
        Call::AllocCpuFrame,
        Call::FillCpuFrame { format: PixelFormat::Nv12, width, height },
        Call::AllocHwFrame,
        Call::FillHwFrame,
    ]
}

/// The frame and the scratch memory of an encoder that converts on the device: a
/// BGRA picture, and planes of luma and of chroma at half its width and height.
pub open spec fn npp_frames(width: u32, height: u32) -> Seq<Call> {
    let luma = width * height;
    let chroma = (width / 2) as int * (height / 2) as int;
    seq![
        Call::AllocHwFrame,
        Call::FillHwFrame,
        Call::DriverVersion,
        Call::AllocScratch { plane: Resource::ScratchBgra, bytes: (luma * 4) as usize },
        Call::AllocScratch { plane: Resource::ScratchY, bytes: luma as usize },
        Call::AllocScratch { plane: Resource::ScratchU, bytes: chroma as usize },
        Call::AllocScratch { plane: Resource::ScratchV, bytes: chroma as usize },
    ]
}

/// The calls that set an encoder up.
pub open spec fn encoder_plan(kind: EncoderKind, width: u32, height: u32) -> Seq<Call> {
    match kind {
        EncoderKind::Vaapi => vaapi_plan(PixelFormat::Nv12, width, height),
        EncoderKind::VaapiMain10 => vaapi_plan(PixelFormat::P010le, width, height).push(
            Call::AllocScaler { width, height },
        ),
        EncoderKind::Nvenc => nvenc_plan(width, height) + nvenc_frames(width, height),
        EncoderKind::NvencNpp => nvenc_plan(width, height) + npp_frames(width, height),
    }
}

/// The calls that set a decoder up.
pub open spec fn decoder_plan(kind: DecoderKind) -> Seq<Call> {
    match kind {
        DecoderKind::Sw | DecoderKind::SwMain10 => seq![
            Call::FindDecoder(CodecName::Hevc),
            Call::AllocContext(CodecName::Hevc),
            Call::OpenCodec(CodecName::Hevc),
            Call::AllocSwFrame,
            Call::AllocPacket,
        ],
        DecoderKind::Nvdec => seq![
            Call::FindDecoder(CodecName::HevcCuvid),
            Call::OpenDevice(DeviceKind::Cuda),
            Call::ProbeEncoder(CodecName::HevcNvenc),
            Call::AllocContext(CodecName::HevcCuvid),
            Call::RefDevice,
            Call::OpenCodec(CodecName::HevcCuvid),
            Call::AllocHwFrame,
            Call::AllocSwFrame,
            Call::AllocPacket,
        ],
        DecoderKind::VaapiMain10 => seq![
            Call::FindDecoder(CodecName::Hevc),
            Call::OpenDevice(DeviceKind::Vaapi),
            Call::ProbeEncoder(CodecName::HevcVaapi),
            Call::AllocContext(CodecName::Hevc),
            Call::RefDevice,
            Call::OpenCodec(CodecName::Hevc),
            Call::AllocHwFrame,
            Call::AllocSwFrame,
            Call::AllocPacket,
        ],
    }
}

/// What a finished encoder releases, and in which order.
pub open spec fn encoder_teardown(kind: EncoderKind) -> Seq<Resource> {
    match kind {
        EncoderKind::Vaapi => seq![
            Resource::Filter,
            Resource::HwFrame,
            Resource::CpuFrame,
            Resource::Context,
            Resource::Frames,
            Resource::Device,
        ],
        EncoderKind::VaapiMain10 => seq![
            Resource::Scaler,
            Resource::Filter,
            Resource::HwFrame,
            Resource::CpuFrame,
            Resource::Context,
            Resource::Frames,
            Resource::Device,
        ],
        EncoderKind::Nvenc => seq![
            Resource::HwFrame,
            Resource::CpuFrame,
            Resource::Context,
            Resource::Frames,
            Resource::Device,
        ],
        EncoderKind::NvencNpp => seq![
            Resource::HwFrame,
            Resource::Context,
            Resource::ScratchBgra,
            Resource::ScratchY,
            Resource::ScratchU,
            Resource::ScratchV,
            Resource::Frames,
            Resource::Device,
        ],
    }
}

/// What a finished decoder releases, and in which order.
pub open spec fn decoder_teardown(kind: DecoderKind) -> Seq<Resource> {
    match kind {
        DecoderKind::Sw | DecoderKind::SwMain10 => seq![
            Resource::Packet,
            Resource::SwFrame,
            Resource::Context,
        ],
        DecoderKind::Nvdec | DecoderKind::VaapiMain10 => seq![
            Resource::Packet,
            Resource::SwFrame,
            Resource::HwFrame,
            Resource::Context,
            Resource::Device,
        ],
    }
}

/// A set-up that is under way.
#[derive(Debug)]
pub struct Setup {
    plan: Vec<Call>,
    options: Vec<DictEntry>,
    node: Option<String>,
    at: usize,
    held: Vec<Resource>,
    announce: bool,
}

/// A set-up that is under way: its calls, its private options, the device file that
/// was asked for, how many calls have been answered, and whether it is announced
/// when it is finished.
pub ghost struct SetupView {
    pub plan: Seq<Call>,
    pub options: Seq<(Seq<char>, Seq<char>)>,
    pub node: Option<Seq<char>>,
    pub at: nat,
    pub announce: bool,
}

/// What an answer leads to.
#[derive(Debug)]
pub enum SetupStep {
    /// The next call is to be made.
    Next(Setup),
    /// The set-up has failed; `release` is to be released, in this order.
    Failed { error: FfmpegError, release: Vec<Resource> },
    /// Everything is there; `announce` says whether it is logged.
    Ready { holds: Vec<Resource>, announce: bool },
}

/// A device file as a sequence of characters.
pub open spec fn node_text(node: Option<String>) -> Option<Seq<char>> {
    match node {
        Some(path) => Some(path@),
        None => None,
    }
}

impl View for Setup {
    type V = SetupView;

    closed spec fn view(&self) -> SetupView {
        SetupView {
            plan: self.plan@,
            options: entries(self.options@),
            node: node_text(self.node),
            at: self.at as nat,
            announce: self.announce,
        }
    }
}

impl SetupView {
    /// The set-up before its first call.
    pub open spec fn start(
        plan: Seq<Call>,
        options: Seq<(Seq<char>, Seq<char>)>,
        node: Option<Seq<char>>,
        announce: bool,
    ) -> SetupView {
        SetupView { plan, options, node, at: 0, announce }
    }
}

fn reversed(held: &Vec<Resource>) -> (r: Vec<Resource>)
    ensures
        r@ == held@.reverse(),
{
    let mut r: Vec<Resource> = Vec::new();
    let mut left: usize = held.len();
    while left > 0
        invariant
            left <= held@.len(),
            r@ == held@.reverse().take(held@.len() - left),
        decreases left,
    {
        left -= 1;
        r.push(held[left]);
        assert(r@ =~= held@.reverse().take(held@.len() - left));
    }
    assert(r@ =~= held@.reverse());
    r
}

fn apply_effect(held: &mut Vec<Resource>, call: Call)
    ensures
        final(held)@ == effect(old(held)@, call),
{
    match call {
        Call::OpenDevice(_) => held.push(Resource::Device),
        Call::AllocFrames => held.push(Resource::Frames),
        Call::LendFrames => held.push(Resource::FramesRef),
        Call::AllocContext(_) => {
            let n: usize = held.len();
            if n > 0 && held[n - 1] == Resource::FramesRef {
                held.pop();
            }
            held.push(Resource::Context);
        },
        Call::AllocFilter => held.push(Resource::Filter),
        Call::AllocCpuFrame => held.push(Resource::CpuFrame),
        Call::AllocHwFrame => held.push(Resource::HwFrame),
        Call::AllocSwFrame => held.push(Resource::SwFrame),
        Call::AllocPacket => held.push(Resource::Packet),
        Call::AllocScaler { .. } => held.push(Resource::Scaler),
        Call::AllocScratch { plane, .. } => held.push(plane),
        _ => {},
    }
}

fn vaapi_calls(content: PixelFormat, width: u32, height: u32) -> (r: Vec<Call>)
    ensures
        r@ == vaapi_plan(content, width, height),
{
    let r: Vec<Call> = vec![
        Call::FindEncoder(CodecName::HevcVaapi),
        Call::OpenDevice(DeviceKind::Vaapi),
        Call::ProbeEncoder(CodecName::HevcVaapi),
        Call::AllocFrames,
        Call::InitFrames { surface: PixelFormat::Vaapi, content, width, height },
        Call::AllocContext(CodecName::HevcVaapi),
        Call::RefFrames,
        Call::SetOption(0),
        Call::SetOption(1),
        Call::SetOption(2),
        Call::SetOption(3),
        Call::SetOption(4),
        Call::TakeOptions,
        Call::OpenCodec(CodecName::HevcVaapi),
        Call::FindFilter,
        Call::AllocFilter,
        Call::CopyParameters,
        Call::InitFilter,
        Call::AllocCpuFrame,
        Call::FillCpuFrame { format: content, width, height },
        Call::AllocHwFrame,
        Call::FillHwFrame,
    ];
    assert(r@ =~= vaapi_plan(content, width, height));
    r
}

fn nvenc_calls(width: u32, height: u32) -> (r: Vec<Call>)
    ensures
        r@ == nvenc_plan(width, height),
{
    let r: Vec<Call> = vec![
        Call::OpenDevice(DeviceKind::Cuda),
        Call::ProbeEncoder(CodecName::HevcNvenc),
        Call::AllocFrames,
        Call::InitFrames {
            surface: PixelFormat::Cuda,
            content: PixelFormat::Nv12,
            width,
            height,
        },
        Call::CheckFrames,
        Call::LendFrames,
        Call::FindEncoder(CodecName::HevcNvenc),
        Call::AllocContext(CodecName::HevcNvenc),
        Call::SetOption(0),
        Call::SetOption(1),
        Call::SetOption(2),
        Call::SetOption(3),
        Call::SetOption(4),
        Call::SetOption(5),
        Call::TakeOptions,
        Call::OpenCodec(CodecName::HevcNvenc),
    ];
    assert(r@ =~= nvenc_plan(width, height));
    r
}

/// The size of the scratch memory is a number of bytes that the machine can count.
pub open spec fn scratch_fits(kind: EncoderKind, width: u32, height: u32) -> bool {
    kind is NvencNpp ==> width * 4 <= u32::MAX && width * height * 4 <= usize::MAX
}

fn encoder_calls(kind: EncoderKind, width: u32, height: u32) -> (r: Vec<Call>)
    requires
        scratch_fits(kind, width, height),
    ensures
        r@ == encoder_plan(kind, width, height),
{
    match kind {
        EncoderKind::Vaapi => vaapi_calls(PixelFormat::Nv12, width, height),
        EncoderKind::VaapiMain10 => {
            let mut r: Vec<Call> = vaapi_calls(PixelFormat::P010le, width, height);
            r.push(Call::AllocScaler { width, height });
            r
        },
        EncoderKind::Nvenc => {
            let mut r: Vec<Call> = nvenc_calls(width, height);
            r.push(Call::AllocCpuFrame);
            r.push(Call::FillCpuFrame { format: PixelFormat::Nv12, width, height });
            r.push(Call::AllocHwFrame);
            r.push(Call::FillHwFrame);
            assert(r@ =~= encoder_plan(kind, width, height));
            r
        },
        EncoderKind::NvencNpp => {
            proof {
                let w = width as int;
                let h = height as int;
                assert(0 <= (w / 2) * (h / 2) <= w * h && 0 <= w * h) by (nonlinear_arith)
                    requires
                        0 <= w,
                        0 <= h,
                        0 <= w / 2 <= w,
                        0 <= h / 2 <= h,
                ;
            }
            let luma: usize = (width as usize) * (height as usize);
            let chroma: usize = (width as usize / 2) * (height as usize / 2);
            let mut r: Vec<Call> = nvenc_calls(width, height);
            r.push(Call::AllocHwFrame);
            r.push(Call::FillHwFrame);
            r.push(Call::DriverVersion);
            r.push(Call::AllocScratch { plane: Resource::ScratchBgra, bytes: luma * 4 });
            r.push(Call::AllocScratch { plane: Resource::ScratchY, bytes: luma });
            r.push(Call::AllocScratch { plane: Resource::ScratchU, bytes: chroma });
            r.push(Call::AllocScratch { plane: Resource::ScratchV, bytes: chroma });
            assert(r@ =~= encoder_plan(kind, width, height));
            r
        },
    }
}

fn decoder_calls(kind: DecoderKind) -> (r: Vec<Call>)
    ensures
        r@ == decoder_plan(kind),
{
    let r: Vec<Call> = match kind {
        DecoderKind::Sw | DecoderKind::SwMain10 => vec![
            Call::FindDecoder(CodecName::Hevc),
            Call::AllocContext(CodecName::Hevc),
            Call::OpenCodec(CodecName::Hevc),
            Call::AllocSwFrame,
            Call::AllocPacket,
        ],
        DecoderKind::Nvdec => vec![
            Call::FindDecoder(CodecName::HevcCuvid),
            Call::OpenDevice(DeviceKind::Cuda),
            Call::ProbeEncoder(CodecName::HevcNvenc),
            Call::AllocContext(CodecName::HevcCuvid),
            Call::RefDevice,
            Call::OpenCodec(CodecName::HevcCuvid),
            Call::AllocHwFrame,
            Call::AllocSwFrame,
            Call::AllocPacket,
        ],
        DecoderKind::VaapiMain10 => vec![
            Call::FindDecoder(CodecName::Hevc),
            Call::OpenDevice(DeviceKind::Vaapi),
            Call::ProbeEncoder(CodecName::HevcVaapi),
            Call::AllocContext(CodecName::Hevc),
            Call::RefDevice,
            Call::OpenCodec(CodecName::Hevc),
            Call::AllocHwFrame,
            Call::AllocSwFrame,
            Call::AllocPacket,
        ],
    };
    assert(r@ =~= decoder_plan(kind));
    r
}

impl Setup {
    /// A call is to be made, and what the answered calls acquired is held.
    pub closed spec fn wf(self) -> bool {
        &&& self.at < self.plan@.len()
        &&& self.held@ == held_after(self.plan@, self.at as nat)
        &&& forall|i: int|
            0 <= i < self.plan@.len() ==> option_there(#[trigger] self.plan@[i], self.options@.len())
    }

    /// The set-up of an encoder.
    pub fn encoder(
        kind: EncoderKind,
        t: &EncoderTunables,
        node: Option<String>,
        announce: bool,
    ) -> (r: Self)
        requires
            scratch_fits(kind, t.width, t.height),
        ensures
            r.wf(),
            r@ == SetupView::start(
                encoder_plan(kind, t.width, t.height),
                options_of(kind, t.gop_size),
                node_text(node),
                announce,
            ),
    {
        let plan: Vec<Call> = encoder_calls(kind, t.width, t.height);
        let options: Vec<DictEntry> = build_options(kind, t.gop_size);
        assert(options@.len() == entries(options@).len());
        Setup { plan, options, node, at: 0, held: Vec::new(), announce }
    }

    /// The set-up of a decoder.
    pub fn decoder(kind: DecoderKind, node: Option<String>) -> (r: Self)
        ensures
            r.wf(),
            r@ == SetupView::start(decoder_plan(kind), seq![], node_text(node), true),
    {
        let plan: Vec<Call> = decoder_calls(kind);
        let r: Setup = Setup {
            plan,
            options: Vec::new(),
            node,
            at: 0,
            held: Vec::new(),
            announce: true,
        };
        assert(entries(r.options@) =~= seq![]);
        r
    }

    /// The call that is to be made.
    pub fn call(&self) -> (r: Call)
        requires
            self.wf(),
        ensures
            self@.at < self@.plan.len(),
            r == self@.plan[self@.at as int],
    {
        self.plan[self.at]
    }

    /// The private options, by their numbers.
    pub fn options(&self) -> (r: &Vec<DictEntry>)
        ensures
            entries(r@) == self@.options,
    {
        &self.options
    }

    /// The device file that a device is opened by; the default one if there is none.
    pub fn node(&self) -> (r: &Option<String>)
        ensures
            node_text(*r) == self@.node,
    {
        &self.node
    }

    /// The step that follows from the answer to the call.
    pub fn on_reply(self, reply: &Reply) -> (r: SetupStep)
        requires
            self.wf(),
        ensures
            match refusal(self@.plan[self@.at as int], *reply, self@.options) {
                Some(failure) => r matches SetupStep::Failed { error, release } && error@
                    == failure && release@ == held_after(self@.plan, self@.at).reverse(),
                None => if self@.at + 1 < self@.plan.len() {
                    r matches SetupStep::Next(s) && s.wf() && s@ == (SetupView {
                        at: self@.at + 1,
                        ..self@
                    })
                } else {
                    r matches SetupStep::Ready { holds, announce } && holds@ == held_after(
                        self@.plan,
                        self@.plan.len(),
                    ) && announce == self@.announce
                },
            },
    {
        let mut s: Setup = self;
        let call: Call = s.plan[s.at];
        match check(call, reply, &s.options) {
            Some(error) => SetupStep::Failed { error, release: reversed(&s.held) },
            None => {
                apply_effect(&mut s.held, call);
                assert(s.plan@.len() == s.plan.len());
                s.at += 1;
                if s.at < s.plan.len() {
                    SetupStep::Next(s)
                } else {
                    SetupStep::Ready { holds: s.held, announce: s.announce }
                }
            },
        }
    }
}

/// What a finished encoder releases, and in which order.
pub fn release_encoder(kind: EncoderKind) -> (r: Vec<Resource>)
    ensures
        r@ == encoder_teardown(kind),
{
    let r: Vec<Resource> = match kind {
        EncoderKind::Vaapi => vec![
            Resource::Filter,
            Resource::HwFrame,
            Resource::CpuFrame,
            Resource::Context,
            Resource::Frames,
            Resource::Device,
        ],
        EncoderKind::VaapiMain10 => vec![
            Resource::Scaler,
            Resource::Filter,
            Resource::HwFrame,
            Resource::CpuFrame,
            Resource::Context,
            Resource::Frames,
            Resource::Device,
        ],
        EncoderKind::Nvenc => vec![
            Resource::HwFrame,
            Resource::CpuFrame,
            Resource::Context,
            Resource::Frames,
            Resource::Device,
        ],
        EncoderKind::NvencNpp => vec![
            Resource::HwFrame,
            Resource::Context,
            Resource::ScratchBgra,
            Resource::ScratchY,
            Resource::ScratchU,
            Resource::ScratchV,
            Resource::Frames,
            Resource::Device,
        ],
    };
    assert(r@ =~= encoder_teardown(kind));
    r
}

/// What a finished decoder releases, and in which order.
pub fn release_decoder(kind: DecoderKind) -> (r: Vec<Resource>)
    ensures
        r@ == decoder_teardown(kind),
{
    let r: Vec<Resource> = match kind {
        DecoderKind::Sw | DecoderKind::SwMain10 => vec![
            Resource::Packet,
            Resource::SwFrame,
            Resource::Context,
        ],
        DecoderKind::Nvdec | DecoderKind::VaapiMain10 => vec![
            Resource::Packet,
            Resource::SwFrame,
            Resource::HwFrame,
            Resource::Context,
            Resource::Device,
        ],
    };
    assert(r@ =~= decoder_teardown(kind));
    r
}

} // verus!
