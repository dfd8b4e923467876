//! What holds of every set-up.

use vstd::prelude::*;
use crate::media_ffmpeg::options::{options_of, EncoderKind, PixelFormat};
use crate::media_ffmpeg::setup::{
    decoder_plan, decoder_teardown, effect, encoder_plan, encoder_teardown, held_after, refusal,
    Call, CodecName, DecoderKind, Reply, Resource, Setup, SetupStep,
};

verus! {

/// How far a set-up has come: it waits for the answer to a call, a call was
/// refused, or everything is there.
pub ghost enum Progress {
    Waiting(nat),
    Failed(nat),
    Ready,
}

/// The call with this number is refused.
pub open spec fn refused(
    plan: Seq<Call>,
    options: Seq<(Seq<char>, Seq<char>)>,
    replies: Seq<Reply>,
    i: int,
) -> bool {
    refusal(plan[i], replies[i], options) is Some
}

/// Where the answers to its calls bring a set-up.
pub open spec fn progress(
    plan: Seq<Call>,
    options: Seq<(Seq<char>, Seq<char>)>,
    replies: Seq<Reply>,
) -> Progress
    decreases replies.len(),
{
    if replies.len() == 0 {
        Progress::Waiting(0)
    } else {
        match progress(plan, options, replies.drop_last()) {
            Progress::Waiting(at) => if refusal(plan[at as int], replies.last(), options) is Some {
                Progress::Failed(at)
            } else if at + 1 < plan.len() {
                Progress::Waiting(at + 1)
            } else {
                Progress::Ready
            },
            end => end,
        }
    }
}

/// A set-up is ready exactly if every call was answered and none refused; it has
/// failed exactly at the first call that was.
pub proof fn law_first_refusal_decides(
    plan: Seq<Call>,
    options: Seq<(Seq<char>, Seq<char>)>,
    replies: Seq<Reply>,
)
    requires
        plan.len() > 0,
    ensures
        match progress(plan, options, replies) {
            Progress::Waiting(at) => at == replies.len() && at < plan.len() && forall|i: int|
                0 <= i < at ==> !refused(plan, options, replies, i),
            Progress::Failed(at) => at < plan.len() && at < replies.len() && refused(
                plan,
                options,
                replies,
                at as int,
            ) && forall|i: int| 0 <= i < at ==> !refused(plan, options, replies, i),
            Progress::Ready => plan.len() <= replies.len() && forall|i: int|
                0 <= i < plan.len() ==> !refused(plan, options, replies, i),
        },
    decreases replies.len(),
{
    if replies.len() > 0 {
        let before = replies.drop_last();
        law_first_refusal_decides(plan, options, before);
        assert forall|i: int| 0 <= i < before.len() implies refused(plan, options, before, i)
            == refused(plan, options, replies, i) by {
            assert(before[i] == replies[i]);
        }
    }
}

proof fn lemma_first_held_stays(plan: Seq<Call>, k: nat, n: nat)
    requires
        k < n <= plan.len(),
        plan[k as int] is OpenDevice,
        held_after(plan, k) == Seq::<Resource>::empty(),
    ensures
        held_after(plan, n).len() > 0,
        held_after(plan, n)[0] == Resource::Device,
    decreases n,
{
    if n > k + 1 {
        lemma_first_held_stays(plan, k, (n - 1) as nat);
    }
}

/// Whatever call of an encoder's set-up fails, the device goes last of all that is
/// released.
pub proof fn law_a_failed_encoder_gives_its_device_back_last(
    kind: EncoderKind,
    width: u32,
    height: u32,
    n: nat,
)
    requires
        n < encoder_plan(kind, width, height).len(),
        held_after(encoder_plan(kind, width, height), n).len() > 0,
    ensures
        held_after(encoder_plan(kind, width, height), n).reverse().last() == Resource::Device,
{
    let plan = encoder_plan(kind, width, height);
    reveal_with_fuel(held_after, 2);
    let k: nat = if kind is Vaapi || kind is VaapiMain10 {
        1
    } else {
        0
    };
    lemma_first_held_stays(plan, k, n);
}

/// Whatever call of a hardware decoder's set-up fails, the device goes last of all
/// that is released.
pub proof fn law_a_failed_decoder_gives_its_device_back_last(kind: DecoderKind, n: nat)
    requires
        kind is Nvdec || kind is VaapiMain10,
        n < decoder_plan(kind).len(),
        held_after(decoder_plan(kind), n).len() > 0,
    ensures
        held_after(decoder_plan(kind), n).reverse().last() == Resource::Device,
{
    reveal_with_fuel(held_after, 2);
    lemma_first_held_stays(decoder_plan(kind), 1, n);
}

/// The call acquires nothing.
spec fn idle(call: Call) -> bool {
    effect(seq![], call) == Seq::<Resource>::empty()
}

proof fn lemma_idle(plan: Seq<Call>, from: nat, to: nat)
    requires
        from <= to <= plan.len(),
        forall|i: int| from <= i < to ==> idle(#[trigger] plan[i]),
    ensures
        held_after(plan, to) == held_after(plan, from),
    decreases to - from,
{
    if from < to {
        lemma_idle(plan, from, (to - 1) as nat);
        assert(idle(plan[to - 1]));
    }
}

/// The two lists name the same resources, each once.
pub open spec fn same_resources(a: Seq<Resource>, b: Seq<Resource>) -> bool {
    &&& a.no_duplicates()
    &&& b.no_duplicates()
    &&& a.to_set() == b.to_set()
}

proof fn lemma_vaapi_holds(kind: EncoderKind, width: u32, height: u32)
    requires
        kind is Vaapi || kind is VaapiMain10,
    ensures
        held_after(encoder_plan(kind, width, height), 22) == seq![
            Resource::Device,
            Resource::Frames,
            Resource::Context,
            Resource::Filter,
            Resource::CpuFrame,
            Resource::HwFrame,
        ],
{
    let plan = encoder_plan(kind, width, height);
    lemma_idle(plan, 0, 1);
    assert(held_after(plan, 2) =~= seq![Resource::Device]);
    lemma_idle(plan, 2, 3);
    assert(held_after(plan, 4) =~= seq![Resource::Device, Resource::Frames]);
    lemma_idle(plan, 4, 5);
    let with_context = seq![Resource::Device, Resource::Frames, Resource::Context];
    assert(held_after(plan, 6) =~= with_context);
    lemma_idle(plan, 6, 15);
    let with_filter = with_context.push(Resource::Filter);
    assert(held_after(plan, 16) =~= with_filter);
    lemma_idle(plan, 16, 18);
    assert(held_after(plan, 19) =~= with_filter.push(Resource::CpuFrame));
    lemma_idle(plan, 19, 20);
    assert(held_after(plan, 21) =~= with_filter.push(Resource::CpuFrame).push(Resource::HwFrame));
    lemma_idle(plan, 21, 22);
}

proof fn lemma_nvenc_holds(kind: EncoderKind, width: u32, height: u32)
    requires
        kind is Nvenc || kind is NvencNpp,
    ensures
        held_after(encoder_plan(kind, width, height), 16) == seq![
            Resource::Device,
            Resource::Frames,
            Resource::Context,
        ],
{
    let plan = encoder_plan(kind, width, height);
    assert(held_after(plan, 0) =~= seq![]);
    assert(held_after(plan, 1) =~= seq![Resource::Device]);
    lemma_idle(plan, 1, 2);
    assert(held_after(plan, 3) =~= seq![Resource::Device, Resource::Frames]);
    lemma_idle(plan, 3, 5);
    assert(held_after(plan, 6) =~= seq![Resource::Device, Resource::Frames, Resource::FramesRef]);
    lemma_idle(plan, 6, 7);
    assert(held_after(plan, 8) =~= seq![Resource::Device, Resource::Frames, Resource::Context]);
    lemma_idle(plan, 8, 16);
}

/// A finished encoder releases what its set-up left it with, all of it, each once.
pub proof fn law_encoders_release_what_they_hold(kind: EncoderKind, width: u32, height: u32)
    ensures
        same_resources(
            encoder_teardown(kind),
            held_after(
                encoder_plan(kind, width, height),
                encoder_plan(kind, width, height).len(),
            ),
        ),
{
    let plan = encoder_plan(kind, width, height);
    let held = held_after(plan, plan.len());
    let freed = encoder_teardown(kind);
    match kind {
        EncoderKind::Vaapi => {
            lemma_vaapi_holds(kind, width, height);
            assert(freed == seq![held[3], held[5], held[4], held[2], held[1], held[0]]);
            assert(held == seq![freed[5], freed[4], freed[3], freed[0], freed[2], freed[1]]);
        },
        EncoderKind::VaapiMain10 => {
            lemma_vaapi_holds(kind, width, height);
            assert(held == held_after(plan, 22).push(Resource::Scaler));
            assert(freed == seq![held[6], held[3], held[5], held[4], held[2], held[1], held[0]]);
            assert(held == seq![
                freed[6],
                freed[5],
                freed[4],
                freed[1],
                freed[3],
                freed[2],
                freed[0],
            ]);
        },
        EncoderKind::Nvenc => {
            lemma_nvenc_holds(kind, width, height);
            assert(held_after(plan, 17) == held_after(plan, 16).push(Resource::CpuFrame));
            lemma_idle(plan, 17, 18);
            assert(held_after(plan, 19) == held_after(plan, 18).push(Resource::HwFrame));
            lemma_idle(plan, 19, 20);
            assert(freed == seq![held[4], held[3], held[2], held[1], held[0]]);
            assert(held == seq![freed[4], freed[3], freed[2], freed[1], freed[0]]);
        },
        EncoderKind::NvencNpp => {
            lemma_nvenc_holds(kind, width, height);
            assert(held_after(plan, 17) == held_after(plan, 16).push(Resource::HwFrame));
            lemma_idle(plan, 17, 19);
            assert(held_after(plan, 20) == held_after(plan, 19).push(Resource::ScratchBgra));
            assert(held_after(plan, 21) == held_after(plan, 20).push(Resource::ScratchY));
            assert(held_after(plan, 22) == held_after(plan, 21).push(Resource::ScratchU));
            assert(held_after(plan, 23) == held_after(plan, 22).push(Resource::ScratchV));
            assert(freed == seq![
                held[3],
                held[2],
                held[4],
                held[5],
                held[6],
                held[7],
                held[1],
                held[0],
            ]);
            assert(held == seq![
                freed[7],
                freed[6],
                freed[1],
                freed[0],
                freed[2],
                freed[3],
                freed[4],
                freed[5],
            ]);
        },
    }
    lemma_same_resources(freed, held);
}

proof fn lemma_same_resources(a: Seq<Resource>, b: Seq<Resource>)
    requires
        a.no_duplicates(),
        b.no_duplicates(),
        forall|i: int| 0 <= i < a.len() ==> b.contains(#[trigger] a[i]),
        forall|i: int| 0 <= i < b.len() ==> a.contains(#[trigger] b[i]),
    ensures
        same_resources(a, b),
{
    assert forall|r: Resource| a.to_set().contains(r) implies b.to_set().contains(r) by {
        let i = choose|i: int| 0 <= i < a.len() && a[i] == r;
        assert(b.contains(a[i]));
    }
    assert forall|r: Resource| b.to_set().contains(r) implies a.to_set().contains(r) by {
        let i = choose|i: int| 0 <= i < b.len() && b[i] == r;
        assert(a.contains(b[i]));
    }
    assert(a.to_set() =~= b.to_set());
}

/// A finished decoder releases what its set-up left it with, all of it, each once,
/// in reverse.
pub proof fn law_decoders_release_what_they_hold(kind: DecoderKind)
    ensures
        decoder_teardown(kind) == held_after(decoder_plan(kind), decoder_plan(kind).len()).reverse(),
        decoder_teardown(kind).no_duplicates(),
{
    let plan = decoder_plan(kind);
    reveal_with_fuel(held_after, 10);
    assert(decoder_teardown(kind) =~= held_after(plan, plan.len()).reverse());
}

/// The codec that is opened at place `i` was looked up under its name at place `j`, and
/// the context made for it at place `k`.
pub open spec fn opens_what_it_found(plan: Seq<Call>, i: int, j: int, k: int) -> bool {
    &&& 0 <= j < k < i
    &&& plan[i] matches Call::OpenCodec(name) && plan[k] == Call::AllocContext(name) && (plan[j]
        == Call::FindEncoder(name) || plan[j] == Call::FindDecoder(name))
}

/// An encoder opens one codec, the one that it looked up for itself: the look-up that
/// belongs to the device makes no difference.
pub proof fn law_encoders_open_what_they_found(kind: EncoderKind, width: u32, height: u32, i: int)
    requires
        0 <= i < encoder_plan(kind, width, height).len(),
        encoder_plan(kind, width, height)[i] is OpenCodec,
    ensures
        exists|j: int, k: int| opens_what_it_found(encoder_plan(kind, width, height), i, j, k),
        forall|n: int|
            0 <= n < encoder_plan(kind, width, height).len() && n != i ==> !(#[trigger] encoder_plan(
                kind,
                width,
                height,
            )[n] is OpenCodec),
{
    let plan = encoder_plan(kind, width, height);
    if kind is Vaapi || kind is VaapiMain10 {
        assert(opens_what_it_found(plan, i, 0, 5));
    } else {
        assert(opens_what_it_found(plan, i, 6, 7));
    }
}

/// A decoder opens one codec, the one that it looked up for itself: `hevc_cuvid` on
/// CUDA, `hevc` elsewhere. The encoder that its device is asked for makes no
/// difference.
pub proof fn law_decoders_open_what_they_found(kind: DecoderKind, i: int)
    requires
        0 <= i < decoder_plan(kind).len(),
        decoder_plan(kind)[i] is OpenCodec,
    ensures
        exists|j: int, k: int| opens_what_it_found(decoder_plan(kind), i, j, k),
        decoder_plan(kind)[i] == Call::OpenCodec(
            if kind is Nvdec {
                CodecName::HevcCuvid
            } else {
                CodecName::Hevc
            },
        ),
        forall|n: int|
            0 <= n < decoder_plan(kind).len() && n != i ==> !(#[trigger] decoder_plan(
                kind,
            )[n] is OpenCodec),
{
    let plan = decoder_plan(kind);
    if kind is Sw || kind is SwMain10 {
        assert(opens_what_it_found(plan, i, 0, 1));
    } else {
        assert(opens_what_it_found(plan, i, 0, 3));
    }
}

/// Whether a set-up succeeds does not depend on the size of the picture or on the
/// length of a group of pictures: a small trial set-up is refused at the same call,
/// or at none, as the one of the size that is wanted.
#[verifier::rlimit(50)]
#[verifier::spinoff_prover]
pub proof fn law_a_small_trial_tells_of_the_real_one(
    kind: EncoderKind,
    width: u32,
    height: u32,
    gop: u32,
    trial_width: u32,
    trial_height: u32,
    trial_gop: u32,
    replies: Seq<Reply>,
)
    ensures
        progress(encoder_plan(kind, width, height), options_of(kind, gop), replies) == progress(
            encoder_plan(kind, trial_width, trial_height),
            options_of(kind, trial_gop),
            replies,
        ),
    decreases replies.len(),
{
    let plan = encoder_plan(kind, width, height);
    let trial = encoder_plan(kind, trial_width, trial_height);
    let options = options_of(kind, gop);
    let trial_options = options_of(kind, trial_gop);
    if replies.len() > 0 {
        law_a_small_trial_tells_of_the_real_one(
            kind,
            width,
            height,
            gop,
            trial_width,
            trial_height,
            trial_gop,
            replies.drop_last(),
        );
        law_first_refusal_decides(plan, options, replies.drop_last());
        if let Progress::Waiting(at) = progress(plan, options, replies.drop_last()) {
            assert(refusal(plan[at as int], replies.last(), options) is Some <==> refusal(
                trial[at as int],
                replies.last(),
                trial_options,
            ) is Some);
        }
    }
}

/// An answer without a fault lets every set-up go on: no null pointer, code zero, a driver
/// of version 12000 or later, and a pool that holds NV12 where that is asked for.
pub proof fn law_sound_answers_are_never_refused(
    call: Call,
    reply: Reply,
    options: Seq<(Seq<char>, Seq<char>)>,
)
    requires
        !reply.null,
        reply.code == 0,
        reply.version >= 12_000,
        reply.content is Nv12,
    ensures
        refusal(call, reply, options) is None,
{
}

/// A call that returns a pointer is refused exactly if it is null, one of FFmpeg that
/// returns a code exactly if that is negative, one of CUDA exactly if it is not zero; the
/// driver must be of version 12000 at least, and the pool must hold NV12.
pub proof fn law_faults_are_refused(
    call: Call,
    reply: Reply,
    options: Seq<(Seq<char>, Seq<char>)>,
)
    ensures
        refusal(call, reply, options) is Some <==> match call {
            Call::FindEncoder(_)
            | Call::ProbeEncoder(_)
            | Call::FindDecoder(_)
            | Call::AllocFrames
            | Call::AllocContext(_)
            | Call::RefFrames
            | Call::LendFrames
            | Call::RefDevice
            | Call::TakeOptions
            | Call::FindFilter
            | Call::AllocCpuFrame
            | Call::AllocHwFrame
            | Call::AllocSwFrame
            | Call::AllocPacket
            | Call::AllocScaler { .. } => reply.null,
            Call::OpenDevice(_)
            | Call::InitFrames { .. }
            | Call::SetOption(_)
            | Call::OpenCodec(_)
            | Call::CopyParameters
            | Call::InitFilter
            | Call::FillCpuFrame { .. }
            | Call::FillHwFrame => reply.code < 0,
            Call::AllocFilter => reply.code < 0 || reply.null,
            Call::AllocScratch { .. } => reply.code != 0,
            Call::DriverVersion => reply.code != 0 || reply.version < 12_000,
            Call::CheckFrames => !(reply.content is Nv12),
        },
{
}

/// The frames of an encoder have its size and its format: P010 for ten bits, NV12 for
/// eight, on surfaces of its own kind of device; a scaler and scratch memory are made for
/// the same size.
pub proof fn law_frames_have_the_encoders_size_and_format(
    kind: EncoderKind,
    width: u32,
    height: u32,
    n: int,
)
    requires
        0 <= n < encoder_plan(kind, width, height).len(),
        width * height * 4 <= u32::MAX,
    ensures
        ({
            let call = encoder_plan(kind, width, height)[n];
            let format = if kind is VaapiMain10 {
                PixelFormat::P010le
            } else {
                PixelFormat::Nv12
            };
            let cuda = kind is Nvenc || kind is NvencNpp;
            &&& call matches Call::InitFrames { surface, content, width: w, height: h } ==> {
                &&& surface == if cuda {
                    PixelFormat::Cuda
                } else {
                    PixelFormat::Vaapi
                }
                &&& content == format
                &&& (w, h) == (width, height)
            }
            &&& call matches Call::FillCpuFrame { format: f, width: w, height: h } ==> f == format
                && (w, h) == (width, height)
            &&& call matches Call::AllocScaler { width: w, height: h } ==> kind is VaapiMain10 && (
                w,
                h,
            ) == (width, height)
            &&& call matches Call::OpenDevice(device) ==> (device is Cuda <==> cuda)
            &&& call matches Call::AllocScratch { plane, bytes } ==> {
                &&& kind is NvencNpp
                &&& plane is ScratchBgra ==> bytes == 4 * width * height
                &&& plane is ScratchY ==> bytes == width * height
                &&& plane is ScratchU || plane is ScratchV ==> bytes == (width / 2) * (height / 2)
                &&& plane is ScratchBgra || plane is ScratchY || plane is ScratchU || plane
                    is ScratchV
            }
            &&& call is CheckFrames || call is LendFrames ==> cuda
            &&& call is FindFilter || call is AllocFilter || call is CopyParameters || call
                is InitFilter ==> !cuda
        }),
{
    let w = width as int;
    let h = height as int;
    assert(0 <= w * h) by (nonlinear_arith)
        requires
            0 <= w,
            0 <= h,
    ;
    assert(0 <= (w / 2) * (h / 2) <= w * h) by (nonlinear_arith)
        requires
            0 <= w,
            0 <= h,
    ;
    assert(4 * w * h == w * h * 4) by (nonlinear_arith);
    assert((width / 2) as int == w / 2 && (height / 2) as int == h / 2);
}

/// Every private option of an encoder is set, before its codec is opened.
pub proof fn law_every_option_is_set(
    kind: EncoderKind,
    width: u32,
    height: u32,
    gop: u32,
    i: u8,
    n: int,
)
    requires
        i < options_of(kind, gop).len(),
        0 <= n < encoder_plan(kind, width, height).len(),
        encoder_plan(kind, width, height)[n] is OpenCodec,
    ensures
        exists|k: int|
            0 <= k < n && #[trigger] encoder_plan(kind, width, height)[k] == Call::SetOption(i),
{
    let plan = encoder_plan(kind, width, height);
    if kind is Vaapi || kind is VaapiMain10 {
        assert(plan[7 + i as int] == Call::SetOption(i));
    } else {
        assert(plan[8 + i as int] == Call::SetOption(i));
    }
}

/// A decoder's device is of its own kind, and only a decoder on a device opens one; every
/// decoder ends up with a frame in memory and a packet.
pub proof fn law_decoders_open_their_own_device(kind: DecoderKind, n: int)
    requires
        0 <= n < decoder_plan(kind).len(),
    ensures
        decoder_plan(kind)[n] matches Call::OpenDevice(device) ==> {
            &&& device is Cuda ==> kind is Nvdec
            &&& device is Vaapi ==> kind is VaapiMain10
        },
        decoder_teardown(kind).contains(Resource::SwFrame),
        decoder_teardown(kind).contains(Resource::Packet),
        decoder_teardown(kind).contains(Resource::Device) <==> kind is Nvdec || kind is VaapiMain10,
{
    let all = decoder_teardown(kind);
    assert(all[0] == Resource::Packet);
    assert(all[1] == Resource::SwFrame);
    if kind is Nvdec || kind is VaapiMain10 {
        assert(all[4] == Resource::Device);
    }
}

/// Every codec has a name of its own under which FFmpeg knows it.
pub proof fn law_codec_names(name: CodecName)
    ensures
        name is HevcVaapi <==> name.text() == "hevc_vaapi"@,
        name is HevcNvenc <==> name.text() == "hevc_nvenc"@,
        name is Hevc <==> name.text() == "hevc"@,
        name is HevcCuvid <==> name.text() == "hevc_cuvid"@,
{
    reveal_strlit("hevc_vaapi");
    reveal_strlit("hevc_nvenc");
    reveal_strlit("hevc");
    reveal_strlit("hevc_cuvid");
    assert("hevc_vaapi"@[5] == 'v' && "hevc_nvenc"@[5] == 'n' && "hevc_cuvid"@[5] == 'c');
    assert("hevc"@.len() == 4 && "hevc_vaapi"@.len() == 10 && "hevc_nvenc"@.len() == 10
        && "hevc_cuvid"@.len() == 10);
}

/// A set-up makes its calls in order: an answer without a fault leads to the next call, or
/// to the end after the last; any other ends it, and all that was acquired so far is
/// released, the latest first.
pub proof fn law_set_ups_go_on_or_give_back(s: Setup, reply: Reply, r: SetupStep)
    requires
        s.wf(),
        call_ensures(Setup::on_reply, (s, &reply), r),
    ensures
        ({
            let refused = refusal(s@.plan[s@.at as int], reply, s@.options) is Some;
            let last = s@.at + 1 >= s@.plan.len();
            &&& r is Failed <==> refused
            &&& r is Ready <==> !refused && last
            &&& r matches SetupStep::Next(next) ==> {
                &&& next@.at == s@.at + 1
                &&& next@.plan == s@.plan
                &&& next@.options == s@.options
                &&& next@.node == s@.node
                &&& next@.announce == s@.announce
            }
            &&& r matches SetupStep::Failed { error, release } ==> {
                let held = held_after(s@.plan, s@.at);
                &&& release@.len() == held.len()
                &&& forall|i: int|
                    0 <= i < held.len() ==> #[trigger] release@[i] == held[held.len() - 1 - i]
            }
            &&& r matches SetupStep::Ready { holds, announce } ==> announce == s@.announce
        }),
{
}

/// A codec that works on a device is given it before it is opened: a decoder the device
/// itself, after its context was made; an encoder its pool of frames, on VAAPI after the
/// context was made, on CUDA before, for the context to take over.
pub proof fn law_codecs_are_given_their_device(
    kind: EncoderKind,
    decoder: DecoderKind,
    width: u32,
    height: u32,
    n: int,
    m: int,
)
    requires
        0 <= n < encoder_plan(kind, width, height).len(),
        encoder_plan(kind, width, height)[n] is OpenCodec,
        0 <= m < decoder_plan(decoder).len(),
        decoder_plan(decoder)[m] is OpenCodec,
    ensures
        kind is Vaapi || kind is VaapiMain10 ==> exists|j: int, k: int|
            0 <= j < k < n && #[trigger] encoder_plan(kind, width, height)[j] is AllocContext
                && #[trigger] encoder_plan(kind, width, height)[k] is RefFrames,
        kind is Nvenc || kind is NvencNpp ==> exists|j: int, k: int|
            0 <= j < k < n && #[trigger] encoder_plan(kind, width, height)[j] is LendFrames
                && #[trigger] encoder_plan(kind, width, height)[k] is AllocContext,
        decoder is Nvdec || decoder is VaapiMain10 ==> exists|j: int, k: int|
            0 <= j < k < m && #[trigger] decoder_plan(decoder)[j] is AllocContext
                && #[trigger] decoder_plan(decoder)[k] is RefDevice,
{
    let plan = encoder_plan(kind, width, height);
    if kind is Vaapi || kind is VaapiMain10 {
        assert(plan[5] is AllocContext && plan[6] is RefFrames);
    } else {
        assert(plan[5] is LendFrames && plan[7] is AllocContext);
    }
    if decoder is Nvdec || decoder is VaapiMain10 {
        let d = decoder_plan(decoder);
        assert(d[3] is AllocContext && d[4] is RefDevice);
    }
}

/// On CUDA the pool is checked to hold what was asked for, and a converting encoder checks
/// the driver before it takes scratch memory; on VAAPI the filter is set up from the opened
/// codec.
pub proof fn law_set_ups_check_before_they_use(kind: EncoderKind, width: u32, height: u32)
    ensures
        ({
            let plan = encoder_plan(kind, width, height);
            &&& kind is Nvenc || kind is NvencNpp ==> exists|i: int, j: int, k: int|
                0 <= i < j < k < plan.len() && #[trigger] plan[i] is InitFrames && #[trigger] plan[j]
                    is CheckFrames && #[trigger] plan[k] is LendFrames
            &&& kind is NvencNpp ==> exists|i: int|
                {
                    &&& 0 <= i < plan.len()
                    &&& #[trigger] plan[i] is DriverVersion
                    &&& forall|j: int| 0 <= j < i ==> !(#[trigger] plan[j] is AllocScratch)
                    &&& forall|j: int| i < j < plan.len() ==> #[trigger] plan[j] is AllocScratch
                    &&& plan.len() - i == 5
                }
            &&& kind is Vaapi || kind is VaapiMain10 ==> exists|i: int|
                {
                    &&& 0 <= i
                    &&& i + 4 < plan.len()
                    &&& #[trigger] plan[i] is OpenCodec
                    &&& plan[i + 1] is FindFilter
                    &&& plan[i + 2] is AllocFilter
                    &&& plan[i + 3] is CopyParameters
                    &&& plan[i + 4] is InitFilter
                }
        }),
{
    let plan = encoder_plan(kind, width, height);
    if kind is Nvenc || kind is NvencNpp {
        assert(plan[3] is InitFrames && plan[4] is CheckFrames && plan[5] is LendFrames);
        if kind is NvencNpp {
            assert(plan[18] is DriverVersion);
        }
    } else {
        assert(plan[13] is OpenCodec);
    }
}

} // verus!
