//! One frame on its way through an encoder: which call follows which, and what
//! comes out.

use vstd::prelude::*;
use crate::media_core::{EncodeError, EncodedPacket};
use crate::media_ffmpeg::error::{
    reported_as, Failure, FfmpegError, AVERROR_EAGAIN, AVERROR_EOF,
};
use crate::media_ffmpeg::options::EncoderKind;

verus! {

/// A call on the way of a frame.
#[derive(Debug, Clone, Copy, PartialEq, Eq, Structural)]
pub enum EncodeCall {
    /// `av_hwframe_transfer_data`, from memory to the device.
    Upload,
    /// `cudaMemcpy2D`, the BGRA picture to the device.
    CopyIn,
    /// `nppiBGRToYUV420_8u_AC4P3R`, to planes of scratch memory.
    ToPlanar,
    /// `nppiYCbCr420_8u_P3P2R`, into the frame's planes.
    Pack,
    /// `cudaStreamSynchronize`.
    Synchronize,
    /// `avcodec_send_frame`.
    Send,
    /// `av_packet_alloc`, for a packet that is thrown away.
    AllocDrain,
    /// `avcodec_receive_packet`, to make room.
    Drain,
    /// `avcodec_send_frame` again.
    Resend,
    /// `av_packet_alloc`.
    AllocPacket,
    /// `avcodec_receive_packet`.
    Receive,
    /// `av_bsf_send_packet`.
    FilterSend,
    /// `av_packet_alloc`, for the filter's output.
    AllocFiltered,
    /// `av_bsf_receive_packet`.
    FilterReceive,
}

/// The answer to a call: whether a pointer that it returns (or the planes that it
/// writes to) is null, its code, and the packet that it filled.
#[derive(Debug)]
pub struct EncodeReply {
    pub null: bool,
    pub code: i32,
    pub bytes: Vec<u8>,
    pub key: bool,
}

/// A frame on its way, and what has come out of the filter so far.
#[derive(Debug)]
pub struct Encoding {
    pub kind: EncoderKind,
    pub call: EncodeCall,
    pub bytes: Vec<u8>,
    pub key: bool,
}

/// What an answer leads to.
#[derive(Debug)]
pub enum EncodeStep {
    Next(Encoding),
    Failed(EncodeError),
    Done { nal_bytes: Vec<u8>, is_keyframe: bool },
}

/// What is wrong with a frame.
pub ghost enum Trouble {
    Ffmpeg(Failure),
    /// No packet could be had; the text says for what.
    NoPacket(Seq<char>),
}

/// A frame on its way.
pub ghost struct EncodingView {
    pub kind: EncoderKind,
    pub call: EncodeCall,
    pub bytes: Seq<u8>,
    pub key: bool,
}

/// An answer, its bytes as a sequence.
pub ghost struct ReplyView {
    pub null: bool,
    pub code: int,
    pub bytes: Seq<u8>,
    pub key: bool,
}

/// Where an answer leads.
pub ghost enum EncodeOutcome {
    Next(EncodingView),
    Failed(Trouble),
    Done { nal_bytes: Seq<u8>, is_keyframe: bool },
}

impl View for Encoding {
    type V = EncodingView;

    open spec fn view(&self) -> EncodingView {
        EncodingView { kind: self.kind, call: self.call, bytes: self.bytes@, key: self.key }
    }
}

impl View for EncodeReply {
    type V = ReplyView;

    open spec fn view(&self) -> ReplyView {
        ReplyView { null: self.null, code: self.code as int, bytes: self.bytes@, key: self.key }
    }
}

impl Trouble {
    /// The error tells of this trouble.
    pub open spec fn told_as(self, e: EncodeError) -> bool {
        match self {
            Trouble::Ffmpeg(failure) => reported_as(failure, e),
            Trouble::NoPacket(why) => e matches EncodeError::Backend(text) && text@ == why,
        }
    }
}

impl EncodingView {
    /// A frame at the beginning of its way.
    pub open spec fn start(kind: EncoderKind) -> EncodingView {
        EncodingView { kind, call: first_call(kind), bytes: seq![], key: false }
    }

    /// The same frame before another call.
    pub open spec fn at(self, call: EncodeCall) -> EncodeOutcome {
        EncodeOutcome::Next(EncodingView { call, ..self })
    }

    /// Where the answer to the frame's call leads. A frame that the encoder has no
    /// room for is sent once more, after a packet has been taken out. What the
    /// filter gives is collected until it has no more.
    pub open spec fn next(self, reply: ReplyView) -> EncodeOutcome {
        match self.call {
            EncodeCall::Upload => if reply.code < 0 {
                EncodeOutcome::Failed(Trouble::Ffmpeg(Failure::Transfer(reply.code)))
            } else {
                self.at(EncodeCall::Send)
            },
            EncodeCall::CopyIn => if reply.code != 0 {
                EncodeOutcome::Failed(Trouble::Ffmpeg(Failure::Transfer(reply.code)))
            } else {
                self.at(EncodeCall::ToPlanar)
            },
            EncodeCall::ToPlanar => if reply.code != 0 {
                EncodeOutcome::Failed(Trouble::Ffmpeg(Failure::Transfer(reply.code)))
            } else {
                self.at(EncodeCall::Pack)
            },
            EncodeCall::Pack => if reply.null {
                EncodeOutcome::Failed(
                    Trouble::Ffmpeg(Failure::HwFrames("AVFrame CUDA planes are null"@)),
                )
            } else if reply.code != 0 {
                EncodeOutcome::Failed(Trouble::Ffmpeg(Failure::Transfer(reply.code)))
            } else {
                self.at(EncodeCall::Synchronize)
            },
            EncodeCall::Synchronize => if reply.code != 0 {
                EncodeOutcome::Failed(Trouble::Ffmpeg(Failure::Transfer(reply.code)))
            } else {
                self.at(EncodeCall::Send)
            },
            EncodeCall::Send => if reply.code == AVERROR_EAGAIN {
                self.at(EncodeCall::AllocDrain)
            } else if reply.code < 0 {
                EncodeOutcome::Failed(Trouble::Ffmpeg(Failure::Send(reply.code)))
            } else {
                self.at(EncodeCall::AllocPacket)
            },
            EncodeCall::AllocDrain => if reply.null {
                EncodeOutcome::Failed(Trouble::NoPacket("av_packet_alloc failed (drain)"@))
            } else {
                self.at(EncodeCall::Drain)
            },
            EncodeCall::Drain => self.at(EncodeCall::Resend),
            EncodeCall::Resend => if reply.code < 0 {
                EncodeOutcome::Failed(Trouble::Ffmpeg(Failure::Send(reply.code)))
            } else {
                self.at(EncodeCall::AllocPacket)
            },
            EncodeCall::AllocPacket => if reply.null {
                EncodeOutcome::Failed(Trouble::NoPacket("av_packet_alloc failed"@))
            } else {
                self.at(EncodeCall::Receive)
            },
            EncodeCall::Receive => if reply.code < 0 {
                EncodeOutcome::Failed(Trouble::Ffmpeg(Failure::Receive(reply.code)))
            } else if self.kind is Vaapi || self.kind is VaapiMain10 {
                self.at(EncodeCall::FilterSend)
            } else {
                EncodeOutcome::Done { nal_bytes: reply.bytes, is_keyframe: reply.key }
            },
            EncodeCall::FilterSend => if reply.code < 0 {
                EncodeOutcome::Failed(Trouble::Ffmpeg(Failure::Bsf(reply.code)))
            } else {
                self.at(EncodeCall::AllocFiltered)
            },
            EncodeCall::AllocFiltered => if reply.null {
                EncodeOutcome::Failed(Trouble::NoPacket("av_packet_alloc failed (bsf output)"@))
            } else {
                self.at(EncodeCall::FilterReceive)
            },
            EncodeCall::FilterReceive => if reply.code == AVERROR_EAGAIN {
                EncodeOutcome::Done { nal_bytes: self.bytes, is_keyframe: self.key }
            } else if reply.code < 0 {
                EncodeOutcome::Failed(Trouble::Ffmpeg(Failure::Bsf(reply.code)))
            } else {
                EncodeOutcome::Next(
                    EncodingView {
                        call: EncodeCall::AllocFiltered,
                        bytes: self.bytes + reply.bytes,
                        key: self.key || reply.key,
                        ..self
                    },
                )
            },
        }
    }
}

impl EncodeOutcome {
    /// The step is the one that leads there.
    pub open spec fn taken_by(self, step: EncodeStep) -> bool {
        match self {
            EncodeOutcome::Next(v) => step matches EncodeStep::Next(e) && e@ == v,
            EncodeOutcome::Failed(trouble) => step matches EncodeStep::Failed(e)
                && trouble.told_as(e),
            EncodeOutcome::Done { nal_bytes, is_keyframe } => step matches EncodeStep::Done {
                nal_bytes: bytes,
                is_keyframe: key,
            } && bytes@ == nal_bytes && key == is_keyframe,
        }
    }
}

fn failed(e: FfmpegError) -> (r: EncodeStep)
    ensures
        r matches EncodeStep::Failed(x) && reported_as(e@, x),
{
    EncodeStep::Failed(e.to_encode_error())
}

fn no_packet(why: &'static str) -> (r: EncodeStep)
    ensures
        r matches EncodeStep::Failed(EncodeError::Backend(text)) && text@ == why@,
{
    EncodeStep::Failed(EncodeError::Backend(String::from_str(why)))
}

/// The call with which a frame's way begins.
pub open spec fn first_call(kind: EncoderKind) -> EncodeCall {
    if kind is NvencNpp {
        EncodeCall::CopyIn
    } else {
        EncodeCall::Upload
    }
}

impl Encoding {
    /// A frame at the beginning of its way.
    pub fn new(kind: EncoderKind) -> (r: Self)
        ensures
            r@ == EncodingView::start(kind),
    {
        let call: EncodeCall = match kind {
            EncoderKind::NvencNpp => EncodeCall::CopyIn,
            _ => EncodeCall::Upload,
        };
        Encoding { kind, call, bytes: Vec::new(), key: false }
    }

    fn at(self, call: EncodeCall) -> (r: EncodeStep)
        ensures
            self@.at(call).taken_by(r),
    {
        EncodeStep::Next(Encoding { kind: self.kind, call, bytes: self.bytes, key: self.key })
    }

    /// The step that follows from the answer to the frame's call.
    pub fn on_reply(self, reply: EncodeReply) -> (r: EncodeStep)
        ensures
            self@.next(reply@).taken_by(r),
    {
        let code: i32 = reply.code;
        match self.call {
            EncodeCall::Upload => if code < 0 {
                failed(FfmpegError::Transfer(code))
            } else {
                self.at(EncodeCall::Send)
            },
            EncodeCall::CopyIn => if code != 0 {
                failed(FfmpegError::Transfer(code))
            } else {
                self.at(EncodeCall::ToPlanar)
            },
            EncodeCall::ToPlanar => if code != 0 {
                failed(FfmpegError::Transfer(code))
            } else {
                self.at(EncodeCall::Pack)
            },
            EncodeCall::Pack => if reply.null {
                failed(FfmpegError::HwFrames(String::from_str("AVFrame CUDA planes are null")))
            } else if code != 0 {
                failed(FfmpegError::Transfer(code))
            } else {
                self.at(EncodeCall::Synchronize)
            },
            EncodeCall::Synchronize => if code != 0 {
                failed(FfmpegError::Transfer(code))
            } else {
                self.at(EncodeCall::Send)
            },
            EncodeCall::Send => if code == AVERROR_EAGAIN {
                self.at(EncodeCall::AllocDrain)
            } else if code < 0 {
                failed(FfmpegError::Send(code))
            } else {
                self.at(EncodeCall::AllocPacket)
            },
            EncodeCall::AllocDrain => if reply.null {
                no_packet("av_packet_alloc failed (drain)")
            } else {
                self.at(EncodeCall::Drain)
            },
            EncodeCall::Drain => self.at(EncodeCall::Resend),
            EncodeCall::Resend => if code < 0 {
                failed(FfmpegError::Send(code))
            } else {
                self.at(EncodeCall::AllocPacket)
            },
            EncodeCall::AllocPacket => if reply.null {
                no_packet("av_packet_alloc failed")
            } else {
                self.at(EncodeCall::Receive)
            },
            EncodeCall::Receive => if code < 0 {
                failed(FfmpegError::Receive(code))
            } else {
                match self.kind {
                    EncoderKind::Vaapi | EncoderKind::VaapiMain10 => self.at(
                        EncodeCall::FilterSend,
                    ),
                    EncoderKind::Nvenc | EncoderKind::NvencNpp => EncodeStep::Done {
                        nal_bytes: reply.bytes,
                        is_keyframe: reply.key,
                    },
                }
            },
            EncodeCall::FilterSend => if code < 0 {
                failed(FfmpegError::Bsf(code))
            } else {
                self.at(EncodeCall::AllocFiltered)
            },
            EncodeCall::AllocFiltered => if reply.null {
                no_packet("av_packet_alloc failed (bsf output)")
            } else {
                self.at(EncodeCall::FilterReceive)
            },
            EncodeCall::FilterReceive => if code == AVERROR_EAGAIN {
                EncodeStep::Done { nal_bytes: self.bytes, is_keyframe: self.key }
            } else if code < 0 {
                failed(FfmpegError::Bsf(code))
            } else {
                let mut bytes: Vec<u8> = self.bytes;
                let mut more: Vec<u8> = reply.bytes;
                bytes.append(&mut more);
                EncodeStep::Next(
                    Encoding {
                        kind: self.kind,
                        call: EncodeCall::AllocFiltered,
                        bytes,
                        key: self.key || reply.key,
                    },
                )
            },
        }
    }
}

/// Where a run of answers leads.
pub open spec fn run(v: EncodingView, replies: Seq<ReplyView>) -> EncodeOutcome
    decreases replies.len(),
{
    if replies.len() == 0 {
        EncodeOutcome::Next(v)
    } else {
        match v.next(replies[0]) {
            EncodeOutcome::Next(w) => run(w, replies.drop_first()),
            end => end,
        }
    }
}

/// The filter's packets, each after the memory for it was had, and that it has no
/// more.
pub open spec fn filter_gives(packets: Seq<(Seq<u8>, bool)>) -> Seq<ReplyView>
    decreases packets.len(),
{
    let had = ReplyView { null: false, code: 0, bytes: seq![], key: false };
    if packets.len() == 0 {
        seq![
            had,
            ReplyView { null: false, code: AVERROR_EAGAIN as int, bytes: seq![], key: false },
        ]
    } else {
        seq![
            had,
            ReplyView { null: false, code: 0, bytes: packets[0].0, key: packets[0].1 },
        ] + filter_gives(packets.drop_first())
    }
}

/// The bytes of a list of packets, one after the other.
pub open spec fn joined(packets: Seq<(Seq<u8>, bool)>) -> Seq<u8>
    decreases packets.len(),
{
    if packets.len() == 0 {
        seq![]
    } else {
        packets[0].0 + joined(packets.drop_first())
    }
}

/// One of the packets is a keyframe.
pub open spec fn has_key(packets: Seq<(Seq<u8>, bool)>) -> bool
    decreases packets.len(),
{
    packets.len() > 0 && (packets[0].1 || has_key(packets.drop_first()))
}

/// Whatever number of packets the filter makes of one, the frame holds them all, in
/// order, and is a keyframe if one of them is.
pub proof fn law_filtered_packets_are_joined(v: EncodingView, packets: Seq<(Seq<u8>, bool)>)
    requires
        v.call == EncodeCall::AllocFiltered,
    ensures
        run(v, filter_gives(packets)) == (EncodeOutcome::Done {
            nal_bytes: v.bytes + joined(packets),
            is_keyframe: v.key || has_key(packets),
        }),
    decreases packets.len(),
{
    let replies = filter_gives(packets);
    reveal_with_fuel(run, 3);
    if packets.len() == 0 {
        assert(v.bytes + joined(packets) =~= v.bytes);
        assert(replies.drop_first()[0] == replies[1]);
    } else {
        let rest = packets.drop_first();
        let w = EncodingView {
            bytes: v.bytes + packets[0].0,
            key: v.key || packets[0].1,
            ..v
        };
        law_filtered_packets_are_joined(w, rest);
        assert(replies.drop_first()[0] == replies[1]);
        assert(replies.drop_first().drop_first() =~= filter_gives(rest));
        assert(w.bytes + joined(rest) =~= v.bytes + joined(packets));
    }
}

/// The place of a call on a frame's way.
pub open spec fn place(call: EncodeCall) -> int {
    match call {
        EncodeCall::Upload => 0,
        EncodeCall::CopyIn => 0,
        EncodeCall::ToPlanar => 1,
        EncodeCall::Pack => 2,
        EncodeCall::Synchronize => 3,
        EncodeCall::Send => 4,
        EncodeCall::AllocDrain => 5,
        EncodeCall::Drain => 6,
        EncodeCall::Resend => 7,
        EncodeCall::AllocPacket => 8,
        EncodeCall::Receive => 9,
        EncodeCall::FilterSend => 10,
        EncodeCall::AllocFiltered => 11,
        EncodeCall::FilterReceive => 12,
    }
}

/// A frame never goes back, but to ask the filter for more: so it is uploaded once,
/// sent twice at most, and received once.
pub proof fn law_a_frame_goes_forward(v: EncodingView, reply: ReplyView)
    ensures
        v.next(reply) matches EncodeOutcome::Next(w) ==> w.kind == v.kind && (place(w.call) > place(
            v.call,
        ) || v.call == EncodeCall::FilterReceive && w.call == EncodeCall::AllocFiltered),
{
}

/// All packets that an encoder has pending, on their way out.
#[derive(Debug)]
pub struct PacketDrain {
    pub packets: Vec<EncodedPacket>,
    pub ts_us: u64,
}

/// What an attempt to take a packet out leads to.
#[derive(Debug)]
pub enum DrainStep {
    More(PacketDrain),
    Failed(FfmpegError),
    Drained(Vec<EncodedPacket>),
}

impl PacketDrain {
    /// Nothing has been taken out yet; every packet gets the given time.
    pub fn new(ts_us: u64) -> (r: Self)
        ensures
            r.packets@ == Seq::<EncodedPacket>::empty(),
            r.ts_us == ts_us,
    {
        PacketDrain { packets: Vec::new(), ts_us }
    }

    /// What follows from an attempt. An encoder that has nothing more for now, or
    /// never will, is drained.
    pub fn drain_packets_on_eagain(self, reply: EncodeReply) -> (r: DrainStep)
        ensures
            if reply.null {
                r matches DrainStep::Failed(e) && e@ == Failure::HwFrames(
                    "av_packet_alloc failed"@,
                )
            } else if reply.code == AVERROR_EAGAIN || reply.code == AVERROR_EOF {
                r matches DrainStep::Drained(packets) && packets@ == self.packets@
            } else if reply.code < 0 {
                r matches DrainStep::Failed(e) && e@ == Failure::Receive(reply.code as int)
            } else {
                r matches DrainStep::More(d) && d.ts_us == self.ts_us && d.packets@
                    == self.packets@.push(
                    EncodedPacket {
                        nal_bytes: reply.bytes,
                        is_keyframe: reply.key,
                        timestamp_us: self.ts_us,
                    },
                )
            },
    {
        if reply.null {
            return DrainStep::Failed(
                FfmpegError::HwFrames(String::from_str("av_packet_alloc failed")),
            );
        }
        if reply.code == AVERROR_EAGAIN || reply.code == AVERROR_EOF {
            return DrainStep::Drained(self.packets);
        }
        if reply.code < 0 {
            return DrainStep::Failed(FfmpegError::Receive(reply.code));
        }
        let mut packets: Vec<EncodedPacket> = self.packets;
        packets.push(
            EncodedPacket {
                nal_bytes: reply.bytes,
                is_keyframe: reply.key,
                timestamp_us: self.ts_us,
            },
        );
        DrainStep::More(PacketDrain { packets, ts_us: self.ts_us })
    }
}

/// An answer that is no failure.
pub open spec fn fine() -> ReplyView {
    ReplyView { null: false, code: 0, bytes: seq![], key: false }
}

/// The encoder's packet.
pub open spec fn packet(bytes: Seq<u8>, key: bool) -> ReplyView {
    ReplyView { null: false, code: 0, bytes, key }
}

/// On VAAPI a frame is uploaded, sent and received, and what the encoder gave goes
/// through the filter: the frame that comes out holds the filter's packets, all of them
/// and nothing else, and is a keyframe if one of them is.
pub proof fn law_vaapi_frames_come_out_of_the_filter(
    kind: EncoderKind,
    coded: Seq<u8>,
    key: bool,
    packets: Seq<(Seq<u8>, bool)>,
)
    requires
        kind is Vaapi || kind is VaapiMain10,
    ensures
        run(
            EncodingView::start(kind),
            seq![fine(), fine(), fine(), packet(coded, key), fine()] + filter_gives(packets),
        ) == (EncodeOutcome::Done { nal_bytes: joined(packets), is_keyframe: has_key(packets) }),
{
    let v = EncodingView::start(kind);
    let w = EncodingView { call: EncodeCall::AllocFiltered, ..v };
    let rest = filter_gives(packets);
    let all = seq![fine(), fine(), fine(), packet(coded, key), fine()] + rest;
    reveal_with_fuel(run, 6);
    let r1 = all.drop_first();
    let r2 = r1.drop_first();
    let r3 = r2.drop_first();
    let r4 = r3.drop_first();
    assert(r1[0] == fine() && r2[0] == fine() && r3[0] == packet(coded, key) && r4[0] == fine());
    assert(r4.drop_first() =~= rest);
    law_filtered_packets_are_joined(w, packets);
    assert(w.bytes + joined(packets) =~= joined(packets));
}

/// On NVENC the encoder's packet is the frame: its bytes and whether it is a keyframe.
/// Before it is sent it is uploaded, or copied to the device, made planar, packed and
/// waited for.
pub proof fn law_nvenc_packets_are_the_frames(bytes: Seq<u8>, key: bool)
    ensures
        run(
            EncodingView::start(EncoderKind::Nvenc),
            seq![fine(), fine(), fine(), packet(bytes, key)],
        ) == (EncodeOutcome::Done { nal_bytes: bytes, is_keyframe: key }),
        run(
            EncodingView::start(EncoderKind::NvencNpp),
            seq![fine(), fine(), fine(), fine(), fine(), fine(), packet(bytes, key)],
        ) == (EncodeOutcome::Done { nal_bytes: bytes, is_keyframe: key }),
{
    reveal_with_fuel(run, 8);
    let a = seq![fine(), fine(), fine(), packet(bytes, key)];
    let a1 = a.drop_first();
    let a2 = a1.drop_first();
    let a3 = a2.drop_first();
    assert(a1[0] == fine() && a2[0] == fine() && a3[0] == packet(bytes, key));
    let b = seq![fine(), fine(), fine(), fine(), fine(), fine(), packet(bytes, key)];
    let b1 = b.drop_first();
    let b2 = b1.drop_first();
    let b3 = b2.drop_first();
    let b4 = b3.drop_first();
    let b5 = b4.drop_first();
    let b6 = b5.drop_first();
    assert(b1[0] == fine() && b2[0] == fine() && b3[0] == fine() && b4[0] == fine() && b5[0]
        == fine() && b6[0] == packet(bytes, key));
}

/// An encoder that has no room (code minus eleven) has a packet taken out, whatever comes
/// of that, and is sent the frame once more; if it takes it now, the frame goes on as if
/// it had been taken at once.
pub proof fn law_a_full_encoder_is_tried_again(v: EncodingView, drained: ReplyView)
    requires
        v.call == EncodeCall::Send,
    ensures
        run(
            v,
            seq![ReplyView { code: -11, ..fine() }, fine(), drained, fine()],
        ) == run(v, seq![fine()]),
        run(v, seq![fine()]) matches EncodeOutcome::Next(w) && w == (EncodingView {
            call: EncodeCall::AllocPacket,
            ..v
        }),
{
    reveal_with_fuel(run, 5);
    let a = seq![ReplyView { code: -11, ..fine() }, fine(), drained, fine()];
    let a1 = a.drop_first();
    let a2 = a1.drop_first();
    let a3 = a2.drop_first();
    assert(a1[0] == fine() && a2[0] == drained && a3[0] == fine());
    assert(a3.drop_first() =~= Seq::<ReplyView>::empty());
    assert(seq![fine()].drop_first() =~= Seq::<ReplyView>::empty());
}

/// A frame fails exactly where a call of its way does: where memory for a packet is not
/// to be had, where FFmpeg answers with a negative code, or CUDA with one that is not
/// zero. What asks for other calls first is no failure of a first attempt to send, nor of
/// the filter, and a packet that is thrown away may fail to come.
pub proof fn law_failed_calls_fail_the_frame(v: EncodingView, reply: ReplyView)
    ensures
        v.next(reply) is Failed <==> match v.call {
            EncodeCall::AllocDrain | EncodeCall::AllocPacket | EncodeCall::AllocFiltered =>
                reply.null,
            EncodeCall::CopyIn | EncodeCall::ToPlanar | EncodeCall::Synchronize => reply.code != 0,
            EncodeCall::Pack => reply.null || reply.code != 0,
            EncodeCall::Drain => false,
            EncodeCall::Send | EncodeCall::FilterReceive => reply.code < 0 && reply.code != -11,
            EncodeCall::Upload
            | EncodeCall::Resend
            | EncodeCall::Receive
            | EncodeCall::FilterSend => reply.code < 0,
        },
{
}

/// Draining takes packets in the order in which they come, each with the time that was
/// given, until the encoder has no more for now (code minus eleven) or for good (code
/// minus 541478725); every other negative code is a failure.
pub proof fn law_drained_packets_keep_their_order(drain: PacketDrain, reply: EncodeReply, r: DrainStep)
    requires
        call_ensures(PacketDrain::drain_packets_on_eagain, (drain, reply), r),
        !reply.null,
    ensures
        r is Drained <==> reply.code == -11 || reply.code == -541478725,
        r matches DrainStep::Drained(packets) ==> packets@ == drain.packets@,
        r is More <==> reply.code >= 0,
        r matches DrainStep::More(d) ==> {
            &&& d.packets@.len() == drain.packets@.len() + 1
            &&& d.packets@.drop_last() == drain.packets@
            &&& d.packets@.last().nal_bytes@ == reply.bytes@
            &&& d.packets@.last().is_keyframe == reply.key
            &&& d.packets@.last().timestamp_us == drain.ts_us
            &&& d.ts_us == drain.ts_us
        },
{
    if let DrainStep::More(d) = r {
        assert(d.packets@.drop_last() =~= drain.packets@);
    }
}

} // verus!
