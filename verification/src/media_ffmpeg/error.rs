//! Failures of the FFmpeg backends.

use vstd::prelude::*;
use crate::media_core::{DecodeError, EncodeError};
use crate::text::{chars_of, contains_text, find_chars, push_signed, signed_decimal};

verus! {

/// The code with which libavcodec says that it needs other calls first.
pub const AVERROR_EAGAIN: i32 = -11;

/// The code with which libavcodec says that nothing more will come.
pub const AVERROR_EOF: i32 = -541478725;

/// The code of a device that is gone.
pub const AVERROR_ENODEV: i32 = -19;

#[derive(Debug)]
pub enum FfmpegError {
    NoLibavcodec,
    EncoderNotFound(&'static str),
    HwDevice(String),
    HwFrames(String),
    OpenCodec(i32),
    Send(i32),
    Receive(i32),
    Bsf(i32),
    Transfer(i32),
    Closed,
    Drop(String),
}

/// What a failure says, its texts as sequences of characters.
pub ghost enum Failure {
    NoLibavcodec,
    EncoderNotFound(Seq<char>),
    HwDevice(Seq<char>),
    HwFrames(Seq<char>),
    OpenCodec(int),
    Send(int),
    Receive(int),
    Bsf(int),
    Transfer(int),
    Closed,
    Drop(Seq<char>),
}

impl View for FfmpegError {
    type V = Failure;

    open spec fn view(&self) -> Failure {
        match *self {
            FfmpegError::NoLibavcodec => Failure::NoLibavcodec,
            FfmpegError::EncoderNotFound(name) => Failure::EncoderNotFound(name@),
            FfmpegError::HwDevice(why) => Failure::HwDevice(why@),
            FfmpegError::HwFrames(why) => Failure::HwFrames(why@),
            FfmpegError::OpenCodec(code) => Failure::OpenCodec(code as int),
            FfmpegError::Send(code) => Failure::Send(code as int),
            FfmpegError::Receive(code) => Failure::Receive(code as int),
            FfmpegError::Bsf(code) => Failure::Bsf(code as int),
            FfmpegError::Transfer(code) => Failure::Transfer(code as int),
            FfmpegError::Closed => Failure::Closed,
            FfmpegError::Drop(why) => Failure::Drop(why@),
        }
    }
}

impl Failure {
    /// The message of the failure.
    pub open spec fn message(self) -> Seq<char> {
        match self {
            Failure::NoLibavcodec => "libavcodec runtime probe failed"@,
            Failure::EncoderNotFound(name) => "encoder not found: "@ + name,
            Failure::HwDevice(why) => "hw device error: "@ + why,
            Failure::HwFrames(why) => "hw frames error: "@ + why,
            Failure::OpenCodec(code) => "avcodec_open2 failed: "@ + signed_decimal(code),
            Failure::Send(code) => "avcodec_send_frame failed: "@ + signed_decimal(code),
            Failure::Receive(code) => "avcodec_receive_packet failed: "@ + signed_decimal(code),
            Failure::Bsf(code) => "BSF error: "@ + signed_decimal(code),
            Failure::Transfer(code) => "hw frame transfer failed: "@ + signed_decimal(code),
            Failure::Closed => "encoder closed"@,
            Failure::Drop(why) => "drop assertion failed: "@ + why,
        }
    }

    /// The device is gone: a send or a receive says so by its code, a device error
    /// by its text.
    pub open spec fn device_lost(self) -> bool {
        match self {
            Failure::Send(code) => code == AVERROR_ENODEV,
            Failure::Receive(code) => code == AVERROR_ENODEV,
            Failure::HwDevice(why) => contains_text(why, "device lost"@),
            _ => false,
        }
    }

    /// The failure lies in the stream of packets.
    pub open spec fn in_bitstream(self) -> bool {
        self is Bsf || self is Send || self is Receive
    }
}

/// A text with a code behind it.
pub(crate) fn text_and_code(text: &'static str, code: i32) -> (r: String)
    ensures
        r@ == text@ + signed_decimal(code as int),
{
    let mut r: String = String::from_str(text);
    push_signed(&mut r, code as i64);
    r
}

fn text_and_text(text: &'static str, more: &str) -> (r: String)
    ensures
        r@ == text@ + more@,
{
    let mut r: String = String::from_str(text);
    r.append(more);
    r
}

/// The failure is what an encoder reports of it: a lost device, or the backend's
/// fault.
pub open spec fn reported_as(failure: Failure, e: EncodeError) -> bool {
    if failure.device_lost() {
        e matches EncodeError::DeviceLost(text) && text@ == failure.message()
    } else {
        e matches EncodeError::Backend(text) && text@ == failure.message()
    }
}

impl FfmpegError {
    /// The message of the error.
    pub fn to_string(&self) -> (r: String)
        ensures
            r@ == self@.message(),
    {
        match self {
            FfmpegError::NoLibavcodec => String::from_str("libavcodec runtime probe failed"),
            FfmpegError::EncoderNotFound(name) => text_and_text("encoder not found: ", name),
            FfmpegError::HwDevice(why) => text_and_text("hw device error: ", why.as_str()),
            FfmpegError::HwFrames(why) => text_and_text("hw frames error: ", why.as_str()),
            FfmpegError::OpenCodec(code) => text_and_code("avcodec_open2 failed: ", *code),
            FfmpegError::Send(code) => text_and_code("avcodec_send_frame failed: ", *code),
            FfmpegError::Receive(code) => text_and_code("avcodec_receive_packet failed: ", *code),
            FfmpegError::Bsf(code) => text_and_code("BSF error: ", *code),
            FfmpegError::Transfer(code) => text_and_code("hw frame transfer failed: ", *code),
            FfmpegError::Closed => String::from_str("encoder closed"),
            FfmpegError::Drop(why) => text_and_text("drop assertion failed: ", why.as_str()),
        }
    }

    /// The failure as an encoder reports it.
    pub fn to_encode_error(&self) -> (r: EncodeError)
        ensures
            reported_as(self@, r),
    {
        let lost: bool = match self {
            FfmpegError::Send(code) => *code == AVERROR_ENODEV,
            FfmpegError::Receive(code) => *code == AVERROR_ENODEV,
            FfmpegError::HwDevice(why) => find_chars(
                &chars_of(why.as_str()),
                &chars_of("device lost"),
            ),
            _ => false,
        };
        if lost {
            EncodeError::DeviceLost(self.to_string())
        } else {
            EncodeError::Backend(self.to_string())
        }
    }
}

/// The failure as a decoder reports it: what lies in the stream, or the backend's
/// fault.
pub fn ffmpeg_to_decode_err(e: FfmpegError) -> (r: DecodeError)
    ensures
        if e@.in_bitstream() {
            r matches DecodeError::Bitstream(text) && text@ == e@.message()
        } else {
            r matches DecodeError::Backend(text) && text@ == e@.message()
        },
{
    let text: String = e.to_string();
    match e {
        FfmpegError::Bsf(_) => DecodeError::Bitstream(text),
        FfmpegError::Send(_) => DecodeError::Bitstream(text),
        FfmpegError::Receive(_) => DecodeError::Bitstream(text),
        _ => DecodeError::Backend(text),
    }
}

/// A device counts as lost exactly if a frame or a packet is refused with the code of a
/// missing device (minus nineteen), or a device error speaks of a lost one.
pub proof fn law_which_failures_lose_the_device(failure: Failure, e: EncodeError)
    requires
        reported_as(failure, e),
    ensures
        e is DeviceLost <==> match failure {
            Failure::Send(code) | Failure::Receive(code) => code == -19,
            Failure::HwDevice(why) => contains_text(why, "device lost"@),
            _ => false,
        },
        e is DeviceLost || e is Backend,
{
}

/// A decoder lays a failure on the stream exactly if sending, receiving or filtering a
/// packet failed.
pub proof fn law_which_failures_lie_in_the_stream(e: FfmpegError, r: DecodeError)
    requires
        call_ensures(ffmpeg_to_decode_err, (e,), r),
    ensures
        r is Bitstream <==> e is Send || e is Receive || e is Bsf,
        r is Bitstream || r is Backend,
{
}

} // verus!
