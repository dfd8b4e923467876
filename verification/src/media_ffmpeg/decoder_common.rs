//! What all FFmpeg decoders have in common: what a packet is sent as, what an answer
//! means, and how a decoded picture leaves FFmpeg's planes.

use vstd::prelude::*;
use crate::media_core::{DecodeError, Hdr10Metadata, Nv12Frame, Nv12Frame16};
use crate::media_ffmpeg::error::{
    ffmpeg_to_decode_err, Failure, FfmpegError, AVERROR_EAGAIN, AVERROR_EOF,
};
use crate::media_ffmpeg::hdr10_sei::{
    extract_hdr10_sidecar, sidecar_of, ContentLight, MasteringDisplay,
};
use crate::media_ffmpeg::options::PixelFormat;
use crate::media_ffmpeg::planes::{
    copy_nv12_planes, copy_p010_planes, copy_yuv420p_as_nv12_planes, half_up,
    law_planar_pictures_keep_their_samples, rows_there, tight_chroma, tight_luma, words,
};
use crate::media_ffmpeg::setup::DecoderKind;
use crate::media_sw::nv12::lemma_in_rows;

verus! {

/// An HEVC decoder of 8-bit pictures.
pub trait HevcDecoderBackend: Send {
    /// Feeds one access unit with start codes.
    fn feed_packet(&mut self, packet: &[u8], pts_us: u64) -> Result<(), DecodeError>;

    /// Takes one decoded picture, or none if the decoder needs more input.
    fn drain_frame(&mut self) -> Result<Option<Nv12Frame>, DecodeError>;

    /// The name of the decoder in logs.
    fn backend_name(&self) -> &'static str;
}

/// An HEVC decoder of 10-bit pictures.
pub trait HevcDecoderBackend10: Send {
    /// Feeds one access unit with start codes.
    fn feed_packet(&mut self, packet: &[u8], pts_us: u64) -> Result<(), DecodeError>;

    /// Takes one decoded picture, or none if the decoder needs more input.
    fn drain_frame(&mut self) -> Result<Option<Nv12Frame16>, DecodeError>;

    /// The name of the decoder in logs.
    fn backend_name(&self) -> &'static str;
}

/// The fields of a packet that is sent.
#[derive(Debug, Clone, Copy, PartialEq, Eq, Structural)]
pub struct PacketShell {
    pub size: i32,
    pub pts: i64,
    pub dts: i64,
}

/// The packet in which an access unit is sent; an empty one is not sent at all.
pub open spec fn shell_of(packet: Seq<u8>, pts_us: u64) -> Option<PacketShell> {
    if packet.len() == 0 {
        None
    } else {
        Some(PacketShell { size: packet.len() as i32, pts: pts_us as i64, dts: pts_us as i64 })
    }
}

pub fn packet_shell(packet: &[u8], pts_us: u64) -> (r: Option<PacketShell>)
    ensures
        r == shell_of(packet@, pts_us),
{
    if packet.len() == 0 {
        None
    } else {
        Some(
            PacketShell {
                size: #[verifier::truncate] (packet.len() as i32),
                pts: #[verifier::truncate] (pts_us as i64),
                dts: #[verifier::truncate] (pts_us as i64),
            },
        )
    }
}

/// The error tells of a failure in the stream of packets.
pub open spec fn says_bitstream(e: DecodeError, failure: Failure) -> bool {
    e matches DecodeError::Bitstream(text) && text@ == failure.message()
}

/// The error tells of a failure of the backend.
pub open spec fn says_backend(e: DecodeError, failure: Failure) -> bool {
    e matches DecodeError::Backend(text) && text@ == failure.message()
}

/// What the answer to a sent packet means. A decoder that wants to be drained first
/// is no error.
pub fn on_packet_sent(code: i32) -> (r: Result<(), DecodeError>)
    ensures
        r is Ok <==> code >= 0 || code == AVERROR_EAGAIN,
        r matches Err(e) ==> says_bitstream(e, Failure::Send(code as int)),
{
    if code < 0 && code != AVERROR_EAGAIN {
        Err(ffmpeg_to_decode_err(FfmpegError::Send(code)))
    } else {
        Ok(())
    }
}

/// Whether a picture has come out. A decoder that needs more input, or has ended,
/// gives none.
pub fn on_frame_received(code: i32) -> (r: Result<bool, DecodeError>)
    ensures
        match r {
            Ok(there) => if there {
                code >= 0
            } else {
                code == AVERROR_EAGAIN || code == AVERROR_EOF
            },
            Err(e) => code < 0 && code != AVERROR_EAGAIN && code != AVERROR_EOF && says_bitstream(
                e,
                Failure::Receive(code as int),
            ),
        },
{
    if code == AVERROR_EAGAIN || code == AVERROR_EOF {
        Ok(false)
    } else if code < 0 {
        Err(ffmpeg_to_decode_err(FfmpegError::Receive(code)))
    } else {
        Ok(true)
    }
}

/// Whether a picture has come from the device to memory.
pub fn on_frame_downloaded(code: i32) -> (r: Result<(), DecodeError>)
    ensures
        r is Ok <==> code >= 0,
        r matches Err(e) ==> says_backend(e, Failure::Transfer(code as int)),
{
    if code < 0 {
        Err(ffmpeg_to_decode_err(FfmpegError::Transfer(code)))
    } else {
        Ok(())
    }
}

/// A call that is made to take a picture.
#[derive(Debug, Clone, Copy, PartialEq, Eq, Structural)]
pub enum DrainCall {
    /// Receive a frame from the codec.
    Receive,
    /// Bring the frame from the device to memory.
    Download,
}

/// A picture on its way out of a decoder.
#[derive(Debug, Clone, Copy, PartialEq, Eq, Structural)]
pub struct Draining {
    pub kind: DecoderKind,
    pub call: DrainCall,
}

/// What follows an answer.
#[derive(Debug)]
pub enum DrainingStep {
    Next(Draining),
    /// The decoder needs more input, or has ended.
    Empty,
    /// The frame in memory holds a picture.
    Picture,
    /// What went wrong, and whether the device's frame is to be given back.
    Failed { error: DecodeError, unref: bool },
}

/// The decoder's pictures are made on a device.
pub open spec fn on_device(kind: DecoderKind) -> bool {
    kind == DecoderKind::Nvdec || kind == DecoderKind::VaapiMain10
}

impl Draining {
    pub fn new(kind: DecoderKind) -> (r: Self)
        ensures
            r == (Draining { kind, call: DrainCall::Receive }),
    {
        Draining { kind, call: DrainCall::Receive }
    }

    /// Goes on with the code that the call returned.
    pub fn on_code(self, code: i32) -> (r: DrainingStep)
        ensures
            match self.call {
                DrainCall::Receive => if code == AVERROR_EAGAIN || code == AVERROR_EOF {
                    r is Empty
                } else if code < 0 {
                    r matches DrainingStep::Failed { error, unref } && !unref && says_bitstream(
                        error,
                        Failure::Receive(code as int),
                    )
                } else if on_device(self.kind) {
                    r == DrainingStep::Next(Draining { call: DrainCall::Download, ..self })
                } else {
                    r is Picture
                },
                DrainCall::Download => if code < 0 {
                    r matches DrainingStep::Failed { error, unref } && unref && says_backend(
                        error,
                        Failure::Transfer(code as int),
                    )
                } else {
                    r is Picture
                },
            },
    {
        match self.call {
            DrainCall::Receive => match on_frame_received(code) {
                Err(error) => DrainingStep::Failed { error, unref: false },
                Ok(there) => {
                    if !there {
                        DrainingStep::Empty
                    } else {
                        match self.kind {
                            DecoderKind::Nvdec | DecoderKind::VaapiMain10 => DrainingStep::Next(
                                Draining { kind: self.kind, call: DrainCall::Download },
                            ),
                            _ => DrainingStep::Picture,
                        }
                    }
                },
            },
            DrainCall::Download => match on_frame_downloaded(code) {
                Err(error) => DrainingStep::Failed { error, unref: true },
                Ok(_) => DrainingStep::Picture,
            },
        }
    }
}

/// The planes of a decoded picture as FFmpeg holds them. A semi-planar picture has U
/// and V in turn in `u`, and nothing in `v`.
#[derive(Debug)]
pub struct DecodedPlanes<'a> {
    pub format: PixelFormat,
    pub y: &'a [u8],
    pub u: &'a [u8],
    pub v: &'a [u8],
    pub y_stride: usize,
    pub c_stride: usize,
    pub width: u32,
    pub height: u32,
    pub pts_us: u64,
}

impl<'a> DecodedPlanes<'a> {
    /// The planes hold the rows of the picture.
    pub open spec fn wf(self) -> bool {
        let columns = half_up(self.width as int);
        let rows = half_up(self.height as int);
        if self.format == PixelFormat::Yuv420p {
            &&& columns * 2 <= u32::MAX
            &&& rows_there(
                self.y@.len(),
                self.y_stride as int,
                self.height as int,
                self.width as int,
            )
            &&& rows_there(self.u@.len(), self.c_stride as int, rows, columns)
            &&& rows_there(self.v@.len(), self.c_stride as int, rows, columns)
        } else {
            &&& self.y_stride * self.height <= self.y@.len()
            &&& self.c_stride * rows <= self.u@.len()
        }
    }
}

/// Takes a decoded picture out of FFmpeg's planes. A decoder may choose a planar
/// format whatever it was asked for; such a picture is made semi-planar.
pub fn take_picture(p: &DecodedPlanes) -> (r: Nv12Frame)
    requires
        p.wf(),
    ensures
        r.width == p.width,
        r.height == p.height,
        r.pts_us == p.pts_us,
        if p.format == PixelFormat::Yuv420p {
            let columns = half_up(p.width as int);
            let rows = half_up(p.height as int);
            &&& r.y@ == tight_luma(p.y@, p.y_stride as int, p.width as nat, p.height as nat)
            &&& r.uv@ == tight_chroma(p.u@, p.v@, p.c_stride as int, columns as nat, rows as nat)
            &&& r.stride_y == p.width
            &&& r.stride_uv == columns * 2
        } else {
            &&& r.y@ == p.y@.take(p.y_stride * p.height)
            &&& r.uv@ == p.u@.take(p.c_stride * half_up(p.height as int))
            &&& r.stride_y == p.y_stride as u32
            &&& r.stride_uv == p.c_stride as u32
        },
{
    if p.format == PixelFormat::Yuv420p {
        copy_yuv420p_as_nv12_planes(
            p.y,
            p.u,
            p.v,
            p.y_stride,
            p.c_stride,
            p.width,
            p.height,
            p.pts_us,
        )
    } else {
        copy_nv12_planes(p.y, p.u, p.y_stride, p.c_stride, p.width, p.height, p.pts_us)
    }
}

/// Takes a decoded picture of 10-bit samples out of FFmpeg's planes, with what the
/// frame says of its display.
pub fn take_picture_10(
    p: &DecodedPlanes,
    mastering: Option<MasteringDisplay>,
    light: Option<ContentLight>,
) -> (r: Nv12Frame16)
    requires
        p.y_stride * p.height <= p.y@.len(),
        p.c_stride * half_up(p.height as int) <= p.u@.len(),
    ensures
        r.width == p.width,
        r.height == p.height,
        r.y@ == words(p.y@, (p.y_stride / 2 * p.height) as nat),
        r.uv@ == words(p.u@, (p.c_stride / 2 * half_up(p.height as int)) as nat),
        r.stride_y == (p.y_stride / 2) as u32,
        r.stride_uv == (p.c_stride / 2) as u32,
        r.pts_us == p.pts_us,
        sidecar_of(r.hdr10, mastering, light),
{
    let hdr10: Option<Hdr10Metadata> = extract_hdr10_sidecar(mastering, light);
    copy_p010_planes(p.y, p.u, p.y_stride, p.c_stride, p.width, p.height, p.pts_us, hdr10)
}

/// The fields of a decoder's context that are set before it is opened. A field that
/// is `None` keeps what the context has.
#[derive(Debug, Clone, Copy, PartialEq, Eq)]
pub struct DecoderSettings {
    /// The width and the height.
    pub size: Option<(i32, i32)>,
    /// The format of the pictures that come out, and the one that is worked on.
    pub formats: Option<(PixelFormat, PixelFormat)>,
    /// Whether `get_vaapi_format_main10` chooses among the formats that the decoder
    /// offers.
    pub chooses_format: bool,
}

/// The settings of a decoder: one on the processor is told its formats, one on a
/// device its size. On VAAPI the format is chosen as well.
pub fn decoder_settings(kind: DecoderKind, width: u32, height: u32) -> (r: DecoderSettings)
    ensures
        r.size == match kind {
            DecoderKind::Sw | DecoderKind::SwMain10 => None,
            DecoderKind::Nvdec | DecoderKind::VaapiMain10 => Some((width as i32, height as i32)),
        },
        r.formats == match kind {
            DecoderKind::Sw => Some((PixelFormat::Nv12, PixelFormat::Yuv420p)),
            DecoderKind::SwMain10 => Some((PixelFormat::P010le, PixelFormat::Yuv420p10le)),
            DecoderKind::Nvdec | DecoderKind::VaapiMain10 => None,
        },
        r.chooses_format == (kind is VaapiMain10),
{
    let size: (i32, i32) = (
        #[verifier::truncate] (width as i32),
        #[verifier::truncate] (height as i32),
    );
    match kind {
        DecoderKind::Sw => DecoderSettings {
            size: None,
            formats: Some((PixelFormat::Nv12, PixelFormat::Yuv420p)),
            chooses_format: false,
        },
        DecoderKind::SwMain10 => DecoderSettings {
            size: None,
            formats: Some((PixelFormat::P010le, PixelFormat::Yuv420p10le)),
            chooses_format: false,
        },
        DecoderKind::Nvdec => DecoderSettings {
            size: Some(size),
            formats: None,
            chooses_format: false,
        },
        DecoderKind::VaapiMain10 => DecoderSettings {
            size: Some(size),
            formats: None,
            chooses_format: true,
        },
    }
}

/// The format that is chosen of those that a decoder offers: the device's surfaces,
/// or none if it does not offer them.
pub fn get_vaapi_format_main10(offered: &[PixelFormat]) -> (r: Option<PixelFormat>)
    ensures
        r == if offered@.contains(PixelFormat::Vaapi) {
            Some(PixelFormat::Vaapi)
        } else {
            None
        },
{
    let mut i: usize = 0;
    while i < offered.len()
        invariant
            i <= offered@.len(),
            forall|k: int| 0 <= k < i ==> offered@[k] != PixelFormat::Vaapi,
        decreases offered@.len() - i,
    {
        if offered[i] == PixelFormat::Vaapi {
            assert(offered@.contains(PixelFormat::Vaapi));
            return Some(PixelFormat::Vaapi);
        }
        i += 1;
    }
    assert(!offered@.contains(PixelFormat::Vaapi));
    None
}

/// A packet is sent with its whole length and its time, as both presentation and decoding
/// time; an empty one is not sent.
pub proof fn law_packets_are_sent_whole(packet: Seq<u8>, pts_us: u64)
    requires
        packet.len() <= i32::MAX,
        pts_us <= i64::MAX,
    ensures
        shell_of(packet, pts_us) is None <==> packet.len() == 0,
        shell_of(packet, pts_us) matches Some(s) ==> {
            &&& s.size == packet.len()
            &&& s.pts == pts_us
            &&& s.dts == pts_us
        },
{
}

/// A decoder that needs other calls first (code minus eleven) or has ended (code minus
/// 541478725) gives no picture, and no other negative code is anything but a failure. A
/// picture that is made on a device has to be downloaded, one that is made in memory is
/// there at once; the device's frame is given back only where the download fails.
pub proof fn law_pictures_come_out_of_decoders(d: Draining, code: i32, r: DrainingStep)
    requires
        call_ensures(Draining::on_code, (d, code), r),
    ensures
        d.call == DrainCall::Receive ==> {
            &&& r is Empty <==> code == -11 || code == -541478725
            &&& r is Failed <==> code < 0 && code != -11 && code != -541478725
            &&& r is Picture <==> code >= 0 && (d.kind is Sw || d.kind is SwMain10)
            &&& r matches DrainingStep::Next(n) ==> n.kind == d.kind && n.call
                == DrainCall::Download
            &&& r matches DrainingStep::Failed { error, unref } ==> !unref
        },
        d.call == DrainCall::Download ==> {
            &&& r is Picture <==> code >= 0
            &&& r is Failed <==> code < 0
            &&& r matches DrainingStep::Failed { error, unref } ==> unref
        },
{
}

/// A picture keeps its samples on its way out of FFmpeg's planes: luma of column `x` and
/// row `row`, and the chroma that goes with it, stand where a reader of the frame looks
/// for them. A planar picture has U and V in planes of their own, any other has them side
/// by side.
pub proof fn law_taken_pictures_keep_their_samples(
    p: DecodedPlanes<'_>,
    r: Nv12Frame,
    x: int,
    row: int,
)
    requires
        p.wf(),
        call_ensures(take_picture, (&p,), r),
        0 <= x < p.width,
        0 <= row < p.height,
        p.width <= p.y_stride <= u32::MAX,
        p.format != PixelFormat::Yuv420p ==> half_up(p.width as int) * 2 <= p.c_stride,
        p.c_stride <= u32::MAX,
    ensures
        ({
            let at = row / 2 * r.stride_uv + x / 2 * 2;
            &&& (r.width, r.height, r.pts_us) == (p.width, p.height, p.pts_us)
            &&& r.y@[row * r.stride_y + x] == p.y@[row * p.y_stride + x]
            &&& p.format == PixelFormat::Yuv420p ==> {
                &&& r.uv@[at] == p.u@[row / 2 * p.c_stride + x / 2]
                &&& r.uv@[at + 1] == p.v@[row / 2 * p.c_stride + x / 2]
            }
            &&& p.format != PixelFormat::Yuv420p ==> {
                &&& r.uv@[at] == p.u@[row / 2 * p.c_stride + x / 2 * 2]
                &&& r.uv@[at + 1] == p.u@[row / 2 * p.c_stride + x / 2 * 2 + 1]
            }
        }),
{
    if p.format == PixelFormat::Yuv420p {
        law_planar_pictures_keep_their_samples(
            p.y@,
            p.u@,
            p.v@,
            p.y_stride as int,
            p.c_stride as int,
            p.width as nat,
            p.height as nat,
            x,
            row,
        );
    } else {
        lemma_in_rows(row, p.y_stride as int, p.height as int, x);
        lemma_in_rows(row / 2, p.c_stride as int, half_up(p.height as int), x / 2 * 2 + 1);
        assert(p.c_stride * half_up(p.height as int) == half_up(p.height as int) * p.c_stride)
            by (nonlinear_arith);
    }
}

/// A decoder in memory is told its formats, eight-bit planar for NV12 and ten-bit planar
/// for P010, and one on a device its size; the format is chosen on VAAPI alone, and then
/// the device's own wherever it is on offer.
pub proof fn law_decoders_are_told_what_they_need(
    kind: DecoderKind,
    width: u32,
    height: u32,
    r: DecoderSettings,
    offered: &[PixelFormat],
    chosen: Option<PixelFormat>,
)
    requires
        width <= i32::MAX,
        height <= i32::MAX,
        call_ensures(decoder_settings, (kind, width, height), r),
        call_ensures(get_vaapi_format_main10, (offered,), chosen),
    ensures
        r.size is Some <==> kind is Nvdec || kind is VaapiMain10,
        r.size matches Some(s) ==> s.0 == width && s.1 == height,
        r.formats is Some <==> kind is Sw || kind is SwMain10,
        kind is Sw ==> r.formats == Some((PixelFormat::Nv12, PixelFormat::Yuv420p)),
        kind is SwMain10 ==> r.formats == Some((PixelFormat::P010le, PixelFormat::Yuv420p10le)),
        r.chooses_format <==> kind is VaapiMain10,
        chosen is Some <==> exists|i: int|
            0 <= i < offered@.len() && #[trigger] offered@[i] is Vaapi,
        chosen matches Some(f) ==> f is Vaapi,
{
}

} // verus!
