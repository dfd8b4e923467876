//! BGRA frames to H.264 and back, in software.

use vstd::prelude::*;
use crate::media_core::EncodedPacket;
use crate::media_linux::error::LinuxMediaError;
use crate::media_linux::frame::BgraFrame;
use crate::media_sw::decoder::{decoded_from, may_decode, opened_as, Openh264Decoder};
use crate::media_sw::encoder::{
    coded_from, codable_size, encoder_settings, opened_with, refused_as, EncoderSettings,
    Openh264Encoder, Openh264EncoderConfig,
};
use crate::media_sw::error::MediaSwError;
use crate::media_sw::nv12::{
    bgra_reason, bgra_to_i420, chroma_plane, chroma_u, chroma_v, even_dims, four_pixels,
    law_chroma_comes_from_its_pixels, law_luma_comes_from_its_pixel, luma_plane, I420Frame, Picture,
};
use crate::media_sw::traits::{SwH264Decoder, SwH264Encoder};
use crate::protocol::{bytes_held, Codec, EncodedFrame};

verus! {

/// An H.264 encoder of BGRA frames of one size.
pub struct LinuxSwEncoder {
    inner: Openh264Encoder,
    width: u32,
    height: u32,
}

/// The picture can be converted.
pub open spec fn convertible(frame: BgraFrame) -> bool {
    even_dims(frame.width, frame.height) && frame.stride >= frame.width * 4 && frame.bgra@.len()
        >= frame.stride * frame.height
}

/// What a frame shows once it is converted: studio-range luma for every pixel,
/// chroma for every square of four, no padding.
pub open spec fn picture_of(frame: BgraFrame) -> Picture {
    Picture {
        width: frame.width,
        height: frame.height,
        stride_y: frame.width,
        stride_uv: frame.width / 2,
        y: luma_plane(
            frame.bgra@,
            frame.width as nat,
            frame.height as nat,
            frame.stride as int,
        ),
        u: chroma_plane(
            frame.bgra@,
            (frame.width / 2) as nat,
            (frame.height / 2) as nat,
            frame.stride as int,
            |b: int, g: int, r: int| chroma_u(b, g, r),
        ),
        v: chroma_plane(
            frame.bgra@,
            (frame.width / 2) as nat,
            (frame.height / 2) as nat,
            frame.stride as int,
            |b: int, g: int, r: int| chroma_v(b, g, r),
        ),
    }
}

/// What an encoder is opened with.
pub open spec fn config_of(width: u32, height: u32, bitrate_bps: u32, fps: u32) -> Openh264EncoderConfig {
    Openh264EncoderConfig { width, height, target_bitrate_bps: bitrate_bps, max_fps: fps }
}

/// The failure of an encoder that could not be opened.
pub open spec fn not_opened(e: openh264::Error, x: LinuxMediaError) -> bool {
    x matches LinuxMediaError::Openh264(MediaSwError::OpenH264 { context, source }) && context@
        == "Encoder::with_api_config"@ && source == e
}

impl LinuxSwEncoder {
    /// The encoder inside has the same size.
    pub closed spec fn wf(self) -> bool {
        self.inner.config().width == self.width && self.inner.config().height == self.height
    }

    pub closed spec fn size(self) -> (u32, u32) {
        (self.width, self.height)
    }

    pub closed spec fn config(self) -> Openh264EncoderConfig {
        self.inner.config()
    }

    pub closed spec fn next_seq(self) -> u64 {
        self.inner.next_seq()
    }

    /// Whether the next frame is asked to be a keyframe in any case.
    pub closed spec fn keyframe_owed(self) -> bool {
        self.inner.keyframe_owed()
    }

    pub closed spec fn settings(self) -> EncoderSettings {
        self.inner.settings()
    }

    /// The encoder of the bindings inside.
    pub closed spec fn native(self) -> openh264::encoder::Encoder {
        self.inner.inner()
    }

    /// Nothing has been coded yet, and the first frame is asked to be a keyframe.
    pub open spec fn fresh(
        self,
        cfg: Openh264EncoderConfig,
        native: openh264::encoder::Encoder,
    ) -> bool {
        &&& self.wf()
        &&& self.native() == native
        &&& self.settings() == encoder_settings(native)
        &&& self.size() == (cfg.width, cfg.height)
        &&& self.config() == cfg
        &&& self.next_seq() == 0
        &&& self.keyframe_owed()
    }

    /// What opening an encoder of the bindings leads to.
    pub open spec fn opened(
        cfg: Openh264EncoderConfig,
        outcome: Result<openh264::encoder::Encoder, openh264::Error>,
        r: Result<Self, LinuxMediaError>,
    ) -> bool {
        match outcome {
            Ok(native) => r matches Ok(e) && e.fresh(cfg, native),
            Err(e) => r matches Err(x) && not_opened(e, x),
        }
    }

    pub fn new(width: u32, height: u32, bitrate_bps: u32, fps: u32) -> (r: Result<
        Self,
        LinuxMediaError,
    >)
        ensures
            ({
                let cfg = config_of(width, height, bitrate_bps, fps);
                &&& exists|outcome: Result<openh264::encoder::Encoder, openh264::Error>|
                    #[trigger] opened_with(cfg, outcome) && Self::opened(cfg, outcome, r)
                &&& r matches Ok(e) ==> e.settings().for_sharing(cfg)
            }),
    {
        let cfg: Openh264EncoderConfig = Openh264EncoderConfig {
            width,
            height,
            target_bitrate_bps: bitrate_bps,
            max_fps: fps,
        };
        assert(cfg == config_of(width, height, bitrate_bps, fps));
        match Openh264Encoder::new(cfg) {
            Ok(inner) => Ok(LinuxSwEncoder { inner, width, height }),
            Err(e) => Err(LinuxMediaError::Openh264(e)),
        }
    }

    /// The frame has the encoder's size and can be converted.
    pub open spec fn takes(self, frame: BgraFrame) -> bool {
        (frame.width, frame.height) == self.size() && convertible(frame)
    }

    /// What encoding a frame does to the encoder, and what comes back. A frame of
    /// another size is refused, and so is one that cannot be converted; beyond that
    /// OpenH264 decides.
    pub open spec fn encodes(
        self,
        frame: BgraFrame,
        force_idr: bool,
        timestamp_us: u64,
        after: LinuxSwEncoder,
        r: Result<EncodedFrame, LinuxMediaError>,
    ) -> bool {
        &&& after.wf()
        &&& after.size() == self.size()
        &&& after.config() == self.config()
        &&& after.settings() == self.settings()
        &&& after.keyframe_owed() == (self.keyframe_owed() && !self.takes(frame))
        &&& !self.takes(frame) ==> after.native() == self.native()
        &&& match r {
            Ok(f) => {
                &&& self.takes(frame)
                &&& codable_size(frame.width, frame.height)
                &&& f.seq == self.next_seq()
                &&& f.timestamp_host_us == timestamp_us
                &&& coded_from(
                    self.native(),
                    bytes_held(f.nal_units),
                    f.is_keyframe,
                    picture_of(frame),
                    timestamp_us,
                    force_idr || self.keyframe_owed(),
                    after.native(),
                )
                &&& f.width == frame.width
                &&& f.height == frame.height
                &&& f.codec == Codec::H264
                &&& after.next_seq() == (self.next_seq() + 1) % 0x1_0000_0000_0000_0000
            },
            Err(e) => {
                &&& after.next_seq() == self.next_seq()
                &&& self.refuses(frame, force_idr, timestamp_us, after, e)
            },
        }
    }

    /// Why a frame is not encoded.
    pub open spec fn refuses(
        self,
        frame: BgraFrame,
        force_idr: bool,
        timestamp_us: u64,
        after: LinuxSwEncoder,
        e: LinuxMediaError,
    ) -> bool {
        if (frame.width, frame.height) != self.size() {
            e == LinuxMediaError::InvalidDimensions(frame.width, frame.height)
        } else if !convertible(frame) {
            e matches LinuxMediaError::Openh264(MediaSwError::InvalidFrame { reason }) && reason@
                == bgra_reason(frame.bgra@.len(), frame.width, frame.height, frame.stride)
        } else {
            e matches LinuxMediaError::Openh264(MediaSwError::OpenH264 { context, source })
                && context@ == "Encoder::encode_at"@ && refused_as(
                self.native(),
                picture_of(frame),
                timestamp_us,
                force_idr || self.keyframe_owed(),
                source,
                after.native(),
            )
        }
    }

    /// Converts and encodes a frame.
    pub fn encode(&mut self, frame: &BgraFrame, force_idr: bool, timestamp_us: u64) -> (r: Result<
        EncodedFrame,
        LinuxMediaError,
    >)
        requires
            old(self).wf(),
        ensures
            old(self).encodes(*frame, force_idr, timestamp_us, *final(self), r),
    {
        if frame.width != self.width || frame.height != self.height {
            return Err(LinuxMediaError::InvalidDimensions(frame.width, frame.height));
        }
        let i420: I420Frame = match bgra_to_i420(
            frame.bgra.as_slice(),
            frame.width,
            frame.height,
            frame.stride,
        ) {
            Ok(f) => f,
            Err(e) => {
                return Err(LinuxMediaError::Openh264(e));
            },
        };
        assert(i420@ == picture_of(*frame));
        match self.inner.encode(&i420, force_idr, timestamp_us) {
            Ok(f) => Ok(f),
            Err(e) => Err(LinuxMediaError::Openh264(e)),
        }
    }

    pub fn set_target_bitrate(&mut self, bps: u32)
        ensures
            old(self).wf() ==> final(self).wf(),
            final(self).size() == old(self).size(),
            final(self).next_seq() == old(self).next_seq(),
            final(self).keyframe_owed() == old(self).keyframe_owed(),
            final(self).settings() == old(self).settings(),
            final(self).native() == old(self).native(),
            final(self).config() == (Openh264EncoderConfig {
                target_bitrate_bps: bps,
                ..old(self).config()
            }),
    {
        self.inner.set_target_bitrate(bps);
    }
}

/// An H.264 decoder.
pub struct LinuxSwDecoder {
    inner: Openh264Decoder,
}

impl LinuxSwDecoder {
    /// The decoder of the bindings inside.
    pub closed spec fn native(self) -> openh264::decoder::Decoder {
        self.inner.inner()
    }

    /// What opening a decoder of the bindings leads to.
    pub open spec fn opened(
        outcome: Result<openh264::decoder::Decoder, openh264::Error>,
        r: Result<Self, LinuxMediaError>,
    ) -> bool {
        match outcome {
            Ok(native) => r matches Ok(d) && d.native() == native,
            Err(e) => r matches Err(
                LinuxMediaError::Openh264(MediaSwError::OpenH264 { context, source }),
            ) && context@ == "Decoder::with_api_config"@ && source == e,
        }
    }

    pub fn new() -> (r: Result<Self, LinuxMediaError>)
        ensures
            exists|outcome: Result<openh264::decoder::Decoder, openh264::Error>|
                #[trigger] opened_as(outcome) && Self::opened(outcome, r),
    {
        match Openh264Decoder::new() {
            Ok(inner) => Ok(LinuxSwDecoder { inner }),
            Err(e) => Err(LinuxMediaError::Openh264(e)),
        }
    }

    /// Decodes the bytes of a packet.
    pub fn decode(&mut self, packet: &EncodedPacket) -> (r: Result<
        Option<I420Frame>,
        LinuxMediaError,
    >)
        ensures
            r matches Ok(frame) ==> decoded_from(
                old(self).native(),
                frame,
                packet.nal_bytes@,
                final(self).native(),
            ),
            r matches Err(e) ==> e matches LinuxMediaError::Openh264(
                MediaSwError::OpenH264 { context, source },
            ) && context@ == "Decoder::decode"@ && may_decode(
                old(self).native(),
                packet.nal_bytes@,
                Err(source),
                final(self).native(),
            ),
    {
        match self.inner.decode(packet.nal_bytes.as_slice()) {
            Ok(f) => Ok(f),
            Err(e) => Err(LinuxMediaError::Openh264(e)),
        }
    }
}

/// A frame of another size than the encoder's, or one with missing rows, leaves no trace:
/// it is refused, the number and the native encoder stay, and a keyframe that is owed
/// stays owed.
pub proof fn law_refused_frames_leave_no_trace(
    e: LinuxSwEncoder,
    frame: BgraFrame,
    force_idr: bool,
    timestamp_us: u64,
    after: LinuxSwEncoder,
    r: Result<EncodedFrame, LinuxMediaError>,
)
    requires
        e.encodes(frame, force_idr, timestamp_us, after, r),
        (frame.width, frame.height) != e.size() || frame.width % 2 != 0 || frame.height % 2 != 0
            || frame.stride < 4 * frame.width || frame.bgra@.len() < frame.stride * frame.height,
    ensures
        r is Err,
        after.native() == e.native(),
        after.next_seq() == e.next_seq(),
        after.keyframe_owed() == e.keyframe_owed(),
        after.size() == e.size(),
        (frame.width, frame.height) != e.size() ==> r == Err::<EncodedFrame, LinuxMediaError>(
            LinuxMediaError::InvalidDimensions(frame.width, frame.height),
        ),
{
}

/// An encoded frame carries the next number, the frame's size and time, and pays a
/// keyframe that was owed; a frame that OpenH264 fails on takes no number.
pub proof fn law_encoded_frames_are_numbered_and_timed(
    e: LinuxSwEncoder,
    frame: BgraFrame,
    force_idr: bool,
    timestamp_us: u64,
    after: LinuxSwEncoder,
    r: Result<EncodedFrame, LinuxMediaError>,
)
    requires
        e.encodes(frame, force_idr, timestamp_us, after, r),
        e.next_seq() < u64::MAX,
    ensures
        r matches Ok(f) ==> {
            &&& f.seq == e.next_seq()
            &&& after.next_seq() == e.next_seq() + 1
            &&& (f.width, f.height) == (frame.width, frame.height)
            &&& (f.width, f.height) == e.size()
            &&& f.timestamp_host_us == timestamp_us
            &&& f.codec == Codec::H264
            &&& !after.keyframe_owed()
            &&& coded_from(
                e.native(),
                bytes_held(f.nal_units),
                f.is_keyframe,
                picture_of(frame),
                timestamp_us,
                force_idr || e.keyframe_owed(),
                after.native(),
            )
        },
        r is Err ==> after.next_seq() == e.next_seq(),
{
}

/// What is encoded is the captured frame, read row by row with its own stride: each luma
/// sample comes from the pixel at its column and row, each pair of chroma samples from the
/// means, rounded down, of the four pixels under them.
pub proof fn law_frames_are_read_with_their_stride(
    frame: BgraFrame,
    x: int,
    row: int,
    b: int,
    g: int,
    r: int,
)
    requires
        0 <= x < frame.width / 2,
        0 <= row < frame.height / 2,
        0 <= four_pixels(frame.bgra@, 2 * row * frame.stride + 8 * x, frame.stride as int) - 4 * b
            < 4,
        0 <= four_pixels(frame.bgra@, 2 * row * frame.stride + 8 * x + 1, frame.stride as int) - 4
            * g < 4,
        0 <= four_pixels(frame.bgra@, 2 * row * frame.stride + 8 * x + 2, frame.stride as int) - 4
            * r < 4,
    ensures
        ({
            let p = picture_of(frame);
            let at = 2 * row * frame.stride + 8 * x;
            let exact = 66 * frame.bgra@[at + 2] + 129 * frame.bgra@[at + 1] + 25 * frame.bgra@[at];
            let c = row * (frame.width / 2) + x;
            &&& (p.width, p.height) == (frame.width, frame.height)
            &&& p.stride_y == frame.width
            &&& 2 * p.stride_uv <= frame.width <= 2 * p.stride_uv + 1
            &&& -128 < 256 * (p.y[2 * row * frame.width + 2 * x] - 16) - exact <= 128
            &&& -128 < 256 * (p.u[c] - 128) - (112 * b - 74 * g - 38 * r) <= 128
            &&& -128 < 256 * (p.v[c] - 128) - (112 * r - 94 * g - 18 * b) <= 128
        }),
{
    law_luma_comes_from_its_pixel(
        frame.bgra@,
        frame.width as nat,
        frame.height as nat,
        frame.stride as int,
        2 * x,
        2 * row,
    );
    law_chroma_comes_from_its_pixels(
        frame.bgra@,
        (frame.width / 2) as nat,
        (frame.height / 2) as nat,
        frame.stride as int,
        x,
        row,
        b,
        g,
        r,
    );
}

/// An encoder is opened for the size, the bitrate and the frame rate that are asked for.
pub proof fn law_encoders_are_opened_as_asked(width: u32, height: u32, bitrate_bps: u32, fps: u32)
    ensures
        ({
            let cfg = config_of(width, height, bitrate_bps, fps);
            &&& (cfg.width, cfg.height) == (width, height)
            &&& cfg.target_bitrate_bps == bitrate_bps
            &&& cfg.max_fps == fps
        }),
{
}

} // verus!
