//! The software codec behind the interfaces that all platforms share.

use vstd::prelude::*;
use crate::media_core::{DecodeError, EncodeError, EncodedPacket};
use crate::media_linux::error::LinuxMediaError;
use crate::media_linux::frame::BgraFrame;
use crate::media_linux::sw_pipeline::{
    config_of, convertible, picture_of, LinuxSwDecoder, LinuxSwEncoder,
};
use crate::media_sw::decoder::{decoded_from, may_decode, opened_as};
use crate::media_sw::encoder::{
    coded_from, codable_size, encoder_settings, opened_with, refused_as, EncoderSettings,
    Openh264EncoderConfig,
};
use crate::media_sw::error::{openh264_text, MediaSwError};
use crate::media_sw::nv12::{bgra_reason, I420Frame};
use crate::protocol::{bytes_held, bytes_to_vec, EncodedFrame};

verus! {

/// The packet of an encoded frame: its bytes, whether it is a keyframe, its time.
pub fn packet_of(frame: &EncodedFrame) -> (r: EncodedPacket)
    ensures
        r.nal_bytes@ == bytes_held(frame.nal_units),
        r.is_keyframe == frame.is_keyframe,
        r.timestamp_us == frame.timestamp_host_us,
{
    EncodedPacket {
        nal_bytes: bytes_to_vec(&frame.nal_units),
        is_keyframe: frame.is_keyframe,
        timestamp_us: frame.timestamp_host_us,
    }
}

/// The text of an OpenH264 error that came of the named call.
pub open spec fn failure_text(context: Seq<char>, source: openh264::Error) -> Seq<char> {
    "openh264 backend error: "@ + ("openh264: "@ + context + ": "@ + openh264_text(source))
}

pub struct LinuxOpenh264Encoder {
    inner: LinuxSwEncoder,
}

impl LinuxOpenh264Encoder {
    pub closed spec fn wf(self) -> bool {
        self.inner.wf()
    }

    pub closed spec fn size(self) -> (u32, u32) {
        self.inner.size()
    }

    pub closed spec fn config(self) -> Openh264EncoderConfig {
        self.inner.config()
    }

    /// Whether the next frame is asked to be a keyframe in any case.
    pub closed spec fn keyframe_owed(self) -> bool {
        self.inner.keyframe_owed()
    }

    pub closed spec fn settings(self) -> EncoderSettings {
        self.inner.settings()
    }

    /// The encoder of the bindings inside.
    pub closed spec fn native(self) -> openh264::encoder::Encoder {
        self.inner.native()
    }

    /// What opening an encoder of the bindings leads to.
    pub open spec fn opened(
        cfg: Openh264EncoderConfig,
        outcome: Result<openh264::encoder::Encoder, openh264::Error>,
        r: Result<Self, EncodeError>,
    ) -> bool {
        match outcome {
            Ok(native) => {
                &&& r matches Ok(e) && e.wf() && e.native() == native && e.settings()
                    == encoder_settings(native) && e.size() == (cfg.width, cfg.height)
                    && e.config() == cfg && e.keyframe_owed()
            },
            Err(e) => r matches Err(EncodeError::Backend(text)) && text@ == failure_text(
                "Encoder::with_api_config"@,
                e,
            ),
        }
    }

    pub fn new(width: u32, height: u32, bitrate_bps: u32, fps: u32) -> (r: Result<
        Self,
        EncodeError,
    >)
        ensures
            ({
                let cfg = config_of(width, height, bitrate_bps, fps);
                &&& exists|outcome: Result<openh264::encoder::Encoder, openh264::Error>|
                    #[trigger] opened_with(cfg, outcome) && Self::opened(cfg, outcome, r)
                &&& r matches Ok(e) ==> e.settings().for_sharing(cfg)
            }),
    {
        match LinuxSwEncoder::new(width, height, bitrate_bps, fps) {
            Ok(inner) => Ok(LinuxOpenh264Encoder { inner }),
            Err(e) => Err(e.to_encode_error()),
        }
    }

    /// Encodes a frame into a packet. A frame of another size is a mismatch of
    /// formats; every other failure is the backend's.
    pub fn encode(&mut self, frame: &BgraFrame, force_idr: bool, timestamp_us: u64) -> (r: Result<
        EncodedPacket,
        EncodeError,
    >)
        requires
            old(self).wf(),
        ensures
            final(self).wf(),
            final(self).size() == old(self).size(),
            final(self).config() == old(self).config(),
            final(self).settings() == old(self).settings(),
            (frame.width, frame.height) != old(self).size() ==> (r matches Err(
                EncodeError::FormatMismatch(text),
            ) && text@ == LinuxMediaError::InvalidDimensions(frame.width, frame.height).message()),
            (frame.width, frame.height) == old(self).size() && !convertible(*frame) ==> (r matches Err(
                EncodeError::Backend(text),
            ) && text@ == "openh264 backend error: "@ + ("invalid I420 frame: "@ + bgra_reason(
                frame.bgra@.len(),
                frame.width,
                frame.height,
                frame.stride,
            ))),
            (frame.width, frame.height) == old(self).size() && convertible(*frame) ==> match r {
                Ok(p) => {
                    &&& codable_size(frame.width, frame.height)
                    &&& p.timestamp_us == timestamp_us
                    &&& coded_from(
                        old(self).native(),
                        p.nal_bytes@,
                        p.is_keyframe,
                        picture_of(*frame),
                        timestamp_us,
                        force_idr || old(self).keyframe_owed(),
                        final(self).native(),
                    )
                },
                Err(e) => exists|source: openh264::Error|
                    refused_as(
                        old(self).native(),
                        picture_of(*frame),
                        timestamp_us,
                        force_idr || old(self).keyframe_owed(),
                        source,
                        final(self).native(),
                    ) && (
                    e matches EncodeError::Backend(text) && text@ == #[trigger] failure_text(
                        "Encoder::encode_at"@,
                        source,
                    )),
            },
            final(self).keyframe_owed() == (old(self).keyframe_owed() && !((
                frame.width,
                frame.height,
            ) == old(self).size() && convertible(*frame))),
            !((frame.width, frame.height) == old(self).size() && convertible(*frame))
                ==> final(self).native() == old(self).native(),
    {
        match self.inner.encode(frame, force_idr, timestamp_us) {
            Ok(f) => Ok(packet_of(&f)),
            Err(e) => {
                assert(e matches LinuxMediaError::Openh264(
                    MediaSwError::OpenH264 { context, source },
                ) ==> e.message() == failure_text(context@, source));
                Err(e.to_encode_error())
            },
        }
    }

    pub fn set_target_bitrate(&mut self, bps: u32)
        requires
            old(self).wf(),
        ensures
            final(self).wf(),
            final(self).size() == old(self).size(),
            final(self).keyframe_owed() == old(self).keyframe_owed(),
            final(self).settings() == old(self).settings(),
            final(self).native() == old(self).native(),
            final(self).config() == (Openh264EncoderConfig {
                target_bitrate_bps: bps,
                ..old(self).config()
            }),
    {
        self.inner.set_target_bitrate(bps);
    }

    pub fn backend_name(&self) -> (r: &'static str)
        ensures
            r@ == "linux-x11shm-openh264"@,
    {
        "linux-x11shm-openh264"
    }
}

pub struct LinuxOpenh264Decoder {
    inner: LinuxSwDecoder,
}

impl LinuxOpenh264Decoder {
    /// The decoder of the bindings inside.
    pub closed spec fn native(self) -> openh264::decoder::Decoder {
        self.inner.native()
    }

    /// What opening a decoder of the bindings leads to.
    pub open spec fn opened(
        outcome: Result<openh264::decoder::Decoder, openh264::Error>,
        r: Result<Self, DecodeError>,
    ) -> bool {
        match outcome {
            Ok(native) => r matches Ok(d) && d.native() == native,
            Err(e) => r matches Err(DecodeError::Backend(text)) && text@ == failure_text(
                "Decoder::with_api_config"@,
                e,
            ),
        }
    }

    pub fn new() -> (r: Result<Self, DecodeError>)
        ensures
            exists|outcome: Result<openh264::decoder::Decoder, openh264::Error>|
                #[trigger] opened_as(outcome) && Self::opened(outcome, r),
    {
        match LinuxSwDecoder::new() {
            Ok(inner) => Ok(LinuxOpenh264Decoder { inner }),
            Err(e) => Err(e.to_decode_error()),
        }
    }

    /// Decodes a packet.
    pub fn decode(&mut self, packet: &EncodedPacket) -> (r: Result<Option<I420Frame>, DecodeError>)
        ensures
            r matches Ok(frame) ==> decoded_from(
                old(self).native(),
                frame,
                packet.nal_bytes@,
                final(self).native(),
            ),
            r matches Err(e) ==> exists|source: openh264::Error|
                may_decode(
                    old(self).native(),
                    packet.nal_bytes@,
                    Err(source),
                    final(self).native(),
                ) && (
                e matches DecodeError::Backend(text) && text@ == #[trigger] failure_text(
                    "Decoder::decode"@,
                    source,
                )),
    {
        match self.inner.decode(packet) {
            Ok(f) => Ok(f),
            Err(e) => {
                assert(e matches LinuxMediaError::Openh264(
                    MediaSwError::OpenH264 { context, source },
                ) ==> e.message() == failure_text(context@, source));
                Err(e.to_decode_error())
            },
        }
    }

    pub fn backend_name(&self) -> (r: &'static str)
        ensures
            r@ == "linux-openh264"@,
    {
        "linux-openh264"
    }
}

} // verus!
