//! Linux capture, conversion and encode pipelines, and how a producer or a decoder is
//! put together from them.

pub mod capture_source;
pub mod core_adapter;
pub mod error;
pub mod frame;
pub mod i420_to_bgra;
pub mod linux_sw_producer;
pub mod policy;
pub mod sw_pipeline;
pub mod vaapi_pipeline;
pub mod wayland_portal;
pub mod x11_capture;

use vstd::prelude::*;
use crate::media_ffmpeg::hevc_nvdec_decoder::{HevcNvdecFfmpegDecoder, HevcNvdecFfmpegDecoderConfig};
use crate::media_ffmpeg::hevc_sw_decoder::{HevcSwFfmpegDecoder, HevcSwFfmpegDecoderConfig};
use crate::media_ffmpeg::setup::{decoder_plan, DecoderKind, Setup, SetupView};
use crate::media_linux::error::LinuxMediaError;
use crate::media_linux::linux_sw_producer::{buffer_fits, LinuxSwProducer, ProducerState};
use crate::media_linux::sw_pipeline::{config_of, not_opened, LinuxSwDecoder, LinuxSwEncoder};
use crate::media_linux::vaapi_pipeline::{
    init_failure, InitReport, LinuxVaapiEncoder, VaapiVideoProducer,
};
use crate::media_linux::x11_capture::X11ShmCapturer;
use crate::media_sw::decoder::opened_as;
use crate::media_sw::encoder::{opened_with, Openh264EncoderConfig};

verus! {

/// A producer over a source of the given size that has delivered nothing yet, with
/// the encoder of the bindings inside; its buffer is black and its first frame is to
/// be a keyframe.
pub open spec fn ready_to_produce(
    p: LinuxSwProducer,
    cfg: Openh264EncoderConfig,
    native: openh264::encoder::Encoder,
) -> bool {
    &&& p.wf()
    &&& p.state() == (ProducerState {
        seq: 0,
        idr_pending: true,
        width: cfg.width,
        height: cfg.height,
        poisoned: false,
        resize_warned: false,
    })
    &&& p.buffer()@ == Seq::new((cfg.width * cfg.height * 4) as nat, |i: int| 0u8)
    &&& p.encoder() matches Some(e) && e.fresh(cfg, native) && e.settings().for_sharing(cfg)
}

/// What opening an encoder of the bindings for a producer leads to.
pub open spec fn producer_built(
    cfg: Openh264EncoderConfig,
    outcome: Result<openh264::encoder::Encoder, openh264::Error>,
    r: Result<LinuxSwProducer, LinuxMediaError>,
) -> bool {
    match outcome {
        Ok(native) => r matches Ok(p) && ready_to_produce(p, cfg, native),
        Err(e) => r matches Err(x) && not_opened(e, x),
    }
}

/// A producer of the software path over a source of the given size: the encoder has
/// the source's size.
pub fn build_video_producer_with(geometry: (u32, u32), bitrate_bps: u32, fps: u32) -> (r: Result<
    LinuxSwProducer,
    LinuxMediaError,
>)
    requires
        buffer_fits(geometry.0, geometry.1),
    ensures
        ({
            let cfg = config_of(geometry.0, geometry.1, bitrate_bps, fps);
            exists|outcome: Result<openh264::encoder::Encoder, openh264::Error>|
                #[trigger] opened_with(cfg, outcome) && producer_built(cfg, outcome, r)
        }),
{
    match LinuxSwEncoder::new(geometry.0, geometry.1, bitrate_bps, fps) {
        Ok(encoder) => Ok(LinuxSwProducer::new(geometry, encoder)),
        Err(e) => Err(e),
    }
}

/// A producer of the software path over the X server's screen, unless the capture
/// could not be opened.
pub fn build_video_producer(
    capture: Result<X11ShmCapturer, LinuxMediaError>,
    bitrate_bps: u32,
    fps: u32,
) -> (r: Result<LinuxSwProducer, LinuxMediaError>)
    requires
        capture matches Ok(c) ==> c.wf(),
    ensures
        match capture {
            Err(e) => r == Err::<LinuxSwProducer, LinuxMediaError>(e),
            Ok(c) => {
                let cfg = config_of(c.size().0, c.size().1, bitrate_bps, fps);
                exists|outcome: Result<openh264::encoder::Encoder, openh264::Error>|
                    #[trigger] opened_with(cfg, outcome) && producer_built(cfg, outcome, r)
            },
        },
{
    match capture {
        Err(e) => Err(e),
        Ok(c) => {
            let (w, h): (u32, u32) = (c.width(), c.height());
            assert(0 <= w * h <= 3840 * 2160) by (nonlinear_arith)
                requires
                    0 <= w <= 3840,
                    0 <= h <= 2160,
            ;
            build_video_producer_with((w, h), bitrate_bps, fps)
        },
    }
}

/// A producer of the hardware path over a source of the given size, with an encoder
/// of the size that was agreed on, which may differ.
pub fn build_vaapi_video_producer_with(
    geometry: (u32, u32),
    width: u32,
    height: u32,
    report: InitReport,
) -> (r: Result<(VaapiVideoProducer, LinuxVaapiEncoder), LinuxMediaError>)
    requires
        buffer_fits(geometry.0, geometry.1),
    ensures
        r is Ok <==> report is Ready,
        r matches Ok(p) ==> {
            &&& p.0.state() == (ProducerState {
                seq: 0,
                idr_pending: true,
                width: geometry.0,
                height: geometry.1,
                poisoned: false,
                resize_warned: false,
            })
            &&& p.0.buffer()@ == Seq::new((geometry.0 * geometry.1 * 4) as nat, |i: int| 0u8)
            &&& p.1 == (LinuxVaapiEncoder { width, height })
        },
        r matches Err(e) ==> init_failure(report, e),
{
    match LinuxVaapiEncoder::new(width, height, report) {
        Ok(encoder) => Ok((VaapiVideoProducer::new(geometry), encoder)),
        Err(e) => Err(e),
    }
}

/// A software decoder for the viewer.
pub fn build_video_decoder() -> (r: Result<LinuxSwDecoder, LinuxMediaError>)
    ensures
        exists|outcome: Result<openh264::decoder::Decoder, openh264::Error>|
            #[trigger] opened_as(outcome) && LinuxSwDecoder::opened(outcome, r),
{
    LinuxSwDecoder::new()
}

/// The calls that set up FFmpeg's software decoder of HEVC for pictures of the given
/// size, and the decoder.
pub fn build_ffmpeg_sw_hevc_decoder(width: u32, height: u32) -> (r: (Setup, HevcSwFfmpegDecoder))
    ensures
        r.0.wf(),
        r.0@ == SetupView::start(decoder_plan(DecoderKind::Sw), seq![], None, true),
        r.1 == (HevcSwFfmpegDecoder { width, height }),
{
    HevcSwFfmpegDecoder::new(HevcSwFfmpegDecoderConfig { width, height })
}

/// The calls that set up FFmpeg's NVDEC decoder of HEVC for pictures of the given
/// size, on the default device, and the decoder.
pub fn build_ffmpeg_nvdec_hevc_decoder(width: u32, height: u32) -> (r: (
    Setup,
    HevcNvdecFfmpegDecoder,
))
    ensures
        r.0.wf(),
        r.0@ == SetupView::start(decoder_plan(DecoderKind::Nvdec), seq![], None, true),
        r.1 == (HevcNvdecFfmpegDecoder { width, height }),
{
    HevcNvdecFfmpegDecoder::new(
        HevcNvdecFfmpegDecoderConfig { width, height, cuda_device_index: None },
    )
}

} // verus!
