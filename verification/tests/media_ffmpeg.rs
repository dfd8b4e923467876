use prdt_media::media_core::{DecodeError, EncodeError};
use prdt_media::media_ffmpeg::core_adapter::{
    HevcNvencFfmpegEncoderAdapter, HevcVaapiFfmpegEncoderAdapter,
};
use prdt_media::media_ffmpeg::decoder_common::{
    decoder_settings, get_vaapi_format_main10, on_frame_received, on_packet_sent, take_picture,
    take_picture_10, DecodedPlanes, DecoderSettings, DrainCall, Draining, DrainingStep,
};
use prdt_media::media_ffmpeg::encoder_core::AV_PICTURE_TYPE_I;
use prdt_media::media_ffmpeg::encoding::{
    DrainStep, EncodeCall, EncodeReply, EncodeStep, Encoding, PacketDrain,
};
use prdt_media::media_ffmpeg::error::{
    ffmpeg_to_decode_err, FfmpegError, AVERROR_EAGAIN, AVERROR_ENODEV, AVERROR_EOF,
};
use prdt_media::media_ffmpeg::hdr10_sei::{extract_hdr10_sidecar, ContentLight, MasteringDisplay};
use prdt_media::media_ffmpeg::hevc_nvdec_decoder::{
    HevcNvdecFfmpegDecoder, HevcNvdecFfmpegDecoderConfig,
};
use prdt_media::media_ffmpeg::hevc_nvenc_encoder::{
    HevcNvencFfmpegEncoder, HevcNvencFfmpegEncoderConfig,
};
use prdt_media::media_ffmpeg::hevc_nvenc_npp_encoder::{
    HevcNvencNppFfmpegEncoder, HevcNvencNppFfmpegEncoderConfig,
};
use prdt_media::media_ffmpeg::hevc_sw_decoder::{HevcSwFfmpegDecoder, HevcSwFfmpegDecoderConfig};
use prdt_media::media_ffmpeg::hevc_sw_main10_decoder::{
    HevcSwMain10FfmpegDecoder, HevcSwMain10FfmpegDecoderConfig,
};
use prdt_media::media_ffmpeg::hevc_vaapi_encoder::{
    HevcVaapiFfmpegEncoder, HevcVaapiFfmpegEncoderConfig,
};
use prdt_media::media_ffmpeg::hevc_vaapi_main10_decoder::{
    HevcVaapiMain10FfmpegDecoder, HevcVaapiMain10FfmpegDecoderConfig,
};
use prdt_media::media_ffmpeg::hevc_vaapi_main10_encoder::{
    HevcVaapiMain10FfmpegEncoder, HevcVaapiMain10FfmpegEncoderConfig,
};
use prdt_media::media_ffmpeg::options::{
    apply_low_latency_hevc, build_priv_data_dict, build_priv_data_dict_nvenc, ColourTags,
    DictEntry, EncoderKind, EncoderTunables, PixelFormat, Rational, AV_CODEC_FLAG_GLOBAL_HEADER,
    AV_PROFILE_HEVC_MAIN, AV_PROFILE_HEVC_MAIN_10,
};
use prdt_media::media_ffmpeg::planes::{
    copy_nv12_planes, copy_p010_planes, copy_yuv420p_as_nv12_planes, i420_to_nv12_into,
};
use prdt_media::media_ffmpeg::probe::{probe_hevc_nvenc, probe_hevc_vaapi};
use prdt_media::media_ffmpeg::setup::{
    release_decoder, release_encoder, Call, CodecName, DecoderKind, DeviceKind, Reply, Resource,
    Setup, SetupStep,
};
use prdt_media::media_linux::frame::BgraFrame;
use prdt_media::media_sw::nv12::I420Frame;

const FINE: Reply = Reply { null: false, code: 0, version: 12_040, content: PixelFormat::Nv12 };

/// Runs a set-up whose call number `bad` is answered with `answer`.
fn run(mut setup: Setup, bad: Option<(usize, Reply)>) -> (usize, SetupStep) {
    let mut at = 0;
    loop {
        let reply = match bad {
            Some((n, answer)) if n == at => answer,
            _ => FINE,
        };
        match setup.on_reply(&reply) {
            SetupStep::Next(next) => {
                setup = next;
                at += 1;
            }
            end => return (at, end),
        }
    }
}

fn calls(mut setup: Setup) -> Vec<Call> {
    let mut out = vec![setup.call()];
    while let SetupStep::Next(next) = setup.on_reply(&FINE) {
        setup = next;
        out.push(setup.call());
    }
    out
}

fn vaapi_config() -> HevcVaapiFfmpegEncoderConfig {
    HevcVaapiFfmpegEncoderConfig {
        width: 320,
        height: 240,
        fps: 30,
        initial_bitrate_bps: 4_000_000,
        gop_size: 30,
        render_node: Some("/dev/dri/renderD128".into()),
    }
}

// ---- errors ----

#[test]
fn encoder_not_found_maps_to_backend() {
    let e = FfmpegError::EncoderNotFound("hevc_vaapi");
    let enc: EncodeError = e.to_encode_error();
    assert!(matches!(enc, EncodeError::Backend(_)));
}

#[test]
fn vaapi_device_lost_maps_to_device_lost() {
    let e = FfmpegError::Send(AVERROR_ENODEV);
    let enc: EncodeError = e.to_encode_error();
    assert!(matches!(enc, EncodeError::DeviceLost(_)));
}

#[test]
fn a_lost_device_is_told_by_code_or_text() {
    let lost = |e: FfmpegError| matches!(e.to_encode_error(), EncodeError::DeviceLost(_));
    assert!(lost(FfmpegError::Receive(-19)));
    assert!(lost(FfmpegError::HwDevice("the device lost power".into())));
    assert!(!lost(FfmpegError::HwDevice("no device".into())));
    assert!(!lost(FfmpegError::HwFrames("device lost".into())));
    assert!(!lost(FfmpegError::Send(-5)));
}

#[test]
fn ffmpeg_errors_show_what_they_hold() {
    let cases = [
        (FfmpegError::NoLibavcodec, "libavcodec runtime probe failed"),
        (FfmpegError::EncoderNotFound("hevc"), "encoder not found: hevc"),
        (FfmpegError::HwDevice("a".into()), "hw device error: a"),
        (FfmpegError::HwFrames("b".into()), "hw frames error: b"),
        (FfmpegError::OpenCodec(-22), "avcodec_open2 failed: -22"),
        (FfmpegError::Send(-5), "avcodec_send_frame failed: -5"),
        (FfmpegError::Receive(-2147483648), "avcodec_receive_packet failed: -2147483648"),
        (FfmpegError::Bsf(-1), "BSF error: -1"),
        (FfmpegError::Transfer(7), "hw frame transfer failed: 7"),
        (FfmpegError::Closed, "encoder closed"),
        (FfmpegError::Drop("c".into()), "drop assertion failed: c"),
    ];
    for (e, text) in cases {
        assert_eq!(e.to_string(), text);
    }
}

#[test]
fn decoders_tell_the_stream_from_the_backend() {
    assert!(matches!(ffmpeg_to_decode_err(FfmpegError::Bsf(-1)), DecodeError::Bitstream(_)));
    assert!(matches!(ffmpeg_to_decode_err(FfmpegError::Send(-1)), DecodeError::Bitstream(_)));
    assert!(matches!(ffmpeg_to_decode_err(FfmpegError::Receive(-1)), DecodeError::Bitstream(_)));
    match ffmpeg_to_decode_err(FfmpegError::OpenCodec(-1)) {
        DecodeError::Backend(text) => assert_eq!(text, "avcodec_open2 failed: -1"),
        other => panic!("expected Backend, got {other:?}"),
    }
}

// ---- options ----

fn get_dict_value(dict: &[DictEntry], key: &str) -> Option<String> {
    dict.iter().find(|e| e.key == key).map(|e| e.value.clone())
}

#[test]
fn low_latency_dict_contains_required_keys() {
    let d = build_priv_data_dict(60);
    assert_eq!(get_dict_value(&d, "async_depth").as_deref(), Some("1"));
    assert_eq!(get_dict_value(&d, "rc_mode").as_deref(), Some("CBR"));
    assert_eq!(get_dict_value(&d, "forced_idr").as_deref(), Some("1"));
    assert_eq!(get_dict_value(&d, "idr_interval").as_deref(), Some("60"));
}

#[test]
fn codec_ctx_fields_set() {
    let t = EncoderTunables {
        bitrate_bps: 8_000_000,
        fps: 60,
        width: 1920,
        height: 1080,
        gop_size: 60,
    };
    let ctx = apply_low_latency_hevc(EncoderKind::Vaapi, -1, &t);
    assert_eq!(ctx.max_b_frames, 0);
    assert_eq!(ctx.gop_size, 60);
    assert_eq!(ctx.bit_rate, 8_000_000);
    assert_eq!(ctx.pix_fmt, PixelFormat::Vaapi);
    assert_eq!(ctx.profile, AV_PROFILE_HEVC_MAIN);
    assert_eq!(ctx.flags & AV_CODEC_FLAG_GLOBAL_HEADER, 0);
}

#[test]
fn the_buffer_holds_one_frame() {
    let mut t = EncoderTunables {
        bitrate_bps: 8_000_000,
        fps: 60,
        width: 1920,
        height: 1080,
        gop_size: 60,
    };
    let ctx = apply_low_latency_hevc(EncoderKind::VaapiMain10, 3, &t);
    assert_eq!((ctx.rc_buffer_size, ctx.rc_max_rate), (133_333, 8_000_000));
    assert_eq!(ctx.time_base, Rational { num: 1, den: 60 });
    assert_eq!(ctx.framerate, Rational { num: 60, den: 1 });
    assert_eq!((ctx.profile, ctx.flags), (AV_PROFILE_HEVC_MAIN_10, 3));
    let hdr10 = ColourTags { primaries: 9, transfer: 16, matrix: 9 };
    assert_eq!(ctx.colour, Some(hdr10));
    assert_eq!(apply_low_latency_hevc(EncoderKind::Vaapi, 3, &t).colour, None);
    t.fps = 0;
    let ctx = apply_low_latency_hevc(EncoderKind::Nvenc, 0, &t);
    assert_eq!((ctx.rc_buffer_size, ctx.pix_fmt), (8_000_000, PixelFormat::Cuda));
}

#[test]
fn nvenc_is_set_to_ultra_low_latency() {
    let d = build_priv_data_dict_nvenc();
    assert_eq!(get_dict_value(&d, "preset").as_deref(), Some("p1"));
    assert_eq!(get_dict_value(&d, "tune").as_deref(), Some("ull"));
    assert_eq!(get_dict_value(&d, "rc").as_deref(), Some("cbr"));
    assert_eq!(get_dict_value(&d, "zerolatency").as_deref(), Some("1"));
    assert_eq!(get_dict_value(&d, "forced-idr").as_deref(), Some("1"));
}

// ---- configurations ----

#[test]
fn hevc_nvenc_encoder_allocates_config_with_defaults() {
    let cfg = HevcNvencFfmpegEncoderConfig::default();
    assert_eq!(cfg.width, 1920);
    assert_eq!(cfg.fps, 60);
    assert!(cfg.cuda_device_index.is_none());
}

#[test]
fn hevc_nvenc_npp_encoder_allocates_config_with_defaults() {
    let cfg = HevcNvencNppFfmpegEncoderConfig::default();
    assert_eq!(cfg.width, 1920);
    assert_eq!(cfg.fps, 60);
    assert!(cfg.cuda_device_index.is_none());
}

#[test]
fn default_config_fields() {
    let cfg = HevcVaapiMain10FfmpegEncoderConfig::default();
    assert_eq!(cfg.width, 1920);
    assert_eq!(cfg.height, 1080);
    assert_eq!(cfg.fps, 60);
    assert_eq!(cfg.initial_bitrate_bps, 8_000_000);
    assert_eq!(cfg.gop_size, 60);
    assert!(cfg.render_node.is_none());
}

// ---- set-ups ----

#[test]
fn open_fails_cleanly_without_vaapi() {
    let (setup, _) = HevcVaapiFfmpegEncoder::new(vaapi_config());
    assert_eq!(setup.node().as_deref(), Some("/dev/dri/renderD128"));
    let (_, end) = run(setup, Some((1, Reply { code: -5, ..FINE })));
    match end {
        SetupStep::Failed { error: FfmpegError::HwDevice(why), release } => {
            assert_eq!(why, "av_hwdevice_ctx_create returned -5");
            assert!(release.is_empty());
        }
        other => panic!("expected HwDevice, got {other:?}"),
    }
    let (setup, _) = HevcVaapiFfmpegEncoder::new(vaapi_config());
    let (_, end) = run(setup, Some((2, Reply { null: true, ..FINE })));
    match end {
        SetupStep::Failed { error: FfmpegError::EncoderNotFound(name), release } => {
            assert_eq!(name, "hevc_vaapi");
            assert_eq!(release, vec![Resource::Device]);
        }
        other => panic!("expected EncoderNotFound, got {other:?}"),
    }
}

#[test]
fn open_fails_cleanly_without_cuda() {
    let (setup, _) = HevcNvencFfmpegEncoder::new(HevcNvencFfmpegEncoderConfig::default());
    let (_, end) = run(setup, Some((0, Reply { code: -1313558101, ..FINE })));
    match end {
        SetupStep::Failed { error: FfmpegError::HwDevice(why), release } => {
            assert_eq!(why, "av_hwdevice_ctx_create(CUDA) returned -1313558101");
            assert!(release.is_empty());
        }
        other => panic!("expected HwDevice, got {other:?}"),
    }
}

#[test]
fn hevc_nvenc_npp_encoder_new_fails_cleanly_without_cuda() {
    let cfg = HevcNvencNppFfmpegEncoderConfig {
        width: 320,
        height: 240,
        fps: 30,
        initial_bitrate_bps: 4_000_000,
        gop_size: 30,
        cuda_device_index: None,
    };
    let (setup, _) = HevcNvencNppFfmpegEncoder::new(cfg);
    let (_, end) = run(setup, Some((0, Reply { code: -12, ..FINE })));
    assert!(
        matches!(
            end,
            SetupStep::Failed {
                error: FfmpegError::HwDevice(_) | FfmpegError::EncoderNotFound(_),
                ..
            }
        ),
        "expected HwDevice or EncoderNotFound on a CUDA-less host"
    );
}

#[test]
fn cuda_npp_new_fails_cleanly_without_cuda() {
    let cfg = || HevcNvencNppFfmpegEncoderConfig {
        width: 320,
        height: 240,
        ..HevcNvencNppFfmpegEncoderConfig::default()
    };
    let at = calls(HevcNvencNppFfmpegEncoder::new(cfg()).0)
        .iter()
        .position(|c| *c == Call::DriverVersion)
        .expect("the driver is asked");
    let fail = |reply| match run(HevcNvencNppFfmpegEncoder::new(cfg()).0, Some((at, reply))).1 {
        SetupStep::Failed { error: FfmpegError::HwDevice(why), release } => (why, release),
        other => panic!("expected HwDevice error, got {other:?}"),
    };
    let held = vec![Resource::HwFrame, Resource::Context, Resource::Frames, Resource::Device];
    assert_eq!(
        fail(Reply { code: 35, ..FINE }),
        ("cudaDriverGetVersion returned 35 (CUDA runtime not loadable)".to_string(), held.clone())
    );
    assert_eq!(
        fail(Reply { version: 0, ..FINE }),
        (
            "CUDA driver too old: 0 < 12000 (need >= 12.0); upgrade NVIDIA driver to >= 535"
                .to_string(),
            held
        )
    );
}

#[test]
fn hevc_sw_decoder_constructs_cleanly_when_libavcodec_has_hevc() {
    let cfg = HevcSwFfmpegDecoderConfig::default();
    assert_eq!((cfg.width, cfg.height), (1920, 1080));
    let (setup, dec) = HevcSwFfmpegDecoder::new(cfg);
    assert!(matches!(run(setup, None).1, SetupStep::Ready { .. }));
    assert_eq!(dec.backend_name(), "ffmpeg-sw-hevc");
}

#[test]
fn hevc_sw_main10_decoder_constructs_cleanly_when_libavcodec_has_hevc() {
    let cfg = HevcSwMain10FfmpegDecoderConfig::default();
    let (setup, dec) = HevcSwMain10FfmpegDecoder::new(cfg);
    assert!(matches!(run(setup, None).1, SetupStep::Ready { .. }));
    assert_eq!(dec.backend_name(), "ffmpeg-sw-hevc-main10");
}

#[test]
fn constructs_with_real_nvdec() {
    let (setup, dec) = HevcNvdecFfmpegDecoder::new(HevcNvdecFfmpegDecoderConfig::default());
    assert!(matches!(run(setup, None).1, SetupStep::Ready { .. }));
    assert_eq!(dec.backend_name(), "ffmpeg-nvdec-hevc");
}

#[test]
fn constructs_with_real_vaapi_main10() {
    let cfg = HevcVaapiMain10FfmpegDecoderConfig::default();
    let (setup, dec) = HevcVaapiMain10FfmpegDecoder::new(cfg);
    assert!(setup.node().is_none());
    assert!(matches!(run(setup, None).1, SetupStep::Ready { .. }));
    assert_eq!(dec.backend_name(), "ffmpeg-vaapi-hevc-main10");
}

#[test]
fn hardware_decoders_open_their_own_codec() {
    let nvdec = HevcNvdecFfmpegDecoder::new(HevcNvdecFfmpegDecoderConfig::default()).0;
    assert_eq!(
        calls(nvdec)[..6],
        [
            Call::FindDecoder(CodecName::HevcCuvid),
            Call::OpenDevice(DeviceKind::Cuda),
            Call::ProbeEncoder(CodecName::HevcNvenc),
            Call::AllocContext(CodecName::HevcCuvid),
            Call::RefDevice,
            Call::OpenCodec(CodecName::HevcCuvid),
        ]
    );
    let cfg = HevcVaapiMain10FfmpegDecoderConfig::default();
    assert_eq!(
        calls(HevcVaapiMain10FfmpegDecoder::new(cfg).0)[..6],
        [
            Call::FindDecoder(CodecName::Hevc),
            Call::OpenDevice(DeviceKind::Vaapi),
            Call::ProbeEncoder(CodecName::HevcVaapi),
            Call::AllocContext(CodecName::Hevc),
            Call::RefDevice,
            Call::OpenCodec(CodecName::Hevc),
        ]
    );
}

#[test]
fn every_refused_call_has_its_error() {
    let null = Reply { null: true, ..FINE };
    let minus = Reply { code: -22, ..FINE };
    let text = |setup: Setup, n: usize, reply: Reply| match run(setup, Some((n, reply))).1 {
        SetupStep::Failed { error, .. } => error.to_string(),
        other => panic!("expected a failure, got {other:?}"),
    };
    let vaapi = || HevcVaapiFfmpegEncoder::new(vaapi_config()).0;
    assert_eq!(text(vaapi(), 0, null), "encoder not found: hevc_vaapi");
    assert_eq!(text(vaapi(), 3, null), "hw frames error: av_hwframe_ctx_alloc returned null");
    assert_eq!(text(vaapi(), 4, minus), "hw frames error: av_hwframe_ctx_init returned -22");
    assert_eq!(text(vaapi(), 5, null), "avcodec_open2 failed: -1");
    assert_eq!(text(vaapi(), 6, null), "hw frames error: av_buffer_ref returned null");
    assert_eq!(
        text(vaapi(), 11, minus),
        "hw device error: av_dict_set(idr_interval=30) returned -22"
    );
    assert_eq!(text(vaapi(), 12, null), "hw device error: av_dict_set produced null dict");
    assert_eq!(text(vaapi(), 13, minus), "avcodec_open2 failed: -22");
    assert_eq!(text(vaapi(), 14, null), "BSF error: -1");
    assert_eq!(text(vaapi(), 15, null), "BSF error: 0");
    assert_eq!(text(vaapi(), 15, minus), "BSF error: -22");
    assert_eq!(text(vaapi(), 16, minus), "BSF error: -22");
    assert_eq!(text(vaapi(), 17, minus), "BSF error: -22");
    assert_eq!(text(vaapi(), 18, null), "avcodec_open2 failed: -1");
    assert_eq!(text(vaapi(), 19, minus), "avcodec_open2 failed: -22");
    assert_eq!(text(vaapi(), 21, minus), "hw frames error: av_hwframe_get_buffer returned -22");
    let main10 = HevcVaapiMain10FfmpegEncoder::new(HevcVaapiMain10FfmpegEncoderConfig::default());
    assert_eq!(text(main10.0, 22, null), "hw device error: sws_getContext returned null");
    let nvenc = HevcNvencFfmpegEncoder::new(HevcNvencFfmpegEncoderConfig::default()).0;
    assert_eq!(
        text(nvenc, 4, Reply { content: PixelFormat::P010le, ..FINE }),
        "hw frames error: driver coerced sw_format away from NV12"
    );
    let nvdec = HevcNvdecFfmpegDecoder::new(HevcNvdecFfmpegDecoderConfig::default()).0;
    assert_eq!(text(nvdec, 4, null), "hw device error: av_buffer_ref returned null");
    let npp = HevcNvencNppFfmpegEncoder::new(HevcNvencNppFfmpegEncoderConfig {
        width: 320,
        height: 240,
        ..HevcNvencNppFfmpegEncoderConfig::default()
    });
    assert_eq!(
        text(npp.0, 19, Reply { code: 2, ..FINE }),
        "hw device error: cudaMalloc(307200) returned 2"
    );
}

#[test]
fn a_failed_setup_releases_in_reverse() {
    let (setup, _) = HevcVaapiFfmpegEncoder::new(vaapi_config());
    let (at, end) = run(setup, Some((21, Reply { code: -12, ..FINE })));
    assert_eq!(at, 21);
    match end {
        SetupStep::Failed { release, .. } => assert_eq!(
            release,
            vec![
                Resource::HwFrame,
                Resource::CpuFrame,
                Resource::Filter,
                Resource::Context,
                Resource::Frames,
                Resource::Device,
            ]
        ),
        other => panic!("expected a failure, got {other:?}"),
    }
}

#[test]
fn a_reference_goes_to_the_context_once_there_is_one() {
    let nvenc = || HevcNvencFfmpegEncoder::new(HevcNvencFfmpegEncoderConfig::default()).0;
    let release = |n, reply| match run(nvenc(), Some((n, reply))).1 {
        SetupStep::Failed { release, .. } => release,
        other => panic!("expected a failure, got {other:?}"),
    };
    assert_eq!(
        release(6, Reply { null: true, ..FINE }),
        vec![Resource::FramesRef, Resource::Frames, Resource::Device]
    );
    assert_eq!(
        release(7, Reply { null: true, ..FINE }),
        vec![Resource::FramesRef, Resource::Frames, Resource::Device]
    );
    assert_eq!(
        release(15, Reply { code: -1, ..FINE }),
        vec![Resource::Context, Resource::Frames, Resource::Device]
    );
}

#[test]
fn whatever_is_held_is_released() {
    let tunables = EncoderTunables {
        bitrate_bps: 1,
        fps: 30,
        width: 64,
        height: 64,
        gop_size: 30,
    };
    for kind in [
        EncoderKind::Vaapi,
        EncoderKind::VaapiMain10,
        EncoderKind::Nvenc,
        EncoderKind::NvencNpp,
    ] {
        let (_, end) = run(Setup::encoder(kind, &tunables, None, true), None);
        let mut held = match end {
            SetupStep::Ready { holds, announce } => {
                assert!(announce);
                holds
            }
            other => panic!("expected a finished set-up, got {other:?}"),
        };
        let mut released = release_encoder(kind);
        assert_eq!(released.last(), Some(&Resource::Device));
        held.sort_by_key(|r| format!("{r:?}"));
        released.sort_by_key(|r| format!("{r:?}"));
        assert_eq!(held, released);
    }
    for kind in [
        DecoderKind::Sw,
        DecoderKind::SwMain10,
        DecoderKind::Nvdec,
        DecoderKind::VaapiMain10,
    ] {
        let (_, end) = run(Setup::decoder(kind, None), None);
        let mut held = match end {
            SetupStep::Ready { holds, .. } => holds,
            other => panic!("expected a finished set-up, got {other:?}"),
        };
        held.reverse();
        assert_eq!(held, release_decoder(kind));
    }
}

#[test]
fn a_trial_is_refused_where_the_real_one_is_and_says_nothing() {
    let real = calls(HevcVaapiFfmpegEncoder::new(vaapi_config()).0).len();
    let node = Some("/dev/dri/renderD129".to_string());
    assert_eq!(probe_hevc_vaapi(node.clone()).node(), &node);
    assert_eq!(calls(probe_hevc_vaapi(None)).len(), real);
    for n in 0..real {
        for reply in [Reply { null: true, ..FINE }, Reply { code: -3, ..FINE }] {
            let (a, x) = run(probe_hevc_vaapi(None), Some((n, reply)));
            let (b, y) = run(HevcVaapiFfmpegEncoder::new(vaapi_config()).0, Some((n, reply)));
            assert_eq!(a, b);
            assert_eq!(
                matches!(x, SetupStep::Ready { .. }),
                matches!(y, SetupStep::Ready { .. })
            );
        }
    }
    assert!(matches!(
        run(probe_hevc_nvenc(), None).1,
        SetupStep::Ready { announce: false, .. }
    ));
    let small = calls(probe_hevc_vaapi(None));
    assert!(small.contains(&Call::InitFrames {
        surface: PixelFormat::Vaapi,
        content: PixelFormat::Nv12,
        width: 320,
        height: 180
    }));
}

// ---- encoding ----

fn answer(code: i32) -> EncodeReply {
    EncodeReply { null: false, code, bytes: vec![], key: false }
}

fn next(e: Encoding, reply: EncodeReply) -> Encoding {
    match e.on_reply(reply) {
        EncodeStep::Next(e) => e,
        other => panic!("expected another call, got {other:?}"),
    }
}

fn failure(e: Encoding, reply: EncodeReply) -> String {
    match e.on_reply(reply) {
        EncodeStep::Failed(EncodeError::Backend(text)) => text,
        other => panic!("expected a failure, got {other:?}"),
    }
}

fn encoding_at(kind: EncoderKind, call: EncodeCall) -> Encoding {
    Encoding { kind, call, bytes: vec![], key: false }
}

#[test]
fn small_frame_reaches_the_caller() {
    let (_, enc) = HevcVaapiFfmpegEncoder::new(vaapi_config());
    let frame = I420Frame::new_packed(320, 240).expect("frame");
    let mut y = vec![1u8; 384 * 240];
    let mut uv = vec![1u8; 384 * 120];
    let (picture, encoding) =
        enc.encode(&frame, &mut y, 384, &mut uv, 384, true, 2_000_000).expect("encoding");
    assert_eq!(
        (picture.pict_type, picture.key_frame, picture.pts),
        (AV_PICTURE_TYPE_I, 1, 60)
    );
    assert_eq!((y[0], y[319], y[320], uv[0], uv[320]), (0, 0, 1, 0, 1));
    let mut e = encoding;
    for (call, code) in [
        (EncodeCall::Upload, 0),
        (EncodeCall::Send, AVERROR_EAGAIN),
        (EncodeCall::AllocDrain, 0),
        (EncodeCall::Drain, AVERROR_EAGAIN),
        (EncodeCall::Resend, 0),
        (EncodeCall::AllocPacket, 0),
        (EncodeCall::Receive, 0),
        (EncodeCall::FilterSend, 0),
        (EncodeCall::AllocFiltered, 0),
    ] {
        assert_eq!(e.call, call);
        e = next(e, answer(code));
    }
    let first = EncodeReply { null: false, code: 0, bytes: vec![0, 0, 0, 1], key: true };
    e = next(next(e, first), answer(0));
    let second = EncodeReply { null: false, code: 0, bytes: vec![38], key: false };
    e = next(next(e, second), answer(0));
    match e.on_reply(answer(AVERROR_EAGAIN)) {
        EncodeStep::Done { nal_bytes, is_keyframe } => {
            assert_eq!((nal_bytes, is_keyframe), (vec![0, 0, 0, 1, 38], true));
        }
        other => panic!("expected the packet, got {other:?}"),
    }
}

#[test]
fn an_encoder_without_a_filter_hands_its_packet_on() {
    let e = encoding_at(EncoderKind::Nvenc, EncodeCall::Receive);
    let reply = EncodeReply { null: false, code: 0, bytes: vec![0, 0, 0, 1], key: true };
    assert!(matches!(
        e.on_reply(reply),
        EncodeStep::Done { nal_bytes, is_keyframe: true } if nal_bytes == vec![0, 0, 0, 1]
    ));
}

#[test]
fn every_step_of_an_encoding_can_fail() {
    let vaapi = |call| encoding_at(EncoderKind::Vaapi, call);
    let npp = |call| encoding_at(EncoderKind::NvencNpp, call);
    let null = || EncodeReply { null: true, code: 0, bytes: vec![], key: false };
    assert_eq!(failure(vaapi(EncodeCall::Upload), answer(-5)), "hw frame transfer failed: -5");
    assert_eq!(failure(vaapi(EncodeCall::Send), answer(-5)), "avcodec_send_frame failed: -5");
    assert_eq!(failure(vaapi(EncodeCall::AllocDrain), null()), "av_packet_alloc failed (drain)");
    assert_eq!(
        failure(vaapi(EncodeCall::Resend), answer(AVERROR_EAGAIN)),
        "avcodec_send_frame failed: -11"
    );
    assert_eq!(failure(vaapi(EncodeCall::AllocPacket), null()), "av_packet_alloc failed");
    assert_eq!(
        failure(vaapi(EncodeCall::Receive), answer(AVERROR_EAGAIN)),
        "avcodec_receive_packet failed: -11"
    );
    assert_eq!(failure(vaapi(EncodeCall::FilterSend), answer(AVERROR_EAGAIN)), "BSF error: -11");
    assert_eq!(
        failure(vaapi(EncodeCall::AllocFiltered), null()),
        "av_packet_alloc failed (bsf output)"
    );
    assert_eq!(failure(vaapi(EncodeCall::FilterReceive), answer(-22)), "BSF error: -22");
    for call in [EncodeCall::CopyIn, EncodeCall::ToPlanar, EncodeCall::Pack, EncodeCall::Synchronize]
    {
        assert_eq!(failure(npp(call), answer(4)), "hw frame transfer failed: 4");
    }
    assert_eq!(
        failure(npp(EncodeCall::Pack), null()),
        "hw frames error: AVFrame CUDA planes are null"
    );
    assert!(matches!(
        vaapi(EncodeCall::Send).on_reply(answer(AVERROR_ENODEV)),
        EncodeStep::Failed(EncodeError::DeviceLost(_))
    ));
}

#[test]
fn small_bgra_frame_enters_the_npp_encoder() {
    let (_, mut enc) = HevcNvencNppFfmpegEncoder::new(HevcNvencNppFfmpegEncoderConfig {
        width: 320,
        height: 240,
        fps: 30,
        initial_bitrate_bps: 4_000_000,
        gop_size: 30,
        cuda_device_index: None,
    });
    let mut frame = BgraFrame::new_zeroed(320, 240);
    let (job, picture, encoding) = enc.encode(&frame, false, 33_333).expect("encoding");
    assert_eq!((job.row_bytes, job.rows, job.luma_step, job.chroma_step), (1280, 240, 320, 160));
    assert_eq!((picture.pict_type, picture.key_frame, picture.pts), (0, 0, 0));
    let mut e = encoding;
    for call in [EncodeCall::CopyIn, EncodeCall::ToPlanar, EncodeCall::Pack, EncodeCall::Synchronize]
    {
        assert_eq!(e.call, call);
        e = next(e, answer(0));
    }
    assert_eq!(e.call, EncodeCall::Send);
    frame.bgra.pop();
    match enc.encode(&frame, false, 0) {
        Err(EncodeError::Backend(text)) => assert_eq!(
            text,
            "hw frames error: bgra slice too small: 307199 < expected 307200"
        ),
        other => panic!("expected Backend, got {other:?}"),
    }
    match enc.encode(&BgraFrame::new_zeroed(64, 48), false, 0) {
        Err(EncodeError::Backend(text)) => {
            assert_eq!(text, "BGRA frame size (64x48) does not match encoder (320x240)")
        }
        other => panic!("expected Backend, got {other:?}"),
    }
    enc.core.closed = true;
    match enc.encode(&BgraFrame::new_zeroed(64, 48), false, u64::MAX) {
        Err(EncodeError::Backend(text)) => assert_eq!(text, "encoder closed"),
        other => panic!("expected Backend, got {other:?}"),
    }
    assert_eq!(enc.backend_name(), "ffmpeg-nvenc-hevc-npp");
}

#[test]
fn the_main10_encoder_scales_what_it_gets() {
    let cfg = HevcVaapiMain10FfmpegEncoderConfig { fps: 30, ..Default::default() };
    let (_, enc) = HevcVaapiMain10FfmpegEncoder::new(cfg);
    let (job, picture, encoding) =
        enc.encode(&[0u8; 320 * 240 * 4], 320, 240, true, 999_999).expect("encoding");
    assert_eq!((job.src_stride, job.rows), (1280, 240));
    assert_eq!((picture.key_frame, picture.pts), (1, 29));
    assert_eq!(encoding.call, EncodeCall::Upload);
    assert_eq!(enc.backend_name(), "ffmpeg-vaapi-hevc-main10");
}

#[test]
fn frames_that_come_out_are_counted_and_the_first_is_logged() {
    let (_, mut enc) = HevcNvencFfmpegEncoder::new(HevcNvencFfmpegEncoderConfig::default());
    let (packet, first) = enc.core.finish(vec![1], true, 5);
    assert!(first);
    assert_eq!((packet.nal_bytes, packet.is_keyframe, packet.timestamp_us), (vec![1], true, 5));
    let (_, again) = enc.core.finish(vec![2], false, 6);
    assert!(!again);
    assert_eq!(enc.core.seq, 2);
    assert_eq!(enc.backend_name(), "ffmpeg-nvenc-hevc");
}

#[test]
fn a_refused_bitrate_leaves_the_old_one() {
    let (_, mut enc) = HevcNvencFfmpegEncoder::new(HevcNvencFfmpegEncoderConfig::default());
    match enc.set_target_bitrate(5, -22) {
        Err(EncodeError::Backend(text)) => {
            assert_eq!(text, "av_opt_set_int(b=5) returned -22")
        }
        other => panic!("expected Backend, got {other:?}"),
    }
    assert_eq!(enc.core.tunables.bitrate_bps, 8_000_000);
    assert!(enc.set_target_bitrate(5, 0).is_ok());
    assert_eq!(enc.core.tunables.bitrate_bps, 5);
}

#[test]
fn warnings_come_a_minute_apart() {
    let (_, enc) = HevcVaapiFfmpegEncoder::new(vaapi_config());
    let mut a = HevcVaapiFfmpegEncoderAdapter(enc);
    let mut warned = Vec::new();
    for now in [59, 60, 61, 119, 120, 121, 500, 400, 559, 560] {
        if a.set_target_bitrate(1, -1, now).is_some() {
            warned.push(now);
        }
    }
    assert_eq!(warned, vec![60, 120, 500, 560]);
    assert!(a.set_target_bitrate(7, 0, 1000).is_none());
    assert_eq!(a.0.core.tunables.bitrate_bps, 7);
    assert_eq!(a.backend_name(), "ffmpeg-vaapi-hevc");
    let (_, enc) = HevcNvencFfmpegEncoder::new(HevcNvencFfmpegEncoderConfig::default());
    let mut b = HevcNvencFfmpegEncoderAdapter(enc);
    assert!(b.set_target_bitrate(1, -1, 1_000).is_some());
    assert_eq!(b.backend_name(), "ffmpeg-nvenc-hevc");
}

#[test]
fn pending_packets_are_drained_until_there_are_none() {
    let packet = |b: u8| EncodeReply { null: false, code: 0, bytes: vec![b], key: b == 1 };
    let mut drain = PacketDrain::new(9);
    for b in [1u8, 2] {
        drain = match drain.drain_packets_on_eagain(packet(b)) {
            DrainStep::More(d) => d,
            other => panic!("expected more, got {other:?}"),
        };
    }
    match drain.drain_packets_on_eagain(answer(AVERROR_EOF)) {
        DrainStep::Drained(packets) => {
            assert_eq!(packets.len(), 2);
            assert_eq!(packets[0].nal_bytes, vec![1]);
            assert!(packets[0].is_keyframe && !packets[1].is_keyframe);
            assert!(packets.iter().all(|p| p.timestamp_us == 9));
        }
        other => panic!("expected the packets, got {other:?}"),
    }
    assert!(matches!(
        PacketDrain::new(0).drain_packets_on_eagain(answer(AVERROR_EAGAIN)),
        DrainStep::Drained(p) if p.is_empty()
    ));
    assert!(matches!(
        PacketDrain::new(0).drain_packets_on_eagain(answer(-5)),
        DrainStep::Failed(FfmpegError::Receive(-5))
    ));
    let null = EncodeReply { null: true, code: 0, bytes: vec![], key: false };
    assert!(matches!(
        PacketDrain::new(0).drain_packets_on_eagain(null),
        DrainStep::Failed(FfmpegError::HwFrames(_))
    ));
}

// ---- decoding ----

#[test]
fn hevc_sw_decoder_empty_packet_is_a_noop() {
    let (_, dec) = HevcSwFfmpegDecoder::new(HevcSwFfmpegDecoderConfig::default());
    assert!(dec.feed_packet(&[], 0).is_none());
    let got = dec.drain_frame().on_code(AVERROR_EAGAIN);
    assert!(matches!(got, DrainingStep::Empty));
}

#[test]
fn hevc_sw_main10_decoder_empty_packet_is_a_noop() {
    let (_, dec) = HevcSwMain10FfmpegDecoder::new(HevcSwMain10FfmpegDecoderConfig::default());
    assert!(dec.feed_packet(&[], 0).is_none());
    let got = dec.drain_frame().on_code(AVERROR_EOF);
    assert!(matches!(got, DrainingStep::Empty));
}

#[test]
fn packets_are_sent_with_their_time() {
    let (_, dec) = HevcNvdecFfmpegDecoder::new(HevcNvdecFfmpegDecoderConfig::default());
    let shell = dec.feed_packet(&[1, 2, 3], 77).expect("a packet");
    assert_eq!((shell.size, shell.pts, shell.dts), (3, 77, 77));
    assert!(on_packet_sent(0).is_ok());
    assert!(on_packet_sent(AVERROR_EAGAIN).is_ok());
    match on_packet_sent(-22) {
        Err(DecodeError::Bitstream(text)) => {
            assert_eq!(text, "avcodec_send_frame failed: -22")
        }
        other => panic!("expected Bitstream, got {other:?}"),
    }
}

#[test]
fn pictures_of_a_device_are_brought_to_memory() {
    let (_, sw) = HevcSwFfmpegDecoder::new(HevcSwFfmpegDecoderConfig::default());
    assert!(matches!(sw.drain_frame().on_code(0), DrainingStep::Picture));
    assert!(matches!(on_frame_received(0), Ok(true)));
    let (_, hw) = HevcVaapiMain10FfmpegDecoder::new(HevcVaapiMain10FfmpegDecoderConfig::default());
    let next = match hw.drain_frame().on_code(0) {
        DrainingStep::Next(next) => next,
        other => panic!("expected a download, got {other:?}"),
    };
    assert_eq!(next, Draining { kind: DecoderKind::VaapiMain10, call: DrainCall::Download });
    assert!(matches!(next.on_code(0), DrainingStep::Picture));
    match next.on_code(-5) {
        DrainingStep::Failed { error: DecodeError::Backend(text), unref } => {
            assert_eq!((text.as_str(), unref), ("hw frame transfer failed: -5", true))
        }
        other => panic!("expected Backend, got {other:?}"),
    }
    match hw.drain_frame().on_code(-22) {
        DrainingStep::Failed { error: DecodeError::Bitstream(text), unref } => {
            assert_eq!((text.as_str(), unref), ("avcodec_receive_packet failed: -22", false))
        }
        other => panic!("expected Bitstream, got {other:?}"),
    }
}

#[test]
fn yuv420p_to_nv12_interleaves_and_drops_padding() {
    let (w, h) = (4usize, 4usize);
    let y_stride = 8usize;
    let c_stride = 6usize;
    let (cw, ch) = (w / 2, h / 2);

    let mut y = vec![0u8; y_stride * h];
    for row in 0..h {
        for col in 0..w {
            y[row * y_stride + col] = (row * 10 + col) as u8;
        }
    }
    let mut u = vec![0u8; c_stride * ch];
    let mut v = vec![0u8; c_stride * ch];
    for row in 0..ch {
        for col in 0..cw {
            u[row * c_stride + col] = (100 + row * 10 + col) as u8;
            v[row * c_stride + col] = (200 + row * 10 + col) as u8;
        }
    }

    let f = copy_yuv420p_as_nv12_planes(&y, &u, &v, y_stride, c_stride, w as u32, h as u32, 42);

    assert_eq!((f.width, f.height), (4, 4));
    assert_eq!(f.stride_y, 4);
    assert_eq!(f.stride_uv, 4);
    assert_eq!(f.y.len(), 16);
    assert_eq!(f.uv.len(), 8);
    assert_eq!(f.pts_us, 42);

    for row in 0..h {
        for col in 0..w {
            assert_eq!(f.y[row * w + col], (row * 10 + col) as u8);
        }
    }
    for row in 0..ch {
        for col in 0..cw {
            let off = row * (cw * 2) + col * 2;
            assert_eq!(f.uv[off], (100 + row * 10 + col) as u8, "U at {row},{col}");
            assert_eq!(f.uv[off + 1], (200 + row * 10 + col) as u8, "V at {row},{col}");
        }
    }
}

#[test]
fn yuv420p_to_nv12_odd_height_has_ceil_chroma_rows() {
    let (w, h) = (4usize, 3usize);
    let y = vec![16u8; w * h];
    let ch = h.div_ceil(2);
    let u = vec![110u8; (w / 2) * ch];
    let v = vec![200u8; (w / 2) * ch];
    let f = copy_yuv420p_as_nv12_planes(&y, &u, &v, w, w / 2, w as u32, h as u32, 0);
    assert_eq!(f.stride_uv as usize, w);
    assert_eq!(f.uv.len(), w * ch, "UV must have ceil(h/2) rows");
}

#[test]
fn semi_planar_pictures_keep_their_padding() {
    let y: Vec<u8> = (0..24).collect();
    let uv: Vec<u8> = (100..116).collect();
    let f = copy_nv12_planes(&y, &uv, 6, 6, 4, 3, 9);
    assert_eq!((f.stride_y, f.stride_uv, f.pts_us), (6, 6, 9));
    assert_eq!(f.y, y[..18].to_vec());
    assert_eq!(f.uv, uv[..12].to_vec());
}

#[test]
fn ten_bit_pictures_are_read_as_words() {
    let y = [0x40u8, 0x01, 0x80, 0x02, 0xC0, 0x03, 0x00, 0x04];
    let uv = [0x01u8, 0x80, 0x02, 0x80];
    let f = copy_p010_planes(&y, &uv, 4, 4, 2, 2, 3, None);
    assert_eq!((f.stride_y, f.stride_uv, f.pts_us), (2, 2, 3));
    assert_eq!(f.y, vec![0x0140, 0x0280, 0x03C0, 0x0400]);
    assert_eq!(f.uv, vec![0x8001, 0x8002]);
    assert!(f.hdr10.is_none());
}

#[test]
fn planar_pictures_are_recognised() {
    let y = vec![5u8; 4];
    let u = vec![6u8; 2];
    let v = vec![7u8; 2];
    let mut planes = DecodedPlanes {
        format: PixelFormat::Yuv420p,
        y: &y,
        u: &u,
        v: &v,
        y_stride: 2,
        c_stride: 2,
        width: 2,
        height: 2,
        pts_us: 1,
    };
    assert_eq!(take_picture(&planes).uv, vec![6, 7]);
    planes.format = PixelFormat::Nv12;
    assert_eq!(take_picture(&planes).uv, vec![6, 6]);
}

#[test]
fn ten_bit_pictures_carry_their_metadata() {
    let y = vec![0u8; 8];
    let uv = vec![0u8; 4];
    let planes = DecodedPlanes {
        format: PixelFormat::P010le,
        y: &y,
        u: &uv,
        v: &[],
        y_stride: 4,
        c_stride: 4,
        width: 2,
        height: 2,
        pts_us: 1,
    };
    let light = Some(ContentLight { max_cll: 1000, max_fall: 400 });
    let hdr10 = take_picture_10(&planes, None, light).hdr10.expect("metadata");
    assert_eq!((hdr10.max_content_light_level, hdr10.max_frame_average_light_level), (1000, 400));
    assert!(take_picture_10(&planes, None, None).hdr10.is_none());
}

#[test]
fn decoders_ask_for_their_size_and_formats() {
    assert_eq!(
        decoder_settings(DecoderKind::Sw, 640, 360),
        DecoderSettings {
            size: None,
            formats: Some((PixelFormat::Nv12, PixelFormat::Yuv420p)),
            chooses_format: false,
        }
    );
    assert_eq!(
        decoder_settings(DecoderKind::SwMain10, 640, 360),
        DecoderSettings {
            size: None,
            formats: Some((PixelFormat::P010le, PixelFormat::Yuv420p10le)),
            chooses_format: false,
        }
    );
    assert_eq!(
        decoder_settings(DecoderKind::Nvdec, 640, 360),
        DecoderSettings { size: Some((640, 360)), formats: None, chooses_format: false }
    );
    assert_eq!(
        decoder_settings(DecoderKind::VaapiMain10, 1920, u32::MAX),
        DecoderSettings { size: Some((1920, -1)), formats: None, chooses_format: true }
    );
    assert_eq!(
        get_vaapi_format_main10(&[PixelFormat::Yuv420p, PixelFormat::Vaapi]),
        Some(PixelFormat::Vaapi)
    );
    assert_eq!(get_vaapi_format_main10(&[PixelFormat::Cuda]), None);
}

#[test]
fn metadata_is_scaled_to_its_units() {
    let r = |num, den| Rational { num, den };
    let display = MasteringDisplay {
        display_primaries: [
            (r(34000, 50000), r(16000, 50000)),
            (r(1, 3), r(2, 3)),
            (r(-1, 2), r(1, 0)),
        ],
        white_point: (r(15635, 50000), r(2, 1)),
        min_luminance: r(50, 10000),
        max_luminance: r(1000, 1),
    };
    let m = extract_hdr10_sidecar(Some(display), None).expect("metadata");
    assert_eq!(m.display_primaries[0], (34000, 16000));
    assert_eq!(m.display_primaries[1], (16667, 33333));
    assert_eq!(m.display_primaries[2], (0, 0));
    assert_eq!(m.white_point, (15635, 65535));
    assert_eq!((m.min_mastering_luminance, m.max_mastering_luminance), (50, 10_000_000));
    assert_eq!((m.max_content_light_level, m.max_frame_average_light_level), (0, 0));
    let light = ContentLight { max_cll: 70_000, max_fall: 400 };
    let m = extract_hdr10_sidecar(None, Some(light)).expect("metadata");
    assert_eq!((m.max_content_light_level, m.max_frame_average_light_level), (65_535, 400));
    assert_eq!(m.white_point, (0, 0));
    assert!(extract_hdr10_sidecar(None, None).is_none());
}

#[test]
fn frames_are_written_into_padded_planes() {
    let mut frame = I420Frame::new_packed(2, 2).expect("frame");
    frame.y.copy_from_slice(&[1, 2, 3, 4]);
    frame.u[0] = 5;
    frame.v[0] = 6;
    let mut y = vec![9u8; 6];
    let mut uv = vec![9u8; 3];
    i420_to_nv12_into(&frame, &mut y, 3, &mut uv, 3);
    assert_eq!(y, vec![1, 2, 9, 3, 4, 9]);
    assert_eq!(uv, vec![5, 6, 9]);
}
