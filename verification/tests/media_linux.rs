use prdt_media::media_core::{CaptureError, DecodeError, EncodeError, EncodedPacket};
use prdt_media::media_linux::capture_source::{CaptureSource, CaptureSourceError};
use prdt_media::media_linux::core_adapter::{LinuxOpenh264Decoder, LinuxOpenh264Encoder};
use prdt_media::media_linux::error::{LinuxMediaError, VaapiError};
use prdt_media::media_linux::frame::BgraFrame;
use prdt_media::media_linux::i420_to_bgra::i420_to_bgra;
use prdt_media::media_linux::linux_sw_producer::{
    pacer_micros, EncodeJob, LinuxSwProducer, ProducerState, SwAction, SwEvent,
};
use prdt_media::media_linux::policy::{
    cursor_to_control, detect_capture_backend, needs_portal_probe, portal_available,
    CaptureBackend, CaptureBackendChoice, LinuxSwFactory, LinuxSwProbe, PortalProbe, ProbeReply,
    ProducerPlan, SetupFailure,
};
use prdt_media::media_linux::sw_pipeline::{LinuxSwDecoder, LinuxSwEncoder};
use prdt_media::media_linux::vaapi_pipeline::{
    classify_encode_error, on_reply, prepare_picture, InitReport, LinuxVaapiEncoder, VaapiAction,
    VaapiEvent, VaapiVideoProducer,
};
use prdt_media::media_linux::wayland_portal::capturer::WaylandPortalCapturer;
use prdt_media::media_linux::wayland_portal::cursor::{CursorBitmap, CursorUpdate};
use prdt_media::media_linux::x11_capture::{grab_failure, GrabPath, X11Call, X11ShmCapturer};
use prdt_media::media_linux::{
    build_ffmpeg_nvdec_hevc_decoder, build_ffmpeg_sw_hevc_decoder,
    build_vaapi_video_producer_with, build_video_decoder, build_video_producer,
    build_video_producer_with,
};
use prdt_media::media_policy::capability::{BackendKind, CapabilityProbe, Codec};
use prdt_media::media_policy::factory::{FactoryError, ProducerConfig, VideoProducer};
use prdt_media::media_sw::error::MediaSwError;
use prdt_media::media_sw::nv12::{make_counter_i420, I420Frame};
use prdt_media::protocol::{Codec as WireCodec, ControlMessage, EncodedFrame, ProducerError};

fn grey_frame(w: u32, h: u32, ts: u64) -> BgraFrame {
    BgraFrame {
        width: w,
        height: h,
        stride: w * 4,
        bgra: vec![0x80u8; (w * h * 4) as usize],
        capture_ts_us: ts,
    }
}

#[test]
fn encoder_backend_name_is_static() {
    let enc = LinuxOpenh264Encoder::new(320, 240, 1_000_000, 30).expect("encoder");
    let name: &'static str = enc.backend_name();
    assert_eq!(name, "linux-x11shm-openh264");
}

#[test]
fn decoder_round_trip_via_l0_traits() {
    const W: u32 = 320;
    const H: u32 = 240;
    let mut enc = LinuxOpenh264Encoder::new(W, H, 1_000_000, 30).expect("encoder");
    let mut dec = LinuxOpenh264Decoder::new().expect("decoder");
    let f = grey_frame(W, H, 0);
    let pkt = enc.encode(&f, true, 0).expect("encode");
    assert!(pkt.is_keyframe);
    let mut decoded = dec.decode(&pkt).expect("dec");
    if decoded.is_none() {
        let p2 = enc.encode(&f, false, 1).expect("enc 2");
        decoded = dec.decode(&p2).expect("dec 2");
    }
    assert!(decoded.is_some());
}

#[test]
fn packets_carry_the_encoded_bytes_and_the_time() {
    let mut enc = LinuxOpenh264Encoder::new(320, 240, 1_000_000, 30).expect("encoder");
    let pkt = enc.encode(&grey_frame(320, 240, 0), true, 777).expect("encode");
    assert_eq!(pkt.timestamp_us, 777);
    assert_eq!(&pkt.nal_bytes[..3], &[0, 0, 0]);
    match enc.encode(&grey_frame(64, 48, 0), true, 778) {
        Err(EncodeError::FormatMismatch(text)) => {
            assert_eq!(text, "invalid frame dimensions: 64x48");
        }
        other => panic!("expected FormatMismatch, got {other:?}"),
    }
    let mut short = grey_frame(320, 240, 0);
    short.bgra.pop();
    match enc.encode(&short, true, 779) {
        Err(EncodeError::Backend(text)) => {
            assert!(text.starts_with("openh264 backend error: invalid I420 frame: "), "{text}");
        }
        other => panic!("expected Backend, got {other:?}"),
    }
}

#[test]
fn invalid_dims_routes_to_format_mismatch_in_encode_error() {
    let e = LinuxMediaError::InvalidDimensions(0, 1080);
    let enc: EncodeError = e.to_encode_error();
    assert!(matches!(enc, EncodeError::FormatMismatch(_)));
}

#[test]
fn shm_unavailable_routes_to_capture_backend() {
    let e = LinuxMediaError::ShmUnavailable;
    let cap: CaptureError = e.to_capture_error();
    assert!(matches!(cap, CaptureError::Backend(_)));
}

#[test]
fn linux_errors_show_what_they_hold() {
    assert_eq!(
        LinuxMediaError::X11Connect("no display".into()).to_string(),
        "X11 connection failed: no display"
    );
    assert_eq!(LinuxMediaError::ShmUnavailable.to_string(), "MIT-SHM extension unavailable");
    assert_eq!(
        LinuxMediaError::XGetImageFailed.to_string(),
        "XGetImage failed for root window"
    );
    assert_eq!(
        LinuxMediaError::Openh264(MediaSwError::Other("x".into())).to_string(),
        "openh264 backend error: other: x"
    );
    assert_eq!(
        LinuxMediaError::InvalidDimensions(3, 5).to_string(),
        "invalid frame dimensions: 3x5"
    );
    match LinuxMediaError::XGetImageFailed.to_decode_error() {
        DecodeError::Backend(text) => assert_eq!(text, "XGetImage failed for root window"),
        other => panic!("expected Backend, got {other:?}"),
    }
}

#[test]
fn new_zeroed_has_expected_buffer_size() {
    let f = BgraFrame::new_zeroed(1920, 1080);
    assert_eq!(f.stride, 1920 * 4);
    assert_eq!(f.bgra.len(), f.expected_len());
    assert_eq!(f.bgra.len(), 1920 * 1080 * 4);
}

#[test]
fn new_zeroed_buffer_is_all_zero() {
    let f = BgraFrame::new_zeroed(64, 64);
    assert!(f.bgra.iter().all(|b| *b == 0));
}

fn gray_i420(w: u32, h: u32, y_val: u8) -> I420Frame {
    let yp = vec![y_val; (w * h) as usize];
    let up = vec![128u8; (w * h / 4) as usize];
    let vp = vec![128u8; (w * h / 4) as usize];
    I420Frame {
        width: w,
        height: h,
        y: yp,
        u: up,
        v: vp,
        stride_y: w,
        stride_uv: w / 2,
    }
}

#[test]
fn gray_yuv_yields_gray_bgra() {
    let i = gray_i420(8, 8, 128);
    let mut out = vec![0u8; 8 * 8 * 4];
    i420_to_bgra(&i, &mut out).expect("consistent frame converts");
    for px in out.chunks_exact(4) {
        assert_eq!(px[0], 128);
        assert_eq!(px[1], 128);
        assert_eq!(px[2], 128);
        assert_eq!(px[3], 0xFF);
    }
}

#[test]
fn black_yuv_yields_black_bgra() {
    let i = gray_i420(4, 4, 0);
    let mut out = vec![0u8; 4 * 4 * 4];
    i420_to_bgra(&i, &mut out).expect("consistent frame converts");
    for px in out.chunks_exact(4) {
        assert_eq!(px[0], 0);
        assert_eq!(px[1], 0);
        assert_eq!(px[2], 0);
        assert_eq!(px[3], 0xFF);
    }
}

#[test]
fn white_yuv_yields_near_white_bgra() {
    let i = gray_i420(4, 4, 255);
    let mut out = vec![0u8; 4 * 4 * 4];
    i420_to_bgra(&i, &mut out).expect("consistent frame converts");
    for px in out.chunks_exact(4) {
        assert!(px[0] >= 250);
        assert!(px[1] >= 250);
        assert!(px[2] >= 250);
    }
}

/// 64-bit FNV-1a.
fn fnv1a64(bytes: &[u8]) -> u64 {
    let mut h: u64 = 0xcbf2_9ce4_8422_2325;
    for &b in bytes {
        h ^= b as u64;
        h = h.wrapping_mul(0x0000_0100_0000_01b3);
    }
    h
}

fn gradient_i420(w: u32, h: u32) -> I420Frame {
    let (wu, hu) = (w as usize, h as usize);
    let mut y = vec![0u8; wu * hu];
    for j in 0..hu {
        for i in 0..wu {
            y[j * wu + i] = ((i.wrapping_mul(5)).wrapping_add(j.wrapping_mul(3))) as u8;
        }
    }
    let cw = wu / 2;
    let ch = hu / 2;
    let mut u = vec![0u8; cw * ch];
    let mut v = vec![0u8; cw * ch];
    for j in 0..ch {
        for i in 0..cw {
            u[j * cw + i] = (i.wrapping_mul(7)) as u8;
            v[j * cw + i] = (j.wrapping_mul(11)) as u8;
        }
    }
    I420Frame {
        width: w,
        height: h,
        y,
        u,
        v,
        stride_y: w,
        stride_uv: w / 2,
    }
}

#[test]
fn i420_to_bgra_gradient_golden_digest() {
    let frame = gradient_i420(64, 64);
    let mut out = vec![0u8; 64 * 64 * 4];
    i420_to_bgra(&frame, &mut out).expect("consistent frame converts");
    let digest = fnv1a64(&out);
    const GOLDEN: u64 = 0xe113_1b22_fd54_6e98;
    assert_eq!(digest, GOLDEN, "gradient digest changed: got {digest:#018x}");
}

#[test]
fn i420_to_bgra_rejects_short_planes() {
    let (w, h) = (3840u32, 2160u32);
    let y = vec![16u8; (w * h) as usize];
    let u = vec![128u8; (1920 * 1080 / 4) as usize];
    let v = vec![128u8; (1920 * 1080 / 4) as usize];
    let frame = I420Frame {
        width: w,
        height: h,
        y,
        u,
        v,
        stride_y: w,
        stride_uv: w / 2,
    };
    let mut out = vec![0u8; (w * h * 4) as usize];
    let err = i420_to_bgra(&frame, &mut out).expect_err("short U/V plane must be rejected");
    assert!(
        err.contains("U/V plane"),
        "error should name the short chroma plane, got: {err}"
    );
}

#[test]
fn i420_to_bgra_ok_with_padded_stride() {
    let (w, h) = (64u32, 36u32);
    let (stride_y, stride_uv) = (80u32, 40u32);
    let y = vec![120u8; (stride_y * h) as usize];
    let u = vec![128u8; (stride_uv * (h / 2)) as usize];
    let v = vec![128u8; (stride_uv * (h / 2)) as usize];
    let frame = I420Frame {
        width: w,
        height: h,
        y,
        u,
        v,
        stride_y,
        stride_uv,
    };
    let mut out = vec![7u8; (w * h * 4) as usize];
    i420_to_bgra(&frame, &mut out).expect("consistent padded frame converts");
    assert!(
        out.chunks_exact(4).all(|px| px[3] == 0xFF),
        "converter must write every output pixel"
    );
}

#[test]
fn a_refused_conversion_leaves_the_output_alone() {
    let mut frame = gray_i420(4, 4, 50);
    let mut out = vec![7u8; 4 * 4 * 4];
    assert_eq!(
        i420_to_bgra(&frame, &mut out[..60]).unwrap_err(),
        "i420_to_bgra: out buffer 60 bytes but geometry 4x4 needs 64"
    );
    frame.y.truncate(15);
    assert_eq!(
        i420_to_bgra(&frame, &mut out).unwrap_err(),
        "i420_to_bgra: Y plane 15 < 16 needed for 4x4 stride_y=4"
    );
    assert!(out.iter().all(|b| *b == 7));
}

#[test]
fn encode_decode_round_trip_via_media_sw() {
    const W: u32 = 320;
    const H: u32 = 240;
    let mut enc = LinuxSwEncoder::new(W, H, 1_000_000, 30).expect("encoder");
    let mut dec = LinuxSwDecoder::new().expect("decoder");
    let i420_in = make_counter_i420(W, H, 42).expect("counter i420");
    let frame = grey_frame(W, H, 1234);
    let frame_out = enc.encode(&frame, true, 1234).expect("encode");
    assert!(frame_out.is_keyframe);
    assert!(!frame_out.nal_units.is_empty());
    let pkt = EncodedPacket {
        nal_bytes: frame_out.nal_units.to_vec(),
        is_keyframe: frame_out.is_keyframe,
        timestamp_us: frame_out.timestamp_host_us,
    };
    let mut decoded = dec.decode(&pkt).expect("decode 1");
    for i in 2u64..=5 {
        if decoded.is_some() {
            break;
        }
        let frame_n = enc.encode(&frame, false, 1234 + i).expect("encode N");
        let pkt_n = EncodedPacket {
            nal_bytes: frame_n.nal_units.to_vec(),
            is_keyframe: frame_n.is_keyframe,
            timestamp_us: frame_n.timestamp_host_us,
        };
        decoded = dec.decode(&pkt_n).expect("decode N");
    }
    assert!(
        decoded.is_some(),
        "decoder should yield a frame after IDR + follow-ups"
    );
    let _ = i420_in;
}

#[test]
fn dimension_mismatch_returns_format_error() {
    let mut enc = LinuxSwEncoder::new(320, 240, 500_000, 30).expect("encoder");
    let f = BgraFrame::new_zeroed(640, 480);
    let r = enc.encode(&f, false, 0);
    assert!(matches!(r, Err(LinuxMediaError::InvalidDimensions(640, 480))));
}

#[test]
fn set_target_bitrate_is_idempotent_and_safe() {
    let mut enc = LinuxSwEncoder::new(320, 240, 500_000, 30).expect("encoder");
    enc.set_target_bitrate(2_000_000);
    enc.set_target_bitrate(0);
}

#[test]
fn classify_hw_busy_maps_to_device_lost() {
    let e = LinuxMediaError::Vaapi(VaapiError::HardwareBusy { attempts: 5 });
    match classify_encode_error(e) {
        ProducerError::DeviceLost { backend, reason } => {
            assert_eq!(backend, "linux-vaapi-h264");
            assert!(reason.contains("hardware busy"), "got: {reason}");
        }
        other => panic!("expected DeviceLost, got {other:?}"),
    }
}

#[test]
fn classify_other_vaapi_error_maps_to_encode() {
    let e = LinuxMediaError::Vaapi(VaapiError::Bitstream("bad NAL".into()));
    match classify_encode_error(e) {
        ProducerError::Encode(msg) => assert!(msg.contains("bad NAL")),
        other => panic!("expected Encode, got {other:?}"),
    }
}

#[test]
fn classify_non_vaapi_error_maps_to_encode() {
    let e = LinuxMediaError::InvalidDimensions(640, 480);
    assert!(matches!(classify_encode_error(e), ProducerError::Encode(_)));
}

fn vaapi_captured(ts: u64) -> VaapiEvent {
    VaapiEvent::Captured {
        buffer: vec![1; 64 * 64 * 4],
        width: 64,
        height: 64,
        outcome: Ok(()),
        now_us: ts,
    }
}

#[test]
fn request_idr_re_arms_idr_pending() {
    let mut s = ProducerState::new(64, 64);
    assert!(s.idr_pending);
    s.idr_pending = false;
    s.request_idr();
    assert!(s.idr_pending);

    let mut p = VaapiVideoProducer::new((64, 64));
    let mut forced = |ask: bool| {
        if ask {
            p.request_idr();
        }
        match p.next_frame(vaapi_captured(5)) {
            VaapiAction::Encode { frame, force_idr, timestamp_us } => {
                assert_eq!((frame.width, frame.height, frame.stride), (64, 64, 256));
                assert_eq!((frame.bgra.len(), frame.capture_ts_us, timestamp_us), (16_384, 5, 5));
                force_idr
            }
            _ => panic!("expected Encode"),
        }
    };
    assert!(forced(false));
    assert!(!forced(false));
    assert!(forced(true));
    assert!(!forced(false));
}

#[test]
fn a_hardware_producer_numbers_and_classifies() {
    let mut p = VaapiVideoProducer::new((64, 64));
    assert_eq!(p.backend_name(), "linux-vaapi-h264");
    match p.next_frame(VaapiEvent::FrameWanted) {
        VaapiAction::Capture { buffer } => assert_eq!(buffer, vec![0; 64 * 64 * 4]),
        _ => panic!("expected Capture"),
    }
    for want in 0..2u64 {
        let done = VaapiEvent::Encoded { buffer: vec![2], result: Ok(coded_frame()) };
        match p.next_frame(done) {
            VaapiAction::Return(Ok(f)) => assert_eq!(f.seq, want),
            _ => panic!("expected a frame"),
        }
    }
    let busy = LinuxMediaError::Vaapi(VaapiError::HardwareBusy { attempts: 3 });
    match p.next_frame(VaapiEvent::Encoded { buffer: vec![3], result: Err(busy) }) {
        VaapiAction::Return(Err(ProducerError::DeviceLost { backend, .. })) => {
            assert_eq!(backend, "linux-vaapi-h264")
        }
        _ => panic!("expected DeviceLost"),
    }
    assert!(p.warns_of_resize(32, 64));
    let late = VaapiEvent::Captured {
        buffer: vec![4],
        width: 32,
        height: 64,
        outcome: Err(CaptureSourceError::WouldBlock("later".into())),
        now_us: 6,
    };
    match p.next_frame(late) {
        VaapiAction::Return(Err(ProducerError::Capture(text))) => {
            assert_eq!(text, "would_block: later")
        }
        _ => panic!("expected a capture error"),
    }
    assert!(!p.warns_of_resize(64, 64));
    match p.next_frame(VaapiEvent::FrameWanted) {
        VaapiAction::Capture { buffer } => assert_eq!(buffer, vec![4]),
        _ => panic!("expected Capture"),
    }
    let _ = p.next_frame(VaapiEvent::BrokenOff { why: "panicked".into() });
    assert!(matches!(
        p.next_frame(VaapiEvent::FrameWanted),
        VaapiAction::Return(Err(ProducerError::Capture(_)))
    ));
}

#[test]
fn the_hardware_encoders_thread_reports_how_it_began() {
    let begun = |report| LinuxVaapiEncoder::new(64, 48, report);
    assert_eq!(
        begun(InitReport::Ready).expect("handle"),
        LinuxVaapiEncoder { width: 64, height: 48 }
    );
    let text = |report| begun(report).unwrap_err().to_string();
    assert_eq!(
        text(InitReport::NotSpawned { why: "no memory".into() }),
        "vaapi backend error: display open: spawn thread: no memory"
    );
    assert_eq!(
        text(InitReport::Gone),
        "vaapi backend error: display open: encoder thread exited before init"
    );
    assert_eq!(
        text(InitReport::Failed(VaapiError::Closed)),
        "vaapi backend error: encoder closed"
    );
}

#[test]
fn the_hardware_encoder_takes_pictures_of_its_size() {
    let frame = grey_frame(64, 48, 0);
    assert!(LinuxVaapiEncoder { width: 64, height: 48 }.check_size(&frame).is_ok());
    assert!(matches!(
        LinuxVaapiEncoder { width: 64, height: 64 }.check_size(&frame),
        Err(LinuxMediaError::InvalidDimensions(64, 48))
    ));
    let picture = prepare_picture(&frame).expect("even picture");
    assert_eq!((picture.width, picture.height, picture.y[0]), (64, 48, 126));
    assert!(prepare_picture(&grey_frame(3, 2, 0)).is_err());
    assert!(matches!(
        on_reply(None),
        Err(LinuxMediaError::Vaapi(VaapiError::Closed))
    ));
}

#[test]
fn buffer_size_constant() {
    assert_eq!(1920u32 * 1080 * 4, 8_294_400);
}

#[test]
fn a_screen_is_clipped_to_what_the_encoder_takes() {
    let size = |w, h| {
        let c = X11ShmCapturer::new(w, h, false);
        (c.width(), c.height())
    };
    assert_eq!(size(1920, 1080), (1920, 1080));
    assert_eq!(size(7680, 1440), (3840, 1440));
    assert_eq!(size(2560, 4320), (2560, 2160));
}

#[test]
fn a_picture_fills_its_buffer_exactly() {
    let c = X11ShmCapturer::new(1920, 1080, false);
    assert_eq!(c.picture_len(), 8_294_400);
    let shared = X11ShmCapturer::new(2, 2, true);
    let plain = X11ShmCapturer::new(2, 2, false);
    let mut out = vec![0u8; 16];
    assert!(matches!(shared.grab_into(&out), Ok(GrabPath::SharedMemory)));
    assert!(matches!(plain.grab_into(&out), Ok(GrabPath::GetImage)));
    assert!(matches!(
        plain.grab_into(&out[..15]),
        Err(LinuxMediaError::InvalidDimensions(2, 2))
    ));
    let image: Vec<u8> = (0..16).collect();
    assert!(plain.take_image(&image, &mut out).is_ok());
    assert_eq!(out, image);
    assert!(matches!(
        plain.take_image(&image[..15], &mut out),
        Err(LinuxMediaError::InvalidDimensions(2, 2))
    ));
}

#[test]
fn every_failed_call_of_the_x_server_has_its_error() {
    let text = |call: X11Call| call.failure("no".into()).to_string();
    let connect = |s: &str| LinuxMediaError::X11Connect(s.into()).to_string();
    assert_eq!(text(X11Call::Connect), connect("no"));
    assert_eq!(text(X11Call::GeometryRequest), connect("get_geometry req: no"));
    assert_eq!(text(X11Call::GeometryReply), connect("get_geometry reply: no"));
    assert_eq!(text(X11Call::SegmentId), connect("shm generate_id: no"));
    assert_eq!(text(X11Call::AttachRequest), connect("shm_attach req: no"));
    assert_eq!(text(X11Call::AttachCheck), connect("shm_attach check: no"));
    assert_eq!(text(X11Call::SharedImageRequest), connect("shm_get_image req: no"));
    assert_eq!(text(X11Call::SharedImageReply), connect("shm_get_image reply: no"));
    assert_eq!(text(X11Call::ImageRequest), connect("get_image req: no"));
    assert!(matches!(
        X11Call::SharedMemory.failure("no".into()),
        LinuxMediaError::ShmUnavailable
    ));
    assert!(matches!(
        X11Call::ImageReply.failure("no".into()),
        LinuxMediaError::XGetImageFailed
    ));
    match grab_failure(&LinuxMediaError::XGetImageFailed) {
        CaptureSourceError::Terminal { backend, reason } => {
            assert_eq!(backend, "linux-x11shm");
            assert_eq!(reason, "XGetImage failed for root window");
        }
        other => panic!("expected Terminal, got {other:?}"),
    }
}

#[test]
fn make_pacer_returns_60fps_interval_for_fps_60() {
    assert_eq!(pacer_micros(60), 16_666);
    assert_eq!(pacer_micros(0), 16_667);
    assert_eq!(pacer_micros(1), 1_000_000);
}

fn coded_frame() -> EncodedFrame {
    EncodedFrame {
        seq: 99,
        timestamp_host_us: 5,
        is_keyframe: false,
        nal_units: bytes::Bytes::from(vec![1]),
        width: 64,
        height: 48,
        codec: WireCodec::H264,
    }
}

fn software_producer() -> LinuxSwProducer {
    build_video_producer_with((64, 48), 500_000, 30).expect("producer")
}

/// Takes one captured frame to the encoder.
fn encode_job(p: &mut LinuxSwProducer, fill: u8, ts: u64) -> EncodeJob {
    let captured = SwEvent::Captured {
        buffer: vec![fill; 64 * 48 * 4],
        width: 64,
        height: 48,
        outcome: Ok(()),
        now_us: ts,
    };
    match p.next_frame(captured) {
        SwAction::Encode(job) => job,
        _ => panic!("expected Encode"),
    }
}

fn capture_error(action: SwAction) -> String {
    match action {
        SwAction::Return(Err(ProducerError::Capture(text))) => text,
        _ => panic!("expected a capture error"),
    }
}

#[test]
fn a_producer_captures_encodes_and_numbers() {
    let mut p = software_producer();
    assert_eq!(p.backend_name(), "linux-openh264");
    match p.next_frame(SwEvent::FrameWanted) {
        SwAction::Capture { buffer } => assert_eq!(buffer, vec![0; 64 * 48 * 4]),
        _ => panic!("expected Capture"),
    }
    for want in 0..3u64 {
        let job = encode_job(&mut p, 0x80, 1000 * want);
        assert_eq!((job.force_idr, job.timestamp_us), (want == 0, 1000 * want));
        assert_eq!((job.frame.width, job.frame.height, job.frame.stride), (64, 48, 256));
        match p.next_frame(job.run()) {
            SwAction::Return(Ok(f)) => {
                assert_eq!((f.seq, f.timestamp_host_us), (want, 1000 * want));
                assert_eq!(f.is_keyframe, want == 0);
            }
            _ => panic!("expected a frame"),
        }
        p.set_target_bitrate(400_000);
    }
    match p.next_frame(SwEvent::FrameWanted) {
        SwAction::Capture { buffer } => assert_eq!(buffer, vec![0x80; 64 * 48 * 4]),
        _ => panic!("expected Capture"),
    }
}

#[test]
fn a_requested_keyframe_comes_out() {
    let mut p = software_producer();
    for (n, ask) in [false, false, true, false].into_iter().enumerate() {
        if ask {
            p.request_idr();
        }
        let job = encode_job(&mut p, 0x80, 33_000 * n as u64);
        match p.next_frame(job.run()) {
            SwAction::Return(Ok(f)) => assert_eq!(f.is_keyframe, n == 0 || ask),
            _ => panic!("expected a frame"),
        }
    }
}

#[test]
fn a_keyframe_stays_owed_through_failed_captures() {
    let mut p = software_producer();
    let failed = |outcome| SwEvent::Captured {
        buffer: vec![7],
        width: 64,
        height: 48,
        outcome: Err(outcome),
        now_us: 0,
    };
    assert_eq!(
        capture_error(p.next_frame(failed(CaptureSourceError::WouldBlock("no frame yet".into())))),
        "would_block: no frame yet"
    );
    let ended = CaptureSourceError::Terminal { backend: "x", reason: "gone".into() };
    assert_eq!(capture_error(p.next_frame(failed(ended))), "x: gone");
    match p.next_frame(SwEvent::FrameWanted) {
        SwAction::Capture { buffer } => assert_eq!(buffer, vec![7]),
        _ => panic!("expected Capture"),
    }
    assert!(encode_job(&mut p, 0, 0).force_idr);
}

#[test]
fn a_broken_producer_stays_broken() {
    let mut p = software_producer();
    assert_eq!(
        capture_error(p.next_frame(SwEvent::BrokenOff { why: "panicked".into() })),
        "producer poisoned by inner panic: panicked"
    );
    for _ in 0..2 {
        assert_eq!(
            capture_error(p.next_frame(SwEvent::FrameWanted)),
            "producer poisoned by inner panic: drop and recreate"
        );
    }
}

#[test]
fn a_change_of_size_is_reported_once() {
    let mut p = software_producer();
    assert!(!p.warns_of_resize(64, 48));
    assert!(p.warns_of_resize(32, 48));
    let smaller = SwEvent::Captured {
        buffer: vec![0; 32 * 48 * 4],
        width: 32,
        height: 48,
        outcome: Ok(()),
        now_us: 0,
    };
    let job = match p.next_frame(smaller) {
        SwAction::Encode(job) => job,
        _ => panic!("expected Encode"),
    };
    assert!(!p.warns_of_resize(64, 48));
    match p.next_frame(job.run()) {
        SwAction::Return(Err(ProducerError::Encode(text))) => {
            assert_eq!(text, "invalid frame dimensions: 32x48")
        }
        _ => panic!("expected an encode error"),
    }
}

#[test]
fn pictures_outside_the_encoders_limits_are_refused() {
    for (w, h) in [(3842, 64), (64, 3842), (2162, 2162), (14, 64), (64, 14)] {
        let mut enc = LinuxSwEncoder::new(w, h, 500_000, 30).expect("encoder");
        assert!(enc.encode(&grey_frame(w, h, 0), true, 0).is_err(), "{w}x{h}");
    }
}

#[test]
fn producers_and_decoders_are_put_together() {
    assert!(build_video_decoder().is_ok());
    let (_, enc) = build_vaapi_video_producer_with((64, 64), 128, 96, InitReport::Ready)
        .expect("producer");
    assert_eq!((enc.width, enc.height), (128, 96));
    assert!(build_vaapi_video_producer_with((64, 64), 128, 96, InitReport::Gone).is_err());
    let (_, sw) = build_ffmpeg_sw_hevc_decoder(640, 360);
    assert_eq!((sw.width, sw.height, sw.backend_name()), (640, 360, "ffmpeg-sw-hevc"));
    let (_, nv) = build_ffmpeg_nvdec_hevc_decoder(640, 360);
    assert_eq!((nv.width, nv.height, nv.backend_name()), (640, 360, "ffmpeg-nvdec-hevc"));
}

fn config_1080p60() -> ProducerConfig {
    ProducerConfig {
        width: 1920,
        height: 1080,
        fps: 60,
        initial_bitrate_bps: 8_000_000,
        codec: Codec::H264,
    }
}

#[test]
fn linux_probe_lists_openh264_only() {
    let probe = LinuxSwProbe { vaapi_present: false };
    let caps = probe.list_encoders();
    assert_eq!(caps.len(), 1);
    assert_eq!(caps[0].backend, BackendKind::Openh264);
    assert_eq!(caps[0].codec, Codec::H264);
    assert!(!caps[0].zero_copy);
}

#[test]
fn the_hardware_encoder_is_listed_where_it_is_present() {
    let caps = LinuxSwProbe { vaapi_present: true }.list_encoders();
    assert_eq!(caps.len(), 2);
    assert_eq!((caps[1].backend, caps[1].priority), (BackendKind::Vaapi, 90));
}

#[test]
fn linux_factory_rejects_nvenc() {
    let factory = LinuxSwFactory::new(CaptureBackend::X11Shm);
    let result = factory.create(BackendKind::Nvenc, &config_1080p60());
    assert!(matches!(
        result,
        Err(FactoryError::Unavailable(BackendKind::Nvenc, _))
    ));
}

#[test]
fn linux_factory_rejects_vaapi_with_t9_pending_message() {
    let factory = LinuxSwFactory::new(CaptureBackend::X11Shm);
    let result = factory.create(BackendKind::Vaapi, &config_1080p60());
    match result {
        Err(FactoryError::Unavailable(BackendKind::Vaapi, reason)) => {
            assert!(
                reason.contains("T9"),
                "expected reason to mention T9, got: {reason}"
            );
        }
        Err(other) => panic!("expected Unavailable(Vaapi, ...), got Err({other:?})"),
        Ok(_) => panic!("expected Unavailable(Vaapi, ...), got Ok"),
    }
}

#[test]
fn linux_factory_rejects_mf_hevc() {
    let factory = LinuxSwFactory::new(CaptureBackend::X11Shm);
    let result = factory.create(BackendKind::MfHevc, &config_1080p60());
    assert!(matches!(
        result,
        Err(FactoryError::Unavailable(BackendKind::MfHevc, _))
    ));
}

#[test]
fn detect_backend_x11_when_wayland_display_unset() {
    let (got, _) =
        detect_capture_backend(CaptureBackendChoice::Auto, false, PortalProbe::Unreachable);
    assert_eq!(got, CaptureBackend::X11Shm);
}

#[test]
fn detect_backend_cli_override_forces_x11_even_with_wayland_display() {
    let (got, _) = detect_capture_backend(CaptureBackendChoice::X11, true, PortalProbe::Reachable);
    assert_eq!(got, CaptureBackend::X11Shm);
}

#[test]
fn detect_backend_cli_override_forces_wayland_even_without_display() {
    let (got, _) =
        detect_capture_backend(CaptureBackendChoice::Wayland, false, PortalProbe::Unreachable);
    assert_eq!(got, CaptureBackend::WaylandPortal);
}

#[test]
fn detect_backend_auto_falls_back_to_x11_when_portal_unreachable() {
    let probe = if portal_available(ProbeReply::CallFailed) {
        PortalProbe::Reachable
    } else {
        PortalProbe::Unreachable
    };
    assert!(needs_portal_probe(CaptureBackendChoice::Auto, true));
    let (got, _) = detect_capture_backend(CaptureBackendChoice::Auto, true, probe);
    assert_eq!(got, CaptureBackend::X11Shm);
}

#[test]
fn every_way_to_a_capture_backend_has_its_reason() {
    let auto = CaptureBackendChoice::Auto;
    let tag = |c, w, p| detect_capture_backend(c, w, p).1;
    assert_eq!(tag(auto, false, PortalProbe::Reachable), "no-wayland-display");
    assert_eq!(tag(auto, true, PortalProbe::Reachable), "portal-reachable");
    assert_eq!(tag(auto, true, PortalProbe::Unreachable), "portal-unreachable");
    assert_eq!(tag(auto, true, PortalProbe::Failed), "portal-probe-failed");
    let x11 = CaptureBackendChoice::parse("X11");
    assert_eq!(tag(x11, true, PortalProbe::Reachable), "cli-override-x11");
    let wayland = CaptureBackendChoice::parse("wayland");
    assert_eq!(tag(wayland, false, PortalProbe::Failed), "cli-override-wayland");
    assert_eq!(CaptureBackendChoice::parse("mir"), auto);
    assert!(portal_available(ProbeReply::Answered(true)));
    assert!(!portal_available(ProbeReply::Answered(false)));
    assert!(!portal_available(ProbeReply::TimedOut));
    assert!(!needs_portal_probe(auto, false));
}

#[test]
fn linux_factory_routes_x11_backend_to_x11_capturer() {
    let factory = LinuxSwFactory::new(CaptureBackend::X11Shm);
    assert_eq!(factory.capture_backend(), CaptureBackend::X11Shm);
}

#[test]
fn linux_factory_routes_wayland_backend_to_wayland_capturer() {
    let factory = LinuxSwFactory::new(CaptureBackend::WaylandPortal);
    assert_eq!(factory.capture_backend(), CaptureBackend::WaylandPortal);
}

#[test]
fn linux_factory_forced_wayland_without_session_surfaces_unavailable() {
    let factory = LinuxSwFactory::new(CaptureBackend::WaylandPortal);
    assert_eq!(
        factory.create(BackendKind::Openh264, &config_1080p60()).expect("software backend"),
        ProducerPlan {
            capture: CaptureBackend::WaylandPortal,
            bitrate_bps: 8_000_000,
            fps: 60
        }
    );
    let why = match WaylandPortalCapturer::new() {
        Ok(_) => panic!("expected no capturer"),
        Err(e) => e.to_string(),
    };
    let result = LinuxSwFactory::setup_error(BackendKind::Openh264, SetupFailure::PortalCapture(why));
    match result {
        FactoryError::Unavailable(BackendKind::Openh264, msg) => {
            let lower = msg.to_ascii_lowercase();
            assert!(
                lower.contains("portal")
                    || lower.contains("session")
                    || lower.contains("wayland")
                    || lower.contains("ashpd")
                    || lower.contains("waylandportalcapturer"),
                "expected portal/session/wayland/ashpd marker in error message, got: {msg}"
            );
        }
        _ => panic!("expected Err(Unavailable(Openh264, _))"),
    }
}

#[test]
fn a_producer_that_cannot_be_put_together_is_explained() {
    let kind = BackendKind::Openh264;
    assert_eq!(
        LinuxSwFactory::setup_error(kind, SetupFailure::Build("odd width".into())).to_string(),
        "config invalid for backend Openh264: odd width"
    );
    assert_eq!(
        LinuxSwFactory::setup_error(kind, SetupFailure::PortalRuntime("no threads".into()))
            .to_string(),
        "backend Openh264 unavailable: portal runtime: no threads"
    );
}

#[test]
fn cursor_updates_go_on_the_wire() {
    let update = CursorUpdate {
        id: 7,
        position_x: -3,
        position_y: 4,
        hotspot_x: 1,
        hotspot_y: 2,
        bitmap: Some(CursorBitmap { width: 70_000, height: 2, bgra: vec![9; 8] }),
    };
    let ControlMessage::CursorUpdate { id, position_x, position_y, hotspot_x, hotspot_y, bitmap } =
        cursor_to_control(update);
    assert_eq!((id, position_x, position_y, hotspot_x, hotspot_y), (7, -3, 4, 1, 2));
    let bitmap = bitmap.expect("bitmap");
    assert_eq!((bitmap.width, bitmap.height, bitmap.bgra), (65_535, 2, vec![9; 8]));
}

struct MockCheckerboardCapture {
    width: u32,
    height: u32,
    tick: u32,
}

impl CaptureSource for MockCheckerboardCapture {
    fn geometry(&self) -> (u32, u32) {
        (self.width, self.height)
    }
    fn capture_into(&mut self, out: &mut Vec<u8>) -> Result<(), CaptureSourceError> {
        let n = (self.width as usize) * (self.height as usize) * 4;
        out.resize(n, 0);
        for (i, b) in out.iter_mut().enumerate() {
            *b = ((i as u32 ^ self.tick) & 0xFF) as u8;
        }
        self.tick = self.tick.wrapping_add(1);
        Ok(())
    }
}

#[test]
fn mock_capture_obeys_geometry_invariant() {
    let mut cap = MockCheckerboardCapture {
        width: 320,
        height: 240,
        tick: 0,
    };
    let (w, h) = cap.geometry();
    assert!(w >= 1 && h >= 1, "geometry must be at least 1x1");
    let mut buf = Vec::new();
    cap.capture_into(&mut buf).expect("capture_into ok");
    assert!(
        buf.len() >= (w as usize) * (h as usize) * 4,
        "capture_into wrote enough bytes"
    );
}

#[test]
fn mock_capture_advances_between_calls() {
    let mut cap = MockCheckerboardCapture {
        width: 8,
        height: 8,
        tick: 0,
    };
    let mut a = Vec::new();
    let mut b = Vec::new();
    cap.capture_into(&mut a).unwrap();
    cap.capture_into(&mut b).unwrap();
    assert_ne!(a, b, "successive frames should differ (advancing tick)");
}

#[test]
fn mock_capture_geometry_is_stable_when_unchanged() {
    let cap = MockCheckerboardCapture {
        width: 1920,
        height: 1080,
        tick: 0,
    };
    assert_eq!(cap.geometry(), (1920, 1080));
    assert_eq!(cap.geometry(), (1920, 1080));
}

#[test]
fn capture_errors_show_what_they_hold() {
    let a = CaptureSourceError::WouldBlock("later".into()).to_string();
    let b = CaptureSourceError::Terminal { backend: "b", reason: "gone".into() }.to_string();
    assert_eq!(a, "would block: later");
    assert_eq!(b, "capture terminal on b: gone");
}

#[test]
fn a_screen_that_cannot_be_captured_has_no_producer() {
    let refused = build_video_producer(Err(LinuxMediaError::ShmUnavailable), 500_000, 30);
    assert!(matches!(refused, Err(LinuxMediaError::ShmUnavailable)));
    let mut p = build_video_producer(Ok(X11ShmCapturer::new(64, 48, true)), 500_000, 30)
        .expect("producer");
    match p.next_frame(SwEvent::FrameWanted) {
        SwAction::Capture { buffer } => assert_eq!(buffer.len(), 64 * 48 * 4),
        _ => panic!("expected Capture"),
    }
}
