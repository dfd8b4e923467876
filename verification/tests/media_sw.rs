use prdt_media::media_sw::decoder::{frame_of, DecodedPicture, Openh264Decoder};
use prdt_media::media_sw::encoder::{
    CodedPicture, Openh264Encoder, Openh264EncoderConfig, PictureKind,
};
use prdt_media::media_sw::error::MediaSwError;
use prdt_media::media_sw::nv12::{bgra_to_i420, i420_to_nv12, make_counter_i420, I420Frame};
use prdt_media::media_sw::traits::{SwH264Decoder, SwH264Encoder};
use prdt_media::protocol::Codec;

fn config_320x240() -> Openh264EncoderConfig {
    Openh264EncoderConfig {
        width: 320,
        height: 240,
        target_bitrate_bps: 1_000_000,
        max_fps: 30,
    }
}

fn make_test_frame(width: u32, height: u32, fill_y: u8) -> I420Frame {
    let mut f = I420Frame::new_packed(width, height).unwrap();
    for b in f.y.iter_mut() {
        *b = fill_y;
    }
    for b in f.u.iter_mut() {
        *b = 128;
    }
    for b in f.v.iter_mut() {
        *b = 128;
    }
    f
}

fn make_gradient_frame(width: u32, height: u32) -> I420Frame {
    let mut f = make_test_frame(width, height, 0);
    let stride_y = f.stride_y as usize;
    for row in 0..(height as usize) {
        for col in 0..(width as usize) {
            f.y[row * stride_y + col] = ((col + row) & 0xFF) as u8;
        }
    }
    f
}

/// The type of each NAL unit of a stream with start codes.
fn nal_unit_types(stream: &[u8]) -> Vec<u8> {
    let mut out = Vec::new();
    let mut i = 0;
    while i + 3 < stream.len() {
        if stream[i] == 0 && stream[i + 1] == 0 && stream[i + 2] == 0 && stream[i + 3] == 1 {
            if i + 4 < stream.len() {
                out.push(stream[i + 4] & 0x1F);
            }
            i += 4;
            continue;
        }
        if stream[i] == 0 && stream[i + 1] == 0 && stream[i + 2] == 1 {
            if i + 3 < stream.len() {
                out.push(stream[i + 3] & 0x1F);
            }
            i += 3;
            continue;
        }
        i += 1;
    }
    out
}

#[test]
fn openh264_decoder_accepts_self_encoded_stream() {
    let w = 320u32;
    let h = 240u32;
    let mut enc = Openh264Encoder::new(config_320x240()).unwrap();
    let mut dec = Openh264Decoder::new().unwrap();
    let mut decoded: Option<I420Frame> = None;
    for i in 0..3u64 {
        let frame = make_gradient_frame(w, h);
        let ef = enc.encode(&frame, i == 0, i * 33_000).expect("encode");
        if let Some(f) = dec.decode(&ef.nal_units).expect("decode") {
            decoded = Some(f);
            break;
        }
    }
    let f = decoded.expect("decoder produced no frame after 3 inputs");
    assert_eq!(f.width, w);
    assert_eq!(f.height, h);
    assert_eq!(f.y.len(), (f.stride_y as usize) * (h as usize));
    assert_eq!(f.u.len(), (f.stride_uv as usize) * (h as usize / 2));
    assert_eq!(f.v.len(), (f.stride_uv as usize) * (h as usize / 2));
}

#[test]
fn second_idr_carries_sps_pps() {
    let mut enc = Openh264Encoder::new(config_320x240()).expect("encoder");
    let frame = make_test_frame(320, 240, 128);
    let ef1 = enc.encode(&frame, true, 0).expect("1st IDR");
    assert!(ef1.is_keyframe);
    let _ef2 = enc.encode(&frame, false, 33_333).expect("P-frame");
    let ef3 = enc.encode(&frame, true, 66_667).expect("2nd IDR");
    assert!(ef3.is_keyframe, "2nd encode with force_idr=true must be keyframe");
    let types = nal_unit_types(&ef3.nal_units);
    assert!(types.contains(&7), "2nd IDR must carry SPS (type 7); got: {types:?}");
    assert!(types.contains(&8), "2nd IDR must carry PPS (type 8); got: {types:?}");
    assert!(types.contains(&5), "2nd IDR must carry IDR slice (type 5); got: {types:?}");
}

#[test]
fn openh264_encoder_emits_idr_with_sps_pps() {
    let mut enc = Openh264Encoder::new(config_320x240()).expect("encoder");
    let frame = make_test_frame(320, 240, 200);
    let ef = enc.encode(&frame, true, 0).expect("encode");
    assert_eq!(ef.codec, Codec::H264);
    assert_eq!(ef.width, 320);
    assert_eq!(ef.height, 240);
    assert!(ef.is_keyframe, "first frame must be a keyframe");
    let types = nal_unit_types(&ef.nal_units);
    assert!(types.contains(&7), "missing SPS NAL: types {types:?}");
    assert!(types.contains(&8), "missing PPS NAL: types {types:?}");
    assert!(types.contains(&5), "missing IDR slice NAL: types {types:?}");
}

#[test]
fn frames_are_numbered_and_dated_by_the_encoder() {
    let mut enc = Openh264Encoder::new(config_320x240()).expect("encoder");
    let frame = make_test_frame(320, 240, 90);
    let first = enc.encode(&frame, false, 5_000).expect("first");
    assert!(first.is_keyframe, "the first frame is a keyframe unasked");
    assert_eq!((first.seq, first.timestamp_host_us), (0, 5_000));
    let second = enc.encode(&frame, false, 38_000).expect("second");
    assert_eq!((second.seq, second.timestamp_host_us), (1, 38_000));
    enc.set_target_bitrate(2_000_000);
    assert_eq!(SwH264Encoder::backend_name(&enc), "openh264");
}

#[test]
fn a_frame_of_another_size_is_refused() {
    let mut enc = Openh264Encoder::new(config_320x240()).expect("encoder");
    let frame = make_test_frame(64, 48, 90);
    match enc.encode(&frame, false, 0) {
        Err(MediaSwError::DimensionMismatch { expected_w, expected_h, got_w, got_h }) => {
            assert_eq!((expected_w, expected_h, got_w, got_h), (320, 240, 64, 48));
        }
        other => panic!("expected DimensionMismatch, got {other:?}"),
    }
}

#[test]
fn wrapped_pictures_keep_their_bytes_and_kind() {
    let mut enc = Openh264Encoder::new(config_320x240()).expect("encoder");
    let key = enc.wrap(CodedPicture { kind: PictureKind::Intra, bytes: vec![1, 2, 3] }, 7);
    assert_eq!((key.seq, key.timestamp_host_us, key.is_keyframe), (0, 7, true));
    assert_eq!(&key.nal_units[..], &[1, 2, 3]);
    let other = enc.wrap(CodedPicture { kind: PictureKind::Skipped, bytes: vec![] }, 8);
    assert_eq!((other.seq, other.is_keyframe), (1, false));
    assert!(other.nal_units.is_empty());
}

#[test]
fn undecodable_bytes_name_the_call_that_failed() {
    let mut dec = Openh264Decoder::new().unwrap();
    let junk = vec![0u8, 0, 0, 1, 0x67, 0xFF, 0xFF, 0xFF, 0xFF, 0, 0, 0, 1, 0x65, 0xFF, 0xFF];
    if let Err(e) = dec.decode(&junk) {
        let text = e.to_string();
        assert!(text.starts_with("openh264: Decoder::decode: "), "{text}");
        assert!(text.len() > "openh264: Decoder::decode: ".len());
    }
    assert_eq!(SwH264Decoder::backend_name(&dec), "openh264");
}

#[test]
fn decoded_pictures_become_frames_as_they_are() {
    let f = frame_of(DecodedPicture {
        dimensions: (2, 4),
        strides: (6, 3, 3),
        y: vec![9; 24],
        u: vec![8; 6],
        v: vec![7; 6],
    });
    assert_eq!((f.width, f.height, f.stride_y, f.stride_uv), (2, 4, 6, 3));
    assert_eq!((f.y, f.u, f.v), (vec![9; 24], vec![8; 6], vec![7; 6]));
}

#[test]
fn display_is_stable() {
    let e = MediaSwError::InvalidFrame {
        reason: "y plane too short".into(),
    };
    assert_eq!(e.to_string(), "invalid I420 frame: y plane too short");

    let e = MediaSwError::DimensionMismatch {
        expected_w: 1920,
        expected_h: 1080,
        got_w: 640,
        got_h: 480,
    };
    assert_eq!(e.to_string(), "dimension mismatch: expected 1920x1080, got 640x480");
}

#[test]
fn remaining_errors_show_what_they_hold() {
    let e = MediaSwError::NoFrame { hint: "delta without a keyframe" };
    assert_eq!(
        e.to_string(),
        "decoder produced no frame for input (delta without a keyframe)"
    );
    assert_eq!(MediaSwError::Other("x".into()).to_string(), "other: x");
}

#[test]
fn make_counter_i420_dimensions_and_seed() {
    let f = make_counter_i420(1920, 1080, 0xDEAD_BEEF).expect("counter frame");
    assert_eq!(f.width, 1920);
    assert_eq!(f.height, 1080);
    assert_eq!(f.y[0], 0xEF);
    assert_eq!(f.y[15], 0xEF);
    assert_eq!(f.y[16], 0xBE);
    assert_eq!(f.y[31], 0xBE);
    assert_eq!(f.y[32], 0xAD);
    assert_eq!(f.y[47], 0xAD);
    assert_eq!(f.y[48], 0xDE);
    assert_eq!(f.y[63], 0xDE);
    assert_eq!(f.y[64], 112);
}

#[test]
fn the_counter_can_be_read_back() {
    let seq = 0x0102_0304u32;
    let f = make_counter_i420(128, 32, seq).expect("counter frame");
    let mut bytes = [0u8; 4];
    for (i, b) in bytes.iter_mut().enumerate() {
        *b = f.y[i * 16];
    }
    assert_eq!(u32::from_le_bytes(bytes), seq);
    assert!(f.u.iter().chain(f.v.iter()).all(|c| *c == 128));
}

#[test]
fn make_counter_i420_rejects_too_narrow() {
    let err = make_counter_i420(60, 480, 0).unwrap_err();
    assert!(matches!(err, MediaSwError::InvalidFrame { .. }));
}

#[test]
fn bgra_to_i420_round_trip_dimensions() {
    let w = 1920u32;
    let h = 1080u32;
    let bgra_stride = w * 4;
    let bgra = vec![128u8; (bgra_stride as usize) * (h as usize)];
    let frame = bgra_to_i420(&bgra, w, h, bgra_stride).expect("convert");
    assert_eq!(frame.width, 1920);
    assert_eq!(frame.height, 1080);
    assert_eq!(frame.stride_y, 1920);
    assert_eq!(frame.stride_uv, 960);
    assert_eq!(frame.y.len(), 1920 * 1080);
    assert_eq!(frame.u.len(), 960 * 540);
    assert_eq!(frame.v.len(), 960 * 540);
    let y0 = frame.y[0];
    assert!((110..=140).contains(&y0), "expected mid-grey luma, got {y0}");
}

#[test]
fn primary_colours_have_their_bt601_values() {
    let mut bgra = Vec::new();
    for _ in 0..4 {
        bgra.extend_from_slice(&[0, 0, 255, 255]);
    }
    let red = bgra_to_i420(&bgra, 2, 2, 8).expect("red");
    assert_eq!((red.y[0], red.u[0], red.v[0]), (82, 90, 240));
    let white = bgra_to_i420(&[255u8; 16], 2, 2, 8).expect("white");
    assert_eq!((white.y[0], white.u[0], white.v[0]), (235, 128, 128));
}

#[test]
fn bgra_to_i420_rejects_odd_dims() {
    let bgra = vec![0u8; 4 * 3 * 3];
    let err = bgra_to_i420(&bgra, 3, 2, 12).unwrap_err();
    assert!(matches!(err, MediaSwError::InvalidFrame { .. }));
}

#[test]
fn odd_dimensions_are_named() {
    let err = I420Frame::new_packed(3, 2).unwrap_err();
    assert_eq!(
        err.to_string(),
        "invalid I420 frame: dims must be even and nonzero, got 3x2"
    );
}

#[test]
fn i420_to_nv12_dimensions() {
    let mut frame = I420Frame::new_packed(640, 480).unwrap();
    for byte in frame.u.iter_mut() {
        *byte = 0x55;
    }
    for byte in frame.v.iter_mut() {
        *byte = 0xAA;
    }
    let nv12 = i420_to_nv12(&frame).unwrap();
    assert_eq!(nv12.len(), 640 * 480 + 640 * 240);
    let uv_offset = 640 * 480;
    assert_eq!(nv12[uv_offset], 0x55);
    assert_eq!(nv12[uv_offset + 1], 0xAA);
    let row_bytes = nv12.len() - uv_offset;
    assert_eq!(row_bytes, frame.u.len() + frame.v.len());
}

#[test]
fn nv12_keeps_every_sample() {
    let mut frame = I420Frame::new_packed(4, 4).unwrap();
    for (i, b) in frame.y.iter_mut().enumerate() {
        *b = i as u8;
    }
    for (i, b) in frame.u.iter_mut().enumerate() {
        *b = 100 + i as u8;
    }
    for (i, b) in frame.v.iter_mut().enumerate() {
        *b = 200 + i as u8;
    }
    let nv12 = i420_to_nv12(&frame).unwrap();
    for i in 0..16usize {
        assert_eq!(nv12[i], i as u8);
    }
    for row in 0..2usize {
        for col in 0..2usize {
            assert_eq!(nv12[16 + row * 4 + col * 2], (100 + row * 2 + col) as u8);
            assert_eq!(nv12[16 + row * 4 + col * 2 + 1], (200 + row * 2 + col) as u8);
        }
    }
}

#[test]
fn nv12_of_short_planes_is_refused() {
    let mut frame = I420Frame::new_packed(4, 4).unwrap();
    frame.y.pop();
    assert_eq!(
        i420_to_nv12(&frame).unwrap_err().to_string(),
        "invalid I420 frame: y plane 15 bytes < required 16 (stride 4, h 4)"
    );
    frame.y.push(0);
    frame.v.pop();
    assert_eq!(
        i420_to_nv12(&frame).unwrap_err().to_string(),
        "invalid I420 frame: u/v planes too short: u=4, v=3, need 4 each"
    );
}

#[test]
fn a_decoder_that_cannot_be_opened_says_so() {
    let why: openh264::Error = u8::try_from(300i32).unwrap_err().into();
    let text = why.to_string();
    match Openh264Decoder::from_opened(Err(why)) {
        Err(MediaSwError::OpenH264 { context, source }) => {
            assert_eq!(context, "Decoder::with_api_config");
            assert_eq!(source.to_string(), text);
        }
        _ => panic!("expected an OpenH264 error"),
    }
    let opened = openh264::decoder::Decoder::new();
    assert!(Openh264Decoder::from_opened(opened).is_ok());
}

#[test]
fn a_counter_frame_of_two_rows_carries_the_counter_in_the_first() {
    let f = make_counter_i420(64, 2, 0xDEAD_BEEF).expect("counter frame");
    for (i, byte) in [0xEFu8, 0xBE, 0xAD, 0xDE].iter().enumerate() {
        assert!(f.y[i * 16..(i + 1) * 16].iter().all(|b| b == byte));
    }
    assert!(f.y[64..128].iter().all(|b| *b == 112));
    assert!(f.u.iter().chain(f.v.iter()).all(|c| *c == 128));
}

#[test]
fn an_encoder_that_cannot_be_opened_says_so() {
    let why: openh264::Error = u8::try_from(300i32).unwrap_err().into();
    let text = why.to_string();
    match Openh264Encoder::from_opened(config_320x240(), Err(why)) {
        Err(MediaSwError::OpenH264 { context, source }) => {
            assert_eq!(context, "Encoder::with_api_config");
            assert_eq!(source.to_string(), text);
        }
        _ => panic!("expected an OpenH264 error"),
    }
    let opened = openh264::encoder::Encoder::new();
    assert!(Openh264Encoder::from_opened(config_320x240(), opened).is_ok());
}

#[test]
fn the_answer_to_a_picture_is_numbered_or_passed_on() {
    let mut enc = Openh264Encoder::new(config_320x240()).expect("encoder");
    let why: openh264::Error = u8::try_from(300i32).unwrap_err().into();
    let text = why.to_string();
    match enc.answered(Err(why), 7_000) {
        Err(MediaSwError::OpenH264 { context, source }) => {
            assert_eq!(context, "Encoder::encode_at");
            assert_eq!(source.to_string(), text);
        }
        _ => panic!("expected an OpenH264 error"),
    }
    let coded = CodedPicture { kind: PictureKind::Idr, bytes: vec![1, 2, 3] };
    let frame = enc.answered(Ok(coded), 7_000).expect("frame");
    assert_eq!((frame.seq, frame.timestamp_host_us, frame.is_keyframe), (0, 7_000, true));
    assert_eq!(frame.nal_units.to_vec(), vec![1, 2, 3]);
}

#[test]
fn the_answer_to_a_unit_is_shown_or_passed_on() {
    let why: openh264::Error = u8::try_from(300i32).unwrap_err().into();
    let text = why.to_string();
    match Openh264Decoder::answered(Err(why)) {
        Err(MediaSwError::OpenH264 { context, source }) => {
            assert_eq!(context, "Decoder::decode");
            assert_eq!(source.to_string(), text);
        }
        _ => panic!("expected an OpenH264 error"),
    }
    assert!(matches!(Openh264Decoder::answered(Ok(None)), Ok(None)));
}

/// The profile number in the first sequence parameter set of a stream.
fn profile_of(stream: &[u8]) -> Option<u8> {
    (0..stream.len().saturating_sub(4))
        .find(|&i| stream[i..i + 3] == [0, 0, 1] && stream[i + 3] & 0x1F == 7)
        .map(|i| stream[i + 4])
}

#[test]
fn streams_are_baseline_and_come_with_their_parameter_sets() {
    let mut enc = Openh264Encoder::new(config_320x240()).expect("encoder");
    let frame = make_test_frame(320, 240, 90);
    let first = enc.encode(&frame, false, 0).expect("first");
    assert!(first.is_keyframe);
    assert_eq!(profile_of(&first.nal_units), Some(66));
    let plain = enc.encode(&frame, false, 33_000).expect("second");
    assert!(!plain.is_keyframe);
    let again = enc.encode(&frame, true, 66_000).expect("third");
    assert!(again.is_keyframe);
    assert_eq!(profile_of(&again.nal_units), Some(66));
}
