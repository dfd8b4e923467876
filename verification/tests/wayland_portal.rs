use prdt_media::media_linux::capture_source::{CaptureSource, CaptureSourceError};
use prdt_media::media_linux::wayland_portal::capturer::WaylandPortalCapturer;
use prdt_media::media_linux::wayland_portal::cursor::{
    read_meta_cursor, CursorBitmap, CursorMetaError, CursorUpdate, SpaMeta, SPA_META_CURSOR,
    SPA_VIDEO_FORMAT_ARGB, SPA_VIDEO_FORMAT_BGRA, SPA_VIDEO_FORMAT_RGBA,
};
use prdt_media::media_linux::wayland_portal::dmabuf::{
    map_dmabuf_plane, plane_bytes, MapRefusal, RefusalKind, SpaData,
};
use prdt_media::media_linux::wayland_portal::format::{
    build, parse, ChoiceKind, Fraction, ParseError, PixelFormat, Pod, PodObject, PodProperty,
    PodScalar, PodValue, Rectangle, DRM_FORMAT_MOD_INVALID, DRM_FORMAT_MOD_LINEAR,
    SPA_FORMAT_MEDIA_SUBTYPE, SPA_FORMAT_MEDIA_TYPE, SPA_FORMAT_VIDEO_FORMAT,
    SPA_FORMAT_VIDEO_FRAMERATE, SPA_FORMAT_VIDEO_MODIFIER, SPA_FORMAT_VIDEO_SIZE,
    SPA_MEDIA_SUBTYPE_RAW, SPA_MEDIA_TYPE_AUDIO, SPA_MEDIA_TYPE_VIDEO, SPA_PARAM_BUFFERS,
    SPA_PARAM_ENUM_FORMAT, SPA_PARAM_FORMAT, SPA_TYPE_OBJECT_FORMAT, VIDEO_FORMAT_ABGR,
    VIDEO_FORMAT_ARGB, VIDEO_FORMAT_BGRA, VIDEO_FORMAT_BGRX, VIDEO_FORMAT_NV12,
    VIDEO_FORMAT_RGBA, VIDEO_FORMAT_RGBX, VIDEO_FORMAT_XBGR, VIDEO_FORMAT_XRGB,
};
use prdt_media::media_linux::wayland_portal::pod_builder::{
    PodBuilder, CHOICE_FLAGS, PROP_FLAG_DONT_FIXATE, PROP_FLAG_MANDATORY, SPA_CHOICE_ENUM,
    SPA_TYPE_CHOICE, SPA_TYPE_ID, SPA_TYPE_INT, SPA_TYPE_OBJECT,
};
use prdt_media::media_linux::wayland_portal::session::{
    classify_failure, classify_portal_error, select_cursor_mode, CursorMode, FailureKind,
    PortalCall, PortalSession, WaylandPortalError,
};
use prdt_media::media_linux::wayland_portal::stream::{
    build_format_params, classify_spa_data_type, on_cursor, on_param_changed, on_process,
    parse_video_format, Chunk, CursorAction, DataPath, FramePool, PipeWireStream,
    LoopCommand, ParamAction, PipeWireStreamError, RawFrame, SPA_DATA_DMABUF, SPA_DATA_MEMFD,
    SPA_DATA_MEMPTR,
};
use prdt_media::media_linux::wayland_portal::token::{
    token_or_default, PortalSessionToken, TokenRead,
};

// ---- cursor metadata ----

type BitmapArg = Option<(u32, (u32, u32), i32, Vec<u8>)>;

fn build_cursor_payload(
    id: u32,
    pos: (i32, i32),
    hotspot: (i32, i32),
    bitmap: BitmapArg,
) -> Vec<u8> {
    let mut payload = Vec::new();
    let offset: u32 = if bitmap.is_some() { 28 } else { 0 };
    payload.extend_from_slice(&id.to_le_bytes());
    payload.extend_from_slice(&0u32.to_le_bytes());
    for v in [pos.0, pos.1, hotspot.0, hotspot.1] {
        payload.extend_from_slice(&v.to_le_bytes());
    }
    payload.extend_from_slice(&offset.to_le_bytes());
    if let Some((fmt, (w, h), stride, pixels)) = bitmap {
        let pixel_offset: u32 = if pixels.is_empty() { 0 } else { 20 };
        for v in [fmt, w, h] {
            payload.extend_from_slice(&v.to_le_bytes());
        }
        payload.extend_from_slice(&stride.to_le_bytes());
        payload.extend_from_slice(&pixel_offset.to_le_bytes());
        payload.extend_from_slice(&pixels);
    }
    payload
}

fn with_cursor_meta(payload: Vec<u8>) -> Vec<SpaMeta> {
    vec![SpaMeta { type_: SPA_META_CURSOR, size: payload.len() as u32, data: Some(payload) }]
}

#[test]
fn read_meta_cursor_returns_none_for_id_zero() {
    let payload = build_cursor_payload(0, (10, 20), (0, 0), None);
    let buf = with_cursor_meta(payload);
    let r = read_meta_cursor(&buf).expect("parse ok");
    assert_eq!(r, None, "id=0 must yield Ok(None)");
}

#[test]
fn read_meta_cursor_handles_position_only_update() {
    let payload = build_cursor_payload(42, (100, 200), (3, 5), None);
    let buf = with_cursor_meta(payload);
    let r = read_meta_cursor(&buf).expect("parse ok").expect("Some update");
    assert_eq!(r.id, 42);
    assert_eq!((r.position_x, r.position_y), (100, 200));
    assert_eq!((r.hotspot_x, r.hotspot_y), (3, 5));
    assert!(r.bitmap.is_none(), "position-only must have None bitmap");
}

#[test]
fn read_meta_cursor_handles_bgra_bitmap() {
    let pixels = vec![0x00, 0x00, 0xff, 0xff, 0x00, 0xff, 0x00, 0xff];
    let payload = build_cursor_payload(
        7,
        (50, 50),
        (1, 1),
        Some((SPA_VIDEO_FORMAT_BGRA, (2, 1), 8, pixels.clone())),
    );
    let buf = with_cursor_meta(payload);
    let r = read_meta_cursor(&buf).expect("parse ok").expect("Some update");
    let bmp = r.bitmap.expect("Some bitmap");
    assert_eq!((bmp.width, bmp.height), (2, 1));
    assert_eq!(bmp.bgra, pixels, "BGRA must pass through unchanged");
}

#[test]
fn read_meta_cursor_normalizes_rgba_to_bgra() {
    let rgba = vec![0xff, 0x00, 0x00, 0xff];
    let payload = build_cursor_payload(
        8,
        (0, 0),
        (0, 0),
        Some((SPA_VIDEO_FORMAT_RGBA, (1, 1), 4, rgba)),
    );
    let buf = with_cursor_meta(payload);
    let r = read_meta_cursor(&buf).expect("parse ok").expect("Some update");
    let bmp = r.bitmap.expect("Some bitmap");
    assert_eq!(bmp.bgra, vec![0x00, 0x00, 0xff, 0xff]);
}

#[test]
fn cursor_formats_agree_and_padding_is_dropped() {
    let argb = vec![0xff, 1, 2, 3, 9, 9, 9, 9, 0x80, 4, 5, 6, 9, 9, 9, 9];
    let payload = build_cursor_payload(
        9,
        (0, 0),
        (0, 0),
        Some((SPA_VIDEO_FORMAT_ARGB, (1, 2), 8, argb)),
    );
    let r = read_meta_cursor(&with_cursor_meta(payload)).expect("parse ok").expect("update");
    assert_eq!(r.bitmap.expect("bitmap").bgra, vec![3, 2, 1, 0xff, 6, 5, 4, 0x80]);
}

#[test]
fn broken_cursor_metadata_is_refused() {
    assert_eq!(read_meta_cursor(&[]), Err(CursorMetaError::Absent));
    let other = SpaMeta { type_: 1, size: 0, data: None };
    assert_eq!(read_meta_cursor(&[other]), Err(CursorMetaError::Absent));
    assert_eq!(
        read_meta_cursor(&with_cursor_meta(vec![0; 27])),
        Err(CursorMetaError::MetaTooSmall(27))
    );
    let nowhere = SpaMeta { type_: SPA_META_CURSOR, size: 64, data: None };
    assert_eq!(read_meta_cursor(&[nowhere]), Err(CursorMetaError::MetaTooSmall(64)));
    let mut past = build_cursor_payload(1, (0, 0), (0, 0), None);
    past[24] = 200;
    assert_eq!(
        read_meta_cursor(&with_cursor_meta(past)),
        Err(CursorMetaError::BitmapOffsetOutOfBounds(200, 28))
    );
    let huge = build_cursor_payload(
        1,
        (0, 0),
        (0, 0),
        Some((SPA_VIDEO_FORMAT_BGRA, (257, 1), 1028, vec![0; 4])),
    );
    assert_eq!(
        read_meta_cursor(&with_cursor_meta(huge)),
        Err(CursorMetaError::BitmapTooLarge(257, 1))
    );
    let odd = build_cursor_payload(1, (0, 0), (0, 0), Some((99, (1, 1), 4, vec![0; 4])));
    assert_eq!(
        read_meta_cursor(&with_cursor_meta(odd)),
        Err(CursorMetaError::UnsupportedFormat(99))
    );
    let short = build_cursor_payload(
        1,
        (0, 0),
        (0, 0),
        Some((SPA_VIDEO_FORMAT_BGRA, (4, 4), 16, vec![0; 60])),
    );
    assert!(matches!(
        read_meta_cursor(&with_cursor_meta(short)),
        Err(CursorMetaError::BitmapOffsetOutOfBounds(_, _))
    ));
}

// ---- mapping of shared planes ----

#[test]
fn map_dmabuf_plane_invalid_fd_returns_err() {
    let r = map_dmabuf_plane(&SpaData { fd: -1, maxsize: 4096, mapoffset: 0 });
    assert!(r.is_err(), "fd=-1 must return Err");
    let e = r.unwrap_err();
    assert_eq!(e.kind(), RefusalKind::InvalidData);
}

#[test]
fn a_plane_starts_behind_its_offset() {
    let plan = map_dmabuf_plane(&SpaData { fd: 3, maxsize: 6, mapoffset: 2 }).expect("plan");
    assert_eq!((plan.len, plan.data_off), (8, 2));
    let mapping = [0u8, 1, 2, 3, 4, 5, 6, 7];
    assert_eq!(plane_bytes(&mapping, &plan), &mapping[2..]);
    let empty = map_dmabuf_plane(&SpaData { fd: 3, maxsize: 0, mapoffset: 0 }).unwrap_err();
    assert_eq!(empty, MapRefusal::Empty);
    assert_eq!(empty.kind(), RefusalKind::InvalidInput);
}

// ---- formats ----

fn word(bytes: &[u8], at: usize) -> u32 {
    u32::from_le_bytes([bytes[at], bytes[at + 1], bytes[at + 2], bytes[at + 3]])
}

struct WireProperty {
    key: u32,
    flags: u32,
    tag: u32,
    body: Vec<u8>,
}

/// Reads an object pod: its type, its id and its properties.
fn read_object(bytes: &[u8]) -> (u32, u32, Vec<WireProperty>) {
    let size = word(bytes, 0) as usize;
    assert_eq!(word(bytes, 4), SPA_TYPE_OBJECT);
    let mut properties = Vec::new();
    let mut at = 16;
    while at < 8 + size {
        let body_len = word(bytes, at + 8) as usize;
        properties.push(WireProperty {
            key: word(bytes, at),
            flags: word(bytes, at + 4),
            tag: word(bytes, at + 12),
            body: bytes[at + 16..at + 16 + body_len].to_vec(),
        });
        at += 16 + (body_len + 7) / 8 * 8;
    }
    (word(bytes, 8), word(bytes, 12), properties)
}

fn property(key: u32, value: PodScalar) -> PodProperty {
    PodProperty { key, flags: 0, value: PodValue::Scalar(value) }
}

fn format_object(properties: Vec<PodProperty>) -> Pod {
    Pod::Object(PodObject { type_: SPA_TYPE_OBJECT_FORMAT, id: SPA_PARAM_FORMAT, properties })
}

fn raw_video(format: u32, width: u32, height: u32) -> Vec<PodProperty> {
    vec![
        property(SPA_FORMAT_MEDIA_TYPE, PodScalar::Id(SPA_MEDIA_TYPE_VIDEO)),
        property(SPA_FORMAT_MEDIA_SUBTYPE, PodScalar::Id(SPA_MEDIA_SUBTYPE_RAW)),
        property(SPA_FORMAT_VIDEO_FORMAT, PodScalar::Id(format)),
        property(SPA_FORMAT_VIDEO_SIZE, PodScalar::Rectangle(Rectangle { width, height })),
    ]
}

#[test]
fn round_trip_bgra() {
    let built = build();
    assert_eq!(built.bytes.len(), 1, "build() emits exactly one EnumFormat POD");
    assert!(
        !built.bytes[0].is_empty(),
        "serialised POD bytes must be non-empty"
    );
}

#[test]
fn build_choice_properties_have_mandatory_dont_fixate_flags() {
    let built = build();
    let (type_, id, properties) = read_object(&built.bytes[0]);
    assert_eq!((type_, id), (SPA_TYPE_OBJECT_FORMAT, SPA_PARAM_ENUM_FORMAT));
    let expected = PROP_FLAG_MANDATORY | PROP_FLAG_DONT_FIXATE;
    assert_eq!(CHOICE_FLAGS, expected);
    let choice_keys = [
        (SPA_FORMAT_VIDEO_FORMAT, "VideoFormat"),
        (SPA_FORMAT_VIDEO_SIZE, "VideoSize"),
        (SPA_FORMAT_VIDEO_FRAMERATE, "VideoFramerate"),
    ];
    for (key, name) in choice_keys {
        let prop = properties
            .iter()
            .find(|p| p.key == key)
            .unwrap_or_else(|| panic!("EnumFormat POD missing {name} property"));
        assert_eq!(
            prop.flags, expected,
            "{name} Property must carry MANDATORY|DONT_FIXATE flags, got {:?}",
            prop.flags
        );
        assert_eq!(prop.tag, SPA_TYPE_CHOICE);
    }
}

#[test]
fn build_video_format_alternatives_cover_bgra_rgba_family() {
    let built = build();
    let (_, _, properties) = read_object(&built.bytes[0]);
    let prop = properties
        .iter()
        .find(|p| p.key == SPA_FORMAT_VIDEO_FORMAT)
        .expect("VideoFormat property must be present");
    assert_eq!(prop.tag, SPA_TYPE_CHOICE);
    assert_eq!(word(&prop.body, 0), SPA_CHOICE_ENUM);
    assert_eq!((word(&prop.body, 8), word(&prop.body, 12)), (4, SPA_TYPE_ID));
    let values: Vec<u32> = (16..prop.body.len()).step_by(4).map(|at| word(&prop.body, at)).collect();
    let alts = &values[1..];
    assert_eq!(values[0], VIDEO_FORMAT_BGRA);
    for expected in [
        VIDEO_FORMAT_BGRA,
        VIDEO_FORMAT_BGRX,
        VIDEO_FORMAT_RGBA,
        VIDEO_FORMAT_RGBX,
        VIDEO_FORMAT_ARGB,
        VIDEO_FORMAT_ABGR,
        VIDEO_FORMAT_XRGB,
        VIDEO_FORMAT_XBGR,
    ] {
        assert!(
            alts.contains(&expected),
            "VideoFormat alternatives must include id={expected}, got {alts:?}"
        );
    }
}

#[test]
fn the_offer_is_aligned_and_counts_its_body() {
    let bytes = build().bytes.remove(0);
    assert_eq!(bytes.len() % 8, 0);
    assert_eq!(word(&bytes, 0) as usize, bytes.len() - 8);
    let (_, _, properties) = read_object(&bytes);
    let size = properties.iter().find(|p| p.key == SPA_FORMAT_VIDEO_SIZE).expect("size");
    let words: Vec<u32> = (16..40).step_by(4).map(|at| word(&size.body, at)).collect();
    assert_eq!(words, vec![1920, 1080, 320, 240, 7680, 4320]);
    let rate = properties.iter().find(|p| p.key == SPA_FORMAT_VIDEO_FRAMERATE).expect("rate");
    let words: Vec<u32> = (16..40).step_by(4).map(|at| word(&rate.body, at)).collect();
    assert_eq!(words, vec![60, 1, 15, 1, 60, 1]);
}

#[test]
fn parse_accepts_rgba_family_variants() {
    for (fmt, expected) in [
        (VIDEO_FORMAT_RGBA, PixelFormat::BGRA),
        (VIDEO_FORMAT_ARGB, PixelFormat::BGRA),
        (VIDEO_FORMAT_ABGR, PixelFormat::BGRA),
        (VIDEO_FORMAT_RGBX, PixelFormat::BGRx),
        (VIDEO_FORMAT_XRGB, PixelFormat::BGRx),
        (VIDEO_FORMAT_XBGR, PixelFormat::BGRx),
    ] {
        let pod = format_object(raw_video(fmt, 1280, 720));
        let neg = parse(&pod).unwrap_or_else(|e| panic!("parse {fmt:?} ok, got {e:?}"));
        assert_eq!(neg.format, expected, "{fmt:?} must map to {expected:?}");
    }
}

#[test]
fn parse_round_trip_bgra() {
    let pod = format_object(raw_video(VIDEO_FORMAT_BGRA, 1920, 1080));
    let neg = parse(&pod).expect("parse ok");
    assert_eq!(neg.width, 1920);
    assert_eq!(neg.height, 1080);
    assert_eq!(neg.format, PixelFormat::BGRA);
    assert_eq!(neg.modifier, None, "no VideoModifier prop gives None");
}

#[test]
fn parse_rejects_non_video_media_type() {
    let pod = format_object(vec![
        property(SPA_FORMAT_MEDIA_TYPE, PodScalar::Id(SPA_MEDIA_TYPE_AUDIO)),
        property(SPA_FORMAT_MEDIA_SUBTYPE, PodScalar::Id(SPA_MEDIA_SUBTYPE_RAW)),
    ]);
    let err = parse(&pod).expect_err("Audio MediaType must reject");
    assert!(
        matches!(err, ParseError::NotVideo),
        "expected NotVideo, got {err:?}"
    );
}

#[test]
fn parse_rejects_unsupported_format_nv12() {
    let pod = format_object(raw_video(VIDEO_FORMAT_NV12, 640, 480));
    let err = parse(&pod).expect_err("NV12 must reject in P5B-2a");
    match err {
        ParseError::UnsupportedFormat(id) => {
            assert_eq!(id, VIDEO_FORMAT_NV12, "expected NV12 id");
        }
        other => panic!("expected UnsupportedFormat(NV12), got {other:?}"),
    }
}

#[test]
fn parse_extracts_modifier_value() {
    let mut properties = raw_video(VIDEO_FORMAT_BGRA, 800, 600);
    properties.push(property(SPA_FORMAT_VIDEO_MODIFIER, PodScalar::Long(DRM_FORMAT_MOD_LINEAR)));
    let neg = parse(&format_object(properties)).expect("parse ok");
    assert_eq!(neg.modifier, Some(DRM_FORMAT_MOD_LINEAR));
}

#[test]
fn a_choice_stands_for_its_default() {
    let mut properties = raw_video(VIDEO_FORMAT_BGRA, 800, 600);
    properties[2].value = PodValue::Choice {
        kind: ChoiceKind::Enum,
        default: PodScalar::Id(VIDEO_FORMAT_BGRX),
        alternatives: vec![PodScalar::Id(VIDEO_FORMAT_NV12)],
    };
    properties.push(property(
        SPA_FORMAT_VIDEO_FRAMERATE,
        PodScalar::Fraction(Fraction { num: 30, denom: 1 }),
    ));
    let neg = parse(&format_object(properties)).expect("parse ok");
    assert_eq!(neg.format, PixelFormat::BGRx);
    assert_eq!(neg.framerate, Some(Fraction { num: 30, denom: 1 }));
}

#[test]
fn formats_that_cannot_be_used_are_refused() {
    assert_eq!(parse(&Pod::Other), Err(ParseError::NotObject));
    let wrong = Pod::Object(PodObject { type_: 5, id: 0, properties: vec![] });
    assert_eq!(parse(&wrong), Err(ParseError::WrongType(5)));
    let mut cooked = raw_video(VIDEO_FORMAT_BGRA, 1, 1);
    cooked[1] = property(SPA_FORMAT_MEDIA_SUBTYPE, PodScalar::Id(99));
    assert_eq!(parse(&format_object(cooked)), Err(ParseError::NotRaw));
    let mut sizeless = raw_video(VIDEO_FORMAT_BGRA, 1, 1);
    sizeless.pop();
    assert_eq!(parse(&format_object(sizeless)), Err(ParseError::MissingSize));
    assert_eq!(
        ParseError::WrongType(5).to_string(),
        "pod type is not ParamFormat (got raw type 5)"
    );
    assert_eq!(
        ParseError::UnsupportedFormat(23).to_string(),
        "VideoFormat is not BGRA/BGRx (got id=23)"
    );
}

// ---- pods ----

#[test]
fn primitive_int_round_trip() {
    let mut b = PodBuilder::new();
    b.add_int_primitive(0x4242_4242);
    let bytes = b.finish();
    assert!(!bytes.is_empty(), "non-empty POD bytes");
    assert_eq!((word(&bytes, 0), word(&bytes, 4)), (4, SPA_TYPE_INT));
    assert_eq!(word(&bytes, 8), 0x4242_4242);
}

#[test]
fn overflow_path_reallocs_without_corruption() {
    let mut b = PodBuilder::new();
    let n = (PodBuilder::INITIAL_CAPACITY / 8) + 8;
    for i in 0..n {
        b.add_int_primitive(i as i32);
    }
    let bytes = b.finish();
    assert!(
        bytes.len() > PodBuilder::INITIAL_CAPACITY,
        "expected realloc beyond INITIAL_CAPACITY, got {} bytes",
        bytes.len()
    );
    for i in 0..n {
        assert_eq!(word(&bytes, i * 16 + 8) as usize, i);
    }
}

// ---- portal session ----

#[test]
fn portal_error_display_user_cancelled() {
    let e = WaylandPortalError::UserCancelled;
    assert_eq!(e.to_string(), "user cancelled portal authorization");
}

#[test]
fn portal_error_token_invalid_triggers_deletion_signal() {
    assert!(WaylandPortalError::RestoreTokenRejected("stale".into()).is_token_invalid());
    assert!(!WaylandPortalError::Ashpd("dbus failed".into()).is_token_invalid());
    assert!(!WaylandPortalError::UserCancelled.is_token_invalid());
    assert!(!WaylandPortalError::NoStreams.is_token_invalid());
}

#[test]
fn classify_cancel_string_fallback_maps_to_user_cancelled() {
    let e = ashpd::Error::ParseError("user cancel requested");
    let result = classify_portal_error(e, false);
    assert!(
        matches!(result, WaylandPortalError::UserCancelled),
        "expected UserCancelled for cancel-containing error string"
    );
}

#[test]
fn classify_non_cancel_with_token_maps_to_token_rejected() {
    let e = ashpd::Error::ParseError("grant revoked by compositor");
    let result = classify_portal_error(e, true);
    assert!(
        matches!(result, WaylandPortalError::RestoreTokenRejected(_)),
        "expected RestoreTokenRejected when token_was_passed=true and no cancel in message"
    );
    assert!(result.is_token_invalid());
}

#[test]
fn the_bindings_word_for_cancelled_is_understood() {
    let response = ashpd::Error::Response(ashpd::desktop::ResponseError::Cancelled);
    assert!(matches!(classify_portal_error(response, true), WaylandPortalError::UserCancelled));
    let portal = ashpd::Error::Portal(ashpd::PortalError::Cancelled("x".into()));
    assert!(matches!(classify_portal_error(portal, true), WaylandPortalError::UserCancelled));
}

#[test]
fn only_some_calls_weigh_the_token() {
    let revoked = || ashpd::Error::ParseError("grant revoked by compositor");
    for call in [
        PortalCall::Proxy,
        PortalCall::CreateSession,
        PortalCall::OpenRemote,
        PortalCall::Close,
    ] {
        match PortalSession::failure(call, revoked(), true) {
            WaylandPortalError::Ashpd(text) => {
                assert!(text.contains("grant revoked by compositor"), "{text}")
            }
            other => panic!("expected Ashpd, got {other:?}"),
        }
    }
    for call in [PortalCall::SelectSources, PortalCall::Start, PortalCall::Response] {
        assert!(PortalSession::failure(call, revoked(), true).is_token_invalid());
        assert!(!PortalSession::failure(call, revoked(), false).is_token_invalid());
    }
}

#[test]
fn failures_are_classified_by_kind_and_text() {
    let other = FailureKind::Other;
    assert!(matches!(
        classify_failure(other, "User CANCELLED".into(), true),
        WaylandPortalError::UserCancelled
    ));
    assert!(matches!(
        classify_failure(FailureKind::PortalCancelled, "gone".into(), true),
        WaylandPortalError::UserCancelled
    ));
    assert_eq!(
        classify_failure(other, "gone".into(), true).to_string(),
        "restore token rejected by compositor: gone"
    );
    assert_eq!(
        classify_failure(other, "gone".into(), false).to_string(),
        "ashpd portal error: gone"
    );
}

#[test]
fn the_first_stream_is_taken() {
    let start = PortalSession::started(&[41, 42], Some("tok".into()), CursorMode::Metadata)
        .expect("a stream");
    assert_eq!(start.pipewire_node_id, 41);
    assert_eq!(start.restore_token.as_deref(), Some("tok"));
    assert_eq!(start.cursor_mode, CursorMode::Metadata);
    assert!(matches!(
        PortalSession::started(&[], None, CursorMode::Embedded),
        Err(WaylandPortalError::NoStreams)
    ));
    assert_eq!(select_cursor_mode(true), CursorMode::Metadata);
    assert_eq!(select_cursor_mode(false), CursorMode::Embedded);
}

// ---- stream ----

#[test]
fn raw_frame_with_padded_stride_validates() {
    let width = 320u32;
    let height = 4u32;
    let stride = width * 4 + 64;
    let mut data = vec![0u8; (stride * height) as usize];
    for (i, b) in data.iter_mut().enumerate() {
        *b = (i & 0xFF) as u8;
    }
    let f = RawFrame {
        data,
        width,
        height,
        stride,
        ts_us: 1234,
    };
    assert_eq!(f.width_bytes(), (width * 4) as usize);
    assert_eq!(f.row(0).len(), (width * 4) as usize);
    assert_eq!(f.row(3).len(), (width * 4) as usize);
    assert_eq!(f.row(1)[0], (stride as usize & 0xFF) as u8);
}

#[test]
fn buffer_pool_recycles_two_buffers() {
    let mut pool = FramePool::with_capacity(2);

    let a = pool.acquire(1024);
    assert!(a.capacity() >= 1024);
    pool.recycle(a);

    let b = pool.acquire(1024);
    assert!(b.capacity() >= 1024);
    pool.recycle(b);
    assert_eq!(pool.len(), 2, "pool retains both recycled buffers");

    let c = pool.acquire(1024);
    let d = pool.acquire(1024);
    pool.recycle(c);
    pool.recycle(d);
    pool.recycle(vec![0u8; 1024]);
    assert_eq!(pool.len(), 2, "pool capped at 2");
}

#[test]
fn shutdown_channel_wakes_mainloop_within_deadline() {
    let (tx, _rx) = std::sync::mpsc::channel::<LoopCommand>();
    let r = tx.send(LoopCommand::Shutdown);
    assert!(r.is_ok());
}

#[test]
fn dispatch_table_routes_each_spa_data_type_to_its_arm() {
    let mut dmabuf_hits = 0u32;
    let mut memfd_hits = 0u32;
    let mut memptr_hits = 0u32;
    let mut unknown_hits = 0u32;
    for tag in [SPA_DATA_DMABUF, SPA_DATA_MEMFD, SPA_DATA_MEMPTR, 9999u32] {
        match classify_spa_data_type(tag) {
            DataPath::DmaBuf => dmabuf_hits += 1,
            DataPath::MemFd => memfd_hits += 1,
            DataPath::MemPtr => memptr_hits += 1,
            DataPath::Unknown => unknown_hits += 1,
        }
    }
    assert_eq!(dmabuf_hits, 1);
    assert_eq!(memfd_hits, 1);
    assert_eq!(memptr_hits, 1);
    assert_eq!(unknown_hits, 1);
}

#[test]
fn build_format_params_then_parse_round_trip_size() {
    let pods = build_format_params();
    assert_eq!(pods.bytes.len(), 1, "exactly one EnumFormat POD");
}

#[test]
fn param_changed_filter_skips_non_format_param_ids() {
    assert_ne!(SPA_PARAM_FORMAT, SPA_PARAM_BUFFERS);
    assert_eq!(SPA_PARAM_FORMAT, 4);
    assert_eq!(SPA_PARAM_BUFFERS, 5);
    let pod = Some(format_object(raw_video(VIDEO_FORMAT_BGRA, 640, 480)));
    assert!(matches!(on_param_changed(SPA_PARAM_BUFFERS, &pod), ParamAction::Ignore));
    assert!(matches!(on_param_changed(SPA_PARAM_FORMAT, &None), ParamAction::Ignore));
    let mut stream = PipeWireStream::new();
    assert_eq!(stream.current_size(), (0, 0));
    stream.param_changed(SPA_PARAM_BUFFERS, &pod);
    assert_eq!(stream.current_size(), (0, 0));
    stream.param_changed(SPA_PARAM_FORMAT, &pod);
    assert_eq!(stream.current_size(), (640, 480));
}

#[test]
fn a_format_that_cannot_be_read_ends_the_stream() {
    let bad = Some(format_object(raw_video(VIDEO_FORMAT_NV12, 640, 480)));
    let mut stream = PipeWireStream::new();
    let action = stream.param_changed(SPA_PARAM_FORMAT, &bad);
    assert!(matches!(action, ParamAction::Disconnect));
    assert_eq!(stream.current_size(), (0, 0));
    let mut tiled = raw_video(VIDEO_FORMAT_BGRA, 640, 480);
    tiled.push(property(SPA_FORMAT_VIDEO_MODIFIER, PodScalar::Long(DRM_FORMAT_MOD_INVALID)));
    let tiled = Some(format_object(tiled));
    assert!(matches!(on_param_changed(SPA_PARAM_FORMAT, &tiled), ParamAction::Disconnect));
}

#[test]
fn cursor_reads_lead_to_an_action() {
    let update = CursorUpdate {
        id: 1,
        position_x: 2,
        position_y: 3,
        hotspot_x: 4,
        hotspot_y: 5,
        bitmap: Some(CursorBitmap { width: 1, height: 1, bgra: vec![0; 4] }),
    };
    assert!(matches!(on_cursor(Ok(Some(update))), CursorAction::Send(u) if u.id == 1));
    assert!(matches!(on_cursor(Ok(None)), CursorAction::Nothing));
    assert!(matches!(on_cursor(Err(CursorMetaError::Absent)), CursorAction::Nothing));
    assert!(matches!(
        on_cursor(Err(CursorMetaError::MetaTooSmall(3))),
        CursorAction::Warn(CursorMetaError::MetaTooSmall(3))
    ));
}

#[test]
fn a_buffer_becomes_a_frame() {
    let mut pool = FramePool::with_capacity(2);
    let memory: Vec<u8> = (0..64).collect();
    let chunk = Chunk { data_type: SPA_DATA_MEMFD, stride: 16, size: 48, offset: 8 };
    let frame = on_process(&mut pool, (3, 3), &chunk, Some(&memory), 77).expect("a frame");
    assert_eq!((frame.width, frame.height, frame.stride, frame.ts_us), (3, 3, 16, 77));
    assert_eq!(frame.data, memory[..48].to_vec());
    assert_eq!(frame.row(1), &memory[16..28]);
    let plane = Chunk { data_type: SPA_DATA_DMABUF, ..chunk };
    let mapped = on_process(&mut pool, (3, 3), &plane, Some(&memory), 77).expect("a frame");
    assert_eq!(mapped.data, memory[8..56].to_vec());
    pool.recycle(frame.data);
    assert_eq!(pool.len(), 1);
    let empty = Chunk { data_type: SPA_DATA_MEMFD, stride: 16, size: 0, offset: 0 };
    assert!(on_process(&mut pool, (3, 3), &empty, Some(&memory), 78).is_none());
    assert!(on_process(&mut pool, (3, 3), &chunk, None, 79).is_none());
}

#[test]
fn a_stream_uses_the_size_it_knows() {
    let mut stream = PipeWireStream::new();
    let memory: Vec<u8> = (0..64).collect();
    let chunk = Chunk { data_type: SPA_DATA_MEMFD, stride: 16, size: 32, offset: 0 };
    let guess = stream.process(&chunk, Some(&memory), 1).expect("a frame");
    assert_eq!((guess.width, guess.height), (4, 2));
    let pod = Some(format_object(raw_video(VIDEO_FORMAT_BGRA, 3, 3)));
    stream.param_changed(SPA_PARAM_FORMAT, &pod);
    let known = stream.process(&chunk, Some(&memory), 2).expect("a frame");
    assert_eq!((known.width, known.height, known.data.len()), (3, 3, 48));
    assert_eq!(&known.data[..32], &memory[..32]);
    assert!(known.data[32..].iter().all(|b| *b == 0));
    stream.channel_full(known);
    let unknown = Chunk { data_type: 9999, ..chunk };
    assert!(stream.process(&unknown, Some(&memory), 3).is_none());
}

#[test]
fn a_negotiated_format_is_summed_up() {
    let pod = format_object(raw_video(VIDEO_FORMAT_XRGB, 640, 480));
    let (w, h, format) = parse_video_format(&pod).expect("a format");
    assert_eq!((w, h, format), (640, 480, PixelFormat::BGRx));
    assert!(parse_video_format(&Pod::Other).is_err());
}

#[test]
fn stream_errors_show_what_they_hold() {
    assert_eq!(
        PipeWireStreamError::SpawnFailed("x".into()).to_string(),
        "thread spawn failed: x"
    );
    assert_eq!(PipeWireStreamError::Stream("y".into()).to_string(), "stream error: y");
}

// ---- token ----

#[test]
fn missing_file_returns_default() {
    let loaded = token_or_default(TokenRead::Nothing);
    assert_eq!(loaded, PortalSessionToken::default());
    assert!(loaded.token_opt().is_none());
}

#[test]
fn a_kept_token_says_when_it_was_given() {
    let t = PortalSessionToken::with_token(
        "abc123==".into(),
        "GNOME 47.1".into(),
        Some((1_700_000_000, 42)),
    );
    assert_eq!(t.saved_at, "unix:1700000000.000000042");
    let kept = token_or_default(TokenRead::Parsed(t));
    assert_eq!(kept.token_opt(), Some("abc123=="));
    assert_eq!(kept.compositor_hint, "GNOME 47.1");
}

// ---- capturer ----

#[test]
fn the_portal_capturer_is_not_there_yet() {
    fn is_source<C: CaptureSource>() {}
    is_source::<WaylandPortalCapturer>();
    match WaylandPortalCapturer::new() {
        Ok(mut c) => {
            assert_eq!(c.geometry(), (1, 1));
            assert!(matches!(
                c.capture_into(&mut Vec::new()),
                Err(CaptureSourceError::WouldBlock(_))
            ));
        }
        Err(e) => assert_eq!(e.to_string(), "wayland portal capturer not yet implemented"),
    }
}

#[test]
fn a_front_buffer_without_room_stays_in_the_pool() {
    let mut pool = FramePool::with_capacity(2);
    pool.recycle(vec![7u8; 16]);
    pool.recycle(vec![7u8; 1 << 20]);
    let fresh = pool.acquire(4096);
    assert!(fresh.is_empty() && fresh.capacity() >= 4096);
    assert_eq!(pool.len(), 2);
    let taken = pool.acquire(8);
    assert!(taken.is_empty() && taken.capacity() >= 16);
    assert_eq!(pool.len(), 1);
}

#[test]
fn buffers_come_back_cleared_and_in_turn() {
    let mut pool = FramePool::with_capacity(3);
    let mut kept = vec![];
    for (i, size) in [4096usize, 64, 1 << 20].into_iter().enumerate() {
        let buffer = vec![i as u8 + 1; size];
        kept.push((buffer.as_ptr(), buffer.capacity()));
        pool.recycle(buffer);
    }
    for (i, &(at, room)) in kept[..2].iter().enumerate() {
        let reused = pool.acquire(64);
        assert!(reused.is_empty());
        assert_eq!((reused.as_ptr(), reused.capacity()), (at, room));
        assert_eq!(pool.len(), 2 - i);
    }
    let fresh = pool.acquire(64);
    assert!(fresh.is_empty() && fresh.capacity() >= 64);
    assert_ne!(fresh.as_ptr(), kept[2].0);
    assert_eq!(pool.len(), 1);
}
