//! Offering and reading video formats: the object that lists what this side
//! accepts, and the object in which the compositor says what it picked.

use vstd::prelude::*;
use crate::media_linux::wayland_portal::pod_builder::{
    choice_pod, id_pod, law_choices_read_back, law_lists_read_back, law_numbers_read_back,
    law_objects_read_back, law_pairs_read_back, law_pods_are_aligned, law_properties_read_back,
    law_words_read_back, le32, object_pod, padding, pair, pod, property, word_at, words, ObjectStart, PodBuilder, CHOICE_FLAGS,
    SPA_CHOICE_ENUM, SPA_CHOICE_RANGE, SPA_TYPE_CHOICE, SPA_TYPE_FRACTION, SPA_TYPE_ID,
    SPA_TYPE_OBJECT, SPA_TYPE_RECTANGLE,
};
use crate::text::{decimal, push_decimal};

verus! {

/// The modifier of a buffer without tiling.
pub const DRM_FORMAT_MOD_LINEAR: i64 = 0;

/// The modifier of a buffer whose layout is not given.
pub const DRM_FORMAT_MOD_INVALID: i64 = -1;

/// The type of a format object.
pub const SPA_TYPE_OBJECT_FORMAT: u32 = 0x4_0003;

pub const SPA_PARAM_ENUM_FORMAT: u32 = 3;

pub const SPA_PARAM_FORMAT: u32 = 4;

pub const SPA_PARAM_BUFFERS: u32 = 5;

pub const SPA_FORMAT_MEDIA_TYPE: u32 = 1;

pub const SPA_FORMAT_MEDIA_SUBTYPE: u32 = 2;

pub const SPA_FORMAT_VIDEO_FORMAT: u32 = 0x2_0001;

pub const SPA_FORMAT_VIDEO_MODIFIER: u32 = 0x2_0002;

pub const SPA_FORMAT_VIDEO_SIZE: u32 = 0x2_0003;

pub const SPA_FORMAT_VIDEO_FRAMERATE: u32 = 0x2_0004;

pub const SPA_MEDIA_TYPE_AUDIO: u32 = 1;

pub const SPA_MEDIA_TYPE_VIDEO: u32 = 2;

pub const SPA_MEDIA_SUBTYPE_RAW: u32 = 1;

pub const VIDEO_FORMAT_RGBX: u32 = 7;

pub const VIDEO_FORMAT_BGRX: u32 = 8;

pub const VIDEO_FORMAT_XRGB: u32 = 9;

pub const VIDEO_FORMAT_XBGR: u32 = 10;

pub const VIDEO_FORMAT_RGBA: u32 = 11;

pub const VIDEO_FORMAT_BGRA: u32 = 12;

pub const VIDEO_FORMAT_ARGB: u32 = 13;

pub const VIDEO_FORMAT_ABGR: u32 = 14;

pub const VIDEO_FORMAT_NV12: u32 = 23;

/// The pixel layouts that the pipeline tells apart.
#[derive(Debug, Clone, Copy, PartialEq, Eq, Structural)]
pub enum PixelFormat {
    BGRA,
    BGRx,
}

/// A width and a height.
#[derive(Debug, Clone, Copy, PartialEq, Eq, Structural)]
pub struct Rectangle {
    pub width: u32,
    pub height: u32,
}

/// A rate as a quotient.
#[derive(Debug, Clone, Copy, PartialEq, Eq, Structural)]
pub struct Fraction {
    pub num: u32,
    pub denom: u32,
}

/// A single value of a property; what a format never uses is `Other`.
#[derive(Debug, Clone, Copy, PartialEq, Eq, Structural)]
pub enum PodScalar {
    Id(u32),
    Int(i32),
    Long(i64),
    Rectangle(Rectangle),
    Fraction(Fraction),
    Other,
}

/// How a choice offers its values.
#[derive(Debug, Clone, Copy, PartialEq, Eq, Structural)]
pub enum ChoiceKind {
    Fixed,
    Range,
    Step,
    Enum,
    Flags,
}

/// The value of a property: one value, or a choice with a default.
#[derive(Debug, Clone)]
pub enum PodValue {
    Scalar(PodScalar),
    Choice { kind: ChoiceKind, default: PodScalar, alternatives: Vec<PodScalar> },
}

#[derive(Debug, Clone)]
pub struct PodProperty {
    pub key: u32,
    pub flags: u32,
    pub value: PodValue,
}

/// A decoded object: its type, its id and its properties in order.
#[derive(Debug, Clone)]
pub struct PodObject {
    pub type_: u32,
    pub id: u32,
    pub properties: Vec<PodProperty>,
}

/// What a format parameter decodes to.
#[derive(Debug, Clone)]
pub enum Pod {
    Object(PodObject),
    /// Some other pod, or bytes that are no pod.
    Other,
}

/// The pods handed to the stream, one after the other.
pub struct BuiltParams {
    pub bytes: Vec<Vec<u8>>,
}

/// What the compositor picked.
#[derive(Debug, Clone, Copy, PartialEq, Eq, Structural)]
pub struct NegotiatedFormat {
    pub width: u32,
    pub height: u32,
    pub format: PixelFormat,
    pub framerate: Option<Fraction>,
    pub modifier: Option<i64>,
}

/// Why a format parameter is not accepted.
#[derive(Debug, Clone, Copy, PartialEq, Eq, Structural)]
pub enum ParseError {
    NotObject,
    WrongType(u32),
    NotVideo,
    NotRaw,
    UnsupportedFormat(u32),
    MissingSize,
}

impl ParseError {
    pub open spec fn message(self) -> Seq<char> {
        match self {
            ParseError::NotObject => "pod is not an Object"@,
            ParseError::WrongType(t) => "pod type is not ParamFormat (got raw type "@ + decimal(
                t as nat,
            ) + ")"@,
            ParseError::NotVideo => "MediaType is not Video"@,
            ParseError::NotRaw => "MediaSubtype is not Raw"@,
            ParseError::UnsupportedFormat(id) => "VideoFormat is not BGRA/BGRx (got id="@ + decimal(
                id as nat,
            ) + ")"@,
            ParseError::MissingSize => "VideoSize missing"@,
        }
    }

    pub fn to_string(&self) -> (r: String)
        ensures
            r@ == self.message(),
    {
        match *self {
            ParseError::NotObject => String::from_str("pod is not an Object"),
            ParseError::WrongType(t) => {
                let mut r: String = String::from_str(
                    "pod type is not ParamFormat (got raw type ",
                );
                push_decimal(&mut r, t as u64);
                r.append(")");
                r
            },
            ParseError::NotVideo => String::from_str("MediaType is not Video"),
            ParseError::NotRaw => String::from_str("MediaSubtype is not Raw"),
            ParseError::UnsupportedFormat(id) => {
                let mut r: String = String::from_str("VideoFormat is not BGRA/BGRx (got id=");
                push_decimal(&mut r, id as u64);
                r.append(")");
                r
            },
            ParseError::MissingSize => String::from_str("VideoSize missing"),
        }
    }
}

/// The 32-bit layouts on offer, the preferred one first.
pub open spec fn offered_formats() -> Seq<u32> {
    seq![
        VIDEO_FORMAT_BGRA,
        VIDEO_FORMAT_BGRX,
        VIDEO_FORMAT_RGBA,
        VIDEO_FORMAT_RGBX,
        VIDEO_FORMAT_ARGB,
        VIDEO_FORMAT_ABGR,
        VIDEO_FORMAT_XRGB,
        VIDEO_FORMAT_XBGR,
    ]
}

/// The property that offers the pixel layouts.
pub open spec fn format_property() -> Seq<u8> {
    property(
        SPA_FORMAT_VIDEO_FORMAT,
        CHOICE_FLAGS,
        choice_pod(
            SPA_CHOICE_ENUM,
            4,
            SPA_TYPE_ID,
            le32(VIDEO_FORMAT_BGRA) + words(offered_formats()),
        ),
    )
}

/// The property that bounds the picture's size.
pub open spec fn size_property() -> Seq<u8> {
    property(
        SPA_FORMAT_VIDEO_SIZE,
        CHOICE_FLAGS,
        choice_pod(
            SPA_CHOICE_RANGE,
            8,
            SPA_TYPE_RECTANGLE,
            pair((1920, 1080)) + pair((320, 240)) + pair((7680, 4320)),
        ),
    )
}

/// The property that bounds the frame rate.
pub open spec fn framerate_property() -> Seq<u8> {
    property(
        SPA_FORMAT_VIDEO_FRAMERATE,
        CHOICE_FLAGS,
        choice_pod(
            SPA_CHOICE_RANGE,
            8,
            SPA_TYPE_FRACTION,
            pair((60, 1)) + pair((15, 1)) + pair((60, 1)),
        ),
    )
}

/// Everything on offer: raw video in one of the layouts, from 320x240 to
/// 7680x4320 at 15 to 60 frames a second. Every choice is mandatory and open to
/// the compositor; no modifier is named.
pub open spec fn offered_properties() -> Seq<u8> {
    property(SPA_FORMAT_MEDIA_TYPE, 0, id_pod(SPA_MEDIA_TYPE_VIDEO)) + property(
        SPA_FORMAT_MEDIA_SUBTYPE,
        0,
        id_pod(SPA_MEDIA_SUBTYPE_RAW),
    ) + format_property() + size_property() + framerate_property()
}

proof fn lemma_words_len(vs: Seq<u32>)
    ensures
        words(vs).len() == 4 * vs.len(),
    decreases vs.len(),
{
    if vs.len() > 0 {
        lemma_words_len(vs.drop_last());
    }
}

/// Builds the one object that offers the accepted formats.
pub fn build() -> (r: BuiltParams)
    ensures
        r.bytes@.len() == 1,
        r.bytes@[0]@ == object_pod(
            SPA_TYPE_OBJECT_FORMAT,
            SPA_PARAM_ENUM_FORMAT,
            offered_properties(),
        ),
{
    let mut b: PodBuilder = PodBuilder::new();
    let start: ObjectStart = b.push_object(SPA_TYPE_OBJECT_FORMAT, SPA_PARAM_ENUM_FORMAT);
    b.add_id_property(SPA_FORMAT_MEDIA_TYPE, SPA_MEDIA_TYPE_VIDEO);
    b.add_id_property(SPA_FORMAT_MEDIA_SUBTYPE, SPA_MEDIA_SUBTYPE_RAW);
    let formats: [u32; 8] = [
        VIDEO_FORMAT_BGRA,
        VIDEO_FORMAT_BGRX,
        VIDEO_FORMAT_RGBA,
        VIDEO_FORMAT_RGBX,
        VIDEO_FORMAT_ARGB,
        VIDEO_FORMAT_ABGR,
        VIDEO_FORMAT_XRGB,
        VIDEO_FORMAT_XBGR,
    ];
    assert(formats@ =~= offered_formats());
    b.add_choice_id_enum(SPA_FORMAT_VIDEO_FORMAT, VIDEO_FORMAT_BGRA, &formats);
    b.add_choice_rectangle_range(SPA_FORMAT_VIDEO_SIZE, (1920, 1080), (320, 240), (7680, 4320));
    b.add_choice_fraction_range(SPA_FORMAT_VIDEO_FRAMERATE, (60, 1), (15, 1), (60, 1));
    let ghost header = le32(0) + le32(SPA_TYPE_OBJECT) + le32(SPA_TYPE_OBJECT_FORMAT) + le32(
        SPA_PARAM_ENUM_FORMAT,
    );
    let ghost body = le32(SPA_TYPE_OBJECT_FORMAT) + le32(SPA_PARAM_ENUM_FORMAT)
        + offered_properties();
    proof {
        lemma_words_len(offered_formats());
        assert(b@ =~= header + offered_properties());
        assert(body.len() == b@.len() - 8);
    }
    let ghost open = b@;
    b.pop_object(start);
    proof {
        assert(open.take(0) =~= Seq::<u8>::empty());
        assert(open.skip(4) =~= le32(SPA_TYPE_OBJECT) + body);
        assert(b@ =~= pod(SPA_TYPE_OBJECT, body));
    }
    let mut bytes: Vec<Vec<u8>> = Vec::new();
    bytes.push(b.finish());
    BuiltParams { bytes }
}

/// The value that a property carries: its own, or its choice's default.
pub open spec fn default_value(v: PodValue) -> PodScalar {
    match v {
        PodValue::Scalar(s) => s,
        PodValue::Choice { kind, default, alternatives } => default,
    }
}

fn unwrap_choice_default(v: &PodValue) -> (r: PodScalar)
    ensures
        r == default_value(*v),
{
    match v {
        PodValue::Scalar(s) => *s,
        PodValue::Choice { kind, default, alternatives } => *default,
    }
}

/// The last id that stands under a key.
pub open spec fn last_id(props: Seq<PodProperty>, key: u32) -> Option<u32>
    decreases props.len(),
{
    if props.len() == 0 {
        None
    } else {
        match default_value(props.last().value) {
            PodScalar::Id(id) if props.last().key == key => Some(id),
            _ => last_id(props.drop_last(), key),
        }
    }
}

/// The last rectangle that stands under a key.
pub open spec fn last_rectangle(props: Seq<PodProperty>, key: u32) -> Option<Rectangle>
    decreases props.len(),
{
    if props.len() == 0 {
        None
    } else {
        match default_value(props.last().value) {
            PodScalar::Rectangle(r) if props.last().key == key => Some(r),
            _ => last_rectangle(props.drop_last(), key),
        }
    }
}

/// The last fraction that stands under a key.
pub open spec fn last_fraction(props: Seq<PodProperty>, key: u32) -> Option<Fraction>
    decreases props.len(),
{
    if props.len() == 0 {
        None
    } else {
        match default_value(props.last().value) {
            PodScalar::Fraction(f) if props.last().key == key => Some(f),
            _ => last_fraction(props.drop_last(), key),
        }
    }
}

/// The last long integer that stands under a key.
pub open spec fn last_long(props: Seq<PodProperty>, key: u32) -> Option<i64>
    decreases props.len(),
{
    if props.len() == 0 {
        None
    } else {
        match default_value(props.last().value) {
            PodScalar::Long(m) if props.last().key == key => Some(m),
            _ => last_long(props.drop_last(), key),
        }
    }
}

/// The layout that a video format's id stands for: those with an alpha channel
/// count as BGRA, those without as BGRx.
pub open spec fn pixel_format(id: u32) -> Option<PixelFormat> {
    if id == VIDEO_FORMAT_BGRA || id == VIDEO_FORMAT_RGBA || id == VIDEO_FORMAT_ARGB || id
        == VIDEO_FORMAT_ABGR {
        Some(PixelFormat::BGRA)
    } else if id == VIDEO_FORMAT_BGRX || id == VIDEO_FORMAT_RGBX || id == VIDEO_FORMAT_XRGB || id
        == VIDEO_FORMAT_XBGR {
        Some(PixelFormat::BGRx)
    } else {
        None
    }
}

/// What a format parameter says.
pub open spec fn negotiated(p: Pod) -> Result<NegotiatedFormat, ParseError> {
    match p {
        Pod::Other => Err(ParseError::NotObject),
        Pod::Object(obj) => {
            let props = obj.properties@;
            let fmt = last_id(props, SPA_FORMAT_VIDEO_FORMAT);
            let size = last_rectangle(props, SPA_FORMAT_VIDEO_SIZE);
            if obj.type_ != SPA_TYPE_OBJECT_FORMAT {
                Err(ParseError::WrongType(obj.type_))
            } else if last_id(props, SPA_FORMAT_MEDIA_TYPE) != Some(SPA_MEDIA_TYPE_VIDEO) {
                Err(ParseError::NotVideo)
            } else if last_id(props, SPA_FORMAT_MEDIA_SUBTYPE) != Some(SPA_MEDIA_SUBTYPE_RAW) {
                Err(ParseError::NotRaw)
            } else if fmt is None {
                Err(ParseError::UnsupportedFormat(0))
            } else if pixel_format(fmt->0) is None {
                Err(ParseError::UnsupportedFormat(fmt->0))
            } else if size is None {
                Err(ParseError::MissingSize)
            } else {
                Ok(
                    NegotiatedFormat {
                        width: size->0.width,
                        height: size->0.height,
                        format: pixel_format(fmt->0)->0,
                        framerate: last_fraction(props, SPA_FORMAT_VIDEO_FRAMERATE),
                        modifier: last_long(props, SPA_FORMAT_VIDEO_MODIFIER),
                    },
                )
            }
        },
    }
}

/// Reads the format that the compositor picked. A property that is a choice
/// counts as its default.
pub fn parse(p: &Pod) -> (r: Result<NegotiatedFormat, ParseError>)
    ensures
        r == negotiated(*p),
{
    let obj: &PodObject = match p {
        Pod::Object(o) => o,
        Pod::Other => {
            return Err(ParseError::NotObject);
        },
    };
    if obj.type_ != SPA_TYPE_OBJECT_FORMAT {
        return Err(ParseError::WrongType(obj.type_));
    }
    let mut media_type: Option<u32> = None;
    let mut media_subtype: Option<u32> = None;
    let mut video_format: Option<u32> = None;
    let mut size: Option<Rectangle> = None;
    let mut framerate: Option<Fraction> = None;
    let mut modifier: Option<i64> = None;
    let mut i: usize = 0;
    let ghost all = obj.properties@;
    while i < obj.properties.len()
        invariant
            all == obj.properties@,
            i <= all.len(),
            media_type == last_id(all.take(i as int), SPA_FORMAT_MEDIA_TYPE),
            media_subtype == last_id(all.take(i as int), SPA_FORMAT_MEDIA_SUBTYPE),
            video_format == last_id(all.take(i as int), SPA_FORMAT_VIDEO_FORMAT),
            size == last_rectangle(all.take(i as int), SPA_FORMAT_VIDEO_SIZE),
            framerate == last_fraction(all.take(i as int), SPA_FORMAT_VIDEO_FRAMERATE),
            modifier == last_long(all.take(i as int), SPA_FORMAT_VIDEO_MODIFIER),
        decreases all.len() - i,
    {
        let prop: &PodProperty = &obj.properties[i];
        let key: u32 = prop.key;
        let v: PodScalar = unwrap_choice_default(&prop.value);
        proof {
            assert(all.take(i + 1).drop_last() =~= all.take(i as int));
            assert(all.take(i + 1).last() == all[i as int]);
        }
        match v {
            PodScalar::Id(id) => {
                if key == SPA_FORMAT_MEDIA_TYPE {
                    media_type = Some(id);
                } else if key == SPA_FORMAT_MEDIA_SUBTYPE {
                    media_subtype = Some(id);
                } else if key == SPA_FORMAT_VIDEO_FORMAT {
                    video_format = Some(id);
                }
            },
            PodScalar::Rectangle(rect) => {
                if key == SPA_FORMAT_VIDEO_SIZE {
                    size = Some(rect);
                }
            },
            PodScalar::Fraction(f) => {
                if key == SPA_FORMAT_VIDEO_FRAMERATE {
                    framerate = Some(f);
                }
            },
            PodScalar::Long(m) => {
                if key == SPA_FORMAT_VIDEO_MODIFIER {
                    modifier = Some(m);
                }
            },
            _ => {},
        }
        i += 1;
    }
    assert(all.take(i as int) =~= all);
    match media_type {
        Some(t) => {
            if t != SPA_MEDIA_TYPE_VIDEO {
                return Err(ParseError::NotVideo);
            }
        },
        None => {
            return Err(ParseError::NotVideo);
        },
    }
    match media_subtype {
        Some(t) => {
            if t != SPA_MEDIA_SUBTYPE_RAW {
                return Err(ParseError::NotRaw);
            }
        },
        None => {
            return Err(ParseError::NotRaw);
        },
    }
    let id: u32 = match video_format {
        Some(id) => id,
        None => {
            return Err(ParseError::UnsupportedFormat(0));
        },
    };
    let format: PixelFormat = if id == VIDEO_FORMAT_BGRA || id == VIDEO_FORMAT_RGBA || id
        == VIDEO_FORMAT_ARGB || id == VIDEO_FORMAT_ABGR {
        PixelFormat::BGRA
    } else if id == VIDEO_FORMAT_BGRX || id == VIDEO_FORMAT_RGBX || id == VIDEO_FORMAT_XRGB || id
        == VIDEO_FORMAT_XBGR {
        PixelFormat::BGRx
    } else {
        return Err(ParseError::UnsupportedFormat(id));
    };
    let rect: Rectangle = match size {
        Some(rect) => rect,
        None => {
            return Err(ParseError::MissingSize);
        },
    };
    Ok(NegotiatedFormat { width: rect.width, height: rect.height, format, framerate, modifier })
}

/// Every layout on offer is one that `parse` accepts when the compositor picks it.
pub proof fn law_offered_formats_are_accepted(i: int)
    requires
        0 <= i < offered_formats().len(),
    ensures
        pixel_format(offered_formats()[i]) is Some,
{
}

/// The offer is one pod of a multiple of eight bytes.
pub proof fn law_offer_is_aligned()
    ensures
        object_pod(SPA_TYPE_OBJECT_FORMAT, SPA_PARAM_ENUM_FORMAT, offered_properties()).len() % 8
            == 0,
{
    law_pods_are_aligned(
        SPA_TYPE_OBJECT,
        le32(SPA_TYPE_OBJECT_FORMAT) + le32(SPA_PARAM_ENUM_FORMAT) + offered_properties(),
    );
}

/// The property at `i` is the last with its key.
pub open spec fn last_with_key(props: Seq<PodProperty>, key: u32, i: int) -> bool {
    &&& 0 <= i < props.len()
    &&& props[i].key == key
    &&& forall|j: int| i < j < props.len() ==> (#[trigger] props[j]).key != key
}

/// The value counts as this one: it is it, or a choice with it as its default.
pub open spec fn counts_as(v: PodValue, s: PodScalar) -> bool {
    v == PodValue::Scalar(s) || (v matches PodValue::Choice { kind, default, alternatives }
        && default == s)
}

proof fn lemma_last_values(props: Seq<PodProperty>, key: u32, i: int)
    requires
        last_with_key(props, key, i),
    ensures
        default_value(props[i].value) matches PodScalar::Id(id) ==> last_id(props, key) == Some(id),
        default_value(props[i].value) matches PodScalar::Rectangle(r) ==> last_rectangle(props, key)
            == Some(r),
        default_value(props[i].value) matches PodScalar::Fraction(f) ==> last_fraction(props, key)
            == Some(f),
        default_value(props[i].value) matches PodScalar::Long(m) ==> last_long(props, key) == Some(
            m,
        ),
    decreases props.len(),
{
    if i < props.len() - 1 {
        let front = props.drop_last();
        assert(front[i] == props[i]);
        assert forall|j: int| i < j < front.len() implies (#[trigger] front[j]).key != key by {
            assert(front[j] == props[j]);
        }
        lemma_last_values(front, key, i);
        assert(props[props.len() - 1].key != key);
    }
}

proof fn lemma_no_value(props: Seq<PodProperty>, key: u32)
    requires
        forall|j: int| 0 <= j < props.len() ==> (#[trigger] props[j]).key != key,
    ensures
        last_id(props, key) is None,
        last_rectangle(props, key) is None,
        last_fraction(props, key) is None,
        last_long(props, key) is None,
    decreases props.len(),
{
    if props.len() > 0 {
        let front = props.drop_last();
        assert forall|j: int| 0 <= j < front.len() implies (#[trigger] front[j]).key != key by {
            assert(front[j] == props[j]);
        }
        lemma_no_value(front, key);
        assert(props[props.len() - 1].key != key);
    }
}

/// A format object (type 0x40003) is read back property by property, wherever they stand:
/// raw video (media type two, subtype one), one of the known layouts (key 0x20001), the
/// size (key 0x20003), and, where they are named, the modifier (key 0x20002) and the
/// frame rate (key 0x20004). Choices count as their defaults.
pub proof fn law_formats_read_back(
    obj: PodObject,
    kind: int,
    subtype: int,
    layout: int,
    size: int,
    id: u32,
    rect: Rectangle,
)
    requires
        obj.type_ == 0x4_0003,
        last_with_key(obj.properties@, 1, kind),
        counts_as(obj.properties@[kind].value, PodScalar::Id(2)),
        last_with_key(obj.properties@, 2, subtype),
        counts_as(obj.properties@[subtype].value, PodScalar::Id(1)),
        last_with_key(obj.properties@, 0x2_0001, layout),
        counts_as(obj.properties@[layout].value, PodScalar::Id(id)),
        7 <= id <= 14,
        last_with_key(obj.properties@, 0x2_0003, size),
        counts_as(obj.properties@[size].value, PodScalar::Rectangle(rect)),
    ensures
        negotiated(Pod::Object(obj)) matches Ok(neg) && {
            let props = obj.properties@;
            &&& neg.width == rect.width
            &&& neg.height == rect.height
            &&& 11 <= id <= 14 ==> neg.format == PixelFormat::BGRA
            &&& 7 <= id <= 10 ==> neg.format == PixelFormat::BGRx
            &&& forall|i: int, m: i64|
                #[trigger] last_with_key(props, 0x2_0002, i) && #[trigger] counts_as(
                    props[i].value,
                    PodScalar::Long(m),
                ) ==> neg.modifier == Some(m)
            &&& forall|i: int, f: Fraction|
                #[trigger] last_with_key(props, 0x2_0004, i) && #[trigger] counts_as(
                    props[i].value,
                    PodScalar::Fraction(f),
                ) ==> neg.framerate == Some(f)
            &&& (forall|i: int| 0 <= i < props.len() ==> (#[trigger] props[i]).key != 0x2_0002)
                ==> neg.modifier is None
            &&& (forall|i: int| 0 <= i < props.len() ==> (#[trigger] props[i]).key != 0x2_0004)
                ==> neg.framerate is None
        },
{
    let props = obj.properties@;
    lemma_last_values(props, 1, kind);
    lemma_last_values(props, 2, subtype);
    lemma_last_values(props, 0x2_0001, layout);
    lemma_last_values(props, 0x2_0003, size);
    assert forall|i: int, m: i64|
        #[trigger] last_with_key(props, 0x2_0002, i) && #[trigger] counts_as(
            props[i].value,
            PodScalar::Long(m),
        ) implies last_long(props, 0x2_0002) == Some(m) by {
        lemma_last_values(props, 0x2_0002, i);
    }
    assert forall|i: int, f: Fraction|
        #[trigger] last_with_key(props, 0x2_0004, i) && #[trigger] counts_as(
            props[i].value,
            PodScalar::Fraction(f),
        ) implies last_fraction(props, 0x2_0004) == Some(f) by {
        lemma_last_values(props, 0x2_0004, i);
    }
    if forall|i: int| 0 <= i < props.len() ==> (#[trigger] props[i]).key != 0x2_0002 {
        lemma_no_value(props, 0x2_0002);
    }
    if forall|i: int| 0 <= i < props.len() ==> (#[trigger] props[i]).key != 0x2_0004 {
        lemma_no_value(props, 0x2_0004);
    }
}

/// The layouts that are accepted are the eight with four bytes to a pixel, numbers seven
/// to fourteen; the latter four have an alpha channel.
pub proof fn law_which_layouts_are_accepted(id: u32)
    ensures
        pixel_format(id) == if 7 <= id <= 10 {
            Some(PixelFormat::BGRx)
        } else if 11 <= id <= 14 {
            Some(PixelFormat::BGRA)
        } else {
            None
        },
        offered_formats().contains(id) <==> 7 <= id <= 14,
        offered_formats()[0] == 12,
{
    let all = offered_formats();
    if 7 <= id <= 14 {
        let k: int = if id == 12 {
            0
        } else if id == 8 {
            1
        } else if id == 11 {
            2
        } else if id == 7 {
            3
        } else if id == 13 {
            4
        } else if id == 14 {
            5
        } else if id == 9 {
            6
        } else {
            7
        };
        assert(all[k] == id);
    }
}

/// What lacks one of the properties that a format must have is refused, and so is what
/// is no format object, no video, not raw, or of another layout.
pub proof fn law_what_is_no_format_is_refused(p: Pod)
    ensures
        negotiated(p) is Ok ==> (p matches Pod::Object(obj) && obj.type_ == 0x4_0003 && last_id(
            obj.properties@,
            1,
        ) == Some(2u32) && last_id(obj.properties@, 2) == Some(1u32) && last_rectangle(
            obj.properties@,
            0x2_0003,
        ) is Some && (last_id(obj.properties@, 0x2_0001) matches Some(id) && 7 <= id <= 14)),
{
}

proof fn lemma_word_of_part(all: Seq<u8>, from: int, part: Seq<u8>, at: int)
    requires
        0 <= from,
        from + part.len() <= all.len(),
        all.subrange(from, from + part.len() as int) == part,
        0 <= at,
        at + 4 <= part.len(),
    ensures
        word_at(all, from + at) == word_at(part, at),
{
    reveal(word_at);
    let sub = all.subrange(from, from + part.len() as int);
    assert(sub[at] == all[from + at] && sub[at + 1] == all[from + at + 1] && sub[at + 2] == all[from
        + at + 2] && sub[at + 3] == all[from + at + 3]);
}

proof fn lemma_three_pairs(a: (u32, u32), b: (u32, u32), c: (u32, u32))
    ensures
        ({
            let p = pair(a) + pair(b) + pair(c);
            &&& p.len() == 24
            &&& word_at(p, 0) == a.0 && word_at(p, 4) == a.1
            &&& word_at(p, 8) == b.0 && word_at(p, 12) == b.1
            &&& word_at(p, 16) == c.0 && word_at(p, 20) == c.1
        }),
{
    let p = pair(a) + pair(b) + pair(c);
    law_pairs_read_back(a.0, a.1);
    law_pairs_read_back(b.0, b.1);
    law_pairs_read_back(c.0, c.1);
    assert(p.subrange(0, 8) =~= pair(a));
    assert(p.subrange(8, 16) =~= pair(b));
    assert(p.subrange(16, 24) =~= pair(c));
    lemma_word_of_part(p, 0, pair(a), 0);
    lemma_word_of_part(p, 0, pair(a), 4);
    lemma_word_of_part(p, 8, pair(b), 0);
    lemma_word_of_part(p, 8, pair(b), 4);
    lemma_word_of_part(p, 16, pair(c), 0);
    lemma_word_of_part(p, 16, pair(c), 4);
}

proof fn lemma_choice_property(
    key: u32,
    kind: u32,
    child_size: u32,
    tag: u32,
    values: Seq<u8>,
    p: Seq<u8>,
)
    requires
        p == property(key, CHOICE_FLAGS, choice_pod(kind, child_size, tag, values)),
        values.len() + 16 <= u32::MAX,
    ensures
        p.len() == 32 + values.len() + padding(values.len() + 16),
        word_at(p, 0) == key,
        word_at(p, 4) == 24,
        word_at(p, 8) == values.len() + 16,
        word_at(p, 12) == 19,
        word_at(p, 16) == kind,
        word_at(p, 24) == child_size,
        word_at(p, 28) == tag,
        p.subrange(32, 32 + values.len() as int) == values,
{
    let choice = choice_pod(kind, child_size, tag, values);
    let n = values.len() as int;
    law_properties_read_back(key, CHOICE_FLAGS, choice);
    law_choices_read_back(kind, child_size, tag, values);
    law_pods_are_aligned(
        SPA_TYPE_CHOICE,
        le32(kind) + le32(0) + le32(child_size) + le32(tag) + values,
    );
    lemma_choice_of_property(key, choice, values, p);
}

proof fn lemma_choice_of_property(key: u32, choice: Seq<u8>, values: Seq<u8>, p: Seq<u8>)
    requires
        p == property(key, CHOICE_FLAGS, choice),
        p.skip(8) == choice,
        choice.len() >= 24 + values.len(),
        choice.subrange(24, 24 + values.len() as int) == values,
    ensures
        p.len() == 8 + choice.len(),
        word_at(p, 8) == word_at(choice, 0),
        word_at(p, 12) == word_at(choice, 4),
        word_at(p, 16) == word_at(choice, 8),
        word_at(p, 24) == word_at(choice, 16),
        word_at(p, 28) == word_at(choice, 20),
        p.subrange(32, 32 + values.len() as int) == values,
{
    let n = values.len() as int;
    assert(p.len() == 8 + choice.len());
    assert(p.subrange(8, 8 + choice.len() as int) =~= choice);
    lemma_word_of_part(p, 8, choice, 0);
    lemma_word_of_part(p, 8, choice, 4);
    lemma_word_of_part(p, 8, choice, 8);
    lemma_word_of_part(p, 8, choice, 16);
    lemma_word_of_part(p, 8, choice, 20);
    assert(p.subrange(32, 32 + n) =~= values) by {
        assert forall|i: int| 0 <= i < n implies p[32 + i] == #[trigger] values[i] by {
            assert(choice.subrange(24, 24 + n)[i] == choice[24 + i]);
            assert(p.skip(8)[24 + i] == p[32 + i]);
        }
    }
}

proof fn lemma_range_property(
    key: u32,
    tag: u32,
    a: (u32, u32),
    b: (u32, u32),
    c: (u32, u32),
    values: Seq<u8>,
    p: Seq<u8>,
)
    requires
        values == pair(a) + pair(b) + pair(c),
        p == property(key, CHOICE_FLAGS, choice_pod(SPA_CHOICE_RANGE, 8, tag, values)),
    ensures
        p.len() == 56,
        word_at(p, 0) == key && word_at(p, 4) == 24,
        word_at(p, 8) == 40 && word_at(p, 12) == 19,
        word_at(p, 16) == 1 && word_at(p, 24) == 8 && word_at(p, 28) == tag,
        word_at(p, 32) == a.0 && word_at(p, 36) == a.1,
        word_at(p, 40) == b.0 && word_at(p, 44) == b.1,
        word_at(p, 48) == c.0 && word_at(p, 52) == c.1,
{
    lemma_three_pairs(a, b, c);
    lemma_choice_property(key, SPA_CHOICE_RANGE, 8, tag, values, p);
    lemma_word_of_part(p, 32, values, 0);
    lemma_word_of_part(p, 32, values, 4);
    lemma_word_of_part(p, 32, values, 8);
    lemma_word_of_part(p, 32, values, 12);
    lemma_word_of_part(p, 32, values, 16);
    lemma_word_of_part(p, 32, values, 20);
}

/// The size on offer (key 0x20003, a rectangle) is a range (kind one) that prefers 1920 by
/// 1080 and reaches from 320 by 240 to 7680 by 4320; the frame rate (key 0x20004, a
/// fraction) prefers sixty a second and reaches from fifteen to sixty. Both are mandatory
/// and left open to the compositor (flags twenty-four).
pub proof fn law_what_sizes_and_rates_are_on_offer()
    ensures
        ({
            let p = size_property();
            &&& p.len() == 56
            &&& word_at(p, 0) == 0x2_0003 && word_at(p, 4) == 24
            &&& word_at(p, 12) == 19 && word_at(p, 16) == 1 && word_at(p, 28) == 10
            &&& word_at(p, 32) == 1920 && word_at(p, 36) == 1080
            &&& word_at(p, 40) == 320 && word_at(p, 44) == 240
            &&& word_at(p, 48) == 7680 && word_at(p, 52) == 4320
        }),
        ({
            let p = framerate_property();
            &&& p.len() == 56
            &&& word_at(p, 0) == 0x2_0004 && word_at(p, 4) == 24
            &&& word_at(p, 12) == 19 && word_at(p, 16) == 1 && word_at(p, 28) == 11
            &&& word_at(p, 32) == 60 && word_at(p, 36) == 1
            &&& word_at(p, 40) == 15 && word_at(p, 44) == 1
            &&& word_at(p, 48) == 60 && word_at(p, 52) == 1
        }),
{
    lemma_range_property(
        SPA_FORMAT_VIDEO_SIZE,
        SPA_TYPE_RECTANGLE,
        (1920, 1080),
        (320, 240),
        (7680, 4320),
        pair((1920, 1080)) + pair((320, 240)) + pair((7680, 4320)),
        size_property(),
    );
    lemma_range_property(
        SPA_FORMAT_VIDEO_FRAMERATE,
        SPA_TYPE_FRACTION,
        (60, 1),
        (15, 1),
        (60, 1),
        pair((60, 1)) + pair((15, 1)) + pair((60, 1)),
        framerate_property(),
    );
}

/// The layout on offer (key 0x20001, an id) is one of a list (kind three) that prefers
/// BGRA (number twelve) and holds every layout that is accepted.
pub proof fn law_what_layouts_are_on_offer(i: int)
    requires
        0 <= i < 8,
    ensures
        ({
            let p = format_property();
            &&& p.len() == 72
            &&& word_at(p, 0) == 0x2_0001 && word_at(p, 4) == 24
            &&& word_at(p, 8) == 52 && word_at(p, 12) == 19
            &&& word_at(p, 16) == 3 && word_at(p, 24) == 4 && word_at(p, 28) == 3
            &&& word_at(p, 32) == 12
            &&& word_at(p, 36 + 4 * i) == offered_formats()[i]
            &&& 7 <= offered_formats()[i] <= 14
        }),
{
    let list = words(offered_formats());
    let values = le32(VIDEO_FORMAT_BGRA) + list;
    let p = format_property();
    lemma_layout_list(list, values, i);
    lemma_choice_property(SPA_FORMAT_VIDEO_FORMAT, SPA_CHOICE_ENUM, 4, SPA_TYPE_ID, values, p);
    lemma_word_of_part(p, 32, values, 0);
    lemma_word_of_part(p, 32, values, 4 + 4 * i);
    law_which_layouts_are_accepted(offered_formats()[i]);
    assert(offered_formats().contains(offered_formats()[i]));
}

proof fn lemma_layout_list(list: Seq<u8>, values: Seq<u8>, i: int)
    requires
        list == words(offered_formats()),
        values == le32(VIDEO_FORMAT_BGRA) + list,
        0 <= i < 8,
    ensures
        values.len() == 36,
        word_at(values, 0) == 12,
        word_at(values, 4 + 4 * i) == offered_formats()[i],
{
    law_lists_read_back(offered_formats(), i);
    law_words_read_back(VIDEO_FORMAT_BGRA);
    assert(values.subrange(0, 4) =~= le32(VIDEO_FORMAT_BGRA));
    assert(values.subrange(4, 36) =~= list);
    lemma_word_of_part(values, 0, le32(VIDEO_FORMAT_BGRA), 0);
    lemma_word_of_part(values, 4, list, 4 * i);
}

/// The offer (a format object, type 0x40003, as parameter three) is for raw video (media
/// type two, subtype one), followed by the layouts, the sizes and the frame rates, and
/// nothing else; no modifier is named.
pub proof fn law_what_is_on_offer(r: BuiltParams)
    requires
        call_ensures(build, (), r),
    ensures
        r.bytes@.len() == 1,
        ({
            let p = r.bytes@[0]@;
            &&& p.len() == 248
            &&& word_at(p, 0) == 240 && word_at(p, 4) == 15
            &&& word_at(p, 8) == 0x4_0003 && word_at(p, 12) == 3
            &&& word_at(p, 16) == 1 && word_at(p, 20) == 0 && word_at(p, 32) == 2
            &&& word_at(p, 40) == 2 && word_at(p, 44) == 0 && word_at(p, 56) == 1
            &&& p.subrange(64, 136) == format_property()
            &&& p.subrange(136, 192) == size_property()
            &&& p.subrange(192, 248) == framerate_property()
        }),
{
    let props = offered_properties();
    let kind = property(SPA_FORMAT_MEDIA_TYPE, 0, id_pod(SPA_MEDIA_TYPE_VIDEO));
    let subtype = property(SPA_FORMAT_MEDIA_SUBTYPE, 0, id_pod(SPA_MEDIA_SUBTYPE_RAW));
    let p = r.bytes@[0]@;
    law_what_sizes_and_rates_are_on_offer();
    law_what_layouts_are_on_offer(0);
    lemma_id_property(SPA_FORMAT_MEDIA_TYPE, SPA_MEDIA_TYPE_VIDEO, kind);
    lemma_id_property(SPA_FORMAT_MEDIA_SUBTYPE, SPA_MEDIA_SUBTYPE_RAW, subtype);
    lemma_five_parts(kind, subtype, format_property(), size_property(), framerate_property(), props);
    law_objects_read_back(SPA_TYPE_OBJECT_FORMAT, SPA_PARAM_ENUM_FORMAT, props);
    law_pods_are_aligned(
        SPA_TYPE_OBJECT,
        le32(SPA_TYPE_OBJECT_FORMAT) + le32(SPA_PARAM_ENUM_FORMAT) + props,
    );
    lemma_parts_of_offer(kind, subtype, props, p);
}

proof fn lemma_id_property(key: u32, id: u32, p: Seq<u8>)
    requires
        p == property(key, 0, id_pod(id)),
    ensures
        p.len() == 24,
        word_at(p, 0) == key,
        word_at(p, 4) == 0,
        word_at(p, 16) == id,
{
    let value = id_pod(id);
    law_numbers_read_back(id, 0);
    law_properties_read_back(key, 0, value);
    law_pods_are_aligned(SPA_TYPE_ID, le32(id));
    assert(p.subrange(8, 24) =~= p.skip(8));
    lemma_word_of_part(p, 8, value, 8);
}

proof fn lemma_five_parts(
    a: Seq<u8>,
    b: Seq<u8>,
    c: Seq<u8>,
    d: Seq<u8>,
    e: Seq<u8>,
    all: Seq<u8>,
)
    requires
        all == a + b + c + d + e,
        a.len() == 24,
        b.len() == 24,
        c.len() == 72,
        d.len() == 56,
        e.len() == 56,
    ensures
        all.len() == 232,
        all.subrange(0, 24) == a,
        all.subrange(24, 48) == b,
        all.subrange(48, 120) == c,
        all.subrange(120, 176) == d,
        all.subrange(176, 232) == e,
{
    assert(all.subrange(0, 24) =~= a);
    assert(all.subrange(24, 48) =~= b);
    assert(all.subrange(48, 120) =~= c);
    assert(all.subrange(120, 176) =~= d);
    assert(all.subrange(176, 232) =~= e);
}

proof fn lemma_parts_of_offer(kind: Seq<u8>, subtype: Seq<u8>, props: Seq<u8>, p: Seq<u8>)
    requires
        p.len() == 248,
        props.len() == 232,
        p.subrange(16, 248) == props,
        kind.len() == 24,
        subtype.len() == 24,
        props.subrange(0, 24) == kind,
        props.subrange(24, 48) == subtype,
    ensures
        word_at(p, 16) == word_at(kind, 0),
        word_at(p, 20) == word_at(kind, 4),
        word_at(p, 32) == word_at(kind, 16),
        word_at(p, 40) == word_at(subtype, 0),
        word_at(p, 44) == word_at(subtype, 4),
        word_at(p, 56) == word_at(subtype, 16),
        p.subrange(64, 136) == props.subrange(48, 120),
        p.subrange(136, 192) == props.subrange(120, 176),
        p.subrange(192, 248) == props.subrange(176, 232),
{
    let all = p.subrange(16, 248);
    assert(p.subrange(16, 40) =~= all.subrange(0, 24));
    assert(p.subrange(40, 64) =~= all.subrange(24, 48));
    assert(p.subrange(64, 136) =~= all.subrange(48, 120));
    assert(p.subrange(136, 192) =~= all.subrange(120, 176));
    assert(p.subrange(192, 248) =~= all.subrange(176, 232));
    lemma_word_of_part(p, 16, kind, 0);
    lemma_word_of_part(p, 16, kind, 4);
    lemma_word_of_part(p, 16, kind, 16);
    lemma_word_of_part(p, 40, subtype, 0);
    lemma_word_of_part(p, 40, subtype, 4);
    lemma_word_of_part(p, 40, subtype, 16);
}

/// What is no object is refused as such, and an object of another type with its type;
/// beyond that, what is missing or wrong is named in this order: the media type, the
/// subtype, the layout, the size.
pub proof fn law_refusals_name_what_is_wrong(p: Pod)
    ensures
        p is Other <==> negotiated(p) == Err::<NegotiatedFormat, ParseError>(ParseError::NotObject),
        p matches Pod::Object(obj) ==> {
            let props = obj.properties@;
            let r = negotiated(p);
            &&& obj.type_ != 0x4_0003 ==> r == Err::<NegotiatedFormat, ParseError>(
                ParseError::WrongType(obj.type_),
            )
            &&& obj.type_ == 0x4_0003 ==> {
                let video = last_id(props, 1) == Some(2u32);
                let raw = last_id(props, 2) == Some(1u32);
                let layout = last_id(props, 0x2_0001);
                &&& !video ==> r == Err::<NegotiatedFormat, ParseError>(ParseError::NotVideo)
                &&& video && !raw ==> r == Err::<NegotiatedFormat, ParseError>(ParseError::NotRaw)
                &&& video && raw && layout is Some && !(7 <= layout->0 <= 14) ==> r == Err::<
                    NegotiatedFormat,
                    ParseError,
                >(ParseError::UnsupportedFormat(layout->0))
                &&& video && raw && layout is Some && 7 <= layout->0 <= 14 && last_rectangle(
                    props,
                    0x2_0003,
                ) is None ==> r == Err::<NegotiatedFormat, ParseError>(ParseError::MissingSize)
            }
        },
{
}

} // verus!
