//! H.264 decoding with OpenH264.

use vstd::prelude::*;
use crate::media_sw::error::MediaSwError;
use crate::media_sw::nv12::{I420Frame, Picture};
use crate::media_sw::traits::SwH264Decoder;

verus! {

/// The decoder of the OpenH264 bindings.
#[verifier::external_type_specification]
#[verifier::external_body]
pub struct ExDecoder(openh264::decoder::Decoder);

/// A decoded picture, copied out of the decoder.
pub struct DecodedPicture {
    pub dimensions: (usize, usize),
    pub strides: (usize, usize, usize),
    pub y: Vec<u8>,
    pub u: Vec<u8>,
    pub v: Vec<u8>,
}

/// What a decoded picture shows.
pub ghost struct DecodedView {
    pub dimensions: (usize, usize),
    pub strides: (usize, usize, usize),
    pub y: Seq<u8>,
    pub u: Seq<u8>,
    pub v: Seq<u8>,
}

impl View for DecodedPicture {
    type V = DecodedView;

    open spec fn view(&self) -> DecodedView {
        DecodedView {
            dimensions: self.dimensions,
            strides: self.strides,
            y: self.y@,
            u: self.u@,
            v: self.v@,
        }
    }
}

/// Whether a decoder, on some machine, can answer a unit so, with the given picture,
/// with none, or with an error, and be left so.
pub uninterp spec fn may_decode(
    before: openh264::decoder::Decoder,
    unit: Seq<u8>,
    answer: Result<Option<DecodedView>, openh264::Error>,
    after: openh264::decoder::Decoder,
) -> bool;

/// An answer, its planes as sequences.
pub open spec fn answer_of(r: Result<Option<DecodedPicture>, openh264::Error>) -> Result<
    Option<DecodedView>,
    openh264::Error,
> {
    match r {
        Ok(Some(p)) => Ok(Some(p@)),
        Ok(None) => Ok(None),
        Err(e) => Err(e),
    }
}

/// The chroma planes have one stride, and each plane is as long as its rows make it
/// wherever native integers can count them.
pub open spec fn consistent(p: DecodedView) -> bool {
    &&& p.strides.1 == p.strides.2
    &&& p.dimensions.1 * p.strides.0 <= i32::MAX ==> p.y.len() == p.dimensions.1 * p.strides.0
    &&& p.dimensions.1 * p.strides.1 <= i32::MAX ==> p.u.len() == p.dimensions.1 * p.strides.1 / 2
    &&& p.u.len() == p.v.len()
}

/// Opens a decoder with `Decoder::with_api_config` and its default
/// configuration. Whether it opens is up to OpenH264.
#[verifier::external_body]
fn open_decoder() -> (r: Result<openh264::decoder::Decoder, openh264::Error>)
{
    openh264::decoder::Decoder::with_api_config(
        openh264::OpenH264API::from_source(),
        openh264::decoder::DecoderConfig::new(),
    )
}

/// Decodes one access unit with `Decoder::decode` and copies the picture out.
/// What comes back rests on all that this decoder decoded before: it is one of this
/// decoder's answers to this unit. The planes of a picture have the length that its
/// height and its strides give.
#[verifier::external_body]
fn decode_picture(decoder: &mut openh264::decoder::Decoder, nal_units: &[u8]) -> (r: Result<
    Option<DecodedPicture>,
    openh264::Error,
>)
    ensures
        may_decode(*old(decoder), nal_units@, answer_of(r), *final(decoder)),
        r matches Ok(Some(p)) ==> consistent(p@),
{
    let picture = decoder.decode(nal_units)?;
    Ok(picture.map(|yuv| DecodedPicture {
        dimensions: openh264::formats::YUVSource::dimensions(&yuv),
        strides: openh264::formats::YUVSource::strides(&yuv),
        y: openh264::formats::YUVSource::y(&yuv).to_vec(),
        u: openh264::formats::YUVSource::u(&yuv).to_vec(),
        v: openh264::formats::YUVSource::v(&yuv).to_vec(),
    }))
}

/// A decoded picture as a frame shows it: its planes as they are, its sizes as
/// words.
pub open spec fn shown(p: DecodedView) -> Picture {
    Picture {
        width: p.dimensions.0 as u32,
        height: p.dimensions.1 as u32,
        stride_y: p.strides.0 as u32,
        stride_uv: p.strides.1 as u32,
        y: p.y,
        u: p.u,
        v: p.v,
    }
}

/// The decoder answered a unit with this frame, or with none.
pub open spec fn decoded_from(
    before: openh264::decoder::Decoder,
    frame: Option<I420Frame>,
    unit: Seq<u8>,
    after: openh264::decoder::Decoder,
) -> bool {
    match frame {
        None => may_decode(before, unit, Ok(None), after),
        Some(f) => exists|p: DecodedView|
            #[trigger] may_decode(before, unit, Ok(Some(p)), after) && consistent(p) && f@
                == shown(p),
    }
}

pub fn frame_of(picture: DecodedPicture) -> (r: I420Frame)
    ensures
        r@ == shown(picture@),
{
    I420Frame {
        width: picture.dimensions.0 as u32,
        height: picture.dimensions.1 as u32,
        y: picture.y,
        u: picture.u,
        v: picture.v,
        stride_y: picture.strides.0 as u32,
        stride_uv: picture.strides.1 as u32,
    }
}

/// An H.264 decoder.
pub struct Openh264Decoder {
    inner: openh264::decoder::Decoder,
}

/// Opening a decoder of the bindings ended so.
pub closed spec fn opened_as(outcome: Result<openh264::decoder::Decoder, openh264::Error>) -> bool {
    call_ensures(open_decoder, (), outcome)
}

impl Openh264Decoder {
    /// The decoder of the bindings inside.
    pub closed spec fn inner(self) -> openh264::decoder::Decoder {
        self.inner
    }

    /// What opening a decoder of the bindings leads to.
    pub open spec fn opened(
        outcome: Result<openh264::decoder::Decoder, openh264::Error>,
        r: Result<Self, MediaSwError>,
    ) -> bool {
        match outcome {
            Ok(inner) => r matches Ok(d) && d.inner() == inner,
            Err(e) => r matches Err(MediaSwError::OpenH264 { context, source }) && context@
                == "Decoder::with_api_config"@ && source == e,
        }
    }

    /// Takes over a decoder of the bindings, if it could be opened.
    pub fn from_opened(outcome: Result<openh264::decoder::Decoder, openh264::Error>) -> (r: Result<
        Self,
        MediaSwError,
    >)
        ensures
            Self::opened(outcome, r),
    {
        match outcome {
            Ok(inner) => Ok(Openh264Decoder { inner }),
            Err(e) => Err(MediaSwError::openh264("Decoder::with_api_config", e)),
        }
    }

    pub fn new() -> (r: Result<Self, MediaSwError>)
        ensures
            exists|outcome: Result<openh264::decoder::Decoder, openh264::Error>|
                #[trigger] opened_as(outcome) && Self::opened(outcome, r),
    {
        let outcome: Result<openh264::decoder::Decoder, openh264::Error> = open_decoder();
        let ghost seen = outcome;
        let r: Result<Self, MediaSwError> = Self::from_opened(outcome);
        assert(opened_as(seen) && Self::opened(seen, r));
        r
    }

    /// What the answer to a unit leads to: a picture is shown as a frame, an error is
    /// passed on.
    pub fn answered(answer: Result<Option<DecodedPicture>, openh264::Error>) -> (r: Result<
        Option<I420Frame>,
        MediaSwError,
    >)
        ensures
            match answer {
                Ok(Some(p)) => r matches Ok(Some(f)) && f@ == shown(p@),
                Ok(None) => r == Ok::<Option<I420Frame>, MediaSwError>(None),
                Err(e) => r matches Err(MediaSwError::OpenH264 { context, source }) && context@
                    == "Decoder::decode"@ && source == e,
            },
    {
        match answer {
            Ok(Some(picture)) => Ok(Some(frame_of(picture))),
            Ok(None) => Ok(None),
            Err(e) => Err(MediaSwError::openh264("Decoder::decode", e)),
        }
    }
}

impl SwH264Decoder for Openh264Decoder {
    fn decode(&mut self, nal_units: &[u8]) -> (r: Result<Option<I420Frame>, MediaSwError>)
        ensures
            r matches Ok(frame) ==> decoded_from(
                old(self).inner(),
                frame,
                nal_units@,
                final(self).inner(),
            ),
            r matches Err(e) ==> e matches MediaSwError::OpenH264 { context, source } && context@
                == "Decoder::decode"@ && may_decode(
                old(self).inner(),
                nal_units@,
                Err(source),
                final(self).inner(),
            ),
    {
        let ghost before = self.inner;
        let answer: Result<Option<DecodedPicture>, openh264::Error> = decode_picture(
            &mut self.inner,
            nal_units,
        );
        assert(may_decode(before, nal_units@, answer_of(answer), self.inner));
        Self::answered(answer)
    }

    fn backend_name(&self) -> (r: &'static str)
        ensures
            r@ == "openh264"@,
    {
        "openh264"
    }
}

/// A decoded picture is shown as it was decoded: its size, its strides, and every sample
/// of its planes at its own place.
pub proof fn law_decoded_pictures_are_shown_unchanged(picture: DecodedPicture, f: I420Frame)
    requires
        call_ensures(frame_of, (picture,), f),
        picture.dimensions.0 <= u32::MAX,
        picture.dimensions.1 <= u32::MAX,
        picture.strides.0 <= u32::MAX,
        picture.strides.1 <= u32::MAX,
    ensures
        f.width == picture.dimensions.0,
        f.height == picture.dimensions.1,
        f.stride_y == picture.strides.0,
        f.stride_uv == picture.strides.1,
        f.y@ == picture.y@,
        f.u@ == picture.u@,
        f.v@ == picture.v@,
{
    assert(f@.y == f.y@ && f@.u == f.u@ && f@.v == f.v@);
    assert(f@.width == f.width && f@.height == f.height);
    assert(f@.stride_y == f.stride_y && f@.stride_uv == f.stride_uv);
}

} // verus!
