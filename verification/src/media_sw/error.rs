//! Failures of the software codec path.

use vstd::prelude::*;
use crate::text::{decimal, push_decimal};

verus! {

/// An error of the OpenH264 bindings, carried as it came.
#[verifier::external_type_specification]
#[verifier::external_body]
pub struct ExOpenh264Error(openh264::Error);

/// What can go wrong while converting, encoding or decoding in software.
#[derive(Debug)]
pub enum MediaSwError {
    OpenH264 { context: &'static str, source: openh264::Error },
    InvalidFrame { reason: String },
    NoFrame { hint: &'static str },
    DimensionMismatch { expected_w: u32, expected_h: u32, got_w: u32, got_h: u32 },
    Other(String),
}

/// The text that an OpenH264 error shows.
pub uninterp spec fn openh264_text(err: openh264::Error) -> Seq<char>;

/// The text of an OpenH264 error: its `Display` through `ToString::to_string`. It
/// spells out what the error holds (a native code, a decoding state, a message) and
/// nothing else, so it has a name.
#[verifier::external_body]
fn openh264_error_text(err: &openh264::Error) -> (text: String)
    ensures
        text@ == openh264_text(*err),
{
    err.to_string()
}

impl MediaSwError {
    /// The message of the error, with the text of an OpenH264 error at its end.
    pub open spec fn message(self) -> Seq<char> {
        match self {
            MediaSwError::OpenH264 { context, source } => "openh264: "@ + context@ + ": "@
                + openh264_text(source),
            MediaSwError::InvalidFrame { reason } => "invalid I420 frame: "@ + reason@,
            MediaSwError::NoFrame { hint } => "decoder produced no frame for input ("@ + hint@ + ")"@,
            MediaSwError::DimensionMismatch { expected_w, expected_h, got_w, got_h } => {
                "dimension mismatch: expected "@ + decimal(expected_w as nat) + "x"@ + decimal(
                    expected_h as nat,
                ) + ", got "@ + decimal(got_w as nat) + "x"@ + decimal(got_h as nat)
            },
            MediaSwError::Other(what) => "other: "@ + what@,
        }
    }

    pub fn openh264(context: &'static str, err: openh264::Error) -> (r: Self)
        ensures
            r == (MediaSwError::OpenH264 { context, source: err }),
    {
        MediaSwError::OpenH264 { context, source: err }
    }

    /// The message of the error, with the OpenH264 error's own text at its end.
    pub fn to_string(&self) -> (text: String)
        ensures
            text@ == self.message(),
    {
        match self {
            MediaSwError::OpenH264 { context, source } => {
                let cause: String = openh264_error_text(source);
                let mut text: String = String::from_str("openh264: ");
                text.append(*context);
                text.append(": ");
                text.append(cause.as_str());
                text
            },
            MediaSwError::InvalidFrame { reason } => {
                let mut text: String = String::from_str("invalid I420 frame: ");
                text.append(reason.as_str());
                text
            },
            MediaSwError::NoFrame { hint } => {
                let mut text: String = String::from_str("decoder produced no frame for input (");
                text.append(*hint);
                text.append(")");
                text
            },
            MediaSwError::DimensionMismatch { expected_w, expected_h, got_w, got_h } => {
                let mut text: String = String::from_str("dimension mismatch: expected ");
                push_decimal(&mut text, *expected_w as u64);
                text.append("x");
                push_decimal(&mut text, *expected_h as u64);
                text.append(", got ");
                push_decimal(&mut text, *got_w as u64);
                text.append("x");
                push_decimal(&mut text, *got_h as u64);
                text
            },
            MediaSwError::Other(what) => {
                let mut text: String = String::from_str("other: ");
                text.append(what.as_str());
                text
            },
        }
    }
}

} // verus!
