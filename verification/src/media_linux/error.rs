//! Failures of the Linux media paths, and what they mean to the callers on other
//! platforms.

use vstd::prelude::*;
use crate::media_core::{CaptureError, DecodeError, EncodeError};
use crate::media_sw::error::MediaSwError;
use crate::text::{decimal, push_decimal};

verus! {

/// Failures of the VAAPI encoder.
#[derive(Debug)]
pub enum VaapiError {
    HardwareBusy { attempts: u32 },
    Bitstream(String),
    DisplayOpen(String),
    Closed,
}

impl VaapiError {
    pub open spec fn message(self) -> Seq<char> {
        match self {
            VaapiError::HardwareBusy { attempts } => "hardware busy after "@ + decimal(
                attempts as nat,
            ) + " attempts"@,
            VaapiError::Bitstream(why) => "bitstream: "@ + why@,
            VaapiError::DisplayOpen(why) => "display open: "@ + why@,
            VaapiError::Closed => "encoder closed"@,
        }
    }

    pub fn to_string(&self) -> (r: String)
        ensures
            r@ == self.message(),
    {
        match self {
            VaapiError::HardwareBusy { attempts } => {
                let mut r: String = String::from_str("hardware busy after ");
                push_decimal(&mut r, *attempts as u64);
                r.append(" attempts");
                r
            },
            VaapiError::Bitstream(why) => {
                let mut r: String = String::from_str("bitstream: ");
                r.append(why.as_str());
                r
            },
            VaapiError::DisplayOpen(why) => {
                let mut r: String = String::from_str("display open: ");
                r.append(why.as_str());
                r
            },
            VaapiError::Closed => String::from_str("encoder closed"),
        }
    }
}

#[derive(Debug)]
pub enum LinuxMediaError {
    X11Connect(String),
    ShmUnavailable,
    XGetImageFailed,
    Openh264(MediaSwError),
    Vaapi(VaapiError),
    InvalidDimensions(u32, u32),
}

impl LinuxMediaError {
    /// The message of the error.
    pub open spec fn message(self) -> Seq<char> {
        match self {
            LinuxMediaError::X11Connect(why) => "X11 connection failed: "@ + why@,
            LinuxMediaError::ShmUnavailable => "MIT-SHM extension unavailable"@,
            LinuxMediaError::XGetImageFailed => "XGetImage failed for root window"@,
            LinuxMediaError::Openh264(e) => "openh264 backend error: "@ + e.message(),
            LinuxMediaError::Vaapi(e) => "vaapi backend error: "@ + e.message(),
            LinuxMediaError::InvalidDimensions(w, h) => "invalid frame dimensions: "@ + decimal(
                w as nat,
            ) + "x"@ + decimal(h as nat),
        }
    }

    pub fn to_string(&self) -> (r: String)
        ensures
            r@ == self.message(),
    {
        match self {
            LinuxMediaError::X11Connect(why) => {
                let mut r: String = String::from_str("X11 connection failed: ");
                r.append(why.as_str());
                r
            },
            LinuxMediaError::ShmUnavailable => {
                let r: String = String::from_str("MIT-SHM extension unavailable");
                r
            },
            LinuxMediaError::XGetImageFailed => {
                let r: String = String::from_str("XGetImage failed for root window");
                r
            },
            LinuxMediaError::Openh264(e) => {
                let mut r: String = String::from_str("openh264 backend error: ");
                r.append(e.to_string().as_str());
                r
            },
            LinuxMediaError::Vaapi(e) => {
                let mut r: String = String::from_str("vaapi backend error: ");
                r.append(e.to_string().as_str());
                r
            },
            LinuxMediaError::InvalidDimensions(w, h) => {
                let mut r: String = String::from_str("invalid frame dimensions: ");
                push_decimal(&mut r, *w as u64);
                r.append("x");
                push_decimal(&mut r, *h as u64);
                r
            },
        }
    }

    /// The failure as a capturer reports it.
    pub fn to_capture_error(&self) -> (r: CaptureError)
        ensures
            r matches CaptureError::Backend(text) && text@ == self.message(),
    {
        CaptureError::Backend(self.to_string())
    }

    /// The failure as an encoder reports it: wrong dimensions are a mismatch of
    /// formats, all else is the backend's.
    pub fn to_encode_error(&self) -> (r: EncodeError)
        ensures
            if self is InvalidDimensions {
                r matches EncodeError::FormatMismatch(text) && text@ == self.message()
            } else {
                r matches EncodeError::Backend(text) && text@ == self.message()
            },
    {
        match self {
            LinuxMediaError::InvalidDimensions(_, _) => EncodeError::FormatMismatch(
                self.to_string(),
            ),
            _ => EncodeError::Backend(self.to_string()),
        }
    }

    /// The failure as a decoder reports it.
    pub fn to_decode_error(&self) -> (r: DecodeError)
        ensures
            r matches DecodeError::Backend(text) && text@ == self.message(),
    {
        DecodeError::Backend(self.to_string())
    }
}

/// Only a frame of the wrong size is a mismatch of formats; every other failure is the
/// backend's.
pub proof fn law_wrong_sizes_are_mismatches(e: LinuxMediaError, r: EncodeError)
    requires
        call_ensures(LinuxMediaError::to_encode_error, (&e,), r),
    ensures
        r is FormatMismatch <==> e is InvalidDimensions,
        r is FormatMismatch || r is Backend,
{
}

} // verus!
