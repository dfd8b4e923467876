//! What an encoder backend can do.

use vstd::prelude::*;
use crate::text::{chars_of, same_chars};

verus! {

/// An encoder backend.
#[derive(Debug, Clone, Copy, PartialEq, Eq, Hash, Structural)]
pub enum BackendKind {
    Nvenc,
    MfHevc,
    Openh264,
    Vaapi,
}

/// The text of a string in quotes and with escapes: `format!` with `{:?}`.
pub uninterp spec fn quoted(s: Seq<char>) -> Seq<char>;

/// A string's `Debug` form, as `format!` with `{:?}` writes it.
#[verifier::external_body]
fn quote(s: &str) -> (r: String)
    ensures
        r@ == quoted(s@),
{
    format!("{:?}", s)
}

impl BackendKind {
    /// The identifier in logs and configuration files.
    pub open spec fn name(self) -> Seq<char> {
        match self {
            BackendKind::Nvenc => "nvenc"@,
            BackendKind::MfHevc => "mf-hevc"@,
            BackendKind::Openh264 => "openh264"@,
            BackendKind::Vaapi => "vaapi"@,
        }
    }

    /// The identifier in error messages.
    pub open spec fn label(self) -> Seq<char> {
        match self {
            BackendKind::Nvenc => "Nvenc"@,
            BackendKind::MfHevc => "MfHevc"@,
            BackendKind::Openh264 => "Openh264"@,
            BackendKind::Vaapi => "Vaapi"@,
        }
    }

    /// The backend that an identifier, or the short form `mf`, stands for.
    pub open spec fn named(s: Seq<char>) -> Option<BackendKind> {
        if s == "nvenc"@ {
            Some(BackendKind::Nvenc)
        } else if s == "mf"@ || s == "mf-hevc"@ {
            Some(BackendKind::MfHevc)
        } else if s == "openh264"@ {
            Some(BackendKind::Openh264)
        } else if s == "vaapi"@ {
            Some(BackendKind::Vaapi)
        } else {
            None
        }
    }

    pub fn as_str(self) -> (r: &'static str)
        ensures
            r@ == self.name(),
    {
        match self {
            BackendKind::Nvenc => "nvenc",
            BackendKind::MfHevc => "mf-hevc",
            BackendKind::Openh264 => "openh264",
            BackendKind::Vaapi => "vaapi",
        }
    }

    /// The identifier in error messages.
    pub fn as_label(self) -> (r: &'static str)
        ensures
            r@ == self.label(),
    {
        match self {
            BackendKind::Nvenc => "Nvenc",
            BackendKind::MfHevc => "MfHevc",
            BackendKind::Openh264 => "Openh264",
            BackendKind::Vaapi => "Vaapi",
        }
    }

    /// Reads an identifier; both forms of `MfHevc` are known.
    pub fn parse_name(s: &str) -> (r: Result<BackendKind, String>)
        ensures
            match Self::named(s@) {
                Some(kind) => r == Ok::<BackendKind, String>(kind),
                None => r matches Err(why) && why@ == "unknown BackendKind: "@ + quoted(s@),
            },
    {
        let chars: Vec<char> = chars_of(s);
        if same_chars(&chars, &chars_of("nvenc")) {
            Ok(BackendKind::Nvenc)
        } else if same_chars(&chars, &chars_of("mf")) || same_chars(&chars, &chars_of("mf-hevc")) {
            Ok(BackendKind::MfHevc)
        } else if same_chars(&chars, &chars_of("openh264")) {
            Ok(BackendKind::Openh264)
        } else if same_chars(&chars, &chars_of("vaapi")) {
            Ok(BackendKind::Vaapi)
        } else {
            let mut why: String = String::from_str("unknown BackendKind: ");
            why.append(quote(s).as_str());
            Err(why)
        }
    }
}

impl std::str::FromStr for BackendKind {
    type Err = String;

    fn from_str(s: &str) -> (r: Result<Self, String>)
        ensures
            match BackendKind::named(s@) {
                Some(kind) => r == Ok::<BackendKind, String>(kind),
                None => r matches Err(why) && why@ == "unknown BackendKind: "@ + quoted(s@),
            },
    {
        BackendKind::parse_name(s)
    }
}

/// Every backend is read back from its own identifier, and no two backends share
/// one.
pub proof fn law_names_round_trip(kind: BackendKind)
    ensures
        BackendKind::named(kind.name()) == Some(kind),
{
    reveal_strlit("nvenc");
    reveal_strlit("mf");
    reveal_strlit("mf-hevc");
    reveal_strlit("openh264");
    reveal_strlit("vaapi");
    assert("nvenc"@.len() == 5 && "mf"@.len() == 2 && "mf-hevc"@.len() == 7 && "openh264"@.len()
        == 8 && "vaapi"@.len() == 5);
    assert("nvenc"@[0] == 'n' && "vaapi"@[0] == 'v');
}

/// A video codec.
#[derive(Debug, Clone, Copy, PartialEq, Eq, Hash, Structural)]
pub enum Codec {
    H264,
    H265,
}

/// What a backend can encode, and how it ranks by default.
#[derive(Debug, Clone, Copy, PartialEq, Eq)]
pub struct EncoderCapability {
    pub backend: BackendKind,
    pub codec: Codec,
    /// Width and height.
    pub max_resolution: (u32, u32),
    pub max_fps: u32,
    pub zero_copy: bool,
    /// 100 for NVENC, 90 for VAAPI, 80 for Media Foundation, 10 for OpenH264.
    pub priority: i32,
}

/// Lists the encoders of a machine.
pub trait CapabilityProbe {
    fn list_encoders(&self) -> Vec<EncoderCapability>;
}

/// `mf` is short for Media Foundation, and what is no name of a backend names none.
pub proof fn law_which_names_are_known(s: Seq<char>)
    ensures
        BackendKind::named(s) is Some <==> s == "nvenc"@ || s == "mf"@ || s == "mf-hevc"@ || s
            == "openh264"@ || s == "vaapi"@,
        BackendKind::named("mf"@) == Some(BackendKind::MfHevc),
        BackendKind::named(s) matches Some(kind) ==> s == kind.name() || s == "mf"@,
{
    law_names_round_trip(BackendKind::MfHevc);
    reveal_strlit("nvenc");
    reveal_strlit("mf");
    assert("nvenc"@.len() == 5 && "mf"@.len() == 2);
}

} // verus!
