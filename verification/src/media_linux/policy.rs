//! Which encoders and which capture a Linux host uses.

use vstd::prelude::*;
use crate::media_linux::wayland_portal::cursor::CursorUpdate;
use crate::media_policy::capability::{BackendKind, CapabilityProbe, Codec, EncoderCapability};
use crate::media_policy::factory::{FactoryError, ProducerConfig};
use crate::protocol::{ControlMessage, WireCursorBitmap};
use crate::text::{chars_of, lowered, lowered_chars, same_chars};

verus! {

/// The encoders of a Linux host; the hardware one counts only where its runtime
/// is present.
#[derive(Debug, Clone, Copy, PartialEq, Eq, Structural)]
pub struct LinuxSwProbe {
    pub vaapi_present: bool,
}

pub open spec fn software_encoder() -> EncoderCapability {
    EncoderCapability {
        backend: BackendKind::Openh264,
        codec: Codec::H264,
        max_resolution: (3840, 2160),
        max_fps: 60,
        zero_copy: false,
        priority: 10,
    }
}

pub open spec fn hardware_encoder() -> EncoderCapability {
    EncoderCapability {
        backend: BackendKind::Vaapi,
        codec: Codec::H264,
        max_resolution: (3840, 2160),
        max_fps: 60,
        zero_copy: false,
        priority: 90,
    }
}

impl CapabilityProbe for LinuxSwProbe {
    fn list_encoders(&self) -> (r: Vec<EncoderCapability>)
        ensures
            r@ == if self.vaapi_present {
                seq![software_encoder(), hardware_encoder()]
            } else {
                seq![software_encoder()]
            },
    {
        let mut out: Vec<EncoderCapability> = Vec::new();
        out.push(
            EncoderCapability {
                backend: BackendKind::Openh264,
                codec: Codec::H264,
                max_resolution: (3840, 2160),
                max_fps: 60,
                zero_copy: false,
                priority: 10,
            },
        );
        if self.vaapi_present {
            out.push(
                EncoderCapability {
                    backend: BackendKind::Vaapi,
                    codec: Codec::H264,
                    max_resolution: (3840, 2160),
                    max_fps: 60,
                    zero_copy: false,
                    priority: 90,
                },
            );
            assert(out@ =~= seq![software_encoder(), hardware_encoder()]);
        } else {
            assert(out@ =~= seq![software_encoder()]);
        }
        out
    }
}

/// A capture backend.
#[derive(Debug, Clone, Copy, PartialEq, Eq, Structural)]
pub enum CaptureBackend {
    X11Shm,
    WaylandPortal,
}

/// What the user asked for.
#[derive(Debug, Clone, Copy, PartialEq, Eq, Structural)]
pub enum CaptureBackendChoice {
    Auto,
    X11,
    Wayland,
}

impl CaptureBackendChoice {
    /// The choice that a word stands for, whatever its case; an unknown word
    /// leaves the choice open.
    pub open spec fn named(s: Seq<char>) -> CaptureBackendChoice {
        if lowered(s) == "x11"@ {
            CaptureBackendChoice::X11
        } else if lowered(s) == "wayland"@ {
            CaptureBackendChoice::Wayland
        } else {
            CaptureBackendChoice::Auto
        }
    }

    pub fn parse(s: &str) -> (r: Self)
        ensures
            r == Self::named(s@),
    {
        let word: Vec<char> = lowered_chars(s);
        if same_chars(&word, &chars_of("x11")) {
            CaptureBackendChoice::X11
        } else if same_chars(&word, &chars_of("wayland")) {
            CaptureBackendChoice::Wayland
        } else {
            CaptureBackendChoice::Auto
        }
    }
}

/// Whether the desktop portal can be reached.
#[derive(Debug, Clone, Copy, PartialEq, Eq, Structural)]
pub enum PortalProbe {
    Reachable,
    Unreachable,
    Failed,
}

/// What came of asking the session bus for the portal.
#[derive(Debug, Clone, Copy, PartialEq, Eq, Structural)]
pub enum ProbeReply {
    Answered(bool),
    CallFailed,
    TimedOut,
}

/// A portal that does not answer in time, or not at all, counts as unreachable.
pub fn portal_available(reply: ProbeReply) -> (r: bool)
    ensures
        r == (reply == ProbeReply::Answered(true)),
{
    match reply {
        ProbeReply::Answered(has) => has,
        ProbeReply::CallFailed => false,
        ProbeReply::TimedOut => false,
    }
}

/// Whether the portal has to be asked: only where the choice is open and a Wayland
/// display is there.
pub fn needs_portal_probe(choice: CaptureBackendChoice, wayland_display: bool) -> (r: bool)
    ensures
        r == (choice == CaptureBackendChoice::Auto && wayland_display),
{
    match choice {
        CaptureBackendChoice::Auto => wayland_display,
        _ => false,
    }
}

/// The capture backend for a choice, with a word on why. `probe` matters only
/// where `needs_portal_probe` says so.
pub fn detect_capture_backend(
    choice: CaptureBackendChoice,
    wayland_display: bool,
    probe: PortalProbe,
) -> (r: (CaptureBackend, &'static str))
    ensures
        r.0 == match choice {
            CaptureBackendChoice::X11 => CaptureBackend::X11Shm,
            CaptureBackendChoice::Wayland => CaptureBackend::WaylandPortal,
            CaptureBackendChoice::Auto => if wayland_display && probe == PortalProbe::Reachable {
                CaptureBackend::WaylandPortal
            } else {
                CaptureBackend::X11Shm
            },
        },
        r.1@ == match choice {
            CaptureBackendChoice::X11 => "cli-override-x11"@,
            CaptureBackendChoice::Wayland => "cli-override-wayland"@,
            CaptureBackendChoice::Auto => if !wayland_display {
                "no-wayland-display"@
            } else {
                match probe {
                    PortalProbe::Reachable => "portal-reachable"@,
                    PortalProbe::Unreachable => "portal-unreachable"@,
                    PortalProbe::Failed => "portal-probe-failed"@,
                }
            },
        },
{
    match choice {
        CaptureBackendChoice::X11 => (CaptureBackend::X11Shm, "cli-override-x11"),
        CaptureBackendChoice::Wayland => (CaptureBackend::WaylandPortal, "cli-override-wayland"),
        CaptureBackendChoice::Auto => {
            if !wayland_display {
                (CaptureBackend::X11Shm, "no-wayland-display")
            } else {
                match probe {
                    PortalProbe::Reachable => (CaptureBackend::WaylandPortal, "portal-reachable"),
                    PortalProbe::Unreachable => (CaptureBackend::X11Shm, "portal-unreachable"),
                    PortalProbe::Failed => (CaptureBackend::X11Shm, "portal-probe-failed"),
                }
            }
        },
    }
}

/// A side of a bitmap as the wire carries it.
pub open spec fn wire_side(n: u32) -> u16 {
    if n > 0xFFFF {
        0xFFFF
    } else {
        n as u16
    }
}

fn to_wire_side(n: u32) -> (r: u16)
    ensures
        r == wire_side(n),
{
    if n > 0xFFFF {
        0xFFFF
    } else {
        n as u16
    }
}

/// The message that carries a cursor update.
pub fn cursor_to_control(c: CursorUpdate) -> (r: ControlMessage)
    ensures
        r == (ControlMessage::CursorUpdate {
            id: c.id,
            position_x: c.position_x,
            position_y: c.position_y,
            hotspot_x: c.hotspot_x,
            hotspot_y: c.hotspot_y,
            bitmap: match c.bitmap {
                Some(b) => Some(
                    WireCursorBitmap {
                        width: wire_side(b.width),
                        height: wire_side(b.height),
                        bgra: b.bgra,
                    },
                ),
                None => None,
            },
        }),
{
    let bitmap: Option<WireCursorBitmap> = match c.bitmap {
        Some(b) => Some(
            WireCursorBitmap {
                width: to_wire_side(b.width),
                height: to_wire_side(b.height),
                bgra: b.bgra,
            },
        ),
        None => None,
    };
    ControlMessage::CursorUpdate {
        id: c.id,
        position_x: c.position_x,
        position_y: c.position_y,
        hotspot_x: c.hotspot_x,
        hotspot_y: c.hotspot_y,
        bitmap,
    }
}

/// A failure while a producer is put together.
#[derive(Debug)]
pub enum SetupFailure {
    /// Capture or encoder could not be built.
    Build(String),
    /// The runtime for the portal could not be started.
    PortalRuntime(String),
    /// The portal gave no capture.
    PortalCapture(String),
}

/// What a producer is made of. The size comes from the capture.
#[derive(Debug, Clone, Copy, PartialEq, Eq, Structural)]
pub struct ProducerPlan {
    pub capture: CaptureBackend,
    pub bitrate_bps: u32,
    pub fps: u32,
}

/// Makes producers over one capture backend.
#[derive(Debug, Clone, Copy, PartialEq, Eq, Structural)]
pub struct LinuxSwFactory {
    backend: CaptureBackend,
}

impl LinuxSwFactory {
    pub closed spec fn capture(self) -> CaptureBackend {
        self.backend
    }

    pub fn new(capture_backend: CaptureBackend) -> (r: Self)
        ensures
            r.capture() == capture_backend,
    {
        LinuxSwFactory { backend: capture_backend }
    }

    pub fn capture_backend(&self) -> (r: CaptureBackend)
        ensures
            r == self.capture(),
    {
        self.backend
    }

    /// Whether a producer can be made for a backend, and of what it is made.
    pub fn create(&self, kind: BackendKind, cfg: &ProducerConfig) -> (r: Result<
        ProducerPlan,
        FactoryError,
    >)
        ensures
            match kind {
                BackendKind::Openh264 => r == Ok::<ProducerPlan, FactoryError>(
                    ProducerPlan {
                        capture: self.capture(),
                        bitrate_bps: cfg.initial_bitrate_bps,
                        fps: cfg.fps,
                    },
                ),
                BackendKind::Vaapi => r matches Err(FactoryError::Unavailable(k, why)) && k == kind
                    && why@ == "VaapiVideoProducer wiring lands in T9"@,
                _ => r matches Err(FactoryError::Unavailable(k, why)) && k == kind && why@
                    == "Linux only supports Openh264 (and Vaapi from T9); other backends N/A"@,
            },
    {
        match kind {
            BackendKind::Openh264 => Ok(
                ProducerPlan {
                    capture: self.backend,
                    bitrate_bps: cfg.initial_bitrate_bps,
                    fps: cfg.fps,
                },
            ),
            BackendKind::Vaapi => Err(
                FactoryError::Unavailable(
                    kind,
                    String::from_str("VaapiVideoProducer wiring lands in T9"),
                ),
            ),
            _ => Err(
                FactoryError::Unavailable(
                    kind,
                    String::from_str(
                        "Linux only supports Openh264 (and Vaapi from T9); other backends N/A",
                    ),
                ),
            ),
        }
    }

    /// The factory's error for a failure while a producer was put together.
    pub fn setup_error(kind: BackendKind, failure: SetupFailure) -> (r: FactoryError)
        ensures
            match failure {
                SetupFailure::Build(why) => r == FactoryError::InvalidConfig(kind, why),
                SetupFailure::PortalRuntime(why) => r matches FactoryError::Unavailable(k, text) && k
                    == kind && text@ == "portal runtime: "@ + why@,
                SetupFailure::PortalCapture(why) => r matches FactoryError::Unavailable(k, text) && k
                    == kind && text@ == "WaylandPortalCapturer::new: "@ + why@,
            },
    {
        match failure {
            SetupFailure::Build(why) => FactoryError::InvalidConfig(kind, why),
            SetupFailure::PortalRuntime(why) => {
                let mut text: String = String::from_str("portal runtime: ");
                text.append(why.as_str());
                FactoryError::Unavailable(kind, text)
            },
            SetupFailure::PortalCapture(why) => {
                let mut text: String = String::from_str("WaylandPortalCapturer::new: ");
                text.append(why.as_str());
                FactoryError::Unavailable(kind, text)
            },
        }
    }
}

/// A side of a bitmap goes out as it is up to what sixteen bits hold, and as the largest
/// such number beyond.
pub proof fn law_sides_go_out_unchanged(n: u32)
    ensures
        n < 65_536 ==> wire_side(n) == n,
        n >= 65_536 ==> wire_side(n) == 65_535,
{
}

/// Wayland is captured exactly if the user asks for it, or leaves the choice open where
/// there is a Wayland display and a portal that answers; the portal matters only where it
/// has to be asked.
pub proof fn law_wayland_needs_a_display_and_a_portal(
    choice: CaptureBackendChoice,
    wayland_display: bool,
    probe: PortalProbe,
    other: PortalProbe,
    asked: bool,
    r: (CaptureBackend, &'static str),
    s: (CaptureBackend, &'static str),
)
    requires
        call_ensures(needs_portal_probe, (choice, wayland_display), asked),
        call_ensures(detect_capture_backend, (choice, wayland_display, probe), r),
        call_ensures(detect_capture_backend, (choice, wayland_display, other), s),
    ensures
        r.0 == CaptureBackend::WaylandPortal <==> choice == CaptureBackendChoice::Wayland || (choice
            != CaptureBackendChoice::X11 && wayland_display && probe == PortalProbe::Reachable),
        !asked ==> r.0 == s.0 && r.1@ == s.1@,
        asked ==> (r.0 == CaptureBackend::WaylandPortal <==> probe == PortalProbe::Reachable),
{
}

/// Both encoders of a host code H.264 up to 3840 by 2160 at sixty frames a second; the
/// hardware ranks above the software.
pub proof fn law_hardware_ranks_above_software()
    ensures
        software_encoder().priority < hardware_encoder().priority,
        software_encoder().backend == BackendKind::Openh264,
        hardware_encoder().backend == BackendKind::Vaapi,
        software_encoder().max_resolution == (3840u32, 2160u32),
        hardware_encoder().max_resolution == (3840u32, 2160u32),
        software_encoder().max_fps == 60 && hardware_encoder().max_fps == 60,
        software_encoder().codec == Codec::H264 && hardware_encoder().codec == Codec::H264,
{
}

/// A cursor goes out with all that was read of it.
pub proof fn law_cursors_go_out_whole(c: CursorUpdate, r: ControlMessage)
    requires
        call_ensures(cursor_to_control, (c,), r),
    ensures
        r matches ControlMessage::CursorUpdate {
            id,
            position_x,
            position_y,
            hotspot_x,
            hotspot_y,
            bitmap,
        } && id == c.id && position_x == c.position_x && position_y == c.position_y && hotspot_x
            == c.hotspot_x && hotspot_y == c.hotspot_y && (bitmap is Some <==> c.bitmap is Some) && (
        bitmap matches Some(b) ==> {
            &&& b.bgra@ == c.bitmap->0.bgra@
            &&& c.bitmap->0.width <= 256 ==> b.width == c.bitmap->0.width
            &&& c.bitmap->0.height <= 256 ==> b.height == c.bitmap->0.height
        }),
{
}

/// What the user asks for is heard in any case of its letters; any other word leaves the
/// choice open.
pub proof fn law_choices_are_heard_in_any_case(s: Seq<char>, t: Seq<char>)
    requires
        lowered(s) == lowered(t),
    ensures
        CaptureBackendChoice::named(s) == CaptureBackendChoice::named(t),
        CaptureBackendChoice::named(s) is X11 <==> lowered(s) == "x11"@,
        CaptureBackendChoice::named(s) is Wayland <==> lowered(s) == "wayland"@,
{
    reveal_strlit("x11");
    reveal_strlit("wayland");
    assert("x11"@.len() == 3 && "wayland"@.len() == 7);
}

/// A portal counts as there only if it answered and said so.
pub proof fn law_only_an_answer_makes_a_portal(reply: ProbeReply, r: bool)
    requires
        call_ensures(portal_available, (reply,), r),
    ensures
        r <==> reply == ProbeReply::Answered(true),
{
}

/// Of the backends only the software encoder can be made, with the bitrate and the frame
/// rate that were asked for and over the capture that the factory has.
pub proof fn law_only_the_software_encoder_is_made(
    f: LinuxSwFactory,
    kind: BackendKind,
    cfg: ProducerConfig,
    r: Result<ProducerPlan, FactoryError>,
)
    requires
        call_ensures(LinuxSwFactory::create, (&f, kind, &cfg), r),
    ensures
        r is Ok <==> kind == BackendKind::Openh264,
        r matches Ok(plan) ==> {
            &&& plan.capture == f.capture()
            &&& plan.bitrate_bps == cfg.initial_bitrate_bps
            &&& plan.fps == cfg.fps
        },
        r matches Err(e) ==> (e matches FactoryError::Unavailable(k, _) && k == kind),
{
}

} // verus!
