//! The hardware H.264 path: what is decided around the encoder's thread. Frames
//! go through the same loop as those of the software producer.

use vstd::prelude::*;
use crate::media_linux::capture_source::CaptureSourceError;
use crate::media_linux::error::{LinuxMediaError, VaapiError};
use crate::media_linux::frame::BgraFrame;
use crate::media_linux::linux_sw_producer::{
    broken_off_message, buffer_fits, capture_message, captured_frame, first_buffer,
    poisoned_message, says, Happening, ProducerState,
};
use crate::media_linux::sw_pipeline::{convertible, picture_of};
use crate::media_sw::error::MediaSwError;
use crate::media_sw::nv12::{bgra_reason, bgra_to_i420, I420Frame};
use crate::protocol::{EncodedFrame, ProducerError};

verus! {

/// What the encoder's thread said before it began to work.
#[derive(Debug)]
pub enum InitReport {
    /// The thread could not be started.
    NotSpawned { why: String },
    Ready,
    Failed(VaapiError),
    /// The thread ended without a word.
    Gone,
}

/// How a report that the encoder cannot be used comes out.
pub open spec fn init_failure(report: InitReport, e: LinuxMediaError) -> bool {
    match report {
        InitReport::Ready => false,
        InitReport::NotSpawned { why } => e matches LinuxMediaError::Vaapi(
            VaapiError::DisplayOpen(text),
        ) && text@ == "spawn thread: "@ + why@,
        InitReport::Failed(v) => e == LinuxMediaError::Vaapi(v),
        InitReport::Gone => e matches LinuxMediaError::Vaapi(VaapiError::DisplayOpen(text)) && text@
            == "encoder thread exited before init"@,
    }
}

/// The producer's handle to the encoder's thread: the size that the encoder has.
#[derive(Debug, Clone, Copy, PartialEq, Eq, Structural)]
pub struct LinuxVaapiEncoder {
    pub width: u32,
    pub height: u32,
}

impl LinuxVaapiEncoder {
    /// A handle, if the encoder can be used.
    pub fn new(width: u32, height: u32, report: InitReport) -> (r: Result<Self, LinuxMediaError>)
        ensures
            r is Ok <==> report is Ready,
            r matches Ok(e) ==> e == (LinuxVaapiEncoder { width, height }),
            r matches Err(e) ==> init_failure(report, e),
    {
        match report {
            InitReport::Ready => Ok(LinuxVaapiEncoder { width, height }),
            InitReport::NotSpawned { why } => {
                let mut text: String = String::from_str("spawn thread: ");
                text.append(why.as_str());
                Err(LinuxMediaError::Vaapi(VaapiError::DisplayOpen(text)))
            },
            InitReport::Failed(e) => Err(LinuxMediaError::Vaapi(e)),
            InitReport::Gone => Err(
                LinuxMediaError::Vaapi(
                    VaapiError::DisplayOpen(String::from_str("encoder thread exited before init")),
                ),
            ),
        }
    }

    /// A frame goes to the encoder only if it has the encoder's size.
    pub fn check_size(&self, frame: &BgraFrame) -> (r: Result<(), LinuxMediaError>)
        ensures
            r == if frame.width == self.width && frame.height == self.height {
                Ok::<(), LinuxMediaError>(())
            } else {
                Err(LinuxMediaError::InvalidDimensions(frame.width, frame.height))
            },
    {
        if frame.width != self.width || frame.height != self.height {
            Err(LinuxMediaError::InvalidDimensions(frame.width, frame.height))
        } else {
            Ok(())
        }
    }
}

/// The encoder's answer; without one the thread is gone.
pub fn on_reply(reply: Option<Result<EncodedFrame, LinuxMediaError>>) -> (r: Result<
    EncodedFrame,
    LinuxMediaError,
>)
    ensures
        r == match reply {
            Some(answer) => answer,
            None => Err(LinuxMediaError::Vaapi(VaapiError::Closed)),
        },
{
    match reply {
        Some(answer) => answer,
        None => Err(LinuxMediaError::Vaapi(VaapiError::Closed)),
    }
}

/// The picture that the hardware encodes.
pub fn prepare_picture(frame: &BgraFrame) -> (r: Result<I420Frame, LinuxMediaError>)
    ensures
        r is Ok <==> convertible(*frame),
        r matches Ok(f) ==> f@ == picture_of(*frame) && f.packed(),
        r matches Err(e) ==> e matches LinuxMediaError::Openh264(
            MediaSwError::InvalidFrame { reason },
        ) && reason@ == bgra_reason(frame.bgra@.len(), frame.width, frame.height, frame.stride),
{
    match bgra_to_i420(frame.bgra.as_slice(), frame.width, frame.height, frame.stride) {
        Ok(f) => {
            assert(f@ == picture_of(*frame));
            Ok(f)
        },
        Err(e) => Err(LinuxMediaError::Openh264(e)),
    }
}

/// How the producer reports a failure of the hardware encoder. Hardware that stays
/// busy counts as lost, so that another backend takes over.
pub open spec fn reported(e: LinuxMediaError, r: ProducerError) -> bool {
    if e matches LinuxMediaError::Vaapi(v) && v is HardwareBusy {
        r matches ProducerError::DeviceLost { backend, reason } && backend@ == "linux-vaapi-h264"@
            && reason@ == e.message()
    } else {
        r matches ProducerError::Encode(text) && text@ == e.message()
    }
}

/// A failure of the hardware encoder as its producer reports it.
pub fn classify_encode_error(e: LinuxMediaError) -> (r: ProducerError)
    ensures
        reported(e, r),
{
    let text: String = e.to_string();
    match e {
        LinuxMediaError::Vaapi(VaapiError::HardwareBusy { attempts: _ }) => {
            ProducerError::DeviceLost {
                backend: String::from_str("linux-vaapi-h264"),
                reason: text,
            }
        },
        _ => ProducerError::Encode(text),
    }
}

/// What a producer of the hardware path hears.
pub enum VaapiEvent {
    /// A frame is wanted.
    FrameWanted,
    /// The capture ended: its buffer, the size that the source has now, and the
    /// time.
    Captured {
        buffer: Vec<u8>,
        width: u32,
        height: u32,
        outcome: Result<(), CaptureSourceError>,
        now_us: u64,
    },
    /// The capture or the encoding broke off, and what it was handed is lost.
    BrokenOff { why: String },
    /// The encoding ended: the buffer and what came of it.
    Encoded { buffer: Vec<u8>, result: Result<EncodedFrame, LinuxMediaError> },
}

/// What a producer of the hardware path asks for.
pub enum VaapiAction {
    /// Wait for the pace, then capture into the buffer.
    Capture { buffer: Vec<u8> },
    /// Hand the frame to the encoder's thread.
    Encode { frame: BgraFrame, force_idr: bool, timestamp_us: u64 },
    /// The frame is there, or why there is none.
    Return(Result<EncodedFrame, ProducerError>),
}

/// The producer of the hardware path. Its loop is that of the software path, but the
/// encoder stays on its own thread.
pub struct VaapiVideoProducer {
    state: ProducerState,
    bgra_buf: Vec<u8>,
}

impl VaapiVideoProducer {
    pub closed spec fn state(self) -> ProducerState {
        self.state
    }

    /// The buffer at hand; an empty one while a capture or an encoding has it.
    pub closed spec fn buffer(self) -> Vec<u8> {
        self.bgra_buf
    }

    /// A producer over a source of the given size.
    pub fn new(geometry: (u32, u32)) -> (r: Self)
        requires
            buffer_fits(geometry.0, geometry.1),
        ensures
            r.state() == (ProducerState {
                seq: 0,
                idr_pending: true,
                width: geometry.0,
                height: geometry.1,
                poisoned: false,
                resize_warned: false,
            }),
            r.buffer()@ == Seq::new((geometry.0 * geometry.1 * 4) as nat, |i: int| 0u8),
    {
        VaapiVideoProducer {
            state: ProducerState::new(geometry.0, geometry.1),
            bgra_buf: first_buffer(geometry.0, geometry.1),
        }
    }

    /// The event can come: a captured frame has a stride that a word holds.
    pub open spec fn expects(self, event: VaapiEvent) -> bool {
        match event {
            VaapiEvent::Captured { width, outcome, .. } => outcome is Ok ==> width * 4 <= u32::MAX,
            _ => true,
        }
    }

    /// What has happened, for the state.
    pub open spec fn happening(event: VaapiEvent) -> Happening {
        match event {
            VaapiEvent::FrameWanted => Happening::FrameWanted,
            VaapiEvent::Captured { width, height, outcome, .. } => Happening::Captured {
                width,
                height,
                ok: outcome is Ok,
            },
            VaapiEvent::BrokenOff { .. } => Happening::BrokenOff,
            VaapiEvent::Encoded { result, .. } => Happening::Encoded { ok: result is Ok },
        }
    }

    /// One step towards the next frame.
    pub fn next_frame(&mut self, event: VaapiEvent) -> (r: VaapiAction)
        requires
            old(self).expects(event),
        ensures
            final(self).state() == old(self).state().after(Self::happening(event)),
            match event {
                VaapiEvent::FrameWanted => if old(self).state().poisoned {
                    &&& r matches VaapiAction::Return(Err(e)) && says(e, poisoned_message())
                    &&& final(self).buffer() == old(self).buffer()
                } else {
                    &&& r == (VaapiAction::Capture { buffer: old(self).buffer() })
                    &&& final(self).buffer()@.len() == 0
                },
                VaapiEvent::Captured { buffer, width, height, outcome, now_us } => match outcome {
                    Ok(_) => {
                        &&& r == (VaapiAction::Encode {
                            frame: captured_frame(width, height, buffer, now_us),
                            force_idr: old(self).state().idr_pending,
                            timestamp_us: now_us,
                        })
                        &&& final(self).buffer()@.len() == 0
                    },
                    Err(e) => {
                        &&& r matches VaapiAction::Return(Err(x)) && says(x, capture_message(e))
                        &&& final(self).buffer() == buffer
                    },
                },
                VaapiEvent::BrokenOff { why } => {
                    &&& r matches VaapiAction::Return(Err(e)) && says(e, broken_off_message(why@))
                    &&& final(self).buffer() == old(self).buffer()
                },
                VaapiEvent::Encoded { buffer, result } => {
                    &&& match result {
                        Ok(frame) => r == VaapiAction::Return(
                            Ok(EncodedFrame { seq: old(self).state().seq, ..frame }),
                        ),
                        Err(e) => r matches VaapiAction::Return(Err(x)) && reported(e, x),
                    }
                    &&& final(self).buffer() == buffer
                },
            },
    {
        match event {
            VaapiEvent::FrameWanted => match self.state.ready() {
                Err(e) => VaapiAction::Return(Err(e)),
                Ok(_) => {
                    let mut buffer: Vec<u8> = Vec::new();
                    std::mem::swap(&mut buffer, &mut self.bgra_buf);
                    VaapiAction::Capture { buffer }
                },
            },
            VaapiEvent::Captured { buffer, width, height, outcome, now_us } => {
                match self.state.captured(width, height, outcome) {
                    Ok(force_idr) => {
                        self.bgra_buf = Vec::new();
                        let frame: BgraFrame = BgraFrame {
                            width,
                            height,
                            stride: width * 4,
                            bgra: buffer,
                            capture_ts_us: now_us,
                        };
                        VaapiAction::Encode { frame, force_idr, timestamp_us: now_us }
                    },
                    Err(e) => {
                        self.bgra_buf = buffer;
                        VaapiAction::Return(Err(e))
                    },
                }
            },
            VaapiEvent::BrokenOff { why } => VaapiAction::Return(Err(self.state.broken_off(why))),
            VaapiEvent::Encoded { buffer, result } => {
                self.bgra_buf = buffer;
                match result {
                    Ok(frame) => VaapiAction::Return(Ok(self.state.number(frame))),
                    Err(e) => VaapiAction::Return(Err(classify_encode_error(e))),
                }
            },
        }
    }

    /// Whether a capture of the given size is the first to differ.
    pub fn warns_of_resize(&self, width: u32, height: u32) -> (r: bool)
        ensures
            r == (!self.state().resize_warned && self.state().resized(width, height).resize_warned),
    {
        self.state.warns_of_resize(width, height)
    }

    /// The next frame that is captured is encoded as a keyframe.
    pub fn request_idr(&mut self)
        ensures
            final(self).state() == old(self).state().after(Happening::KeyframeWanted),
            final(self).buffer() == old(self).buffer(),
    {
        self.state.request_idr();
    }

    pub fn backend_name(&self) -> (r: &'static str)
        ensures
            r@ == "linux-vaapi-h264"@,
    {
        "linux-vaapi-h264"
    }
}

/// Only hardware that stays busy counts as lost; every other failure is one of encoding.
pub proof fn law_busy_hardware_counts_as_lost(e: LinuxMediaError, r: ProducerError)
    requires
        call_ensures(classify_encode_error, (e,), r),
    ensures
        r is DeviceLost <==> (e matches LinuxMediaError::Vaapi(v) && v is HardwareBusy),
        r is DeviceLost || r is Encode,
{
}

/// A frame goes to the hardware only in the encoder's own size.
pub proof fn law_only_frames_of_the_right_size_are_encoded(
    e: LinuxVaapiEncoder,
    frame: BgraFrame,
    r: Result<(), LinuxMediaError>,
)
    requires
        call_ensures(LinuxVaapiEncoder::check_size, (&e, &frame), r),
    ensures
        r is Ok <==> (frame.width, frame.height) == (e.width, e.height),
        r matches Err(x) ==> x == LinuxMediaError::InvalidDimensions(frame.width, frame.height),
{
}

/// A captured frame is handed to the hardware with the captured bytes, size and time, and
/// as a keyframe if one is owed; what comes back is delivered with the next number.
pub proof fn law_hardware_frames_are_captured_and_numbered(
    p: &mut VaapiVideoProducer,
    q: &mut VaapiVideoProducer,
    buffer: Vec<u8>,
    width: u32,
    height: u32,
    now_us: u64,
    coded: EncodedFrame,
    back: Vec<u8>,
    r: VaapiAction,
    s: VaapiAction,
)
    requires
        width * 4 <= u32::MAX,
        old(q).state().seq < u64::MAX,
        call_ensures(
            VaapiVideoProducer::next_frame,
            (p, VaapiEvent::Captured { buffer, width, height, outcome: Ok(()), now_us }),
            r,
        ),
        call_ensures(
            VaapiVideoProducer::next_frame,
            (q, VaapiEvent::Encoded { buffer: back, result: Ok(coded) }),
            s,
        ),
    ensures
        r matches VaapiAction::Encode { frame, force_idr, timestamp_us } && {
            &&& frame.bgra == buffer
            &&& (frame.width, frame.height, frame.stride as int) == (width, height, 4 * width)
            &&& force_idr == old(p).state().idr_pending
            &&& timestamp_us == now_us
        },
        !final(p).state().idr_pending,
        s matches VaapiAction::Return(Ok(f)) && {
            &&& f.seq == old(q).state().seq
            &&& f.nal_units == coded.nal_units
            &&& f.is_keyframe == coded.is_keyframe
            &&& f.timestamp_host_us == coded.timestamp_host_us
        },
        final(q).state().seq == old(q).state().seq + 1,
        final(q).buffer() == back,
{
}

} // verus!
