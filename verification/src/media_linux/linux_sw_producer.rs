//! The frame loop of a Linux producer: wait for the pace, capture, encode, number
//! the frame. Waiting, capturing and encoding run elsewhere, on threads that may
//! block; here it is decided what they are handed and what becomes of what they
//! hand back.

use vstd::prelude::*;
use crate::media_linux::capture_source::CaptureSourceError;
use crate::media_linux::error::LinuxMediaError;
use crate::media_linux::frame::BgraFrame;
use crate::media_linux::sw_pipeline::LinuxSwEncoder;
use crate::media_policy::factory::VideoProducer;
use crate::media_sw::encoder::Openh264EncoderConfig;
use crate::protocol::{EncodedFrame, ProducerError};

verus! {

/// The time between two frames in microseconds.
pub fn pacer_micros(fps: u32) -> (r: u64)
    ensures
        r == if fps == 0 {
            16_667
        } else {
            1_000_000int / fps as int
        },
{
    if fps == 0 {
        16_667
    } else {
        proof {
            assert(0 <= 1_000_000int / fps as int <= 1_000_000) by (nonlinear_arith)
                requires
                    fps >= 1,
            ;
        }
        1_000_000 / fps as u64
    }
}

/// What a producer remembers between frames.
#[derive(Debug, Clone, Copy, PartialEq, Eq, Structural)]
pub struct ProducerState {
    pub seq: u64,
    pub idr_pending: bool,
    pub width: u32,
    pub height: u32,
    /// Capturing or encoding broke off; nothing comes any more.
    pub poisoned: bool,
    /// A change of size has been reported.
    pub resize_warned: bool,
}

/// What can happen to a producer.
pub ghost enum Happening {
    /// A frame is wanted.
    FrameWanted,
    /// A keyframe is wanted.
    KeyframeWanted,
    /// The capture ended, with the size that the source has now.
    Captured { width: u32, height: u32, ok: bool },
    /// The capture or the encoding broke off.
    BrokenOff,
    /// The encoding ended.
    Encoded { ok: bool },
}

/// The message of a producer that has broken off before.
pub open spec fn poisoned_message() -> Seq<char> {
    "producer poisoned by inner panic: drop and recreate"@
}

/// The message of a producer that breaks off now.
pub open spec fn broken_off_message(why: Seq<char>) -> Seq<char> {
    "producer poisoned by inner panic: "@ + why
}

/// The message of a failed capture.
pub open spec fn capture_message(e: CaptureSourceError) -> Seq<char> {
    match e {
        CaptureSourceError::WouldBlock(reason) => "would_block: "@ + reason@,
        CaptureSourceError::Terminal { backend, reason } => backend@ + ": "@ + reason@,
    }
}

/// The error is a failed capture with the given message.
pub open spec fn says(e: ProducerError, message: Seq<char>) -> bool {
    e matches ProducerError::Capture(text) && text@ == message
}

fn capture_failure(e: CaptureSourceError) -> (r: ProducerError)
    ensures
        says(r, capture_message(e)),
{
    match e {
        CaptureSourceError::WouldBlock(reason) => {
            let mut text: String = String::from_str("would_block: ");
            text.append(reason.as_str());
            ProducerError::Capture(text)
        },
        CaptureSourceError::Terminal { backend, reason } => {
            let mut text: String = String::from_str(backend);
            text.append(": ");
            text.append(reason.as_str());
            ProducerError::Capture(text)
        },
    }
}

impl ProducerState {
    /// A new producer for a source of the given size; its first frame is a
    /// keyframe.
    pub fn new(width: u32, height: u32) -> (r: Self)
        ensures
            r == (ProducerState {
                seq: 0,
                idr_pending: true,
                width,
                height,
                poisoned: false,
                resize_warned: false,
            }),
    {
        ProducerState {
            seq: 0,
            idr_pending: true,
            width,
            height,
            poisoned: false,
            resize_warned: false,
        }
    }

    /// The state after a capture of the given size.
    pub open spec fn resized(self, width: u32, height: u32) -> ProducerState {
        ProducerState {
            width,
            height,
            resize_warned: self.resize_warned || width != self.width || height != self.height,
            ..self
        }
    }

    /// The state after something happened.
    pub open spec fn after(self, h: Happening) -> ProducerState {
        match h {
            Happening::FrameWanted => self,
            Happening::KeyframeWanted => ProducerState { idr_pending: true, ..self },
            Happening::Captured { width, height, ok } => if ok {
                ProducerState { idr_pending: false, ..self.resized(width, height) }
            } else {
                self.resized(width, height)
            },
            Happening::BrokenOff => ProducerState { poisoned: true, ..self },
            Happening::Encoded { ok } => if ok {
                ProducerState { seq: ((self.seq + 1) % 0x1_0000_0000_0000_0000) as u64, ..self }
            } else {
                self
            },
        }
    }

    /// Whether a capture of the given size is the first to differ.
    pub fn warns_of_resize(&self, width: u32, height: u32) -> (r: bool)
        ensures
            r == (!self.resize_warned && self.resized(width, height).resize_warned),
    {
        (width != self.width || height != self.height) && !self.resize_warned
    }

    /// Whether a frame can still come; if not, why.
    pub fn ready(&self) -> (r: Result<(), ProducerError>)
        ensures
            match r {
                Ok(_) => !self.poisoned,
                Err(e) => self.poisoned && says(e, poisoned_message()),
            },
    {
        if self.poisoned {
            Err(
                ProducerError::Capture(
                    String::from_str("producer poisoned by inner panic: drop and recreate"),
                ),
            )
        } else {
            Ok(())
        }
    }

    /// Takes note of a capture. `Ok` says whether the frame is to be a keyframe.
    pub fn captured(
        &mut self,
        width: u32,
        height: u32,
        outcome: Result<(), CaptureSourceError>,
    ) -> (r: Result<bool, ProducerError>)
        ensures
            *final(self) == old(self).after(
                Happening::Captured { width, height, ok: outcome is Ok },
            ),
            match outcome {
                Ok(_) => r == Ok::<bool, ProducerError>(old(self).idr_pending),
                Err(e) => r matches Err(x) && says(x, capture_message(e)),
            },
    {
        if self.warns_of_resize(width, height) {
            self.resize_warned = true;
        }
        self.width = width;
        self.height = height;
        match outcome {
            Ok(_) => {
                let force_idr: bool = self.idr_pending;
                self.idr_pending = false;
                Ok(force_idr)
            },
            Err(e) => Err(capture_failure(e)),
        }
    }

    /// Takes note that capturing or encoding broke off.
    pub fn broken_off(&mut self, why: String) -> (r: ProducerError)
        ensures
            *final(self) == old(self).after(Happening::BrokenOff),
            says(r, broken_off_message(why@)),
    {
        self.poisoned = true;
        let mut text: String = String::from_str("producer poisoned by inner panic: ");
        text.append(why.as_str());
        ProducerError::Capture(text)
    }

    /// Numbers an encoded frame.
    pub fn number(&mut self, frame: EncodedFrame) -> (r: EncodedFrame)
        ensures
            *final(self) == old(self).after(Happening::Encoded { ok: true }),
            r == (EncodedFrame { seq: old(self).seq, ..frame }),
    {
        let mut frame: EncodedFrame = frame;
        frame.seq = self.seq;
        self.seq = self.seq.wrapping_add(1);
        frame
    }

    /// The next frame that is captured is encoded as a keyframe.
    pub fn request_idr(&mut self)
        ensures
            *final(self) == old(self).after(Happening::KeyframeWanted),
    {
        self.idr_pending = true;
    }
}

/// The buffer for frames of the given size can be counted and allocated.
pub open spec fn buffer_fits(width: u32, height: u32) -> bool {
    width * height * 4 <= u32::MAX && width * height * 4 <= isize::MAX
}

/// The buffer that the first capture fills.
pub fn first_buffer(width: u32, height: u32) -> (r: Vec<u8>)
    requires
        buffer_fits(width, height),
    ensures
        r@ == Seq::new((width * height * 4) as nat, |i: int| 0u8),
{
    proof {
        assert(0 <= width * height) by (nonlinear_arith)
            requires
                0 <= width,
                0 <= height,
        ;
    }
    let v: Vec<u8> = vec![0u8; (width * height * 4) as usize];
    assert(v@ =~= Seq::new((width * height * 4) as nat, |i: int| 0u8));
    v
}

/// The frame that is encoded after a capture.
pub open spec fn captured_frame(width: u32, height: u32, buffer: Vec<u8>, now_us: u64) -> BgraFrame {
    BgraFrame { width, height, stride: (width * 4) as u32, bgra: buffer, capture_ts_us: now_us }
}

/// What a producer of the software path hears.
pub enum SwEvent {
    /// A frame is wanted.
    FrameWanted,
    /// The capture ended: its buffer, the size that the source has now, and the
    /// time.
    Captured {
        buffer: Vec<u8>,
        width: u32,
        height: u32,
        outcome: Result<(), CaptureSourceError>,
        now_us: u64,
    },
    /// The capture or the encoding broke off, and what it was handed is lost.
    BrokenOff { why: String },
    /// The encoding ended: the encoder, the buffer and what came of it.
    Encoded {
        encoder: LinuxSwEncoder,
        buffer: Vec<u8>,
        result: Result<EncodedFrame, LinuxMediaError>,
    },
}

/// A frame to encode, with the encoder to do it.
pub struct EncodeJob {
    pub encoder: LinuxSwEncoder,
    pub frame: BgraFrame,
    pub force_idr: bool,
    pub timestamp_us: u64,
}

impl EncodeJob {
    /// Encodes the frame and hands everything back.
    pub fn run(self) -> (r: SwEvent)
        requires
            self.encoder.wf(),
        ensures
            r matches SwEvent::Encoded { encoder, buffer, result } && buffer == self.frame.bgra
                && self.encoder.encodes(
                self.frame,
                self.force_idr,
                self.timestamp_us,
                encoder,
                result,
            ),
    {
        let mut encoder: LinuxSwEncoder = self.encoder;
        let frame: BgraFrame = self.frame;
        let result: Result<EncodedFrame, LinuxMediaError> = encoder.encode(
            &frame,
            self.force_idr,
            self.timestamp_us,
        );
        SwEvent::Encoded { encoder, buffer: frame.bgra, result }
    }
}

/// What a producer of the software path asks for.
pub enum SwAction {
    /// Wait for the pace, then capture into the buffer.
    Capture { buffer: Vec<u8> },
    Encode(EncodeJob),
    /// The frame is there, or why there is none.
    Return(Result<EncodedFrame, ProducerError>),
}

/// The producer of the software path.
pub struct LinuxSwProducer {
    state: ProducerState,
    bgra_buf: Vec<u8>,
    encoder: Option<LinuxSwEncoder>,
}

impl LinuxSwProducer {
    pub closed spec fn state(self) -> ProducerState {
        self.state
    }

    /// The buffer at hand; an empty one while a capture or an encoding has it.
    pub closed spec fn buffer(self) -> Vec<u8> {
        self.bgra_buf
    }

    /// The encoder, unless an encoding has it.
    pub closed spec fn encoder(self) -> Option<LinuxSwEncoder> {
        self.encoder
    }

    pub open spec fn wf(self) -> bool {
        self.encoder() matches Some(e) ==> e.wf()
    }

    /// A producer over a source of the given size.
    pub fn new(geometry: (u32, u32), encoder: LinuxSwEncoder) -> (r: Self)
        requires
            encoder.wf(),
            buffer_fits(geometry.0, geometry.1),
        ensures
            r.wf(),
            r.state() == (ProducerState {
                seq: 0,
                idr_pending: true,
                width: geometry.0,
                height: geometry.1,
                poisoned: false,
                resize_warned: false,
            }),
            r.buffer()@ == Seq::new((geometry.0 * geometry.1 * 4) as nat, |i: int| 0u8),
            r.encoder() == Some(encoder),
    {
        LinuxSwProducer {
            state: ProducerState::new(geometry.0, geometry.1),
            bgra_buf: first_buffer(geometry.0, geometry.1),
            encoder: Some(encoder),
        }
    }

    /// The event can come: a captured frame has a stride that a word holds and finds
    /// the encoder at hand, and the encoder that comes back is sound.
    pub open spec fn expects(self, event: SwEvent) -> bool {
        match event {
            SwEvent::Captured { width, outcome, .. } => outcome is Ok ==> width * 4 <= u32::MAX
                && self.encoder() is Some,
            SwEvent::Encoded { encoder, .. } => encoder.wf(),
            _ => true,
        }
    }

    /// What has happened, for the state.
    pub open spec fn happening(event: SwEvent) -> Happening {
        match event {
            SwEvent::FrameWanted => Happening::FrameWanted,
            SwEvent::Captured { width, height, outcome, .. } => Happening::Captured {
                width,
                height,
                ok: outcome is Ok,
            },
            SwEvent::BrokenOff { .. } => Happening::BrokenOff,
            SwEvent::Encoded { result, .. } => Happening::Encoded { ok: result is Ok },
        }
    }

    /// One step towards the next frame.
    pub fn next_frame(&mut self, event: SwEvent) -> (r: SwAction)
        requires
            old(self).wf(),
            old(self).expects(event),
        ensures
            final(self).wf(),
            final(self).state() == old(self).state().after(Self::happening(event)),
            match event {
                SwEvent::FrameWanted => if old(self).state().poisoned {
                    &&& r matches SwAction::Return(Err(e)) && says(e, poisoned_message())
                    &&& final(self).buffer() == old(self).buffer()
                    &&& final(self).encoder() == old(self).encoder()
                } else {
                    &&& r == (SwAction::Capture { buffer: old(self).buffer() })
                    &&& final(self).buffer()@.len() == 0
                    &&& final(self).encoder() == old(self).encoder()
                },
                SwEvent::Captured { buffer, width, height, outcome, now_us } => match outcome {
                    Ok(_) => {
                        &&& r == SwAction::Encode(
                            EncodeJob {
                                encoder: old(self).encoder()->0,
                                frame: captured_frame(width, height, buffer, now_us),
                                force_idr: old(self).state().idr_pending,
                                timestamp_us: now_us,
                            },
                        )
                        &&& final(self).encoder() is None
                        &&& final(self).buffer()@.len() == 0
                    },
                    Err(e) => {
                        &&& r matches SwAction::Return(Err(x)) && says(x, capture_message(e))
                        &&& final(self).encoder() == old(self).encoder()
                        &&& final(self).buffer() == buffer
                    },
                },
                SwEvent::BrokenOff { why } => {
                    &&& r matches SwAction::Return(Err(e)) && says(e, broken_off_message(why@))
                    &&& final(self).encoder() == old(self).encoder()
                    &&& final(self).buffer() == old(self).buffer()
                },
                SwEvent::Encoded { encoder, buffer, result } => {
                    &&& match result {
                        Ok(frame) => r == SwAction::Return(
                            Ok(EncodedFrame { seq: old(self).state().seq, ..frame }),
                        ),
                        Err(e) => r matches SwAction::Return(Err(ProducerError::Encode(text)))
                            && text@ == e.message(),
                    }
                    &&& final(self).encoder() == Some(encoder)
                    &&& final(self).buffer() == buffer
                },
            },
    {
        match event {
            SwEvent::FrameWanted => match self.state.ready() {
                Err(e) => SwAction::Return(Err(e)),
                Ok(_) => {
                    let mut buffer: Vec<u8> = Vec::new();
                    std::mem::swap(&mut buffer, &mut self.bgra_buf);
                    SwAction::Capture { buffer }
                },
            },
            SwEvent::Captured { buffer, width, height, outcome, now_us } => {
                match self.state.captured(width, height, outcome) {
                    Ok(force_idr) => {
                        let encoder: LinuxSwEncoder = self.encoder.take().unwrap();
                        self.bgra_buf = Vec::new();
                        let frame: BgraFrame = BgraFrame {
                            width,
                            height,
                            stride: width * 4,
                            bgra: buffer,
                            capture_ts_us: now_us,
                        };
                        SwAction::Encode(
                            EncodeJob { encoder, frame, force_idr, timestamp_us: now_us },
                        )
                    },
                    Err(e) => {
                        self.bgra_buf = buffer;
                        SwAction::Return(Err(e))
                    },
                }
            },
            SwEvent::BrokenOff { why } => SwAction::Return(Err(self.state.broken_off(why))),
            SwEvent::Encoded { encoder, buffer, result } => {
                self.encoder = Some(encoder);
                self.bgra_buf = buffer;
                match result {
                    Ok(frame) => SwAction::Return(Ok(self.state.number(frame))),
                    Err(e) => SwAction::Return(Err(ProducerError::Encode(e.to_string()))),
                }
            },
        }
    }

    /// Whether a capture of the given size is the first to differ.
    pub fn warns_of_resize(&self, width: u32, height: u32) -> (r: bool)
        ensures
            r == (!self.state().resize_warned && self.state().resized(width, height).resize_warned),
    {
        self.state.warns_of_resize(width, height)
    }
}

impl VideoProducer for LinuxSwProducer {
    /// The next frame that is captured is encoded as a keyframe.
    open spec fn wants_keyframe(self, before: Self) -> bool {
        &&& self.state() == before.state().after(Happening::KeyframeWanted)
        &&& self.buffer() == before.buffer()
        &&& self.encoder() == before.encoder()
    }

    /// The encoder, if it is at hand, has noted the bitrate.
    open spec fn wants_bitrate(self, before: Self, bps: u32) -> bool {
        &&& before.wf() ==> self.wf()
        &&& self.state() == before.state()
        &&& self.buffer() == before.buffer()
        &&& match before.encoder() {
            None => self.encoder() is None,
            Some(e) => self.encoder() matches Some(f) && f.size() == e.size() && f.next_seq()
                == e.next_seq() && f.keyframe_owed() == e.keyframe_owed() && f.settings()
                == e.settings() && f.native() == e.native() && f.config() == (Openh264EncoderConfig {
                target_bitrate_bps: bps,
                ..e.config()
            }),
        }
    }

    fn request_idr(&mut self) {
        self.state.request_idr();
    }

    fn set_target_bitrate(&mut self, bps: u32) {
        match self.encoder.take() {
            Some(e) => {
                let mut e: LinuxSwEncoder = e;
                e.set_target_bitrate(bps);
                self.encoder = Some(e);
            },
            None => {},
        }
    }

    fn backend_name(&self) -> (r: &'static str)
        ensures
            r@ == "linux-openh264"@,
    {
        "linux-openh264"
    }
}

/// The state after a run of happenings.
pub open spec fn state_after(s: ProducerState, run: Seq<Happening>) -> ProducerState
    decreases run.len(),
{
    if run.len() == 0 {
        s
    } else {
        state_after(s, run.drop_last()).after(run.last())
    }
}

/// How many frames a run of happenings delivered.
pub open spec fn frames_delivered(run: Seq<Happening>) -> nat
    decreases run.len(),
{
    if run.len() == 0 {
        0
    } else {
        frames_delivered(run.drop_last()) + if run.last() == (Happening::Encoded { ok: true }) {
            1nat
        } else {
            0nat
        }
    }
}

/// A frame was captured.
pub open spec fn captures(h: Happening) -> bool {
    h matches Happening::Captured { ok, .. } && ok
}

/// Frames are numbered without gaps: whatever else happens in between, the number
/// grows by one with each delivered frame.
pub proof fn law_frames_are_numbered_without_gaps(s: ProducerState, run: Seq<Happening>)
    requires
        s.seq + frames_delivered(run) <= u64::MAX,
    ensures
        state_after(s, run).seq == s.seq + frames_delivered(run),
    decreases run.len(),
{
    if run.len() > 0 {
        law_frames_are_numbered_without_gaps(s, run.drop_last());
    }
}

/// A producer that has broken off stays so, whatever happens.
pub proof fn law_poison_is_final(s: ProducerState, run: Seq<Happening>)
    requires
        s.poisoned,
    ensures
        state_after(s, run).poisoned,
    decreases run.len(),
{
    if run.len() > 0 {
        law_poison_is_final(s, run.drop_last());
    }
}

/// A keyframe that was asked for stays owed until a frame is captured.
pub proof fn law_keyframe_stays_owed(s: ProducerState, run: Seq<Happening>)
    requires
        s.idr_pending,
        forall|i: int| 0 <= i < run.len() ==> !captures(#[trigger] run[i]),
    ensures
        state_after(s, run).idr_pending,
    decreases run.len(),
{
    if run.len() > 0 {
        assert forall|i: int| 0 <= i < run.drop_last().len() implies !captures(
            #[trigger] run.drop_last()[i],
        ) by {
            assert(run.drop_last()[i] == run[i]);
        }
        law_keyframe_stays_owed(s, run.drop_last());
        assert(run.last() == run[run.len() - 1]);
    }
}

/// A change of size is reported once: after the first report none follows, whatever
/// size comes.
pub proof fn law_a_resize_is_reported_once(s: ProducerState, run: Seq<Happening>)
    requires
        s.resize_warned,
    ensures
        state_after(s, run).resize_warned,
    decreases run.len(),
{
    if run.len() > 0 {
        law_a_resize_is_reported_once(s, run.drop_last());
    }
}

/// A keyframe is owed from the request on until a frame is captured, and not again until
/// the next request.
pub proof fn law_a_keyframe_is_owed_once(s: ProducerState, h: Happening)
    ensures
        h is KeyframeWanted ==> s.after(h).idr_pending,
        captures(h) ==> !s.after(h).idr_pending,
        !(h is KeyframeWanted) && !captures(h) ==> s.after(h).idr_pending == s.idr_pending,
{
}

/// Only breaking off poisons a producer.
pub proof fn law_only_breaking_off_poisons(s: ProducerState, h: Happening)
    ensures
        s.after(h).poisoned <==> s.poisoned || h is BrokenOff,
{
}

/// The size is that of the last capture, whether or not it came to a frame. A change is
/// noted exactly if a capture has another size than the one before it.
pub proof fn law_the_last_capture_gives_the_size(s: ProducerState, h: Happening)
    ensures
        h matches Happening::Captured { width, height, ok } ==> {
            &&& (s.after(h).width, s.after(h).height) == (width, height)
            &&& s.after(h).resize_warned <==> s.resize_warned || (width, height) != (
                s.width,
                s.height,
            )
        },
        !(h is Captured) ==> {
            &&& (s.after(h).width, s.after(h).height) == (s.width, s.height)
            &&& s.after(h).resize_warned == s.resize_warned
        },
{
}

/// A captured frame has rows without padding, four bytes to a pixel, and carries the
/// captured bytes and the time of the capture.
pub proof fn law_captured_frames_have_whole_rows(width: u32, height: u32, buffer: Vec<u8>, now_us: u64)
    requires
        width * 4 <= u32::MAX,
    ensures
        ({
            let f = captured_frame(width, height, buffer, now_us);
            &&& f.stride == 4 * width
            &&& (f.width, f.height) == (width, height)
            &&& f.bgra == buffer
            &&& f.capture_ts_us == now_us
            &&& buffer@.len() == 4 * width * height ==> f.wf()
        }),
{
}

/// Frames a second times the time between two of them fills a second, to less than one
/// frame's microsecond each; without a rate, frames come sixty to the second.
pub proof fn law_the_pace_keeps_the_frame_rate(fps: u32, micros: u64)
    requires
        call_ensures(pacer_micros, (fps,), micros),
    ensures
        fps > 0 ==> micros * fps <= 1_000_000 < (micros + 1) * fps,
        fps == 0 ==> 59 * micros < 1_000_000 < 60 * micros + 60,
{
    if fps > 0 {
        let n = fps as int;
        let q = 1_000_000int / n;
        assert(q * n <= 1_000_000 < (q + 1) * n) by (nonlinear_arith)
            requires
                n >= 1,
                q == 1_000_000int / n,
        ;
    }
}

/// What a captured frame is handed to the encoder with: the captured bytes and size, the
/// time of the capture, and whether a keyframe is owed, which it then is no longer.
pub proof fn law_captured_frames_go_to_the_encoder(
    p: &mut LinuxSwProducer,
    buffer: Vec<u8>,
    width: u32,
    height: u32,
    now_us: u64,
    r: SwAction,
)
    requires
        old(p).wf(),
        old(p).encoder() is Some,
        width * 4 <= u32::MAX,
        call_ensures(
            LinuxSwProducer::next_frame,
            (p, SwEvent::Captured { buffer, width, height, outcome: Ok(()), now_us }),
            r,
        ),
    ensures
        r matches SwAction::Encode(job) && {
            &&& job.frame.bgra == buffer
            &&& (job.frame.width, job.frame.height) == (width, height)
            &&& job.frame.stride == 4 * width
            &&& job.frame.capture_ts_us == now_us
            &&& job.timestamp_us == now_us
            &&& job.force_idr == old(p).state().idr_pending
            &&& Some(job.encoder) == old(p).encoder()
        },
        !final(p).state().idr_pending,
        final(p).state().seq == old(p).state().seq,
{
}

/// An encoded frame is delivered with the next number, and otherwise as the encoder made
/// it; the encoder and the buffer are kept for the next one. A failure takes no number.
pub proof fn law_encoded_frames_get_the_next_number(
    p: &mut LinuxSwProducer,
    encoder: LinuxSwEncoder,
    buffer: Vec<u8>,
    result: Result<EncodedFrame, LinuxMediaError>,
    r: SwAction,
)
    requires
        old(p).wf(),
        encoder.wf(),
        old(p).state().seq < u64::MAX,
        call_ensures(
            LinuxSwProducer::next_frame,
            (p, SwEvent::Encoded { encoder, buffer, result }),
            r,
        ),
    ensures
        result matches Ok(coded) ==> (r matches SwAction::Return(Ok(f)) && {
            &&& f.seq == old(p).state().seq
            &&& f.nal_units == coded.nal_units
            &&& f.is_keyframe == coded.is_keyframe
            &&& f.timestamp_host_us == coded.timestamp_host_us
            &&& (f.width, f.height, f.codec) == (coded.width, coded.height, coded.codec)
        }),
        result is Ok ==> final(p).state().seq == old(p).state().seq + 1,
        result is Err ==> final(p).state().seq == old(p).state().seq && (r matches SwAction::Return(
            Err(_),
        )),
        final(p).encoder() == Some(encoder),
        final(p).buffer() == buffer,
        final(p).state().idr_pending == old(p).state().idr_pending,
{
}

/// A frame that is wanted is captured into the buffer at hand, unless the producer has
/// broken off before.
pub proof fn law_wanted_frames_are_captured(p: &mut LinuxSwProducer, r: SwAction)
    requires
        old(p).wf(),
        call_ensures(LinuxSwProducer::next_frame, (p, SwEvent::FrameWanted), r),
    ensures
        !old(p).state().poisoned ==> r == (SwAction::Capture { buffer: old(p).buffer() }),
        old(p).state().poisoned ==> (r matches SwAction::Return(Err(_))),
        final(p).state() == old(p).state(),
        final(p).encoder() == old(p).encoder(),
{
}

/// A bitrate that is wanted reaches the encoder at hand, of which nothing else changes; a
/// keyframe that is wanted is owed from then on.
pub proof fn law_wishes_reach_the_encoder(
    before: LinuxSwProducer,
    keyed: LinuxSwProducer,
    rated: LinuxSwProducer,
    bps: u32,
)
    requires
        keyed.wants_keyframe(before),
        rated.wants_bitrate(before, bps),
    ensures
        keyed.state().idr_pending,
        keyed.state().seq == before.state().seq,
        keyed.encoder() == before.encoder(),
        rated.state() == before.state(),
        before.encoder() matches Some(e) ==> (rated.encoder() matches Some(f) && {
            &&& f.config().target_bitrate_bps == bps
            &&& f.config().max_fps == e.config().max_fps
            &&& f.size() == e.size()
            &&& f.native() == e.native()
            &&& f.next_seq() == e.next_seq()
        }),
{
}

} // verus!
