//! How well the encoder in use is doing.
//!
//! Latency is judged once per window of frames; failures are judged one by one.

use vstd::prelude::*;
use crate::clock::{Duration, Instant, NANOS_PER_MILLI};
use crate::protocol::ProducerError;

verus! {

#[derive(Debug, Clone, Copy, PartialEq, Eq, Structural)]
pub enum HealthState {
    Healthy,
    Degraded,
    Failing,
    Lost,
}

/// Why the backend is to be changed.
#[derive(Debug, Clone)]
pub enum FailoverReason {
    LatencyDegradation { encode_p95_us: u64, frame_budget_us: u64 },
    ConsecutiveFailures { count: u32 },
    NoSuccessTimeout { idle_ms: u64 },
    DeviceLost { backend: String, reason: String },
}

/// What is to be done about a change of health.
#[derive(Debug)]
pub enum HealthAction {
    /// Keep the backend, scale its bitrate to so many percent and ask for a
    /// keyframe.
    ReconfigureBitrate { factor_percent: u32 },
    /// Change the backend.
    Failover { reason: FailoverReason },
}

/// Where the smoothed latency stands against the frame budget: over one and a
/// half budgets, under one and a fifth, or between.
#[derive(Debug, Clone, Copy, PartialEq, Eq, Structural)]
pub enum Load {
    Over,
    Within,
    Under,
}

/// The smoothed latency after a frame, in whole microseconds, and where it stands.
#[derive(Debug, Clone, Copy, PartialEq, Eq, Structural)]
pub struct LatencyReading {
    pub p95_us: u64,
    pub load: Load,
}

pub const WINDOW_FRAMES: u32 = 30;

pub const DEGRADE_WINDOWS: u32 = 3;

pub const RECOVER_WINDOWS: u32 = 5;

pub const FAILURE_THRESHOLD: u32 = 3;

pub const NO_SUCCESS_NANOS: u64 = 500_000_000;

pub const DEGRADED_PERCENT: u32 = 85;

/// The time for one frame in microseconds, at least one.
pub open spec fn frame_budget(fps: u32) -> u64 {
    let rate = if fps < 1 {
        1
    } else {
        fps as int
    };
    if 1_000_000int / rate < 1 {
        1
    } else {
        (1_000_000int / rate) as u64
    }
}

/// The time for one frame in microseconds, at least one.
pub fn frame_budget_of(fps: u32) -> (r: u64)
    ensures
        r == frame_budget(fps),
        r >= 1,
{
    let rate: u64 = if fps < 1 {
        1
    } else {
        fps as u64
    };
    let budget: u64 = 1_000_000u64 / rate;
    proof {
        assert(0 <= 1_000_000int / rate as int <= 1_000_000) by (nonlinear_arith)
            requires
                rate >= 1,
        ;
    }
    if budget < 1 {
        1
    } else {
        budget
    }
}

/// What a monitor knows.
pub struct HealthView {
    pub state: HealthState,
    pub p95_us: u64,
    pub failures: nat,
    pub last_success: Instant,
    pub budget_us: u64,
    /// Windows in a row that were over, and under, their bounds.
    pub over: nat,
    pub under: nat,
    /// Frames since the window began.
    pub frames: nat,
}

/// The monitor of one backend.
#[derive(Debug)]
pub struct HealthMonitor {
    state: HealthState,
    p95_us: u64,
    consecutive_failures: u32,
    last_success_at: Instant,
    frame_budget_us: u64,
    over_windows: u32,
    under_windows: u32,
    frames_in_window: u32,
}

impl View for HealthMonitor {
    type V = HealthView;

    closed spec fn view(&self) -> HealthView {
        HealthView {
            state: self.state,
            p95_us: self.p95_us,
            failures: self.consecutive_failures as nat,
            last_success: self.last_success_at,
            budget_us: self.frame_budget_us,
            over: self.over_windows as nat,
            under: self.under_windows as nat,
            frames: self.frames_in_window as nat,
        }
    }
}

impl HealthView {
    /// A window is closed as soon as it is full.
    pub open spec fn wf(self) -> bool {
        self.frames < WINDOW_FRAMES
    }

    /// The counters have room for one more.
    pub open spec fn has_room(self) -> bool {
        self.failures < u32::MAX && self.over < u32::MAX && self.under < u32::MAX
    }

    pub open spec fn fresh(budget_us: u64, now: Instant) -> HealthView {
        HealthView {
            state: HealthState::Healthy,
            p95_us: 0,
            failures: 0,
            last_success: now,
            budget_us,
            over: 0,
            under: 0,
            frames: 0,
        }
    }

    /// After the last frame of a window: the runs of windows over and under their
    /// bounds, whichever the load belongs to.
    pub open spec fn window_closed(self, load: Load) -> HealthView {
        HealthView {
            frames: 0,
            over: if load == Load::Over {
                self.over + 1
            } else {
                0
            },
            under: if load == Load::Under {
                self.under + 1
            } else {
                0
            },
            ..self
        }
    }

    /// A frame was encoded.
    pub open spec fn encoded(self, reading: LatencyReading, now: Instant) -> HealthView {
        let counted = HealthView {
            failures: 0,
            last_success: now,
            p95_us: reading.p95_us,
            frames: self.frames + 1,
            ..self
        };
        if counted.frames < WINDOW_FRAMES {
            counted
        } else {
            let closed = counted.window_closed(reading.load);
            if closed.state == HealthState::Healthy && closed.over >= DEGRADE_WINDOWS {
                HealthView { state: HealthState::Degraded, over: 0, ..closed }
            } else if closed.state == HealthState::Degraded && closed.under >= RECOVER_WINDOWS {
                HealthView { state: HealthState::Healthy, under: 0, ..closed }
            } else {
                closed
            }
        }
    }

    /// A frame failed with something else than a lost device.
    pub open spec fn failed(self, now: Instant) -> HealthView {
        let failures = self.failures + 1;
        HealthView {
            failures,
            state: if failures >= FAILURE_THRESHOLD || now.since(self.last_success).nanos
                > NO_SUCCESS_NANOS {
                HealthState::Failing
            } else {
                self.state
            },
            ..self
        }
    }
}

impl HealthMonitor {
    pub fn new(target_fps: u32, now: Instant) -> (r: Self)
        ensures
            r@ == HealthView::fresh(frame_budget(target_fps), now),
            r@.wf(),
    {
        HealthMonitor {
            state: HealthState::Healthy,
            p95_us: 0,
            consecutive_failures: 0,
            last_success_at: now,
            frame_budget_us: frame_budget_of(target_fps),
            over_windows: 0,
            under_windows: 0,
            frames_in_window: 0,
        }
    }

    pub fn current_state(&self) -> (r: HealthState)
        ensures
            r == self@.state,
    {
        self.state
    }

    pub fn encode_p95_ema(&self) -> (r: u64)
        ensures
            r == self@.p95_us,
    {
        self.p95_us
    }

    pub fn frame_budget_us(&self) -> (r: u64)
        ensures
            r == self@.budget_us,
    {
        self.frame_budget_us
    }

    /// Whether another frame can be recorded.
    pub fn has_room(&self) -> (r: bool)
        ensures
            r == (self@.wf() && self@.has_room()),
    {
        self.frames_in_window < WINDOW_FRAMES && self.consecutive_failures < u32::MAX
            && self.over_windows < u32::MAX && self.under_windows < u32::MAX
    }

    /// Starts over for a new backend.
    pub fn reset_for_new_backend(&mut self, now: Instant)
        ensures
            final(self)@ == HealthView::fresh(old(self)@.budget_us, now),
            final(self)@.wf(),
    {
        self.state = HealthState::Healthy;
        self.p95_us = 0;
        self.consecutive_failures = 0;
        self.last_success_at = now;
        self.over_windows = 0;
        self.under_windows = 0;
        self.frames_in_window = 0;
    }

    /// Records an encoded frame. Three windows in a row over their bound degrade
    /// a healthy backend, whose bitrate is then to be lowered; five under theirs
    /// heal a degraded one.
    pub fn record_encode(&mut self, reading: LatencyReading, now: Instant) -> (r: Option<
        HealthAction,
    >)
        requires
            old(self)@.wf(),
            old(self)@.has_room(),
        ensures
            final(self)@ == old(self)@.encoded(reading, now),
            final(self)@.wf(),
            r == if old(self)@.state == HealthState::Healthy && final(self)@.state
                == HealthState::Degraded {
                Some(HealthAction::ReconfigureBitrate { factor_percent: DEGRADED_PERCENT })
            } else {
                None::<HealthAction>
            },
    {
        self.consecutive_failures = 0;
        self.last_success_at = now;
        self.p95_us = reading.p95_us;
        self.frames_in_window = self.frames_in_window + 1;
        if self.frames_in_window < WINDOW_FRAMES {
            return None;
        }
        self.frames_in_window = 0;
        match reading.load {
            Load::Over => {
                self.over_windows = self.over_windows + 1;
                self.under_windows = 0;
            },
            Load::Under => {
                self.under_windows = self.under_windows + 1;
                self.over_windows = 0;
            },
            Load::Within => {
                self.over_windows = 0;
                self.under_windows = 0;
            },
        }
        match self.state {
            HealthState::Healthy => {
                if self.over_windows >= DEGRADE_WINDOWS {
                    self.state = HealthState::Degraded;
                    self.over_windows = 0;
                    return Some(
                        HealthAction::ReconfigureBitrate { factor_percent: DEGRADED_PERCENT },
                    );
                }
            },
            HealthState::Degraded => {
                if self.under_windows >= RECOVER_WINDOWS {
                    self.state = HealthState::Healthy;
                    self.under_windows = 0;
                }
            },
            HealthState::Failing | HealthState::Lost => {},
        }
        None
    }

    /// Records a failed frame. A lost device, a third failure in a row, or a
    /// failure too long after the last success asks for another backend.
    pub fn record_failure(&mut self, err: &ProducerError, now: Instant) -> (r: Option<HealthAction>)
        requires
            old(self)@.has_room(),
        ensures
            err is DeviceLost ==> final(self)@ == (HealthView {
                state: HealthState::Lost,
                ..old(self)@
            }),
            *err matches ProducerError::DeviceLost { backend, reason } ==> r == Some(
                HealthAction::Failover { reason: FailoverReason::DeviceLost { backend, reason } },
            ),
            err !is DeviceLost ==> final(self)@ == old(self)@.failed(now),
            err !is DeviceLost ==> r == if final(self)@.failures >= FAILURE_THRESHOLD {
                Some(
                    HealthAction::Failover {
                        reason: FailoverReason::ConsecutiveFailures {
                            count: final(self)@.failures as u32,
                        },
                    },
                )
            } else if now.since(old(self)@.last_success).nanos > NO_SUCCESS_NANOS {
                Some(
                    HealthAction::Failover {
                        reason: FailoverReason::NoSuccessTimeout {
                            idle_ms: (now.since(old(self)@.last_success).nanos
                                / NANOS_PER_MILLI) as u64,
                        },
                    },
                )
            } else {
                None::<HealthAction>
            },
            old(self)@.wf() ==> final(self)@.wf(),
    {
        match err {
            ProducerError::DeviceLost { backend, reason } => {
                self.state = HealthState::Lost;
                return Some(
                    HealthAction::Failover {
                        reason: FailoverReason::DeviceLost {
                            backend: backend.clone(),
                            reason: reason.clone(),
                        },
                    },
                );
            },
            _ => {},
        }
        self.consecutive_failures = self.consecutive_failures + 1;
        if self.consecutive_failures >= FAILURE_THRESHOLD {
            let count: u32 = self.consecutive_failures;
            self.state = HealthState::Failing;
            return Some(
                HealthAction::Failover { reason: FailoverReason::ConsecutiveFailures { count } },
            );
        }
        let idle: Duration = now.saturating_duration_since(self.last_success_at);
        if idle.nanos > NO_SUCCESS_NANOS {
            let idle_ms: u64 = idle.as_millis();
            self.state = HealthState::Failing;
            return Some(
                HealthAction::Failover { reason: FailoverReason::NoSuccessTimeout { idle_ms } },
            );
        }
        None
    }
}

/// A failing or lost backend stays so, however well it encodes, until the monitor
/// is reset.
pub proof fn law_failing_is_final(m: HealthView, reading: LatencyReading, now: Instant)
    requires
        m.state == HealthState::Failing || m.state == HealthState::Lost,
    ensures
        m.encoded(reading, now).state == m.state,
{
}

/// A success clears the run of failures: two failures before it and one after it
/// do not add up, unless the last comes too late.
pub proof fn law_success_clears_failures(
    m: HealthView,
    reading: LatencyReading,
    t1: Instant,
    t2: Instant,
)
    requires
        m.state == HealthState::Healthy || m.state == HealthState::Degraded,
        t2.since(t1).nanos <= NO_SUCCESS_NANOS,
    ensures
        m.encoded(reading, t1).failed(t2).state == m.encoded(reading, t1).state,
        m.encoded(reading, t1).failed(t2).state != HealthState::Failing,
        m.encoded(reading, t1).failed(t2).failures == 1,
{
}

/// So many whole windows of frames with the same reading, from the start of a
/// window on.
pub open spec fn after_windows(
    m: HealthView,
    reading: LatencyReading,
    now: Instant,
    windows: nat,
) -> HealthView
    decreases windows,
{
    if windows == 0 {
        m
    } else {
        after_frames(
            after_windows(m, reading, now, (windows - 1) as nat),
            reading,
            now,
            WINDOW_FRAMES as nat,
        )
    }
}

/// So many frames with the same reading.
pub open spec fn after_frames(m: HealthView, reading: LatencyReading, now: Instant, n: nat) -> HealthView
    decreases n,
{
    if n == 0 {
        m
    } else {
        after_frames(m, reading, now, (n - 1) as nat).encoded(reading, now)
    }
}

proof fn lemma_frames_in_window(m: HealthView, reading: LatencyReading, now: Instant, n: nat)
    requires
        m.frames == 0,
        n < WINDOW_FRAMES,
    ensures
        after_frames(m, reading, now, n) == if n == 0 {
            m
        } else {
            HealthView {
                failures: 0,
                last_success: now,
                p95_us: reading.p95_us,
                frames: n,
                ..m
            }
        },
    decreases n,
{
    if n > 0 {
        lemma_frames_in_window(m, reading, now, (n - 1) as nat);
    }
}

proof fn lemma_window(m: HealthView, reading: LatencyReading, now: Instant)
    requires
        m.frames == 0,
    ensures
        after_frames(m, reading, now, WINDOW_FRAMES as nat) == (HealthView {
            failures: 0,
            last_success: now,
            p95_us: reading.p95_us,
            frames: 29,
            ..m
        }).encoded(reading, now),
{
    lemma_frames_in_window(m, reading, now, 29);
}

/// Three whole windows over their bound degrade a healthy monitor, and not before
/// the last of them.
pub proof fn law_three_bad_windows_degrade(m: HealthView, p95_us: u64, now: Instant)
    requires
        m.state == HealthState::Healthy,
        m.frames == 0,
        m.over == 0,
    ensures
        ({
            let reading = LatencyReading { p95_us, load: Load::Over };
            &&& after_windows(m, reading, now, 2).state == HealthState::Healthy
            &&& after_windows(m, reading, now, 3).state == HealthState::Degraded
        }),
{
    let reading = LatencyReading { p95_us, load: Load::Over };
    reveal_with_fuel(after_windows, 4);
    lemma_window(m, reading, now);
    lemma_window(after_windows(m, reading, now, 1), reading, now);
    lemma_window(after_windows(m, reading, now, 2), reading, now);
}

/// Five whole windows under their bound heal a degraded monitor.
pub proof fn law_five_good_windows_heal(m: HealthView, p95_us: u64, now: Instant)
    requires
        m.state == HealthState::Degraded,
        m.frames == 0,
        m.under == 0,
    ensures
        ({
            let reading = LatencyReading { p95_us, load: Load::Under };
            &&& after_windows(m, reading, now, 4).state == HealthState::Degraded
            &&& after_windows(m, reading, now, 5).state == HealthState::Healthy
        }),
{
    let reading = LatencyReading { p95_us, load: Load::Under };
    reveal_with_fuel(after_windows, 6);
    lemma_window(m, reading, now);
    lemma_window(after_windows(m, reading, now, 1), reading, now);
    lemma_window(after_windows(m, reading, now, 2), reading, now);
    lemma_window(after_windows(m, reading, now, 3), reading, now);
    lemma_window(after_windows(m, reading, now, 4), reading, now);
}

/// The budget of a frame times the frame rate fills a second, to less than one frame's
/// microsecond each; without a rate it is a whole second, and it is never nothing.
pub proof fn law_frame_budgets_fill_a_second(fps: u32)
    ensures
        1 <= fps <= 1_000_000 ==> frame_budget(fps) * fps <= 1_000_000 < (frame_budget(fps) + 1)
            * fps,
        fps == 0 ==> frame_budget(fps) == 1_000_000,
        fps > 1_000_000 ==> frame_budget(fps) == 1,
{
    if fps >= 1 {
        let n = fps as int;
        let q = 1_000_000int / n;
        assert(q * n <= 1_000_000 < (q + 1) * n) by (nonlinear_arith)
            requires
                n >= 1,
                q == 1_000_000int / n,
        ;
        if fps <= 1_000_000 {
            assert(q >= 1) by (nonlinear_arith)
                requires
                    1 <= n <= 1_000_000,
                    1_000_000 < (q + 1) * n,
            ;
        } else {
            assert(q == 0) by (nonlinear_arith)
                requires
                    n > 1_000_000,
                    q == 1_000_000int / n,
            ;
        }
        assert(q <= 1_000_000) by (nonlinear_arith)
            requires
                n >= 1,
                q * n <= 1_000_000,
                0 <= q,
        ;
    }
}

/// A failure asks for another backend exactly if it is the third in a row or later, or
/// comes more than half a second after the last success; it counts as one more, and
/// leaves the rest as it was.
pub proof fn law_three_failures_or_half_a_second(m: HealthView, now: Instant)
    requires
        m.last_success.nanos <= now.nanos,
    ensures
        ({
            let due = m.failures >= 2 || now.nanos - m.last_success.nanos > 500_000_000;
            let after = m.failed(now);
            &&& due ==> after.state == HealthState::Failing
            &&& !due ==> after.state == m.state
            &&& after.failures == m.failures + 1
            &&& after.last_success == m.last_success
            &&& (after.over, after.under, after.frames) == (m.over, m.under, m.frames)
            &&& (after.p95_us, after.budget_us) == (m.p95_us, m.budget_us)
        }),
{
}

/// Every encoded frame ends the run of failures, sets the time of the last success and
/// the latency. Health is judged with the thirtieth frame of a window only.
pub proof fn law_health_is_judged_by_windows(m: HealthView, reading: LatencyReading, now: Instant)
    requires
        m.frames < 30,
    ensures
        ({
            let after = m.encoded(reading, now);
            &&& after.failures == 0
            &&& after.last_success == now
            &&& after.p95_us == reading.p95_us
            &&& after.budget_us == m.budget_us
            &&& m.frames < 29 ==> (after.state, after.over, after.under, after.frames) == (
                m.state,
                m.over,
                m.under,
                (m.frames + 1) as nat,
            )
            &&& m.frames == 29 ==> after.frames == 0
        }),
{
}

/// A window breaks the runs that it does not belong to: one over its bound ends a run
/// under, one under ends a run over, and one between ends both. A healthy backend is
/// degraded by the third window over in a row and by nothing else, a degraded one healed
/// by the fifth under and by nothing else.
pub proof fn law_windows_count_in_a_row(m: HealthView, reading: LatencyReading, now: Instant)
    requires
        m.frames == 29,
    ensures
        ({
            let after = m.encoded(reading, now);
            let over = reading.load == Load::Over;
            let under = reading.load == Load::Under;
            &&& !over ==> after.over == 0
            &&& !under ==> after.under == 0
            &&& m.state == HealthState::Healthy ==> {
                &&& after.state == HealthState::Degraded <==> over && m.over >= 2
                &&& after.state == HealthState::Degraded || after.state == HealthState::Healthy
                &&& over && m.over < 2 ==> after.over == m.over + 1
                &&& after.state == HealthState::Degraded ==> after.over == 0
                &&& under ==> after.under == m.under + 1
            }
            &&& m.state == HealthState::Degraded ==> {
                &&& after.state == HealthState::Healthy <==> under && m.under >= 4
                &&& after.state == HealthState::Degraded || after.state == HealthState::Healthy
                &&& under && m.under < 4 ==> after.under == m.under + 1
                &&& after.state == HealthState::Healthy ==> after.under == 0
                &&& over ==> after.over == m.over + 1
            }
        }),
{
}

/// A monitor starts healthy, with nothing counted and its last success now.
pub proof fn law_a_fresh_monitor_knows_nothing(budget_us: u64, now: Instant)
    ensures
        ({
            let m = HealthView::fresh(budget_us, now);
            &&& m.state == HealthState::Healthy
            &&& (m.failures, m.over, m.under, m.frames) == (0nat, 0nat, 0nat, 0nat)
            &&& m.p95_us == 0
            &&& m.last_success == now
            &&& m.budget_us == budget_us
        }),
{
}

/// Encoding asks for one thing only, and only when it degrades a healthy backend: that
/// the bitrate be lowered to eighty-five percent.
pub proof fn law_a_degraded_backend_gets_less_bitrate(
    m: &mut HealthMonitor,
    reading: LatencyReading,
    now: Instant,
    r: Option<HealthAction>,
)
    requires
        old(m)@.frames < 30,
        call_ensures(HealthMonitor::record_encode, (m, reading, now), r),
    ensures
        r is Some <==> old(m)@.state == HealthState::Healthy && old(m)@.frames == 29 && reading.load
            == Load::Over && old(m)@.over >= 2,
        r is Some ==> (r->0 matches HealthAction::ReconfigureBitrate { factor_percent }
            && factor_percent == 85),
        r is Some ==> final(m)@.state == HealthState::Degraded,
        final(m)@.failures == 0,
        final(m)@.last_success == now,
{
    if old(m)@.frames == 29 {
        law_windows_count_in_a_row(old(m)@, reading, now);
    }
}

/// A failure that asks for another backend says why: which device is lost, how many
/// frames failed in a row, or for how many whole milliseconds nothing was encoded. The
/// first of these that holds is given.
pub proof fn law_failures_say_why(
    m: &mut HealthMonitor,
    err: ProducerError,
    now: Instant,
    r: Option<HealthAction>,
)
    requires
        old(m)@.last_success.nanos <= now.nanos,
        old(m)@.failures < u32::MAX,
        call_ensures(HealthMonitor::record_failure, (m, &err, now), r),
    ensures
        ({
            let idle = now.nanos - old(m)@.last_success.nanos;
            &&& err matches ProducerError::DeviceLost { backend, reason } ==> {
                &&& final(m)@.state == HealthState::Lost
                &&& r matches Some(HealthAction::Failover { reason: why }) && why
                    == (FailoverReason::DeviceLost { backend, reason })
            }
            &&& !(err is DeviceLost) && old(m)@.failures >= 2 ==> (r matches Some(
                HealthAction::Failover { reason: FailoverReason::ConsecutiveFailures { count } },
            ) && count == old(m)@.failures + 1)
            &&& !(err is DeviceLost) && old(m)@.failures < 2 && idle > 500_000_000 ==> (r matches Some(
                HealthAction::Failover { reason: FailoverReason::NoSuccessTimeout { idle_ms } },
            ) && idle_ms * 1_000_000 <= idle < (idle_ms + 1) * 1_000_000)
            &&& !(err is DeviceLost) && old(m)@.failures < 2 && idle <= 500_000_000 ==> r is None
                && final(m)@.state == old(m)@.state
            &&& r is Some && !(err is DeviceLost) ==> final(m)@.state == HealthState::Failing
        }),
{
}

} // verus!
