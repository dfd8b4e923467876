use std::cell::RefCell;

use prdt_media::clock::{Duration, Instant};
use prdt_media::media_policy::capability::{
    BackendKind, CapabilityProbe, Codec, EncoderCapability,
};
use prdt_media::media_policy::driver::{pick_other, PolicyDriven};
use prdt_media::media_policy::factory::{
    FactoryError, ProducerConfig, ProducerFactory, VideoProducer,
};
use prdt_media::media_policy::health::{
    FailoverReason, HealthAction, HealthMonitor, HealthState, LatencyReading, Load,
};
use prdt_media::media_policy::selection::{
    rank, score_inputs, HistoryTable, PolicyContext, Scored, SelectionPolicy,
};
use prdt_media::protocol::{EncodedFrame, ProducerError};

const START: Instant = Instant { nanos: 1_000_000_000 };

fn after_secs(t: Instant, secs: u64) -> Instant {
    Instant { nanos: t.nanos + Duration::from_secs(secs).nanos }
}

// ---- capabilities ----

struct MockProbe(Vec<EncoderCapability>);

impl CapabilityProbe for MockProbe {
    fn list_encoders(&self) -> Vec<EncoderCapability> {
        self.0.clone()
    }
}

#[test]
fn backend_kind_as_str_is_stable() {
    assert_eq!(BackendKind::Nvenc.as_str(), "nvenc");
    assert_eq!(BackendKind::MfHevc.as_str(), "mf-hevc");
    assert_eq!(BackendKind::Openh264.as_str(), "openh264");
}

#[test]
fn backend_kind_round_trips_via_from_str() {
    for k in [BackendKind::Nvenc, BackendKind::MfHevc, BackendKind::Openh264] {
        let s = k.as_str();
        assert_eq!(s.parse::<BackendKind>().unwrap(), k, "round-trip failed for {k:?}");
    }
    assert_eq!("mf".parse::<BackendKind>().unwrap(), BackendKind::MfHevc);
    assert!("xyz".parse::<BackendKind>().is_err());
}

#[test]
fn an_unknown_backend_is_quoted() {
    assert_eq!(
        BackendKind::parse_name("x\"y").unwrap_err(),
        "unknown BackendKind: \"x\\\"y\""
    );
    assert_eq!(BackendKind::parse_name("vaapi"), Ok(BackendKind::Vaapi));
}

#[test]
fn mock_probe_returns_fixture() {
    let probe = MockProbe(vec![
        EncoderCapability {
            backend: BackendKind::Nvenc,
            codec: Codec::H265,
            max_resolution: (3840, 2160),
            max_fps: 60,
            zero_copy: true,
            priority: 100,
        },
        EncoderCapability {
            backend: BackendKind::Openh264,
            codec: Codec::H264,
            max_resolution: (3840, 2160),
            max_fps: 60,
            zero_copy: false,
            priority: 10,
        },
    ]);
    let caps = probe.list_encoders();
    assert_eq!(caps.len(), 2);
    assert_eq!(caps[0].backend, BackendKind::Nvenc);
    assert_eq!(caps[1].backend, BackendKind::Openh264);
}

// ---- factories ----

struct NamedProducer {
    name: &'static str,
}

impl VideoProducer for NamedProducer {
    fn request_idr(&mut self) {}
    fn set_target_bitrate(&mut self, _bps: u32) {}
    fn backend_name(&self) -> &'static str {
        self.name
    }
}

struct MockFactory {
    calls: RefCell<Vec<(BackendKind, u32, u32, u32, u32)>>,
}

impl ProducerFactory for MockFactory {
    type Producer = NamedProducer;
    fn create(
        &self,
        kind: BackendKind,
        cfg: &ProducerConfig,
    ) -> Result<NamedProducer, FactoryError> {
        self.calls.borrow_mut().push((
            kind,
            cfg.width,
            cfg.height,
            cfg.fps,
            cfg.initial_bitrate_bps,
        ));
        let name = match kind {
            BackendKind::Nvenc => "nvenc-mock",
            BackendKind::MfHevc => "mf-mock",
            BackendKind::Openh264 => "openh264-mock",
            BackendKind::Vaapi => "vaapi-mock",
        };
        Ok(NamedProducer { name })
    }
}

fn config_1080p60() -> ProducerConfig {
    ProducerConfig {
        width: 1920,
        height: 1080,
        fps: 60,
        initial_bitrate_bps: 8_000_000,
        codec: Codec::H265,
    }
}

#[test]
fn mock_factory_records_call() {
    let f = MockFactory { calls: RefCell::new(vec![]) };
    let prod = f.create(BackendKind::Nvenc, &config_1080p60()).unwrap();
    assert_eq!(prod.backend_name(), "nvenc-mock");
    let calls = f.calls.borrow();
    assert_eq!(calls.len(), 1);
    assert_eq!(calls[0], (BackendKind::Nvenc, 1920, 1080, 60, 8_000_000));
}

#[test]
fn factory_error_display() {
    let e = FactoryError::Unavailable(BackendKind::Nvenc, "no NVIDIA driver".into());
    assert_eq!(e.to_string(), "backend Nvenc unavailable: no NVIDIA driver");
    let e2 = FactoryError::InvalidConfig(BackendKind::Openh264, "fps=0".into());
    assert_eq!(e2.to_string(), "config invalid for backend Openh264: fps=0");
}

// ---- health ----

/// A running mean of encode times against the frame budget.
struct Latency {
    ema: f64,
}

impl Latency {
    fn new() -> Self {
        Latency { ema: 0.0 }
    }

    fn read(&mut self, encode_us: u64, budget_us: u64) -> LatencyReading {
        let x = encode_us as f64;
        let alpha = 1.0 / 31.0;
        self.ema = if self.ema == 0.0 { x } else { alpha * x + (1.0 - alpha) * self.ema };
        let load = if self.ema > budget_us as f64 * 1.5 {
            Load::Over
        } else if self.ema < budget_us as f64 * 1.2 {
            Load::Under
        } else {
            Load::Within
        };
        LatencyReading { p95_us: self.ema as u64, load }
    }
}

fn encode(m: &mut HealthMonitor, l: &mut Latency, encode_us: u64) -> Option<HealthAction> {
    let reading = l.read(encode_us, m.frame_budget_us());
    m.record_encode(reading, START)
}

fn budget_60fps() -> u64 {
    1_000_000 / 60
}

#[test]
fn fresh_monitor_is_healthy() {
    let m = HealthMonitor::new(60, START);
    assert_eq!(m.current_state(), HealthState::Healthy);
    assert_eq!(m.frame_budget_us(), budget_60fps());
}

#[test]
fn three_consecutive_overbudget_windows_trigger_degraded() {
    let mut m = HealthMonitor::new(60, START);
    let mut l = Latency::new();
    let mut last_action = None;
    for _ in 0..(30 * 3) {
        last_action = encode(&mut m, &mut l, 30_000);
    }
    assert_eq!(m.current_state(), HealthState::Degraded);
    match last_action {
        Some(HealthAction::ReconfigureBitrate { factor_percent }) => {
            let factor = factor_percent as f64 / 100.0;
            assert!((factor - 0.85).abs() < 1e-6);
        }
        other => panic!("expected ReconfigureBitrate, got {:?}", other),
    }
}

#[test]
fn five_consecutive_underbudget_windows_return_to_healthy() {
    let mut m = HealthMonitor::new(60, START);
    let mut l = Latency::new();
    for _ in 0..(30 * 3) {
        encode(&mut m, &mut l, 30_000);
    }
    assert_eq!(m.current_state(), HealthState::Degraded);
    for _ in 0..(30 * 5) {
        encode(&mut m, &mut l, 10_000);
    }
    assert_eq!(m.current_state(), HealthState::Healthy);
}

#[test]
fn three_consecutive_failures_trigger_failing() {
    let mut m = HealthMonitor::new(60, START);
    let err = ProducerError::Encode("boom".into());
    let r1 = m.record_failure(&err, START);
    let r2 = m.record_failure(&err, START);
    let r3 = m.record_failure(&err, START);
    assert!(r1.is_none());
    assert!(r2.is_none());
    match r3 {
        Some(HealthAction::Failover {
            reason: FailoverReason::ConsecutiveFailures { count },
        }) => {
            assert_eq!(count, 3);
        }
        other => panic!("expected Failover ConsecutiveFailures, got {:?}", other),
    }
    assert_eq!(m.current_state(), HealthState::Failing);
}

#[test]
fn device_lost_immediately_triggers_failover_lost() {
    let mut m = HealthMonitor::new(60, START);
    let err = ProducerError::DeviceLost {
        backend: "nvenc-h265".into(),
        reason: "DXGI_ERROR_DEVICE_REMOVED".into(),
    };
    let action = m.record_failure(&err, START);
    assert_eq!(m.current_state(), HealthState::Lost);
    match action {
        Some(HealthAction::Failover {
            reason: FailoverReason::DeviceLost { backend, reason },
        }) => {
            assert_eq!(backend, "nvenc-h265");
            assert_eq!(reason, "DXGI_ERROR_DEVICE_REMOVED");
        }
        other => panic!("expected Failover DeviceLost, got {:?}", other),
    }
}

#[test]
fn reset_for_new_backend_clears_state() {
    let mut m = HealthMonitor::new(60, START);
    let err = ProducerError::DeviceLost {
        backend: "nvenc-h265".into(),
        reason: "x".into(),
    };
    m.record_failure(&err, START);
    assert_eq!(m.current_state(), HealthState::Lost);
    m.reset_for_new_backend(START);
    assert_eq!(m.current_state(), HealthState::Healthy);
}

#[test]
fn successful_encode_resets_consecutive_failures() {
    let mut m = HealthMonitor::new(60, START);
    let mut l = Latency::new();
    let err = ProducerError::Encode("transient".into());
    m.record_failure(&err, START);
    m.record_failure(&err, START);
    encode(&mut m, &mut l, 5_000);
    let r3 = m.record_failure(&err, START);
    assert!(r3.is_none(), "should not yet be Failing");
}

#[test]
fn a_long_silence_fails_a_backend() {
    let mut m = HealthMonitor::new(60, START);
    let err = ProducerError::Encode("slow".into());
    let half = Instant { nanos: START.nanos + 500_000_000 };
    assert!(m.record_failure(&err, half).is_none());
    match m.record_failure(&err, after_secs(START, 2)) {
        Some(HealthAction::Failover { reason: FailoverReason::NoSuccessTimeout { idle_ms } }) => {
            assert_eq!(idle_ms, 2000);
        }
        other => panic!("expected NoSuccessTimeout, got {other:?}"),
    }
    assert_eq!(m.current_state(), HealthState::Failing);
}

#[test]
fn a_failing_backend_does_not_heal_by_itself() {
    let mut m = HealthMonitor::new(60, START);
    let lost = ProducerError::DeviceLost { backend: "b".into(), reason: "r".into() };
    m.record_failure(&lost, START);
    for _ in 0..300 {
        let action = m.record_encode(LatencyReading { p95_us: 1, load: Load::Under }, START);
        assert!(action.is_none());
    }
    assert_eq!(m.current_state(), HealthState::Lost);
    assert_eq!(m.encode_p95_ema(), 1);
}

// ---- selection ----

/// The weighted score of a candidate.
struct ScoringPolicy {
    priority: f64,
    zero_copy: f64,
    latency_fit: f64,
    reliability: f64,
}

impl ScoringPolicy {
    fn new() -> Self {
        ScoringPolicy { priority: 0.45, zero_copy: 0.20, latency_fit: 0.25, reliability: 0.10 }
    }

    fn score(&self, cap: &EncoderCapability, ctx: &PolicyContext, history: &HistoryTable) -> f64 {
        let i = score_inputs(cap, ctx, history);
        let priority = (i.priority as f64 / 100.0).clamp(0.0, 1.0);
        let zero_copy = if i.zero_copy { 1.0 } else { 0.0 };
        let latency_fit =
            (i.frame_budget_us as f64 / (i.runtime_p95_us as f64).max(1.0)).min(1.0);
        let reliability = beta_posterior(i.successes, i.failures);
        let hint = if i.hinted { 0.5 } else { 0.0 };
        self.priority * priority
            + self.zero_copy * zero_copy
            + self.latency_fit * latency_fit
            + self.reliability * reliability
            + hint
    }
}

fn beta_posterior(s: u32, f: u32) -> f64 {
    (s as f64 + 1.0) / (s as f64 + f as f64 + 2.0)
}

impl SelectionPolicy for ScoringPolicy {
    fn rank(
        &self,
        candidates: &[EncoderCapability],
        ctx: &PolicyContext,
        history: &HistoryTable,
        now: Instant,
    ) -> Vec<BackendKind> {
        let scored: Vec<Scored> = candidates
            .iter()
            .map(|cap| Scored {
                cap: *cap,
                key: self.score(cap, ctx, history).to_bits() as i64,
            })
            .collect();
        rank(&scored, ctx, history, now)
    }
}

fn cap(backend: BackendKind, codec: Codec, prio: i32, zc: bool) -> EncoderCapability {
    EncoderCapability {
        backend,
        codec,
        max_resolution: (3840, 2160),
        max_fps: 60,
        zero_copy: zc,
        priority: prio,
    }
}

fn ctx_h265_1080p60() -> PolicyContext {
    PolicyContext {
        target_resolution: (1920, 1080),
        target_fps: 60,
        target_bitrate_bps: 8_000_000,
        codec: Codec::H265,
        user_override: None,
        user_hint: None,
        force_sw: false,
    }
}

fn three_candidates() -> Vec<EncoderCapability> {
    vec![
        cap(BackendKind::Nvenc, Codec::H265, 100, true),
        cap(BackendKind::MfHevc, Codec::H265, 80, true),
        cap(BackendKind::Openh264, Codec::H265, 10, false),
    ]
}

#[test]
fn rank_prefers_high_priority_zero_copy_backend() {
    let candidates = three_candidates();
    let p = ScoringPolicy::new();
    let ranked = p.rank(&candidates, &ctx_h265_1080p60(), &HistoryTable::new(), START);
    assert_eq!(ranked[0], BackendKind::Nvenc);
    assert_eq!(ranked[1], BackendKind::MfHevc);
    assert_eq!(ranked[2], BackendKind::Openh264);
}

#[test]
fn rank_filters_codec_mismatch() {
    let candidates = vec![
        cap(BackendKind::Nvenc, Codec::H264, 100, true),
        cap(BackendKind::Openh264, Codec::H265, 10, false),
    ];
    let p = ScoringPolicy::new();
    let ranked = p.rank(&candidates, &ctx_h265_1080p60(), &HistoryTable::new(), START);
    assert_eq!(ranked, vec![BackendKind::Openh264]);
}

#[test]
fn rank_force_sw_keeps_only_openh264() {
    let p = ScoringPolicy::new();
    let mut ctx = ctx_h265_1080p60();
    ctx.force_sw = true;
    let ranked = p.rank(&three_candidates(), &ctx, &HistoryTable::new(), START);
    assert_eq!(ranked, vec![BackendKind::Openh264]);
}

#[test]
fn rank_user_override_strict_returns_only_that_backend() {
    let p = ScoringPolicy::new();
    let mut ctx = ctx_h265_1080p60();
    ctx.user_override = Some(BackendKind::MfHevc);
    let ranked = p.rank(&three_candidates(), &ctx, &HistoryTable::new(), START);
    assert_eq!(ranked, vec![BackendKind::MfHevc]);
}

#[test]
fn rank_user_hint_promotes_chosen_backend_above_higher_priority() {
    let candidates = vec![
        cap(BackendKind::Nvenc, Codec::H265, 100, false),
        cap(BackendKind::MfHevc, Codec::H265, 80, false),
    ];
    let p = ScoringPolicy::new();
    let mut ctx = ctx_h265_1080p60();
    ctx.user_hint = Some(BackendKind::MfHevc);
    let ranked = p.rank(&candidates, &ctx, &HistoryTable::new(), START);
    assert_eq!(ranked[0], BackendKind::MfHevc);
    assert_eq!(ranked[1], BackendKind::Nvenc);
}

#[test]
fn demanding_software_ranks_as_an_override_does() {
    let p = ScoringPolicy::new();
    let mut demanded = ctx_h265_1080p60();
    demanded.force_sw = true;
    let mut overridden = ctx_h265_1080p60();
    overridden.user_override = Some(BackendKind::Openh264);
    let history = HistoryTable::new();
    let ranked = p.rank(&three_candidates(), &demanded, &history, START);
    assert_eq!(ranked, p.rank(&three_candidates(), &overridden, &history, START));
    assert_eq!(ranked, vec![BackendKind::Openh264]);
}

#[test]
fn a_hint_leaves_the_others_in_the_ranking() {
    let p = ScoringPolicy::new();
    let mut ctx = ctx_h265_1080p60();
    ctx.user_hint = Some(BackendKind::Openh264);
    let ranked = p.rank(&three_candidates(), &ctx, &HistoryTable::new(), START);
    assert_eq!(ranked.len(), 3);
    assert!(ranked.contains(&BackendKind::Nvenc) && ranked.contains(&BackendKind::MfHevc));
}

#[test]
fn an_override_has_no_backend_to_change_to() {
    let p = ScoringPolicy::new();
    let mut ctx = ctx_h265_1080p60();
    ctx.user_override = Some(BackendKind::Nvenc);
    let mut history = HistoryTable::new();
    let ranked = p.rank(&three_candidates(), &ctx, &history, START);
    assert_eq!(ranked, vec![BackendKind::Nvenc]);
    assert_eq!(pick_other(&ranked, BackendKind::Nvenc), None);
    history.record_failure(BackendKind::Nvenc, START);
    let ranked = p.rank(&three_candidates(), &ctx, &history, START);
    assert_eq!(pick_other(&ranked, BackendKind::Nvenc), None);
}

#[test]
fn cooldown_excludes_recently_failed_backend() {
    let candidates = vec![
        cap(BackendKind::Nvenc, Codec::H265, 100, true),
        cap(BackendKind::Openh264, Codec::H265, 10, false),
    ];
    let mut history = HistoryTable::new();
    history.record_failure(BackendKind::Nvenc, START);
    let p = ScoringPolicy::new();
    let ranked = p.rank(&candidates, &ctx_h265_1080p60(), &history, START);
    assert_eq!(ranked, vec![BackendKind::Openh264]);
}

#[test]
fn beta_posterior_cold_start_is_half() {
    assert!((beta_posterior(0, 0) - 0.5).abs() < 1e-9);
}

#[test]
fn rank_is_invariant_under_input_shuffle() {
    let mut candidates = three_candidates();
    let p = ScoringPolicy::new();
    let baseline = p.rank(&candidates, &ctx_h265_1080p60(), &HistoryTable::new(), START);
    candidates.reverse();
    let reversed = p.rank(&candidates, &ctx_h265_1080p60(), &HistoryTable::new(), START);
    assert_eq!(baseline, reversed);
}

#[test]
fn ties_go_to_the_backend_that_is_named_first() {
    let at = |backend, key| Scored { cap: cap(backend, Codec::H265, 0, false), key };
    let scored = [
        at(BackendKind::Vaapi, 7),
        at(BackendKind::Openh264, 7),
        at(BackendKind::Nvenc, 7),
        at(BackendKind::MfHevc, 8),
    ];
    let ranked = rank(&scored, &ctx_h265_1080p60(), &HistoryTable::new(), START);
    assert_eq!(
        ranked,
        vec![
            BackendKind::MfHevc,
            BackendKind::Nvenc,
            BackendKind::Openh264,
            BackendKind::Vaapi
        ]
    );
}

#[test]
fn a_backend_that_is_too_small_is_not_ranked() {
    let mut small = cap(BackendKind::Nvenc, Codec::H265, 100, true);
    small.max_resolution = (1280, 720);
    let mut slow = cap(BackendKind::MfHevc, Codec::H265, 80, true);
    slow.max_fps = 30;
    let p = ScoringPolicy::new();
    let ranked = p.rank(&[small, slow], &ctx_h265_1080p60(), &HistoryTable::new(), START);
    assert!(ranked.is_empty());
}

#[test]
fn a_failed_backend_rests_and_the_rest_grows() {
    let mut h = HistoryTable::new();
    let b = BackendKind::Nvenc;
    assert!(h.cooldown_remaining(b, START).is_zero());
    h.record_failure(b, START);
    assert_eq!(h.cooldown_remaining(b, START), Duration::from_secs(10));
    assert_eq!(h.cooldown_remaining(b, after_secs(START, 4)), Duration::from_secs(6));
    assert!(h.cooldown_remaining(b, after_secs(START, 10)).is_zero());
    h.record_failure(b, START);
    assert_eq!(h.cooldown_remaining(b, START), Duration::from_secs(20));
    for _ in 0..6 {
        h.record_failure(b, START);
    }
    assert_eq!(h.cooldown_remaining(b, START), Duration::from_secs(300));
    assert_eq!(h.failures(b), 8);
    assert!(h.cooldown_remaining(BackendKind::MfHevc, START).is_zero());
}

#[test]
fn the_history_counts_each_backend_by_itself() {
    let mut h = HistoryTable::new();
    h.record_success(BackendKind::Vaapi);
    h.record_success(BackendKind::Vaapi);
    h.update_encode_p95(BackendKind::MfHevc, 9_000);
    assert_eq!(h.successes(BackendKind::Vaapi), 2);
    assert_eq!(h.successes(BackendKind::MfHevc), 0);
    assert_eq!(h.recent_encode_p95_us(BackendKind::MfHevc), Some(9_000));
    assert_eq!(h.recent_encode_p95_us(BackendKind::Vaapi), None);
    assert_eq!(h.stats(BackendKind::Vaapi).successes, 2);
}

// ---- driver ----

/// A producer that answers from a script.
struct ScriptedProducer {
    script: Vec<Result<EncodedFrame, ProducerError>>,
    backend_name: &'static str,
    bitrates: Vec<u32>,
    idrs: u32,
}

impl ScriptedProducer {
    fn new(backend_name: &'static str, script: Vec<Result<EncodedFrame, ProducerError>>) -> Self {
        ScriptedProducer { script, backend_name, bitrates: vec![], idrs: 0 }
    }

    fn next_frame(&mut self) -> Result<EncodedFrame, ProducerError> {
        if self.script.is_empty() {
            return Err(ProducerError::Other("script exhausted".into()));
        }
        self.script.remove(0)
    }
}

impl VideoProducer for ScriptedProducer {
    fn request_idr(&mut self) {
        self.idrs += 1;
    }
    fn set_target_bitrate(&mut self, bps: u32) {
        self.bitrates.push(bps);
    }
    fn backend_name(&self) -> &'static str {
        self.backend_name
    }
}

struct QueuedFactory {
    nvenc_queue: RefCell<Vec<ScriptedProducer>>,
    mf_queue: RefCell<Vec<ScriptedProducer>>,
}

impl ProducerFactory for QueuedFactory {
    type Producer = ScriptedProducer;
    fn create(
        &self,
        kind: BackendKind,
        _cfg: &ProducerConfig,
    ) -> Result<ScriptedProducer, FactoryError> {
        let queue = match kind {
            BackendKind::Nvenc => &self.nvenc_queue,
            BackendKind::MfHevc => &self.mf_queue,
            _ => return Err(FactoryError::Unavailable(kind, "not in queue".into())),
        };
        let next = queue.borrow_mut().pop();
        next.ok_or_else(|| FactoryError::Unavailable(kind, "queue empty".into()))
    }
}

fn keyframe() -> EncodedFrame {
    EncodedFrame {
        seq: 1,
        timestamp_host_us: 0,
        is_keyframe: true,
        nal_units: bytes::Bytes::from_static(&[0x00, 0x00, 0x00, 0x01, 0x65]),
        width: 1920,
        height: 1080,
        codec: prdt_media::protocol::Codec::H265,
    }
}

fn two_backends() -> MockProbe {
    MockProbe(vec![
        cap(BackendKind::Nvenc, Codec::H265, 100, true),
        cap(BackendKind::MfHevc, Codec::H265, 80, true),
    ])
}

fn device_lost() -> ProducerError {
    ProducerError::DeviceLost {
        backend: "nvenc-h265".into(),
        reason: "DXGI_ERROR_DEVICE_REMOVED".into(),
    }
}

fn driven(
    nvenc: Vec<ScriptedProducer>,
    mf: Vec<ScriptedProducer>,
) -> Result<PolicyDriven<MockProbe, QueuedFactory, ScoringPolicy>, FactoryError> {
    let factory = QueuedFactory { nvenc_queue: RefCell::new(nvenc), mf_queue: RefCell::new(mf) };
    PolicyDriven::bootstrap(
        two_backends(),
        factory,
        ScoringPolicy::new(),
        config_1080p60(),
        ctx_h265_1080p60(),
        START,
    )
}

#[test]
fn device_lost_on_nvenc_swaps_to_mf_and_recovers() {
    let nvenc = ScriptedProducer::new("nvenc-h265", vec![Err(device_lost())]);
    let mf = ScriptedProducer::new("mf-h265", vec![Ok(keyframe())]);
    let mut d = driven(vec![nvenc], vec![mf])
        .expect("bootstrap should succeed (NVENC factory call OK)");
    assert_eq!(d.backend_name(), "nvenc-h265");

    let err = d.inner_mut().next_frame().unwrap_err();
    assert!(matches!(d.on_error(&err, START), Ok(true)));
    let frame = d
        .inner_mut()
        .next_frame()
        .expect("after swap, MF should yield a frame");
    assert!(frame.is_keyframe);
    assert_eq!(
        d.backend_name(),
        "mf-h265",
        "PolicyDriven should now be on MF"
    );
    assert_eq!(d.backend_kind(), BackendKind::MfHevc);
    assert_eq!(d.monitor().current_state(), HealthState::Healthy);
}

#[test]
fn without_another_backend_the_change_fails() {
    let nvenc = ScriptedProducer::new("nvenc-h265", vec![]);
    let mut d = driven(vec![nvenc], vec![]).expect("bootstrap");
    assert!(d.on_error(&device_lost(), START).is_err());
}

#[test]
fn the_next_backend_is_tried_where_the_first_cannot_be_made() {
    let mf = ScriptedProducer::new("mf-h265", vec![]);
    let d = driven(vec![], vec![mf]).expect("bootstrap");
    assert_eq!(d.backend_name(), "mf-h265");
    assert_eq!(d.current_bitrate_bps(), 8_000_000);
    match driven(vec![], vec![]) {
        Err(e) => assert_eq!(e.to_string(), "backend MfHevc unavailable: queue empty"),
        Ok(_) => panic!("expected no backend"),
    }
}

#[test]
fn nobody_to_choose_from_is_an_error() {
    let factory = QueuedFactory {
        nvenc_queue: RefCell::new(vec![]),
        mf_queue: RefCell::new(vec![]),
    };
    let r = PolicyDriven::bootstrap(
        MockProbe(vec![]),
        factory,
        ScoringPolicy::new(),
        config_1080p60(),
        ctx_h265_1080p60(),
        START,
    );
    match r {
        Err(e) => assert_eq!(
            e.to_string(),
            "backend Openh264 unavailable: no candidate survived policy filter"
        ),
        Ok(_) => panic!("expected no backend"),
    }
}

#[test]
fn a_degraded_backend_gets_less_to_do() {
    let nvenc = ScriptedProducer::new("nvenc-h265", vec![]);
    let mut d = driven(vec![nvenc], vec![]).expect("bootstrap");
    for _ in 0..90 {
        d.on_frame(30_000, LatencyReading { p95_us: 30_000, load: Load::Over }, 6_800_000, START);
    }
    assert_eq!(d.current_bitrate_bps(), 6_800_000);
    assert_eq!(d.monitor().current_state(), HealthState::Degraded);
    let inner = d.inner_mut();
    assert_eq!((inner.bitrates.clone(), inner.idrs), (vec![6_800_000], 1));
    d.set_target_bitrate(5_000_000);
    d.request_idr();
    assert_eq!(d.current_bitrate_bps(), 5_000_000);
    assert_eq!(d.inner_mut().idrs, 2);
}

#[test]
fn a_single_failure_stands() {
    let nvenc = ScriptedProducer::new("nvenc-h265", vec![]);
    let mut d = driven(vec![nvenc], vec![]).expect("bootstrap");
    let err = ProducerError::Encode("transient".into());
    assert!(matches!(d.on_error(&err, START), Ok(false)));
    assert_eq!(d.backend_name(), "nvenc-h265");
}

#[test]
fn another_backend_is_picked_in_order() {
    let ranked = vec![BackendKind::Nvenc, BackendKind::MfHevc, BackendKind::Openh264];
    assert_eq!(pick_other(&ranked, BackendKind::Nvenc), Some(BackendKind::MfHevc));
    assert_eq!(pick_other(&ranked, BackendKind::MfHevc), Some(BackendKind::Nvenc));
    assert_eq!(pick_other(&vec![BackendKind::Nvenc], BackendKind::Nvenc), None);
}
