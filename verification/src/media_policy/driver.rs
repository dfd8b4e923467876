//! A producer that changes its backend when the one in use fails.

use vstd::prelude::*;
use crate::clock::Instant;
use crate::media_policy::capability::{BackendKind, CapabilityProbe, EncoderCapability};
use crate::media_policy::factory::{FactoryError, ProducerConfig, ProducerFactory, VideoProducer};
use crate::media_policy::health::{
    frame_budget, law_frame_budgets_fill_a_second, law_health_is_judged_by_windows,
    law_windows_count_in_a_row, HealthAction, HealthMonitor, HealthState, HealthView,
    LatencyReading, Load, FAILURE_THRESHOLD, NO_SUCCESS_NANOS,
};
use crate::media_policy::selection::{
    after_failure, law_only_eligible_backends_are_ranked, ranking, rest_left, BackendStats,
    HistoryTable, PolicyContext, Scored, SelectionPolicy, COOLDOWN_MOST_NANOS,
};
use crate::protocol::ProducerError;

verus! {

/// A producer with the policy that may replace it.
pub struct PolicyDriven<P: CapabilityProbe, F: ProducerFactory, S: SelectionPolicy> {
    probe: P,
    factory: F,
    policy: S,
    monitor: HealthMonitor,
    history: HistoryTable,
    inner: F::Producer,
    inner_kind: BackendKind,
    cfg: ProducerConfig,
    ctx: PolicyContext,
    current_bitrate_bps: u32,
}

/// The policy was asked to rank what the probe listed, and ranked it so.
pub open spec fn ranked_by<P: CapabilityProbe, S: SelectionPolicy>(
    probe: P,
    policy: S,
    ctx: PolicyContext,
    history: HistoryTable,
    now: Instant,
    ranked: Seq<BackendKind>,
) -> bool {
    exists|listed: Vec<EncoderCapability>, seen: &[EncoderCapability], out: Vec<BackendKind>|
        {
            &&& #[trigger] call_ensures(P::list_encoders, (&probe,), listed)
            &&& seen@ == listed@
            &&& #[trigger] call_ensures(S::rank, (&policy, seen, &ctx, &history, now), out)
            &&& out@ == ranked
        }
}

/// The factory was asked for a backend and could not make a producer.
pub open spec fn could_not_make<F: ProducerFactory>(
    factory: F,
    kind: BackendKind,
    cfg: ProducerConfig,
) -> bool {
    exists|e: FactoryError|
        call_ensures(F::create, (&factory, kind, &cfg), Err::<F::Producer, FactoryError>(e))
}

/// The producer was asked for the bitrate and then for a keyframe.
pub open spec fn retuned<V: VideoProducer>(v: V, before: V, bps: u32) -> bool {
    exists|mid: V| #[trigger] mid.wants_bitrate(before, bps) && v.wants_keyframe(mid)
}

/// The factory was asked for a backend and made the producer, which was then asked
/// for the bitrate and for a keyframe.
pub open spec fn made_ready<F: ProducerFactory>(
    factory: F,
    kind: BackendKind,
    cfg: ProducerConfig,
    bps: u32,
    producer: F::Producer,
) -> bool {
    exists|made: F::Producer|
        {
            &&& #[trigger] call_ensures(
                F::create,
                (&factory, kind, &cfg),
                Ok::<F::Producer, FactoryError>(made),
            )
            &&& retuned(producer, made, bps)
        }
}

/// The failure tells why the factory could not make a producer.
pub open spec fn refused_with<F: ProducerFactory>(
    factory: F,
    kind: BackendKind,
    cfg: ProducerConfig,
    e: ProducerError,
) -> bool {
    exists|why: FactoryError|
        {
            &&& #[trigger] call_ensures(
                F::create,
                (&factory, kind, &cfg),
                Err::<F::Producer, FactoryError>(why),
            )
            &&& e matches ProducerError::Other(text) && text@ == factory_failed_message(kind, why)
        }
}

/// The factory was asked for each of the first `n` backends, and made none.
pub open spec fn none_of_first<F: ProducerFactory>(
    factory: F,
    ranked: Seq<BackendKind>,
    cfg: ProducerConfig,
    n: int,
) -> bool {
    forall|j: int| 0 <= j < n ==> could_not_make(factory, #[trigger] ranked[j], cfg)
}

/// The first ranked backend that is not the current one.
pub open spec fn first_other(ranked: Seq<BackendKind>, current: BackendKind) -> Option<BackendKind>
    decreases ranked.len(),
{
    if ranked.len() == 0 {
        None
    } else if ranked[0] != current {
        Some(ranked[0])
    } else {
        first_other(ranked.skip(1), current)
    }
}

/// Picks the first ranked backend that is not the current one.
pub fn pick_other(ranked: &Vec<BackendKind>, current: BackendKind) -> (r: Option<BackendKind>)
    ensures
        r == first_other(ranked@, current),
        r matches Some(k) ==> k != current && ranked@.contains(k),
{
    let mut i: usize = 0;
    assert(ranked@.skip(0) =~= ranked@);
    while i < ranked.len()
        invariant
            i <= ranked@.len(),
            first_other(ranked@, current) == first_other(ranked@.skip(i as int), current),
        decreases ranked@.len() - i,
    {
        let kind: BackendKind = ranked[i];
        assert(ranked@.skip(i as int)[0] == kind);
        if kind != current {
            return Some(kind);
        }
        assert(ranked@.skip(i as int).skip(1) =~= ranked@.skip(i + 1));
        i += 1;
    }
    None
}

proof fn lemma_no_other(ranked: Seq<BackendKind>, current: BackendKind)
    requires
        forall|k: int| 0 <= k < ranked.len() ==> #[trigger] ranked[k] == current,
    ensures
        first_other(ranked, current) is None,
    decreases ranked.len(),
{
    if ranked.len() > 0 {
        assert forall|k: int| 0 <= k < ranked.skip(1).len() implies #[trigger] ranked.skip(1)[k]
            == current by {
            assert(ranked.skip(1)[k] == ranked[k + 1]);
        }
        lemma_no_other(ranked.skip(1), current);
    }
}

/// An override is strict: once its backend is in use, no ranking has another one to
/// change to.
pub proof fn law_an_override_allows_no_change(
    scored: Seq<Scored>,
    ctx: PolicyContext,
    history: HistoryTable,
    now: Instant,
    current: BackendKind,
)
    requires
        ctx.user_override == Some(current),
    ensures
        first_other(ranking(scored, ctx, history, now), current) is None,
{
    let ranked = ranking(scored, ctx, history, now);
    assert forall|k: int| 0 <= k < ranked.len() implies #[trigger] ranked[k] == current by {
        law_only_eligible_backends_are_ranked(scored, ctx, history, now, k);
    }
    lemma_no_other(ranked, current);
}

/// The message of a change that found no other backend.
pub open spec fn no_candidate_message(current: BackendKind) -> Seq<char> {
    "no failover candidate available (current = "@ + current.label() + ")"@
}

/// The message of a change whose backend could not be made.
pub open spec fn factory_failed_message(next: BackendKind, why: FactoryError) -> Seq<char> {
    "factory failed for "@ + next.label() + ": "@ + why.message()
}

/// What a change of backend ended with.
pub open spec fn change_result(r: Result<bool, ProducerError>) -> Result<(), ProducerError> {
    match r {
        Ok(_) => Ok(()),
        Err(e) => Err(e),
    }
}

/// Whether a failed frame asks for another backend.
pub open spec fn asks_for_change(m: HealthView, err: ProducerError, now: Instant) -> bool {
    err is DeviceLost || m.failures + 1 >= FAILURE_THRESHOLD || now.since(m.last_success).nanos
        > NO_SUCCESS_NANOS
}

impl<P: CapabilityProbe, F: ProducerFactory, S: SelectionPolicy> PolicyDriven<P, F, S> {
    pub closed spec fn kind(self) -> BackendKind {
        self.inner_kind
    }

    pub closed spec fn producer(self) -> F::Producer {
        self.inner
    }

    pub closed spec fn bitrate(self) -> u32 {
        self.current_bitrate_bps
    }

    pub closed spec fn health(self) -> HealthView {
        self.monitor@
    }

    pub closed spec fn stats(self, b: BackendKind) -> BackendStats {
        self.history.at(b)
    }

    pub closed spec fn record(self) -> HistoryTable {
        self.history
    }

    pub closed spec fn config(self) -> ProducerConfig {
        self.cfg
    }

    pub closed spec fn context(self) -> PolicyContext {
        self.ctx
    }

    pub closed spec fn parts(self) -> (P, F, S) {
        (self.probe, self.factory, self.policy)
    }

    /// What the producer is driven with stays the same.
    pub open spec fn same_setup(self, other: Self) -> bool {
        self.config() == other.config() && self.context() == other.context() && self.parts()
            == other.parts()
    }

    /// The counters of the monitor and of the backend in use have room for one
    /// more, and the clock for the longest rest.
    pub open spec fn has_room(self, now: Instant) -> bool {
        &&& self.health().wf()
        &&& self.health().has_room()
        &&& self.stats(self.kind()).successes < u32::MAX
        &&& self.stats(self.kind()).failures < u32::MAX
        &&& now.nanos + COOLDOWN_MOST_NANOS <= u64::MAX
    }

    /// Whether another frame can be taken note of.
    pub fn can_go_on(&self, now: Instant) -> (r: bool)
        ensures
            r == self.has_room(now),
    {
        let stats: BackendStats = self.history.stats(self.inner_kind);
        self.monitor.has_room() && stats.successes < u32::MAX && stats.failures < u32::MAX
            && now.nanos <= u64::MAX - COOLDOWN_MOST_NANOS
    }

    /// Lists and ranks the backends, and starts the first that can be made. Where
    /// none can, the last failure is given.
    pub fn bootstrap(
        probe: P,
        factory: F,
        policy: S,
        cfg: ProducerConfig,
        ctx: PolicyContext,
        now: Instant,
    ) -> (r: Result<Self, FactoryError>)
        ensures
            exists|ranked: Seq<BackendKind>, blank: HistoryTable|
                {
                    &&& #[trigger] ranked_by(probe, policy, ctx, blank, now, ranked)
                    &&& forall|b: BackendKind| #[trigger] blank.at(b) == BackendStats::none_yet()
                    &&& match r {
                        Ok(d) => exists|i: int|
                            {
                                &&& 0 <= i < ranked.len()
                                &&& none_of_first(factory, ranked, cfg, i)
                                &&& call_ensures(
                                    F::create,
                                    (&factory, #[trigger] ranked[i], &cfg),
                                    Ok::<F::Producer, FactoryError>(d.producer()),
                                )
                                &&& d.kind() == ranked[i]
                            },
                        Err(e) => if ranked.len() == 0 {
                            e matches FactoryError::Unavailable(k, why) && k
                                == BackendKind::Openh264 && why@
                                == "no candidate survived policy filter"@
                        } else {
                            &&& none_of_first(factory, ranked, cfg, ranked.len() as int)
                            &&& call_ensures(
                                F::create,
                                (&factory, ranked.last(), &cfg),
                                Err::<F::Producer, FactoryError>(e),
                            )
                        },
                    }
                },
            r matches Ok(d) ==> {
                &&& d.bitrate() == cfg.initial_bitrate_bps
                &&& d.health() == HealthView::fresh(frame_budget(cfg.fps), now)
                &&& forall|b: BackendKind| #[trigger] d.stats(b) == BackendStats::none_yet()
                &&& d.config() == cfg
                &&& d.context() == ctx
                &&& d.parts() == (probe, factory, policy)
            },
    {
        let candidates: Vec<EncoderCapability> = probe.list_encoders();
        let blank: HistoryTable = HistoryTable::new();
        let seen: &[EncoderCapability] = candidates.as_slice();
        let ranked: Vec<BackendKind> = policy.rank(seen, &ctx, &blank, now);
        proof {
            assert(call_ensures(P::list_encoders, (&probe,), candidates));
            assert(call_ensures(S::rank, (&policy, seen, &ctx, &blank, now), ranked));
            assert(ranked_by(probe, policy, ctx, blank, now, ranked@));
        }
        if ranked.len() == 0 {
            return Err(
                FactoryError::Unavailable(
                    BackendKind::Openh264,
                    String::from_str("no candidate survived policy filter"),
                ),
            );
        }
        let mut i: usize = 0;
        let mut last: Option<FactoryError> = None;
        while i < ranked.len()
            invariant
                0 <= i <= ranked@.len(),
                ranked_by(probe, policy, ctx, blank, now, ranked@),
                forall|b: BackendKind| #[trigger] blank.at(b) == BackendStats::none_yet(),
                none_of_first(factory, ranked@, cfg, i as int),
                i > 0 ==> (last matches Some(e) && call_ensures(
                    F::create,
                    (&factory, ranked@[i - 1], &cfg),
                    Err::<F::Producer, FactoryError>(e),
                )),
            decreases ranked@.len() - i,
        {
            let kind: BackendKind = ranked[i];
            match factory.create(kind, &cfg) {
                Ok(producer) => {
                    let bps: u32 = cfg.initial_bitrate_bps;
                    let d: Self = PolicyDriven {
                        probe,
                        factory,
                        policy,
                        monitor: HealthMonitor::new(cfg.fps, now),
                        history: HistoryTable::new(),
                        inner: producer,
                        inner_kind: kind,
                        cfg,
                        ctx,
                        current_bitrate_bps: bps,
                    };
                    assert(call_ensures(
                        F::create,
                        (&factory, ranked@[i as int], &cfg),
                        Ok::<F::Producer, FactoryError>(d.producer()),
                    ));
                    return Ok(d);
                },
                Err(e) => {
                    assert(call_ensures(
                        F::create,
                        (&factory, kind, &cfg),
                        Err::<F::Producer, FactoryError>(e),
                    ));
                    assert(could_not_make(factory, ranked@[i as int], cfg));
                    last = Some(e);
                },
            }
            i += 1;
        }
        match last {
            Some(e) => Err(e),
            None => Err(
                FactoryError::Unavailable(
                    BackendKind::Openh264,
                    String::from_str("no candidate survived policy filter"),
                ),
            ),
        }
    }

    /// Changes to the best backend other than the one in use, which is put to
    /// rest. The bitrate is kept, and the new backend starts with a keyframe and a
    /// clean record of health. Where no backend can take over, the one in use
    /// stays.
    fn swap_to_next(&mut self, now: Instant) -> (r: Result<(), ProducerError>)
        requires
            old(self).stats(old(self).kind()).failures < u32::MAX,
            now.nanos + COOLDOWN_MOST_NANOS <= u64::MAX,
        ensures
            final(self).swapped(*old(self), now, r),
    {
        let ghost before = *self;
        self.history.record_failure(self.inner_kind, now);
        let candidates: Vec<EncoderCapability> = self.probe.list_encoders();
        let seen: &[EncoderCapability] = candidates.as_slice();
        let ranked: Vec<BackendKind> = self.policy.rank(seen, &self.ctx, &self.history, now);
        proof {
            assert(call_ensures(P::list_encoders, (&self.probe,), candidates));
            assert(call_ensures(
                S::rank,
                (&self.policy, seen, &self.ctx, &self.history, now),
                ranked,
            ));
            assert(ranked_by(
                self.parts().0,
                self.parts().2,
                self.context(),
                self.record(),
                now,
                ranked@,
            ));
        }
        let next: BackendKind = match pick_other(&ranked, self.inner_kind) {
            Some(kind) => kind,
            None => {
                let mut why: String = String::from_str(
                    "no failover candidate available (current = ",
                );
                why.append(self.inner_kind.as_label());
                why.append(")");
                assert(why@ == no_candidate_message(before.kind()));
                let r: Result<(), ProducerError> = Err(ProducerError::Other(why));
                assert(self.same_setup(before));
                assert(self.swapped(before, now, r));
                return r;
            },
        };
        match self.factory.create(next, &self.cfg) {
            Err(e) => {
                assert(call_ensures(
                    F::create,
                    (&self.factory, next, &self.cfg),
                    Err::<F::Producer, FactoryError>(e),
                ));
                let mut why: String = String::from_str("factory failed for ");
                why.append(next.as_label());
                why.append(": ");
                why.append(e.to_string().as_str());
                assert(why@ == factory_failed_message(next, e));
                let r: Result<(), ProducerError> = Err(ProducerError::Other(why));
                assert(refused_with(before.parts().1, next, before.config(), r->Err_0));
                assert(self.swapped(before, now, r));
                r
            },
            Ok(producer) => {
                let ghost made = producer;
                assert(call_ensures(
                    F::create,
                    (&self.factory, next, &self.cfg),
                    Ok::<F::Producer, FactoryError>(made),
                ));
                let mut producer: F::Producer = producer;
                producer.set_target_bitrate(self.current_bitrate_bps);
                assert(producer.wants_bitrate(made, before.bitrate()));
                producer.request_idr();
                assert(retuned(producer, made, before.bitrate()));
                self.inner = producer;
                self.inner_kind = next;
                self.monitor.reset_for_new_backend(now);
                proof {
                    assert(made_ready(
                        before.parts().1,
                        next,
                        before.config(),
                        before.bitrate(),
                        self.producer(),
                    ));
                    assert(first_other(ranked@, before.kind()) == Some(next));
                    assert(self.health() == HealthView::fresh(before.health().budget_us, now));
                    assert(self.kind() == next && next != before.kind());
                    assert(ranked_by(
                        before.parts().0,
                        before.parts().2,
                        before.context(),
                        self.record(),
                        now,
                        ranked@,
                    ));
                    assert(self.swapped(before, now, Ok(())));
                }
                Ok(())
            },
        }
    }

    /// What a change of backend leaves behind.
    pub open spec fn swapped(self, before: Self, now: Instant, r: Result<(), ProducerError>) -> bool {
        &&& self.same_setup(before)
        &&& self.bitrate() == before.bitrate()
        &&& self.stats(before.kind()) == after_failure(before.stats(before.kind()), now)
        &&& forall|b: BackendKind|
            b != before.kind() ==> #[trigger] self.stats(b) == before.stats(b)
        &&& exists|ranked: Seq<BackendKind>|
            {
                &&& #[trigger] ranked_by(
                    before.parts().0,
                    before.parts().2,
                    before.context(),
                    self.record(),
                    now,
                    ranked,
                )
                &&& match first_other(ranked, before.kind()) {
                    None => {
                        &&& r matches Err(ProducerError::Other(why)) && why@
                            == no_candidate_message(before.kind())
                        &&& self.kind() == before.kind()
                        &&& self.producer() == before.producer()
                        &&& self.health() == before.health()
                    },
                    Some(next) => match r {
                        Ok(_) => {
                            &&& made_ready(
                                before.parts().1,
                                next,
                                before.config(),
                                before.bitrate(),
                                self.producer(),
                            )
                            &&& self.kind() == next
                            &&& next != before.kind()
                            &&& self.health() == HealthView::fresh(before.health().budget_us, now)
                        },
                        Err(e) => {
                            &&& refused_with(before.parts().1, next, before.config(), e)
                            &&& self.kind() == before.kind()
                            &&& self.producer() == before.producer()
                            &&& self.health() == before.health()
                        },
                    },
                }
            }
    }

    /// Takes note of a frame that the backend encoded in `encode_us`. Where that
    /// degrades the backend's health, its bitrate becomes `scaled_bps` and a
    /// keyframe is asked for.
    pub fn on_frame(&mut self, encode_us: u64, reading: LatencyReading, scaled_bps: u32, now: Instant)
        requires
            old(self).has_room(now),
        ensures
            final(self).same_setup(*old(self)),
            final(self).kind() == old(self).kind(),
            final(self).health() == old(self).health().encoded(reading, now),
            if old(self).health().state == HealthState::Healthy && final(self).health().state
                == HealthState::Degraded {
                &&& final(self).bitrate() == scaled_bps
                &&& retuned(final(self).producer(), old(self).producer(), scaled_bps)
            } else {
                &&& final(self).bitrate() == old(self).bitrate()
                &&& final(self).producer() == old(self).producer()
            },
            final(self).stats(old(self).kind()) == (BackendStats {
                recent_encode_p95_us: Some(encode_us),
                successes: (old(self).stats(old(self).kind()).successes + 1) as u32,
                ..old(self).stats(old(self).kind())
            }),
            forall|b: BackendKind|
                b != old(self).kind() ==> #[trigger] final(self).stats(b) == old(self).stats(b),
    {
        self.history.update_encode_p95(self.inner_kind, encode_us);
        self.history.record_success(self.inner_kind);
        match self.monitor.record_encode(reading, now) {
            Some(HealthAction::ReconfigureBitrate { factor_percent }) => {
                let ghost before = self.inner;
                self.current_bitrate_bps = scaled_bps;
                self.inner.set_target_bitrate(scaled_bps);
                assert(self.inner.wants_bitrate(before, scaled_bps));
                self.inner.request_idr();
                assert(retuned(self.inner, before, scaled_bps));
            },
            _ => {},
        }
    }

    /// Takes note of a frame that failed. `Ok(true)` says that another backend has
    /// taken over and is to be asked for the frame, `Ok(false)` that the failure
    /// stands; an error is what the change of backend failed with.
    pub fn on_error(&mut self, err: &ProducerError, now: Instant) -> (r: Result<bool, ProducerError>)
        requires
            old(self).has_room(now),
        ensures
            !asks_for_change(old(self).health(), *err, now) ==> {
                &&& r == Ok::<bool, ProducerError>(false)
                &&& final(self).same_setup(*old(self))
                &&& final(self).kind() == old(self).kind()
                &&& final(self).producer() == old(self).producer()
                &&& final(self).bitrate() == old(self).bitrate()
                &&& final(self).record() == old(self).record()
                &&& final(self).health() == old(self).health().failed(now)
            },
            asks_for_change(old(self).health(), *err, now) ==> {
                &&& r != Ok::<bool, ProducerError>(false)
                &&& exists|mid: Self|
                    {
                        &&& mid.same_setup(*old(self))
                        &&& mid.kind() == old(self).kind()
                        &&& mid.producer() == old(self).producer()
                        &&& mid.bitrate() == old(self).bitrate()
                        &&& mid.record() == old(self).record()
                        &&& mid.health() == if err is DeviceLost {
                            HealthView { state: HealthState::Lost, ..old(self).health() }
                        } else {
                            old(self).health().failed(now)
                        }
                        &&& #[trigger] final(self).swapped(mid, now, change_result(r))
                    }
            },
    {
        match self.monitor.record_failure(err, now) {
            None => Ok(false),
            Some(_) => {
                let ghost mid = *self;
                match self.swap_to_next(now) {
                    Ok(_) => {
                        assert(self.swapped(mid, now, change_result(Ok(true))));
                        Ok(true)
                    },
                    Err(e) => {
                        assert(self.swapped(mid, now, change_result(Err(e))));
                        Err(e)
                    },
                }
            },
        }
    }

    pub fn backend_kind(&self) -> (r: BackendKind)
        ensures
            r == self.kind(),
    {
        self.inner_kind
    }

    pub fn current_bitrate_bps(&self) -> (r: u32)
        ensures
            r == self.bitrate(),
    {
        self.current_bitrate_bps
    }

    /// The producer in use.
    pub fn inner_mut(&mut self) -> (r: &mut F::Producer)
        ensures
            *r == old(self).producer(),
            final(self).producer() == *final(r),
            final(self).same_setup(*old(self)),
            final(self).kind() == old(self).kind(),
            final(self).bitrate() == old(self).bitrate(),
            final(self).record() == old(self).record(),
            final(self).health() == old(self).health(),
    {
        &mut self.inner
    }

    /// The monitor of the backend in use.
    pub fn monitor(&self) -> (r: &HealthMonitor)
        ensures
            r@ == self.health(),
    {
        &self.monitor
    }
}

impl<P: CapabilityProbe, F: ProducerFactory, S: SelectionPolicy> VideoProducer for PolicyDriven<
    P,
    F,
    S,
> {
    /// The wish goes on to the producer in use, and nothing else changes.
    open spec fn wants_keyframe(self, before: Self) -> bool {
        &&& self.producer().wants_keyframe(before.producer())
        &&& self.same_setup(before)
        &&& self.kind() == before.kind()
        &&& self.bitrate() == before.bitrate()
        &&& self.record() == before.record()
        &&& self.health() == before.health()
    }

    /// The bitrate is kept for the next backend, and goes on to the producer in use.
    open spec fn wants_bitrate(self, before: Self, bps: u32) -> bool {
        &&& self.producer().wants_bitrate(before.producer(), bps)
        &&& self.bitrate() == bps
        &&& self.same_setup(before)
        &&& self.kind() == before.kind()
        &&& self.record() == before.record()
        &&& self.health() == before.health()
    }

    fn request_idr(&mut self) {
        self.inner.request_idr();
    }

    fn set_target_bitrate(&mut self, bps: u32) {
        self.current_bitrate_bps = bps;
        self.inner.set_target_bitrate(bps);
    }

    /// The name of the backend in use.
    fn backend_name(&self) -> (r: &'static str)
        ensures
            call_ensures(
                <F::Producer as VideoProducer>::backend_name,
                (&self.producer(),),
                r,
            ),
    {
        self.inner.backend_name()
    }
}

/// The backend that is changed to is the first in the ranking that is not the one in use;
/// there is none exactly if nothing else is ranked.
pub proof fn law_the_best_other_backend_takes_over(ranked: Seq<BackendKind>, current: BackendKind)
    ensures
        match first_other(ranked, current) {
            Some(next) => next != current && exists|i: int|
                {
                    &&& 0 <= i < ranked.len()
                    &&& #[trigger] ranked[i] == next
                    &&& forall|j: int| 0 <= j < i ==> #[trigger] ranked[j] == current
                },
            None => forall|j: int| 0 <= j < ranked.len() ==> #[trigger] ranked[j] == current,
        },
    decreases ranked.len(),
{
    if ranked.len() > 0 {
        let rest = ranked.skip(1);
        law_the_best_other_backend_takes_over(rest, current);
        if ranked[0] == current {
            match first_other(rest, current) {
                Some(next) => {
                    let i = choose|i: int|
                        {
                            &&& 0 <= i < rest.len()
                            &&& #[trigger] rest[i] == next
                            &&& forall|j: int| 0 <= j < i ==> #[trigger] rest[j] == current
                        };
                    assert(ranked[i + 1] == next);
                    assert forall|j: int| 0 <= j < i + 1 implies #[trigger] ranked[j] == current by {
                        if j > 0 {
                            assert(rest[j - 1] == ranked[j]);
                        }
                    }
                },
                None => {
                    assert forall|j: int| 0 <= j < ranked.len() implies #[trigger] ranked[j]
                        == current by {
                        if j > 0 {
                            assert(rest[j - 1] == ranked[j]);
                        }
                    }
                },
            }
        } else {
            assert(ranked[0] == ranked[0]);
        }
    }
}

/// A failed frame leads to a change exactly if the device is lost, or two frames failed
/// before it in a row, or nothing was encoded for more than half a second.
pub proof fn law_what_asks_for_a_change(m: HealthView, err: ProducerError, now: Instant)
    requires
        m.last_success.nanos <= now.nanos,
    ensures
        asks_for_change(m, err, now) <==> err is DeviceLost || m.failures >= 2 || now.nanos
            - m.last_success.nanos > 500_000_000,
{
}

/// A change puts the backend that failed to rest for ten seconds at least, touches no
/// other, and goes by a ranking that knows of the failure. Whatever comes of it, the bitrate stays; where it succeeds another backend is
/// in use, healthy and without failures, and where it fails the old one stays, with its
/// record of health.
pub proof fn law_a_change_rests_the_failed_backend<
    P: CapabilityProbe,
    F: ProducerFactory,
    S: SelectionPolicy,
>(
    before: PolicyDriven<P, F, S>,
    after: PolicyDriven<P, F, S>,
    now: Instant,
    r: Result<(), ProducerError>,
    b: BackendKind,
)
    requires
        now.nanos + COOLDOWN_MOST_NANOS <= u64::MAX,
        before.stats(before.kind()).failures < u32::MAX,
        after.swapped(before, now, r),
    ensures
        rest_left(after.stats(before.kind()), now).nanos >= 10_000_000_000,
        after.stats(before.kind()).failures == before.stats(before.kind()).failures + 1,
        b != before.kind() ==> after.stats(b) == before.stats(b),
        after.bitrate() == before.bitrate(),
        r is Ok ==> {
            &&& after.kind() != before.kind()
            &&& after.health().state == HealthState::Healthy
            &&& after.health().failures == 0
            &&& after.health().last_success == now
            &&& made_ready(
                before.parts().1,
                after.kind(),
                before.config(),
                before.bitrate(),
                after.producer(),
            )
        },
        exists|ranked: Seq<BackendKind>|
            {
                &&& #[trigger] ranked_by(
                    before.parts().0,
                    before.parts().2,
                    before.context(),
                    after.record(),
                    now,
                    ranked,
                )
                &&& r is Ok ==> first_other(ranked, before.kind()) == Some(after.kind())
            },
        r is Err ==> {
            &&& after.kind() == before.kind()
            &&& after.producer() == before.producer()
            &&& after.health() == before.health()
        },
{
}

/// A failed frame that asks for no change leaves the producer in use, its bitrate and
/// what is known of all backends as they were, and counts as one more failure in a row;
/// one that asks for a change leads to another backend or to an error.
pub proof fn law_failed_frames_change_the_backend_or_nothing<
    P: CapabilityProbe,
    F: ProducerFactory,
    S: SelectionPolicy,
>(
    d: &mut PolicyDriven<P, F, S>,
    err: ProducerError,
    now: Instant,
    r: Result<bool, ProducerError>,
    b: BackendKind,
)
    requires
        old(d).has_room(now),
        old(d).health().last_success.nanos <= now.nanos,
        call_ensures(PolicyDriven::<P, F, S>::on_error, (d, &err, now), r),
    ensures
        ({
            let m = old(d).health();
            let asks = err is DeviceLost || m.failures >= 2 || now.nanos - m.last_success.nanos
                > 500_000_000;
            &&& r == Ok::<bool, ProducerError>(false) <==> !asks
            &&& !asks ==> {
                &&& final(d).kind() == old(d).kind()
                &&& final(d).producer() == old(d).producer()
                &&& final(d).record() == old(d).record()
                &&& final(d).health().failures == m.failures + 1
                &&& final(d).health().state == m.state
            }
            &&& r == Ok::<bool, ProducerError>(true) ==> {
                &&& final(d).kind() != old(d).kind()
                &&& final(d).health().state == HealthState::Healthy
                &&& rest_left(final(d).stats(old(d).kind()), now).nanos >= 10_000_000_000
            }
            &&& r is Err ==> final(d).kind() == old(d).kind() && final(d).producer()
                == old(d).producer()
            &&& final(d).bitrate() == old(d).bitrate()
            &&& b != old(d).kind() && asks ==> final(d).stats(b).failures == old(d).stats(b).failures
        }),
{
    let m = old(d).health();
    let after = *final(d);
    law_what_asks_for_a_change(m, err, now);
    if asks_for_change(m, err, now) {
        let mid = choose|mid: PolicyDriven<P, F, S>|
            {
                &&& mid.same_setup(*old(d))
                &&& mid.kind() == old(d).kind()
                &&& mid.producer() == old(d).producer()
                &&& mid.bitrate() == old(d).bitrate()
                &&& mid.record() == old(d).record()
                &&& mid.health() == if err is DeviceLost {
                    HealthView { state: HealthState::Lost, ..old(d).health() }
                } else {
                    old(d).health().failed(now)
                }
                &&& #[trigger] after.swapped(mid, now, change_result(r))
            };
        assert(mid.stats(b) == old(d).stats(b));
        assert(mid.stats(old(d).kind()) == old(d).stats(old(d).kind()));
        law_a_change_rests_the_failed_backend(mid, after, now, change_result(r), b);
    }
}

/// An encoded frame counts for the backend in use alone: one more success and its
/// latency. The producer and its bitrate change only where its health is degraded, and
/// then both get the lower bitrate.
pub proof fn law_encoded_frames_count_for_the_backend_in_use<
    P: CapabilityProbe,
    F: ProducerFactory,
    S: SelectionPolicy,
>(
    d: &mut PolicyDriven<P, F, S>,
    encode_us: u64,
    reading: LatencyReading,
    scaled_bps: u32,
    now: Instant,
    b: BackendKind,
)
    requires
        old(d).has_room(now),
        call_ensures(
            PolicyDriven::<P, F, S>::on_frame,
            (d, encode_us, reading, scaled_bps, now),
            (),
        ),
    ensures
        ({
            let k = old(d).kind();
            let m = old(d).health();
            let degrades = m.state == HealthState::Healthy && m.frames == 29 && reading.load
                == Load::Over && m.over >= 2;
            &&& final(d).kind() == k
            &&& final(d).stats(k).successes == old(d).stats(k).successes + 1
            &&& final(d).stats(k).failures == old(d).stats(k).failures
            &&& final(d).stats(k).recent_encode_p95_us == Some(encode_us)
            &&& b != k ==> final(d).stats(b) == old(d).stats(b)
            &&& final(d).health().failures == 0
            &&& final(d).health().last_success == now
            &&& degrades ==> final(d).bitrate() == scaled_bps && retuned(
                final(d).producer(),
                old(d).producer(),
                scaled_bps,
            )
            &&& !degrades ==> final(d).bitrate() == old(d).bitrate() && final(d).producer()
                == old(d).producer()
        }),
{
    if old(d).health().frames == 29 {
        law_windows_count_in_a_row(old(d).health(), reading, now);
    }
    law_health_is_judged_by_windows(old(d).health(), reading, now);
}

/// A producer starts with the bitrate that it is configured for, healthy, and with no
/// record of any backend; it uses a backend that was ranked and could be made.
pub proof fn law_a_producer_starts_with_a_clean_record<
    P: CapabilityProbe,
    F: ProducerFactory,
    S: SelectionPolicy,
>(
    probe: P,
    factory: F,
    policy: S,
    cfg: ProducerConfig,
    ctx: PolicyContext,
    now: Instant,
    d: PolicyDriven<P, F, S>,
    b: BackendKind,
)
    requires
        call_ensures(
            PolicyDriven::<P, F, S>::bootstrap,
            (probe, factory, policy, cfg, ctx, now),
            Ok::<PolicyDriven<P, F, S>, FactoryError>(d),
        ),
    ensures
        d.bitrate() == cfg.initial_bitrate_bps,
        d.health().state == HealthState::Healthy,
        d.health().failures == 0,
        d.health().last_success == now,
        1 <= cfg.fps <= 1_000_000 ==> d.health().budget_us * cfg.fps <= 1_000_000 < (
        d.health().budget_us + 1) * cfg.fps,
        d.stats(b).successes == 0 && d.stats(b).failures == 0,
        rest_left(d.stats(b), now).nanos == 0,
        exists|ranked: Seq<BackendKind>, blank: HistoryTable|
            #[trigger] ranked_by(probe, policy, ctx, blank, now, ranked) && ranked.contains(
                d.kind(),
            ),
{
    law_frame_budgets_fill_a_second(cfg.fps);
    let (ranked, blank) = choose|ranked: Seq<BackendKind>, blank: HistoryTable|
        {
            &&& #[trigger] ranked_by(probe, policy, ctx, blank, now, ranked)
            &&& forall|b: BackendKind| #[trigger] blank.at(b) == BackendStats::none_yet()
            &&& exists|i: int|
                {
                    &&& 0 <= i < ranked.len()
                    &&& none_of_first(factory, ranked, cfg, i)
                    &&& call_ensures(
                        F::create,
                        (&factory, #[trigger] ranked[i], &cfg),
                        Ok::<F::Producer, FactoryError>(d.producer()),
                    )
                    &&& d.kind() == ranked[i]
                }
        };
    assert(ranked.contains(d.kind()));
}

/// A wish of the user goes to the producer in use, and a bitrate is kept for the next one;
/// which backend is used, its health and all records stay.
pub proof fn law_wishes_go_to_the_producer_in_use<
    P: CapabilityProbe,
    F: ProducerFactory,
    S: SelectionPolicy,
>(
    before: PolicyDriven<P, F, S>,
    keyed: PolicyDriven<P, F, S>,
    rated: PolicyDriven<P, F, S>,
    bps: u32,
    b: BackendKind,
)
    requires
        keyed.wants_keyframe(before),
        rated.wants_bitrate(before, bps),
    ensures
        keyed.producer().wants_keyframe(before.producer()),
        rated.producer().wants_bitrate(before.producer(), bps),
        rated.bitrate() == bps,
        keyed.bitrate() == before.bitrate(),
        keyed.kind() == before.kind() && rated.kind() == before.kind(),
        keyed.stats(b) == before.stats(b) && rated.stats(b) == before.stats(b),
        keyed.health() == before.health() && rated.health() == before.health(),
{
}

} // verus!
