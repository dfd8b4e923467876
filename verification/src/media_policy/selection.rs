//! Ranking the encoder backends: what cannot serve is left out, the rest is
//! ordered by its score. All that changes over time stands in the history.

use std::collections::HashMap;
use vstd::prelude::*;
use vstd::multiset::Multiset;
use vstd::relations::{sorted_by, total_ordering};
use vstd::seq_lib::lemma_sorted_unique;
use crate::clock::{Duration, Instant};
use crate::media_policy::capability::{BackendKind, Codec, EncoderCapability};
use crate::media_policy::health::{frame_budget, frame_budget_of, law_frame_budgets_fill_a_second};

verus! {

broadcast use vstd::std_specs::hash::group_hash_axioms;

/// What the encoder is needed for.
#[derive(Debug, Clone, Copy)]
pub struct PolicyContext {
    pub target_resolution: (u32, u32),
    pub target_fps: u32,
    pub target_bitrate_bps: u32,
    pub codec: Codec,
    /// Only this backend, without failover.
    pub user_override: Option<BackendKind>,
    /// This backend rather than others; failover stays possible.
    pub user_hint: Option<BackendKind>,
    /// Only the software encoder.
    pub force_sw: bool,
}

/// How a backend has done so far.
#[derive(Debug, Clone, Copy, PartialEq, Eq, Structural)]
pub struct BackendStats {
    pub successes: u32,
    pub failures: u32,
    pub last_failure_at: Option<Instant>,
    pub cooldown_until: Option<Instant>,
    /// Microseconds; none while the backend has never run.
    pub recent_encode_p95_us: Option<u64>,
}

impl BackendStats {
    pub open spec fn none_yet() -> BackendStats {
        BackendStats {
            successes: 0,
            failures: 0,
            last_failure_at: None,
            cooldown_until: None,
            recent_encode_p95_us: None,
        }
    }
}

impl Default for BackendStats {
    fn default() -> (r: Self)
        ensures
            r == BackendStats::none_yet(),
    {
        BackendStats {
            successes: 0,
            failures: 0,
            last_failure_at: None,
            cooldown_until: None,
            recent_encode_p95_us: None,
        }
    }
}

/// The place of a backend in ties.
pub open spec fn discriminant(b: BackendKind) -> u8 {
    match b {
        BackendKind::Nvenc => 0,
        BackendKind::MfHevc => 1,
        BackendKind::Openh264 => 2,
        BackendKind::Vaapi => 3,
    }
}

fn backend_discriminant(b: BackendKind) -> (r: u8)
    ensures
        r == discriminant(b),
{
    match b {
        BackendKind::Nvenc => 0,
        BackendKind::MfHevc => 1,
        BackendKind::Openh264 => 2,
        BackendKind::Vaapi => 3,
    }
}

/// The statistics of all backends.
#[derive(Debug)]
pub struct HistoryTable {
    counts: HashMap<u8, BackendStats>,
}

pub const COOLDOWN_FIRST_NANOS: u64 = 5_000_000_000;

pub const COOLDOWN_LEAST_NANOS: u64 = 10_000_000_000;

pub const COOLDOWN_MOST_NANOS: u64 = 300_000_000_000;

/// How long a backend rests after a failure: twice what is left of a rest that is
/// still running, or twice the first rest; never more than the longest rest and
/// never less than the shortest.
pub open spec fn rest_after_failure(stats: BackendStats, now: Instant) -> int {
    let left = match stats.cooldown_until {
        Some(t) => if t.nanos >= now.nanos {
            t.nanos - now.nanos
        } else {
            COOLDOWN_FIRST_NANOS as int
        },
        None => COOLDOWN_FIRST_NANOS as int,
    };
    let doubled = if left * 2 > COOLDOWN_MOST_NANOS {
        COOLDOWN_MOST_NANOS as int
    } else {
        left * 2
    };
    if doubled < COOLDOWN_LEAST_NANOS {
        COOLDOWN_LEAST_NANOS as int
    } else {
        doubled
    }
}

/// How much of a backend's rest is left.
pub open spec fn rest_left(stats: BackendStats, now: Instant) -> Duration {
    match stats.cooldown_until {
        Some(t) => t.since(now),
        None => Duration { nanos: 0 },
    }
}

/// The statistics after a failure.
pub open spec fn after_failure(stats: BackendStats, now: Instant) -> BackendStats {
    BackendStats {
        failures: (stats.failures + 1) as u32,
        last_failure_at: Some(now),
        cooldown_until: Some(
            Instant { nanos: (now.nanos + rest_after_failure(stats, now)) as u64 },
        ),
        ..stats
    }
}

impl HistoryTable {
    /// The statistics of a backend.
    pub closed spec fn at(self, backend: BackendKind) -> BackendStats {
        if self.counts@.contains_key(discriminant(backend)) {
            self.counts@[discriminant(backend)]
        } else {
            BackendStats::none_yet()
        }
    }

    pub fn new() -> (r: Self)
        ensures
            forall|b: BackendKind| #[trigger] r.at(b) == BackendStats::none_yet(),
    {
        HistoryTable { counts: HashMap::new() }
    }

    pub fn stats(&self, backend: BackendKind) -> (r: BackendStats)
        ensures
            r == self.at(backend),
    {
        match self.counts.get(&backend_discriminant(backend)) {
            Some(s) => *s,
            None => BackendStats::default(),
        }
    }

    fn put(&mut self, backend: BackendKind, stats: BackendStats)
        ensures
            final(self).at(backend) == stats,
            forall|b: BackendKind|
                b != backend ==> #[trigger] final(self).at(b) == old(self).at(b),
    {
        self.counts.insert(backend_discriminant(backend), stats);
    }

    pub fn successes(&self, backend: BackendKind) -> (r: u32)
        ensures
            r == self.at(backend).successes,
    {
        self.stats(backend).successes
    }

    pub fn failures(&self, backend: BackendKind) -> (r: u32)
        ensures
            r == self.at(backend).failures,
    {
        self.stats(backend).failures
    }

    pub fn recent_encode_p95_us(&self, backend: BackendKind) -> (r: Option<u64>)
        ensures
            r == self.at(backend).recent_encode_p95_us,
    {
        self.stats(backend).recent_encode_p95_us
    }

    pub fn cooldown_remaining(&self, backend: BackendKind, now: Instant) -> (r: Duration)
        ensures
            r == rest_left(self.at(backend), now),
    {
        match self.stats(backend).cooldown_until {
            Some(t) => t.saturating_duration_since(now),
            None => Duration { nanos: 0 },
        }
    }

    pub fn record_success(&mut self, backend: BackendKind)
        requires
            old(self).at(backend).successes < u32::MAX,
        ensures
            final(self).at(backend) == (BackendStats {
                successes: (old(self).at(backend).successes + 1) as u32,
                ..old(self).at(backend)
            }),
            forall|b: BackendKind|
                b != backend ==> #[trigger] final(self).at(b) == old(self).at(b),
    {
        let mut s: BackendStats = self.stats(backend);
        s.successes = s.successes + 1;
        self.put(backend, s);
    }

    pub fn record_failure(&mut self, backend: BackendKind, now: Instant)
        requires
            old(self).at(backend).failures < u32::MAX,
            now.nanos + COOLDOWN_MOST_NANOS <= u64::MAX,
        ensures
            final(self).at(backend) == after_failure(old(self).at(backend), now),
            forall|b: BackendKind|
                b != backend ==> #[trigger] final(self).at(b) == old(self).at(b),
    {
        let mut s: BackendStats = self.stats(backend);
        s.failures = s.failures + 1;
        s.last_failure_at = Some(now);
        let left: u64 = match s.cooldown_until {
            Some(t) => if t.nanos >= now.nanos {
                t.nanos - now.nanos
            } else {
                COOLDOWN_FIRST_NANOS
            },
            None => COOLDOWN_FIRST_NANOS,
        };
        let doubled: u64 = if left > COOLDOWN_MOST_NANOS / 2 {
            COOLDOWN_MOST_NANOS
        } else {
            left * 2
        };
        let rest: u64 = if doubled < COOLDOWN_LEAST_NANOS {
            COOLDOWN_LEAST_NANOS
        } else {
            doubled
        };
        s.cooldown_until = Some(Instant { nanos: now.nanos + rest });
        self.put(backend, s);
    }

    pub fn update_encode_p95(&mut self, backend: BackendKind, p95_us: u64)
        ensures
            final(self).at(backend) == (BackendStats {
                recent_encode_p95_us: Some(p95_us),
                ..old(self).at(backend)
            }),
            forall|b: BackendKind|
                b != backend ==> #[trigger] final(self).at(b) == old(self).at(b),
    {
        let mut s: BackendStats = self.stats(backend);
        s.recent_encode_p95_us = Some(p95_us);
        self.put(backend, s);
    }
}

impl Default for HistoryTable {
    fn default() -> (r: Self)
        ensures
            forall|b: BackendKind| #[trigger] r.at(b) == BackendStats::none_yet(),
    {
        HistoryTable::new()
    }
}

/// Ranks candidates, the best first.
pub trait SelectionPolicy {
    fn rank(
        &self,
        candidates: &[EncoderCapability],
        ctx: &PolicyContext,
        history: &HistoryTable,
        now: Instant,
    ) -> Vec<BackendKind>;
}

/// What a candidate's score is made of.
#[derive(Debug, Clone, Copy, PartialEq, Eq, Structural)]
pub struct ScoreInputs {
    pub priority: i32,
    pub zero_copy: bool,
    pub frame_budget_us: u64,
    /// The measured latency, or half a budget before the first measurement.
    pub runtime_p95_us: u64,
    pub successes: u32,
    pub failures: u32,
    pub hinted: bool,
}

/// Gathers what a candidate's score is made of.
pub fn score_inputs(cap: &EncoderCapability, ctx: &PolicyContext, history: &HistoryTable) -> (r:
    ScoreInputs)
    ensures
        r == (ScoreInputs {
            priority: cap.priority,
            zero_copy: cap.zero_copy,
            frame_budget_us: frame_budget(ctx.target_fps),
            runtime_p95_us: match history.at(cap.backend).recent_encode_p95_us {
                Some(us) => us,
                None => (frame_budget(ctx.target_fps) / 2) as u64,
            },
            successes: history.at(cap.backend).successes,
            failures: history.at(cap.backend).failures,
            hinted: ctx.user_hint == Some(cap.backend),
        }),
{
    let frame_budget_us: u64 = frame_budget_of(ctx.target_fps);
    ScoreInputs {
        priority: cap.priority,
        zero_copy: cap.zero_copy,
        frame_budget_us,
        runtime_p95_us: match history.recent_encode_p95_us(cap.backend) {
            Some(us) => us,
            None => frame_budget_us / 2,
        },
        successes: history.successes(cap.backend),
        failures: history.failures(cap.backend),
        hinted: match ctx.user_hint {
            Some(h) => h == cap.backend,
            None => false,
        },
    }
}

/// A candidate with its score as an integer that orders as the score does.
#[derive(Debug, Clone, Copy)]
pub struct Scored {
    pub cap: EncoderCapability,
    pub key: i64,
}

/// A backend with its score.
#[derive(Debug, Clone, Copy, PartialEq, Eq, Structural)]
pub struct Entry {
    pub backend: BackendKind,
    pub key: i64,
}

/// The candidate can serve: codec, resolution and frame rate suffice, software is
/// not demanded of another backend, and the backend is not at rest.
pub open spec fn survives(
    cap: EncoderCapability,
    ctx: PolicyContext,
    history: HistoryTable,
    now: Instant,
) -> bool {
    &&& cap.codec == ctx.codec
    &&& cap.max_resolution.0 >= ctx.target_resolution.0
    &&& cap.max_resolution.1 >= ctx.target_resolution.1
    &&& cap.max_fps >= ctx.target_fps
    &&& ctx.force_sw ==> cap.backend == BackendKind::Openh264
    &&& rest_left(history.at(cap.backend), now).nanos == 0
}

/// The backends that can serve, with their scores, in the order of the candidates.
/// An override leaves only its backend.
pub open spec fn eligible(
    scored: Seq<Scored>,
    ctx: PolicyContext,
    history: HistoryTable,
    now: Instant,
) -> Seq<Entry>
    decreases scored.len(),
{
    if scored.len() == 0 {
        seq![]
    } else {
        let before = eligible(scored.drop_last(), ctx, history, now);
        let last = scored.last();
        if survives(last.cap, ctx, history, now) && (ctx.user_override matches Some(b) ==> b
            == last.cap.backend) {
            before.push(Entry { backend: last.cap.backend, key: last.key })
        } else {
            before
        }
    }
}

/// One entry comes before another: the higher score, and among equal scores the
/// lower discriminant.
pub open spec fn precedes(a: Entry, b: Entry) -> bool {
    a.key > b.key || (a.key == b.key && discriminant(a.backend) <= discriminant(b.backend))
}

/// The order of entries as a relation.
pub open spec fn entry_order() -> spec_fn(Entry, Entry) -> bool {
    |a: Entry, b: Entry| precedes(a, b)
}

/// The backends that can serve, the best first.
pub open spec fn ranking(
    scored: Seq<Scored>,
    ctx: PolicyContext,
    history: HistoryTable,
    now: Instant,
) -> Seq<BackendKind> {
    eligible(scored, ctx, history, now).sort_by(entry_order()).map_values(|e: Entry| e.backend)
}

proof fn lemma_order_is_total()
    ensures
        total_ordering(entry_order()),
{
}

fn passes(cap: &EncoderCapability, ctx: &PolicyContext, history: &HistoryTable, now: Instant) -> (r: bool)
    ensures
        r == survives(*cap, *ctx, *history, now),
{
    cap.codec == ctx.codec && cap.max_resolution.0 >= ctx.target_resolution.0
        && cap.max_resolution.1 >= ctx.target_resolution.1 && cap.max_fps >= ctx.target_fps && (
    !ctx.force_sw || cap.backend == BackendKind::Openh264) && history.cooldown_remaining(
        cap.backend,
        now,
    ).is_zero()
}

fn comes_before(a: &Entry, b: &Entry) -> (r: bool)
    ensures
        r == precedes(*a, *b),
{
    a.key > b.key || (a.key == b.key && backend_discriminant(a.backend) <= backend_discriminant(
        b.backend,
    ))
}

/// Puts an entry into a sorted list.
fn insert_entry(sorted: &mut Vec<Entry>, e: Entry)
    requires
        sorted_by(old(sorted)@, entry_order()),
    ensures
        sorted_by(final(sorted)@, entry_order()),
        final(sorted)@.to_multiset() == old(sorted)@.to_multiset().insert(e),
{
    broadcast use vstd::seq_lib::group_to_multiset_ensures;

    let ghost before = sorted@;
    let ghost leq = entry_order();
    let mut at: usize = 0;
    while at < sorted.len() && comes_before(&sorted[at], &e)
        invariant
            sorted@ == before,
            at <= before.len(),
            forall|k: int| 0 <= k < at ==> precedes(#[trigger] before[k], e),
        decreases before.len() - at,
    {
        at += 1;
    }
    sorted.insert(at, e);
    proof {
        let after = before.insert(at as int, e);
        assert(sorted@ == after);
        assert forall|i: int, j: int| 0 <= i < j < after.len() implies #[trigger] leq(
            after[i],
            after[j],
        ) by {
            let bi = if i < at {
                i
            } else {
                i - 1
            };
            let bj = if j < at {
                j
            } else {
                j - 1
            };
            if i != at && j != at {
                assert(leq(before[bi], before[bj]));
            } else if i == at {
                assert(!precedes(before[at as int], e));
                if bj != at {
                    assert(leq(before[at as int], before[bj]));
                }
            }
        }
        assert(after =~= before.subrange(0, at as int) + seq![e] + before.subrange(
            at as int,
            before.len() as int,
        ));
        assert(before =~= before.subrange(0, at as int) + before.subrange(
            at as int,
            before.len() as int,
        ));
        vstd::seq_lib::lemma_multiset_commutative(
            before.subrange(0, at as int),
            before.subrange(at as int, before.len() as int),
        );
        vstd::seq_lib::lemma_multiset_commutative(
            before.subrange(0, at as int) + seq![e],
            before.subrange(at as int, before.len() as int),
        );
        vstd::seq_lib::lemma_multiset_commutative(before.subrange(0, at as int), seq![e]);
        assert(seq![e].to_multiset() =~= Multiset::singleton(e)) by {
            assert(seq![e] =~= Seq::<Entry>::empty().push(e));
        }
        assert(after.to_multiset() =~= before.to_multiset().insert(e));
    }
}

/// Ranks scored candidates: what cannot serve is left out, and the rest is ordered
/// by score. With an override only its backend is left.
pub fn rank(scored: &[Scored], ctx: &PolicyContext, history: &HistoryTable, now: Instant) -> (r: Vec<
    BackendKind,
>)
    ensures
        r@ == ranking(scored@, *ctx, *history, now),
{
    broadcast use vstd::seq_lib::group_to_multiset_ensures;

    let ghost leq = entry_order();
    let mut sorted: Vec<Entry> = Vec::new();
    let mut i: usize = 0;
    assert(eligible(scored@.take(0), *ctx, *history, now) =~= Seq::<Entry>::empty());
    while i < scored.len()
        invariant
            i <= scored@.len(),
            leq == entry_order(),
            sorted_by(sorted@, leq),
            sorted@.to_multiset() == eligible(
                scored@.take(i as int),
                *ctx,
                *history,
                now,
            ).to_multiset(),
        decreases scored@.len() - i,
    {
        let s: &Scored = &scored[i];
        let wanted: bool = match ctx.user_override {
            Some(b) => b == s.cap.backend,
            None => true,
        };
        proof {
            assert(scored@.take(i + 1).drop_last() =~= scored@.take(i as int));
            assert(scored@.take(i + 1).last() == scored@[i as int]);
        }
        let ghost so_far = eligible(scored@.take(i as int), *ctx, *history, now);
        if wanted && passes(&s.cap, ctx, history, now) {
            let e: Entry = Entry { backend: s.cap.backend, key: s.key };
            insert_entry(&mut sorted, e);
            proof {
                broadcast use vstd::seq_lib::group_to_multiset_ensures;

                assert(eligible(scored@.take(i + 1), *ctx, *history, now) == so_far.push(e));
                assert(so_far.push(e).to_multiset() =~= so_far.to_multiset().insert(e));
            }
        } else {
            assert(eligible(scored@.take(i + 1), *ctx, *history, now) == so_far);
        }
        i += 1;
    }
    let ghost all = eligible(scored@, *ctx, *history, now);
    proof {
        assert(scored@.take(i as int) =~= scored@);
        lemma_order_is_total();
        all.lemma_sort_by_ensures(leq);
        lemma_sorted_unique(sorted@, all.sort_by(leq), leq);
    }
    let mut out: Vec<BackendKind> = Vec::new();
    let mut k: usize = 0;
    while k < sorted.len()
        invariant
            k <= sorted@.len(),
            sorted@ == all.sort_by(leq),
            out@ == sorted@.take(k as int).map_values(|e: Entry| e.backend),
        decreases sorted@.len() - k,
    {
        out.push(sorted[k].backend);
        k += 1;
        assert(out@ =~= sorted@.take(k as int).map_values(|e: Entry| e.backend));
    }
    assert(sorted@.take(k as int) =~= sorted@);
    out
}

proof fn lemma_eligible_remove(
    scored: Seq<Scored>,
    ctx: PolicyContext,
    history: HistoryTable,
    now: Instant,
    j: int,
)
    requires
        0 <= j < scored.len(),
    ensures
        ({
            let x = scored[j];
            let rest = eligible(scored.remove(j), ctx, history, now).to_multiset();
            eligible(scored, ctx, history, now).to_multiset() == if survives(
                x.cap,
                ctx,
                history,
                now,
            ) && (ctx.user_override matches Some(b) ==> b == x.cap.backend) {
                rest.insert(Entry { backend: x.cap.backend, key: x.key })
            } else {
                rest
            }
        }),
    decreases scored.len(),
{
    broadcast use vstd::seq_lib::group_to_multiset_ensures;

    if j == scored.len() - 1 {
        assert(scored.remove(j) =~= scored.drop_last());
    } else {
        lemma_eligible_remove(scored.drop_last(), ctx, history, now, j);
        assert(scored.remove(j).drop_last() =~= scored.drop_last().remove(j));
        assert(scored.remove(j).last() == scored.last());
        assert(scored.drop_last()[j] == scored[j]);
        assert(eligible(scored, ctx, history, now).to_multiset() =~= ({
            let x = scored[j];
            let rest = eligible(scored.remove(j), ctx, history, now).to_multiset();
            if survives(x.cap, ctx, history, now) && (ctx.user_override matches Some(b) ==> b
                == x.cap.backend) {
                rest.insert(Entry { backend: x.cap.backend, key: x.key })
            } else {
                rest
            }
        }));
    }
}

proof fn lemma_eligible_of_same_candidates(
    a: Seq<Scored>,
    b: Seq<Scored>,
    ctx: PolicyContext,
    history: HistoryTable,
    now: Instant,
)
    requires
        a.to_multiset() == b.to_multiset(),
    ensures
        eligible(a, ctx, history, now).to_multiset() == eligible(b, ctx, history, now).to_multiset(),
    decreases a.len(),
{
    broadcast use vstd::seq_lib::group_to_multiset_ensures;

    assert(a.len() == b.len()) by {
        assert(a.to_multiset().len() == a.len());
        assert(b.to_multiset().len() == b.len());
    }
    if a.len() == 0 {
        assert(a =~= b);
    } else {
        let x = a.last();
        assert(a.to_multiset().contains(x));
        assert(b.to_multiset().contains(x));
        assert(b.contains(x));
        let j = choose|j: int| 0 <= j < b.len() && b[j] == x;
        let i = a.len() - 1;
        assert(a.remove(i).to_multiset() =~= a.to_multiset().remove(x));
        assert(b.remove(j).to_multiset() =~= b.to_multiset().remove(x));
        lemma_eligible_remove(a, ctx, history, now, i);
        lemma_eligible_remove(b, ctx, history, now, j);
        lemma_eligible_of_same_candidates(a.remove(i), b.remove(j), ctx, history, now);
    }
}

/// The ranking does not depend on the order in which the candidates are listed.
pub proof fn law_ranking_ignores_listing_order(
    a: Seq<Scored>,
    b: Seq<Scored>,
    ctx: PolicyContext,
    history: HistoryTable,
    now: Instant,
)
    requires
        a.to_multiset() == b.to_multiset(),
    ensures
        ranking(a, ctx, history, now) == ranking(b, ctx, history, now),
{
    let leq = entry_order();
    let ea = eligible(a, ctx, history, now);
    let eb = eligible(b, ctx, history, now);
    lemma_eligible_of_same_candidates(a, b, ctx, history, now);
    lemma_order_is_total();
    ea.lemma_sort_by_ensures(leq);
    eb.lemma_sort_by_ensures(leq);
    lemma_sorted_unique(ea.sort_by(leq), eb.sort_by(leq), leq);
}

proof fn lemma_eligible_entries(
    scored: Seq<Scored>,
    ctx: PolicyContext,
    history: HistoryTable,
    now: Instant,
    e: Entry,
)
    requires
        eligible(scored, ctx, history, now).contains(e),
    ensures
        exists|i: int|
            0 <= i < scored.len() && (#[trigger] scored[i]).cap.backend == e.backend && scored[i].key
                == e.key && survives(scored[i].cap, ctx, history, now),
        ctx.user_override matches Some(b) ==> e.backend == b,
    decreases scored.len(),
{
    let all = eligible(scored, ctx, history, now);
    let before = eligible(scored.drop_last(), ctx, history, now);
    let last = scored.last();
    let k = choose|k: int| 0 <= k < all.len() && all[k] == e;
    if k < before.len() {
        assert(before[k] == e);
        assert(before.contains(e));
        lemma_eligible_entries(scored.drop_last(), ctx, history, now, e);
        let i = choose|i: int|
            0 <= i < scored.drop_last().len() && (#[trigger] scored.drop_last()[i]).cap.backend
                == e.backend && scored.drop_last()[i].key == e.key && survives(
                scored.drop_last()[i].cap,
                ctx,
                history,
                now,
            );
        assert(scored[i] == scored.drop_last()[i]);
    } else {
        assert(scored[scored.len() - 1] == last);
    }
}

/// Only backends that can serve are ranked: each stands among the candidates with
/// a capability that survives. Software alone is ranked where software is
/// demanded, and an override's backend alone where there is one.
pub proof fn law_only_eligible_backends_are_ranked(
    scored: Seq<Scored>,
    ctx: PolicyContext,
    history: HistoryTable,
    now: Instant,
    k: int,
)
    requires
        0 <= k < ranking(scored, ctx, history, now).len(),
    ensures
        ({
            let b = ranking(scored, ctx, history, now)[k];
            &&& exists|i: int|
                0 <= i < scored.len() && (#[trigger] scored[i]).cap.backend == b && survives(
                    scored[i].cap,
                    ctx,
                    history,
                    now,
                )
            &&& ctx.force_sw ==> b == BackendKind::Openh264
            &&& ctx.user_override matches Some(o) ==> b == o
            &&& rest_left(history.at(b), now).nanos == 0
        }),
{
    let leq = entry_order();
    let all = eligible(scored, ctx, history, now);
    lemma_order_is_total();
    all.lemma_sort_by_ensures(leq);
    let e = all.sort_by(leq)[k];
    assert(all.sort_by(leq).contains(e));
    assert(all.contains(e));
    lemma_eligible_entries(scored, ctx, history, now, e);
}

/// A hint leaves nobody out: the same backends can serve with and without it.
pub proof fn law_a_hint_leaves_nobody_out(
    scored: Seq<Scored>,
    ctx: PolicyContext,
    hint: Option<BackendKind>,
    history: HistoryTable,
    now: Instant,
)
    ensures
        eligible(scored, PolicyContext { user_hint: hint, ..ctx }, history, now) == eligible(
            scored,
            ctx,
            history,
            now,
        ),
    decreases scored.len(),
{
    if scored.len() > 0 {
        law_a_hint_leaves_nobody_out(scored.drop_last(), ctx, hint, history, now);
    }
}

proof fn lemma_software_alone(
    scored: Seq<Scored>,
    ctx: PolicyContext,
    history: HistoryTable,
    now: Instant,
)
    ensures
        eligible(
            scored,
            PolicyContext { force_sw: true, user_override: None, ..ctx },
            history,
            now,
        ) == eligible(
            scored,
            PolicyContext {
                force_sw: false,
                user_override: Some(BackendKind::Openh264),
                ..ctx
            },
            history,
            now,
        ),
    decreases scored.len(),
{
    if scored.len() > 0 {
        lemma_software_alone(scored.drop_last(), ctx, history, now);
    }
}

/// To demand software is to override with the software encoder.
pub proof fn law_demanding_software_is_an_override(
    scored: Seq<Scored>,
    ctx: PolicyContext,
    history: HistoryTable,
    now: Instant,
)
    ensures
        ranking(
            scored,
            PolicyContext { force_sw: true, user_override: None, ..ctx },
            history,
            now,
        ) == ranking(
            scored,
            PolicyContext {
                force_sw: false,
                user_override: Some(BackendKind::Openh264),
                ..ctx
            },
            history,
            now,
        ),
{
    lemma_software_alone(scored, ctx, history, now);
}

/// After a failure a backend rests for ten seconds at least and five minutes at
/// most, and is not ranked before.
pub proof fn law_a_failed_backend_rests(stats: BackendStats, failed: Instant, now: Instant)
    requires
        failed.nanos + COOLDOWN_MOST_NANOS <= u64::MAX,
        failed.nanos <= now.nanos,
    ensures
        now.nanos < failed.nanos + COOLDOWN_LEAST_NANOS ==> rest_left(
            after_failure(stats, failed),
            now,
        ).nanos > 0,
        now.nanos >= failed.nanos + COOLDOWN_MOST_NANOS ==> rest_left(
            after_failure(stats, failed),
            now,
        ).nanos == 0,
{
}

/// A backend that fails again while it rests, rests twice as long as it still had
/// to, up to the longest rest.
pub proof fn law_rest_doubles(stats: BackendStats, now: Instant)
    requires
        now.nanos + COOLDOWN_MOST_NANOS <= u64::MAX,
        rest_left(stats, now).nanos >= COOLDOWN_FIRST_NANOS,
        rest_left(stats, now).nanos * 2 <= COOLDOWN_MOST_NANOS,
    ensures
        rest_left(after_failure(stats, now), now).nanos == 2 * rest_left(stats, now).nanos,
{
}

/// A failure of a backend that is not at rest, since it never failed or its last rest is
/// over, starts a rest of ten seconds.
pub proof fn law_a_first_failure_rests_ten_seconds(stats: BackendStats, now: Instant)
    requires
        now.nanos + COOLDOWN_MOST_NANOS <= u64::MAX,
        stats.cooldown_until matches Some(until) ==> until.nanos <= now.nanos,
    ensures
        rest_left(stats, now).nanos == 0,
        rest_left(after_failure(stats, now), now).nanos == 10_000_000_000,
{
}

/// A failure during a rest that ends `left` nanoseconds later starts one of twice that
/// time, but of ten seconds at least and five minutes at most.
pub proof fn law_a_rest_grows_within_bounds(stats: BackendStats, now: Instant, left: int)
    requires
        now.nanos + COOLDOWN_MOST_NANOS <= u64::MAX,
        stats.cooldown_until matches Some(until) && until.nanos == now.nanos + left,
        0 <= left,
    ensures
        rest_left(stats, now).nanos == left,
        ({
            let rest = rest_left(after_failure(stats, now), now).nanos;
            &&& left <= 5_000_000_000 ==> rest == 10_000_000_000
            &&& 5_000_000_000 <= left <= 150_000_000_000 ==> rest == 2 * left
            &&& 150_000_000_000 <= left ==> rest == 300_000_000_000
        }),
{
}

/// A rest runs down with the clock and ends when its time has passed; other things that
/// are known of the backend stay, but for one more failure and its time.
pub proof fn law_a_rest_runs_down(stats: BackendStats, failed: Instant, now: Instant)
    requires
        failed.nanos + COOLDOWN_MOST_NANOS <= u64::MAX,
        stats.failures < u32::MAX,
        failed.nanos <= now.nanos,
    ensures
        ({
            let after = after_failure(stats, failed);
            let rest = rest_left(after, failed).nanos;
            let passed = now.nanos - failed.nanos;
            &&& rest_left(after, now).nanos == if passed < rest {
                rest - passed
            } else {
                0
            }
            &&& after.failures == stats.failures + 1
            &&& after.last_failure_at == Some(failed)
            &&& after.successes == stats.successes
            &&& after.recent_encode_p95_us == stats.recent_encode_p95_us
        }),
{
}

/// A candidate that stands alone is ranked exactly if it has the wanted codec, reaches
/// the wanted width, height and frame rate, is the software encoder where that is
/// demanded and the override's backend where there is one, and is not at rest.
pub proof fn law_what_it_takes_to_be_ranked(
    c: Scored,
    ctx: PolicyContext,
    history: HistoryTable,
    now: Instant,
)
    ensures
        ({
            let cap = c.cap;
            let until = history.at(cap.backend).cooldown_until;
            ranking(seq![c], ctx, history, now).len() > 0 <==> {
                &&& cap.codec == ctx.codec
                &&& ctx.target_resolution.0 <= cap.max_resolution.0
                &&& ctx.target_resolution.1 <= cap.max_resolution.1
                &&& ctx.target_fps <= cap.max_fps
                &&& ctx.force_sw ==> cap.backend == BackendKind::Openh264
                &&& ctx.user_override is Some ==> ctx.user_override == Some(cap.backend)
                &&& until matches Some(t) ==> t.nanos <= now.nanos
            }
        }),
{
    let one = seq![c];
    assert(one.drop_last() =~= Seq::<Scored>::empty());
    assert(one.last() == c);
    reveal_with_fuel(eligible, 2);
    let all = eligible(one, ctx, history, now);
    let leq = entry_order();
    lemma_order_is_total();
    all.lemma_sort_by_ensures(leq);
    assert(all.sort_by(leq).len() == all.len()) by {
        broadcast use vstd::seq_lib::group_to_multiset_ensures;

        assert(all.to_multiset().len() == all.len());
        assert(all.sort_by(leq).to_multiset().len() == all.sort_by(leq).len());
    }
}

proof fn lemma_candidate_is_eligible(
    scored: Seq<Scored>,
    ctx: PolicyContext,
    history: HistoryTable,
    now: Instant,
    i: int,
)
    requires
        0 <= i < scored.len(),
        survives(scored[i].cap, ctx, history, now),
        ctx.user_override matches Some(b) ==> b == scored[i].cap.backend,
    ensures
        eligible(scored, ctx, history, now).contains(
            Entry { backend: scored[i].cap.backend, key: scored[i].key },
        ),
    decreases scored.len(),
{
    let all = eligible(scored, ctx, history, now);
    let e = Entry { backend: scored[i].cap.backend, key: scored[i].key };
    if i == scored.len() - 1 {
        assert(all.last() == e);
        assert(all[all.len() - 1] == e);
    } else {
        lemma_candidate_is_eligible(scored.drop_last(), ctx, history, now, i);
        let before = eligible(scored.drop_last(), ctx, history, now);
        assert(scored.drop_last()[i] == scored[i]);
        let k = choose|k: int| 0 <= k < before.len() && before[k] == e;
        assert(all[k] == e);
    }
}

/// Nobody who can serve is left out: a candidate that would be ranked alone is ranked
/// among others too. Of two such candidates the one with the higher score stands before
/// the other; with equal scores NVENC goes before Media Foundation, then OpenH264, then
/// VAAPI.
pub proof fn law_better_scores_go_first(
    scored: Seq<Scored>,
    ctx: PolicyContext,
    history: HistoryTable,
    now: Instant,
    a: int,
    b: int,
)
    requires
        0 <= a < scored.len(),
        0 <= b < scored.len(),
        ranking(seq![scored[a]], ctx, history, now).len() > 0,
        ranking(seq![scored[b]], ctx, history, now).len() > 0,
        scored[a].key > scored[b].key || scored[a].key == scored[b].key && (match (
            scored[a].cap.backend,
            scored[b].cap.backend,
        ) {
            (BackendKind::Nvenc, BackendKind::MfHevc) => true,
            (BackendKind::Nvenc, BackendKind::Openh264) => true,
            (BackendKind::Nvenc, BackendKind::Vaapi) => true,
            (BackendKind::MfHevc, BackendKind::Openh264) => true,
            (BackendKind::MfHevc, BackendKind::Vaapi) => true,
            (BackendKind::Openh264, BackendKind::Vaapi) => true,
            _ => false,
        }),
    ensures
        exists|i: int, j: int|
            {
                &&& 0 <= i < j < ranking(scored, ctx, history, now).len()
                &&& #[trigger] ranking(scored, ctx, history, now)[i] == scored[a].cap.backend
                &&& #[trigger] ranking(scored, ctx, history, now)[j] == scored[b].cap.backend
            },
{
    broadcast use vstd::seq_lib::group_to_multiset_ensures;

    law_what_it_takes_to_be_ranked(scored[a], ctx, history, now);
    law_what_it_takes_to_be_ranked(scored[b], ctx, history, now);
    lemma_candidate_is_eligible(scored, ctx, history, now, a);
    lemma_candidate_is_eligible(scored, ctx, history, now, b);
    let leq = entry_order();
    let all = eligible(scored, ctx, history, now);
    let sorted = all.sort_by(leq);
    lemma_order_is_total();
    all.lemma_sort_by_ensures(leq);
    let ea = Entry { backend: scored[a].cap.backend, key: scored[a].key };
    let eb = Entry { backend: scored[b].cap.backend, key: scored[b].key };
    assert(all.to_multiset().contains(ea) && all.to_multiset().contains(eb));
    assert(sorted.to_multiset().contains(ea) && sorted.to_multiset().contains(eb));
    assert(sorted.contains(ea) && sorted.contains(eb));
    let i = choose|i: int| 0 <= i < sorted.len() && sorted[i] == ea;
    let j = choose|j: int| 0 <= j < sorted.len() && sorted[j] == eb;
    assert(ea != eb);
    if j < i {
        assert(leq(sorted[j], sorted[i]));
        assert(precedes(eb, ea));
        assert(false);
    }
    assert(ranking(scored, ctx, history, now)[i] == scored[a].cap.backend);
    assert(ranking(scored, ctx, history, now)[j] == scored[b].cap.backend);
}

/// A backend without a measurement is taken to need half of a frame's time, any other
/// what it was last measured to need; a hint counts for its own backend alone.
pub proof fn law_what_a_score_is_made_of(
    cap: EncoderCapability,
    ctx: PolicyContext,
    history: HistoryTable,
    r: ScoreInputs,
)
    requires
        call_ensures(score_inputs, (&cap, &ctx, &history), r),
    ensures
        history.at(cap.backend).recent_encode_p95_us is None ==> 2 * r.runtime_p95_us
            <= r.frame_budget_us <= 2 * r.runtime_p95_us + 1,
        history.at(cap.backend).recent_encode_p95_us matches Some(us) ==> r.runtime_p95_us == us,
        1 <= ctx.target_fps <= 1_000_000 ==> r.frame_budget_us * ctx.target_fps <= 1_000_000 < (
        r.frame_budget_us + 1) * ctx.target_fps,
        r.hinted <==> ctx.user_hint == Some(cap.backend),
        r.priority == cap.priority && r.zero_copy == cap.zero_copy,
        r.successes == history.at(cap.backend).successes,
        r.failures == history.at(cap.backend).failures,
{
    law_frame_budgets_fill_a_second(ctx.target_fps);
}

/// What is recorded of a backend is recorded of it alone, and adds to what was known: one
/// more success, the latest latency, or one more failure and the rest that it brings.
pub proof fn law_records_count_for_their_backend(
    h: &mut HistoryTable,
    backend: BackendKind,
    other: BackendKind,
)
    requires
        old(h).at(backend).successes < u32::MAX,
        other != backend,
        call_ensures(HistoryTable::record_success, (h, backend), ()),
    ensures
        final(h).at(backend).successes == old(h).at(backend).successes + 1,
        final(h).at(backend).failures == old(h).at(backend).failures,
        final(h).at(backend).cooldown_until == old(h).at(backend).cooldown_until,
        final(h).at(backend).recent_encode_p95_us == old(h).at(backend).recent_encode_p95_us,
        final(h).at(other) == old(h).at(other),
{
}

/// A failure that is recorded at a time when the backend is not at rest keeps it out of
/// the ranking for ten seconds; other backends are as they were.
pub proof fn law_a_recorded_failure_keeps_a_backend_out(
    h: &mut HistoryTable,
    backend: BackendKind,
    other: BackendKind,
    failed: Instant,
    now: Instant,
    c: Scored,
    ctx: PolicyContext,
)
    requires
        failed.nanos + COOLDOWN_MOST_NANOS <= u64::MAX,
        old(h).at(backend).failures < u32::MAX,
        rest_left(old(h).at(backend), failed).nanos == 0,
        other != backend,
        call_ensures(HistoryTable::record_failure, (h, backend, failed), ()),
        failed.nanos <= now.nanos,
        c.cap.backend == backend,
        ranking(seq![c], ctx, *old(h), failed).len() > 0,
    ensures
        ranking(seq![c], ctx, *final(h), now).len() > 0 <==> now.nanos >= failed.nanos
            + 10_000_000_000,
        final(h).at(backend).failures == old(h).at(backend).failures + 1,
        final(h).at(other) == old(h).at(other),
{
    law_a_first_failure_rests_ten_seconds(old(h).at(backend), failed);
    law_a_rest_runs_down(old(h).at(backend), failed, now);
    law_what_it_takes_to_be_ranked(c, ctx, *old(h), failed);
    law_what_it_takes_to_be_ranked(c, ctx, *final(h), now);
}

/// The latest measurement of a backend is the one that counts.
pub proof fn law_the_latest_latency_counts(
    h: &mut HistoryTable,
    backend: BackendKind,
    other: BackendKind,
    p95_us: u64,
)
    requires
        other != backend,
        call_ensures(HistoryTable::update_encode_p95, (h, backend, p95_us), ()),
    ensures
        final(h).at(backend).recent_encode_p95_us == Some(p95_us),
        final(h).at(backend).successes == old(h).at(backend).successes,
        final(h).at(backend).failures == old(h).at(backend).failures,
        final(h).at(backend).cooldown_until == old(h).at(backend).cooldown_until,
        final(h).at(other) == old(h).at(other),
{
}

} // verus!
