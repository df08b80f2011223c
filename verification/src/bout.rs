//! Playing a bout between two agents: each is polled on every
//! `reflex_interval`-th tick with its own (delayed) observation, and its
//! intent is held until it is polled again. The bout runs until the match
//! is over, or is abandoned past a safety limit.
use crate::bounds::{lemma_tick_advances_clock, lemma_tick_reports_the_end};
use crate::hash::fnv_hash;
use crate::replay::{spec_hashes_kept, spec_reason, spec_recorded_result, spec_replayed, spec_report_at, spec_verify, Recorder, RecorderModel, Replay, ENGINE_VERSION};
use crate::ruleset::ruleset_bytes;
use crate::ruleset::Ruleset;
use crate::sim::{sim_inv, spec_new_sim, spec_observation, spec_tick, Phase, ReportModel, Sim, SimModel, TickReport};
use crate::types::{Agent, Intent, Observation};
use vstd::prelude::*;

verus! {

/// The tick past which a bout that has not ended is abandoned.
pub const SAFETY_TICK_LIMIT: u32 = 2_000_000;

/// Whether a bout stops once it reaches `m`: the match is over, or it ran
/// past the safety limit.
pub open spec fn spec_stops(m: SimModel) -> bool {
    m.phase == Phase::MatchOver || m.global_tick > SAFETY_TICK_LIMIT
}

/// Whether `stream` is what two agents polled every `reflex` ticks
/// produce: between polls, each side's intent is held.
pub open spec fn spec_held(stream: Seq<(Intent, Intent)>, reflex: u32) -> bool {
    forall|k: int| 0 < k < stream.len() && k % (reflex as int) != 0 ==> #[trigger] stream[k] == stream[k - 1]
}

/// Whether no proper prefix of `stream` stops a bout under `rs` from
/// `seed`: the bout went on after each of those ticks.
pub open spec fn spec_goes_on(rs: Ruleset, seed: u64, stream: Seq<(Intent, Intent)>) -> bool {
    forall|k: int| 1 <= k < stream.len() ==> !spec_stops(#[trigger] spec_replayed(rs, seed, stream.take(k)))
}

/// Whether `stream` is exactly as long as a bout under `rs` from `seed`
/// runs: it stops after the last tick of the stream and not before.
pub open spec fn spec_runs_to_end(rs: Ruleset, seed: u64, stream: Seq<(Intent, Intent)>) -> bool {
    &&& stream.len() >= 1
    &&& spec_stops(spec_replayed(rs, seed, stream))
    &&& spec_goes_on(rs, seed, stream)
}

/// What the last tick of `stream` reported, played under `rs` from `seed`.
pub open spec fn spec_last_report(rs: Ruleset, seed: u64, stream: Seq<(Intent, Intent)>) -> ReportModel {
    spec_tick(spec_replayed(rs, seed, stream.drop_last()), rs, stream.last().0, stream.last().1).1
}

/// Whether `result` is what a recorder kept of a bout under `rs` from
/// `seed` that played `stream`: the winner and the ending reason exactly
/// when the match is over, as the last tick reported them.
pub open spec fn spec_result_kept(
    rs: Ruleset,
    seed: u64,
    stream: Seq<(Intent, Intent)>,
    result: Option<(Option<u8>, Seq<char>)>,
) -> bool {
    &&& result.is_some() == (spec_replayed(rs, seed, stream).phase == Phase::MatchOver)
    &&& result.is_some() ==> {
        let m = spec_last_report(rs, seed, stream).match_ended;
        &&& stream.len() > 0
        &&& m.is_some()
        &&& result == Some((m.unwrap().winner, spec_reason(m.unwrap().reason)))
    }
}

/// A bout in progress: the recorder, the intents held since the last poll
/// and the reflex interval polls are spaced by.
pub struct Bout {
    rec: Recorder,
    last_intents: [Intent; 2],
    reflex_interval: u32,
}

/// The mathematical content of a `Bout`.
pub struct BoutModel {
    pub rec: RecorderModel,
    pub last: (Intent, Intent),
    pub reflex: u32,
}

impl View for Bout {
    type V = BoutModel;

    closed spec fn view(&self) -> BoutModel {
        BoutModel {
            rec: self.rec@,
            last: (self.last_intents[0], self.last_intents[1]),
            reflex: self.reflex_interval,
        }
    }
}

impl Bout {
    /// The recording is the replayed stream, the tick counter counts the
    /// ticks played, every tick but the last went on, and intents were held
    /// between polls, the last of them being the held ones.
    pub open spec fn wf(&self) -> bool {
        let m = self@;
        let rs = m.rec.rules;
        &&& rs == m.rec.sim.rules
        &&& sim_inv(m.rec.sim, rs)
        &&& m.rec.sim == spec_replayed(rs, m.rec.seed, m.rec.intents)
        &&& m.reflex == rs.reflex_interval
        &&& m.reflex > 0
        &&& m.rec.sim.global_tick == m.rec.intents.len()
        &&& m.rec.intents.len() <= SAFETY_TICK_LIMIT + 1
        &&& m.rec.intents.len() == 0 ==> !spec_stops(m.rec.sim)
        &&& spec_goes_on(rs, m.rec.seed, m.rec.intents)
        &&& spec_held(m.rec.intents, m.reflex)
        &&& m.rec.intents.len() > 0 ==> m.rec.intents.last() == m.last
        &&& spec_result_kept(rs, m.rec.seed, m.rec.intents, m.rec.result)
        &&& spec_recorded_result(rs, m.rec.seed, m.rec.intents, m.rec.result)
        &&& spec_hashes_kept(rs, m.rec.seed, m.rec.intents, m.rec.hashes)
    }

    /// Whether the bout has stopped.
    pub open spec fn spec_finished(&self) -> bool {
        spec_stops(self@.rec.sim)
    }

    /// Whether the agents are polled before the next tick.
    pub open spec fn spec_polls_now(&self) -> bool {
        (self@.rec.sim.global_tick as int) % (self@.reflex as int) == 0
    }

    /// A bout under `ruleset` from `seed` between the named agents, before
    /// its first tick.
    pub fn new(ruleset: Ruleset, ruleset_toml: String, seed: u64, agent_a: &str, agent_b: &str) -> (r: Bout)
        requires
            ruleset.wf(),
            ruleset.reflex_interval > 0,
        ensures
            r.wf(),
            r@.rec.rules == ruleset,
            r@.rec.seed == seed,
            r@.rec.intents == Seq::<(Intent, Intent)>::empty(),
            r@.rec.toml == ruleset_toml@,
            r@.rec.names == (agent_a@, agent_b@),
            r@.rec.hashes.is_none(),
            !r.spec_finished(),
    {
        let reflex_interval = ruleset.reflex_interval;
        let rec = Recorder::new(ruleset, ruleset_toml, seed, agent_a, agent_b);
        proof {
            assert(spec_replayed(rec@.rules, seed, rec@.intents) == spec_new_sim(rec@.rules, seed));
        }
        Bout { rec, last_intents: [Intent::Nothing, Intent::Nothing], reflex_interval }
    }

    /// Keep every tick's state hash in the replay; only before the first
    /// tick.
    pub fn keep_tick_hashes(&mut self)
        requires
            old(self).wf(),
            old(self)@.rec.intents.len() == 0,
        ensures
            final(self).wf(),
            final(self)@ == (BoutModel { rec: RecorderModel { hashes: Some(Seq::<u64>::empty()), ..old(self)@.rec }, ..old(self)@ }),
            !old(self).spec_finished() ==> !final(self).spec_finished(),
    {
        self.rec.keep_tick_hashes();
    }

    /// The simulation being played.
    pub fn sim(&self) -> (r: &Sim)
        ensures
            r@ == self@.rec.sim,
    {
        self.rec.sim()
    }

    /// The intents applied on the last tick and held until the next poll.
    pub fn held_intents(&self) -> (r: [Intent; 2])
        ensures
            (r[0], r[1]) == self@.last,
    {
        self.last_intents
    }

    /// Whether the bout has stopped: the match is over or the safety limit
    /// was passed.
    pub fn finished(&self) -> (r: bool)
        ensures
            r == self.spec_finished(),
    {
        let sim = self.rec.sim();
        sim.is_over() || sim.global_tick() > SAFETY_TICK_LIMIT
    }

    /// Whether the agents are to be polled before the next tick: on every
    /// tick that is a multiple of the reflex interval.
    pub fn polls_now(&self) -> (r: bool)
        requires
            self.wf(),
        ensures
            r == self.spec_polls_now(),
    {
        self.rec.sim().global_tick() % self.reflex_interval == 0
    }

    /// What fighter `idx`'s agent is shown when polled.
    pub fn observation(&self, idx: usize) -> (r: Observation)
        requires
            self.wf(),
        ensures
            r == crate::sim::spec_observation(self@.rec.sim, self@.rec.rules, idx),
    {
        self.rec.sim().observation(idx)
    }

    /// Play one tick. On a polling tick the polled intents are applied and
    /// held; otherwise (or when none are given) the held intents are
    /// applied again.
    pub fn step(&mut self, polled: Option<[Intent; 2]>) -> (report: TickReport)
        requires
            old(self).wf(),
            !old(self).spec_finished(),
        ensures
            final(self).wf(),
            final(self)@.rec.rules == old(self)@.rec.rules,
            final(self)@.rec.seed == old(self)@.rec.seed,
            final(self)@.rec.toml == old(self)@.rec.toml,
            final(self)@.rec.names == old(self)@.rec.names,
            final(self)@.rec.hashes.is_some() == old(self)@.rec.hashes.is_some(),
            final(self)@.last == (match polled {
                Some(p) => if old(self).spec_polls_now() { (p[0], p[1]) } else { old(self)@.last },
                None => old(self)@.last,
            }),
            final(self)@.rec.intents == old(self)@.rec.intents.push(final(self)@.last),
            report@ == spec_tick(old(self)@.rec.sim, old(self)@.rec.rules, final(self)@.last.0, final(self)@.last.1).1,
            final(self)@.rec.sim == spec_tick(old(self)@.rec.sim, old(self)@.rec.rules, final(self)@.last.0, final(self)@.last.1).0,
    {
        let ghost before = self@;
        let ghost rs = before.rec.rules;
        let ghost seed = before.rec.seed;
        let polls = self.rec.sim().global_tick() % self.reflex_interval == 0;
        if polls {
            match polled {
                Some(p) => {
                    self.last_intents = p;
                },
                None => {},
            }
        }
        let intents = self.last_intents;
        proof {
            lemma_tick_advances_clock(before.rec.sim, intents[0], intents[1]);
            lemma_tick_reports_the_end(before.rec.sim, intents[0], intents[1]);
        }
        let report = self.rec.tick(intents);
        proof {
            let after = self@;
            let n = before.rec.intents.len();
            assert(after.rec.intents.drop_last() =~= before.rec.intents);
            assert(after.rec.intents.take(n as int) =~= before.rec.intents);
            assert(before.rec.intents.take(n as int) =~= before.rec.intents);
            assert forall|k: int| 1 <= k < after.rec.intents.len() implies !spec_stops(
                #[trigger] spec_replayed(rs, seed, after.rec.intents.take(k)),
            ) by {
                assert(after.rec.intents.take(k) =~= before.rec.intents.take(k));
                if k < n {
                    assert(!spec_stops(spec_replayed(rs, seed, before.rec.intents.take(k))));
                }
            }
            assert forall|k: int| 0 < k < after.rec.intents.len() && k % (after.reflex as int) != 0 implies #[trigger] after.rec.intents[k] == after.rec.intents[k - 1] by {
                if k < n {
                    assert(before.rec.intents[k] == before.rec.intents[k - 1]);
                }
            }
        }
        report
    }

    /// The replay of the bout so far. Once the bout has finished, the
    /// replay runs exactly to its end.
    pub fn into_replay(self) -> (r: Replay)
        requires
            self.wf(),
        ensures
            r.rng_seed == self@.rec.seed,
            r.intent_stream@ == self@.rec.intents,
            r.warnings@ == self@.rec.warnings,
            r.final_state_hash_chain == spec_replayed(self@.rec.rules, r.rng_seed, r.intent_stream@).chain_hash,
            spec_verify(r, self@.rec.rules).ok,
            spec_goes_on(self@.rec.rules, r.rng_seed, r.intent_stream@),
            spec_held(r.intent_stream@, self@.rec.rules.reflex_interval),
            self.spec_finished() ==> spec_runs_to_end(self@.rec.rules, r.rng_seed, r.intent_stream@),
            r.ruleset_hash == fnv_hash(ruleset_bytes(self@.rec.rules)),
            r.ruleset_toml@ == self@.rec.toml,
            r.engine_version@ == ENGINE_VERSION@,
            (r.agent_names[0]@, r.agent_names[1]@) == self@.rec.names,
            r.result.is_some() == self@.rec.result.is_some(),
            r.result.is_some() ==> (r.result.unwrap().winner, r.result.unwrap().reason@) == self@.rec.result.unwrap(),
            r.tick_hashes.is_some() == self@.rec.hashes.is_some(),
            spec_hashes_kept(
                self@.rec.rules,
                r.rng_seed,
                r.intent_stream@,
                match r.tick_hashes {
                    Some(v) => Some(v@),
                    None => None,
                },
            ),
    {
        self.rec.into_replay()
    }
}

/// What the two agents decide when polled before tick `j` of `stream`
/// (played under `rs` from `seed`) with models `ma` and `mb`: each on its
/// own fighter's observation, fighter 0's agent first.
pub open spec fn spec_decisions<A: Agent, B: Agent>(
    rs: Ruleset,
    seed: u64,
    stream: Seq<(Intent, Intent)>,
    ma: A::Model,
    mb: B::Model,
    j: int,
) -> ((A::Model, Intent), (B::Model, Intent)) {
    let m = spec_replayed(rs, seed, stream.take(j));
    (A::spec_decide(ma, spec_observation(m, rs, 0)), B::spec_decide(mb, spec_observation(m, rs, 1)))
}

/// Whether the agents are polled before tick `j`.
pub open spec fn spec_polls_at(rs: Ruleset, j: int) -> bool {
    j % (rs.reflex_interval as int) == 0
}

/// The two agents' models just before tick `k` of `stream`, having started
/// from `ma` and `mb`: each polling tick both decide, and both are reset
/// when a tick ends a round without ending the match.
pub open spec fn spec_agents_before<A: Agent, B: Agent>(
    rs: Ruleset,
    seed: u64,
    stream: Seq<(Intent, Intent)>,
    ma: A::Model,
    mb: B::Model,
    k: nat,
) -> (A::Model, B::Model)
    decreases k,
{
    if k == 0 {
        (ma, mb)
    } else {
        let j = k - 1;
        let (a0, b0) = spec_agents_before::<A, B>(rs, seed, stream, ma, mb, j as nat);
        let d = spec_decisions::<A, B>(rs, seed, stream, a0, b0, j);
        let (a1, b1) = if spec_polls_at(rs, j) { (d.0.0, d.1.0) } else { (a0, b0) };
        let rep = spec_report_at(rs, seed, stream, j);
        if rep.round_ended.is_some() && rep.match_ended.is_none() {
            (A::spec_reset(a1), B::spec_reset(b1))
        } else {
            (a1, b1)
        }
    }
}

/// Whether every polled entry of `stream` is what the agents, starting from
/// `ma` and `mb`, decided there: fighter 0's agent's intent first.
pub open spec fn spec_driven<A: Agent, B: Agent>(
    rs: Ruleset,
    seed: u64,
    stream: Seq<(Intent, Intent)>,
    ma: A::Model,
    mb: B::Model,
) -> bool {
    forall|j: int|
        0 <= j < stream.len() && spec_polls_at(rs, j) ==> {
            let (a0, b0) = #[trigger] spec_agents_before::<A, B>(rs, seed, stream, ma, mb, j as nat);
            let d = spec_decisions::<A, B>(rs, seed, stream, a0, b0, j);
            stream[j] == (d.0.1, d.1.1)
        }
}

/// The agents' models up to tick `k` depend only on the first `k` ticks.
proof fn lemma_agents_prefix<A: Agent, B: Agent>(
    rs: Ruleset,
    seed: u64,
    s: Seq<(Intent, Intent)>,
    t: Seq<(Intent, Intent)>,
    ma: A::Model,
    mb: B::Model,
    k: nat,
)
    requires
        k <= s.len(),
        s.len() <= t.len(),
        t.take(s.len() as int) == s,
    ensures
        spec_agents_before::<A, B>(rs, seed, s, ma, mb, k) == spec_agents_before::<A, B>(rs, seed, t, ma, mb, k),
    decreases k,
{
    if k > 0 {
        let j = k - 1;
        lemma_agents_prefix::<A, B>(rs, seed, s, t, ma, mb, j as nat);
        assert(s.take(j) =~= t.take(j));
        assert(s[j] == t[j]);
        assert(spec_report_at(rs, seed, s, j) == spec_report_at(rs, seed, t, j));
    }
}

/// One more tick keeps the agents driving the stream: if the new entry is,
/// on a polling tick, what the agents decide there, the longer stream is
/// still driven, and the models before the new tick are unchanged.
proof fn lemma_driven_extends<A: Agent, B: Agent>(
    rs: Ruleset,
    seed: u64,
    s0: Seq<(Intent, Intent)>,
    last: (Intent, Intent),
    ma: A::Model,
    mb: B::Model,
)
    requires
        spec_driven::<A, B>(rs, seed, s0, ma, mb),
        spec_polls_at(rs, s0.len() as int) ==> {
            let (a0, b0) = spec_agents_before::<A, B>(rs, seed, s0, ma, mb, s0.len());
            let d = spec_decisions::<A, B>(rs, seed, s0, a0, b0, s0.len() as int);
            last == (d.0.1, d.1.1)
        },
    ensures
        spec_driven::<A, B>(rs, seed, s0.push(last), ma, mb),
        forall|k: nat|
            k <= s0.len() ==> #[trigger] spec_agents_before::<A, B>(rs, seed, s0.push(last), ma, mb, k)
                == spec_agents_before::<A, B>(rs, seed, s0, ma, mb, k),
{
    let n = s0.len() as int;
    let s1 = s0.push(last);
    assert(s1.take(n) =~= s0);
    assert forall|k: nat| k <= s0.len() implies #[trigger] spec_agents_before::<A, B>(rs, seed, s1, ma, mb, k)
        == spec_agents_before::<A, B>(rs, seed, s0, ma, mb, k) by {
        lemma_agents_prefix::<A, B>(rs, seed, s0, s1, ma, mb, k);
    }
    assert forall|j: int| 0 <= j < s1.len() && spec_polls_at(rs, j) implies {
        let (x0, y0) = #[trigger] spec_agents_before::<A, B>(rs, seed, s1, ma, mb, j as nat);
        let d = spec_decisions::<A, B>(rs, seed, s1, x0, y0, j);
        s1[j] == (d.0.1, d.1.1)
    } by {
        assert(s1.take(j) =~= s0.take(j));
        assert(spec_agents_before::<A, B>(rs, seed, s1, ma, mb, j as nat)
            == spec_agents_before::<A, B>(rs, seed, s0, ma, mb, j as nat));
        if j < n {
            assert(s1[j] == s0[j]);
        } else {
            assert(s0.take(n) =~= s0);
        }
    }
}

/// The models after one more tick: what was decided on a polling tick
/// (else the models before), reset when that tick ended a round but not
/// the match.
proof fn lemma_models_step<A: Agent, B: Agent>(
    rs: Ruleset,
    seed: u64,
    s1: Seq<(Intent, Intent)>,
    ma: A::Model,
    mb: B::Model,
    n: nat,
    a0: A::Model,
    b0: B::Model,
    a1: A::Model,
    b1: B::Model,
)
    requires
        spec_agents_before::<A, B>(rs, seed, s1, ma, mb, n) == (a0, b0),
        spec_polls_at(rs, n as int) ==> ({
            let d = spec_decisions::<A, B>(rs, seed, s1, a0, b0, n as int);
            (a1, b1) == (d.0.0, d.1.0)
        }),
        !spec_polls_at(rs, n as int) ==> (a1, b1) == (a0, b0),
    ensures
        spec_agents_before::<A, B>(rs, seed, s1, ma, mb, n + 1) == ({
            let rep = spec_report_at(rs, seed, s1, n as int);
            if rep.round_ended.is_some() && rep.match_ended.is_none() {
                (A::spec_reset(a1), B::spec_reset(b1))
            } else {
                (a1, b1)
            }
        }),
{
    assert((n + 1) as nat - 1 == n);
}

/// Play a bout between `agent_a` (fighter 0) and `agent_b` (fighter 1)
/// under `ruleset` from `seed`, recording it. The agents are polled on
/// every tick that is a multiple of the reflex interval and their intents
/// held in between; the bout stops as soon as the match is over or the
/// tick counter passes the safety limit, and both agents are reset whenever
/// a round ends and the match goes on. Each polled intent pair is exactly
/// what the two agents decided, each on its own fighter's observation.
/// With `tick_hashes`, the replay also carries every tick's state hash.
/// Whatever the agents decide, the replay verifies under `ruleset`.
#[verifier::rlimit(100)]
pub fn play<A: Agent, B: Agent>(
    agent_a: &mut A,
    agent_b: &mut B,
    ruleset: Ruleset,
    ruleset_toml: String,
    seed: u64,
    agent_a_name: &str,
    agent_b_name: &str,
    tick_hashes: bool,
) -> (r: Replay)
    requires
        ruleset.wf(),
        ruleset.reflex_interval > 0,
    ensures
        r.rng_seed == seed,
        r.final_state_hash_chain == spec_replayed(ruleset, seed, r.intent_stream@).chain_hash,
        spec_verify(r, ruleset).ok,
        spec_runs_to_end(ruleset, seed, r.intent_stream@),
        spec_held(r.intent_stream@, ruleset.reflex_interval),
        spec_result_kept(ruleset, seed, r.intent_stream@, match r.result {
            Some(e) => Some((e.winner, e.reason@)),
            None => None,
        }),
        r.ruleset_hash == fnv_hash(ruleset_bytes(ruleset)),
        r.ruleset_toml@ == ruleset_toml@,
        r.engine_version@ == ENGINE_VERSION@,
        (r.agent_names[0]@, r.agent_names[1]@) == (agent_a_name@, agent_b_name@),
        r.tick_hashes.is_some() == tick_hashes,
        spec_hashes_kept(
            ruleset,
            seed,
            r.intent_stream@,
            match r.tick_hashes {
                Some(v) => Some(v@),
                None => None,
            },
        ),
        spec_driven::<A, B>(ruleset, seed, r.intent_stream@, old(agent_a).model(), old(agent_b).model()),
        (final(agent_a).model(), final(agent_b).model()) == spec_agents_before::<A, B>(
            ruleset,
            seed,
            r.intent_stream@,
            old(agent_a).model(),
            old(agent_b).model(),
            r.intent_stream@.len(),
        ),
{
    let ghost rs = ruleset;
    let ghost ma = agent_a.model();
    let ghost mb = agent_b.model();
    let ghost toml = ruleset_toml@;
    let mut bout = Bout::new(ruleset, ruleset_toml, seed, agent_a_name, agent_b_name);
    if tick_hashes {
        bout.keep_tick_hashes();
    }
    while !bout.finished()
        invariant
            bout.wf(),
            bout@.rec.rules == rs,
            bout@.rec.seed == seed,
            bout@.rec.toml == toml,
            bout@.rec.names == (agent_a_name@, agent_b_name@),
            bout@.rec.hashes.is_some() == tick_hashes,
            spec_driven::<A, B>(rs, seed, bout@.rec.intents, ma, mb),
            (agent_a.model(), agent_b.model()) == spec_agents_before::<A, B>(
                rs,
                seed,
                bout@.rec.intents,
                ma,
                mb,
                bout@.rec.intents.len(),
            ),
        decreases SAFETY_TICK_LIMIT + 1 - bout@.rec.intents.len(),
    {
        let ghost s0 = bout@.rec.intents;
        let ghost n = s0.len();
        let ghost a0 = agent_a.model();
        let ghost b0 = agent_b.model();
        let polled = if bout.polls_now() {
            let obs_a = bout.observation(0);
            let obs_b = bout.observation(1);
            Some([agent_a.decide(&obs_a), agent_b.decide(&obs_b)])
        } else {
            None
        };
        let ghost a1 = agent_a.model();
        let ghost b1 = agent_b.model();
        proof {
            assert(s0.take(n as int) =~= s0);
        }
        let report = bout.step(polled);
        if report.round_ended.is_some() && report.match_ended.is_none() {
            agent_a.reset();
            agent_b.reset();
        }
        proof {
            let s1 = bout@.rec.intents;
            let last = bout@.last;
            assert(s0.take(n as int) =~= s0);
            assert(s1 == s0.push(last));
            lemma_driven_extends::<A, B>(rs, seed, s0, last, ma, mb);
            assert(s1.take(n as int) =~= s0);
            assert(report@ == spec_report_at(rs, seed, s1, n as int));
            assert(spec_agents_before::<A, B>(rs, seed, s1, ma, mb, n) == (a0, b0));
            assert(s1.take(n as int) =~= s0.take(n as int));
            lemma_models_step::<A, B>(rs, seed, s1, ma, mb, n, a0, b0, a1, b1);
        }
    }
    bout.into_replay()
}

} // verus!
