//! Recording a bout as its seed and intent stream, and verifying that the
//! stream reproduces the recorded hash chain.
use crate::bounds::{lemma_tick_advances_clock, lemma_tick_reports_the_end};
use crate::hash::fnv_hash;
use crate::ruleset::{ruleset_bytes, Ruleset};
use crate::sim::{sim_inv, spec_new_sim, spec_tick, MatchEndReason, ReportModel, Sim, SimModel, TickReport, WarnLog};
use crate::types::Intent;
use vstd::prelude::*;

verus! {

/// The engine version recorded into every replay.
pub const ENGINE_VERSION: &'static str = "0.1.0";

/// A passivity warning as recorded in a replay.
#[derive(Debug, Clone, PartialEq, Eq, Structural)]
pub struct WarningEntry {
    pub global_tick: u32,
    pub fighter_idx: usize,
    pub second_warning: bool,
}

/// How the recorded bout ended.
#[derive(Debug, Clone)]
pub struct ResultEntry {
    pub winner: Option<u8>,
    pub reason: String,
}

/// Everything needed to reproduce a bout exactly.
#[derive(Debug, Clone)]
pub struct Replay {
    pub ruleset_hash: u64,
    pub ruleset_toml: String,
    pub engine_version: String,
    pub rng_seed: u64,
    pub agent_names: [String; 2],
    /// One intent pair per tick, in order, starting at tick 0.
    pub intent_stream: Vec<(Intent, Intent)>,
    pub warnings: Vec<WarningEntry>,
    pub result: Option<ResultEntry>,
    pub final_state_hash_chain: u64,
    /// Every per-tick state hash, when recorded with per-tick hashes.
    pub tick_hashes: Option<Vec<u64>>,
}

/// The outcome of re-running a replay.
#[derive(Debug, Clone, Copy, PartialEq, Eq, Structural)]
pub struct VerifyResult {
    pub ok: bool,
    pub expected_chain_hash: u64,
    pub computed_chain_hash: u64,
    pub ticks_run: u32,
}

/// The match after playing `stream` from `m`, one tick per intent pair.
pub open spec fn spec_run(m: SimModel, rs: Ruleset, stream: Seq<(Intent, Intent)>) -> SimModel
    decreases stream.len(),
{
    if stream.len() == 0 {
        m
    } else {
        let prev = spec_run(m, rs, stream.drop_last());
        spec_tick(prev, rs, stream.last().0, stream.last().1).0
    }
}

/// The match a bout under `rs` with `seed` reaches after `stream`.
pub open spec fn spec_replayed(rs: Ruleset, seed: u64, stream: Seq<(Intent, Intent)>) -> SimModel {
    spec_run(spec_new_sim(rs, seed), rs, stream)
}

/// What verifying `replay` under `rs` reports.
pub open spec fn spec_verify(replay: Replay, rs: Ruleset) -> VerifyResult {
    let end = spec_replayed(rs, replay.rng_seed, replay.intent_stream@);
    VerifyResult {
        ok: end.chain_hash == replay.final_state_hash_chain,
        expected_chain_hash: replay.final_state_hash_chain,
        computed_chain_hash: end.chain_hash,
        ticks_run: end.global_tick,
    }
}

/// The recorded name of a match-ending reason.
pub open spec fn spec_reason(r: MatchEndReason) -> Seq<char> {
    match r {
        MatchEndReason::Ko => "ko"@,
        MatchEndReason::Timeout => "timeout"@,
        MatchEndReason::SuddenDeath => "sudden_death"@,
    }
}

/// The recorded name of a match-ending reason.
pub fn reason_str(r: MatchEndReason) -> (s: String)
    ensures
        s@ == spec_reason(r),
{
    match r {
        MatchEndReason::Ko => String::from_str("ko"),
        MatchEndReason::Timeout => String::from_str("timeout"),
        MatchEndReason::SuddenDeath => String::from_str("sudden_death"),
    }
}

/// Warnings of one tick, stamped with the tick they were issued on.
pub open spec fn spec_stamped(tick: u32, ws: Seq<WarnLog>) -> Seq<WarningEntry> {
    ws.map_values(|w: WarnLog| WarningEntry { global_tick: tick, fighter_idx: w.fighter_idx, second_warning: w.second_warning })
}

/// What tick `k` of `stream` reported, played under `rs` from `seed`.
pub open spec fn spec_report_at(rs: Ruleset, seed: u64, stream: Seq<(Intent, Intent)>, k: int) -> ReportModel {
    spec_tick(spec_replayed(rs, seed, stream.take(k)), rs, stream[k].0, stream[k].1).1
}

/// Whether `result` is what a recording of `stream` keeps: a winner and an
/// ending reason exactly when the match is over, as reported by the tick
/// that ended it.
pub open spec fn spec_recorded_result(
    rs: Ruleset,
    seed: u64,
    stream: Seq<(Intent, Intent)>,
    result: Option<(Option<u8>, Seq<char>)>,
) -> bool {
    &&& result.is_some() == (spec_replayed(rs, seed, stream).phase == crate::sim::Phase::MatchOver)
    &&& (exists|k: int| 0 <= k < stream.len() && (#[trigger] spec_report_at(rs, seed, stream, k)).match_ended.is_some())
        ==> result.is_some()
    &&& result.is_some() ==> exists|k: int|
        0 <= k < stream.len() && (#[trigger] spec_report_at(rs, seed, stream, k)).match_ended.is_some() && result == Some(
            (
                spec_report_at(rs, seed, stream, k).match_ended.unwrap().winner,
                spec_reason(spec_report_at(rs, seed, stream, k).match_ended.unwrap().reason),
            ),
        )
}

/// Whether `hashes`, when kept, are the state hashes of every tick of
/// `stream` played under `rs` from `seed`, in order.
pub open spec fn spec_hashes_kept(rs: Ruleset, seed: u64, stream: Seq<(Intent, Intent)>, hashes: Option<Seq<u64>>) -> bool {
    hashes.is_some() ==> {
        &&& hashes.unwrap().len() == stream.len()
        &&& forall|k: int| 0 <= k < stream.len() ==> #[trigger] hashes.unwrap()[k] == spec_report_at(rs, seed, stream, k).state_hash
    }
}

/// Keeping the new tick's state hash keeps the hashes of a stream one tick
/// longer.
proof fn lemma_hashes_extend(
    rs: Ruleset,
    seed: u64,
    s0: Seq<(Intent, Intent)>,
    last: (Intent, Intent),
    h0: Seq<u64>,
    hash: u64,
)
    requires
        spec_hashes_kept(rs, seed, s0, Some(h0)),
        hash == spec_report_at(rs, seed, s0.push(last), s0.len() as int).state_hash,
    ensures
        spec_hashes_kept(rs, seed, s0.push(last), Some(h0.push(hash))),
{
    let s1 = s0.push(last);
    let h1 = h0.push(hash);
    assert forall|k: int| 0 <= k < s1.len() implies #[trigger] h1[k] == spec_report_at(rs, seed, s1, k).state_hash by {
        if k < s0.len() {
            assert(s1.take(k) =~= s0.take(k));
            assert(s1[k] == s0[k]);
            assert(spec_report_at(rs, seed, s1, k) == spec_report_at(rs, seed, s0, k));
        }
    }
}

/// Drives a `Sim`, recording every tick's intents so the bout can be
/// reproduced exactly.
pub struct Recorder {
    pub sim: Sim,
    seed: u64,
    agent_names: [String; 2],
    ruleset_toml: String,
    intent_stream: Vec<(Intent, Intent)>,
    warnings: Vec<WarningEntry>,
    result: Option<ResultEntry>,
    tick_hashes: Option<Vec<u64>>,
}

/// The mathematical content of a `Recorder`.
pub struct RecorderModel {
    pub sim: SimModel,
    pub seed: u64,
    pub rules: Ruleset,
    pub intents: Seq<(Intent, Intent)>,
    pub warnings: Seq<WarningEntry>,
    /// The ruleset's source text.
    pub toml: Seq<char>,
    /// The agents' names, fighter 0's first.
    pub names: (Seq<char>, Seq<char>),
    /// The recorded winner and ending reason, once the match has ended.
    pub result: Option<(Option<u8>, Seq<char>)>,
    /// Every tick's state hash, when the recorder keeps them.
    pub hashes: Option<Seq<u64>>,
}

impl View for Recorder {
    type V = RecorderModel;

    closed spec fn view(&self) -> RecorderModel {
        RecorderModel {
            sim: self.sim@,
            seed: self.seed,
            rules: self.sim@.rules,
            intents: self.intent_stream@,
            warnings: self.warnings@,
            toml: self.ruleset_toml@,
            names: (self.agent_names[0]@, self.agent_names[1]@),
            result: match self.result {
                Some(r) => Some((r.winner, r.reason@)),
                None => None,
            },
            hashes: match self.tick_hashes {
                Some(v) => Some(v@),
                None => None,
            },
        }
    }
}

impl Recorder {
    /// The simulation is reachable and is exactly the recorded stream
    /// played from the recorded seed.
    pub open spec fn wf(&self) -> bool {
        &&& self@.rules == self@.sim.rules
        &&& sim_inv(self@.sim, self@.rules)
        &&& self@.sim == spec_replayed(self@.rules, self@.seed, self@.intents)
        &&& spec_recorded_result(self@.rules, self@.seed, self@.intents, self@.result)
        &&& spec_hashes_kept(self@.rules, self@.seed, self@.intents, self@.hashes)
    }

    /// A recorder for a new bout under `ruleset` (whose source text is
    /// `ruleset_toml`), seeded with `seed`, between the named agents.
    pub fn new(ruleset: Ruleset, ruleset_toml: String, seed: u64, agent_a: &str, agent_b: &str) -> (r: Recorder)
        requires
            ruleset.wf(),
        ensures
            r.wf(),
            r@.rules == ruleset,
            r@.seed == seed,
            r@.intents == Seq::<(Intent, Intent)>::empty(),
            r@.warnings == Seq::<WarningEntry>::empty(),
            r@.toml == ruleset_toml@,
            r@.names == (agent_a@, agent_b@),
            r@.result.is_none(),
            r@.hashes.is_none(),
    {
        let sim = Sim::new(ruleset, seed);
        Recorder {
            sim,
            seed,
            agent_names: [String::from_str(agent_a), String::from_str(agent_b)],
            ruleset_toml,
            intent_stream: Vec::new(),
            warnings: Vec::new(),
            result: None,
            tick_hashes: None,
        }
    }

    /// Keep every tick's state hash from now on; only before the first
    /// tick, so the hashes cover the whole bout.
    pub fn keep_tick_hashes(&mut self)
        requires
            old(self).wf(),
            old(self)@.intents.len() == 0,
        ensures
            final(self).wf(),
            final(self)@ == (RecorderModel { hashes: Some(Seq::<u64>::empty()), ..old(self)@ }),
    {
        self.tick_hashes = Some(Vec::new());
    }

    /// Advance one tick, recording the intents applied, the warnings
    /// issued (stamped with the tick), the state hash when hashes are kept,
    /// and the match result if it ended.
    #[verifier::rlimit(50)]
    pub fn tick(&mut self, intents: [Intent; 2]) -> (report: TickReport)
        requires
            old(self).wf(),
        ensures
            final(self).wf(),
            report@ == spec_tick(old(self)@.sim, old(self)@.rules, intents[0], intents[1]).1,
            report@ == spec_report_at(
                final(self)@.rules,
                final(self)@.seed,
                final(self)@.intents,
                old(self)@.intents.len() as int,
            ),
            final(self)@.rules == old(self)@.rules,
            final(self)@.seed == old(self)@.seed,
            final(self)@.intents == old(self)@.intents.push((intents[0], intents[1])),
            final(self)@.warnings == old(self)@.warnings + spec_stamped(old(self)@.sim.global_tick, report@.warnings),
            final(self)@.toml == old(self)@.toml,
            final(self)@.names == old(self)@.names,
            final(self)@.hashes == (match old(self)@.hashes {
                Some(h) => Some(h.push(report@.state_hash)),
                None => None,
            }),
            final(self)@.result == (match report@.match_ended {
                Some(m) => Some((m.winner, spec_reason(m.reason))),
                None => old(self)@.result,
            }),
    {
        let ghost r0 = self@;
        let global_tick = self.sim.global_tick();
        let ghost stream0 = self.intent_stream@;
        let report = self.sim.tick(intents);
        self.intent_stream.push((intents[0], intents[1]));
        proof {
            assert(self.intent_stream@.drop_last() =~= stream0);
        }
        let ghost w0 = self.warnings@;
        let ghost r1 = self@;
        let mut i: usize = 0;
        while i < report.warnings.len()
            invariant
                0 <= i <= report.warnings@.len(),
                self@ == (RecorderModel { warnings: self@.warnings, ..r1 }),
                self.warnings@ == w0 + spec_stamped(global_tick, report.warnings@.take(i as int)),
            decreases report.warnings@.len() - i,
        {
            let w = report.warnings[i];
            self.warnings.push(WarningEntry { global_tick, fighter_idx: w.fighter_idx, second_warning: w.second_warning });
            proof {
                assert(spec_stamped(global_tick, report.warnings@.take(i + 1)) =~= spec_stamped(
                    global_tick,
                    report.warnings@.take(i as int),
                ).push(WarningEntry { global_tick, fighter_idx: w.fighter_idx, second_warning: w.second_warning }));
            }
            i = i + 1;
        }
        proof {
            assert(report.warnings@.take(i as int) =~= report.warnings@);
        }
        match report.match_ended {
            Some(m) => {
                self.result = Some(ResultEntry { winner: m.winner, reason: reason_str(m.reason) });
            },
            None => {},
        }
        let kept = self.tick_hashes.take();
        match kept {
            Some(mut v) => {
                v.push(report.state_hash);
                self.tick_hashes = Some(v);
            },
            None => {},
        }
        proof {
            let rs = r0.rules;
            let seed = r0.seed;
            let n = r0.intents.len() as int;
            let s1 = self@.intents;
            assert(s1.take(n) =~= r0.intents);
            assert(s1.drop_last() =~= r0.intents);
            assert(spec_report_at(rs, seed, s1, n) == report@);
            if r0.sim.phase != crate::sim::Phase::MatchOver {
                lemma_tick_reports_the_end(r0.sim, intents[0], intents[1]);
            } else {
                lemma_tick_advances_clock(r0.sim, intents[0], intents[1]);
                let k = choose|k: int|
                    0 <= k < r0.intents.len() && (#[trigger] spec_report_at(rs, seed, r0.intents, k)).match_ended.is_some()
                        && r0.result == Some(
                        (
                            spec_report_at(rs, seed, r0.intents, k).match_ended.unwrap().winner,
                            spec_reason(spec_report_at(rs, seed, r0.intents, k).match_ended.unwrap().reason),
                        ),
                    );
                assert(s1.take(k) =~= r0.intents.take(k));
                assert(spec_report_at(rs, seed, s1, k) == spec_report_at(rs, seed, r0.intents, k));
            }
            if r0.hashes.is_some() {
                lemma_hashes_extend(rs, seed, r0.intents, (intents[0], intents[1]), r0.hashes.unwrap(), report@.state_hash);
            }
            if r0.result.is_none() && report@.match_ended.is_none() {
                assert forall|k: int| 0 <= k < s1.len() implies !(#[trigger] spec_report_at(rs, seed, s1, k)).match_ended.is_some() by {
                    if k < n {
                        assert(s1.take(k) =~= r0.intents.take(k));
                        assert(spec_report_at(rs, seed, s1, k) == spec_report_at(rs, seed, r0.intents, k));
                    }
                }
            }
        }
        report
    }

    /// The simulation being recorded.
    pub fn sim(&self) -> (r: &Sim)
        ensures
            r@ == self@.sim,
    {
        &self.sim
    }

    /// Whether the recorded match has ended.
    pub fn is_over(&self) -> (r: bool)
        ensures
            r == (self@.sim.phase == crate::sim::Phase::MatchOver),
    {
        self.sim.is_over()
    }

    /// The replay of everything recorded so far.
    pub fn into_replay(self) -> (r: Replay)
        requires
            self.wf(),
        ensures
            r.rng_seed == self@.seed,
            r.intent_stream@ == self@.intents,
            r.warnings@ == self@.warnings,
            r.final_state_hash_chain == self@.sim.chain_hash,
            r.final_state_hash_chain == spec_replayed(self@.rules, r.rng_seed, r.intent_stream@).chain_hash,
            r.ruleset_hash == fnv_hash(ruleset_bytes(self@.rules)),
            r.ruleset_toml@ == self@.toml,
            r.engine_version@ == ENGINE_VERSION@,
            (r.agent_names[0]@, r.agent_names[1]@) == self@.names,
            r.result.is_some() == self@.result.is_some(),
            r.result.is_some() ==> (r.result.unwrap().winner, r.result.unwrap().reason@) == self@.result.unwrap(),
            r.tick_hashes.is_some() == self@.hashes.is_some(),
            r.tick_hashes.is_some() ==> Some(r.tick_hashes.unwrap()@) == self@.hashes,
            spec_hashes_kept(
                self@.rules,
                r.rng_seed,
                r.intent_stream@,
                match r.tick_hashes {
                    Some(v) => Some(v@),
                    None => None,
                },
            ),
            spec_recorded_result(
                self@.rules,
                r.rng_seed,
                r.intent_stream@,
                match r.result {
                    Some(e) => Some((e.winner, e.reason@)),
                    None => None,
                },
            ),
    {
        let ruleset_hash = self.sim.rules().content_hash();
        let final_state_hash_chain = self.sim.chain_hash();
        Replay {
            ruleset_hash,
            ruleset_toml: self.ruleset_toml,
            engine_version: String::from_str(ENGINE_VERSION),
            rng_seed: self.seed,
            agent_names: self.agent_names,
            intent_stream: self.intent_stream,
            warnings: self.warnings,
            result: self.result,
            final_state_hash_chain,
            tick_hashes: self.tick_hashes,
        }
    }
}

/// The match a replay reaches under `ruleset` after its first `count`
/// ticks, re-run from its seed.
pub fn replay_to(replay: &Replay, ruleset: Ruleset, count: usize) -> (r: Sim)
    requires
        ruleset.wf(),
        count <= replay.intent_stream@.len(),
    ensures
        r.wf(),
        r@ == spec_replayed(ruleset, replay.rng_seed, replay.intent_stream@.take(count as int)),
{
    let ghost rs = ruleset;
    let mut sim = Sim::new(ruleset, replay.rng_seed);
    let mut i: usize = 0;
    proof {
        assert(replay.intent_stream@.take(0) =~= Seq::<(Intent, Intent)>::empty());
    }
    while i < count
        invariant
            0 <= i <= count <= replay.intent_stream@.len(),
            sim.wf(),
            sim@.rules == rs,
            sim@ == spec_run(spec_new_sim(rs, replay.rng_seed), rs, replay.intent_stream@.take(i as int)),
        decreases count - i,
    {
        let (a, b) = replay.intent_stream[i];
        sim.tick([a, b]);
        proof {
            assert(replay.intent_stream@.take(i + 1).drop_last() =~= replay.intent_stream@.take(i as int));
        }
        i = i + 1;
    }
    sim
}

/// Re-run the whole bout under `ruleset` from the recorded seed and intent
/// stream, and compare the hash chain with the recorded one. A recorded
/// replay that does not verify under its own ruleset is an engine bug.
pub fn verify(replay: &Replay, ruleset: Ruleset) -> (r: VerifyResult)
    requires
        ruleset.wf(),
    ensures
        r == spec_verify(*replay, ruleset),
{
    let sim = replay_to(replay, ruleset, replay.intent_stream.len());
    proof {
        assert(replay.intent_stream@.take(replay.intent_stream@.len() as int) =~= replay.intent_stream@);
    }
    let computed = sim.chain_hash();
    VerifyResult {
        ok: computed == replay.final_state_hash_chain,
        expected_chain_hash: replay.final_state_hash_chain,
        computed_chain_hash: computed,
        ticks_run: sim.global_tick(),
    }
}

/// A replay recorded under `rs` verifies under `rs`: re-running its intent
/// stream from its seed reproduces its recorded hash chain.
pub proof fn law_recorded_replay_verifies(replay: Replay, rs: Ruleset)
    requires
        replay.final_state_hash_chain == spec_replayed(rs, replay.rng_seed, replay.intent_stream@).chain_hash,
    ensures
        spec_verify(replay, rs).ok,
        spec_verify(replay, rs).computed_chain_hash == replay.final_state_hash_chain,
{
}

/// Determinism: two replays that verify under the same ruleset, from the
/// same seed and with the same intent stream, record the same hash chain
/// and the same number of ticks.
pub proof fn law_verified_replays_agree(a: Replay, b: Replay, rs: Ruleset)
    requires
        spec_verify(a, rs).ok,
        spec_verify(b, rs).ok,
        a.rng_seed == b.rng_seed,
        a.intent_stream@ == b.intent_stream@,
    ensures
        a.final_state_hash_chain == b.final_state_hash_chain,
        spec_verify(a, rs).ticks_run == spec_verify(b, rs).ticks_run,
{
}

} // verus!
