//! The match: rounds, phases, the tick pipeline, passivity, round and match
//! endings, delayed observations, and the per-tick state hash chain.
use crate::combat::{combat_ready, kept_ready, lemma_resolve_frame, lemma_valid_contacts_fit, resolve, regen_guard, spec_regen_one, spec_resolve, HitLog};
use crate::fighter::{attack_ok, same_tallies, spec_enter, spec_new_fighter, spec_view, Fighter};
use crate::fixed::{abs_raw, div_raw, sub_raw, add_raw, Fixed, Vec2};
use crate::bounds::{fought, lemma_inv_basics, lemma_active_step, lemma_freeze_step, lemma_hitstop_step, lemma_intermission_step};
use crate::hash::{chain, fnv_hash, le_i32, le_u32, put_i32, put_u32, put_u8, spec_chain, Fnv1a, FNV_OFFSET};
use crate::movement::{integrate, lemma_integrate_frame, spec_integrate};
use crate::rng::{spec_bounded, spec_seeded, Pcg32};
use crate::ruleset::{Ruleset, PHASE_TICKS_MAX, VALUE_MAX};
use crate::state_machine::{advance, apply_intent, lemma_advance_frame, lemma_apply_intent_frame, spec_advance, spec_apply_intent, spec_throw_is_active, throw_is_active};
use crate::types::{spec_state_index, AttackKind, Facing, FighterState, FighterView, Intent, Observation};
use std::collections::VecDeque;
use vstd::prelude::*;

verus! {

/// Where the match is in its round cycle.
#[derive(Debug, Clone, Copy, PartialEq, Eq, Structural)]
pub enum Phase {
    Freeze { ticks_left: u32 },
    Fighting,
    Intermission { ticks_left: u32 },
    MatchOver,
}

/// How a round ended.
#[derive(Debug, Clone, Copy, PartialEq, Eq, Structural)]
pub enum RoundOutcome {
    Ko { winner: u8 },
    /// `winner` is `None` on an exact draw.
    Timeout { winner: Option<u8> },
    DoubleKo,
}

/// How a match ended.
#[derive(Debug, Clone, Copy, PartialEq, Eq, Structural)]
pub enum MatchEndReason {
    Ko,
    Timeout,
    SuddenDeath,
}

/// The result of a finished match.
#[derive(Debug, Clone, Copy, PartialEq, Eq, Structural)]
pub struct MatchResult {
    pub winner: Option<u8>,
    pub reason: MatchEndReason,
}

/// A passivity warning issued this tick.
#[derive(Debug, Clone, Copy, PartialEq, Eq, Structural)]
pub struct WarnLog {
    pub fighter_idx: usize,
    pub second_warning: bool,
}

/// Everything one tick reports.
#[derive(Debug)]
pub struct TickReport {
    pub hits: Vec<HitLog>,
    pub warnings: Vec<WarnLog>,
    pub round_ended: Option<RoundOutcome>,
    pub match_ended: Option<MatchResult>,
    pub state_hash: u64,
    pub chain_hash: u64,
}

/// The mathematical content of a `TickReport`.
pub struct ReportModel {
    pub hits: Seq<HitLog>,
    pub warnings: Seq<WarnLog>,
    pub round_ended: Option<RoundOutcome>,
    pub match_ended: Option<MatchResult>,
    pub state_hash: u64,
    pub chain_hash: u64,
}

impl View for TickReport {
    type V = ReportModel;

    open spec fn view(&self) -> ReportModel {
        ReportModel {
            hits: self.hits@,
            warnings: self.warnings@,
            round_ended: self.round_ended,
            match_ended: self.match_ended,
            state_hash: self.state_hash,
            chain_hash: self.chain_hash,
        }
    }
}

/// What agents were shown at one tick.
#[derive(Debug, Clone, Copy, PartialEq, Eq, Structural)]
pub struct ObsFrame {
    pub tick: u32,
    pub round: u8,
    pub ticks_remaining: u32,
    pub view0: FighterView,
    pub view1: FighterView,
}

/// The mathematical content of a `Sim` (its ruleset aside).
pub struct SimModel {
    pub rules: Ruleset,
    pub rng: (u64, u64),
    pub f0: Fighter,
    pub f1: Fighter,
    pub phase: Phase,
    pub round: u8,
    pub wins0: u8,
    pub wins1: u8,
    pub round_tick: u32,
    pub global_tick: u32,
    pub sudden_death: bool,
    pub chain_hash: u64,
    pub obs: Seq<ObsFrame>,
    /// The starting separation drawn for this match.
    pub start_separation: Fixed,
    pub passive_ticks: u32,
    pub passive_prev_distance: Fixed,
    pub passive_tracked_fighter: Option<usize>,
}

/// The simulation: one match between two fighters under one ruleset.
pub struct Sim {
    pub ruleset: Ruleset,
    rng: Pcg32,
    f0: Fighter,
    f1: Fighter,
    phase: Phase,
    round: u8,
    round_wins: [u8; 2],
    round_tick: u32,
    global_tick: u32,
    sudden_death: bool,
    chain_hash: u64,
    obs_buffer: VecDeque<ObsFrame>,
    start_separation: Fixed,
    passive_ticks: u32,
    passive_prev_distance: Fixed,
    passive_tracked_fighter: Option<usize>,
}

impl View for Sim {
    type V = SimModel;

    closed spec fn view(&self) -> SimModel {
        SimModel {
            rules: self.ruleset,
            rng: self.rng@,
            f0: self.f0,
            f1: self.f1,
            phase: self.phase,
            round: self.round,
            wins0: self.round_wins[0],
            wins1: self.round_wins[1],
            round_tick: self.round_tick,
            global_tick: self.global_tick,
            sudden_death: self.sudden_death,
            chain_hash: self.chain_hash,
            obs: self.obs_buffer@,
            start_separation: self.start_separation,
            passive_ticks: self.passive_ticks,
            passive_prev_distance: self.passive_prev_distance,
            passive_tracked_fighter: self.passive_tracked_fighter,
        }
    }
}


/// The round clock of the current round (sudden death has its own).
pub open spec fn spec_round_limit(m: SimModel, rs: Ruleset) -> u32 {
    if m.sudden_death {
        rs.sudden_death_ticks
    } else {
        rs.round_ticks
    }
}

/// Ticks left on the round clock (never below zero).
pub open spec fn spec_ticks_remaining(m: SimModel, rs: Ruleset) -> u32 {
    let l = spec_round_limit(m, rs);
    if l >= m.round_tick {
        (l - m.round_tick) as u32
    } else {
        0
    }
}

/// Horizontal distance between the fighters.
pub open spec fn spec_distance(m: SimModel) -> Fixed {
    Fixed(abs_raw(sub_raw(m.f0.position.x.0, m.f1.position.x.0)))
}

/// The bytes the state hash covers for one fighter.
pub open spec fn fighter_bytes(f: Fighter) -> Seq<u8> {
    le_i32(f.position.x.0) + le_i32(f.position.y.0) + le_i32(f.velocity.x.0) + le_i32(f.velocity.y.0)
        + seq![if f.facing == Facing::Right { 1u8 } else { 0u8 }] + le_i32(f.vitality) + le_i32(f.surge)
        + le_i32(f.guard) + seq![spec_state_index(f.state)] + le_i32(f.state_tick as i32) + le_i32(
        f.combo_count as i32,
    ) + le_i32(f.hitstop as i32) + le_i32(f.warnings_this_round as i32) + le_i32(
        f.total_hits_landed as i32,
    ) + le_i32(f.total_damage_dealt)
}

/// The bytes the state hash covers for the phase.
pub open spec fn phase_bytes(p: Phase) -> Seq<u8> {
    match p {
        Phase::Freeze { ticks_left } => seq![0u8] + le_u32(ticks_left),
        Phase::Fighting => seq![1u8],
        Phase::Intermission { ticks_left } => seq![2u8] + le_u32(ticks_left),
        Phase::MatchOver => seq![3u8],
    }
}

/// Everything the per-tick state hash covers, in order.
pub open spec fn state_bytes(m: SimModel) -> Seq<u8> {
    le_u32(m.global_tick) + le_u32(m.round_tick) + le_i32(m.round as i32) + le_i32(m.wins0 as i32)
        + le_i32(m.wins1 as i32) + le_i32(if m.sudden_death { 1i32 } else { 0i32 }) + phase_bytes(
        m.phase,
    ) + fighter_bytes(m.f0) + fighter_bytes(m.f1)
}

/// The hash of the current state.
#[verifier::opaque]
pub open spec fn spec_state_hash(m: SimModel) -> u64 {
    fnv_hash(state_bytes(m))
}

/// The state hash does not cover the observation window.
pub proof fn lemma_state_hash_skips_obs(m: SimModel, obs: Seq<ObsFrame>)
    ensures
        spec_state_hash(SimModel { obs, ..m }) == spec_state_hash(m),
{
    reveal(spec_state_hash);
    assert(state_bytes(SimModel { obs, ..m }) == state_bytes(m));
}

/// Record an observation frame (keeping only the last `observation_delay
/// + 1`) and chain the state hash. Returns the new model and the state hash.
pub open spec fn spec_push_hash(m: SimModel, rs: Ruleset) -> (SimModel, u64) {
    let frame = ObsFrame {
        tick: m.global_tick,
        round: m.round,
        ticks_remaining: spec_ticks_remaining(m, rs),
        view0: spec_view(m.f0),
        view1: spec_view(m.f1),
    };
    let o = m.obs.push(frame);
    let cap = rs.observation_delay + 1;
    let obs = if o.len() > cap {
        o.skip(o.len() - cap)
    } else {
        o
    };
    let sh = spec_state_hash(m);
    (SimModel { obs, chain_hash: spec_chain(m.chain_hash, sh), ..m }, sh)
}

/// A report with nothing but hashes.
pub open spec fn spec_quiet_report(state_hash: u64, chain_hash: u64) -> ReportModel {
    ReportModel {
        hits: Seq::empty(),
        warnings: Seq::empty(),
        round_ended: None,
        match_ended: None,
        state_hash,
        chain_hash,
    }
}

/// Both fighters at their starting marks for a new round.
pub open spec fn spec_start_fighters(rs: Ruleset, separation: Fixed, vitality: i32) -> (Fighter, Fighter) {
    let half_sep = div_raw(separation.0, 2i32 << 16u32);
    let center = div_raw(rs.arena_width.0, 2i32 << 16u32);
    (
        spec_new_fighter(
            Vec2 { x: Fixed(sub_raw(center, half_sep)), y: Fixed(0) },
            Facing::Right,
            vitality,
            rs.guard_max,
        ),
        spec_new_fighter(
            Vec2 { x: Fixed(add_raw(center, half_sep)), y: Fixed(0) },
            Facing::Left,
            vitality,
            rs.guard_max,
        ),
    )
}

/// The starting separation of a match: the ruleset's, moved by an offset
/// drawn uniformly from `[-start_separation_jitter, start_separation_jitter]`
/// whole units with the match's generator (no draw when the jitter is not
/// positive). Returns the separation and the generator after the draw.
pub open spec fn spec_draw_separation(rs: Ruleset, g: (u64, u64)) -> (Fixed, (u64, u64)) {
    let j = rs.start_separation_jitter;
    if j <= 0 {
        (rs.start_separation, g)
    } else {
        let (r, g2) = spec_bounded(g, (2 * j + 1) as u32);
        let offset = (r - j) as i32;
        (Fixed(add_raw(rs.start_separation.0, offset << 16u32)), g2)
    }
}

/// The model after resetting for the next round.
pub open spec fn spec_begin_next_round(m: SimModel, rs: Ruleset) -> SimModel {
    let vit = if m.sudden_death {
        rs.sudden_death_vitality
    } else {
        rs.vitality
    };
    let (f0, f1) = spec_start_fighters(rs, m.start_separation, vit);
    SimModel {
        f0,
        f1,
        round_tick: 0,
        passive_ticks: 0,
        passive_tracked_fighter: None,
        phase: Phase::Freeze { ticks_left: rs.opening_freeze_ticks },
        ..m
    }
}

/// A freeze tick: hash, count down, start fighting at zero.
pub open spec fn spec_tick_freeze(m: SimModel, rs: Ruleset, left: u32) -> (SimModel, ReportModel) {
    let (m1, sh) = spec_push_hash(m, rs);
    let l = if left > 0 { (left - 1) as u32 } else { 0u32 };
    let m2 = if l == 0 {
        SimModel {
            phase: Phase::Fighting,
            f0: spec_enter(m1.f0, FighterState::Idle),
            f1: spec_enter(m1.f1, FighterState::Idle),
            ..m1
        }
    } else {
        SimModel { phase: Phase::Freeze { ticks_left: l }, ..m1 }
    };
    (SimModel { global_tick: (m2.global_tick + 1) as u32, ..m2 }, spec_quiet_report(sh, m1.chain_hash))
}

/// An intermission tick: hash, count down, start the next round at zero.
pub open spec fn spec_tick_intermission(m: SimModel, rs: Ruleset, left: u32) -> (SimModel, ReportModel) {
    let (m1, sh) = spec_push_hash(m, rs);
    let l = if left > 0 { (left - 1) as u32 } else { 0u32 };
    let m2 = if l == 0 {
        spec_begin_next_round(m1, rs)
    } else {
        SimModel { phase: Phase::Intermission { ticks_left: l }, ..m1 }
    };
    (SimModel { global_tick: (m2.global_tick + 1) as u32, ..m2 }, spec_quiet_report(sh, m1.chain_hash))
}

/// A hitstop tick: both fighters frozen, hitstop counters run down.
pub open spec fn spec_tick_hitstop(m: SimModel, rs: Ruleset) -> (SimModel, ReportModel) {
    let f0 = if m.f0.hitstop > 0 { Fighter { hitstop: (m.f0.hitstop - 1) as u16, ..m.f0 } } else { m.f0 };
    let f1 = if m.f1.hitstop > 0 { Fighter { hitstop: (m.f1.hitstop - 1) as u16, ..m.f1 } } else { m.f1 };
    let m1 = SimModel {
        f0,
        f1,
        round_tick: (m.round_tick + 1) as u32,
        global_tick: (m.global_tick + 1) as u32,
        ..m
    };
    let (m2, sh) = spec_push_hash(m1, rs);
    (m2, spec_quiet_report(sh, m2.chain_hash))
}

/// Record the tick of a throw attempt that starts this tick.
pub open spec fn spec_note_throw(f: Fighter, intent: Intent, tick: u32) -> Fighter {
    if intent == Intent::Throw && f.state == FighterState::ThrowAttempt && f.state_tick == 0 {
        Fighter { last_throw_attempt_tick: Some(tick), ..f }
    } else {
        f
    }
}

/// Reset the combo counter when the state machine says so.
pub open spec fn spec_combo_reset(r: (Fighter, bool)) -> Fighter {
    if r.1 {
        Fighter { combo_count: 0, ..r.0 }
    } else {
        r.0
    }
}

/// Both fighters through intents, state machines, movement, combat and
/// guard regeneration; with the contact log.
#[verifier::opaque]
pub open spec fn spec_fight_fighters(
    f0: Fighter,
    f1: Fighter,
    rs: Ruleset,
    i0: Intent,
    i1: Intent,
    tick: u32,
    dist: Fixed,
) -> (Fighter, Fighter, Seq<HitLog>) {
    let a = spec_note_throw(spec_apply_intent(f0, i0, rs, dist), i0, tick);
    let b = spec_note_throw(spec_apply_intent(f1, i1, rs, dist), i1, tick);
    let a1 = spec_combo_reset(spec_advance(a, rs));
    let b1 = spec_combo_reset(spec_advance(b, rs));
    let (a2, b2) = spec_integrate(a1, b1, rs);
    let (a3, b3, hits) = spec_resolve(a2, b2, rs);
    (spec_regen_one(a3, rs), spec_regen_one(b3, rs), hits)
}

/// The fighter with index `i`.
pub open spec fn spec_fighter(m: SimModel, i: usize) -> Fighter {
    if i == 0 {
        m.f0
    } else {
        m.f1
    }
}

/// `m` with fighter `i` replaced.
pub open spec fn spec_with_fighter(m: SimModel, i: usize, f: Fighter) -> SimModel {
    if i == 0 {
        SimModel { f0: f, ..m }
    } else {
        SimModel { f1: f, ..m }
    }
}

/// `m` with passivity tracking following `leader`: switching to a new
/// leader restarts the count from the current distance.
pub open spec fn spec_follow(m: SimModel, leader: usize, dist: Fixed) -> SimModel {
    if m.passive_tracked_fighter != Some(leader) {
        SimModel { passive_tracked_fighter: Some(leader), passive_ticks: 0, passive_prev_distance: dist, ..m }
    } else {
        m
    }
}

/// Whether `leader` landed an unblocked contact in `hits`.
pub open spec fn spec_landed(hits: Seq<HitLog>, leader: usize) -> bool {
    exists|k: int| 0 <= k < hits.len() && #[trigger] hits[k].attacker_idx == leader && !hits[k].blocked
}

/// The leader after a passivity warning: one more warning and, from the
/// second on, a penalty of `pct` percent of its vitality (rounded down,
/// never below zero).
pub open spec fn spec_warned(f: Fighter, pct: i32) -> Fighter {
    let w = (f.warnings_this_round + 1) as u8;
    let penalty = f.vitality * pct / 100;
    let vit = if w >= 2 {
        if f.vitality - penalty > 0 { (f.vitality - penalty) as i32 } else { 0i32 }
    } else {
        f.vitality
    };
    Fighter { warnings_this_round: w, vitality: vit, ..f }
}

/// The passivity count for a tracked leader: closing in since the previous
/// tick or landing a hit resets it; otherwise it grows, and on reaching
/// `passivity_warning_ticks` the leader is warned and the count restarts.
/// Either way this tick's distance is remembered for the next comparison.
pub open spec fn spec_passive_count(m: SimModel, rs: Ruleset, leader: usize, dist: Fixed, landed: bool) -> (SimModel, Seq<WarnLog>) {
    if dist.0 < m.passive_prev_distance.0 || landed {
        (SimModel { passive_prev_distance: dist, passive_ticks: 0, ..m }, Seq::empty())
    } else {
        let t = m.passive_ticks + 1;
        if t >= rs.passivity_warning_ticks {
            let f2 = spec_warned(spec_fighter(m, leader), rs.passivity_penalty_fraction_pct);
            (
                spec_with_fighter(SimModel { passive_ticks: 0, passive_prev_distance: dist, ..m }, leader, f2),
                seq![WarnLog { fighter_idx: leader, second_warning: f2.warnings_this_round >= 2 }],
            )
        } else {
            (SimModel { passive_ticks: t as u32, passive_prev_distance: dist, ..m }, Seq::empty())
        }
    }
}

/// Passivity: the fighter ahead on vitality must keep closing in or
/// landing hits; after `passivity_warning_ticks` ticks without either it
/// is warned, and from the second warning on loses a fraction of its
/// vitality.
#[verifier::opaque]
pub open spec fn spec_passivity(m: SimModel, rs: Ruleset, hits: Seq<HitLog>) -> (SimModel, Seq<WarnLog>) {
    let v0 = m.f0.vitality;
    let v1 = m.f1.vitality;
    if v0 == v1 {
        (SimModel { passive_ticks: 0, passive_tracked_fighter: None, ..m }, Seq::empty())
    } else {
        let leader: usize = if v0 > v1 { 0 } else { 1 };
        let dist = spec_distance(m);
        spec_passive_count(spec_follow(m, leader, dist), rs, leader, dist, spec_landed(hits, leader))
    }
}

/// The round's outcome, if it ended: a knockout (double or single), or the
/// clock running out, decided on vitality percentage.
#[verifier::opaque]
pub open spec fn spec_check_round_end(m: SimModel, rs: Ruleset) -> Option<RoundOutcome> {
    let v0 = m.f0.vitality;
    let v1 = m.f1.vitality;
    if v0 <= 0 && v1 <= 0 {
        Some(RoundOutcome::DoubleKo)
    } else if v0 <= 0 {
        Some(RoundOutcome::Ko { winner: 1 })
    } else if v1 <= 0 {
        Some(RoundOutcome::Ko { winner: 0 })
    } else if spec_ticks_remaining(m, rs) == 0 {
        let max_v = if m.sudden_death { rs.sudden_death_vitality } else { rs.vitality };
        let p0 = v0 * 10000 / (max_v as int);
        let p1 = v1 * 10000 / (max_v as int);
        let winner = if p0 > p1 {
            Some(0u8)
        } else if p1 > p0 {
            Some(1u8)
        } else {
            None
        };
        Some(RoundOutcome::Timeout { winner })
    } else {
        None
    }
}

/// Sudden-death tiebreak: more hits landed wins.
pub open spec fn spec_tiebreak(m: SimModel) -> Option<u8> {
    let h0 = m.f0.total_hits_landed;
    let h1 = m.f1.total_hits_landed;
    if h0 > h1 {
        Some(0u8)
    } else if h1 > h0 {
        Some(1u8)
    } else {
        None
    }
}

/// Score a finished round: in sudden death the match ends; otherwise the
/// winner scores, and the match ends when someone reaches `rounds_to_win`,
/// goes to sudden death after `max_rounds`, or moves to the next round.
#[verifier::opaque]
pub open spec fn spec_apply_round_outcome(m: SimModel, rs: Ruleset, o: RoundOutcome) -> (SimModel, Option<MatchResult>) {
    if m.sudden_death {
        let winner = match o {
            RoundOutcome::Ko { winner } => Some(winner),
            RoundOutcome::DoubleKo => None,
            RoundOutcome::Timeout { winner } => if winner.is_some() { winner } else { spec_tiebreak(m) },
        };
        (
            SimModel { phase: Phase::MatchOver, ..m },
            Some(MatchResult { winner, reason: MatchEndReason::SuddenDeath }),
        )
    } else {
        let m1 = match o {
            RoundOutcome::Ko { winner } => if winner == 0 {
                SimModel { wins0: (m.wins0 + 1) as u8, ..m }
            } else {
                SimModel { wins1: (m.wins1 + 1) as u8, ..m }
            },
            RoundOutcome::Timeout { winner: Some(w) } => if w == 0 {
                SimModel { wins0: (m.wins0 + 1) as u8, ..m }
            } else {
                SimModel { wins1: (m.wins1 + 1) as u8, ..m }
            },
            _ => m,
        };
        let reason = if o is Ko { MatchEndReason::Ko } else { MatchEndReason::Timeout };
        if m1.wins0 >= rs.rounds_to_win {
            (SimModel { phase: Phase::MatchOver, ..m1 }, Some(MatchResult { winner: Some(0), reason }))
        } else if m1.wins1 >= rs.rounds_to_win {
            (SimModel { phase: Phase::MatchOver, ..m1 }, Some(MatchResult { winner: Some(1), reason }))
        } else if m1.round >= rs.max_rounds {
            (
                SimModel {
                    sudden_death: true,
                    round: (m1.round + 1) as u8,
                    wins0: 0,
                    wins1: 0,
                    phase: Phase::Intermission { ticks_left: rs.intermission_ticks },
                    ..m1
                },
                None,
            )
        } else {
            (
                SimModel {
                    round: (m1.round + 1) as u8,
                    phase: Phase::Intermission { ticks_left: rs.intermission_ticks },
                    ..m1
                },
                None,
            )
        }
    }
}

/// The rest of a fighting tick once the fighters have moved and fought:
/// passivity, the round clock, round and match endings, then the tick
/// counter, observation window and hash chain.
pub open spec fn spec_finish_active(m: SimModel, rs: Ruleset, hits: Seq<HitLog>) -> (SimModel, ReportModel) {
    let (m2, warnings) = spec_passivity(m, rs, hits);
    let m3 = SimModel { round_tick: (m2.round_tick + 1) as u32, ..m2 };
    let outcome = spec_check_round_end(m3, rs);
    let (m4, match_ended) = match outcome {
        Some(o) => spec_apply_round_outcome(m3, rs, o),
        None => (m3, None),
    };
    let m5 = SimModel { global_tick: (m4.global_tick + 1) as u32, ..m4 };
    let (m6, sh) = spec_push_hash(m5, rs);
    (
        m6,
        ReportModel {
            hits,
            warnings,
            round_ended: outcome,
            match_ended,
            state_hash: sh,
            chain_hash: m6.chain_hash,
        },
    )
}

/// A fighting tick past hitstop: phases 2-8.
pub open spec fn spec_tick_active(m: SimModel, rs: Ruleset, i0: Intent, i1: Intent) -> (SimModel, ReportModel) {
    let (a, b, hits) = spec_fight_fighters(m.f0, m.f1, rs, i0, i1, m.global_tick, spec_distance(m));
    spec_finish_active(SimModel { f0: a, f1: b, ..m }, rs, hits)
}

/// One tick of the match, whatever its phase.
pub open spec fn spec_tick(m: SimModel, rs: Ruleset, i0: Intent, i1: Intent) -> (SimModel, ReportModel) {
    match m.phase {
        Phase::MatchOver => (m, spec_quiet_report(spec_state_hash(m), m.chain_hash)),
        Phase::Freeze { ticks_left } => spec_tick_freeze(m, rs, ticks_left),
        Phase::Intermission { ticks_left } => spec_tick_intermission(m, rs, ticks_left),
        Phase::Fighting => if m.f0.hitstop > 0 || m.f1.hitstop > 0 {
            spec_tick_hitstop(m, rs)
        } else {
            spec_tick_active(m, rs, i0, i1)
        },
    }
}


/// Ticks one round cycle can take at most: opening freeze, the round's
/// clock with a trailing hitstop, and intermission.
pub open spec fn cycle_bound(rs: Ruleset) -> int {
    rs.opening_freeze_ticks + rs.intermission_ticks + rs.max_round_length() + 2
}

/// Rounds played before sudden death (at least one).
pub open spec fn regular_rounds(rs: Ruleset) -> int {
    if rs.max_rounds >= 1 {
        rs.max_rounds as int
    } else {
        1
    }
}

/// A fighter fit to fight on: meters in range, tallies with headroom,
/// hitstop bounded, an attack's kind recorded, and still standing.
pub open spec fn fit_to_fight(f: Fighter, rs: Ruleset, round_tick: u32) -> bool {
    &&& f.wf()
    &&& combat_ready(f, rs)
    &&& f.vitality >= 1
    &&& f.total_hits_landed <= round_tick
}

/// Both fighters fit, the damage each dealt bounded by what the other has
/// lost, passivity warnings paced by the round clock, and fewer round wins
/// than rounds.
pub open spec fn round_ok(m: SimModel, rs: Ruleset) -> bool {
    &&& fit_to_fight(m.f0, rs, m.round_tick)
    &&& fit_to_fight(m.f1, rs, m.round_tick)
    &&& m.f0.total_damage_dealt + m.f1.vitality <= VALUE_MAX
    &&& m.f1.total_damage_dealt + m.f0.vitality <= VALUE_MAX
    &&& (m.f0.warnings_this_round + m.f1.warnings_this_round) * rs.passivity_warning_ticks
        + m.passive_ticks <= m.round_tick
    &&& m.wins0 + m.wins1 + 1 <= m.round
}

/// What every reachable simulation state satisfies: a well-formed ruleset,
/// a non-empty observation window of at most `observation_delay + 1`
/// frames, a round number within the regular rounds (plus one in sudden
/// death), and per phase the bounds that keep every counter in range until
/// the match ends.
#[verifier::opaque]
pub open spec fn sim_inv(m: SimModel, rs: Ruleset) -> bool {
    let p = cycle_bound(rs);
    &&& rs.wf()
    &&& 1 <= m.obs.len() <= rs.observation_delay + 1
    &&& 1 <= m.round <= regular_rounds(rs) + (if m.sudden_death { 1int } else { 0int })
    &&& match m.phase {
        Phase::Freeze { ticks_left } => {
            &&& ticks_left <= rs.opening_freeze_ticks
            &&& m.round_tick == 0
            &&& m.f0.hitstop == 0
            &&& m.f1.hitstop == 0
            &&& round_ok(m, rs)
            &&& m.global_tick + ticks_left <= (m.round - 1) * p + rs.opening_freeze_ticks
        },
        Phase::Fighting => {
            &&& m.round_tick + m.f0.hitstop <= spec_round_limit(m, rs) + rs.max_hitstop()
            &&& m.round_tick + m.f1.hitstop <= spec_round_limit(m, rs) + rs.max_hitstop()
            &&& round_ok(m, rs)
            &&& m.global_tick <= (m.round - 1) * p + rs.opening_freeze_ticks + 1 + m.round_tick
        },
        Phase::Intermission { ticks_left } => {
            &&& ticks_left <= rs.intermission_ticks
            &&& 2 <= m.round
            &&& m.wins0 + m.wins1 + 1 <= m.round
            &&& m.global_tick + ticks_left <= (m.round - 2) * p + rs.opening_freeze_ticks + 1
                + rs.max_round_length() + rs.intermission_ticks
        },
        Phase::MatchOver => m.global_tick <= m.round * p,
    }
}

/// The state a new match starts in.
pub open spec fn spec_new_sim(rs: Ruleset, seed: u64) -> SimModel {
    let (sep, g) = spec_draw_separation(rs, spec_seeded(seed, 1));
    let (f0, f1) = spec_start_fighters(rs, sep, rs.vitality);
    SimModel {
        rules: rs,
        rng: g,
        f0,
        f1,
        phase: Phase::Freeze { ticks_left: rs.opening_freeze_ticks },
        round: 1,
        wins0: 0,
        wins1: 0,
        round_tick: 0,
        global_tick: 0,
        sudden_death: false,
        chain_hash: 0,
        obs: seq![
            ObsFrame {
                tick: 0,
                round: 1,
                ticks_remaining: rs.round_ticks,
                view0: spec_view(f0),
                view1: spec_view(f1),
            },
        ],
        start_separation: sep,
        passive_ticks: 0,
        passive_prev_distance: Fixed(0),
        passive_tracked_fighter: None,
    }
}

/// Distance from `x` to the nearer arena wall.
pub open spec fn spec_corner_distance(rs: Ruleset, x: Fixed) -> Fixed {
    let other = sub_raw(rs.arena_width.0, x.0);
    if other < x.0 {
        Fixed(other)
    } else {
        x
    }
}

/// What fighter `idx` is shown: the oldest frame in the observation window,
/// from its own side (any index but 0 sees fighter 1's side).
pub open spec fn spec_observation(m: SimModel, rs: Ruleset, idx: usize) -> Observation {
    let frame = m.obs[0];
    let me = if idx == 0 { frame.view0 } else { frame.view1 };
    let opp = if idx == 0 { frame.view1 } else { frame.view0 };
    Observation {
        tick: frame.tick,
        round: frame.round,
        ticks_remaining: frame.ticks_remaining,
        me,
        opponent: opp,
        distance: Fixed(abs_raw(sub_raw(me.position.x.0, opp.position.x.0))),
        my_corner_distance: spec_corner_distance(rs, me.position.x),
        opponent_corner_distance: spec_corner_distance(rs, opp.position.x),
    }
}

} // verus!
verus! {

/// Draw a match's starting separation from its generator (see
/// `spec_draw_separation`).
fn draw_separation(rs: &Ruleset, rng: &mut Pcg32) -> (r: Fixed)
    ensures
        (r, final(rng)@) == spec_draw_separation(*rs, old(rng)@),
{
    let j = rs.start_separation_jitter;
    if j <= 0 {
        return rs.start_separation;
    }
    let span: u32 = (2 * (j as u64) + 1) as u32;
    let r = rng.next_bounded(span);
    let offset: i32 = (r as i64 - j as i64) as i32;
    rs.start_separation.add(Fixed::from_int(offset))
}

impl Sim {
    /// The state is reachable: see `sim_inv`.
    pub open spec fn wf(&self) -> bool {
        sim_inv(self@, self@.rules)
    }

    /// A match under `ruleset`, seeded with `seed`, in its opening freeze.
    pub fn new(ruleset: Ruleset, seed: u64) -> (r: Sim)
        requires
            ruleset.wf(),
        ensures
            r.wf(),
            r@ == spec_new_sim(ruleset, seed),
    {
        let mut rng = Pcg32::new(seed, 1);
        let start_separation = draw_separation(&ruleset, &mut rng);
        let half_sep = start_separation.div(Fixed::from_int(2));
        let center = ruleset.arena_width.div(Fixed::from_int(2));
        let f0 = Fighter::new(
            Vec2::new(center.sub(half_sep), Fixed::zero()),
            Facing::Right,
            ruleset.vitality,
            ruleset.guard_max,
        );
        let f1 = Fighter::new(
            Vec2::new(center.add(half_sep), Fixed::zero()),
            Facing::Left,
            ruleset.vitality,
            ruleset.guard_max,
        );
        let opening_freeze = ruleset.opening_freeze_ticks;
        let round_ticks = ruleset.round_ticks;
        // Seed the observation window with the pre-match state so an agent
        // polled before the first tick sees a valid (if stale) observation.
        let mut obs_buffer: VecDeque<ObsFrame> = VecDeque::new();
        obs_buffer.push_back(
            ObsFrame { tick: 0, round: 1, ticks_remaining: round_ticks, view0: f0.view(), view1: f1.view() },
        );
        let sim = Sim {
            rng,
            f0,
            f1,
            phase: Phase::Freeze { ticks_left: opening_freeze },
            round: 1,
            round_wins: [0, 0],
            round_tick: 0,
            global_tick: 0,
            sudden_death: false,
            chain_hash: 0,
            obs_buffer,
            start_separation,
            passive_ticks: 0,
            passive_prev_distance: Fixed::zero(),
            passive_tracked_fighter: None,
            ruleset,
        };
        assert(sim@.obs =~= spec_new_sim(sim@.rules, seed).obs);
        proof {
            reveal(sim_inv);
            let m = sim@;
            assert(fit_to_fight(m.f0, m.rules, 0));
            assert(fit_to_fight(m.f1, m.rules, 0));
            let w = m.f0.warnings_this_round + m.f1.warnings_this_round;
            let wt = m.rules.passivity_warning_ticks;
            assert(w * wt == 0) by (nonlinear_arith)
                requires
                    w == 0,
            ;
            let p = cycle_bound(m.rules);
            assert((m.round - 1) * p == 0) by (nonlinear_arith)
                requires
                    m.round == 1,
            ;
        }
        sim
    }

    /// The ruleset the match is played under.
    pub fn rules(&self) -> (r: &Ruleset)
        ensures
            *r == self@.rules,
    {
        &self.ruleset
    }

    /// Whether the match has ended.
    pub fn is_over(&self) -> (r: bool)
        ensures
            r == (self@.phase == Phase::MatchOver),
    {
        match self.phase {
            Phase::MatchOver => true,
            _ => false,
        }
    }

    /// The current round number (1-based).
    pub fn round(&self) -> (r: u8)
        ensures
            r == self@.round,
    {
        self.round
    }

    fn fighter(&self, idx: usize) -> (r: &Fighter)
        ensures
            *r == spec_fighter(self@, idx),
    {
        if idx == 0 {
            &self.f0
        } else {
            &self.f1
        }
    }

    /// What agents may see of fighter `idx` right now.
    pub fn fighter_view(&self, idx: usize) -> (r: FighterView)
        requires
            idx < 2,
        ensures
            r == spec_view(spec_fighter(self@, idx)),
    {
        self.fighter(idx).view()
    }

    /// The attack fighter `idx` is executing, if any.
    pub fn fighter_attack_kind(&self, idx: usize) -> (r: Option<AttackKind>)
        requires
            idx < 2,
        ensures
            r == spec_fighter(self@, idx).attack_kind,
    {
        self.fighter(idx).attack_kind
    }

    /// The attack fighter `idx` is executing, with whether it was started
    /// crouching and whether it was started in the air.
    pub fn fighter_attack_variant(&self, idx: usize) -> (r: Option<(AttackKind, bool, bool)>)
        requires
            idx < 2,
        ensures
            r == (match spec_fighter(self@, idx).attack_kind {
                Some(k) => Some((k, spec_fighter(self@, idx).attack_crouching, spec_fighter(self@, idx).attack_jumping)),
                None => None,
            }),
    {
        let f = self.fighter(idx);
        match f.attack_kind {
            Some(k) => Some((k, f.attack_crouching, f.attack_jumping)),
            None => None,
        }
    }

    /// Whether fighter `idx`'s throw is in its active frames.
    pub fn fighter_throw_active(&self, idx: usize) -> (r: bool)
        requires
            idx < 2,
        ensures
            r == spec_throw_is_active(spec_fighter(self@, idx), self@.rules),
    {
        throw_is_active(self.fighter(idx), &self.ruleset)
    }

    fn distance(&self) -> (r: Fixed)
        ensures
            r == spec_distance(self@),
    {
        self.f0.position.x.sub(self.f1.position.x).abs()
    }

    /// Observation for `idx`, read from `observation_delay` ticks in the past.
    pub fn observation(&self, idx: usize) -> (r: Observation)
        requires
            self.wf(),
        ensures
            r == spec_observation(self@, self@.rules, idx),
    {
        proof {
            lemma_inv_basics(self@);
        }
        let frame = self.obs_buffer[0];
        let (me, opp) = if idx == 0 {
            (frame.view0, frame.view1)
        } else {
            (frame.view1, frame.view0)
        };
        Observation {
            tick: frame.tick,
            round: frame.round,
            ticks_remaining: frame.ticks_remaining,
            me,
            opponent: opp,
            distance: me.position.x.sub(opp.position.x).abs(),
            my_corner_distance: me.position.x.min(self.ruleset.arena_width.sub(me.position.x)),
            opponent_corner_distance: opp.position.x.min(self.ruleset.arena_width.sub(opp.position.x)),
        }
    }

    /// Ticks left on the current round's clock.
    pub fn round_ticks_remaining(&self) -> (r: u32)
        ensures
            r == spec_ticks_remaining(self@, self@.rules),
    {
        let limit = if self.sudden_death {
            self.ruleset.sudden_death_ticks
        } else {
            self.ruleset.round_ticks
        };
        limit.saturating_sub(self.round_tick)
    }

    /// The hash chained over every tick so far.
    pub fn chain_hash(&self) -> (r: u64)
        ensures
            r == self@.chain_hash,
    {
        self.chain_hash
    }

    /// Ticks run so far, freezes and intermissions included.
    pub fn global_tick(&self) -> (r: u32)
        ensures
            r == self@.global_tick,
    {
        self.global_tick
    }

    /// Draws entropy from the simulation's own PRNG: uniform in
    /// `[0, bound)`, `0` when `bound` is `0`. Nothing else changes.
    pub fn roll(&mut self, bound: u32) -> (r: u32)
        ensures
            (r, final(self)@.rng) == spec_bounded(old(self)@.rng, bound),
            final(self)@ == (SimModel { rng: final(self)@.rng, ..old(self)@ }),
            bound > 0 ==> r < bound,
    {
        self.rng.next_bounded(bound)
    }
}


/// Feed the phase, tracking the bytes fed so far.
fn put_phase(h: &mut Fnv1a, p: Phase, Ghost(acc): Ghost<Seq<u8>>) -> (r: Ghost<Seq<u8>>)
    requires
        old(h)@ == fnv_hash(acc),
    ensures
        r@ == acc + phase_bytes(p),
        final(h)@ == fnv_hash(r@),
{
    let ghost mut a: Seq<u8> = acc;
    match p {
        Phase::Freeze { ticks_left } => {
            let g = put_u8(h, 0, Ghost(a));
            proof { a = g@; }
            let g = put_u32(h, ticks_left, Ghost(a));
            proof { a = g@; }
        },
        Phase::Fighting => {
            let g = put_u8(h, 1, Ghost(a));
            proof { a = g@; }
        },
        Phase::Intermission { ticks_left } => {
            let g = put_u8(h, 2, Ghost(a));
            proof { a = g@; }
            let g = put_u32(h, ticks_left, Ghost(a));
            proof { a = g@; }
        },
        Phase::MatchOver => {
            let g = put_u8(h, 3, Ghost(a));
            proof { a = g@; }
        },
    }
    assert(a =~= acc + phase_bytes(p));
    Ghost(a)
}

/// Feed one fighter's hashed fields, tracking the bytes fed so far.
#[verifier::rlimit(50)]
#[verifier::spinoff_prover]
fn put_fighter(h: &mut Fnv1a, f: &Fighter, Ghost(acc): Ghost<Seq<u8>>) -> (r: Ghost<Seq<u8>>)
    requires
        old(h)@ == fnv_hash(acc),
    ensures
        r@ == acc + fighter_bytes(*f),
        final(h)@ == fnv_hash(r@),
{
    let ghost mut a: Seq<u8> = acc;
    let g = put_i32(h, f.position.x.raw(), Ghost(a));
    proof { a = g@; }
    let g = put_i32(h, f.position.y.raw(), Ghost(a));
    proof { a = g@; }
    let g = put_i32(h, f.velocity.x.raw(), Ghost(a));
    proof { a = g@; }
    let g = put_i32(h, f.velocity.y.raw(), Ghost(a));
    proof { a = g@; }
    let g = put_u8(h, if f.facing.is_right() { 1 } else { 0 }, Ghost(a));
    proof { a = g@; }
    let g = put_i32(h, f.vitality, Ghost(a));
    proof { a = g@; }
    let g = put_i32(h, f.surge, Ghost(a));
    proof { a = g@; }
    let g = put_i32(h, f.guard, Ghost(a));
    proof { a = g@; }
    let g = put_u8(h, f.state.index(), Ghost(a));
    proof { a = g@; }
    let g = put_i32(h, f.state_tick as i32, Ghost(a));
    proof { a = g@; }
    let g = put_i32(h, f.combo_count as i32, Ghost(a));
    proof { a = g@; }
    let g = put_i32(h, f.hitstop as i32, Ghost(a));
    proof { a = g@; }
    let g = put_i32(h, f.warnings_this_round as i32, Ghost(a));
    proof { a = g@; }
    let g = put_i32(h, #[verifier::truncate] (f.total_hits_landed as i32), Ghost(a));
    proof { a = g@; }
    let g = put_i32(h, f.total_damage_dealt, Ghost(a));
    proof { a = g@; }
    assert(a =~= acc + fighter_bytes(*f));
    Ghost(a)
}

impl Sim {
    /// Hash of the whole simulation state (observation window and PRNG aside).
    fn compute_state_hash(&self) -> (r: u64)
        ensures
            r == spec_state_hash(self@),
    {
        let mut h = Fnv1a::new();
        let ghost mut a: Seq<u8> = Seq::empty();
        assert(fnv_hash(a) == FNV_OFFSET);
        let g = put_u32(&mut h, self.global_tick, Ghost(a));
        proof { a = g@; }
        let g = put_u32(&mut h, self.round_tick, Ghost(a));
        proof { a = g@; }
        let g = put_i32(&mut h, self.round as i32, Ghost(a));
        proof { a = g@; }
        let g = put_i32(&mut h, self.round_wins[0] as i32, Ghost(a));
        proof { a = g@; }
        let g = put_i32(&mut h, self.round_wins[1] as i32, Ghost(a));
        proof { a = g@; }
        let g = put_i32(&mut h, if self.sudden_death { 1 } else { 0 }, Ghost(a));
        proof { a = g@; }
        let g = put_phase(&mut h, self.phase, Ghost(a));
        proof { a = g@; }
        let g = put_fighter(&mut h, &self.f0, Ghost(a));
        proof { a = g@; }
        let g = put_fighter(&mut h, &self.f1, Ghost(a));
        proof { a = g@; }
        assert(a =~= state_bytes(self@));
        proof {
            reveal(spec_state_hash);
        }
        h.finish()
    }

    /// Record this tick's observation frame (keeping the last
    /// `observation_delay + 1`) and chain this tick's state hash.
    fn push_hash(&mut self) -> (sh: u64)
        requires
            old(self)@.rules.observation_delay < PHASE_TICKS_MAX,
        ensures
            (final(self)@, sh) == spec_push_hash(old(self)@, old(self)@.rules),
    {
        let ghost m0 = self@;
        let frame = ObsFrame {
            tick: self.global_tick,
            round: self.round,
            ticks_remaining: self.round_ticks_remaining(),
            view0: self.f0.view(),
            view1: self.f1.view(),
        };
        self.obs_buffer.push_back(frame);
        let ghost o = self@.obs;
        let ghost m1 = self@;
        let cap = self.ruleset.observation_delay as usize + 1;
        while self.obs_buffer.len() > cap
            invariant
                cap == m0.rules.observation_delay + 1,
                self@.obs.len() <= o.len(),
                self@.obs == o.skip(o.len() - self@.obs.len()),
                o.len() > cap ==> self@.obs.len() >= cap,
                o.len() <= cap ==> self@.obs.len() == o.len(),
                self@ == (SimModel { obs: self@.obs, ..m1 }),
            decreases self@.obs.len(),
        {
            self.obs_buffer.pop_front();
            proof {
                assert(self@.obs =~= o.skip(o.len() - self@.obs.len()));
            }
        }
        proof {
            if o.len() <= cap {
                assert(self@.obs =~= o);
            }
        }
        let state_hash = self.compute_state_hash();
        proof {
            lemma_state_hash_skips_obs(m0, self@.obs);
            assert(self@ == (SimModel { obs: self@.obs, ..m0 }));
        }
        self.chain_hash = chain(self.chain_hash, state_hash);
        state_hash
    }
}


/// Phases 2 and 3 for one fighter: act on the intent (stamping a throw
/// attempt that starts now), then advance the state machine, resetting the
/// combo count when it says so.
#[verifier::spinoff_prover]
fn prepare(f: &mut Fighter, intent: Intent, rs: &Ruleset, distance: Fixed, tick: u32)
    requires
        rs.throw.startup + rs.throw.active <= u16::MAX,
        attack_ok(*old(f)),
    ensures
        *final(f) == spec_combo_reset(
            spec_advance(spec_note_throw(spec_apply_intent(*old(f), intent, *rs, distance), intent, tick), *rs),
        ),
        same_tallies(*old(f), Fighter { guard: old(f).guard, ..*final(f) }),
        final(f).guard == old(f).guard || final(f).guard == rs.guard_crush_refill_to,
        attack_ok(*final(f)),
{
    let ghost f0 = *f;
    apply_intent(f, intent, rs, distance);
    proof {
        lemma_apply_intent_frame(f0, intent, *rs, distance);
    }
    if matches!(intent, Intent::Throw) && f.state == FighterState::ThrowAttempt && f.state_tick == 0 {
        f.last_throw_attempt_tick = Some(tick);
    }
    let ghost f1 = *f;
    assert(f1 == spec_note_throw(spec_apply_intent(f0, intent, *rs, distance), intent, tick));
    let ev = advance(f, rs);
    proof {
        lemma_advance_frame(f1, *rs);
    }
    if ev.combo_reset {
        f.combo_count = 0;
    }
}

impl Sim {
    /// Phases 2 to 6 of a fighting tick: intents (with throw attempts
    /// stamped), state machines (with combo resets), movement, combat and
    /// guard regeneration. Returns the contact log.
    #[verifier::spinoff_prover]
    fn fight(&mut self, intents: [Intent; 2]) -> (hits: Vec<HitLog>)
        requires
            old(self)@.rules.wf(),
            old(self)@.f0.wf(),
            old(self)@.f1.wf(),
            combat_ready(old(self)@.f0, old(self)@.rules),
            combat_ready(old(self)@.f1, old(self)@.rules),
        ensures
            ({
                let m = old(self)@;
                let r = spec_fight_fighters(
                    m.f0,
                    m.f1,
                    m.rules,
                    intents[0],
                    intents[1],
                    m.global_tick,
                    spec_distance(m),
                );
                &&& final(self)@ == (SimModel { f0: r.0, f1: r.1, ..m })
                &&& hits@ == r.2
            }),
            final(self)@.f0.meters_ok(),
            final(self)@.f1.meters_ok(),
            kept_ready(old(self)@.f0, final(self)@.f0, old(self)@.rules),
            kept_ready(old(self)@.f1, final(self)@.f1, old(self)@.rules),
            old(self)@.f0.total_hits_landed <= final(self)@.f0.total_hits_landed
                <= old(self)@.f0.total_hits_landed + 1,
            old(self)@.f1.total_hits_landed <= final(self)@.f1.total_hits_landed
                <= old(self)@.f1.total_hits_landed + 1,
            old(self)@.f0.total_damage_dealt <= final(self)@.f0.total_damage_dealt,
            old(self)@.f1.total_damage_dealt <= final(self)@.f1.total_damage_dealt,
            old(self)@.f0.vitality >= 1 && old(self)@.f1.vitality >= 1 ==> {
                &&& final(self)@.f0.total_damage_dealt + final(self)@.f1.vitality
                    <= old(self)@.f0.total_damage_dealt + old(self)@.f1.vitality
                &&& final(self)@.f1.total_damage_dealt + final(self)@.f0.vitality
                    <= old(self)@.f1.total_damage_dealt + old(self)@.f0.vitality
            },
    {
        let ghost m = self@;
        proof {
            reveal(spec_fight_fighters);
        }
        let dist_before = self.distance();
        let mut a = self.f0;
        let mut b = self.f1;
        prepare(&mut a, intents[0], &self.ruleset, dist_before, self.global_tick);
        prepare(&mut b, intents[1], &self.ruleset, dist_before, self.global_tick);
        let ghost a1 = a;
        let ghost b1 = b;
        let mut fs = [a, b];
        integrate(&mut fs, &self.ruleset);
        proof {
            lemma_integrate_frame(a1, b1, m.rules);
        }
        let ghost pre = fs;
        proof {
            lemma_resolve_frame(pre[0], pre[1], m.rules);
            lemma_valid_contacts_fit(pre[0], pre[1], m.rules);
        }
        let hits = resolve(&mut fs, &self.ruleset, self.global_tick);
        regen_guard(&mut fs, &self.ruleset);
        self.f0 = fs[0];
        self.f1 = fs[1];
        hits
    }
}


/// Whether `leader` landed an unblocked contact in `hits`.
fn landed_by(hits: &Vec<HitLog>, leader: usize) -> (r: bool)
    ensures
        r == spec_landed(hits@, leader),
{
    let mut i: usize = 0;
    while i < hits.len()
        invariant
            0 <= i <= hits@.len(),
            forall|k: int| 0 <= k < i ==> !(#[trigger] hits@[k].attacker_idx == leader && !hits@[k].blocked),
        decreases hits@.len() - i,
    {
        if hits[i].attacker_idx == leader && !hits[i].blocked {
            return true;
        }
        i = i + 1;
    }
    false
}

/// The leader after a passivity warning.
fn warn(f: Fighter, pct: i32) -> (r: Fighter)
    requires
        f.warnings_this_round < u8::MAX,
        0 <= f.vitality <= VALUE_MAX,
        0 <= pct <= 100,
    ensures
        r == spec_warned(f, pct),
{
    let mut f = f;
    f.warnings_this_round = f.warnings_this_round + 1;
    if f.warnings_this_round >= 2 {
        assert(0 <= f.vitality * pct <= 20_000_000) by (nonlinear_arith)
            requires
                0 <= f.vitality <= VALUE_MAX,
                0 <= pct <= 100,
        ;
        let penalty = (f.vitality * pct) / 100;
        let rest = f.vitality - penalty;
        f.vitality = if rest > 0 {
            rest
        } else {
            0
        };
    }
    f
}

impl Sim {
    fn follow(&mut self, leader: usize, dist: Fixed)
        ensures
            final(self)@ == spec_follow(old(self)@, leader, dist),
    {
        let following = match self.passive_tracked_fighter {
            Some(l) => l == leader,
            None => false,
        };
        if !following {
            self.passive_tracked_fighter = Some(leader);
            self.passive_ticks = 0;
            self.passive_prev_distance = dist;
        }
    }

    fn passive_count(&mut self, leader: usize, dist: Fixed, landed: bool) -> (warnings: Vec<WarnLog>)
        requires
            leader < 2,
            old(self)@.passive_ticks < u32::MAX,
            spec_fighter(old(self)@, leader).warnings_this_round < u8::MAX,
            0 <= spec_fighter(old(self)@, leader).vitality <= VALUE_MAX,
            0 <= old(self)@.rules.passivity_penalty_fraction_pct <= 100,
        ensures
            (final(self)@, warnings@) == spec_passive_count(old(self)@, old(self)@.rules, leader, dist, landed),
    {
        if dist.0 < self.passive_prev_distance.0 || landed {
            self.passive_prev_distance = dist;
            self.passive_ticks = 0;
            return Vec::new();
        }
        self.passive_prev_distance = dist;
        self.passive_ticks = self.passive_ticks + 1;
        let mut warnings: Vec<WarnLog> = Vec::new();
        if self.passive_ticks >= self.ruleset.passivity_warning_ticks {
            self.passive_ticks = 0;
            self.passive_prev_distance = dist;
            let f = warn(*self.fighter(leader), self.ruleset.passivity_penalty_fraction_pct);
            if leader == 0 {
                self.f0 = f;
            } else {
                self.f1 = f;
            }
            warnings.push(WarnLog { fighter_idx: leader, second_warning: f.warnings_this_round >= 2 });
            assert(warnings@ =~= seq![WarnLog { fighter_idx: leader, second_warning: f.warnings_this_round >= 2 }]);
        }
        warnings
    }

    /// Passivity bookkeeping for one fighting tick; returns the warnings
    /// issued.
    fn tick_passivity(&mut self, hits: &Vec<HitLog>) -> (warnings: Vec<WarnLog>)
        requires
            old(self)@.passive_ticks < u32::MAX,
            old(self)@.f0.warnings_this_round < u8::MAX,
            old(self)@.f1.warnings_this_round < u8::MAX,
            0 <= old(self)@.f0.vitality <= VALUE_MAX,
            0 <= old(self)@.f1.vitality <= VALUE_MAX,
            0 <= old(self)@.rules.passivity_penalty_fraction_pct <= 100,
        ensures
            (final(self)@, warnings@) == spec_passivity(old(self)@, old(self)@.rules, hits@),
            final(self)@.rules == old(self)@.rules,
    {
        proof {
            reveal(spec_passivity);
        }
        let v0 = self.f0.vitality;
        let v1 = self.f1.vitality;
        if v0 == v1 {
            self.passive_ticks = 0;
            self.passive_tracked_fighter = None;
            return Vec::new();
        }
        let leader: usize = if v0 > v1 {
            0
        } else {
            1
        };
        let dist = self.distance();
        self.follow(leader, dist);
        let landed = landed_by(hits, leader);
        self.passive_count(leader, dist, landed)
    }

    /// The round's outcome, if this tick ended it.
    fn check_round_end(&self) -> (r: Option<RoundOutcome>)
        requires
            self@.f0.vitality <= VALUE_MAX,
            self@.f1.vitality <= VALUE_MAX,
            1 <= self@.rules.vitality,
            1 <= self@.rules.sudden_death_vitality,
        ensures
            r == spec_check_round_end(self@, self@.rules),
            match r {
                Some(RoundOutcome::Ko { winner }) => winner <= 1,
                Some(RoundOutcome::Timeout { winner: Some(w) }) => w <= 1,
                _ => true,
            },
    {
        proof {
            reveal(spec_check_round_end);
        }
        let v0 = self.f0.vitality;
        let v1 = self.f1.vitality;
        if v0 <= 0 && v1 <= 0 {
            return Some(RoundOutcome::DoubleKo);
        }
        if v0 <= 0 {
            return Some(RoundOutcome::Ko { winner: 1 });
        }
        if v1 <= 0 {
            return Some(RoundOutcome::Ko { winner: 0 });
        }
        if self.round_ticks_remaining() == 0 {
            let max_v = if self.sudden_death {
                self.ruleset.sudden_death_vitality
            } else {
                self.ruleset.vitality
            };
            let pct0 = (v0 * 10000) / max_v;
            let pct1 = (v1 * 10000) / max_v;
            let winner = if pct0 > pct1 {
                Some(0u8)
            } else if pct1 > pct0 {
                Some(1u8)
            } else {
                None
            };
            return Some(RoundOutcome::Timeout { winner });
        }
        None
    }

    /// Sudden-death tiebreak: more hits landed wins.
    fn tiebreak_by_hits(&self) -> (r: Option<u8>)
        ensures
            r == spec_tiebreak(self@),
    {
        let h0 = self.f0.total_hits_landed;
        let h1 = self.f1.total_hits_landed;
        if h0 > h1 {
            Some(0)
        } else if h1 > h0 {
            Some(1)
        } else {
            None
        }
    }

    /// Score a finished round; returns the match result if it ends the match.
    fn apply_round_outcome(&mut self, outcome: RoundOutcome) -> (r: Option<MatchResult>)
        requires
            old(self)@.wins0 < u8::MAX,
            old(self)@.wins1 < u8::MAX,
            old(self)@.round < u8::MAX,
            outcome is Ko ==> (outcome->Ko_winner == 0 || outcome->Ko_winner == 1),
            outcome matches RoundOutcome::Timeout { winner: Some(w) } ==> (w == 0 || w == 1),
        ensures
            (final(self)@, r) == spec_apply_round_outcome(old(self)@, old(self)@.rules, outcome),
            final(self)@.rules == old(self)@.rules,
    {
        proof {
            reveal(spec_apply_round_outcome);
        }
        if self.sudden_death {
            let winner = match outcome {
                RoundOutcome::Ko { winner } => Some(winner),
                RoundOutcome::DoubleKo => None,
                RoundOutcome::Timeout { winner } => match winner {
                    Some(w) => Some(w),
                    None => self.tiebreak_by_hits(),
                },
            };
            self.phase = Phase::MatchOver;
            return Some(MatchResult { winner, reason: MatchEndReason::SuddenDeath });
        }
        match outcome {
            RoundOutcome::Ko { winner } => {
                if winner == 0 {
                    self.round_wins = [self.round_wins[0] + 1, self.round_wins[1]];
                } else {
                    self.round_wins = [self.round_wins[0], self.round_wins[1] + 1];
                }
            },
            RoundOutcome::Timeout { winner: Some(w) } => {
                if w == 0 {
                    self.round_wins = [self.round_wins[0] + 1, self.round_wins[1]];
                } else {
                    self.round_wins = [self.round_wins[0], self.round_wins[1] + 1];
                }
            },
            _ => {},
        }
        let reason = match outcome {
            RoundOutcome::Ko { .. } => MatchEndReason::Ko,
            _ => MatchEndReason::Timeout,
        };
        if self.round_wins[0] >= self.ruleset.rounds_to_win {
            self.phase = Phase::MatchOver;
            return Some(MatchResult { winner: Some(0), reason });
        }
        if self.round_wins[1] >= self.ruleset.rounds_to_win {
            self.phase = Phase::MatchOver;
            return Some(MatchResult { winner: Some(1), reason });
        }
        if self.round >= self.ruleset.max_rounds {
            // No one reached rounds_to_win after max_rounds: sudden death.
            self.sudden_death = true;
            self.round = self.round + 1;
            self.round_wins = [0, 0];
            self.phase = Phase::Intermission { ticks_left: self.ruleset.intermission_ticks };
            return None;
        }
        self.round = self.round + 1;
        self.phase = Phase::Intermission { ticks_left: self.ruleset.intermission_ticks };
        None
    }

    /// Reset both fighters and the round's counters; returns the opening
    /// freeze of the next round.
    fn begin_next_round(&mut self) -> (p: Phase)
        ensures
            final(self)@ == (SimModel { phase: final(self)@.phase, ..spec_begin_next_round(old(self)@, old(self)@.rules) }),
            final(self)@.phase == old(self)@.phase,
            p == spec_begin_next_round(old(self)@, old(self)@.rules).phase,
    {
        let half_sep = self.start_separation.div(Fixed::from_int(2));
        let center = self.ruleset.arena_width.div(Fixed::from_int(2));
        let vitality = if self.sudden_death {
            self.ruleset.sudden_death_vitality
        } else {
            self.ruleset.vitality
        };
        let f0 = Fighter::new(
            Vec2::new(center.sub(half_sep), Fixed::zero()),
            Facing::Right,
            vitality,
            self.ruleset.guard_max,
        );
        let f1 = Fighter::new(
            Vec2::new(center.add(half_sep), Fixed::zero()),
            Facing::Left,
            vitality,
            self.ruleset.guard_max,
        );
        self.f0 = f0;
        self.f1 = f1;
        self.round_tick = 0;
        self.passive_ticks = 0;
        self.passive_tracked_fighter = None;
        Phase::Freeze { ticks_left: self.ruleset.opening_freeze_ticks }
    }
}


impl Sim {
    fn quiet_report(&self, state_hash: u64) -> (r: TickReport)
        ensures
            r@ == spec_quiet_report(state_hash, self@.chain_hash),
    {
        TickReport {
            hits: Vec::new(),
            warnings: Vec::new(),
            round_ended: None,
            match_ended: None,
            state_hash,
            chain_hash: self.chain_hash,
        }
    }

    fn tick_freeze(&mut self, left: u32) -> (r: TickReport)
        requires
            old(self).wf(),
            old(self)@.phase == (Phase::Freeze { ticks_left: left }),
        ensures
            final(self).wf(),
            final(self)@.rules == old(self)@.rules,
            (final(self)@, r@) == spec_tick_freeze(old(self)@, old(self)@.rules, left),
    {
        proof {
            lemma_freeze_step(self@, left);
        }
        let sh = self.push_hash();
        let report = self.quiet_report(sh);
        let l = left.saturating_sub(1);
        if l == 0 {
            self.phase = Phase::Fighting;
            self.f0.enter_state(FighterState::Idle);
            self.f1.enter_state(FighterState::Idle);
        } else {
            self.phase = Phase::Freeze { ticks_left: l };
        }
        self.global_tick = self.global_tick + 1;
        report
    }

    fn tick_intermission(&mut self, left: u32) -> (r: TickReport)
        requires
            old(self).wf(),
            old(self)@.phase == (Phase::Intermission { ticks_left: left }),
        ensures
            final(self).wf(),
            final(self)@.rules == old(self)@.rules,
            (final(self)@, r@) == spec_tick_intermission(old(self)@, old(self)@.rules, left),
    {
        proof {
            lemma_intermission_step(self@, left);
        }
        let sh = self.push_hash();
        let report = self.quiet_report(sh);
        let l = left.saturating_sub(1);
        self.phase = if l == 0 {
            self.begin_next_round()
        } else {
            Phase::Intermission { ticks_left: l }
        };
        self.global_tick = self.global_tick + 1;
        report
    }

    fn run_down_hitstop(&mut self)
        requires
            old(self)@.round_tick < u32::MAX,
            old(self)@.global_tick < u32::MAX,
        ensures
            final(self)@ == ({
                let m = old(self)@;
                let f0 = if m.f0.hitstop > 0 { Fighter { hitstop: (m.f0.hitstop - 1) as u16, ..m.f0 } } else { m.f0 };
                let f1 = if m.f1.hitstop > 0 { Fighter { hitstop: (m.f1.hitstop - 1) as u16, ..m.f1 } } else { m.f1 };
                SimModel {
                    f0,
                    f1,
                    round_tick: (m.round_tick + 1) as u32,
                    global_tick: (m.global_tick + 1) as u32,
                    ..m
                }
            }),
    {
        if self.f0.hitstop > 0 {
            self.f0.hitstop = self.f0.hitstop - 1;
        }
        if self.f1.hitstop > 0 {
            self.f1.hitstop = self.f1.hitstop - 1;
        }
        self.round_tick = self.round_tick + 1;
        self.global_tick = self.global_tick + 1;
    }

    #[verifier::rlimit(40)]
    fn tick_hitstop(&mut self) -> (r: TickReport)
        requires
            old(self).wf(),
            old(self)@.phase == Phase::Fighting,
            old(self)@.f0.hitstop > 0 || old(self)@.f1.hitstop > 0,
        ensures
            final(self).wf(),
            final(self)@.rules == old(self)@.rules,
            (final(self)@, r@) == spec_tick_hitstop(old(self)@, old(self)@.rules),
    {
        proof {
            lemma_hitstop_step(self@);
        }
        self.run_down_hitstop();
        let sh = self.push_hash();
        self.quiet_report(sh)
    }

    #[verifier::spinoff_prover]
    fn tick_active(&mut self, intents: [Intent; 2]) -> (r: TickReport)
        requires
            old(self).wf(),
            old(self)@.phase == Phase::Fighting,
            old(self)@.f0.hitstop == 0,
            old(self)@.f1.hitstop == 0,
        ensures
            final(self).wf(),
            final(self)@.rules == old(self)@.rules,
            (final(self)@, r@) == spec_tick_active(old(self)@, old(self)@.rules, intents[0], intents[1]),
    {
        let ghost m = self@;
        proof {
            lemma_inv_basics(m);
        }
        let hits = self.fight(intents);
        let ghost m2 = self@;
        proof {
            assert(fought(m, m2));
            lemma_active_step(m, m2, hits@);
        }
        let warnings = self.tick_passivity(&hits);
        let ghost m3 = self@;
        self.round_tick = self.round_tick + 1;
        let ghost m3b = self@;
        assert(m3b == (SimModel { round_tick: (m3.round_tick + 1) as u32, ..m3 }));
        let outcome = self.check_round_end();
        let match_ended = match outcome {
            Some(o) => self.apply_round_outcome(o),
            None => None,
        };
        let ghost m4 = self@;
        self.global_tick = self.global_tick + 1;
        assert(self@ == (SimModel { global_tick: (m4.global_tick + 1) as u32, ..m4 }));
        let sh = self.push_hash();
        TickReport {
            hits,
            warnings,
            round_ended: outcome,
            match_ended,
            state_hash: sh,
            chain_hash: self.chain_hash,
        }
    }

    /// Advance the simulation by exactly one tick. This is the only way to
    /// mutate the match. A finished match only reports its hashes; a freeze
    /// or intermission tick counts down; a fighting tick either runs down
    /// hitstop or plays the full pipeline.
    pub fn tick(&mut self, intents: [Intent; 2]) -> (r: TickReport)
        requires
            old(self).wf(),
        ensures
            final(self).wf(),
            final(self)@.rules == old(self)@.rules,
            (final(self)@, r@) == spec_tick(old(self)@, old(self)@.rules, intents[0], intents[1]),
    {
        match self.phase {
            Phase::MatchOver => {
                let sh = self.compute_state_hash();
                self.quiet_report(sh)
            },
            Phase::Freeze { ticks_left } => self.tick_freeze(ticks_left),
            Phase::Intermission { ticks_left } => self.tick_intermission(ticks_left),
            Phase::Fighting => {
                if self.f0.hitstop > 0 || self.f1.hitstop > 0 {
                    self.tick_hitstop()
                } else {
                    self.tick_active(intents)
                }
            },
        }
    }
}

} // verus!
