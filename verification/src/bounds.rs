//! Why a match never overflows: every phase of `Sim::tick` keeps
//! `sim_inv`, whose per-phase bounds keep the tick counters, round
//! counters, tallies and warnings within their integer types until the
//! match ends.
use crate::combat::{combat_ready, kept_ready, HitLog};
use crate::fighter::{spec_enter, spec_new_fighter, spec_view, Fighter};
use crate::ruleset::{Ruleset, PHASE_TICKS_MAX, VALUE_MAX};
use crate::sim::{
    cycle_bound, fit_to_fight, regular_rounds, round_ok, sim_inv, spec_apply_round_outcome,
    spec_begin_next_round, spec_check_round_end, spec_finish_active, spec_passivity,
    spec_push_hash, spec_round_limit, spec_start_fighters, spec_tick_freeze, spec_tick_hitstop,
    spec_tick_intermission, spec_ticks_remaining, spec_tick, spec_tick_active, spec_fight_fighters, spec_distance, spec_fighter, spec_follow, spec_landed,
    spec_passive_count, spec_warned, ObsFrame, Phase, RoundOutcome, SimModel,
};
use crate::fixed::Fixed;
use crate::types::{FighterState, Intent};
use vstd::prelude::*;

verus! {

/// What every reachable state gives its callers directly: a well-formed
/// ruleset, a non-empty observation window, and while fighting, two
/// fighters ready for the fight phases.
pub proof fn lemma_inv_basics(m: SimModel)
    requires
        sim_inv(m, m.rules),
    ensures
        m.rules.wf(),
        1 <= m.obs.len(),
        m.phase == Phase::Fighting ==> {
            &&& m.f0.wf()
            &&& m.f1.wf()
            &&& combat_ready(m.f0, m.rules)
            &&& combat_ready(m.f1, m.rules)
        },
{
    reveal(sim_inv);
}

/// A round cycle is at most about twelve million ticks.
pub proof fn lemma_cycle_small(rs: Ruleset)
    requires
        rs.wf(),
    ensures
        0 < cycle_bound(rs) <= 12_100_000,
        0 < rs.max_round_length() <= 4_070_000,
{
}

/// Products of a round number and a cycle bound stay below `u32::MAX`.
pub proof fn lemma_rounds_fit(round: int, p: int)
    by (nonlinear_arith)
    requires
        0 <= round <= 201,
        0 < p <= 12_100_000,
    ensures
        round * p <= 2_432_100_000,
        (round - 1) * p + p == round * p,
        (round - 2) * p + p == (round - 1) * p,
        0 <= round * p,
        round >= 1 ==> 0 <= (round - 1) * p,
        round >= 2 ==> 0 <= (round - 2) * p,
{
}

/// Warnings paced by a clock shorter than 255 windows number fewer than 255.
pub proof fn lemma_few_warnings(w0: int, w1: int, wt: int, p: int, rt: int)
    by (nonlinear_arith)
    requires
        0 <= w0,
        0 <= w1,
        0 <= p,
        1 <= wt,
        (w0 + w1) * wt + p <= rt,
        rt < 255 * wt,
    ensures
        w0 < 255,
        w1 < 255,
{
}

/// Recording a frame keeps the observation window non-empty and within
/// `observation_delay + 1` frames, and changes nothing else but the chain.
pub proof fn lemma_push_frame(m: SimModel, rs: Ruleset)
    requires
        1 <= m.obs.len() <= rs.observation_delay + 1,
    ensures
        1 <= spec_push_hash(m, rs).0.obs.len() <= rs.observation_delay + 1,
        spec_push_hash(m, rs).0 == (SimModel {
            obs: spec_push_hash(m, rs).0.obs,
            chain_hash: spec_push_hash(m, rs).0.chain_hash,
            ..m
        }),
{
}

/// Fresh fighters at the start of a round are fit and unscored.
pub proof fn lemma_fresh_round(m: SimModel, rs: Ruleset, vit: i32)
    requires
        rs.wf(),
        1 <= vit <= VALUE_MAX,
        m.f0 == spec_start_fighters(rs, m.start_separation, vit).0,
        m.f1 == spec_start_fighters(rs, m.start_separation, vit).1,
        m.round_tick == 0,
        m.passive_ticks == 0,
        m.wins0 + m.wins1 + 1 <= m.round,
    ensures
        round_ok(m, rs),
        m.f0.hitstop == 0,
        m.f1.hitstop == 0,
{
    let w = m.f0.warnings_this_round + m.f1.warnings_this_round;
    let wt = rs.passivity_warning_ticks;
    assert(w * wt == 0) by (nonlinear_arith)
        requires
            w == 0,
    ;
}

/// A freeze tick keeps the invariant.
pub proof fn lemma_freeze_step(m: SimModel, left: u32)
    requires
        sim_inv(m, m.rules),
        m.phase == (Phase::Freeze { ticks_left: left }),
    ensures
        m.rules.observation_delay < PHASE_TICKS_MAX,
        m.global_tick < u32::MAX,
        sim_inv(spec_tick_freeze(m, m.rules, left).0, m.rules),
{
    reveal(sim_inv);
    let rs = m.rules;
    let p = cycle_bound(rs);
    lemma_cycle_small(rs);
    lemma_rounds_fit(m.round as int, p);
    lemma_push_frame(m, rs);
    let m1 = spec_push_hash(m, rs).0;
    let l = if left > 0 { (left - 1) as u32 } else { 0u32 };
    if l == 0 {
        let m2 = SimModel {
            phase: Phase::Fighting,
            f0: spec_enter(m1.f0, FighterState::Idle),
            f1: spec_enter(m1.f1, FighterState::Idle),
            ..m1
        };
        assert(round_ok(m2, rs));
    }
}

/// An intermission tick keeps the invariant.
pub proof fn lemma_intermission_step(m: SimModel, left: u32)
    requires
        sim_inv(m, m.rules),
        m.phase == (Phase::Intermission { ticks_left: left }),
    ensures
        m.rules.observation_delay < PHASE_TICKS_MAX,
        m.global_tick < u32::MAX,
        sim_inv(spec_tick_intermission(m, m.rules, left).0, m.rules),
{
    reveal(sim_inv);
    let rs = m.rules;
    let p = cycle_bound(rs);
    lemma_cycle_small(rs);
    lemma_rounds_fit(m.round as int, p);
    lemma_push_frame(m, rs);
    let m1 = spec_push_hash(m, rs).0;
    let l = if left > 0 { (left - 1) as u32 } else { 0u32 };
    if l == 0 {
        let m2 = spec_begin_next_round(m1, rs);
        let vit = if m1.sudden_death { rs.sudden_death_vitality } else { rs.vitality };
        lemma_fresh_round(m2, rs, vit);
    }
}

/// A hitstop tick keeps the invariant.
pub proof fn lemma_hitstop_step(m: SimModel)
    requires
        sim_inv(m, m.rules),
        m.phase == Phase::Fighting,
        m.f0.hitstop > 0 || m.f1.hitstop > 0,
    ensures
        m.rules.observation_delay < PHASE_TICKS_MAX,
        m.global_tick < u32::MAX,
        m.round_tick < u32::MAX,
        sim_inv(spec_tick_hitstop(m, m.rules).0, m.rules),
{
    reveal(sim_inv);
    let rs = m.rules;
    let p = cycle_bound(rs);
    lemma_cycle_small(rs);
    lemma_rounds_fit(m.round as int, p);
    let f0 = if m.f0.hitstop > 0 { Fighter { hitstop: (m.f0.hitstop - 1) as u16, ..m.f0 } } else { m.f0 };
    let f1 = if m.f1.hitstop > 0 { Fighter { hitstop: (m.f1.hitstop - 1) as u16, ..m.f1 } } else { m.f1 };
    let m1 = SimModel {
        f0,
        f1,
        round_tick: (m.round_tick + 1) as u32,
        global_tick: (m.global_tick + 1) as u32,
        ..m
    };
    assert(round_ok(m1, rs));
    lemma_push_frame(m1, rs);
}


/// `g` differs from `f` at most in vitality and passivity warnings.
pub open spec fn only_vit_warn(f: Fighter, g: Fighter) -> bool {
    (Fighter { vitality: f.vitality, warnings_this_round: f.warnings_this_round, ..g }) == f
}

/// `m3` differs from `m` at most in the passivity tracker and in the
/// fighters' vitality (down, not below zero) and warnings, with warnings
/// paced by `rt` ticks of the round clock.
pub open spec fn passivity_kept(m: SimModel, m3: SimModel, rs: Ruleset, rt: int) -> bool {
    &&& m3 == (SimModel {
        f0: m3.f0,
        f1: m3.f1,
        passive_ticks: m3.passive_ticks,
        passive_prev_distance: m3.passive_prev_distance,
        passive_tracked_fighter: m3.passive_tracked_fighter,
        ..m
    })
    &&& only_vit_warn(m.f0, m3.f0)
    &&& only_vit_warn(m.f1, m3.f1)
    &&& 0 <= m3.f0.vitality <= m.f0.vitality
    &&& 0 <= m3.f1.vitality <= m.f1.vitality
    &&& (m3.f0.warnings_this_round + m3.f1.warnings_this_round) * rs.passivity_warning_ticks
        + m3.passive_ticks <= rt
}

proof fn lemma_warned(f: Fighter, pct: i32)
    requires
        0 <= pct <= 100,
        0 <= f.vitality,
        f.warnings_this_round < 255,
    ensures
        only_vit_warn(f, spec_warned(f, pct)),
        0 <= spec_warned(f, pct).vitality <= f.vitality,
        spec_warned(f, pct).warnings_this_round == f.warnings_this_round + 1,
{
    assert(0 <= f.vitality * pct / 100 <= f.vitality) by (nonlinear_arith)
        requires
            0 <= f.vitality,
            0 <= pct <= 100,
    ;
}

#[verifier::spinoff_prover]
proof fn lemma_count_frame(m: SimModel, rs: Ruleset, leader: usize, dist: Fixed, landed: bool)
    requires
        leader < 2,
        0 <= rs.passivity_penalty_fraction_pct <= 100,
        1 <= rs.passivity_warning_ticks,
        0 <= m.f0.vitality,
        0 <= m.f1.vitality,
        m.f0.warnings_this_round < 255,
        m.f1.warnings_this_round < 255,
        (m.f0.warnings_this_round + m.f1.warnings_this_round) * rs.passivity_warning_ticks + m.passive_ticks
            <= m.round_tick,
    ensures
        passivity_kept(m, spec_passive_count(m, rs, leader, dist, landed).0, rs, m.round_tick + 1),
{
    let wt = rs.passivity_warning_ticks;
    let w = m.f0.warnings_this_round + m.f1.warnings_this_round;
    let m3 = spec_passive_count(m, rs, leader, dist, landed).0;
    if dist.0 < m.passive_prev_distance.0 || landed {
        assert(passivity_kept(m, m3, rs, m.round_tick + 1));
    } else if m.passive_ticks + 1 >= wt {
        assert((w + 1) * wt == w * wt + wt) by (nonlinear_arith);
        let f = spec_fighter(m, leader);
        lemma_warned(f, rs.passivity_penalty_fraction_pct);
        assert(m3.f0.warnings_this_round + m3.f1.warnings_this_round == w + 1);
        assert(passivity_kept(m, m3, rs, m.round_tick + 1));
    } else {
        assert(passivity_kept(m, m3, rs, m.round_tick + 1));
    }
}

/// Passivity changes only the tracker and the leader's vitality and
/// warnings; vitality only goes down (never below zero), and warnings stay
/// paced: each one costs a full window of ticks.
pub proof fn lemma_passivity_frame(m: SimModel, rs: Ruleset, hits: Seq<HitLog>)
    requires
        0 <= rs.passivity_penalty_fraction_pct <= 100,
        1 <= rs.passivity_warning_ticks,
        0 <= m.f0.vitality,
        0 <= m.f1.vitality,
        m.f0.warnings_this_round < 255,
        m.f1.warnings_this_round < 255,
        (m.f0.warnings_this_round + m.f1.warnings_this_round) * rs.passivity_warning_ticks + m.passive_ticks
            <= m.round_tick,
    ensures
        passivity_kept(m, spec_passivity(m, rs, hits).0, rs, m.round_tick + 1),
{
    reveal(spec_passivity);
    let v0 = m.f0.vitality;
    let v1 = m.f1.vitality;
    if v0 != v1 {
        let leader: usize = if v0 > v1 { 0 } else { 1 };
        let dist = spec_distance(m);
        let m1 = spec_follow(m, leader, dist);
        lemma_count_frame(m1, rs, leader, dist, spec_landed(hits, leader));
    }
}

/// What the fight phases guarantee (see `Sim::fight`): only the fighters
/// change, with meters in range, hitstop bounded, an attack's kind
/// recorded, warnings kept, at most one more hit each, and no more damage
/// dealt than vitality lost.
pub open spec fn fought(m: SimModel, m2: SimModel) -> bool {
    let rs = m.rules;
    &&& m2 == (SimModel { f0: m2.f0, f1: m2.f1, ..m })
    &&& m2.f0.meters_ok()
    &&& m2.f1.meters_ok()
    &&& kept_ready(m.f0, m2.f0, rs)
    &&& kept_ready(m.f1, m2.f1, rs)
    &&& m.f0.total_hits_landed <= m2.f0.total_hits_landed <= m.f0.total_hits_landed + 1
    &&& m.f1.total_hits_landed <= m2.f1.total_hits_landed <= m.f1.total_hits_landed + 1
    &&& m.f0.total_damage_dealt <= m2.f0.total_damage_dealt
    &&& m.f1.total_damage_dealt <= m2.f1.total_damage_dealt
    &&& m.f0.vitality >= 1 && m.f1.vitality >= 1 ==> {
        &&& m2.f0.total_damage_dealt + m2.f1.vitality <= m.f0.total_damage_dealt + m.f1.vitality
        &&& m2.f1.total_damage_dealt + m2.f0.vitality <= m.f1.total_damage_dealt + m.f0.vitality
    }
}


/// Recording a frame keeps the invariant.
proof fn lemma_push_inv(m: SimModel)
    requires
        sim_inv(m, m.rules),
    ensures
        sim_inv(spec_push_hash(m, m.rules).0, m.rules),
{
    reveal(sim_inv);
    lemma_push_frame(m, m.rules);
}

/// The bounds a round's end starts from.
pub open spec fn ending_ok(m: SimModel) -> bool {
    let rs = m.rules;
    &&& rs.wf()
    &&& 1 <= m.obs.len() <= rs.observation_delay + 1
    &&& 1 <= m.round <= regular_rounds(rs) + (if m.sudden_death { 1int } else { 0int })
    &&& m.global_tick + 1 <= (m.round - 1) * cycle_bound(rs) + rs.opening_freeze_ticks + 1
        + rs.max_round_length()
}

/// Ending the match keeps the invariant.
proof fn lemma_match_over(m: SimModel)
    requires
        ending_ok(m),
    ensures
        sim_inv(SimModel { phase: Phase::MatchOver, global_tick: (m.global_tick + 1) as u32, ..m }, m.rules),
{
    reveal(sim_inv);
    let p = cycle_bound(m.rules);
    lemma_cycle_small(m.rules);
    lemma_rounds_fit(m.round as int, p);
}

/// Moving on to another round (possibly sudden death) keeps the invariant.
proof fn lemma_next_round(m: SimModel, sd: bool, w0: u8, w1: u8)
    requires
        ending_ok(m),
        w0 + w1 <= m.round,
        sd ==> (w0 == 0 && w1 == 0),
        m.round + 1 <= regular_rounds(m.rules) + (if sd { 1int } else { 0int }),
    ensures
        sim_inv(
            SimModel {
                sudden_death: sd,
                round: (m.round + 1) as u8,
                wins0: w0,
                wins1: w1,
                phase: Phase::Intermission { ticks_left: m.rules.intermission_ticks },
                global_tick: (m.global_tick + 1) as u32,
                ..m
            },
            m.rules,
        ),
{
    reveal(sim_inv);
    let p = cycle_bound(m.rules);
    lemma_cycle_small(m.rules);
    lemma_rounds_fit(m.round + 1, p);
}

/// Scoring a finished round, then counting the tick and recording it,
/// keeps the invariant.
proof fn lemma_round_over(m: SimModel, o: RoundOutcome)
    requires
        ending_ok(m),
        m.wins0 + m.wins1 + 1 <= m.round,
        o is Ko ==> (o->Ko_winner == 0 || o->Ko_winner == 1),
        o matches RoundOutcome::Timeout { winner: Some(w) } ==> (w == 0 || w == 1),
    ensures
        m.wins0 < u8::MAX,
        m.wins1 < u8::MAX,
        m.round < u8::MAX,
        spec_apply_round_outcome(m, m.rules, o).0.global_tick < u32::MAX,
        sim_inv(
            spec_push_hash(
                SimModel {
                    global_tick: (spec_apply_round_outcome(m, m.rules, o).0.global_tick + 1) as u32,
                    ..spec_apply_round_outcome(m, m.rules, o).0
                },
                m.rules,
            ).0,
            m.rules,
        ),
{
    reveal(spec_apply_round_outcome);
    reveal(sim_inv);
    let rs = m.rules;
    let p = cycle_bound(rs);
    lemma_cycle_small(rs);
    lemma_rounds_fit(m.round as int, p);
    let m4 = spec_apply_round_outcome(m, rs, o).0;
    let m5 = SimModel { global_tick: (m4.global_tick + 1) as u32, ..m4 };
    if m.sudden_death {
        lemma_match_over(m);
        assert(m5 == SimModel { phase: Phase::MatchOver, global_tick: (m.global_tick + 1) as u32, ..m });
    } else {
        let m1 = match o {
            RoundOutcome::Ko { winner } => if winner == 0 {
                SimModel { wins0: (m.wins0 + 1) as u8, ..m }
            } else {
                SimModel { wins1: (m.wins1 + 1) as u8, ..m }
            },
            RoundOutcome::Timeout { winner: Some(w) } => if w == 0 {
                SimModel { wins0: (m.wins0 + 1) as u8, ..m }
            } else {
                SimModel { wins1: (m.wins1 + 1) as u8, ..m }
            },
            _ => m,
        };
        assert(ending_ok(m1));
        assert(m1.wins0 + m1.wins1 <= m.round);
        if m1.wins0 >= rs.rounds_to_win || m1.wins1 >= rs.rounds_to_win {
            lemma_match_over(m1);
            assert(m5 == SimModel { phase: Phase::MatchOver, global_tick: (m1.global_tick + 1) as u32, ..m1 });
        } else if m1.round >= rs.max_rounds {
            lemma_next_round(m1, true, 0, 0);
            assert(m5 == SimModel {
                sudden_death: true,
                round: (m1.round + 1) as u8,
                wins0: 0,
                wins1: 0,
                phase: Phase::Intermission { ticks_left: m1.rules.intermission_ticks },
                global_tick: (m1.global_tick + 1) as u32,
                ..m1
            });
        } else {
            lemma_next_round(m1, false, m1.wins0, m1.wins1);
            assert(m5 == SimModel {
                sudden_death: false,
                round: (m1.round + 1) as u8,
                wins0: m1.wins0,
                wins1: m1.wins1,
                phase: Phase::Intermission { ticks_left: m1.rules.intermission_ticks },
                global_tick: (m1.global_tick + 1) as u32,
                ..m1
            });
        }
    }
    lemma_push_inv(m5);
}

/// A fighting tick that ends no round keeps the invariant.
#[verifier::spinoff_prover]
proof fn lemma_round_goes_on(m: SimModel, m2: SimModel, m3b: SimModel)
    requires
        sim_inv(m, m.rules),
        m.phase == Phase::Fighting,
        fought(m, m2),
        passivity_kept(m2, SimModel { round_tick: m2.round_tick, ..m3b }, m.rules, m.round_tick + 1),
        m3b.round_tick == m.round_tick + 1,
        spec_check_round_end(m3b, m.rules).is_none(),
    ensures
        sim_inv(spec_push_hash(SimModel { global_tick: (m3b.global_tick + 1) as u32, ..m3b }, m.rules).0, m.rules),
{
    reveal(spec_check_round_end);
    reveal(sim_inv);
    let rs = m.rules;
    let p = cycle_bound(rs);
    lemma_cycle_small(rs);
    lemma_rounds_fit(m.round as int, p);
    let m5 = SimModel { global_tick: (m3b.global_tick + 1) as u32, ..m3b };
    assert(round_ok(m5, rs));
    assert(sim_inv(m5, rs));
    lemma_push_inv(m5);
}

/// A fighting tick past hitstop keeps the invariant, and every step of it
/// stays within its integer types.
#[verifier::spinoff_prover]
pub proof fn lemma_active_step(m: SimModel, m2: SimModel, hits: Seq<HitLog>)
    requires
        sim_inv(m, m.rules),
        m.phase == Phase::Fighting,
        m.f0.hitstop == 0,
        m.f1.hitstop == 0,
        fought(m, m2),
    ensures
        ({
            let rs = m.rules;
            let m3 = spec_passivity(m2, rs, hits).0;
            let m3b = SimModel { round_tick: (m3.round_tick + 1) as u32, ..m3 };
            let oc = spec_check_round_end(m3b, rs);
            let m4 = match oc {
                Some(o) => spec_apply_round_outcome(m3b, rs, o).0,
                None => m3b,
            };
            &&& passivity_kept(m2, m3, rs, m.round_tick + 1)
            &&& m.rules.observation_delay < PHASE_TICKS_MAX
            &&& m2.passive_ticks < u32::MAX
            &&& m2.f0.warnings_this_round < u8::MAX
            &&& m2.f1.warnings_this_round < u8::MAX
            &&& 0 <= m2.f0.vitality <= VALUE_MAX
            &&& 0 <= m2.f1.vitality <= VALUE_MAX
            &&& m3.round_tick < u32::MAX
            &&& m3b.f0.vitality <= VALUE_MAX
            &&& m3b.f1.vitality <= VALUE_MAX
            &&& m3b.wins0 < u8::MAX
            &&& m3b.wins1 < u8::MAX
            &&& m3b.round < u8::MAX
            &&& m4.global_tick < u32::MAX
            &&& sim_inv(spec_finish_active(m2, rs, hits).0, rs)
        }),
{
    reveal(spec_check_round_end);
    reveal(sim_inv);
    let rs = m.rules;
    let p = cycle_bound(rs);
    lemma_cycle_small(rs);
    lemma_rounds_fit(m.round as int, p);
    let wt = rs.passivity_warning_ticks;
    lemma_few_warnings(
        m.f0.warnings_this_round as int,
        m.f1.warnings_this_round as int,
        wt as int,
        m.passive_ticks as int,
        m.round_tick as int,
    );
    lemma_passivity_frame(m2, rs, hits);
    let m3 = spec_passivity(m2, rs, hits).0;
    assert(passivity_kept(m2, m3, rs, m.round_tick + 1));
    let m3b = SimModel { round_tick: (m3.round_tick + 1) as u32, ..m3 };
    let oc = spec_check_round_end(m3b, rs);
    match oc {
        Some(o) => {
            assert(ending_ok(m3b));
            lemma_round_over(m3b, o);
        },
        None => {
            lemma_round_goes_on(m, m2, m3b);
        },
    }
}

/// Every tick of a match that is not over advances the tick counter by
/// exactly one; a finished match stays where it is.
pub proof fn lemma_tick_advances_clock(m: SimModel, i0: Intent, i1: Intent)
    requires
        sim_inv(m, m.rules),
    ensures
        m.phase != Phase::MatchOver ==> spec_tick(m, m.rules, i0, i1).0.global_tick == m.global_tick + 1,
        m.phase == Phase::MatchOver ==> spec_tick(m, m.rules, i0, i1).0 == m,
{
    let rs = m.rules;
    match m.phase {
        Phase::Freeze { ticks_left } => {
            lemma_freeze_step(m, ticks_left);
        },
        Phase::Intermission { ticks_left } => {
            lemma_intermission_step(m, ticks_left);
        },
        Phase::Fighting => {
            if m.f0.hitstop > 0 || m.f1.hitstop > 0 {
                lemma_hitstop_step(m);
            } else {
                reveal(sim_inv);
                reveal(spec_passivity);
                reveal(spec_apply_round_outcome);
                let p = cycle_bound(rs);
                lemma_cycle_small(rs);
                lemma_rounds_fit(m.round as int, p);
                assert(m.global_tick < u32::MAX);
                assert(spec_tick(m, rs, i0, i1) == spec_tick_active(m, rs, i0, i1));
            }
        },
        Phase::MatchOver => {},
    }
}

proof fn lemma_passivity_keeps_phase(m: SimModel, rs: Ruleset, hits: Seq<HitLog>)
    ensures
        spec_passivity(m, rs, hits).0.phase == m.phase,
{
    reveal(spec_passivity);
}

proof fn lemma_outcome_reports_the_end(m: SimModel, rs: Ruleset, o: RoundOutcome)
    requires
        m.phase == Phase::Fighting,
    ensures
        spec_apply_round_outcome(m, rs, o).1.is_some() == (spec_apply_round_outcome(m, rs, o).0.phase == Phase::MatchOver),
{
    reveal(spec_apply_round_outcome);
}

/// A tick ends the match exactly when it reports the match's end.
pub proof fn lemma_tick_reports_the_end(m: SimModel, i0: Intent, i1: Intent)
    requires
        m.phase != Phase::MatchOver,
    ensures
        spec_tick(m, m.rules, i0, i1).1.match_ended.is_some() == (spec_tick(m, m.rules, i0, i1).0.phase == Phase::MatchOver),
{
    let rs = m.rules;
    if m.phase == Phase::Fighting && m.f0.hitstop == 0 && m.f1.hitstop == 0 {
        assert(spec_tick(m, rs, i0, i1) == spec_tick_active(m, rs, i0, i1));
        let (a, b, hits) = spec_fight_fighters(m.f0, m.f1, rs, i0, i1, m.global_tick, spec_distance(m));
        let m2 = SimModel { f0: a, f1: b, ..m };
        lemma_passivity_keeps_phase(m2, rs, hits);
        let m3 = spec_passivity(m2, rs, hits).0;
        let m3b = SimModel { round_tick: (m3.round_tick + 1) as u32, ..m3 };
        match spec_check_round_end(m3b, rs) {
            Some(o) => {
                lemma_outcome_reports_the_end(m3b, rs, o);
            },
            None => {},
        }
    }
}

/// The observation window after recording `f`: the last `cap` frames.
pub open spec fn spec_window(obs: Seq<ObsFrame>, f: ObsFrame, cap: int) -> Seq<ObsFrame> {
    let o = obs.push(f);
    if o.len() > cap {
        o.skip(o.len() - cap)
    } else {
        o
    }
}

proof fn lemma_passivity_keeps_obs(m: SimModel, rs: Ruleset, hits: Seq<HitLog>)
    ensures
        spec_passivity(m, rs, hits).0.obs == m.obs,
{
    reveal(spec_passivity);
}

proof fn lemma_outcome_keeps_obs(m: SimModel, rs: Ruleset, o: RoundOutcome)
    ensures
        spec_apply_round_outcome(m, rs, o).0.obs == m.obs,
{
    reveal(spec_apply_round_outcome);
}

/// Every tick of a match that is not over records exactly one frame into
/// the observation window.
pub proof fn lemma_tick_records_one_frame(m: SimModel, rs: Ruleset, i0: Intent, i1: Intent)
    requires
        m.phase != Phase::MatchOver,
    ensures
        spec_tick(m, rs, i0, i1).0.obs == spec_window(m.obs, spec_tick(m, rs, i0, i1).0.obs.last(), rs.observation_delay + 1),
{
    if m.phase == Phase::Fighting && m.f0.hitstop == 0 && m.f1.hitstop == 0 {
        assert(spec_tick(m, rs, i0, i1) == spec_tick_active(m, rs, i0, i1));
        let (a, b, hits) = spec_fight_fighters(m.f0, m.f1, rs, i0, i1, m.global_tick, spec_distance(m));
        let m2 = SimModel { f0: a, f1: b, ..m };
        lemma_passivity_keeps_obs(m2, rs, hits);
        let m3 = spec_passivity(m2, rs, hits).0;
        let m3b = SimModel { round_tick: (m3.round_tick + 1) as u32, ..m3 };
        match spec_check_round_end(m3b, rs) {
            Some(o) => {
                lemma_outcome_keeps_obs(m3b, rs, o);
            },
            None => {},
        }
    }
}

/// The frame that shows `m`: its tick, round, round clock and both
/// fighters.
pub open spec fn spec_frame_of(m: SimModel, rs: Ruleset) -> ObsFrame {
    ObsFrame {
        tick: m.global_tick,
        round: m.round,
        ticks_remaining: spec_ticks_remaining(m, rs),
        view0: spec_view(m.f0),
        view1: spec_view(m.f1),
    }
}

/// A tick that starts in the fighting phase records a frame showing the
/// match as that tick leaves it.
pub proof fn lemma_fighting_frame_is_current(m: SimModel, rs: Ruleset, i0: Intent, i1: Intent)
    requires
        m.phase == Phase::Fighting,
    ensures
        spec_tick(m, rs, i0, i1).0.obs.last() == spec_frame_of(spec_tick(m, rs, i0, i1).0, rs),
{
    if m.f0.hitstop == 0 && m.f1.hitstop == 0 {
        assert(spec_tick(m, rs, i0, i1) == spec_tick_active(m, rs, i0, i1));
    }
}

} // verus!
