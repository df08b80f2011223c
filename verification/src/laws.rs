//! Properties the engine promises across functions and states, each proved
//! from the specifications the functions themselves satisfy.
use crate::combat::{spec_block, spec_hit, spec_resolve, spec_scale_pct, spec_strike_damage, spec_tech_log, spec_throws, spec_strike, HitLog};
use crate::fighter::Fighter;
use crate::fixed::{add_raw, clamp_raw, div_raw, mul_pct_raw, spec_to_int, sub_raw, unit, Fixed};
use crate::ruleset::{spec_move_spec, MoveSpec, Ruleset};
use crate::bounds::{lemma_fighting_frame_is_current, lemma_tick_records_one_frame, spec_frame_of, spec_window};
use crate::replay::{spec_replayed, spec_run};
use crate::rng::{lemma_draw_in_range, spec_bounded, spec_seeded, spec_threshold};
use crate::state_machine::{spec_advance, spec_apply_intent};
use crate::sim::{spec_check_round_end, spec_new_sim, spec_observation, spec_passive_count, spec_passivity, spec_tick, ObsFrame, Phase, RoundOutcome, SimModel};
use crate::state_machine::spec_throw_is_active;
use crate::types::{spec_accepts_new_intent, spec_is_airborne, AttackKind, Direction, Facing, FighterState, Intent};
use crate::movement::spec_move_one;
use vstd::prelude::*;

verus! {

/// Whole units survive the trip into fixed point and back.
pub proof fn law_from_int_roundtrip(v: i32)
    requires
        -32768 <= v < 32768,
    ensures
        spec_to_int((v * unit()) as i32) == v,
{
}

/// Clamping lands inside the bounds whenever the bounds are ordered.
pub proof fn law_clamp_within(v: i32, lo: i32, hi: i32)
    requires
        lo <= hi,
    ensures
        lo <= clamp_raw(v, lo, hi) <= hi,
{
}

/// Scaling by a percentage between 0 and 100 rounds toward zero: the
/// result keeps the sign and never grows in magnitude.
pub proof fn law_mul_pct_toward_zero(a: i32, pct: i32)
    requires
        0 <= pct <= 100,
    ensures
        0 <= a ==> 0 <= mul_pct_raw(a, pct) <= a,
        a <= 0 ==> a <= mul_pct_raw(a, pct) <= 0,
{
    assert(0 <= a ==> 0 <= a * pct <= a * 100) by (nonlinear_arith)
        requires
            0 <= pct <= 100,
    ;
    assert(a <= 0 ==> a * 100 <= a * pct <= 0) by (nonlinear_arith)
        requires
            0 <= pct <= 100,
    ;
}

/// Chip damage never knocks a fighter out: blocking a strike leaves a
/// defender that had any vitality with at least one.
pub proof fn law_chip_never_kills(a: Fighter, d: Fighter, kind: AttackKind, rs: Ruleset, i: usize, j: usize)
    requires
        d.vitality >= 1,
        spec_move_spec(rs, kind).wf(),
    ensures
        spec_block(a, d, kind, rs, i, j).1.vitality >= 1,
{
    reveal(spec_block);
}

/// Guard crush: a blocked strike whose guard damage empties the guard
/// leaves the defender guard-crushed with no guard; otherwise it is in
/// blockstun with what is left.
pub proof fn law_guard_crush(a: Fighter, d: Fighter, kind: AttackKind, rs: Ruleset, i: usize, j: usize)
    requires
        0 <= d.guard,
        spec_move_spec(rs, kind).wf(),
    ensures
        ({
            let r = spec_block(a, d, kind, rs, i, j).1;
            let left = d.guard - spec_move_spec(rs, kind).guard_damage;
            &&& left <= 0 ==> r.state == FighterState::GuardCrush && r.guard == 0
            &&& left > 0 ==> r.state == FighterState::BlockStun && r.guard == left
        }),
{
    reveal(spec_block);
}

/// The hard-knockdown cap: an unblocked strike that brings the defender's
/// combo to the knockdown hit knocks it down and is logged as a hard
/// knockdown.
pub proof fn law_hard_knockdown(a: Fighter, d: Fighter, kind: AttackKind, rs: Ruleset, i: usize, j: usize)
    requires
        d.combo_count < u8::MAX,
        d.combo_count + 1 >= rs.combo_hard_knockdown_hit,
    ensures
        spec_hit(a, d, kind, rs, i, j).1.state == FighterState::Knockdown,
        spec_hit(a, d, kind, rs, i, j).2.len() == 1,
        spec_hit(a, d, kind, rs, i, j).2[0].hard_knockdown,
{
    reveal(spec_hit);
}

/// Combo scaling never makes a hit stronger than the move: with scaling
/// percentages and floor of at most 100, a strike deals at most the move's
/// damage (and always at least one point).
pub proof fn law_combo_scaling_caps(rs: Ruleset, m: MoveSpec, crouching: bool, combo: u8)
    requires
        0 <= m.damage,
        0 <= rs.combo_floor_pct <= 100,
        forall|k: int| 0 <= k < rs.combo_scaling_pct@.len() ==> 0 <= #[trigger] rs.combo_scaling_pct@[k] <= 100,
    ensures
        1 <= spec_strike_damage(rs, m, crouching, combo),
        spec_strike_damage(rs, m, crouching, combo) <= (if m.damage > 1 { m.damage as int } else { 1 }),
{
    let num = if crouching { 80int } else { 100int };
    let base = m.damage * num / 100;
    let pct = spec_scale_pct(rs, combo as int);
    let t = rs.combo_scaling_pct@;
    if (combo as int) < t.len() {
        assert(0 <= t[combo as int] <= 100);
    } else if t.len() > 0 {
        assert(0 <= t[t.len() - 1] <= 100);
    }
    assert(0 <= pct <= 100);
    assert(0 <= base <= m.damage) by (nonlinear_arith)
        requires
            0 <= m.damage,
            num == 80 || num == 100,
            base == m.damage * num / 100,
    ;
    assert(base * pct / 100 <= base) by (nonlinear_arith)
        requires
            0 <= base,
            0 <= pct <= 100,
    ;
    assert(m.damage * rs.combo_floor_pct / 100 <= m.damage) by (nonlinear_arith)
        requires
            0 <= m.damage,
            0 <= rs.combo_floor_pct <= 100,
    ;
}

/// Throw tech: two throws active on the same tick, attempted within the
/// tech window and neither yet connected, deal no damage: both fighters
/// keep their vitality and the log is one zero-damage tech entry each.
pub proof fn law_throw_tech(f0: Fighter, f1: Fighter, rs: Ruleset)
    requires
        spec_throw_is_active(f0, rs),
        spec_throw_is_active(f1, rs),
        !f0.attack_hit_registered,
        !f1.attack_hit_registered,
        match (f0.last_throw_attempt_tick, f1.last_throw_attempt_tick) {
            (Some(a), Some(b)) => (if a >= b { a - b } else { b - a }) <= rs.throw_tech_window_ticks,
            _ => true,
        },
    ensures
        spec_resolve(f0, f1, rs).0.vitality == f0.vitality,
        spec_resolve(f0, f1, rs).1.vitality == f1.vitality,
        spec_resolve(f0, f1, rs).2 == seq![spec_tech_log(0, 1), spec_tech_log(1, 0)],
        spec_tech_log(0, 1).damage == 0 && spec_tech_log(0, 1).is_tech,
        spec_tech_log(1, 0).damage == 0 && spec_tech_log(1, 0).is_tech,
{
    reveal(spec_throws);
    reveal(spec_strike);
    let (t0, t1, tl) = spec_throws(f0, f1, rs);
    let (a1, b1, l1) = spec_strike(t0, t1, f0, f1, rs, 0, 1);
    let (b2, a2, l2) = spec_strike(b1, a1, f1, f0, rs, 1, 0);
    assert(l1 =~= Seq::<HitLog>::empty());
    assert(l2 =~= Seq::<HitLog>::empty());
    assert(tl + l1 + l2 =~= tl);
}

/// A knockout ends the round: a fighter at zero vitality loses it (both at
/// zero is a double knockout).
pub proof fn law_knockout_ends_round(m: SimModel, rs: Ruleset)
    requires
        m.f0.vitality <= 0 || m.f1.vitality <= 0,
    ensures
        spec_check_round_end(m, rs) == Some(
            if m.f0.vitality <= 0 && m.f1.vitality <= 0 {
                RoundOutcome::DoubleKo
            } else if m.f0.vitality <= 0 {
                RoundOutcome::Ko { winner: 1 }
            } else {
                RoundOutcome::Ko { winner: 0 }
            },
        ),
{
    reveal(spec_check_round_end);
}

/// Passivity only ever warns the fighter ahead on vitality.
pub proof fn law_passivity_warns_only_the_leader(m: SimModel, rs: Ruleset, hits: Seq<HitLog>, k: int)
    requires
        0 <= k < spec_passivity(m, rs, hits).1.len(),
    ensures
        m.f0.vitality != m.f1.vitality,
        spec_passivity(m, rs, hits).1[k].fighter_idx == (if m.f0.vitality > m.f1.vitality { 0usize } else { 1usize }),
{
    reveal(spec_passivity);
}

/// A finished match stays finished: ticking it changes nothing.
pub proof fn law_match_over_is_final(m: SimModel, rs: Ruleset, i0: Intent, i1: Intent)
    requires
        m.phase == Phase::MatchOver,
    ensures
        spec_tick(m, rs, i0, i1).0 == m,
{
}

/// How many frames the observation window holds after `n` ticks of a
/// running match.
pub open spec fn spec_window_len(n: int, delay: int) -> int {
    if n < delay {
        n + 1
    } else {
        delay + 1
    }
}

/// The observation window after the first `k` ticks of `stream`.
#[verifier::opaque]
spec fn obs_after(rs: Ruleset, seed: u64, stream: Seq<(Intent, Intent)>, k: int) -> Seq<ObsFrame> {
    spec_replayed(rs, seed, stream.take(k)).obs
}

/// Whether the match is still running after the first `k` ticks.
#[verifier::opaque]
spec fn running_after(rs: Ruleset, seed: u64, stream: Seq<(Intent, Intent)>, k: int) -> bool {
    spec_replayed(rs, seed, stream.take(k)).phase != Phase::MatchOver
}

proof fn lemma_obs_start(rs: Ruleset, seed: u64, stream: Seq<(Intent, Intent)>)
    ensures
        obs_after(rs, seed, stream, 0).len() == 1,
{
    reveal(obs_after);
    assert(stream.take(0) =~= Seq::<(Intent, Intent)>::empty());
}

proof fn lemma_obs_step(rs: Ruleset, seed: u64, stream: Seq<(Intent, Intent)>, n: int)
    requires
        1 <= n <= stream.len(),
        running_after(rs, seed, stream, n - 1),
    ensures
        obs_after(rs, seed, stream, n) == spec_window(
            obs_after(rs, seed, stream, n - 1),
            obs_after(rs, seed, stream, n).last(),
            rs.observation_delay + 1,
        ),
{
    reveal(obs_after);
    reveal(running_after);
    let prev = spec_replayed(rs, seed, stream.take(n - 1));
    assert(stream.take(n).drop_last() =~= stream.take(n - 1));
    assert(stream.take(n).last() == stream[n - 1]);
    lemma_tick_records_one_frame(prev, rs, stream[n - 1].0, stream[n - 1].1);
}

proof fn lemma_window_history(rs: Ruleset, seed: u64, stream: Seq<(Intent, Intent)>, n: int)
    requires
        0 <= n <= stream.len(),
        forall|k: int| 0 <= k < stream.len() ==> #[trigger] running_after(rs, seed, stream, k),
    ensures
        obs_after(rs, seed, stream, n).len() == spec_window_len(n, rs.observation_delay as int),
        forall|i: int|
            0 <= i < spec_window_len(n, rs.observation_delay as int) ==> obs_after(rs, seed, stream, n)[i]
                == #[trigger] obs_after(rs, seed, stream, n - spec_window_len(n, rs.observation_delay as int) + 1 + i).last(),
    decreases n,
{
    let d = rs.observation_delay as int;
    if n == 0 {
        lemma_obs_start(rs, seed, stream);
    } else {
        lemma_window_history(rs, seed, stream, n - 1);
        assert(running_after(rs, seed, stream, n - 1));
        lemma_obs_step(rs, seed, stream, n);
        let prev = obs_after(rs, seed, stream, n - 1);
        let cur = obs_after(rs, seed, stream, n);
        let lp = spec_window_len(n - 1, d);
        let l = spec_window_len(n, d);
        assert forall|i: int| 0 <= i < l implies cur[i] == #[trigger] obs_after(rs, seed, stream, n - l + 1 + i).last() by {
            if i == l - 1 {
                assert(n - l + 1 + i == n);
            } else if lp < d + 1 {
                assert(cur[i] == prev[i]);
                assert(n - 1 - lp + 1 + i == n - l + 1 + i);
            } else {
                assert(cur[i] == prev[i + 1]);
                assert(n - 1 - lp + 1 + (i + 1) == n - l + 1 + i);
            }
        }
    }
}

/// Agents see the match late by exactly `observation_delay` ticks: after
/// `n` ticks of a match that is still running, observations are read from
/// the newest frame recorded after tick `n - observation_delay` (before
/// that many ticks, from the opening frame). That frame shows the match as
/// it stood then whenever it was recorded by a fighting tick (or is the
/// opening frame).
pub proof fn law_observation_lags(rs: Ruleset, seed: u64, stream: Seq<(Intent, Intent)>)
    requires
        forall|k: int| 0 <= k < stream.len() ==> #[trigger] spec_replayed(rs, seed, stream.take(k)).phase != Phase::MatchOver,
    ensures
        ({
            let n = stream.len() as int;
            let d = rs.observation_delay as int;
            let j = if n >= d { n - d } else { 0 };
            &&& spec_replayed(rs, seed, stream).obs[0] == spec_replayed(rs, seed, stream.take(j)).obs.last()
            &&& spec_observation(spec_replayed(rs, seed, stream), rs, 0).tick == spec_replayed(rs, seed, stream.take(j)).obs.last().tick
            &&& (j == 0 || spec_replayed(rs, seed, stream.take(j - 1)).phase == Phase::Fighting) ==> spec_replayed(
                rs,
                seed,
                stream,
            ).obs[0] == spec_frame_of(spec_replayed(rs, seed, stream.take(j)), rs)
        }),
{
    let n = stream.len() as int;
    let d = rs.observation_delay as int;
    let j = if n >= d { n - d } else { 0 };
    assert forall|k: int| 0 <= k < n implies #[trigger] running_after(rs, seed, stream, k) by {
        reveal(running_after);
    }
    lemma_window_history(rs, seed, stream, n);
    let l = spec_window_len(n, d);
    let first = obs_after(rs, seed, stream, n - l + 1 + 0).last();
    assert(obs_after(rs, seed, stream, n)[0] == first);
    assert(n - l + 1 + 0 == j);
    reveal(obs_after);
    assert(stream.take(n) =~= stream);
    if j == 0 {
        assert(stream.take(0) =~= Seq::<(Intent, Intent)>::empty());
    } else if spec_replayed(rs, seed, stream.take(j - 1)).phase == Phase::Fighting {
        let prev = spec_replayed(rs, seed, stream.take(j - 1));
        assert(stream.take(j).drop_last() =~= stream.take(j - 1));
        assert(stream.take(j).last() == stream[j - 1]);
        lemma_fighting_frame_is_current(prev, rs, stream[j - 1].0, stream[j - 1].1);
    }
}

/// A fighter after `n` ticks of its own state machine.
pub open spec fn spec_advance_n(f: Fighter, rs: Ruleset, n: nat) -> Fighter
    decreases n,
{
    if n == 0 {
        f
    } else {
        spec_advance(spec_advance_n(f, rs, (n - 1) as nat), rs).0
    }
}

/// Attack timing: an attack started at tick 0 is in startup for `startup`
/// ticks, active for the next `active`, recovering for the next
/// `recovery`, and idle with no attack on the tick its total is reached.
pub proof fn law_attack_timing(f: Fighter, rs: Ruleset, k: AttackKind, n: nat)
    requires
        f.state == FighterState::AttackStartup,
        f.state_tick == 0,
        f.attack_kind == Some(k),
        spec_move_spec(rs, k).startup >= 1,
        spec_move_spec(rs, k).active >= 1,
        spec_move_spec(rs, k).recovery >= 1,
        n <= spec_move_spec(rs, k).startup + spec_move_spec(rs, k).active + spec_move_spec(rs, k).recovery,
    ensures
        ({
            let m = spec_move_spec(rs, k);
            let g = spec_advance_n(f, rs, n);
            let s = m.startup as int;
            let a = m.active as int;
            let total = m.startup + m.active + m.recovery;
            &&& n < s ==> g.state == FighterState::AttackStartup && g.state_tick == n && g.attack_kind == Some(k)
            &&& s <= n < s + a ==> g.state == FighterState::AttackActive && g.state_tick == n - s && g.attack_kind == Some(k)
            &&& s + a <= n < total ==> g.state == FighterState::AttackRecovery && g.state_tick == n - s - a && g.attack_kind
                == Some(k)
            &&& n == total ==> g.state == FighterState::Idle && g.state_tick == 0 && g.attack_kind.is_none()
        }),
    decreases n,
{
    if n > 0 {
        law_attack_timing(f, rs, k, (n - 1) as nat);
        reveal(spec_advance);
    }
}

/// Passivity compares each tick's distance with the previous tick's: the
/// distance is always remembered; closing in since the previous tick or
/// landing a hit restarts the count without a warning; otherwise the count
/// grows, and reaching `passivity_warning_ticks` warns the leader and
/// restarts it.
pub proof fn law_passivity_counts_tick_over_tick(m: SimModel, rs: Ruleset, leader: usize, dist: Fixed, landed: bool)
    ensures
        ({
            let (m2, w) = spec_passive_count(m, rs, leader, dist, landed);
            &&& m2.passive_prev_distance == dist
            &&& (dist.0 < m.passive_prev_distance.0 || landed) ==> m2.passive_ticks == 0 && w.len() == 0
            &&& !(dist.0 < m.passive_prev_distance.0 || landed) && m.passive_ticks + 1 < rs.passivity_warning_ticks
                ==> m2.passive_ticks == m.passive_ticks + 1 && w.len() == 0
            &&& !(dist.0 < m.passive_prev_distance.0 || landed) && m.passive_ticks + 1 >= rs.passivity_warning_ticks
                ==> m2.passive_ticks == 0 && w.len() == 1 && w[0].fighter_idx == leader
        }),
{
}

/// A match's starting separation is the ruleset's, moved by a whole-unit
/// offset within the jitter drawn from the match's seeded generator (and
/// exactly the ruleset's when the jitter is not positive); the fighters
/// start half of it either side of the arena's centre, and every round
/// starts from the same separation.
pub proof fn law_start_separation_drawn(rs: Ruleset, seed: u64)
    ensures
        ({
            let m = spec_new_sim(rs, seed);
            let j = rs.start_separation_jitter as int;
            let half = div_raw(m.start_separation.0, 2i32 << 16u32);
            let center = div_raw(rs.arena_width.0, 2i32 << 16u32);
            &&& j <= 0 ==> m.start_separation == rs.start_separation && m.rng == spec_seeded(seed, 1)
            &&& j > 0 ==> exists|offset: i32|
                -j <= offset <= j && m.start_separation.0 == add_raw(rs.start_separation.0, #[trigger] (offset << 16u32))
            &&& m.f0.position.x.0 == sub_raw(center, half)
            &&& m.f1.position.x.0 == add_raw(center, half)
        }),
{
    let j = rs.start_separation_jitter as int;
    if j > 0 {
        let (r, g2) = spec_bounded(spec_seeded(seed, 1), (2 * j + 1) as u32);
        lemma_draw_in_range(spec_seeded(seed, 1), (2 * j + 1) as u32, spec_threshold((2 * j + 1) as u32), u64::MAX as nat);
        let offset = (r - j) as i32;
        assert(-j <= offset <= j);
        assert(spec_new_sim(rs, seed).start_separation.0 == add_raw(rs.start_separation.0, offset << 16u32));
    }
}

/// Determinism: two simulations in the same state (as two built from the
/// same ruleset and seed are) and fed the same intents stay in the same
/// state and report the same, tick after tick.
pub proof fn law_same_inputs_same_run(m1: SimModel, m2: SimModel, rs: Ruleset, stream: Seq<(Intent, Intent)>)
    requires
        m1 == m2,
    ensures
        spec_run(m1, rs, stream) == spec_run(m2, rs, stream),
        forall|k: int|
            0 <= k < stream.len() ==> #[trigger] spec_tick(spec_run(m1, rs, stream.take(k)), rs, stream[k].0, stream[k].1)
                == spec_tick(spec_run(m2, rs, stream.take(k)), rs, stream[k].0, stream[k].1),
{
}

/// An observation shows the polled fighter as `me` and the other fighter
/// as `opponent`, both as they stood in the observed (oldest) frame, and
/// each corner distance is measured from that fighter's own position: the
/// nearer of its distance to the left wall (its x) and to the right wall
/// (arena width minus its x).
pub proof fn law_observation_sides(m: SimModel, rs: Ruleset, idx: usize)
    requires
        m.obs.len() >= 1,
        0 <= m.obs[0].view0.position.x.0 <= rs.arena_width.0,
        0 <= m.obs[0].view1.position.x.0 <= rs.arena_width.0,
    ensures
        ({
            let o = spec_observation(m, rs, idx);
            let frame = m.obs[0];
            let width = rs.arena_width.0 as int;
            let mx = o.me.position.x.0 as int;
            let ox = o.opponent.position.x.0 as int;
            &&& o.tick == frame.tick && o.round == frame.round && o.ticks_remaining == frame.ticks_remaining
            &&& idx == 0 ==> o.me == frame.view0 && o.opponent == frame.view1
            &&& idx != 0 ==> o.me == frame.view1 && o.opponent == frame.view0
            &&& o.distance.0 == (if mx >= ox { mx - ox } else { ox - mx })
            &&& o.my_corner_distance.0 == (if mx <= width - mx { mx } else { width - mx })
            &&& o.opponent_corner_distance.0 == (if ox <= width - ox { ox } else { width - ox })
        }),
{
}

/// Whether a strike from `a` is blocked by a defender in `d`: the defender
/// must be holding block, low against a crouching attack, high against a
/// jumping one, either way against anything else.
pub open spec fn blocks(a: Fighter, d: Fighter) -> bool {
    if d.state == FighterState::BlockStand {
        !a.attack_crouching
    } else if d.state == FighterState::BlockCrouch {
        a.attack_crouching || !a.attack_jumping
    } else {
        false
    }
}

/// A strike that connects logs exactly one contact, from the attacker onto
/// the defender. It is blocked exactly when the defender holds the right
/// block (a crouching block never stops a jumping attack, a standing block
/// never stops a crouching one); a blocked strike leaves the defender in
/// blockstun or guard-crushed, an unblocked one in hitstun or knocked down.
pub proof fn law_strike_blocking(a: Fighter, d: Fighter, a_pre: Fighter, d_pre: Fighter, rs: Ruleset, i: usize, j: usize)
    ensures
        ({
            let (a2, d2, logs) = spec_strike(a, d, a_pre, d_pre, rs, i, j);
            logs.len() > 0 ==> {
                &&& logs.len() == 1
                &&& logs[0].attacker_idx == i
                &&& logs[0].defender_idx == j
                &&& logs[0].blocked == blocks(a, d)
                &&& blocks(a, d) ==> (d2.state == FighterState::BlockStun || d2.state == FighterState::GuardCrush)
                &&& !blocks(a, d) ==> (d2.state == FighterState::HitStun || d2.state == FighterState::Knockdown)
                &&& a2.attack_hit_registered
                &&& !logs[0].is_throw && !logs[0].is_tech
                &&& a.attack_kind.is_some() ==> logs[0].kind == a.attack_kind
                &&& blocks(a, d) ==> d2.combo_count == d.combo_count
                &&& !blocks(a, d) ==> d2.combo_count == (if d.combo_count < 255 { d.combo_count + 1 } else { 255 })
                &&& !blocks(a, d) && d.vitality >= 0 ==> {
                    &&& 0 <= logs[0].damage <= d.vitality
                    &&& d2.vitality == d.vitality - logs[0].damage
                }
            }
        }),
        ({
            let (a2, d2, logs) = spec_strike(a, d, a_pre, d_pre, rs, i, j);
            logs.len() > 0 && a.attack_jumping && !a.attack_crouching && d.state == FighterState::BlockCrouch ==> {
                &&& !logs[0].blocked
                &&& (d2.state == FighterState::HitStun || d2.state == FighterState::Knockdown)
            }
        }),
{
    reveal(spec_strike);
    reveal(spec_block);
    reveal(spec_hit);
}

/// Asked to block, a grounded fighter that is free to act blocks low when
/// it was crouching (or already blocking low) and high otherwise.
pub proof fn law_block_stance(f: Fighter, rs: Ruleset, distance: Fixed)
    requires
        spec_accepts_new_intent(f.state),
        !spec_is_airborne(f.state),
    ensures
        spec_apply_intent(f, Intent::Block, rs, distance).state == (if f.state == FighterState::Crouch
            || f.state == FighterState::BlockCrouch {
            FighterState::BlockCrouch
        } else {
            FighterState::BlockStand
        }),
{
    reveal(spec_apply_intent);
}

/// A dashing fighter moves at the dash speed: toward the way it faces when
/// dashing forward, away from it when dashing back.
pub proof fn law_dash_direction(f: Fighter, rs: Ruleset)
    requires
        f.state == FighterState::DashFwd || f.state == FighterState::DashBack,
        rs.dash_speed_per_tick.0 != i32::MIN,
    ensures
        ({
            let v = spec_move_one(f, rs).velocity.x.0 as int;
            let speed = rs.dash_speed_per_tick.0 as int;
            let toward_right = (f.facing == Facing::Right) == f.dash_forward;
            v == (if toward_right { speed } else { -speed })
        }),
{
    reveal(spec_move_one);
    assert((1i32 << 16u32) == 65536i32) by (bit_vector);
    assert((-1i32 << 16u32) == -65536i32) by (bit_vector);
    let d = rs.dash_speed_per_tick.0 as int;
    assert((d * 65536) / 65536 == d) by (nonlinear_arith);
    assert((d * -65536) / 65536 == -d) by (nonlinear_arith);
}

/// A fighter in the middle of an action (dashing, attacking, throwing,
/// stunned, knocked down and so on) ignores every intent.
pub proof fn law_busy_fighters_ignore_intents(f: Fighter, intent: Intent, rs: Ruleset, distance: Fixed)
    requires
        !spec_accepts_new_intent(f.state),
    ensures
        spec_apply_intent(f, intent, rs, distance) == f,
{
    reveal(spec_apply_intent);
}

/// What a grounded fighter free to act does with each intent: walks the
/// way a move points (forward, back, or stands for a neutral or vertical
/// one), crouches, dashes forward unless the direction points back, jumps,
/// starts an attack of the asked kind (crouching if it was crouching), and
/// stops walking or crouching when asked for nothing. Every entered state
/// starts its timer at zero.
pub proof fn law_grounded_intents(f: Fighter, rs: Ruleset, distance: Fixed)
    requires
        spec_accepts_new_intent(f.state),
        !spec_is_airborne(f.state),
    ensures
        forall|dir: Direction| {
            let g = #[trigger] spec_apply_intent(f, Intent::Move(dir), rs, distance);
            g.state == (if dir == Direction::Forward || dir == Direction::UpForward || dir == Direction::DownForward {
                FighterState::WalkFwd
            } else if dir == Direction::Back || dir == Direction::UpBack || dir == Direction::DownBack {
                FighterState::WalkBack
            } else {
                FighterState::Idle
            })
        },
        spec_apply_intent(f, Intent::Crouch, rs, distance).state == FighterState::Crouch,
        forall|dir: Direction| {
            let g = #[trigger] spec_apply_intent(f, Intent::Dash(dir), rs, distance);
            let back = dir == Direction::Back || dir == Direction::UpBack || dir == Direction::DownBack;
            &&& g.state == (if back { FighterState::DashBack } else { FighterState::DashFwd })
            &&& g.dash_forward == !back
            &&& g.state_tick == 0
        },
        forall|dir: Direction| (#[trigger] spec_apply_intent(f, Intent::Jump(dir), rs, distance)).state == FighterState::JumpRise,
        forall|k: AttackKind| {
            let g = #[trigger] spec_apply_intent(f, Intent::Attack(k), rs, distance);
            &&& g.state == FighterState::AttackStartup
            &&& g.state_tick == 0
            &&& g.attack_kind == Some(k)
            &&& g.attack_crouching == (f.state == FighterState::Crouch)
            &&& !g.attack_jumping
            &&& !g.attack_hit_registered
        },
        spec_apply_intent(f, Intent::Nothing, rs, distance).state == (if f.state == FighterState::WalkFwd
            || f.state == FighterState::WalkBack || f.state == FighterState::Crouch {
            FighterState::Idle
        } else {
            f.state
        }),
{
    reveal(spec_apply_intent);
}

/// The horizontal velocity a movement step gives: the walk speed toward
/// the facing side when walking forward and away from it when walking
/// back, unchanged in the air, and zero in every other grounded state but
/// a dash.
pub proof fn law_walk_velocity(f: Fighter, rs: Ruleset)
    requires
        rs.walk_speed_per_tick.0 != i32::MIN,
    ensures
        ({
            let v = spec_move_one(f, rs).velocity.x.0 as int;
            let w = rs.walk_speed_per_tick.0 as int;
            let right = f.facing == Facing::Right;
            &&& f.state == FighterState::WalkFwd ==> v == (if right { w } else { -w })
            &&& f.state == FighterState::WalkBack ==> v == (if right { -w } else { w })
            &&& (f.state == FighterState::JumpRise || f.state == FighterState::JumpFall) ==> v == f.velocity.x.0
            &&& !(f.state == FighterState::WalkFwd || f.state == FighterState::WalkBack || f.state == FighterState::DashFwd
                || f.state == FighterState::DashBack || f.state == FighterState::JumpRise || f.state == FighterState::JumpFall)
                ==> v == 0
        }),
{
    reveal(spec_move_one);
    assert((1i32 << 16u32) == 65536i32) by (bit_vector);
    assert((-1i32 << 16u32) == -65536i32) by (bit_vector);
    let w = rs.walk_speed_per_tick.0 as int;
    assert((w * 65536) / 65536 == w) by (nonlinear_arith);
    assert((w * -65536) / 65536 == -w) by (nonlinear_arith);
    assert((-w * 65536) / 65536 == -w) by (nonlinear_arith);
    assert((-w * -65536) / 65536 == w) by (nonlinear_arith);
}

} // verus!
