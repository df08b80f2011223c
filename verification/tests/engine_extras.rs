use kadu::agents::{Dummy, Random, Runner, Rusher, Spacer, Spammer, Turtle};
use kadu::combat::HitLog;
use kadu::fixed::{Fixed, Vec2};
use kadu::hash::Fnv1a;
use kadu::frames::{check_violations, compute};
use kadu::inspect::{first_divergence, intent_glyph, track_column, TRACK_COLUMNS};
use kadu::replay::{reason_str, verify, Recorder};
use kadu::ruleset::RulesetError;
use kadu::sim::{MatchResult, WarnLog};
use kadu::stats::{
    credit_combo, distance_bucket, is_trade, merge_into, round_ending, tally_hit, tally_warning, watch_fighter, AttackCounts,
    AttackTypeCounts, FighterCounts, Watch,
};
use kadu::tourney::{pairing_seed, Aggregate, PairCell};
use kadu::{
    default_ruleset, Agent, AttackKind, Direction, Facing, FighterState, FighterView, Intent, MatchEndReason,
    Observation, RoundOutcome, Ruleset, Sim,
};

fn view(state: FighterState, x: i32) -> FighterView {
    FighterView {
        position: Vec2::new(Fixed::from_int(x), Fixed::zero()),
        velocity: Vec2::zero(),
        facing: Facing::Right,
        vitality: 1000,
        surge: 0,
        guard: 100,
        state,
        state_tick: 0,
        combo_count: 0,
        airborne: false,
    }
}

fn obs(me: FighterView, opp: FighterView) -> Observation {
    Observation {
        tick: 0,
        round: 1,
        ticks_remaining: 100,
        me,
        opponent: opp,
        distance: (me.position.x - opp.position.x).abs(),
        my_corner_distance: Fixed::from_int(300),
        opponent_corner_distance: Fixed::from_int(300),
    }
}

#[test]
fn pairing_seed_is_shared_by_mirrored_cells() {
    assert_eq!(pairing_seed(1, 2, 5, 3), pairing_seed(1, 5, 2, 3));
    assert_eq!(pairing_seed(1, 2, 5, 3), 1 ^ (2u64 << 40) ^ (5u64 << 20) ^ 3);
}

#[test]
fn default_frame_advantages() {
    let rows = compute(&default_ruleset());
    assert_eq!(rows.len(), 4);
    assert_eq!(rows[0].advantage_on_block, Some(-3));
    assert_eq!(rows[1].advantage_on_block, Some(-4));
    assert_eq!(rows[2].advantage_on_block, Some(-9));
    assert_eq!(rows[3].advantage_on_block, None);
    assert_eq!(rows[0].advantage_on_hit, 1);
    assert_eq!(rows[0].total, 16);
    assert!(!rows[0].reactable);
    assert!(rows[2].reactable);
}

#[test]
fn whitelist_matches_ignoring_case_and_violations_are_named() {
    let mut rs = default_ruleset();
    rs.light.recovery = 7;
    rs.medium.recovery = 5;
    rs.block_advantage_whitelist = vec!["LIGHT".to_string()];
    let rows = compute(&rs);
    assert!(rows[0].whitelisted);
    assert!(!rows[1].whitelisted);
    assert_eq!(rows[1].advantage_on_block, Some(5));
    assert_eq!(check_violations(&rows), vec!["medium is +5 on block (must be negative, or whitelisted with a reason)".to_string()]);
}

#[test]
fn first_divergence_bisects_hash_traces() {
    assert_eq!(first_divergence(&vec![1, 2, 3, 4], &vec![1, 2, 9, 9]), 2);
    assert_eq!(first_divergence(&vec![1, 2, 3], &vec![1, 2, 3, 4]), 3);
    assert_eq!(first_divergence(&vec![7], &vec![8]), 0);
}

#[test]
fn glyphs_for_states() {
    assert_eq!(intent_glyph(FighterState::Idle), 'I');
    assert_eq!(intent_glyph(FighterState::BlockCrouch), 'B');
    assert_eq!(intent_glyph(FighterState::RoundFreeze), '.');
}

#[test]
fn scripted_agents_follow_their_rules() {
    let near = obs(view(FighterState::Idle, 100), view(FighterState::Idle, 200));
    let far = obs(view(FighterState::Idle, 100), view(FighterState::Idle, 700));
    let startup = obs(view(FighterState::Idle, 100), view(FighterState::AttackStartup, 200));
    let mut r = Rusher::new();
    assert_eq!(r.decide(&near), Intent::Attack(AttackKind::Light));
    assert_eq!(r.decide(&far), Intent::Move(Direction::Forward));
    assert_eq!(r.decide(&startup), Intent::Block);
    let mut s = Spammer::new();
    assert_eq!(s.decide(&far), Intent::Move(Direction::Forward));
    assert_eq!(s.decide(&near), Intent::Attack(AttackKind::Light));
    let mut d = Dummy;
    assert_eq!(d.decide(&near), Intent::Nothing);
    assert_eq!(d.name(), "dummy");
    let mut t = Turtle::new();
    assert_eq!(t.decide(&far), Intent::Move(Direction::Forward));
    assert_eq!(t.decide(&near), Intent::Block);
    let mut runner = Runner::new();
    let mut ahead = near;
    ahead.opponent.vitality = 900;
    assert_eq!(runner.decide(&ahead), Intent::Move(Direction::Back));
    assert_eq!(runner.decide(&near), Intent::Move(Direction::Back));
    runner.reset();
    assert_eq!(runner.decide(&near), Intent::Attack(AttackKind::Light));
    let mut sp = Spacer::new();
    assert_eq!(sp.decide(&near), Intent::Move(Direction::Back));
    let recovery = obs(view(FighterState::Idle, 100), view(FighterState::AttackRecovery, 200));
    assert_eq!(sp.decide(&recovery), Intent::Attack(AttackKind::Light));
}

#[test]
fn random_agents_are_seeded_by_match_and_slot() {
    let o = obs(view(FighterState::Idle, 100), view(FighterState::Idle, 700));
    let mut a = Random::new(9, 0);
    let mut b = Random::new(9, 0);
    let mut c = Random::new(9, 1);
    let sa: Vec<Intent> = (0..20).map(|_| a.decide(&o)).collect();
    let sb: Vec<Intent> = (0..20).map(|_| b.decide(&o)).collect();
    let sc: Vec<Intent> = (0..20).map(|_| c.decide(&o)).collect();
    assert_eq!(sa, sb);
    assert_ne!(sa, sc);
}

#[test]
fn a_finished_match_stays_finished() {
    let mut sim = Sim::new(default_ruleset(), 5);
    let mut rusher = Rusher::new();
    let mut t = 0u32;
    while !sim.is_over() && t < 200_000 {
        let o = sim.observation(0);
        let i0 = rusher.decide(&o);
        sim.tick([i0, Intent::Nothing]);
        t += 1;
    }
    assert!(sim.is_over());
    let chain = sim.chain_hash();
    let tick = sim.global_tick();
    let report = sim.tick([Intent::Throw, Intent::Throw]);
    assert_eq!(sim.chain_hash(), chain);
    assert_eq!(sim.global_tick(), tick);
    assert_eq!(report.chain_hash, chain);
    assert!(report.hits.is_empty());
}

#[test]
fn observations_start_from_the_opening_state() {
    let rs = default_ruleset();
    let sim = Sim::new(rs.clone(), 3);
    let o = sim.observation(0);
    assert_eq!(o.tick, 0);
    assert_eq!(o.round, 1);
    assert_eq!(o.ticks_remaining, rs.round_ticks);
    let d = o.distance.to_int();
    assert!((520..=680).contains(&d), "start separation {d} outside 600 +- 80");
    let corner = o.my_corner_distance.to_int();
    assert!((260..=340).contains(&corner));
    assert_eq!(sim.round_ticks_remaining(), 5400);
}

#[test]
fn recorded_replays_verify_and_carry_their_stream() {
    let mut rec = Recorder::new(default_ruleset(), String::from("text"), 7, "rusher", "dummy");
    let mut rusher = Rusher::new();
    for _ in 0..500 {
        let o = rec.sim.observation(0);
        let i0 = rusher.decide(&o);
        rec.tick([i0, Intent::Nothing]);
    }
    let replay = rec.into_replay();
    assert_eq!(replay.intent_stream.len(), 500);
    assert_eq!(replay.rng_seed, 7);
    let result = verify(&replay, default_ruleset());
    assert!(result.ok);
    assert_eq!(result.ticks_run, 500);
    assert_eq!(reason_str(MatchEndReason::SuddenDeath), "sudden_death");
}

#[test]
fn ruleset_bounds_and_errors() {
    let rs = default_ruleset();
    assert!(rs.is_well_formed());
    let mut bad = rs.clone();
    bad.passivity_warning_ticks = 1;
    assert!(!bad.is_well_formed());
    let mut bad2 = rs.clone();
    bad2.combo_scaling_pct.push(-1);
    assert!(!bad2.is_well_formed());
    assert_eq!(RulesetError::Parse("bad".to_string()).message(), "ruleset parse error: bad");
}

#[test]
fn fixed_point_exact_values() {
    assert_eq!(Fixed::from_int(-7).mul_pct(50).raw(), -(7 << 16) / 2);
    assert_eq!(Fixed::from_int(-3).signum(), -1);
    assert_eq!(Fixed::from_int(3).min(Fixed::from_int(2)).to_int(), 2);
    assert_eq!(Fixed::from_int(1).div(Fixed::from_int(3)).raw(), 21845);
}

#[test]
fn counting_contacts_and_warnings() {
    let mut a = FighterCounts::new();
    let mut d = FighterCounts::new();
    let strike = HitLog {
        attacker_idx: 0,
        defender_idx: 1,
        blocked: false,
        damage: 27,
        hard_knockdown: false,
        is_throw: false,
        is_tech: false,
        kind: Some(AttackKind::Light),
    };
    assert!(tally_hit(&mut a, &mut d, &strike, 30, 1));
    assert_eq!(a.attacks.light.landed, 1);
    assert_eq!(a.damage.dealt, 27);
    assert_eq!(a.damage.scaled_away, 3);
    assert_eq!(d.damage.taken, 27);
    let chip = HitLog { blocked: true, damage: 3, ..strike };
    assert!(!tally_hit(&mut a, &mut d, &chip, 30, 1));
    assert_eq!(a.attacks.light.blocked, 1);
    assert_eq!(a.damage.chip_dealt, 3);
    tally_warning(&mut a, &WarnLog { fighter_idx: 0, second_warning: true });
    assert_eq!((a.passivity.warnings, a.passivity.penalties), (1, 1));
    credit_combo(&mut a, 4);
    assert_eq!((a.combo_count, a.combo_longest, a.combo_length_sum), (1, 4, 4));
    let mut total = FighterCounts::new();
    merge_into(&mut total, &a);
    merge_into(&mut total, &a);
    assert_eq!(total.damage.dealt, 54);
    assert_eq!(total.combo_longest, 4);
    let mut counts = AttackCounts::new();
    counts.light = AttackTypeCounts { attempted: 5, landed: 1, blocked: 1, whiffed: 0 };
    counts.finalize_whiffs();
    assert_eq!(counts.light.whiffed, 3);
}

#[test]
fn watching_a_fighter_counts_edges() {
    let mut c = FighterCounts::new();
    let mut w = Watch::new();
    let v = view(FighterState::AttackStartup, 100);
    let credit = watch_fighter(&mut c, &mut w, v, Some(AttackKind::Heavy), 100);
    assert_eq!(credit, None);
    assert_eq!(c.attacks.heavy.attempted, 1);
    assert_eq!(c.total_ticks, 1);
    assert_eq!(c.state_tick_counts[8], 1);
    assert_eq!(c.guard.damage_taken, 0);
    assert_eq!(c.surge.gained, 0);
    w.prev_state = Some(FighterState::AttackStartup);
    watch_fighter(&mut c, &mut w, v, Some(AttackKind::Heavy), 100);
    assert_eq!(c.attacks.heavy.attempted, 1);
    assert_eq!(c.state_tick_counts[8], 2);
}

#[test]
fn spacing_bands_and_round_labels() {
    let w = Fixed::from_int(1200);
    assert_eq!(distance_bucket(Fixed::from_int(300), Fixed::from_int(900), w), 3);
    assert_eq!(distance_bucket(Fixed::from_int(0), Fixed::from_int(1200), w), 7);
    assert_eq!(distance_bucket(Fixed::from_int(500), Fixed::from_int(500), w), 0);
    let sd = Some(MatchResult { winner: Some(0), reason: MatchEndReason::SuddenDeath });
    assert_eq!(round_ending(RoundOutcome::Ko { winner: 0 }, sd), "sudden_death");
    assert_eq!(round_ending(RoundOutcome::DoubleKo, None), "double_ko");
    assert_eq!(round_ending(RoundOutcome::Timeout { winner: None }, None), "timeout");
}

#[test]
fn tournament_tallies() {
    let mut cell = PairCell::new();
    cell.record(Some(0));
    cell.record(Some(1));
    cell.record(None);
    cell.record(Some(0));
    assert_eq!((cell.wins_a, cell.wins_b, cell.draws), (2, 1, 1));
    let mut agg = Aggregate::new();
    agg.record_round("ko", 100, &[1, 2, 3, 4, 5, 6, 7, 8]);
    agg.record_round("sudden_death", 50, &[0; 8]);
    agg.record_round("other", 5, &[0; 8]);
    assert_eq!((agg.rounds, agg.ko, agg.sudden_death, agg.timeout), (3, 1, 1, 0));
    assert_eq!(agg.round_duration_ticks_sum, 155);
    assert_eq!(agg.total_ticks, 36);
    assert_eq!(agg.distance_ticks[7], 8);
}

#[test]
fn trades_need_contact_from_both_fighters() {
    let hit = |attacker_idx: usize, is_tech: bool| HitLog {
        attacker_idx,
        defender_idx: 1 - attacker_idx,
        blocked: false,
        damage: if is_tech { 0 } else { 30 },
        hard_knockdown: false,
        is_throw: is_tech,
        is_tech,
        kind: None,
    };
    assert!(is_trade(&vec![hit(0, false), hit(1, false)]));
    assert!(!is_trade(&vec![hit(0, false)]));
    assert!(!is_trade(&vec![hit(0, true), hit(1, true)]));
    assert!(!is_trade(&vec![hit(0, false), hit(1, true)]));
    assert!(!is_trade(&vec![]));
}

#[test]
fn fixed_values_read_as_four_place_decimals() {
    assert_eq!(Fixed::from_int(5).to_decimal(), "5.0000");
    assert_eq!(Fixed::from_raw(32768).to_decimal(), "0.5000");
    assert_eq!(Fixed::from_raw(1).to_decimal(), "0.0000");
    assert_eq!(Fixed::from_raw(3 * 65536 + 6554).to_decimal(), "3.1000");
    assert_eq!(Fixed::from_raw(-98304).to_decimal(), "-2.5000");
    assert_eq!(Fixed::from_raw(i32::MIN).to_decimal(), "-32768.0000");
    assert_eq!(Fixed::from_raw(i32::MAX).to_decimal(), "32767.9999");
    assert_eq!(Fixed::from_raw(65536 * 12 + 655).to_decimal(), "12.0099");
}

#[test]
fn compound_assignment_adds_and_subtracts_with_wraparound() {
    let mut a = Fixed::from_int(3);
    a += Fixed::from_int(2);
    assert_eq!(a, Fixed::from_int(5));
    a -= Fixed::from_int(7);
    assert_eq!(a, Fixed::from_int(-2));
    let mut w = Fixed::from_raw(i32::MAX);
    w += Fixed::from_raw(1);
    assert_eq!(w, Fixed::from_raw(i32::MIN));
    w -= Fixed::from_raw(1);
    assert_eq!(w, Fixed::from_raw(i32::MAX));
}

#[test]
fn observations_lag_by_the_observation_delay() {
    let delayed = default_ruleset();
    let d = delayed.observation_delay as usize;
    assert!(d > 0);
    let mut raw = kadu::ruleset::default_raw_ruleset();
    raw.observation_delay = 0;
    let prompt = Ruleset::from_raw(&raw);
    let mut late = Sim::new(delayed, 17);
    let mut now = Sim::new(prompt, 17);
    let mut seen_now = vec![now.observation(0)];
    for t in 0..400usize {
        let intents = if t % 7 < 4 { [Intent::Move(Direction::Forward), Intent::Nothing] } else { [Intent::Attack(AttackKind::Light), Intent::Block] };
        late.tick(intents);
        now.tick(intents);
        seen_now.push(now.observation(0));
        let n = t + 1;
        assert_eq!(late.observation(0), seen_now[n.saturating_sub(d)], "after {n} ticks");
    }
}

#[test]
fn to_int_truncates_toward_zero() {
    assert_eq!(Fixed::from_raw(-32768).to_int(), 0);
    assert_eq!(Fixed::from_raw(98304).to_int(), 1);
    assert_eq!(Fixed::from_raw(-98304).to_int(), -1);
    assert_eq!(Fixed::from_raw(-65536).to_int(), -1);
    assert_eq!(Fixed::from_raw(i32::MIN).to_int(), -32768);
    assert_eq!(Fixed::from_raw(i32::MAX).to_int(), 32767);
}

#[test]
fn start_separation_is_drawn_from_the_seed_within_the_jitter() {
    let rs = default_ruleset();
    let mut seen = std::collections::BTreeSet::new();
    for seed in 0..40u64 {
        let sim = Sim::new(rs.clone(), seed);
        let d = sim.fighter_view(1).position.x - sim.fighter_view(0).position.x;
        let again = Sim::new(rs.clone(), seed);
        assert_eq!(again.fighter_view(1).position.x - again.fighter_view(0).position.x, d);
        let off = d.to_int() - 600;
        assert!((-80..=80).contains(&off), "seed {seed}: offset {off}");
        seen.insert(d.raw());
    }
    assert!(seen.len() > 5, "the separation should vary with the seed");
    let mut raw = kadu::ruleset::default_raw_ruleset();
    raw.start_separation_jitter = 0;
    let fixed = Ruleset::from_raw(&raw);
    for seed in 0..10u64 {
        let sim = Sim::new(fixed.clone(), seed);
        assert_eq!(sim.fighter_view(0).position.x, Fixed::from_int(300));
        assert_eq!(sim.fighter_view(1).position.x, Fixed::from_int(900));
    }
}

#[test]
fn fnv1a_from_a_fresh_hasher_matches_known_values() {
    assert_eq!(Fnv1a::new().finish(), 0xcbf29ce484222325);
    let mut a = Fnv1a::new();
    a.write_u8(b'a');
    assert_eq!(a.finish(), 0xaf63dc4c8601ec8c);
    let mut f = Fnv1a::new();
    for b in b"foobar" {
        f.write_u8(*b);
    }
    assert_eq!(f.finish(), 0x85944171f73967e8);
}

#[test]
fn same_seed_and_intents_give_the_same_run() {
    let rs = default_ruleset();
    let mut a = Sim::new(rs.clone(), 23);
    let mut b = Sim::new(rs.clone(), 23);
    for t in 0..600u32 {
        let intents = match t % 5 {
            0 => [Intent::Move(Direction::Forward), Intent::Attack(AttackKind::Medium)],
            1 => [Intent::Attack(AttackKind::Light), Intent::Block],
            2 => [Intent::Throw, Intent::Move(Direction::Back)],
            _ => [Intent::Nothing, Intent::Move(Direction::Forward)],
        };
        let ra = a.tick(intents);
        let rb = b.tick(intents);
        assert_eq!(ra.state_hash, rb.state_hash);
        assert_eq!(ra.chain_hash, rb.chain_hash);
        assert_eq!(a.chain_hash(), b.chain_hash());
        assert_eq!(a.global_tick(), b.global_tick());
        assert_eq!(a.fighter_view(0), b.fighter_view(0));
        assert_eq!(a.fighter_view(1), b.fighter_view(1));
    }
}

#[test]
fn an_attack_runs_through_its_phases_on_schedule() {
    let rs = default_ruleset();
    let m = rs.light;
    let mut f = kadu::fighter::Fighter::new(Vec2::new(Fixed::from_int(300), Fixed::zero()), Facing::Right, 1000, 100);
    f.state = FighterState::AttackStartup;
    f.state_tick = 0;
    f.attack_kind = Some(AttackKind::Light);
    let total = m.startup + m.active + m.recovery;
    for n in 1..=total {
        kadu::state_machine::advance(&mut f, &rs);
        if n < m.startup {
            assert_eq!(f.state, FighterState::AttackStartup, "tick {n}");
        } else if n < m.startup + m.active {
            assert_eq!(f.state, FighterState::AttackActive, "tick {n}");
        } else if n < total {
            assert_eq!(f.state, FighterState::AttackRecovery, "tick {n}");
        }
    }
    assert_eq!(f.state, FighterState::Idle);
    assert_eq!(f.attack_kind, None);
    assert_eq!(f.state_tick, 0);
}

#[test]
fn a_recording_keeps_the_result_of_the_tick_that_ended_the_match() {
    let mut rec = Recorder::new(default_ruleset(), String::from("text"), 5, "rusher", "dummy");
    let mut rusher = Rusher::new();
    let mut ended = None;
    let mut t = 0u32;
    while !rec.is_over() && t < 200_000 {
        let o = rec.sim.observation(0);
        let i0 = rusher.decide(&o);
        let report = rec.tick([i0, Intent::Nothing]);
        if report.match_ended.is_some() {
            assert!(ended.is_none());
            ended = report.match_ended;
        }
        t += 1;
    }
    let ended = ended.expect("the rusher finishes the dummy");
    let replay = rec.into_replay();
    assert_eq!(replay.intent_stream.len(), t as usize);
    assert_eq!(replay.agent_names, [String::from("rusher"), String::from("dummy")]);
    assert_eq!(replay.ruleset_toml, "text");
    assert_eq!(replay.ruleset_hash, default_ruleset().content_hash());
    let kept = replay.result.expect("a finished match keeps its result");
    assert_eq!(kept.winner, ended.winner);
    assert_eq!(kept.reason, reason_str(ended.reason));
}

#[test]
fn track_columns_scale_and_clamp_to_the_track() {
    let w = Fixed::from_int(1200);
    assert_eq!(TRACK_COLUMNS, 60);
    assert_eq!(track_column(Fixed::from_int(300), w), 15);
    assert_eq!(track_column(Fixed::from_int(900), w), 45);
    assert_eq!(track_column(Fixed::from_int(1199), w), 59);
    assert_eq!(track_column(Fixed::from_int(1300), w), 59);
    assert_eq!(track_column(Fixed::from_int(-30), w), 0);
    assert_eq!(track_column(Fixed::from_raw(98304), Fixed::zero()), 59);
    assert_eq!(track_column(Fixed::zero(), Fixed::zero()), 0);
}

#[test]
fn a_round_lasts_as_long_as_its_longer_tick_count() {
    let mut t = kadu::tally::RoundTally::new();
    assert_eq!(t.duration_ticks(), 0);
    t.f0.total_ticks = 7;
    t.f1.total_ticks = 9;
    assert_eq!(t.duration_ticks(), 9);
    t.f0.total_ticks = 12;
    assert_eq!(t.duration_ticks(), 12);
}

#[test]
fn first_divergence_follows_the_bisection_on_any_traces() {
    // Disagreement at index 1 only: the bisection probes 2 and 3, finds
    // agreement, and settles on the common length.
    assert_eq!(first_divergence(&vec![1, 2, 3, 4], &vec![1, 9, 3, 4]), 4);
    // Disagreement at 2 only: probes 2 (differs), then 1 (agrees).
    assert_eq!(first_divergence(&vec![1, 2, 3, 4], &vec![1, 2, 7, 4]), 2);
    assert_eq!(first_divergence(&vec![5, 6], &vec![5, 6, 7]), 2);
    assert_eq!(first_divergence(&vec![], &vec![1]), 0);
}

fn fighters_at(rs: &Ruleset, dx: i32) -> [kadu::fighter::Fighter; 2] {
    let a = kadu::fighter::Fighter::new(Vec2::new(Fixed::from_int(200), Fixed::zero()), Facing::Right, rs.vitality, rs.guard_max);
    let mut b = kadu::fighter::Fighter::new(Vec2::new(Fixed::from_int(200 + dx), Fixed::zero()), Facing::Left, rs.vitality, rs.guard_max);
    b.state = FighterState::Idle;
    [a, b]
}

#[test]
fn contacts_resolve_with_values_far_above_the_match_limits() {
    let mut rs = default_ruleset();
    rs.heavy.damage = 3_000_000;
    let mut fighters = fighters_at(&rs, 60);
    fighters[0].state = FighterState::AttackActive;
    fighters[0].state_tick = 1;
    fighters[0].attack_kind = Some(AttackKind::Heavy);
    fighters[1].vitality = 5_000_000;
    let logs = kadu::combat::resolve(&mut fighters, &rs, 0);
    assert_eq!(logs.len(), 1);
    assert_eq!(logs[0].damage, 3_000_000);
    assert!(!logs[0].blocked);
    assert_eq!(fighters[1].vitality, 2_000_000);
    assert_eq!(fighters[0].total_damage_dealt, 3_000_000);
    assert_eq!(fighters[0].surge, rs.surge_max);
    assert_eq!(fighters[1].surge, rs.surge_max);
}

#[test]
fn large_chip_and_guard_damage_resolve_on_block() {
    let mut rs = default_ruleset();
    rs.heavy.block_damage = 2_000_000;
    rs.heavy.guard_damage = 1_000_000;
    let mut fighters = fighters_at(&rs, 60);
    fighters[0].state = FighterState::AttackActive;
    fighters[0].state_tick = 1;
    fighters[0].attack_kind = Some(AttackKind::Heavy);
    fighters[1].state = FighterState::BlockStand;
    fighters[1].vitality = 5_000_000;
    fighters[1].guard = 5_000_000;
    let logs = kadu::combat::resolve(&mut fighters, &rs, 0);
    assert_eq!(logs.len(), 1);
    assert!(logs[0].blocked);
    assert_eq!(logs[0].damage, 2_000_000);
    assert_eq!(fighters[1].vitality, 3_000_000);
    assert_eq!(fighters[1].guard, 4_000_000);
    assert_eq!(fighters[1].state, FighterState::BlockStun);
}
