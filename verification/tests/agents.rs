use kadu::agents::{Dummy, Random, Runner, Rusher, Spammer, Turtle};
use kadu::ruleset::default_raw_ruleset;
use kadu::{default_ruleset, Agent, FighterState, Intent, Ruleset, Sim};

fn ruleset_with(edit: impl FnOnce(&mut kadu::ruleset::RawRuleset)) -> Ruleset {
    let mut raw = default_raw_ruleset();
    edit(&mut raw);
    Ruleset::from_raw(&raw)
}

struct MatchSummary {
    winner: Option<u8>,
    guard_crushes_a: u32,
    /// (combo hit number after this hit, damage dealt) for every unblocked,
    /// non-throw strike, across both fighters.
    hit_damages: Vec<(u8, i32)>,
    max_combo: u8,
    warnings: u32,
    second_warnings: u32,
}

fn play_match<A: Agent, B: Agent>(mut agent_a: A, mut agent_b: B, ruleset: Ruleset, seed: u64) -> MatchSummary {
    let reflex_interval = ruleset.reflex_interval;
    let mut sim = Sim::new(ruleset, seed);
    let mut last_intents = [Intent::Nothing, Intent::Nothing];
    let mut guard_crushes_a = 0u32;
    let mut hit_damages = Vec::new();
    let mut max_combo = 0u8;
    let mut warnings = 0u32;
    let mut second_warnings = 0u32;
    let mut winner = None;
    for _ in 0..200_000u32 {
        let tick = sim.global_tick();
        if tick % reflex_interval == 0 {
            let obs_a = sim.observation(0);
            let obs_b = sim.observation(1);
            last_intents = [agent_a.decide(&obs_a), agent_b.decide(&obs_b)];
        }
        let report = sim.tick(last_intents);
        for h in &report.hits {
            let defender_view = sim.fighter_view(h.defender_idx);
            if h.blocked && defender_view.state == FighterState::GuardCrush && h.defender_idx == 0 {
                guard_crushes_a += 1;
            }
            if !h.blocked && !h.is_throw {
                max_combo = max_combo.max(defender_view.combo_count);
                hit_damages.push((defender_view.combo_count, h.damage));
            }
        }
        warnings += report.warnings.len() as u32;
        second_warnings += report.warnings.iter().filter(|w| w.second_warning).count() as u32;
        if let Some(m) = report.match_ended {
            winner = m.winner;
            break;
        }
        if report.round_ended.is_some() {
            agent_a.reset();
            agent_b.reset();
        }
        if sim.global_tick() > 150_000 {
            break;
        }
    }
    MatchSummary { winner, guard_crushes_a, hit_damages, max_combo, warnings, second_warnings }
}

#[test]
fn turtle_gets_guard_crushed() {
    let rs = ruleset_with(|raw| raw.start_separation = 120);
    let n = 100;
    let mut turtle_wins = 0;
    let mut matches_with_crush = 0;
    for seed in 0..n {
        let summary = play_match(Turtle::new(), Spammer::new(), rs.clone(), seed);
        if summary.guard_crushes_a > 0 {
            matches_with_crush += 1;
        }
        if summary.winner == Some(0) {
            turtle_wins += 1;
        }
    }
    let crush_rate = matches_with_crush as f64 / n as f64;
    let turtle_win_rate = turtle_wins as f64 / n as f64;
    assert!(crush_rate >= 0.9, "expected Guard Crush in nearly every match, got {crush_rate:.2}");
    assert!(turtle_win_rate < 0.10, "Turtle win rate {turtle_win_rate:.2} >= 10%: blocking is free, anti-turtling is broken");
}

#[test]
fn runner_receives_passivity_penalty() {
    let rs = ruleset_with(|raw| raw.passivity_warning_ticks = 90);
    let n = 100;
    let mut any_warning = 0;
    let mut any_second_warning = 0;
    for seed in 0..n {
        let summary = play_match(Runner::new(), Dummy, rs.clone(), seed);
        if summary.warnings > 0 {
            any_warning += 1;
        }
        if summary.second_warnings > 0 {
            any_second_warning += 1;
        }
    }
    assert!(any_warning as f64 / n as f64 >= 0.9, "expected passivity warnings against a corner-turtling Runner in nearly every match");
    assert!(any_second_warning as f64 / n as f64 >= 0.5, "expected the vitality penalty (2nd warning) to actually land in a majority of matches");
}

#[test]
fn spammer_combos_are_capped() {
    let rs = ruleset_with(|raw| raw.start_separation = 120);
    let n = 100;
    for seed in 0..n {
        let summary = play_match(Spammer::new(), Dummy, rs.clone(), seed);
        assert!(summary.max_combo <= 15, "combo exceeded the 15-hit hard-knockdown cap: {}", summary.max_combo);
        let light_damage = default_ruleset().light.damage;
        for (hit_number, damage) in &summary.hit_damages {
            let scale_pct = match hit_number {
                1 => 100,
                2 => 90,
                3 => 80,
                4 => 70,
                5 => 60,
                _ => 50,
            };
            let expected = (light_damage * scale_pct) / 100;
            assert!(
                *damage > 0 && *damage <= expected,
                "hit #{hit_number} dealt {damage}, expected <= {expected} ({scale_pct}% of {light_damage})"
            );
        }
    }
}

#[test]
fn rusher_beats_random() {
    let n = 100;
    let mut rusher_wins = 0;
    for seed in 0..n {
        let summary = play_match(Rusher::new(), Random::new(seed, 1), default_ruleset(), seed);
        if summary.winner == Some(0) {
            rusher_wins += 1;
        }
    }
    let rate = rusher_wins as f64 / n as f64;
    assert!(rate > 0.70, "Rusher win rate against Random was {rate:.2}, expected > 70% (Rusher would be broken)");
}

#[test]
fn random_beats_dummy() {
    let n = 100;
    let mut random_wins = 0;
    for seed in 0..n {
        let summary = play_match(Random::new(seed, 0), Dummy, default_ruleset(), seed);
        if summary.winner == Some(0) {
            random_wins += 1;
        }
    }
    let rate = random_wins as f64 / n as f64;
    assert!(rate > 0.90, "Random win rate against Dummy was {rate:.2}, expected > 90% (any agent should crush a no-op opponent)");
}
