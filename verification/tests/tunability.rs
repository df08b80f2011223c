//! Round and bout endings that need a tuned ruleset, and the promise that a
//! ruleset value changes behaviour without recompiling. Tuned rulesets are
//! written as edits of the bundled default document.
use kadu::combat;
use kadu::fighter::Fighter;
use kadu::fixed::{Fixed, Vec2};
use kadu::frames::compute;
use kadu::ruleset::{default_raw_ruleset, RawRuleset};
use kadu::sim::TickReport;
use kadu::{default_ruleset, AttackKind, Direction, Facing, FighterState, Intent, MatchEndReason, RoundOutcome, Ruleset, Sim};

fn ruleset_with(edit: impl FnOnce(&mut RawRuleset)) -> Ruleset {
    let mut raw = default_raw_ruleset();
    edit(&mut raw);
    Ruleset::from_raw(&raw)
}

fn make_pair(rs: &Ruleset, dx: i32) -> [Fighter; 2] {
    let a = Fighter::new(Vec2::new(Fixed::from_int(200), Fixed::zero()), Facing::Right, rs.vitality, rs.guard_max);
    let mut b = Fighter::new(Vec2::new(Fixed::from_int(200 + dx), Fixed::zero()), Facing::Left, rs.vitality, rs.guard_max);
    b.state = FighterState::Idle;
    [a, b]
}

fn set_attacking(f: &mut Fighter, kind: AttackKind) {
    f.state = FighterState::AttackActive;
    f.state_tick = 1;
    f.attack_kind = Some(kind);
    f.attack_crouching = false;
    f.attack_jumping = false;
    f.attack_hit_registered = false;
}

fn run_scripted(rs: Ruleset, seed: u64, mut policy: impl FnMut(&Sim) -> [Intent; 2], max_ticks: u32) -> (Sim, Option<TickReport>) {
    let mut sim = Sim::new(rs, seed);
    let mut last_report = None;
    for _ in 0..max_ticks {
        let intents = policy(&sim);
        let report = sim.tick(intents);
        let over = sim.is_over();
        last_report = Some(report);
        if over {
            break;
        }
    }
    (sim, last_report)
}

#[test]
fn reproduces_known_block_advantage_values_for_original_light() {
    let rs = ruleset_with(|raw| raw.light.recovery = 7);
    let rows = compute(&rs);
    let by_name = |name: &str| rows.iter().find(|r| r.name == name).unwrap();
    assert_eq!(by_name("light").advantage_on_block, Some(0));
    assert_eq!(by_name("medium").advantage_on_block, Some(-4));
    assert_eq!(by_name("heavy").advantage_on_block, Some(-9));
}

#[test]
fn changing_value_changes_hash() {
    let modified = ruleset_with(|raw| raw.light.damage = 31);
    assert_ne!(modified.content_hash(), default_ruleset().content_hash());
    assert_eq!(modified.light.damage, 31);
}

#[test]
fn round_times_out_with_percentage_winner() {
    let rs = ruleset_with(|raw| {
        raw.round_ticks = 260;
        raw.rounds_to_win = 1;
    });
    let mut hit_landed = false;
    let (_, report) = run_scripted(
        rs,
        2,
        move |sim: &Sim| {
            let obs = sim.observation(0);
            if hit_landed {
                return [Intent::Nothing, Intent::Nothing];
            }
            let intent0 = if obs.me.state.accepts_new_intent() {
                if obs.distance.to_int() > 120 {
                    Intent::Move(Direction::Forward)
                } else {
                    hit_landed = true;
                    Intent::Attack(AttackKind::Light)
                }
            } else {
                Intent::Nothing
            };
            [intent0, Intent::Nothing]
        },
        5000,
    );
    let report = report.expect("ticks ran");
    let m = report.match_ended.expect("match should have ended by timeout");
    assert_eq!(m.reason, MatchEndReason::Timeout);
    assert_eq!(m.winner, Some(0));
}

#[test]
fn simultaneous_lethal_trade_is_a_double_ko() {
    let rs = ruleset_with(|raw| {
        raw.vitality = 50;
        raw.start_separation = 100;
        raw.start_separation_jitter = 0;
    });
    let mut sim = Sim::new(rs, 3);
    let mut round_ended = None;
    for _ in 0..2000 {
        let report = sim.tick([Intent::Attack(AttackKind::Heavy), Intent::Attack(AttackKind::Heavy)]);
        if report.round_ended.is_some() {
            round_ended = report.round_ended;
            break;
        }
    }
    assert_eq!(round_ended, Some(RoundOutcome::DoubleKo));
}

#[test]
fn sudden_death_triggers_when_bout_reaches_max_rounds_undecided() {
    let rs = ruleset_with(|raw| {
        raw.round_ticks = 120;
        raw.intermission_ticks = 10;
        raw.opening_freeze_ticks = 5;
        raw.max_rounds = 2;
    });
    let (_, report) = run_scripted(rs, 4, |_sim: &Sim| [Intent::Nothing, Intent::Nothing], 5000);
    let report = report.expect("ticks ran");
    let m = report.match_ended.expect("match should have ended");
    assert_eq!(m.reason, MatchEndReason::SuddenDeath);
}

#[test]
fn passivity_warning_is_logged_within_the_window() {
    let rs = ruleset_with(|raw| raw.passivity_warning_ticks = 60);
    let mut sim = Sim::new(rs, 6);
    let mut hit_landed = false;
    let mut warned = false;
    for _ in 0..2000 {
        let obs = sim.observation(0);
        let intents = if !hit_landed {
            if obs.me.state.accepts_new_intent() {
                if obs.distance.to_int() > 120 {
                    [Intent::Move(Direction::Forward), Intent::Nothing]
                } else {
                    hit_landed = true;
                    [Intent::Attack(AttackKind::Light), Intent::Nothing]
                }
            } else {
                [Intent::Nothing, Intent::Nothing]
            }
        } else {
            [Intent::Nothing, Intent::Nothing]
        };
        let report = sim.tick(intents);
        if report.warnings.iter().any(|w| w.fighter_idx == 0) {
            warned = true;
            break;
        }
        if sim.is_over() {
            break;
        }
    }
    assert!(warned, "expected a passivity warning against the leading, stalling fighter");
}

#[test]
fn changing_a_ruleset_value_changes_behaviour_without_recompiling() {
    let default_rs = default_ruleset();
    let doubled_rs = ruleset_with(|raw| raw.light.damage = 60);
    assert_eq!(doubled_rs.light.damage, 60);

    let mut fighters_a = make_pair(&default_rs, 60);
    set_attacking(&mut fighters_a[0], AttackKind::Light);
    let logs_a = combat::resolve(&mut fighters_a, &default_rs, 0);

    let mut fighters_b = make_pair(&doubled_rs, 60);
    set_attacking(&mut fighters_b[0], AttackKind::Light);
    let logs_b = combat::resolve(&mut fighters_b, &doubled_rs, 0);

    assert_eq!(logs_a[0].damage * 2, logs_b[0].damage);
}
