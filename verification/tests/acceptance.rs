//! One dedicated test per rule that must break the build if the rule is
//! removed, plus the round ending variants.
use kadu::combat;
use kadu::fighter::Fighter;
use kadu::fixed::{Fixed, Vec2};
use kadu::sim::TickReport;
use kadu::{default_ruleset, AttackKind, Direction, Facing, FighterState, Intent, MatchEndReason, Ruleset, Sim};

fn make_pair(rs: &Ruleset, dx: i32) -> [Fighter; 2] {
    let a = Fighter::new(Vec2::new(Fixed::from_int(200), Fixed::zero()), Facing::Right, rs.vitality, rs.guard_max);
    let mut b = Fighter::new(Vec2::new(Fixed::from_int(200 + dx), Fixed::zero()), Facing::Left, rs.vitality, rs.guard_max);
    b.state = FighterState::Idle;
    [a, b]
}

fn set_attacking(f: &mut Fighter, kind: AttackKind, crouching: bool, jumping: bool) {
    f.state = FighterState::AttackActive;
    f.state_tick = 1;
    f.attack_kind = Some(kind);
    f.attack_crouching = crouching;
    f.attack_jumping = jumping;
    f.attack_hit_registered = false;
}

fn run_scripted(rs: Ruleset, seed: u64, mut policy: impl FnMut(&Sim) -> [Intent; 2], max_ticks: u32) -> (Sim, Option<TickReport>) {
    let mut sim = Sim::new(rs, seed);
    let mut last_report = None;
    for _ in 0..max_ticks {
        let intents = policy(&sim);
        let report = sim.tick(intents);
        let over = sim.is_over();
        last_report = Some(report);
        if over {
            break;
        }
    }
    (sim, last_report)
}

fn attacker_vs_dummy_policy(kind: AttackKind) -> impl FnMut(&Sim) -> [Intent; 2] {
    move |sim: &Sim| {
        let obs = sim.observation(0);
        let mine = obs.me.state;
        let intent0 = if mine.accepts_new_intent() {
            if obs.distance.to_int() > 120 {
                Intent::Move(Direction::Forward)
            } else {
                Intent::Attack(kind)
            }
        } else {
            Intent::Nothing
        };
        [intent0, Intent::Nothing]
    }
}

#[test]
fn round_ends_in_ko() {
    let rs = default_ruleset();
    let (_, report) = run_scripted(rs, 1, attacker_vs_dummy_policy(AttackKind::Heavy), 20_000);
    let report = report.expect("at least one tick ran");
    let m = report.match_ended.expect("match should have ended");
    assert_eq!(m.winner, Some(0));
    assert_eq!(m.reason, MatchEndReason::Ko);
}

#[test]
fn damage_scaling_follows_the_combo_table() {
    let rs = default_ruleset();
    let expected_pct = [100, 90, 80, 70, 60, 50, 50, 50];
    for (hit_number, pct) in expected_pct.iter().enumerate() {
        let mut fighters = make_pair(&rs, 60);
        set_attacking(&mut fighters[0], AttackKind::Light, false, false);
        fighters[1].vitality = 1000;
        fighters[1].combo_count = hit_number as u8;
        let logs = combat::resolve(&mut fighters, &rs, 0);
        let hit = logs.iter().find(|h| h.attacker_idx == 0).expect("hit should land");
        let expected = (rs.light.damage * pct) / 100;
        assert_eq!(hit.damage, expected, "hit #{hit_number}");
    }
}

#[test]
fn fifteenth_hit_forces_a_hard_knockdown() {
    let rs = default_ruleset();
    let mut fighters = make_pair(&rs, 60);
    set_attacking(&mut fighters[0], AttackKind::Light, false, false);
    fighters[1].vitality = 100_000;
    fighters[1].combo_count = (rs.combo_hard_knockdown_hit - 1) as u8;
    let logs = combat::resolve(&mut fighters, &rs, 0);
    let hit = logs.iter().find(|h| h.attacker_idx == 0).unwrap();
    assert!(hit.hard_knockdown);
    assert_eq!(fighters[1].state, FighterState::Knockdown);
}

#[test]
fn chip_damage_never_drops_vitality_below_one() {
    let rs = default_ruleset();
    let mut fighters = make_pair(&rs, 60);
    set_attacking(&mut fighters[0], AttackKind::Medium, false, false);
    fighters[1].state = FighterState::BlockStand;
    fighters[1].vitality = 3;
    combat::resolve(&mut fighters, &rs, 0);
    assert_eq!(fighters[1].vitality, 1);
}

#[test]
fn guard_reaching_zero_enters_guard_crush() {
    let rs = default_ruleset();
    let mut fighters = make_pair(&rs, 60);
    set_attacking(&mut fighters[0], AttackKind::Medium, false, false);
    fighters[1].state = FighterState::BlockStand;
    fighters[1].guard = 5;
    combat::resolve(&mut fighters, &rs, 0);
    assert_eq!(fighters[1].state, FighterState::GuardCrush);
    assert_eq!(fighters[1].guard, 0);
}

#[test]
fn simultaneous_throws_within_tech_window_deal_no_damage() {
    let rs = default_ruleset();
    let mut fighters = make_pair(&rs, 60);
    for f in fighters.iter_mut() {
        f.state = FighterState::ThrowAttempt;
        f.state_tick = rs.throw.startup + 1;
        f.last_throw_attempt_tick = Some(0);
        f.attack_hit_registered = false;
    }
    let v0_before = fighters[0].vitality;
    let v1_before = fighters[1].vitality;
    let x0_before = fighters[0].position.x;
    let x1_before = fighters[1].position.x;
    let logs = combat::resolve(&mut fighters, &rs, 0);
    assert!(
        logs.iter().all(|h| h.is_tech && h.damage == 0),
        "a teched throw should log only zero-damage tech events, got {:?}",
        logs.iter().map(|h| (h.attacker_idx, h.is_tech, h.damage)).collect::<Vec<_>>()
    );
    assert_eq!(logs.len(), 2, "expected one tech entry per fighter");
    assert_eq!(fighters[0].vitality, v0_before);
    assert_eq!(fighters[1].vitality, v1_before);
    assert!(fighters[0].position.x < x0_before);
    assert!(fighters[1].position.x > x1_before);
}
