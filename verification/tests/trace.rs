use kadu::combat::HitLog;
use kadu::sim::WarnLog;
use kadu::trace::{active_hitbox, facing_key, hitbox_key, intent_keys, match_reason_key, round_outcome_key, trace_hits, trace_warnings, TraceHit, TraceWarning};
use kadu::{default_ruleset, AttackKind, Direction, Facing, FighterState, Intent, MatchEndReason, RoundOutcome, Sim};

#[test]
fn hitbox_keys_name_the_crouching_variants() {
    assert_eq!(hitbox_key(AttackKind::Light, false), "light");
    assert_eq!(hitbox_key(AttackKind::Light, true), "light_crouch");
    assert_eq!(hitbox_key(AttackKind::Medium, false), "medium");
    assert_eq!(hitbox_key(AttackKind::Medium, true), "medium_crouch");
    assert_eq!(hitbox_key(AttackKind::Heavy, true), "heavy");
    assert_eq!(hitbox_key(AttackKind::Heavy, false), "heavy");
}

#[test]
fn active_hitbox_only_during_active_frames() {
    assert_eq!(active_hitbox(FighterState::AttackActive, Some((AttackKind::Medium, true, false))), Some("medium_crouch"));
    assert_eq!(active_hitbox(FighterState::AttackStartup, Some((AttackKind::Medium, true, false))), None);
    assert_eq!(active_hitbox(FighterState::AttackRecovery, Some((AttackKind::Light, false, false))), None);
    assert_eq!(active_hitbox(FighterState::AttackActive, None), None);
}

#[test]
fn intents_are_keyed_by_action_direction_and_attack() {
    assert_eq!(intent_keys(Intent::Nothing), ("none", None, None));
    assert_eq!(intent_keys(Intent::Move(Direction::UpBack)), ("move", Some("up_back"), None));
    assert_eq!(intent_keys(Intent::Dash(Direction::Forward)), ("dash", Some("forward"), None));
    assert_eq!(intent_keys(Intent::Jump(Direction::DownForward)), ("jump", Some("down_forward"), None));
    assert_eq!(intent_keys(Intent::Attack(AttackKind::Heavy)), ("attack", None, Some("heavy")));
    assert_eq!(intent_keys(Intent::Block), ("block", None, None));
    assert_eq!(intent_keys(Intent::Crouch), ("crouch", None, None));
    assert_eq!(intent_keys(Intent::Throw), ("throw", None, None));
}

#[test]
fn endings_and_facings_are_keyed() {
    assert_eq!(round_outcome_key(RoundOutcome::Ko { winner: 1 }), "ko");
    assert_eq!(round_outcome_key(RoundOutcome::Timeout { winner: None }), "timeout");
    assert_eq!(round_outcome_key(RoundOutcome::DoubleKo), "double_ko");
    assert_eq!(match_reason_key(MatchEndReason::Ko), "ko");
    assert_eq!(match_reason_key(MatchEndReason::Timeout), "timeout");
    assert_eq!(match_reason_key(MatchEndReason::SuddenDeath), "sudden_death");
    assert_eq!(facing_key(Facing::Right), "right");
    assert_eq!(facing_key(Facing::Left), "left");
}

#[test]
fn hits_and_warnings_keep_their_facts() {
    let hits = vec![
        HitLog { attacker_idx: 0, defender_idx: 1, blocked: false, damage: 27, hard_knockdown: false, is_throw: false, is_tech: false, kind: Some(AttackKind::Light) },
        HitLog { attacker_idx: 1, defender_idx: 0, blocked: false, damage: 100, hard_knockdown: true, is_throw: true, is_tech: false, kind: None },
    ];
    let traced = trace_hits(&hits);
    assert_eq!(traced.len(), 2);
    assert_eq!(traced[0].kind.as_deref(), Some("light"));
    assert_eq!(traced[0].damage, 27);
    assert_eq!((traced[1].attacker, traced[1].defender, traced[1].is_throw, traced[1].hard_knockdown), (1, 0, true, true));
    assert_eq!(traced[1].kind, None);
    let single = TraceHit::from_hit(&hits[0]);
    assert_eq!((single.attacker, single.defender, single.blocked), (0, 1, false));

    let warnings = vec![WarnLog { fighter_idx: 1, second_warning: true }];
    assert_eq!(trace_warnings(&warnings), vec![TraceWarning { fighter_idx: 1, second_warning: true }]);
}

#[test]
fn no_attack_variant_before_the_first_attack() {
    let sim = Sim::new(default_ruleset(), 9);
    assert_eq!(sim.fighter_attack_variant(0), None);
    assert_eq!(sim.fighter_attack_variant(1), None);
}

#[test]
fn attack_variant_reports_the_attack_started() {
    let mut sim = Sim::new(default_ruleset(), 9);
    let mut seen = None;
    for _ in 0..400 {
        sim.tick([Intent::Attack(AttackKind::Medium), Intent::Nothing]);
        if let Some(v) = sim.fighter_attack_variant(0) {
            seen = Some(v);
            break;
        }
    }
    assert_eq!(seen, Some((AttackKind::Medium, false, false)));
    assert_eq!(sim.fighter_attack_variant(1), None);
}
