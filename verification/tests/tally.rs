use kadu::combat::HitLog;
use kadu::fixed::{Fixed, Vec2};
use kadu::sim::WarnLog;
use kadu::tally::{RoundTally, TallyError};
use kadu::{default_ruleset, AttackKind, Facing, FighterState, FighterView};

fn view(x: i32, state: FighterState, combo_count: u8) -> FighterView {
    FighterView {
        position: Vec2::new(Fixed::from_int(x), Fixed::zero()),
        velocity: Vec2::zero(),
        facing: Facing::Right,
        vitality: 1000,
        surge: 0,
        guard: 100,
        state,
        state_tick: 0,
        combo_count,
        airborne: false,
    }
}

fn strike(attacker_idx: usize, defender_idx: usize, damage: i32, kind: Option<AttackKind>) -> HitLog {
    HitLog { attacker_idx, defender_idx, blocked: false, damage, hard_knockdown: false, is_throw: false, is_tech: false, kind }
}

fn fresh() -> RoundTally {
    let mut t = RoundTally::new();
    t.w0.prev_guard = 100;
    t.w1.prev_guard = 100;
    t
}

#[test]
fn freeze_ticks_only_remember_states() {
    let rs = default_ruleset();
    let mut t = fresh();
    let views = [view(300, FighterState::RoundFreeze, 0), view(900, FighterState::RoundFreeze, 0)];
    assert_eq!(t.tally_tick(views, [None, None], &vec![], &vec![], &rs), Ok(()));
    assert_eq!(t.f0.total_ticks, 0);
    assert_eq!(t.distance_histogram, [0; 8]);
    assert_eq!(t.w0.prev_state, Some(FighterState::RoundFreeze));
    assert_eq!(t.w1.prev_state, Some(FighterState::RoundFreeze));
}

#[test]
fn a_landed_strike_is_counted_for_both_sides() {
    let rs = default_ruleset();
    let mut t = fresh();
    let views = [view(300, FighterState::AttackActive, 0), view(360, FighterState::HitStun, 1)];
    let hits = vec![strike(0, 1, 30, Some(AttackKind::Light))];
    assert_eq!(t.tally_tick(views, [Some(AttackKind::Light), None], &hits, &vec![], &rs), Ok(()));
    assert_eq!(t.f0.total_ticks, 1);
    assert_eq!(t.f1.total_ticks, 1);
    assert_eq!(t.f0.attacks.light.landed, 1);
    assert_eq!(t.f0.damage.dealt, 30);
    assert_eq!(t.f1.damage.taken, 30);
    assert_eq!(t.f0.damage.scaled_away, 0);
    assert_eq!(t.w1.combo_attacker, Some(0));
    assert_eq!(t.distance_histogram.iter().sum::<u32>(), 1);
    assert_eq!(t.distance_histogram[0], 1);
    assert_eq!(t.trades, 0);
}

#[test]
fn both_fighters_connecting_is_a_trade_and_warnings_count() {
    let rs = default_ruleset();
    let mut t = fresh();
    let views = [view(300, FighterState::HitStun, 1), view(360, FighterState::HitStun, 1)];
    let hits = vec![strike(0, 1, 30, Some(AttackKind::Light)), strike(1, 0, 63, Some(AttackKind::Medium))];
    let warnings = vec![WarnLog { fighter_idx: 1, second_warning: true }];
    assert_eq!(t.tally_tick(views, [None, None], &hits, &warnings, &rs), Ok(()));
    assert_eq!(t.trades, 1);
    assert_eq!(t.f1.damage.scaled_away, 7);
    assert_eq!(t.f1.passivity.warnings, 1);
    assert_eq!(t.f1.passivity.penalties, 1);
}

#[test]
fn a_finished_combo_is_credited_to_its_attacker() {
    let rs = default_ruleset();
    let mut t = fresh();
    t.w1.prev_combo_count = 3;
    t.w1.combo_attacker = Some(0);
    let views = [view(300, FighterState::Idle, 0), view(360, FighterState::Idle, 0)];
    assert_eq!(t.tally_tick(views, [None, None], &vec![], &vec![], &rs), Ok(()));
    assert_eq!(t.f0.combo_count, 1);
    assert_eq!(t.f0.combo_longest, 3);
    assert_eq!(t.f0.combo_length_sum, 3);
    assert_eq!(t.w1.combo_attacker, None);
}

#[test]
fn impossible_ticks_are_refused() {
    let rs = default_ruleset();
    let views = [view(300, FighterState::Idle, 0), view(360, FighterState::Idle, 0)];
    let mut t = fresh();
    assert_eq!(t.tally_tick(views, [None, None], &vec![strike(0, 1, 30, None)], &vec![], &rs), Err(TallyError::MissingKind));
    let mut t = fresh();
    assert_eq!(t.tally_tick(views, [None, None], &vec![strike(0, 0, 30, Some(AttackKind::Light))], &vec![], &rs), Err(TallyError::BadFighter));
    let mut t = fresh();
    assert_eq!(t.tally_tick(views, [None, None], &vec![], &vec![WarnLog { fighter_idx: 2, second_warning: false }], &rs), Err(TallyError::BadFighter));
    let mut t = fresh();
    let mut bad = views;
    bad[1].guard = -1;
    assert_eq!(t.tally_tick(bad, [None, None], &vec![], &vec![], &rs), Err(TallyError::ValueOutOfRange));
    let mut t = fresh();
    t.trades = u32::MAX;
    let trade = vec![strike(0, 1, 30, Some(AttackKind::Light)), strike(1, 0, 30, Some(AttackKind::Light))];
    assert_eq!(t.tally_tick(views, [None, None], &trade, &vec![], &rs), Err(TallyError::CounterOverflow));
}
