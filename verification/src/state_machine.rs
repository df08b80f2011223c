//! Per-fighter intent application and state-machine advance. Both are total:
//! every intent and every fighter state has an explicit rule.
use crate::fighter::{attack_ok, same_tallies, spec_crouched, spec_enter, Fighter};
use crate::fixed::{add_raw, Fixed, Vec2};
use crate::ruleset::{spec_move_spec, Ruleset};
use crate::types::{
    spec_accepts_new_intent, spec_is_airborne, spec_is_attack, spec_is_backish, spec_is_forwardish,
    AttackKind, Direction, FighterState, Intent,
};
use vstd::prelude::*;

verus! {

/// Reach of a throw: the throw box's far edge.
pub open spec fn spec_throw_range(rs: Ruleset) -> i32 {
    add_raw(rs.throw_hitbox.w.0, rs.throw_hitbox.x.0)
}

/// The fighter after being asked to act on `intent` at `distance` from its
/// opponent. Fighters that are mid-action ignore every intent; intents the
/// current state cannot honour (a dash or jump in the air, a throw out of
/// range) are ignored as well.
#[verifier::opaque]
pub open spec fn spec_apply_intent(f: Fighter, intent: Intent, rs: Ruleset, distance: Fixed) -> Fighter {
    let grounded = !spec_is_airborne(f.state);
    if !spec_accepts_new_intent(f.state) {
        f
    } else {
        match intent {
            Intent::Nothing => {
                if grounded && (f.state == FighterState::WalkFwd || f.state == FighterState::WalkBack
                    || f.state == FighterState::Crouch) {
                    spec_enter(f, FighterState::Idle)
                } else {
                    f
                }
            },
            Intent::Move(dir) => {
                let target = if spec_is_forwardish(dir) {
                    FighterState::WalkFwd
                } else if spec_is_backish(dir) {
                    FighterState::WalkBack
                } else {
                    FighterState::Idle
                };
                if grounded && f.state != target {
                    spec_enter(f, target)
                } else {
                    f
                }
            },
            Intent::Crouch => {
                if grounded && f.state != FighterState::Crouch {
                    spec_enter(f, FighterState::Crouch)
                } else {
                    f
                }
            },
            Intent::Block => {
                let target = if spec_crouched(f) {
                    FighterState::BlockCrouch
                } else {
                    FighterState::BlockStand
                };
                if grounded && f.state != target {
                    spec_enter(f, target)
                } else {
                    f
                }
            },
            Intent::Dash(dir) => {
                if grounded {
                    let fwd = !spec_is_backish(dir);
                    spec_enter(
                        Fighter { dash_forward: fwd, ..f },
                        if fwd {
                            FighterState::DashFwd
                        } else {
                            FighterState::DashBack
                        },
                    )
                } else {
                    f
                }
            },
            Intent::Jump(dir) => {
                if grounded {
                    spec_enter(
                        Fighter {
                            dash_forward: !spec_is_backish(dir),
                            velocity: Vec2 { y: rs.jump_velocity_per_tick, ..f.velocity },
                            ..f
                        },
                        FighterState::JumpRise,
                    )
                } else {
                    f
                }
            },
            Intent::Attack(kind) => {
                spec_enter(
                    Fighter {
                        attack_kind: Some(kind),
                        attack_crouching: f.state == FighterState::Crouch,
                        attack_jumping: spec_is_airborne(f.state),
                        attack_hit_registered: false,
                        ..f
                    },
                    FighterState::AttackStartup,
                )
            },
            Intent::Throw => {
                if grounded && distance.0 <= spec_throw_range(rs) {
                    spec_enter(Fighter { attack_hit_registered: false, ..f }, FighterState::ThrowAttempt)
                } else {
                    f
                }
            },
        }
    }
}

/// Acting on an intent touches no meter or tally, and never starts an
/// attack without recording its kind.
pub proof fn lemma_apply_intent_frame(f: Fighter, intent: Intent, rs: Ruleset, distance: Fixed)
    requires
        attack_ok(f),
    ensures
        same_tallies(f, spec_apply_intent(f, intent, rs, distance)),
        attack_ok(spec_apply_intent(f, intent, rs, distance)),
{
    reveal(spec_apply_intent);
}

/// Apply an intent to a fighter, but only if the fighter's current state
/// permits a new action. Disallowed intents are silently ignored.
pub fn apply_intent(f: &mut Fighter, intent: Intent, rs: &Ruleset, distance: Fixed)
    ensures
        *final(f) == spec_apply_intent(*old(f), intent, *rs, distance),
{
    reveal(spec_apply_intent);
    if !f.state.accepts_new_intent() {
        return;
    }
    let grounded = f.state.is_grounded();
    match intent {
        Intent::Nothing => {
            if grounded && (f.state == FighterState::WalkFwd || f.state == FighterState::WalkBack
                || f.state == FighterState::Crouch) {
                f.enter_state(FighterState::Idle);
            }
        },
        Intent::Move(dir) => {
            if !grounded {
                return;
            }
            match dir {
                Direction::Forward | Direction::UpForward | Direction::DownForward => {
                    if f.state != FighterState::WalkFwd {
                        f.enter_state(FighterState::WalkFwd);
                    }
                },
                Direction::Back | Direction::UpBack | Direction::DownBack => {
                    if f.state != FighterState::WalkBack {
                        f.enter_state(FighterState::WalkBack);
                    }
                },
                Direction::Up | Direction::Down | Direction::Neutral => {
                    if f.state != FighterState::Idle {
                        f.enter_state(FighterState::Idle);
                    }
                },
            }
        },
        Intent::Crouch => {
            if grounded && f.state != FighterState::Crouch {
                f.enter_state(FighterState::Crouch);
            }
        },
        Intent::Block => {
            if !grounded {
                return;
            }
            let low = f.is_crouched_stance();
            let target = if low {
                FighterState::BlockCrouch
            } else {
                FighterState::BlockStand
            };
            if f.state != target {
                f.enter_state(target);
            }
        },
        Intent::Dash(dir) => {
            if !grounded {
                return;
            }
            let forward = match dir {
                Direction::Back | Direction::UpBack | Direction::DownBack => false,
                _ => true,
            };
            f.dash_forward = forward;
            f.enter_state(
                if forward {
                    FighterState::DashFwd
                } else {
                    FighterState::DashBack
                },
            );
        },
        Intent::Jump(dir) => {
            if !grounded {
                return;
            }
            f.dash_forward = match dir {
                Direction::Back | Direction::UpBack | Direction::DownBack => false,
                _ => true,
            };
            f.velocity.y = rs.jump_velocity_per_tick;
            f.enter_state(FighterState::JumpRise);
        },
        Intent::Attack(kind) => {
            f.attack_kind = Some(kind);
            f.attack_crouching = f.state == FighterState::Crouch;
            f.attack_jumping = f.state.is_airborne();
            f.attack_hit_registered = false;
            f.enter_state(FighterState::AttackStartup);
        },
        Intent::Throw => {
            if !grounded {
                return;
            }
            let range = rs.throw_hitbox.w.add(rs.throw_hitbox.x);
            if distance.0 <= range.0 {
                f.attack_hit_registered = false;
                f.enter_state(FighterState::ThrowAttempt);
            }
        },
    }
}

/// What advancing a fighter's own timers reports back.
#[derive(Debug, Clone, Copy, PartialEq, Eq, Structural)]
pub struct AdvanceEvents {
    /// The fighter is in (or just returned to) a state in which its combo
    /// counter is reset.
    pub combo_reset: bool,
}

/// The fighter after one tick of its own state machine, and whether its
/// combo counter resets.
#[verifier::opaque]
pub open spec fn spec_advance(f: Fighter, rs: Ruleset) -> (Fighter, bool) {
    let t = if f.state_tick < u16::MAX {
        (f.state_tick + 1) as u16
    } else {
        u16::MAX
    };
    let f1 = Fighter { state_tick: t, ..f };
    match f.state {
        FighterState::Idle | FighterState::WalkFwd | FighterState::WalkBack | FighterState::Crouch => (
            f1,
            true,
        ),
        FighterState::DashFwd | FighterState::DashBack => {
            if t >= rs.dash_ticks {
                (spec_enter(f1, FighterState::Idle), false)
            } else {
                (f1, false)
            }
        },
        FighterState::JumpRise => {
            if f.velocity.y.0 <= 0 {
                (spec_enter(f1, FighterState::JumpFall), false)
            } else {
                (f1, false)
            }
        },
        FighterState::JumpFall => (f1, false),
        FighterState::AttackStartup => {
            if t >= spec_move_spec(rs, f.attack_kind.unwrap()).startup {
                (spec_enter(f1, FighterState::AttackActive), false)
            } else {
                (f1, false)
            }
        },
        FighterState::AttackActive => {
            if t >= spec_move_spec(rs, f.attack_kind.unwrap()).active {
                (spec_enter(f1, FighterState::AttackRecovery), false)
            } else {
                (f1, false)
            }
        },
        FighterState::AttackRecovery => {
            if t >= spec_move_spec(rs, f.attack_kind.unwrap()).recovery {
                (spec_enter(Fighter { attack_kind: None, ..f1 }, FighterState::Idle), false)
            } else {
                (f1, false)
            }
        },
        FighterState::BlockStand | FighterState::BlockCrouch => (f1, true),
        FighterState::BlockStun => {
            if t >= f.stun_ticks_target {
                (spec_enter(f1, FighterState::BlockStand), true)
            } else {
                (f1, false)
            }
        },
        FighterState::HitStun => {
            if t >= f.stun_ticks_target {
                (spec_enter(f1, FighterState::Idle), true)
            } else {
                (f1, false)
            }
        },
        FighterState::Knockdown => {
            if t >= 30 {
                (spec_enter(f1, FighterState::WakeUp), false)
            } else {
                (f1, false)
            }
        },
        FighterState::WakeUp => {
            if t >= 20 {
                (spec_enter(f1, FighterState::Idle), true)
            } else {
                (f1, false)
            }
        },
        FighterState::GuardCrush => {
            if t >= rs.guard_crush_ticks {
                (spec_enter(Fighter { guard: rs.guard_crush_refill_to, ..f1 }, FighterState::Idle), false)
            } else {
                (f1, false)
            }
        },
        FighterState::Dizzy => {
            if t >= 60 {
                (spec_enter(f1, FighterState::Idle), false)
            } else {
                (f1, false)
            }
        },
        FighterState::ThrowAttempt => {
            if t >= rs.throw.startup + rs.throw.active {
                (spec_enter(f1, FighterState::ThrowWhiff), false)
            } else {
                (f1, false)
            }
        },
        FighterState::ThrowWhiff => {
            if t >= rs.throw.recovery {
                (spec_enter(f1, FighterState::Idle), false)
            } else {
                (f1, false)
            }
        },
        FighterState::Thrown => {
            if t >= rs.throw.recovery {
                (spec_enter(f1, FighterState::Knockdown), false)
            } else {
                (f1, false)
            }
        },
        FighterState::RoundFreeze | FighterState::RoundOver => (f1, false),
    }
}

/// A state-machine step touches no meter or tally except a guard crush's
/// refill, and keeps an attack's kind recorded while it lasts.
pub proof fn lemma_advance_frame(f: Fighter, rs: Ruleset)
    requires
        attack_ok(f),
    ensures
        ({
            let g = spec_advance(f, rs).0;
            &&& same_tallies(f, Fighter { guard: f.guard, ..g })
            &&& (g.guard == f.guard || g.guard == rs.guard_crush_refill_to)
            &&& attack_ok(g)
        }),
{
    reveal(spec_advance);
}

/// Advance the fighter's state machine by exactly one tick. Only the
/// fighter's own timers; combat may separately force a transition.
pub fn advance(f: &mut Fighter, rs: &Ruleset) -> (ev: AdvanceEvents)
    requires
        spec_is_attack(old(f).state) ==> old(f).attack_kind.is_some(),
        rs.throw.startup + rs.throw.active <= u16::MAX,
    ensures
        (*final(f), ev.combo_reset) == spec_advance(*old(f), *rs),
{
    reveal(spec_advance);
    f.state_tick = f.state_tick.saturating_add(1);
    let mut combo_reset = false;
    match f.state {
        FighterState::Idle | FighterState::WalkFwd | FighterState::WalkBack | FighterState::Crouch => {
            combo_reset = true;
        },
        FighterState::DashFwd | FighterState::DashBack => {
            if f.state_tick >= rs.dash_ticks {
                f.enter_state(FighterState::Idle);
            }
        },
        FighterState::JumpRise => {
            if f.velocity.y.0 <= 0 {
                f.enter_state(FighterState::JumpFall);
            }
        },
        FighterState::JumpFall => {},
        FighterState::AttackStartup => {
            let kind = match f.attack_kind {
                Some(k) => k,
                None => AttackKind::Light,
            };
            let m = rs.move_spec(kind);
            if f.state_tick >= m.startup {
                f.enter_state(FighterState::AttackActive);
            }
        },
        FighterState::AttackActive => {
            let kind = match f.attack_kind {
                Some(k) => k,
                None => AttackKind::Light,
            };
            let m = rs.move_spec(kind);
            if f.state_tick >= m.active {
                f.enter_state(FighterState::AttackRecovery);
            }
        },
        FighterState::AttackRecovery => {
            let kind = match f.attack_kind {
                Some(k) => k,
                None => AttackKind::Light,
            };
            let m = rs.move_spec(kind);
            if f.state_tick >= m.recovery {
                f.attack_kind = None;
                f.enter_state(FighterState::Idle);
            }
        },
        FighterState::BlockStand | FighterState::BlockCrouch => {
            combo_reset = true;
        },
        FighterState::BlockStun => {
            if f.state_tick >= f.stun_ticks_target {
                f.enter_state(FighterState::BlockStand);
                combo_reset = true;
            }
        },
        FighterState::HitStun => {
            if f.state_tick >= f.stun_ticks_target {
                combo_reset = true;
                f.enter_state(FighterState::Idle);
            }
        },
        FighterState::Knockdown => {
            if f.state_tick >= 30 {
                f.enter_state(FighterState::WakeUp);
            }
        },
        FighterState::WakeUp => {
            if f.state_tick >= 20 {
                combo_reset = true;
                f.enter_state(FighterState::Idle);
            }
        },
        FighterState::GuardCrush => {
            if f.state_tick >= rs.guard_crush_ticks {
                f.guard = rs.guard_crush_refill_to;
                f.enter_state(FighterState::Idle);
            }
        },
        FighterState::Dizzy => {
            if f.state_tick >= 60 {
                f.enter_state(FighterState::Idle);
            }
        },
        FighterState::ThrowAttempt => {
            if f.state_tick >= rs.throw.startup + rs.throw.active {
                f.enter_state(FighterState::ThrowWhiff);
            }
        },
        FighterState::ThrowWhiff => {
            if f.state_tick >= rs.throw.recovery {
                f.enter_state(FighterState::Idle);
            }
        },
        FighterState::Thrown => {
            if f.state_tick >= rs.throw.recovery {
                f.enter_state(FighterState::Knockdown);
            }
        },
        FighterState::RoundFreeze | FighterState::RoundOver => {},
    }
    AdvanceEvents { combo_reset }
}

/// The attack whose hitbox is out this tick, if any.
pub open spec fn spec_attack_kind_for_hitbox(f: Fighter) -> Option<AttackKind> {
    if f.state == FighterState::AttackActive {
        f.attack_kind
    } else {
        None
    }
}

/// Whether the fighter's throw is in its active window.
pub open spec fn spec_throw_is_active(f: Fighter, rs: Ruleset) -> bool {
    f.state == FighterState::ThrowAttempt && f.state_tick > rs.throw.startup
}

/// Whether the fighter's current attack has an active hitbox this tick.
pub fn attack_kind_for_hitbox(f: &Fighter) -> (r: Option<AttackKind>)
    ensures
        r == spec_attack_kind_for_hitbox(*f),
{
    if f.state == FighterState::AttackActive {
        f.attack_kind
    } else {
        None
    }
}

/// Whether the fighter's throw is in its active window this tick.
pub fn throw_is_active(f: &Fighter, rs: &Ruleset) -> (r: bool)
    ensures
        r == spec_throw_is_active(*f, *rs),
{
    f.state == FighterState::ThrowAttempt && f.state_tick > rs.throw.startup
}

} // verus!
