//! Collision and damage: every active hitbox and throw is resolved against a
//! pre-damage snapshot of both fighters, then damage, guard, surge, stun,
//! hitstop and combo scaling are applied.
use crate::fighter::{attack_ok, spec_crouched, spec_enter, Fighter};
use crate::fixed::{abs_raw, add_raw, sub_raw, Fixed, Vec2};
use crate::geometry::{spec_overlaps, spec_to_world, Rect, WorldRect};
use crate::ruleset::{spec_move_spec, MoveSpec, Ruleset};
use crate::state_machine::{
    attack_kind_for_hitbox, spec_attack_kind_for_hitbox, spec_throw_is_active, throw_is_active,
};
use crate::types::{spec_is_airborne, AttackKind, FighterState};
use vstd::prelude::*;

verus! {

/// One resolved contact.
#[derive(Debug, Clone, Copy, PartialEq, Eq, Structural)]
pub struct HitLog {
    pub attacker_idx: usize,
    pub defender_idx: usize,
    pub blocked: bool,
    pub damage: i32,
    pub hard_knockdown: bool,
    pub is_throw: bool,
    /// Both fighters threw inside the tech window: nobody was thrown.
    pub is_tech: bool,
    /// The normal that connected (`None` for throws and techs).
    pub kind: Option<AttackKind>,
}

/// A passivity warning issued to one fighter.
#[derive(Debug, Clone, Copy, PartialEq, Eq, Structural)]
pub struct RoundWarnLog {
    pub fighter_idx: usize,
    pub second_warning: bool,
}

/// Whether a fighter is hit and blocked low: crouching, or mid crouching attack.
pub open spec fn spec_low_profile(f: Fighter) -> bool {
    spec_crouched(f) || (f.attack_kind.is_some() && f.attack_crouching)
}

/// The `k`-th hurt region (head, torso, left arm, right arm, left leg, right leg).
pub open spec fn spec_hurt_region(rs: Ruleset, crouched: bool, k: int) -> Rect {
    if crouched {
        if k == 0 {
            rs.hurt_head_crouch
        } else if k == 1 {
            rs.hurt_torso_crouch
        } else if k == 2 {
            rs.hurt_arm_left_crouch
        } else if k == 3 {
            rs.hurt_arm_right_crouch
        } else if k == 4 {
            rs.hurt_leg_left_crouch
        } else {
            rs.hurt_leg_right_crouch
        }
    } else {
        if k == 0 {
            rs.hurt_head
        } else if k == 1 {
            rs.hurt_torso
        } else if k == 2 {
            rs.hurt_arm_left
        } else if k == 3 {
            rs.hurt_arm_right
        } else if k == 4 {
            rs.hurt_leg_left
        } else {
            rs.hurt_leg_right
        }
    }
}

/// The `k`-th hurtbox of `f` in world space.
pub open spec fn spec_hurtbox(f: Fighter, rs: Ruleset, k: int) -> WorldRect {
    spec_to_world(spec_hurt_region(rs, spec_low_profile(f), k), f.position, f.facing == crate::types::Facing::Right)
}

/// The hitbox rectangle a normal uses.
pub open spec fn spec_hitbox_rect(rs: Ruleset, kind: AttackKind, crouching: bool) -> Rect {
    match kind {
        AttackKind::Light => if crouching { rs.light_hitbox_crouch } else { rs.light_hitbox },
        AttackKind::Medium => if crouching { rs.medium_hitbox_crouch } else { rs.medium_hitbox },
        AttackKind::Heavy => rs.heavy_hitbox,
    }
}

/// The active hitbox of `f` in world space, if any.
pub open spec fn spec_hitbox(f: Fighter, rs: Ruleset) -> Option<WorldRect> {
    match spec_attack_kind_for_hitbox(f) {
        Some(kind) => Some(
            spec_to_world(
                spec_hitbox_rect(rs, kind, f.attack_crouching),
                f.position,
                f.facing == crate::types::Facing::Right,
            ),
        ),
        None => None,
    }
}

/// Whether `hitbox` overlaps any hurtbox of `d`.
pub open spec fn spec_connects(hitbox: WorldRect, d: Fighter, rs: Ruleset) -> bool {
    exists|k: int| 0 <= k < 6 && spec_overlaps(hitbox, #[trigger] spec_hurtbox(d, rs, k))
}

/// Percentage scaling for the `hit_number`-th hit of a combo (0-based):
/// the table entry, the last entry past the end, and never below the floor.
pub open spec fn spec_scale_pct(rs: Ruleset, hit_number: int) -> i32 {
    let t = rs.combo_scaling_pct@;
    let p = if hit_number < t.len() {
        t[hit_number]
    } else if t.len() > 0 {
        t.last()
    } else {
        100
    };
    if p > rs.combo_floor_pct { p } else { rs.combo_floor_pct }
}

/// Damage a strike that lands unblocked deals before the kill clamp.
pub open spec fn spec_strike_damage(rs: Ruleset, spec: MoveSpec, crouching: bool, combo: u8) -> int {
    let num = if crouching { 80int } else { 100int };
    let base = spec.damage * num / 100;
    let scaled = base * spec_scale_pct(rs, combo as int) / 100;
    let floor = spec.damage * rs.combo_floor_pct / 100;
    let d = if scaled > floor { scaled } else { floor };
    if d > 1 { d } else { 1 }
}

/// `a + b` capped at `cap`.
pub open spec fn spec_min_add(a: i32, b: int, cap: i32) -> i32 {
    if a + b < cap { (a + b) as i32 } else { cap }
}

/// Both fighters and the log after the throw phase.
#[verifier::opaque]
pub open spec fn spec_throws(f0: Fighter, f1: Fighter, rs: Ruleset) -> (Fighter, Fighter, Seq<HitLog>) {
    let t0 = spec_throw_is_active(f0, rs);
    let t1 = spec_throw_is_active(f1, rs);
    if t0 && t1 {
        let close = match (f0.last_throw_attempt_tick, f1.last_throw_attempt_tick) {
            (Some(a), Some(b)) => (if a >= b { a - b } else { b - a }) <= rs.throw_tech_window_ticks,
            _ => true,
        };
        if close && !f0.attack_hit_registered && !f1.attack_hit_registered {
            let push = rs.fighter_width.0;
            let g0 = Fighter {
                attack_hit_registered: true,
                position: Vec2 { x: Fixed(sub_raw(f0.position.x.0, push)), ..f0.position },
                ..f0
            };
            let g1 = Fighter {
                attack_hit_registered: true,
                position: Vec2 { x: Fixed(add_raw(f1.position.x.0, push)), ..f1.position },
                ..f1
            };
            (g0, g1, seq![spec_tech_log(0, 1), spec_tech_log(1, 0)])
        } else {
            (f0, f1, Seq::empty())
        }
    } else {
        let (a0, a1, l0) = spec_throw_try(f0, f1, t0, f1, rs, 0, 1);
        let (b1, b0, l1) = spec_throw_try(a1, a0, t1, f0, rs, 1, 0);
        (b0, b1, l0 + l1)
    }
}

/// A zero-damage tech entry.
pub open spec fn spec_tech_log(i: usize, j: usize) -> HitLog {
    HitLog {
        attacker_idx: i,
        defender_idx: j,
        blocked: false,
        damage: 0,
        hard_knockdown: false,
        is_throw: true,
        is_tech: true,
        kind: None,
    }
}

/// Attacker `a` (index `i`) trying to throw defender `d` (index `j`), with
/// `throwing` and `d_pre` taken from the pre-damage snapshot.
#[verifier::opaque]
pub open spec fn spec_throw_try(
    a: Fighter,
    d: Fighter,
    throwing: bool,
    d_pre: Fighter,
    rs: Ruleset,
    i: usize,
    j: usize,
) -> (Fighter, Fighter, Seq<HitLog>) {
    let range = add_raw(rs.throw_hitbox.w.0, rs.throw_hitbox.x.0);
    let distance = abs_raw(sub_raw(a.position.x.0, d.position.x.0));
    let throwable = !spec_is_airborne(d_pre.state) && d_pre.state != FighterState::BlockStun
        && d_pre.state != FighterState::HitStun && d.state != FighterState::Thrown;
    if !throwing || a.attack_hit_registered || !(distance <= range && throwable) {
        (a, d, Seq::empty())
    } else {
        let dmg = if rs.throw.damage < d.vitality { rs.throw.damage } else { d.vitality };
        let a2 = Fighter {
            attack_hit_registered: true,
            total_hits_landed: (a.total_hits_landed + 1) as u32,
            total_damage_dealt: (a.total_damage_dealt + dmg) as i32,
            surge: spec_min_add(a.surge, dmg / 8, rs.surge_max),
            hitstop: rs.throw.hitstop,
            ..a
        };
        let d2 = spec_enter(
            Fighter {
                vitality: (d.vitality - dmg) as i32,
                surge: spec_min_add(d.surge, dmg / 12, rs.surge_max),
                hitstop: rs.throw.hitstop,
                ..d
            },
            FighterState::Thrown,
        );
        (
            a2,
            d2,
            seq![
                HitLog {
                    attacker_idx: i,
                    defender_idx: j,
                    blocked: false,
                    damage: dmg,
                    hard_knockdown: false,
                    is_throw: true,
                    is_tech: false,
                    kind: None,
                },
            ],
        )
    }
}

/// Attacker `a` (index `i`) striking defender `d` (index `j`): hitbox and
/// hurtboxes come from the pre-damage fighters `a_pre` and `d_pre`, the
/// defender's stance and meters from the current ones.
#[verifier::opaque]
pub open spec fn spec_strike(
    a: Fighter,
    d: Fighter,
    a_pre: Fighter,
    d_pre: Fighter,
    rs: Ruleset,
    i: usize,
    j: usize,
) -> (Fighter, Fighter, Seq<HitLog>) {
    match spec_hitbox(a_pre, rs) {
        None => (a, d, Seq::empty()),
        Some(hitbox) => {
            if a.attack_hit_registered || !spec_connects(hitbox, d_pre, rs) {
                (a, d, Seq::empty())
            } else {
                let kind = a.attack_kind.unwrap();
                let spec = spec_move_spec(rs, kind);
                let blocking = d.state == FighterState::BlockStand || d.state == FighterState::BlockCrouch;
                let blocked = blocking && (if a.attack_crouching {
                    d.state == FighterState::BlockCrouch
                } else if a.attack_jumping {
                    d.state == FighterState::BlockStand
                } else {
                    true
                });
                if blocked {
                    spec_block(Fighter { attack_hit_registered: true, ..a }, d, kind, rs, i, j)
                } else {
                    spec_hit(Fighter { attack_hit_registered: true, ..a }, d, kind, rs, i, j)
                }
            }
        },
    }
}

/// A blocked strike of `kind`: chip damage (never below 1 vitality), guard
/// damage, hitstop, then blockstun or a guard crush.
#[verifier::opaque]
pub open spec fn spec_block(a: Fighter, d: Fighter, kind: AttackKind, rs: Ruleset, i: usize, j: usize) -> (Fighter, Fighter, Seq<HitLog>) {
    let spec = spec_move_spec(rs, kind);
    let num = if a.attack_crouching { 80int } else { 100int };
    let chip = (spec.block_damage * num / 100) as i32;
    let vit = if d.vitality - chip > 1 { (d.vitality - chip) as i32 } else { 1i32 };
    let guard = d.guard - spec.guard_damage;
    let a2 = Fighter { hitstop: spec.hitstop, ..a };
    let d1 = Fighter { vitality: vit, hitstop: spec.hitstop, ..d };
    let d2 = if guard <= 0 {
        spec_enter(Fighter { guard: 0, ..d1 }, FighterState::GuardCrush)
    } else {
        spec_enter(
            Fighter { guard: guard as i32, stun_ticks_target: spec.blockstun, ..d1 },
            FighterState::BlockStun,
        )
    };
    (
        a2,
        d2,
        seq![
            HitLog {
                attacker_idx: i,
                defender_idx: j,
                blocked: true,
                damage: chip,
                hard_knockdown: false,
                is_throw: false,
                is_tech: false,
                kind: Some(kind),
            },
        ],
    )
}

/// An unblocked strike of `kind`: scaled damage clamped to the remaining
/// vitality, counters, surge, hitstop, combo count, then hitstun or a hard
/// knockdown once the combo reaches the knockdown hit.
#[verifier::opaque]
pub open spec fn spec_hit(a: Fighter, d: Fighter, kind: AttackKind, rs: Ruleset, i: usize, j: usize) -> (Fighter, Fighter, Seq<HitLog>) {
    let spec = spec_move_spec(rs, kind);
    let raw = spec_strike_damage(rs, spec, a.attack_crouching, d.combo_count);
    let dmg = (if raw < d.vitality { raw } else { d.vitality as int }) as i32;
    let combo = if d.combo_count < u8::MAX { (d.combo_count + 1) as u8 } else { u8::MAX };
    let hkd = combo >= rs.combo_hard_knockdown_hit;
    let a2 = Fighter {
        total_hits_landed: (a.total_hits_landed + 1) as u32,
        total_damage_dealt: (a.total_damage_dealt + dmg) as i32,
        surge: spec_min_add(a.surge, dmg / 8, rs.surge_max),
        hitstop: spec.hitstop,
        ..a
    };
    let d1 = Fighter {
        vitality: (d.vitality - dmg) as i32,
        surge: spec_min_add(d.surge, dmg / 12, rs.surge_max),
        hitstop: spec.hitstop,
        combo_count: combo,
        ..d
    };
    let d2 = if hkd {
        spec_enter(d1, FighterState::Knockdown)
    } else {
        spec_enter(Fighter { stun_ticks_target: spec.hitstun, ..d1 }, FighterState::HitStun)
    };
    (
        a2,
        d2,
        seq![
            HitLog {
                attacker_idx: i,
                defender_idx: j,
                blocked: false,
                damage: dmg,
                hard_knockdown: hkd,
                is_throw: false,
                is_tech: false,
                kind: Some(kind),
            },
        ],
    )
}

/// Hitstop within the ruleset's longest, and an attack's kind recorded
/// while attacking.
pub open spec fn combat_ready(f: Fighter, rs: Ruleset) -> bool {
    attack_ok(f) && f.hitstop <= rs.max_hitstop()
}

/// `g` is combat-ready and kept `f`'s passivity warnings.
pub open spec fn kept_ready(f: Fighter, g: Fighter, rs: Ruleset) -> bool {
    combat_ready(g, rs) && g.warnings_this_round == f.warnings_this_round
}

proof fn lemma_move_hitstop(rs: Ruleset, kind: AttackKind)
    ensures
        spec_move_spec(rs, kind).hitstop <= rs.max_hitstop(),
{
}

proof fn lemma_block_frame(a: Fighter, d: Fighter, kind: AttackKind, rs: Ruleset, i: usize, j: usize)
    requires
        combat_ready(a, rs),
        combat_ready(d, rs),
    ensures
        kept_ready(a, spec_block(a, d, kind, rs, i, j).0, rs),
        kept_ready(d, spec_block(a, d, kind, rs, i, j).1, rs),
{
    reveal(spec_block);
    lemma_move_hitstop(rs, kind);
}

proof fn lemma_hit_frame(a: Fighter, d: Fighter, kind: AttackKind, rs: Ruleset, i: usize, j: usize)
    requires
        combat_ready(a, rs),
        combat_ready(d, rs),
    ensures
        kept_ready(a, spec_hit(a, d, kind, rs, i, j).0, rs),
        kept_ready(d, spec_hit(a, d, kind, rs, i, j).1, rs),
{
    reveal(spec_hit);
    lemma_move_hitstop(rs, kind);
}

proof fn lemma_strike_frame(a: Fighter, d: Fighter, a_pre: Fighter, d_pre: Fighter, rs: Ruleset, i: usize, j: usize)
    requires
        combat_ready(a, rs),
        combat_ready(d, rs),
    ensures
        kept_ready(a, spec_strike(a, d, a_pre, d_pre, rs, i, j).0, rs),
        kept_ready(d, spec_strike(a, d, a_pre, d_pre, rs, i, j).1, rs),
{
    reveal(spec_strike);
    let a1 = Fighter { attack_hit_registered: true, ..a };
    let kind = a.attack_kind.unwrap();
    lemma_block_frame(a1, d, kind, rs, i, j);
    lemma_hit_frame(a1, d, kind, rs, i, j);
}

proof fn lemma_throw_try_frame(a: Fighter, d: Fighter, throwing: bool, d_pre: Fighter, rs: Ruleset, i: usize, j: usize)
    requires
        combat_ready(a, rs),
        combat_ready(d, rs),
    ensures
        kept_ready(a, spec_throw_try(a, d, throwing, d_pre, rs, i, j).0, rs),
        kept_ready(d, spec_throw_try(a, d, throwing, d_pre, rs, i, j).1, rs),
{
    reveal(spec_throw_try);
}

/// Combat keeps hitstop within the ruleset's longest, an attack's kind
/// recorded while attacking, and both fighters' passivity warnings.
pub proof fn lemma_resolve_frame(f0: Fighter, f1: Fighter, rs: Ruleset)
    requires
        combat_ready(f0, rs),
        combat_ready(f1, rs),
    ensures
        kept_ready(f0, spec_resolve(f0, f1, rs).0, rs),
        kept_ready(f1, spec_resolve(f0, f1, rs).1, rs),
{
    reveal(spec_throws);
    let t0 = spec_throw_is_active(f0, rs);
    let t1 = spec_throw_is_active(f1, rs);
    let (a0, a1, l0) = spec_throw_try(f0, f1, t0, f1, rs, 0, 1);
    lemma_throw_try_frame(f0, f1, t0, f1, rs, 0, 1);
    lemma_throw_try_frame(a1, a0, t1, f0, rs, 1, 0);
    let (t0r, t1r, tl) = spec_throws(f0, f1, rs);
    assert(kept_ready(f0, t0r, rs) && kept_ready(f1, t1r, rs));
    let (x1, y1, l1) = spec_strike(t0r, t1r, f0, f1, rs, 0, 1);
    lemma_strike_frame(t0r, t1r, f0, f1, rs, 0, 1);
    lemma_strike_frame(y1, x1, f1, f0, rs, 1, 0);
}

/// Both fighters and the contact log after combat resolution.
pub open spec fn spec_resolve(f0: Fighter, f1: Fighter, rs: Ruleset) -> (Fighter, Fighter, Seq<HitLog>) {
    let (t0, t1, tl) = spec_throws(f0, f1, rs);
    let (a1, b1, l1) = spec_strike(t0, t1, f0, f1, rs, 0, 1);
    let (b2, a2, l2) = spec_strike(b1, a1, f1, f0, rs, 1, 0);
    (a2, b2, tl + l1 + l2)
}

} // verus!
verus! {

struct Snapshot {
    hitbox: Option<WorldRect>,
    is_throw_active: bool,
    hurtboxes: [WorldRect; 6],
    grounded: bool,
    in_hitstun_or_blockstun: bool,
}

fn hurt_region(rs: &Ruleset, crouched: bool, k: usize) -> (r: Rect)
    ensures
        r == spec_hurt_region(*rs, crouched, k as int),
{
    if crouched {
        if k == 0 {
            rs.hurt_head_crouch
        } else if k == 1 {
            rs.hurt_torso_crouch
        } else if k == 2 {
            rs.hurt_arm_left_crouch
        } else if k == 3 {
            rs.hurt_arm_right_crouch
        } else if k == 4 {
            rs.hurt_leg_left_crouch
        } else {
            rs.hurt_leg_right_crouch
        }
    } else {
        if k == 0 {
            rs.hurt_head
        } else if k == 1 {
            rs.hurt_torso
        } else if k == 2 {
            rs.hurt_arm_left
        } else if k == 3 {
            rs.hurt_arm_right
        } else if k == 4 {
            rs.hurt_leg_left
        } else {
            rs.hurt_leg_right
        }
    }
}

fn snapshot(f: &Fighter, rs: &Ruleset) -> (s: Snapshot)
    ensures
        s.hitbox == spec_hitbox(*f, *rs),
        s.is_throw_active == spec_throw_is_active(*f, *rs),
        forall|k: int| 0 <= k < 6 ==> #[trigger] s.hurtboxes@[k] == spec_hurtbox(*f, *rs, k),
        s.grounded == !spec_is_airborne(f.state),
        s.in_hitstun_or_blockstun == (f.state == FighterState::BlockStun || f.state
            == FighterState::HitStun),
{
    let crouched = f.is_crouched_stance() || (f.attack_kind.is_some() && f.attack_crouching);
    let origin = f.position;
    let right = f.facing.is_right();
    let hurtboxes = [
        hurt_region(rs, crouched, 0).to_world(origin, right),
        hurt_region(rs, crouched, 1).to_world(origin, right),
        hurt_region(rs, crouched, 2).to_world(origin, right),
        hurt_region(rs, crouched, 3).to_world(origin, right),
        hurt_region(rs, crouched, 4).to_world(origin, right),
        hurt_region(rs, crouched, 5).to_world(origin, right),
    ];
    let hitbox = match attack_kind_for_hitbox(f) {
        Some(kind) => {
            let rect = match kind {
                AttackKind::Light => if f.attack_crouching {
                    rs.light_hitbox_crouch
                } else {
                    rs.light_hitbox
                },
                AttackKind::Medium => if f.attack_crouching {
                    rs.medium_hitbox_crouch
                } else {
                    rs.medium_hitbox
                },
                AttackKind::Heavy => rs.heavy_hitbox,
            };
            Some(rect.to_world(origin, right))
        },
        None => None,
    };
    let s = Snapshot {
        hitbox,
        is_throw_active: throw_is_active(f, rs),
        hurtboxes,
        grounded: f.state.is_grounded(),
        in_hitstun_or_blockstun: f.state.is_blockstun_or_hitstun(),
    };
    assert forall|k: int| 0 <= k < 6 implies #[trigger] s.hurtboxes@[k] == spec_hurtbox(*f, *rs, k) by {
        if k == 0 {
        } else if k == 1 {
        } else if k == 2 {
        } else if k == 3 {
        } else if k == 4 {
        } else {
        }
    }
    s
}

fn connects(hitbox: &WorldRect, hurtboxes: &[WorldRect; 6]) -> (r: bool)
    ensures
        r == exists|k: int| 0 <= k < 6 && spec_overlaps(*hitbox, #[trigger] hurtboxes@[k]),
{
    let mut k: usize = 0;
    while k < 6
        invariant
            0 <= k <= 6,
            forall|m: int| 0 <= m < k ==> !spec_overlaps(*hitbox, #[trigger] hurtboxes@[m]),
        decreases 6 - k,
    {
        if hitbox.overlaps(&hurtboxes[k]) {
            return true;
        }
        k = k + 1;
    }
    false
}

/// The ruleset values for which resolving contacts stays within `i32`.
/// A normal's damage is scaled by the crouch factor (at most 100 %) and
/// then by a combo percentage, and its floor is damage times the floor
/// percentage; chip is block damage scaled by the crouch factor. So each
/// normal's damage times 100, times the floor and times every combo
/// percentage must fit, as must block damage times 100. Percentages are
/// scales and are not negative, and no damage or meter cap is negative.
pub open spec fn spec_move_fits(rs: Ruleset, m: MoveSpec) -> bool {
    &&& 0 <= m.damage
    &&& m.damage * 100 <= i32::MAX
    &&& m.damage * rs.combo_floor_pct <= i32::MAX
    &&& forall|i: int| 0 <= i < rs.combo_scaling_pct@.len() ==> m.damage * #[trigger] rs.combo_scaling_pct@[i] <= i32::MAX
    &&& 0 <= m.block_damage
    &&& m.block_damage * 100 <= i32::MAX
    &&& 0 <= m.guard_damage
}

/// See `spec_move_fits`; the throw's damage is only clamped, never scaled.
pub open spec fn spec_resolve_fits(rs: Ruleset) -> bool {
    &&& spec_move_fits(rs, rs.light)
    &&& spec_move_fits(rs, rs.medium)
    &&& spec_move_fits(rs, rs.heavy)
    &&& 0 <= rs.throw.damage
    &&& 0 <= rs.surge_max
    &&& 0 <= rs.combo_floor_pct
    &&& forall|i: int| 0 <= i < rs.combo_scaling_pct@.len() ==> 0 <= #[trigger] rs.combo_scaling_pct@[i]
}

/// The larger of a surge and the surge cap: a surge gain never takes a
/// meter above it.
pub open spec fn spec_surge_ceiling(surge: i32, rs: Ruleset) -> int {
    if surge > rs.surge_max { surge as int } else { rs.surge_max as int }
}

/// Meters that are not negative.
pub open spec fn spec_meters_nonneg(f: Fighter) -> bool {
    &&& 0 <= f.vitality
    &&& 0 <= f.surge
    &&& 0 <= f.guard
}

/// Room for `a` to land one contact on `d` within `i32`/`u32`: the damage
/// is at most `d`'s vitality, and is added to `a`'s damage total, counted
/// in `a`'s hit total, and gained as surge, an eighth by `a` and a twelfth
/// by `d`.
pub open spec fn spec_contact_fits(a: Fighter, d: Fighter, rs: Ruleset) -> bool {
    &&& a.total_damage_dealt + d.vitality <= i32::MAX
    &&& a.total_hits_landed < u32::MAX
    &&& spec_surge_ceiling(a.surge, rs) + d.vitality / 8 <= i32::MAX
    &&& spec_surge_ceiling(d.surge, rs) + d.vitality / 12 <= i32::MAX
}

/// What a valid ruleset and fighters in the engine's value range give
/// resolution: every bound it needs.
pub proof fn lemma_valid_contacts_fit(f0: Fighter, f1: Fighter, rs: Ruleset)
    requires
        f0.wf(),
        f1.wf(),
        rs.wf(),
    ensures
        spec_resolve_fits(rs),
        spec_meters_nonneg(f0),
        spec_meters_nonneg(f1),
        spec_contact_fits(f0, f1, rs),
        spec_contact_fits(f1, f0, rs),
{
    assert forall|m: MoveSpec| #![trigger m.wf()] m.wf() ==> spec_move_fits(rs, m) by {
        if m.wf() {
            assert(m.damage * rs.combo_floor_pct <= 2_000_000_000) by (nonlinear_arith)
                requires
                    0 <= m.damage <= 200_000,
                    0 <= rs.combo_floor_pct <= 10_000,
            ;
            assert forall|i: int| 0 <= i < rs.combo_scaling_pct@.len() implies m.damage * #[trigger] rs.combo_scaling_pct@[i] <= i32::MAX by {
                let p = rs.combo_scaling_pct@[i];
                assert(m.damage * p <= 2_000_000_000) by (nonlinear_arith)
                    requires
                        0 <= m.damage <= 200_000,
                        0 <= p <= 10_000,
                ;
            }
        }
    }
    assert(rs.light.wf() && rs.medium.wf() && rs.heavy.wf());
}

fn min_add(a: i32, b: i32, cap: i32) -> (r: i32)
    requires
        0 <= b,
        a + b <= i32::MAX,
    ensures
        r == spec_min_add(a, b as int, cap),
{
    if a + b < cap {
        a + b
    } else {
        cap
    }
}

fn throw_try(
    a: &mut Fighter,
    d: &mut Fighter,
    throwing: bool,
    d_snap: &Snapshot,
    Ghost(d_pre): Ghost<Fighter>,
    rs: &Ruleset,
    i: usize,
    j: usize,
    logs: &mut Vec<HitLog>,
)
    requires
        spec_meters_nonneg(*old(a)),
        spec_meters_nonneg(*old(d)),
        throwing ==> spec_contact_fits(*old(a), *old(d), *rs),
        spec_resolve_fits(*rs),
        d_snap.grounded == !spec_is_airborne(d_pre.state),
        d_snap.in_hitstun_or_blockstun == (d_pre.state == FighterState::BlockStun || d_pre.state
            == FighterState::HitStun),
    ensures
        (*final(a), *final(d)) == (spec_throw_try(
            *old(a),
            *old(d),
            throwing,
            d_pre,
            *rs,
            i,
            j,
        ).0, spec_throw_try(
            *old(a),
            *old(d),
            throwing,
            d_pre,
            *rs,
            i,
            j,
        ).1),
        final(logs)@ == old(logs)@ + spec_throw_try(
            *old(a),
            *old(d),
            throwing,
            d_pre,
            *rs,
            i,
            j,
        ).2,
        spec_meters_nonneg(*final(a)),
        spec_meters_nonneg(*final(d)),
        spec_surge_ceiling(final(a).surge, *rs) <= spec_surge_ceiling(old(a).surge, *rs),
        spec_surge_ceiling(final(d).surge, *rs) <= spec_surge_ceiling(old(d).surge, *rs),
        final(a).guard == old(a).guard,
        final(d).guard <= old(d).guard,
        final(d).vitality <= (if old(d).vitality < 1 { 1 } else { old(d).vitality as int }),
        final(d).total_hits_landed == old(d).total_hits_landed,
        final(d).total_damage_dealt == old(d).total_damage_dealt,
        final(d).attack_kind == old(d).attack_kind,
        final(a).vitality == old(a).vitality,
        final(a).attack_kind == old(a).attack_kind,
        old(a).total_hits_landed <= final(a).total_hits_landed <= old(a).total_hits_landed + 1,
        old(a).total_damage_dealt <= final(a).total_damage_dealt,
        final(d).vitality <= old(d).vitality || old(d).vitality < 1,
        final(a).total_damage_dealt - old(a).total_damage_dealt <= old(d).vitality - final(d).vitality || old(d).vitality < 1,
        !throwing ==> *final(a) == *old(a) && *final(d) == *old(d),
{
    reveal(spec_throw_try);
    let ghost l0 = logs@;
    if !throwing || a.attack_hit_registered {
        assert(logs@ =~= l0 + Seq::<HitLog>::empty());
        return;
    }
    let range = rs.throw_hitbox.w.add(rs.throw_hitbox.x);
    let distance = a.position.x.sub(d.position.x).abs();
    let throwable = d_snap.grounded && !d_snap.in_hitstun_or_blockstun && d.state
        != FighterState::Thrown;
    if distance.0 <= range.0 && throwable {
        a.attack_hit_registered = true;
        let dmg = if rs.throw.damage < d.vitality {
            rs.throw.damage
        } else {
            d.vitality
        };
        d.vitality = d.vitality - dmg;
        a.total_hits_landed = a.total_hits_landed + 1;
        a.total_damage_dealt = a.total_damage_dealt + dmg;
        a.surge = min_add(a.surge, dmg / 8, rs.surge_max);
        d.surge = min_add(d.surge, dmg / 12, rs.surge_max);
        a.hitstop = rs.throw.hitstop;
        d.hitstop = rs.throw.hitstop;
        d.enter_state(FighterState::Thrown);
        logs.push(
            HitLog {
                attacker_idx: i,
                defender_idx: j,
                blocked: false,
                damage: dmg,
                hard_knockdown: false,
                is_throw: true,
                is_tech: false,
                kind: None,
            },
        );
    }
    assert(logs@ =~= l0 + spec_throw_try(*old(a), *old(d), throwing, d_pre, *rs, i, j).2);
}

fn scale_pct(rs: &Ruleset, hit_number: usize) -> (r: i32)
    ensures
        r == spec_scale_pct(*rs, hit_number as int),
{
    let n = rs.combo_scaling_pct.len();
    let p = if hit_number < n {
        rs.combo_scaling_pct[hit_number]
    } else if n > 0 {
        rs.combo_scaling_pct[n - 1]
    } else {
        100
    };
    if p > rs.combo_floor_pct {
        p
    } else {
        rs.combo_floor_pct
    }
}

#[verifier::rlimit(50)]
fn apply_block(a: &mut Fighter, d: &mut Fighter, kind: AttackKind, rs: &Ruleset, i: usize, j: usize, logs: &mut Vec<HitLog>)
    requires
        spec_meters_nonneg(*old(a)),
        spec_meters_nonneg(*old(d)),
        spec_resolve_fits(*rs),
    ensures
        (*final(a), *final(d)) == (spec_block(*old(a), *old(d), kind, *rs, i, j).0, spec_block(*old(a), *old(d), kind, *rs, i, j).1),
        final(logs)@ == old(logs)@ + spec_block(*old(a), *old(d), kind, *rs, i, j).2,
        spec_meters_nonneg(*final(a)),
        spec_meters_nonneg(*final(d)),
        spec_surge_ceiling(final(a).surge, *rs) <= spec_surge_ceiling(old(a).surge, *rs),
        spec_surge_ceiling(final(d).surge, *rs) <= spec_surge_ceiling(old(d).surge, *rs),
        final(a).guard == old(a).guard,
        final(d).guard <= old(d).guard,
        final(d).vitality <= (if old(d).vitality < 1 { 1 } else { old(d).vitality as int }),
        final(d).total_hits_landed == old(d).total_hits_landed,
        final(d).total_damage_dealt == old(d).total_damage_dealt,
        final(d).attack_kind == old(d).attack_kind,
        final(a).vitality == old(a).vitality,
        final(a).attack_kind == old(a).attack_kind,
        old(a).total_hits_landed <= final(a).total_hits_landed <= old(a).total_hits_landed + 1,
        old(a).total_damage_dealt <= final(a).total_damage_dealt,
        final(d).vitality <= old(d).vitality || old(d).vitality < 1,
        final(a).total_damage_dealt - old(a).total_damage_dealt <= old(d).vitality - final(d).vitality || old(d).vitality < 1,
{
    reveal(spec_block);
    let ghost l0 = logs@;
    let ghost a0 = *a;
    let ghost d0 = *d;
    let spec = rs.move_spec(kind);
    let crouch_scale_num: i32 = if a.attack_crouching {
        80
    } else {
        100
    };
    let chip = (spec.block_damage * crouch_scale_num) / 100;
    let new_vit = if d.vitality - chip > 1 {
        d.vitality - chip
    } else {
        1
    };
    d.vitality = new_vit;
    d.guard = d.guard - spec.guard_damage;
    a.hitstop = spec.hitstop;
    d.hitstop = spec.hitstop;
    if d.guard <= 0 {
        d.guard = 0;
        d.enter_state(FighterState::GuardCrush);
    } else {
        d.stun_ticks_target = spec.blockstun;
        d.enter_state(FighterState::BlockStun);
    }
    logs.push(
        HitLog {
            attacker_idx: i,
            defender_idx: j,
            blocked: true,
            damage: chip,
            hard_knockdown: false,
            is_throw: false,
            is_tech: false,
            kind: Some(kind),
        },
    );
    assert(logs@ =~= l0 + spec_block(a0, d0, kind, *rs, i, j).2);
}

fn hit_damage(rs: &Ruleset, spec: &MoveSpec, crouching: bool, combo: u8, vitality: i32) -> (dmg: i32)
    requires
        spec_resolve_fits(*rs),
        spec_move_fits(*rs, *spec),
        0 <= vitality,
    ensures
        dmg == (if spec_strike_damage(*rs, *spec, crouching, combo) < vitality {
            spec_strike_damage(*rs, *spec, crouching, combo)
        } else {
            vitality as int
        }),
        0 <= dmg <= vitality,
{
    let crouch_scale_num: i32 = if crouching {
        80
    } else {
        100
    };
    let hit_number = combo as usize;
    let pct = scale_pct(rs, hit_number);
    let base = (spec.damage * crouch_scale_num) / 100;
    proof {
        let t = rs.combo_scaling_pct@;
        let p: i32 = if (hit_number as int) < t.len() {
            t[hit_number as int]
        } else if t.len() > 0 {
            t.last()
        } else {
            100
        };
        assert(0 <= p && spec.damage * p <= i32::MAX) by {
            if (hit_number as int) < t.len() {
                assert(0 <= t[hit_number as int]);
            } else if t.len() > 0 {
                assert(0 <= t[t.len() - 1]);
            }
        }
        assert(0 <= base * pct <= spec.damage * pct) by (nonlinear_arith)
            requires
                0 <= base <= spec.damage,
                0 <= pct,
        ;
        assert(0 <= spec.damage * rs.combo_floor_pct) by (nonlinear_arith)
            requires
                0 <= spec.damage,
                0 <= rs.combo_floor_pct,
        ;
    }
    let scaled = (base * pct) / 100;
    let floor = (spec.damage * rs.combo_floor_pct) / 100;
    let d1 = if scaled > floor {
        scaled
    } else {
        floor
    };
    let d2 = if d1 > 1 {
        d1
    } else {
        1
    };
    if d2 < vitality {
        d2
    } else {
        vitality
    }
}

#[verifier::rlimit(100)]
fn apply_hit(a: &mut Fighter, d: &mut Fighter, kind: AttackKind, rs: &Ruleset, i: usize, j: usize, logs: &mut Vec<HitLog>)
    requires
        spec_meters_nonneg(*old(a)),
        spec_meters_nonneg(*old(d)),
        spec_contact_fits(*old(a), *old(d), *rs),
        spec_resolve_fits(*rs),
    ensures
        (*final(a), *final(d)) == (spec_hit(*old(a), *old(d), kind, *rs, i, j).0, spec_hit(*old(a), *old(d), kind, *rs, i, j).1),
        final(logs)@ == old(logs)@ + spec_hit(*old(a), *old(d), kind, *rs, i, j).2,
        spec_meters_nonneg(*final(a)),
        spec_meters_nonneg(*final(d)),
        spec_surge_ceiling(final(a).surge, *rs) <= spec_surge_ceiling(old(a).surge, *rs),
        spec_surge_ceiling(final(d).surge, *rs) <= spec_surge_ceiling(old(d).surge, *rs),
        final(a).guard == old(a).guard,
        final(d).guard <= old(d).guard,
        final(d).vitality <= (if old(d).vitality < 1 { 1 } else { old(d).vitality as int }),
        final(d).total_hits_landed == old(d).total_hits_landed,
        final(d).total_damage_dealt == old(d).total_damage_dealt,
        final(d).attack_kind == old(d).attack_kind,
        final(a).vitality == old(a).vitality,
        final(a).attack_kind == old(a).attack_kind,
        old(a).total_hits_landed <= final(a).total_hits_landed <= old(a).total_hits_landed + 1,
        old(a).total_damage_dealt <= final(a).total_damage_dealt,
        final(d).vitality <= old(d).vitality || old(d).vitality < 1,
        final(a).total_damage_dealt - old(a).total_damage_dealt <= old(d).vitality - final(d).vitality || old(d).vitality < 1,
{
    reveal(spec_hit);
    let ghost l0 = logs@;
    let ghost a0 = *a;
    let ghost d0 = *d;
    let spec = rs.move_spec(kind);
    let dmg = hit_damage(rs, spec, a.attack_crouching, d.combo_count, d.vitality);
    d.vitality = d.vitality - dmg;
    a.total_hits_landed = a.total_hits_landed + 1;
    a.total_damage_dealt = a.total_damage_dealt + dmg;
    a.surge = min_add(a.surge, dmg / 8, rs.surge_max);
    d.surge = min_add(d.surge, dmg / 12, rs.surge_max);
    a.hitstop = spec.hitstop;
    d.hitstop = spec.hitstop;
    d.combo_count = d.combo_count.saturating_add(1);
    let hard_knockdown = d.combo_count >= rs.combo_hard_knockdown_hit;
    if hard_knockdown {
        d.enter_state(FighterState::Knockdown);
    } else {
        d.stun_ticks_target = spec.hitstun;
        d.enter_state(FighterState::HitStun);
    }
    logs.push(
        HitLog {
            attacker_idx: i,
            defender_idx: j,
            blocked: false,
            damage: dmg,
            hard_knockdown,
            is_throw: false,
            is_tech: false,
            kind: Some(kind),
        },
    );
    assert(logs@ =~= l0 + spec_hit(a0, d0, kind, *rs, i, j).2);
}

#[verifier::rlimit(40)]
fn strike(
    a: &mut Fighter,
    d: &mut Fighter,
    a_snap: &Snapshot,
    d_snap: &Snapshot,
    Ghost(a_pre): Ghost<Fighter>,
    Ghost(d_pre): Ghost<Fighter>,
    rs: &Ruleset,
    i: usize,
    j: usize,
    logs: &mut Vec<HitLog>,
)
    requires
        spec_meters_nonneg(*old(a)),
        spec_meters_nonneg(*old(d)),
        a_snap.hitbox.is_some() ==> spec_contact_fits(*old(a), *old(d), *rs),
        spec_resolve_fits(*rs),
        a_snap.hitbox == spec_hitbox(a_pre, *rs),
        forall|k: int| 0 <= k < 6 ==> #[trigger] d_snap.hurtboxes@[k] == spec_hurtbox(d_pre, *rs, k),
        a_snap.hitbox.is_some() ==> old(a).attack_kind.is_some(),
    ensures
        (*final(a), *final(d)) == (spec_strike(
            *old(a),
            *old(d),
            a_pre,
            d_pre,
            *rs,
            i,
            j,
        ).0, spec_strike(
            *old(a),
            *old(d),
            a_pre,
            d_pre,
            *rs,
            i,
            j,
        ).1),
        final(logs)@ == old(logs)@ + spec_strike(
            *old(a),
            *old(d),
            a_pre,
            d_pre,
            *rs,
            i,
            j,
        ).2,
        spec_meters_nonneg(*final(a)),
        spec_meters_nonneg(*final(d)),
        spec_surge_ceiling(final(a).surge, *rs) <= spec_surge_ceiling(old(a).surge, *rs),
        spec_surge_ceiling(final(d).surge, *rs) <= spec_surge_ceiling(old(d).surge, *rs),
        final(a).guard == old(a).guard,
        final(d).guard <= old(d).guard,
        final(d).vitality <= (if old(d).vitality < 1 { 1 } else { old(d).vitality as int }),
        final(d).total_hits_landed == old(d).total_hits_landed,
        final(d).total_damage_dealt == old(d).total_damage_dealt,
        final(d).attack_kind == old(d).attack_kind,
        final(a).vitality == old(a).vitality,
        final(a).attack_kind == old(a).attack_kind,
        old(a).total_hits_landed <= final(a).total_hits_landed <= old(a).total_hits_landed + 1,
        old(a).total_damage_dealt <= final(a).total_damage_dealt,
        final(d).vitality <= old(d).vitality || old(d).vitality < 1,
        final(a).total_damage_dealt - old(a).total_damage_dealt <= old(d).vitality - final(d).vitality || old(d).vitality < 1,
        a_snap.hitbox.is_none() ==> *final(a) == *old(a) && *final(d) == *old(d),
{
    reveal(spec_strike);
    let ghost l0 = logs@;
    let ghost a0 = *a;
    let ghost d0 = *d;
    let hitbox = match a_snap.hitbox {
        Some(h) => h,
        None => {
            assert(logs@ =~= l0 + Seq::<HitLog>::empty());
            return;
        },
    };
    if a.attack_hit_registered {
        assert(logs@ =~= l0 + Seq::<HitLog>::empty());
        return;
    }
    let hit = connects(&hitbox, &d_snap.hurtboxes);
    proof {
        if hit {
            let k = choose|k: int| 0 <= k < 6 && spec_overlaps(hitbox, #[trigger] d_snap.hurtboxes@[k]);
            assert(spec_overlaps(hitbox, spec_hurtbox(d_pre, *rs, k)));
        } else {
            assert forall|k: int| 0 <= k < 6 implies !spec_overlaps(hitbox, #[trigger] spec_hurtbox(d_pre, *rs, k)) by {
                assert(d_snap.hurtboxes@[k] == spec_hurtbox(d_pre, *rs, k));
            }
        }
    }
    if !hit {
        assert(logs@ =~= l0 + Seq::<HitLog>::empty());
        return;
    }
    a.attack_hit_registered = true;
    let kind = match a.attack_kind {
        Some(k) => k,
        None => AttackKind::Light,
    };
    let blocking = d.state == FighterState::BlockStand || d.state == FighterState::BlockCrouch;
    let blocked = blocking && if a.attack_crouching {
        d.state == FighterState::BlockCrouch
    } else if a.attack_jumping {
        d.state == FighterState::BlockStand
    } else {
        true
    };
    if blocked {
        apply_block(a, d, kind, rs, i, j, logs);
    } else {
        apply_hit(a, d, kind, rs, i, j, logs);
    }
    assert(logs@ =~= l0 + spec_strike(a0, d0, a_pre, d_pre, *rs, i, j).2);
}

fn tech_log(i: usize, j: usize) -> (r: HitLog)
    ensures
        r == spec_tech_log(i, j),
{
    HitLog {
        attacker_idx: i,
        defender_idx: j,
        blocked: false,
        damage: 0,
        hard_knockdown: false,
        is_throw: true,
        is_tech: true,
        kind: None,
    }
}

/// Resolve every active hitbox and throw against a pre-damage snapshot of
/// both fighters, then apply damage, guard, surge, stun, hitstop and combo
/// scaling. Returns one log entry per contact, throws first.
pub fn resolve(fighters: &mut [Fighter; 2], rs: &Ruleset, tick: u32) -> (logs: Vec<HitLog>)
    requires
        spec_meters_nonneg(old(fighters)[0]),
        spec_meters_nonneg(old(fighters)[1]),
        attack_ok(old(fighters)[0]),
        attack_ok(old(fighters)[1]),
        spec_contact_fits(old(fighters)[0], old(fighters)[1], *rs),
        spec_contact_fits(old(fighters)[1], old(fighters)[0], *rs),
        spec_resolve_fits(*rs),
    ensures
        (final(fighters)[0], final(fighters)[1], logs@) == spec_resolve(
            old(fighters)[0],
            old(fighters)[1],
            *rs,
        ),
        spec_meters_nonneg(final(fighters)[0]),
        spec_meters_nonneg(final(fighters)[1]),
        final(fighters)[0].vitality <= (if old(fighters)[0].vitality < 1 { 1 } else { old(fighters)[0].vitality as int }),
        final(fighters)[1].vitality <= (if old(fighters)[1].vitality < 1 { 1 } else { old(fighters)[1].vitality as int }),
        spec_surge_ceiling(final(fighters)[0].surge, *rs) <= spec_surge_ceiling(old(fighters)[0].surge, *rs),
        spec_surge_ceiling(final(fighters)[1].surge, *rs) <= spec_surge_ceiling(old(fighters)[1].surge, *rs),
        final(fighters)[0].guard <= old(fighters)[0].guard,
        final(fighters)[1].guard <= old(fighters)[1].guard,
        old(fighters)[0].meters_ok() && rs.wf() ==> final(fighters)[0].meters_ok(),
        old(fighters)[1].meters_ok() && rs.wf() ==> final(fighters)[1].meters_ok(),
        final(fighters)[0].attack_kind == old(fighters)[0].attack_kind,
        final(fighters)[1].attack_kind == old(fighters)[1].attack_kind,
        old(fighters)[0].total_hits_landed <= final(fighters)[0].total_hits_landed
            <= old(fighters)[0].total_hits_landed + 1,
        old(fighters)[1].total_hits_landed <= final(fighters)[1].total_hits_landed
            <= old(fighters)[1].total_hits_landed + 1,
        old(fighters)[0].total_damage_dealt <= final(fighters)[0].total_damage_dealt,
        old(fighters)[1].total_damage_dealt <= final(fighters)[1].total_damage_dealt,
        old(fighters)[0].vitality >= 1 && old(fighters)[1].vitality >= 1 ==> {
            &&& final(fighters)[0].total_damage_dealt + final(fighters)[1].vitality
                <= old(fighters)[0].total_damage_dealt + old(fighters)[1].vitality
            &&& final(fighters)[1].total_damage_dealt + final(fighters)[0].vitality
                <= old(fighters)[1].total_damage_dealt + old(fighters)[0].vitality
        },
{
    reveal(spec_throws);
    let f0 = fighters[0];
    let f1 = fighters[1];
    let s0 = snapshot(&f0, rs);
    let s1 = snapshot(&f1, rs);
    let mut a = f0;
    let mut b = f1;
    let mut logs: Vec<HitLog> = Vec::new();
    let t0 = s0.is_throw_active;
    let t1 = s1.is_throw_active;
    if t0 && t1 {
        let close = match (a.last_throw_attempt_tick, b.last_throw_attempt_tick) {
            (Some(x), Some(y)) => (if x >= y {
                x - y
            } else {
                y - x
            }) <= rs.throw_tech_window_ticks,
            _ => true,
        };
        if close && !a.attack_hit_registered && !b.attack_hit_registered {
            a.attack_hit_registered = true;
            b.attack_hit_registered = true;
            let push = rs.fighter_width;
            a.position.x = a.position.x.sub(push);
            b.position.x = b.position.x.add(push);
            logs.push(tech_log(0, 1));
            logs.push(tech_log(1, 0));
        }
    } else {
        throw_try(&mut a, &mut b, t0, &s1, Ghost(f1), rs, 0, 1, &mut logs);
        let ghost m0 = a;
        let ghost m1 = b;
        throw_try(&mut b, &mut a, t1, &s0, Ghost(f0), rs, 1, 0, &mut logs);
        proof {
            if f0.vitality >= 1 && f1.vitality >= 1 {
                assert(m0.vitality == f0.vitality);
                assert(a.total_damage_dealt + b.vitality <= f0.total_damage_dealt + f1.vitality);
                assert(b.total_damage_dealt + a.vitality <= f1.total_damage_dealt + f0.vitality);
            }
            if s0.hitbox.is_some() {
                assert(!t0);
                assert(b.vitality == f1.vitality);
            }
            if s1.hitbox.is_some() {
                assert(!t1);
                assert(a.vitality == f0.vitality);
            }
        }
    }
    let ghost tl = logs@;
    let ghost ta = a;
    let ghost tb = b;
    assert((ta, tb, tl) == spec_throws(f0, f1, *rs));
    strike(&mut a, &mut b, &s0, &s1, Ghost(f0), Ghost(f1), rs, 0, 1, &mut logs);
    let ghost l1 = logs@;
    let ghost k0 = a;
    let ghost k1 = b;
    strike(&mut b, &mut a, &s1, &s0, Ghost(f1), Ghost(f0), rs, 1, 0, &mut logs);
    proof {
        let r1 = spec_strike(ta, tb, f0, f1, *rs, 0, 1);
        let r2 = spec_strike(r1.1, r1.0, f1, f0, *rs, 1, 0);
        assert(l1 =~= tl + r1.2);
        assert(logs@ =~= l1 + r2.2);
        if f0.vitality >= 1 && f1.vitality >= 1 {
            if s1.hitbox.is_some() {
                assert(k0.vitality == f0.vitality);
            }
        }
    }
    fighters[0] = a;
    fighters[1] = b;
    logs
}

/// The fighter after one tick of guard regeneration: one point per tick,
/// up to the maximum, unless blocking, in blockstun or guard-crushed.
pub open spec fn spec_regen_one(f: Fighter, rs: Ruleset) -> Fighter {
    let busy = f.state == FighterState::BlockStand || f.state == FighterState::BlockCrouch || f.state
        == FighterState::BlockStun || f.state == FighterState::GuardCrush;
    if !busy && f.guard < rs.guard_max {
        Fighter { guard: (if f.guard + 1 < rs.guard_max { f.guard + 1 } else { rs.guard_max as int }) as i32, ..f }
    } else {
        f
    }
}

fn regen_one(f: &mut Fighter, rs: &Ruleset)
    ensures
        *final(f) == spec_regen_one(*old(f), *rs),
{
    let busy = f.state == FighterState::BlockStand || f.state == FighterState::BlockCrouch
        || f.state == FighterState::BlockStun || f.state == FighterState::GuardCrush;
    if !busy && f.guard < rs.guard_max {
        f.guard = if f.guard + 1 < rs.guard_max {
            f.guard + 1
        } else {
            rs.guard_max
        };
    }
}

/// Guard regenerates at 1/tick while not blocking and not in blockstun.
pub fn regen_guard(fighters: &mut [Fighter; 2], rs: &Ruleset)
    ensures
        final(fighters)[0] == spec_regen_one(old(fighters)[0], *rs),
        final(fighters)[1] == spec_regen_one(old(fighters)[1], *rs),
{
    let mut a = fighters[0];
    let mut b = fighters[1];
    regen_one(&mut a, rs);
    regen_one(&mut b, rs);
    fighters[0] = a;
    fighters[1] = b;
}

} // verus!
