//! Movement integration: velocities from state, gravity, arena walls, floor
//! and ceiling, fighter push-apart, and facing.
use crate::fighter::{attack_ok, same_tallies, spec_enter, Fighter};
use crate::fixed::{add_raw, clamp_raw, div_raw, mul_raw, sub_raw, Fixed, Vec2};
use crate::ruleset::Ruleset;
use crate::types::{spec_facing_sign, spec_is_airborne, Facing, FighterState};
use vstd::prelude::*;

verus! {

/// Half a fighter's width.
pub open spec fn spec_half_width(rs: Ruleset) -> i32 {
    div_raw(rs.fighter_width.0, 2i32 << 16u32)
}

/// Horizontal velocity a grounded state drives, or the current one for
/// airborne states.
pub open spec fn spec_state_velocity_x(f: Fighter, rs: Ruleset) -> i32 {
    let dir = spec_facing_sign(f.facing) << 16u32;
    let dash_sign: i32 = if f.dash_forward {
        spec_facing_sign(f.facing)
    } else {
        (-spec_facing_sign(f.facing)) as i32
    };
    match f.state {
        FighterState::WalkFwd => mul_raw(rs.walk_speed_per_tick.0, dir),
        FighterState::WalkBack => mul_raw((-rs.walk_speed_per_tick.0) as i32, dir),
        FighterState::DashFwd | FighterState::DashBack => mul_raw(
            rs.dash_speed_per_tick.0,
            dash_sign << 16u32,
        ),
        FighterState::JumpRise | FighterState::JumpFall => f.velocity.x.0,
        _ => 0,
    }
}

/// One fighter after its own movement step: velocity from state, gravity
/// when airborne, integration, then floor, ceiling and wall clamps.
#[verifier::opaque]
pub open spec fn spec_move_one(f: Fighter, rs: Ruleset) -> Fighter {
    let vx = spec_state_velocity_x(f, rs);
    let vy = if spec_is_airborne(f.state) {
        sub_raw(f.velocity.y.0, rs.gravity_per_tick.0)
    } else {
        f.velocity.y.0
    };
    let px = add_raw(f.position.x.0, vx);
    let py = add_raw(f.position.y.0, vy);
    // floor
    let landed = py <= 0;
    let py1 = if landed { 0 } else { py };
    let vy1 = if landed { 0 } else { vy };
    let st = if landed && f.state == FighterState::JumpFall {
        spec_enter(f, FighterState::Idle)
    } else {
        f
    };
    // ceiling
    let max_y = sub_raw(rs.ceiling.0, rs.fighter_height.0);
    let py2 = if py1 > max_y { max_y } else { py1 };
    let vy2 = if py1 > max_y && vy1 > 0 { 0 } else { vy1 };
    // walls
    let half_w = spec_half_width(rs);
    let max_x = sub_raw(rs.arena_width.0, half_w);
    let px1 = if px < half_w { half_w } else { px };
    let px2 = if px1 > max_x { max_x } else { px1 };
    Fighter {
        position: Vec2 { x: Fixed(px2), y: Fixed(py2) },
        velocity: Vec2 { x: Fixed(vx), y: Fixed(vy2) },
        ..st
    }
}

/// Push two fighters apart when closer than a fighter's width, each by half
/// the overlap, then clamp both inside the walls.
pub open spec fn spec_push_apart(a: Fighter, b: Fighter, rs: Ruleset) -> (Fighter, Fighter) {
    let half_w = spec_half_width(rs);
    let min_sep = add_raw(half_w, half_w);
    let a_left = a.position.x.0 <= b.position.x.0;
    let l = if a_left { a } else { b };
    let r = if a_left { b } else { a };
    let sep = sub_raw(r.position.x.0, l.position.x.0);
    if sep < min_sep {
        let overlap = sub_raw(min_sep, sep);
        let push = div_raw(overlap, 2i32 << 16u32);
        let max_x = sub_raw(rs.arena_width.0, half_w);
        let lx = clamp_raw(sub_raw(l.position.x.0, push), half_w, max_x);
        let rx = clamp_raw(add_raw(r.position.x.0, push), half_w, max_x);
        let l2 = Fighter { position: Vec2 { x: Fixed(lx), ..l.position }, ..l };
        let r2 = Fighter { position: Vec2 { x: Fixed(rx), ..r.position }, ..r };
        if a_left {
            (l2, r2)
        } else {
            (r2, l2)
        }
    } else {
        (a, b)
    }
}

/// Fighters always face each other: the left one (ties go to fighter 0)
/// faces right.
pub open spec fn spec_face(a: Fighter, b: Fighter) -> (Fighter, Fighter) {
    if a.position.x.0 <= b.position.x.0 {
        (Fighter { facing: Facing::Right, ..a }, Fighter { facing: Facing::Left, ..b })
    } else {
        (Fighter { facing: Facing::Left, ..a }, Fighter { facing: Facing::Right, ..b })
    }
}

/// Both fighters after a movement phase.
#[verifier::opaque]
pub open spec fn spec_integrate(a: Fighter, b: Fighter, rs: Ruleset) -> (Fighter, Fighter) {
    let (a2, b2) = spec_push_apart(spec_move_one(a, rs), spec_move_one(b, rs), rs);
    spec_face(a2, b2)
}

/// Movement touches no meter or tally, and ends no attack.
pub proof fn lemma_integrate_frame(a: Fighter, b: Fighter, rs: Ruleset)
    requires
        attack_ok(a),
        attack_ok(b),
    ensures
        same_tallies(a, spec_integrate(a, b, rs).0),
        same_tallies(b, spec_integrate(a, b, rs).1),
        attack_ok(spec_integrate(a, b, rs).0),
        attack_ok(spec_integrate(a, b, rs).1),
{
    reveal(spec_move_one);
    reveal(spec_integrate);
}

fn move_one(f: &mut Fighter, rs: &Ruleset)
    requires
        rs.walk_speed_per_tick.0 != i32::MIN,
    ensures
        *final(f) == spec_move_one(*old(f), *rs),
{
    reveal(spec_move_one);
    let dir_sign = Fixed::from_int(f.facing.sign());
    match f.state {
        FighterState::WalkFwd => f.velocity.x = rs.walk_speed_per_tick.mul(dir_sign),
        FighterState::WalkBack => f.velocity.x = rs.walk_speed_per_tick.neg().mul(dir_sign),
        FighterState::DashFwd | FighterState::DashBack => {
            let s = if f.dash_forward {
                f.facing.sign()
            } else {
                -f.facing.sign()
            };
            f.velocity.x = rs.dash_speed_per_tick.mul(Fixed::from_int(s));
        },
        FighterState::JumpRise | FighterState::JumpFall => {},
        _ => {
            f.velocity.x = Fixed::zero();
        },
    }
    if f.state.is_airborne() {
        f.velocity.y = f.velocity.y.sub(rs.gravity_per_tick);
    }
    f.position = f.position.plus(f.velocity);
    if f.position.y.0 <= 0 {
        f.position.y = Fixed::zero();
        f.velocity.y = Fixed::zero();
        if f.state == FighterState::JumpFall {
            f.enter_state(FighterState::Idle);
        }
    }
    let max_y = rs.ceiling.sub(rs.fighter_height);
    if f.position.y.0 > max_y.0 {
        f.position.y = max_y;
        if f.velocity.y.0 > 0 {
            f.velocity.y = Fixed::zero();
        }
    }
    let half_w = rs.fighter_width.div(Fixed::from_int(2));
    let min_x = half_w;
    let max_x = rs.arena_width.sub(half_w);
    if f.position.x.0 < min_x.0 {
        f.position.x = min_x;
    }
    if f.position.x.0 > max_x.0 {
        f.position.x = max_x;
    }
}

fn push_apart(a: &mut Fighter, b: &mut Fighter, rs: &Ruleset)
    ensures
        (*final(a), *final(b)) == spec_push_apart(*old(a), *old(b), *rs),
{
    let half_w = rs.fighter_width.div(Fixed::from_int(2));
    let min_sep = half_w.add(half_w);
    let a_left = a.position.x.0 <= b.position.x.0;
    let mut l = if a_left { *a } else { *b };
    let mut r = if a_left { *b } else { *a };
    let sep = r.position.x.sub(l.position.x);
    if sep.0 < min_sep.0 {
        let overlap = min_sep.sub(sep);
        let push = overlap.div(Fixed::from_int(2));
        l.position.x = l.position.x.sub(push);
        r.position.x = r.position.x.add(push);
        let min_x = half_w;
        let max_x = rs.arena_width.sub(half_w);
        l.position.x = l.position.x.clamp(min_x, max_x);
        r.position.x = r.position.x.clamp(min_x, max_x);
        if a_left {
            *a = l;
            *b = r;
        } else {
            *a = r;
            *b = l;
        }
    }
}

fn face(a: &mut Fighter, b: &mut Fighter)
    ensures
        (*final(a), *final(b)) == spec_face(*old(a), *old(b)),
{
    if a.position.x.0 <= b.position.x.0 {
        a.facing = Facing::Right;
        b.facing = Facing::Left;
    } else {
        a.facing = Facing::Left;
        b.facing = Facing::Right;
    }
}

/// Integrate movement, apply gravity, clamp to arena walls and floor,
/// resolve fighter-vs-fighter push-apart, and turn fighters to face each other.
pub fn integrate(fighters: &mut [Fighter; 2], rs: &Ruleset)
    requires
        rs.walk_speed_per_tick.0 != i32::MIN,
    ensures
        (final(fighters)[0], final(fighters)[1]) == spec_integrate(old(fighters)[0], old(fighters)[1], *rs),
{
    reveal(spec_integrate);
    let mut a = fighters[0];
    let mut b = fighters[1];
    move_one(&mut a, rs);
    move_one(&mut b, rs);

    push_apart(&mut a, &mut b, rs);
    face(&mut a, &mut b);
    fighters[0] = a;
    fighters[1] = b;
}

} // verus!
