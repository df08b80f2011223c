//! Per-fighter simulation state.
use crate::fixed::Vec2;
use crate::ruleset::VALUE_MAX;
use crate::types::{spec_is_airborne, spec_is_attack, AttackKind, Facing, FighterState, FighterView, Intent};
use vstd::prelude::*;

verus! {

/// Everything the engine tracks about one fighter.
#[derive(Debug, Clone, Copy, PartialEq, Eq, Structural)]
pub struct Fighter {
    pub position: Vec2,
    pub velocity: Vec2,
    pub facing: Facing,
    pub vitality: i32,
    pub surge: i32,
    pub guard: i32,
    pub state: FighterState,
    pub state_tick: u16,
    pub combo_count: u8,
    pub hitstop: u16,
    /// Intent persists between agent polls; only overwritten when the agent is polled.
    pub current_intent: Intent,
    /// Which normal is currently mid-execution, if any.
    pub attack_kind: Option<AttackKind>,
    pub attack_crouching: bool,
    pub attack_jumping: bool,
    pub attack_hit_registered: bool,
    pub dash_forward: bool,
    /// Global tick of the most recent throw attempt, for the tech window.
    pub last_throw_attempt_tick: Option<u32>,
    /// Target duration for the current HitStun/BlockStun, set when entered.
    pub stun_ticks_target: u16,
    pub total_hits_landed: u32,
    pub total_damage_dealt: i32,
    pub warnings_this_round: u8,
}

/// A fighter at the start of a round.
pub open spec fn spec_new_fighter(position: Vec2, facing: Facing, vitality: i32, guard_max: i32) -> Fighter {
    Fighter {
        position,
        velocity: Vec2 { x: crate::fixed::Fixed(0), y: crate::fixed::Fixed(0) },
        facing,
        vitality,
        surge: 0,
        guard: guard_max,
        state: FighterState::RoundFreeze,
        state_tick: 0,
        combo_count: 0,
        hitstop: 0,
        current_intent: Intent::Nothing,
        attack_kind: None,
        attack_crouching: false,
        attack_jumping: false,
        attack_hit_registered: false,
        dash_forward: true,
        last_throw_attempt_tick: None,
        stun_ticks_target: 0,
        total_hits_landed: 0,
        total_damage_dealt: 0,
        warnings_this_round: 0,
    }
}

/// `f` moved into `state` with its state clock restarted.
pub open spec fn spec_enter(f: Fighter, state: FighterState) -> Fighter {
    Fighter { state, state_tick: 0, ..f }
}

/// Crouching, or blocking low.
pub open spec fn spec_crouched(f: Fighter) -> bool {
    f.state == FighterState::Crouch || f.state == FighterState::BlockCrouch
}

/// What agents may see of `f`.
pub open spec fn spec_view(f: Fighter) -> FighterView {
    FighterView {
        position: f.position,
        velocity: f.velocity,
        facing: f.facing,
        vitality: f.vitality,
        surge: f.surge,
        guard: f.guard,
        state: f.state,
        state_tick: f.state_tick,
        combo_count: f.combo_count,
        airborne: spec_is_airborne(f.state),
    }
}

/// Attacking only with an attack kind recorded.
pub open spec fn attack_ok(f: Fighter) -> bool {
    spec_is_attack(f.state) ==> f.attack_kind.is_some()
}

/// `g` carries `f`'s vitality, surge, guard, hitstop and round tallies.
pub open spec fn same_tallies(f: Fighter, g: Fighter) -> bool {
    &&& g.vitality == f.vitality
    &&& g.surge == f.surge
    &&& g.guard == f.guard
    &&& g.hitstop == f.hitstop
    &&& g.total_hits_landed == f.total_hits_landed
    &&& g.total_damage_dealt == f.total_damage_dealt
    &&& g.warnings_this_round == f.warnings_this_round
}

impl Fighter {
    /// Vitality, surge and guard within the engine's value range.
    pub open spec fn meters_ok(self) -> bool {
        &&& 0 <= self.vitality <= VALUE_MAX
        &&& 0 <= self.surge <= VALUE_MAX
        &&& 0 <= self.guard <= VALUE_MAX
    }

    /// Hit and damage counters with headroom for one more hit.
    pub open spec fn counters_ok(self) -> bool {
        &&& 0 <= self.total_damage_dealt <= VALUE_MAX
        &&& self.total_hits_landed < u32::MAX
    }

    /// Meters within the engine's value range, hit/damage counters with
    /// headroom for one more hit, and an attack kind whenever attacking.
    pub open spec fn wf(self) -> bool {
        &&& self.meters_ok()
        &&& self.counters_ok()
        &&& attack_ok(self)
    }

    /// A fighter at the start of a round.
    pub fn new(position: Vec2, facing: Facing, vitality: i32, guard_max: i32) -> (r: Fighter)
        ensures
            r == spec_new_fighter(position, facing, vitality, guard_max),
    {
        Fighter {
            position,
            velocity: Vec2::zero(),
            facing,
            vitality,
            surge: 0,
            guard: guard_max,
            state: FighterState::RoundFreeze,
            state_tick: 0,
            combo_count: 0,
            hitstop: 0,
            current_intent: Intent::Nothing,
            attack_kind: None,
            attack_crouching: false,
            attack_jumping: false,
            attack_hit_registered: false,
            dash_forward: true,
            last_throw_attempt_tick: None,
            stun_ticks_target: 0,
            total_hits_landed: 0,
            total_damage_dealt: 0,
            warnings_this_round: 0,
        }
    }

    /// Crouching, or blocking low.
    pub fn is_crouched_stance(&self) -> (r: bool)
        ensures
            r == spec_crouched(*self),
    {
        match self.state {
            FighterState::Crouch | FighterState::BlockCrouch => true,
            _ => false,
        }
    }

    /// What agents may see of this fighter.
    pub fn view(&self) -> (r: FighterView)
        ensures
            r == spec_view(*self),
    {
        FighterView {
            position: self.position,
            velocity: self.velocity,
            facing: self.facing,
            vitality: self.vitality,
            surge: self.surge,
            guard: self.guard,
            state: self.state,
            state_tick: self.state_tick,
            combo_count: self.combo_count,
            airborne: self.state.is_airborne(),
        }
    }

    /// Move into `state`, restarting the state clock.
    pub fn enter_state(&mut self, state: FighterState)
        ensures
            *final(self) == spec_enter(*old(self), state),
    {
        self.state = state;
        self.state_tick = 0;
    }
}

} // verus!
