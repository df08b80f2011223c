//! The shared vocabulary: facings, directions, intents, fighter states and
//! what an agent is allowed to observe.
use crate::fixed::{Fixed, Vec2};
use vstd::prelude::*;

verus! {

/// Which way a fighter faces.
#[derive(Debug, Clone, Copy, PartialEq, Eq, Hash, Structural)]
pub enum Facing {
    Right,
    Left,
}

impl Facing {
    /// Whether this is `Right`.
    pub fn is_right(self) -> (r: bool)
        ensures
            r == (self == Facing::Right),
    {
        match self {
            Facing::Right => true,
            Facing::Left => false,
        }
    }

    /// The other facing.
    pub fn opposite(self) -> (r: Facing)
        ensures
            r != self,
    {
        match self {
            Facing::Right => Facing::Left,
            Facing::Left => Facing::Right,
        }
    }

    /// `1` facing right, `-1` facing left.
    pub fn sign(self) -> (r: i32)
        ensures
            r == spec_facing_sign(self),
    {
        match self {
            Facing::Right => 1,
            Facing::Left => -1,
        }
    }
}

/// `1` facing right, `-1` facing left.
pub open spec fn spec_facing_sign(f: Facing) -> i32 {
    match f {
        Facing::Right => 1i32,
        Facing::Left => -1i32,
    }
}

/// 9-way direction, in local terms (Forward is relative to a fighter's facing).
#[derive(Debug, Clone, Copy, PartialEq, Eq, Hash, Structural)]
pub enum Direction {
    Neutral,
    Forward,
    Back,
    Up,
    Down,
    UpForward,
    UpBack,
    DownForward,
    DownBack,
}

/// Whether a direction has a backward component.
pub open spec fn spec_is_backish(d: Direction) -> bool {
    d == Direction::Back || d == Direction::UpBack || d == Direction::DownBack
}

/// Whether a direction has a forward component.
pub open spec fn spec_is_forwardish(d: Direction) -> bool {
    d == Direction::Forward || d == Direction::UpForward || d == Direction::DownForward
}

/// The three normal attacks.
#[derive(Debug, Clone, Copy, PartialEq, Eq, Hash, Structural)]
pub enum AttackKind {
    Light,
    Medium,
    Heavy,
}

/// What an agent asks its fighter to do this tick (`Nothing` is no request).
#[derive(Debug, Clone, Copy, PartialEq, Eq, Hash, Structural)]
pub enum Intent {
    Nothing,
    Move(Direction),
    Attack(AttackKind),
    Block,
    Crouch,
    Dash(Direction),
    Jump(Direction),
    Throw,
}

impl core::default::Default for Intent {
    fn default() -> (r: Intent)
        ensures
            r == Intent::Nothing,
    {
        Intent::Nothing
    }
}

/// Every state a fighter can occupy.
#[derive(Debug, Clone, Copy, PartialEq, Eq, Hash, Structural)]
pub enum FighterState {
    Idle,
    WalkFwd,
    WalkBack,
    Crouch,
    DashFwd,
    DashBack,
    JumpRise,
    JumpFall,
    AttackStartup,
    AttackActive,
    AttackRecovery,
    BlockStand,
    BlockCrouch,
    BlockStun,
    HitStun,
    Knockdown,
    WakeUp,
    GuardCrush,
    Dizzy,
    ThrowAttempt,
    ThrowWhiff,
    Thrown,
    RoundFreeze,
    RoundOver,
}

/// In the air.
pub open spec fn spec_is_airborne(s: FighterState) -> bool {
    s == FighterState::JumpRise || s == FighterState::JumpFall
}

/// Somewhere in an attack's startup, active or recovery frames.
pub open spec fn spec_is_attack(s: FighterState) -> bool {
    s == FighterState::AttackStartup || s == FighterState::AttackActive || s
        == FighterState::AttackRecovery
}

/// Idle, walking or crouching.
pub open spec fn spec_is_neutral(s: FighterState) -> bool {
    s == FighterState::Idle || s == FighterState::WalkFwd || s == FighterState::WalkBack || s
        == FighterState::Crouch
}

/// States in which a newly polled intent is acted on: neutral, airborne,
/// and holding block (a held block is released by any intent the fighter
/// can act on other than `Block` and `Nothing`).
pub open spec fn spec_accepts_new_intent(s: FighterState) -> bool {
    spec_is_neutral(s) || spec_is_airborne(s) || s == FighterState::BlockStand || s == FighterState::BlockCrouch
}

/// Position of a state in declaration order (used for hashing and stats).
pub open spec fn spec_state_index(s: FighterState) -> u8 {
    match s {
        FighterState::Idle => 0,
        FighterState::WalkFwd => 1,
        FighterState::WalkBack => 2,
        FighterState::Crouch => 3,
        FighterState::DashFwd => 4,
        FighterState::DashBack => 5,
        FighterState::JumpRise => 6,
        FighterState::JumpFall => 7,
        FighterState::AttackStartup => 8,
        FighterState::AttackActive => 9,
        FighterState::AttackRecovery => 10,
        FighterState::BlockStand => 11,
        FighterState::BlockCrouch => 12,
        FighterState::BlockStun => 13,
        FighterState::HitStun => 14,
        FighterState::Knockdown => 15,
        FighterState::WakeUp => 16,
        FighterState::GuardCrush => 17,
        FighterState::Dizzy => 18,
        FighterState::ThrowAttempt => 19,
        FighterState::ThrowWhiff => 20,
        FighterState::Thrown => 21,
        FighterState::RoundFreeze => 22,
        FighterState::RoundOver => 23,
    }
}

impl FighterState {
    /// In the air.
    pub fn is_airborne(self) -> (r: bool)
        ensures
            r == spec_is_airborne(self),
    {
        match self {
            FighterState::JumpRise | FighterState::JumpFall => true,
            _ => false,
        }
    }

    /// In an attack's startup, active or recovery frames.
    pub fn is_attack(self) -> (r: bool)
        ensures
            r == spec_is_attack(self),
    {
        match self {
            FighterState::AttackStartup | FighterState::AttackActive
            | FighterState::AttackRecovery => true,
            _ => false,
        }
    }

    /// In blockstun or hitstun.
    pub fn is_blockstun_or_hitstun(self) -> (r: bool)
        ensures
            r == (self == FighterState::BlockStun || self == FighterState::HitStun),
    {
        match self {
            FighterState::BlockStun | FighterState::HitStun => true,
            _ => false,
        }
    }

    /// Idle, walking or crouching.
    pub fn is_neutral(self) -> (r: bool)
        ensures
            r == spec_is_neutral(self),
    {
        match self {
            FighterState::Idle | FighterState::WalkFwd | FighterState::WalkBack
            | FighterState::Crouch => true,
            _ => false,
        }
    }

    /// On the ground (not airborne).
    pub fn is_grounded(self) -> (r: bool)
        ensures
            r == !spec_is_airborne(self),
    {
        !self.is_airborne()
    }

    /// Whether a newly polled intent is acted on in this state.
    ///
    /// A held block (`BlockStand`, `BlockCrouch`) takes new intents like a
    /// neutral state does: a move, crouch, dash, jump, attack or throw the
    /// fighter can act on releases it, while `Block` and `Nothing` leave it
    /// held. A fighter that stays in block therefore does so because its
    /// agent, polled again, asked for nothing else; the engine never keeps
    /// it there against a new request. Block stun and guard crush still run
    /// out before any intent is read.
    pub fn accepts_new_intent(self) -> (r: bool)
        ensures
            r == spec_accepts_new_intent(self),
    {
        match self {
            FighterState::Idle | FighterState::WalkFwd | FighterState::WalkBack
            | FighterState::Crouch | FighterState::JumpRise | FighterState::JumpFall
            | FighterState::BlockStand | FighterState::BlockCrouch => true,
            _ => false,
        }
    }

    /// Position of the state in declaration order.
    pub fn index(self) -> (r: u8)
        ensures
            r == spec_state_index(self),
            r < 24,
    {
        match self {
            FighterState::Idle => 0,
            FighterState::WalkFwd => 1,
            FighterState::WalkBack => 2,
            FighterState::Crouch => 3,
            FighterState::DashFwd => 4,
            FighterState::DashBack => 5,
            FighterState::JumpRise => 6,
            FighterState::JumpFall => 7,
            FighterState::AttackStartup => 8,
            FighterState::AttackActive => 9,
            FighterState::AttackRecovery => 10,
            FighterState::BlockStand => 11,
            FighterState::BlockCrouch => 12,
            FighterState::BlockStun => 13,
            FighterState::HitStun => 14,
            FighterState::Knockdown => 15,
            FighterState::WakeUp => 16,
            FighterState::GuardCrush => 17,
            FighterState::Dizzy => 18,
            FighterState::ThrowAttempt => 19,
            FighterState::ThrowWhiff => 20,
            FighterState::Thrown => 21,
            FighterState::RoundFreeze => 22,
            FighterState::RoundOver => 23,
        }
    }
}

/// What an agent may see of one fighter.
#[derive(Debug, Clone, Copy, PartialEq, Eq, Structural)]
pub struct FighterView {
    pub position: Vec2,
    pub velocity: Vec2,
    pub facing: Facing,
    pub vitality: i32,
    pub surge: i32,
    pub guard: i32,
    pub state: FighterState,
    pub state_tick: u16,
    pub combo_count: u8,
    pub airborne: bool,
}

/// Everything an agent is told when polled.
#[derive(Debug, Clone, Copy, PartialEq, Eq, Structural)]
pub struct Observation {
    pub tick: u32,
    pub round: u8,
    pub ticks_remaining: u32,
    pub me: FighterView,
    pub opponent: FighterView,
    pub distance: Fixed,
    pub my_corner_distance: Fixed,
    pub opponent_corner_distance: Fixed,
}

/// A decision-maker controlling one fighter. Its behaviour is a function
/// of its model: what it decides on an observation, and what it keeps
/// after being reset between rounds.
pub trait Agent {
    /// The mathematical content of the agent.
    type Model;

    /// The agent's current model.
    spec fn model(&self) -> Self::Model;

    /// The model after deciding on `obs`, and the intent decided.
    spec fn spec_decide(m: Self::Model, obs: Observation) -> (Self::Model, Intent);

    /// The model after a reset.
    spec fn spec_reset(m: Self::Model) -> Self::Model;

    /// Short lower-case name.
    fn name(&self) -> &str;

    /// Choose an intent from a (delayed) observation.
    fn decide(&mut self, obs: &Observation) -> (r: Intent)
        ensures
            (final(self).model(), r) == Self::spec_decide(old(self).model(), *obs),
    ;

    /// Forget per-round memory; called between rounds.
    fn reset(&mut self)
        ensures
            final(self).model() == Self::spec_reset(old(self).model()),
    ;
}

} // verus!
