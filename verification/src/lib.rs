//! A deterministic fixed-point fighting-game engine: two fighters, one
//! ruleset, one seed, and a per-tick hash chain that makes every bout
//! reproducible from its intent stream.
use vstd::prelude::*;

pub mod aggregate;
pub mod agents;
pub mod bounds;
pub mod bout;
pub mod combat;
pub mod fighter;
pub mod fixed;
pub mod frames;
pub mod geometry;
pub mod hash;
pub mod inspect;
pub mod laws;
pub mod movement;
pub mod replay;
pub mod rng;
pub mod ruleset;
pub mod sim;
pub mod state_machine;
pub mod tally;
pub mod text;
pub mod stats;
pub mod tourney;
pub mod trace;
pub mod types;

pub use fixed::{Fixed, Vec2};
pub use ruleset::{default_ruleset, Ruleset};
pub use sim::{MatchEndReason, MatchResult, Phase, RoundOutcome, Sim, TickReport};
pub use types::{Agent, AttackKind, Direction, Facing, FighterState, FighterView, Intent, Observation};

verus! {

} // verus!
