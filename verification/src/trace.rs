//! The per-tick facts a bout viewer draws, named by the keys its file
//! format uses: which hitbox is out, what hit and who was warned, and how
//! rounds and matches ended. Nothing here feeds back into the simulation.
use crate::combat::HitLog;
use crate::sim::{MatchEndReason, RoundOutcome, WarnLog};
use crate::types::{AttackKind, Direction, Facing, FighterState, Intent};
use vstd::prelude::*;

verus! {

/// The key of the hitbox an attack uses.
pub open spec fn spec_hitbox_key(kind: AttackKind, crouching: bool) -> Seq<char> {
    match kind {
        AttackKind::Light => if crouching { "light_crouch"@ } else { "light"@ },
        AttackKind::Medium => if crouching { "medium_crouch"@ } else { "medium"@ },
        AttackKind::Heavy => "heavy"@,
    }
}

/// The key of the hitbox an attack uses: Heavy has no crouching variant.
pub fn hitbox_key(kind: AttackKind, crouching: bool) -> (r: &'static str)
    ensures
        r@ == spec_hitbox_key(kind, crouching),
{
    match kind {
        AttackKind::Light => if crouching { "light_crouch" } else { "light" },
        AttackKind::Medium => if crouching { "medium_crouch" } else { "medium" },
        AttackKind::Heavy => "heavy",
    }
}

/// The hitbox a fighter shows this tick: its attack's, while the attack is
/// in its active frames.
pub open spec fn spec_active_hitbox(state: FighterState, variant: Option<(AttackKind, bool, bool)>) -> Option<Seq<char>> {
    match variant {
        Some((kind, crouching, _)) if state == FighterState::AttackActive => Some(spec_hitbox_key(kind, crouching)),
        _ => None,
    }
}

/// The hitbox a fighter shows this tick, given its state and the attack
/// variant it is executing.
pub fn active_hitbox(state: FighterState, variant: Option<(AttackKind, bool, bool)>) -> (r: Option<&'static str>)
    ensures
        r.is_some() == spec_active_hitbox(state, variant).is_some(),
        r.is_some() ==> r.unwrap()@ == spec_active_hitbox(state, variant).unwrap(),
{
    match variant {
        Some((kind, crouching, _)) => {
            if state == FighterState::AttackActive {
                Some(hitbox_key(kind, crouching))
            } else {
                None
            }
        },
        None => None,
    }
}

/// The key of a facing.
pub fn facing_key(facing: Facing) -> (r: &'static str)
    ensures
        r@ == (if facing == Facing::Right { "right"@ } else { "left"@ }),
{
    match facing {
        Facing::Right => "right",
        Facing::Left => "left",
    }
}

/// The key of a direction.
pub open spec fn spec_direction_key(d: Direction) -> Seq<char> {
    match d {
        Direction::Neutral => "neutral"@,
        Direction::Forward => "forward"@,
        Direction::Back => "back"@,
        Direction::Up => "up"@,
        Direction::Down => "down"@,
        Direction::UpForward => "up_forward"@,
        Direction::UpBack => "up_back"@,
        Direction::DownForward => "down_forward"@,
        Direction::DownBack => "down_back"@,
    }
}

/// The key of a direction.
pub fn direction_key(d: Direction) -> (r: &'static str)
    ensures
        r@ == spec_direction_key(d),
{
    match d {
        Direction::Neutral => "neutral",
        Direction::Forward => "forward",
        Direction::Back => "back",
        Direction::Up => "up",
        Direction::Down => "down",
        Direction::UpForward => "up_forward",
        Direction::UpBack => "up_back",
        Direction::DownForward => "down_forward",
        Direction::DownBack => "down_back",
    }
}

/// The key of an attack: its standing hitbox's key.
pub fn attack_key(k: AttackKind) -> (r: &'static str)
    ensures
        r@ == spec_hitbox_key(k, false),
{
    hitbox_key(k, false)
}

/// An intent as the viewer records it: the action, and the direction or
/// attack it carries, if any.
pub open spec fn spec_intent_keys(intent: Intent) -> (Seq<char>, Option<Seq<char>>, Option<Seq<char>>) {
    match intent {
        Intent::Nothing => ("none"@, None, None),
        Intent::Move(d) => ("move"@, Some(spec_direction_key(d)), None),
        Intent::Attack(k) => ("attack"@, None, Some(spec_hitbox_key(k, false))),
        Intent::Block => ("block"@, None, None),
        Intent::Crouch => ("crouch"@, None, None),
        Intent::Dash(d) => ("dash"@, Some(spec_direction_key(d)), None),
        Intent::Jump(d) => ("jump"@, Some(spec_direction_key(d)), None),
        Intent::Throw => ("throw"@, None, None),
    }
}

/// The view of an optional key.
pub open spec fn opt_view(k: Option<&'static str>) -> Option<Seq<char>> {
    match k {
        Some(s) => Some(s@),
        None => None,
    }
}

/// An intent as the viewer records it: the action, and the direction or
/// attack it carries, if any.
pub fn intent_keys(intent: Intent) -> (r: (&'static str, Option<&'static str>, Option<&'static str>))
    ensures
        (r.0@, opt_view(r.1), opt_view(r.2)) == spec_intent_keys(intent),
{
    match intent {
        Intent::Nothing => ("none", None, None),
        Intent::Move(d) => ("move", Some(direction_key(d)), None),
        Intent::Attack(k) => ("attack", None, Some(attack_key(k))),
        Intent::Block => ("block", None, None),
        Intent::Crouch => ("crouch", None, None),
        Intent::Dash(d) => ("dash", Some(direction_key(d)), None),
        Intent::Jump(d) => ("jump", Some(direction_key(d)), None),
        Intent::Throw => ("throw", None, None),
    }
}

/// The key of a round's ending.
pub fn round_outcome_key(o: RoundOutcome) -> (r: &'static str)
    ensures
        r@ == (match o {
            RoundOutcome::Ko { .. } => "ko"@,
            RoundOutcome::Timeout { .. } => "timeout"@,
            RoundOutcome::DoubleKo => "double_ko"@,
        }),
{
    match o {
        RoundOutcome::Ko { .. } => "ko",
        RoundOutcome::Timeout { .. } => "timeout",
        RoundOutcome::DoubleKo => "double_ko",
    }
}

/// The key of a match's ending.
pub fn match_reason_key(r: MatchEndReason) -> (s: &'static str)
    ensures
        s@ == (match r {
            MatchEndReason::Ko => "ko"@,
            MatchEndReason::Timeout => "timeout"@,
            MatchEndReason::SuddenDeath => "sudden_death"@,
        }),
{
    match r {
        MatchEndReason::Ko => "ko",
        MatchEndReason::Timeout => "timeout",
        MatchEndReason::SuddenDeath => "sudden_death",
    }
}

/// A hit as the viewer records it.
#[derive(Debug, Clone)]
pub struct TraceHit {
    pub attacker: usize,
    pub defender: usize,
    pub blocked: bool,
    pub damage: i32,
    /// The key of the normal that connected (`None` for throws and techs).
    pub kind: Option<String>,
    pub is_throw: bool,
    pub is_tech: bool,
    pub hard_knockdown: bool,
}

impl TraceHit {
    /// The viewer's record of a hit: the same facts, with the attack named
    /// by its key.
    pub fn from_hit(h: &HitLog) -> (r: TraceHit)
        ensures
            r.attacker == h.attacker_idx,
            r.defender == h.defender_idx,
            r.blocked == h.blocked,
            r.damage == h.damage,
            r.is_throw == h.is_throw,
            r.is_tech == h.is_tech,
            r.hard_knockdown == h.hard_knockdown,
            r.kind.is_some() == h.kind.is_some(),
            h.kind.is_some() ==> r.kind.unwrap()@ == spec_hitbox_key(h.kind.unwrap(), false),
    {
        let kind = match h.kind {
            Some(k) => Some(String::from_str(attack_key(k))),
            None => None,
        };
        TraceHit {
            attacker: h.attacker_idx,
            defender: h.defender_idx,
            blocked: h.blocked,
            damage: h.damage,
            kind,
            is_throw: h.is_throw,
            is_tech: h.is_tech,
            hard_knockdown: h.hard_knockdown,
        }
    }
}

/// A passivity warning as the viewer records it.
#[derive(Debug, Clone, Copy, PartialEq, Eq, Structural)]
pub struct TraceWarning {
    pub fighter_idx: usize,
    pub second_warning: bool,
}

impl TraceWarning {
    /// The viewer's record of a warning.
    pub fn from_warning(w: &WarnLog) -> (r: TraceWarning)
        ensures
            r.fighter_idx == w.fighter_idx,
            r.second_warning == w.second_warning,
    {
        TraceWarning { fighter_idx: w.fighter_idx, second_warning: w.second_warning }
    }
}

/// The viewer's records of a tick's hits, in order.
pub fn trace_hits(hits: &Vec<HitLog>) -> (r: Vec<TraceHit>)
    ensures
        r.len() == hits.len(),
        forall|i: int|
            0 <= i < hits.len() ==> {
                &&& #[trigger] r[i].attacker == hits[i].attacker_idx
                &&& r[i].defender == hits[i].defender_idx
                &&& r[i].blocked == hits[i].blocked
                &&& r[i].damage == hits[i].damage
                &&& r[i].is_throw == hits[i].is_throw
                &&& r[i].is_tech == hits[i].is_tech
                &&& r[i].hard_knockdown == hits[i].hard_knockdown
                &&& r[i].kind.is_some() == hits[i].kind.is_some()
                &&& hits[i].kind.is_some() ==> r[i].kind.unwrap()@ == spec_hitbox_key(hits[i].kind.unwrap(), false)
            },
{
    let mut out: Vec<TraceHit> = Vec::new();
    let mut i: usize = 0;
    while i < hits.len()
        invariant
            i <= hits.len(),
            out.len() == i,
            forall|j: int|
                0 <= j < i ==> {
                    &&& #[trigger] out[j].attacker == hits[j].attacker_idx
                    &&& out[j].defender == hits[j].defender_idx
                    &&& out[j].blocked == hits[j].blocked
                    &&& out[j].damage == hits[j].damage
                    &&& out[j].is_throw == hits[j].is_throw
                    &&& out[j].is_tech == hits[j].is_tech
                    &&& out[j].hard_knockdown == hits[j].hard_knockdown
                    &&& out[j].kind.is_some() == hits[j].kind.is_some()
                    &&& hits[j].kind.is_some() ==> out[j].kind.unwrap()@ == spec_hitbox_key(hits[j].kind.unwrap(), false)
                },
        decreases hits.len() - i,
    {
        out.push(TraceHit::from_hit(&hits[i]));
        i += 1;
    }
    out
}

/// The viewer's records of a tick's warnings, in order.
pub fn trace_warnings(warnings: &Vec<WarnLog>) -> (r: Vec<TraceWarning>)
    ensures
        r.len() == warnings.len(),
        forall|i: int|
            0 <= i < warnings.len() ==> #[trigger] r[i] == (TraceWarning {
                fighter_idx: warnings[i].fighter_idx,
                second_warning: warnings[i].second_warning,
            }),
{
    let mut out: Vec<TraceWarning> = Vec::new();
    let mut i: usize = 0;
    while i < warnings.len()
        invariant
            i <= warnings.len(),
            out.len() == i,
            forall|j: int|
                0 <= j < i ==> #[trigger] out[j] == (TraceWarning {
                    fighter_idx: warnings[j].fighter_idx,
                    second_warning: warnings[j].second_warning,
                }),
        decreases warnings.len() - i,
    {
        out.push(TraceWarning::from_warning(&warnings[i]));
        i += 1;
    }
    out
}

} // verus!
