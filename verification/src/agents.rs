//! Scripted agents: the fixtures each engine rule is tested against, and
//! the random baseline every other agent must beat.
use crate::fixed::{sub_raw, Fixed};
use crate::rng::{spec_bounded, spec_seeded, Pcg32};
use crate::types::{spec_is_attack, Agent, AttackKind, Direction, FighterState, Intent, Observation};
use vstd::prelude::*;

verus! {

/// One unit of distance, in raw Q16.16.
pub open spec fn units(n: int) -> int {
    n * 65536
}

/// A stalemate clock: counts polls on which neither fighter's vitality
/// moved, and fires once every `threshold_polls` such polls in a row.
struct ProbeTimer {
    last_my_vitality: i32,
    last_opponent_vitality: i32,
    stale_polls: u32,
    threshold_polls: u32,
}

/// The mathematical content of a `ProbeTimer`.
pub struct ProbeModel {
    pub last_my_vitality: i32,
    pub last_opponent_vitality: i32,
    pub stale_polls: u32,
    pub threshold_polls: u32,
}

impl View for ProbeTimer {
    type V = ProbeModel;

    closed spec fn view(&self) -> ProbeModel {
        ProbeModel {
            last_my_vitality: self.last_my_vitality,
            last_opponent_vitality: self.last_opponent_vitality,
            stale_polls: self.stale_polls,
            threshold_polls: self.threshold_polls,
        }
    }
}

/// A stale streak below its threshold (or just restarted).
pub open spec fn probe_ok(p: ProbeModel) -> bool {
    p.stale_polls < p.threshold_polls || p.stale_polls == 0
}

/// One poll of the stalemate clock: the new clock, and whether to probe now.
pub open spec fn spec_should_probe(p: ProbeModel, obs: Observation) -> (ProbeModel, bool) {
    let unchanged = obs.me.vitality == p.last_my_vitality && obs.opponent.vitality == p.last_opponent_vitality;
    let stale = if unchanged { p.stale_polls + 1 } else { 0 };
    if stale >= p.threshold_polls {
        (
            ProbeModel {
                last_my_vitality: obs.me.vitality,
                last_opponent_vitality: obs.opponent.vitality,
                stale_polls: 0,
                ..p
            },
            true,
        )
    } else {
        (
            ProbeModel {
                last_my_vitality: obs.me.vitality,
                last_opponent_vitality: obs.opponent.vitality,
                stale_polls: stale as u32,
                ..p
            },
            false,
        )
    }
}

/// A stalemate clock that has seen nothing yet.
pub open spec fn spec_fresh_probe(threshold_polls: u32) -> ProbeModel {
    ProbeModel {
        last_my_vitality: i32::MIN,
        last_opponent_vitality: i32::MIN,
        stale_polls: 0,
        threshold_polls,
    }
}

impl ProbeTimer {
    #[verifier::type_invariant]
    spec fn inv(self) -> bool {
        probe_ok(self@)
    }

    /// `threshold_polls` counts `decide()` calls, not ticks.
    fn new(threshold_polls: u32) -> (r: ProbeTimer)
        ensures
            r@ == spec_fresh_probe(threshold_polls),
    {
        ProbeTimer { last_my_vitality: i32::MIN, last_opponent_vitality: i32::MIN, stale_polls: 0, threshold_polls }
    }

    /// Call once per `decide()`. Fires when the stale streak reaches the
    /// threshold, and restarts the streak (a periodic retry, not a latch).
    fn should_probe(&mut self, obs: &Observation) -> (r: bool)
        ensures
            (final(self)@, r) == spec_should_probe(old(self)@, *obs),
    {
        proof {
            use_type_invariant(&*self);
        }
        let unchanged = obs.me.vitality == self.last_my_vitality && obs.opponent.vitality
            == self.last_opponent_vitality;
        let stale = if unchanged {
            self.stale_polls + 1
        } else {
            0
        };
        let fire = stale >= self.threshold_polls;
        self.last_my_vitality = obs.me.vitality;
        self.last_opponent_vitality = obs.opponent.vitality;
        self.stale_polls = if fire {
            0
        } else {
            stale
        };
        fire
    }

    fn reset(&mut self)
        ensures
            final(self)@ == spec_fresh_probe(old(self)@.threshold_polls),
    {
        self.stale_polls = 0;
        self.last_my_vitality = i32::MIN;
        self.last_opponent_vitality = i32::MIN;
    }
}

/// A punching bag: never does anything.
pub struct Dummy;

impl Agent for Dummy {
    type Model = ();

    open spec fn model(&self) -> () {
        ()
    }

    open spec fn spec_decide(m: (), obs: Observation) -> ((), Intent) {
        ((), Intent::Nothing)
    }

    open spec fn spec_reset(m: ()) -> () {
        ()
    }

    fn name(&self) -> (r: &str)
        ensures
            r@ == "dummy"@,
    {
        "dummy"
    }

    fn decide(&mut self, obs: &Observation) -> (r: Intent)
        ensures
            r == Intent::Nothing,
    {
        Intent::Nothing
    }

    fn reset(&mut self) {
    }
}

/// Walks in, presses Light once within `light_range`, and blocks whenever
/// the opponent is in attack startup.
pub open spec fn spec_rusher(light_range: Fixed, obs: Observation) -> Intent {
    if obs.opponent.state == FighterState::AttackStartup {
        Intent::Block
    } else if obs.distance.0 <= light_range.0 {
        Intent::Attack(AttackKind::Light)
    } else {
        Intent::Move(Direction::Forward)
    }
}

/// Deliberately simple and deliberately beatable: walks forward, throws a
/// Light when in range, blocks when the opponent is in AttackStartup.
pub struct Rusher {
    light_range: Fixed,
}

impl View for Rusher {
    type V = Fixed;

    /// The range at which it presses Light.
    closed spec fn view(&self) -> Fixed {
        self.light_range
    }
}

impl Rusher {
    /// A Rusher that presses Light within 140 units.
    pub fn new() -> (r: Rusher)
        ensures
            r@.0 == units(140),
    {
        Rusher { light_range: Fixed::from_int(140) }
    }
}

impl core::default::Default for Rusher {
    fn default() -> (r: Rusher)
        ensures
            r@.0 == units(140),
    {
        Rusher::new()
    }
}

impl Agent for Rusher {
    type Model = Fixed;

    open spec fn model(&self) -> Fixed {
        self@
    }

    open spec fn spec_decide(m: Fixed, obs: Observation) -> (Fixed, Intent) {
        (m, spec_rusher(m, obs))
    }

    open spec fn spec_reset(m: Fixed) -> Fixed {
        m
    }

    fn name(&self) -> (r: &str)
        ensures
            r@ == "rusher"@,
    {
        "rusher"
    }

    fn decide(&mut self, obs: &Observation) -> (r: Intent)
        ensures
            r == spec_rusher(old(self)@, *obs),
            final(self)@ == old(self)@,
    {
        if obs.opponent.state == FighterState::AttackStartup {
            return Intent::Block;
        }
        if obs.distance.0 <= self.light_range.0 {
            return Intent::Attack(AttackKind::Light);
        }
        Intent::Move(Direction::Forward)
    }

    fn reset(&mut self)
        ensures
            final(self)@ == old(self)@,
    {
    }
}

/// The mathematical content of a `Turtle`.
pub struct TurtleModel {
    pub low_incoming: bool,
    pub approach_range: Fixed,
    pub probe: ProbeModel,
}

/// Turtle's poll: walk in while out of range (unless the opponent is mid
/// attack); probe with a Light when the stalemate clock fires; otherwise
/// crouch or stand to match the expected attack height, and block.
pub open spec fn spec_turtle(t: TurtleModel, obs: Observation) -> (TurtleModel, Intent) {
    let (probe, fire) = spec_should_probe(t.probe, obs);
    let opp_attacking = spec_is_attack(obs.opponent.state);
    if obs.distance.0 > t.approach_range.0 && !opp_attacking {
        (TurtleModel { probe, ..t }, Intent::Move(Direction::Forward))
    } else if fire {
        (TurtleModel { probe, ..t }, Intent::Attack(AttackKind::Light))
    } else {
        let low = if !opp_attacking { obs.opponent.state == FighterState::Crouch } else { t.low_incoming };
        let crouched = obs.me.state == FighterState::Crouch || obs.me.state == FighterState::BlockCrouch;
        let intent = if low && !crouched {
            Intent::Crouch
        } else if !low && crouched {
            Intent::Move(Direction::Neutral)
        } else {
            Intent::Block
        };
        (TurtleModel { probe, low_incoming: low, ..t }, intent)
    }
}

/// Blocks once in range and never attacks of its own accord, crouch-blocking
/// when it last saw the opponent crouching. Walks in when out of range, and
/// throws one probing Light when nobody's vitality has moved for a while.
pub struct Turtle {
    low_incoming: bool,
    approach_range: Fixed,
    probe: ProbeTimer,
}

impl View for Turtle {
    type V = TurtleModel;

    closed spec fn view(&self) -> TurtleModel {
        TurtleModel { low_incoming: self.low_incoming, approach_range: self.approach_range, probe: self.probe@ }
    }
}

impl Turtle {
    /// A Turtle that closes to 160 units and probes after 60 stale polls.
    pub fn new() -> (r: Turtle)
        ensures
            r@ == (TurtleModel {
                low_incoming: false,
                approach_range: Fixed(units(160) as i32),
                probe: spec_fresh_probe(60),
            }),
    {
        Turtle { low_incoming: false, approach_range: Fixed::from_int(160), probe: ProbeTimer::new(60) }
    }
}

impl core::default::Default for Turtle {
    fn default() -> (r: Turtle)
        ensures
            r@ == (TurtleModel {
                low_incoming: false,
                approach_range: Fixed(units(160) as i32),
                probe: spec_fresh_probe(60),
            }),
    {
        Turtle::new()
    }
}

impl Agent for Turtle {
    type Model = TurtleModel;

    open spec fn model(&self) -> TurtleModel {
        self@
    }

    open spec fn spec_decide(m: TurtleModel, obs: Observation) -> (TurtleModel, Intent) {
        spec_turtle(m, obs)
    }

    open spec fn spec_reset(m: TurtleModel) -> TurtleModel {
        TurtleModel { low_incoming: false, probe: spec_fresh_probe(m.probe.threshold_polls), ..m }
    }

    fn name(&self) -> (r: &str)
        ensures
            r@ == "turtle"@,
    {
        "turtle"
    }

    fn decide(&mut self, obs: &Observation) -> (r: Intent)
        ensures
            (final(self)@, r) == spec_turtle(old(self)@, *obs),
    {
        // Polled unconditionally so the stalemate clock keeps running even
        // while approaching.
        let should_probe = self.probe.should_probe(obs);
        let opp_attacking = obs.opponent.state.is_attack();
        if obs.distance.0 > self.approach_range.0 && !opp_attacking {
            return Intent::Move(Direction::Forward);
        }
        if should_probe {
            return Intent::Attack(AttackKind::Light);
        }
        // Read the opponent's stance only while it is not mid-swing.
        if !opp_attacking {
            self.low_incoming = obs.opponent.state == FighterState::Crouch;
        }
        let crouched = obs.me.state == FighterState::Crouch || obs.me.state == FighterState::BlockCrouch;
        if self.low_incoming && !crouched {
            Intent::Crouch
        } else if !self.low_incoming && crouched {
            Intent::Move(Direction::Neutral)
        } else {
            Intent::Block
        }
    }

    fn reset(&mut self)
        ensures
            final(self)@ == (TurtleModel {
                low_incoming: false,
                probe: spec_fresh_probe(old(self)@.probe.threshold_polls),
                ..old(self)@
            }),
    {
        self.low_incoming = false;
        self.probe.reset();
    }
}

/// The mathematical content of a `Runner`.
pub struct RunnerModel {
    pub light_range: Fixed,
    pub ahead: bool,
}

/// Runner's poll: once ahead on vitality (remembered for the round), back
/// off to its corner and block; before that, play like a Rusher.
pub open spec fn spec_runner(r: RunnerModel, obs: Observation) -> (RunnerModel, Intent) {
    let ahead = r.ahead || obs.me.vitality > obs.opponent.vitality;
    let r2 = RunnerModel { ahead, ..r };
    if ahead {
        if crate::fixed::spec_to_int(obs.my_corner_distance.0) > 80 {
            (r2, Intent::Move(Direction::Back))
        } else {
            (r2, Intent::Block)
        }
    } else {
        (r2, spec_rusher(r.light_range, obs))
    }
}

/// Attacks with Light until ahead on vitality by any margin, then retreats
/// toward its own corner and blocks for the rest of the round.
pub struct Runner {
    light_range: Fixed,
    ahead: bool,
}

impl View for Runner {
    type V = RunnerModel;

    closed spec fn view(&self) -> RunnerModel {
        RunnerModel { light_range: self.light_range, ahead: self.ahead }
    }
}

impl Runner {
    /// A Runner that presses Light within 140 units and is not ahead yet.
    pub fn new() -> (r: Runner)
        ensures
            r@ == (RunnerModel { light_range: Fixed(units(140) as i32), ahead: false }),
    {
        Runner { light_range: Fixed::from_int(140), ahead: false }
    }
}

impl core::default::Default for Runner {
    fn default() -> (r: Runner)
        ensures
            r@ == (RunnerModel { light_range: Fixed(units(140) as i32), ahead: false }),
    {
        Runner::new()
    }
}

impl Agent for Runner {
    type Model = RunnerModel;

    open spec fn model(&self) -> RunnerModel {
        self@
    }

    open spec fn spec_decide(m: RunnerModel, obs: Observation) -> (RunnerModel, Intent) {
        spec_runner(m, obs)
    }

    open spec fn spec_reset(m: RunnerModel) -> RunnerModel {
        RunnerModel { ahead: false, ..m }
    }

    fn name(&self) -> (r: &str)
        ensures
            r@ == "runner"@,
    {
        "runner"
    }

    fn decide(&mut self, obs: &Observation) -> (r: Intent)
        ensures
            (final(self)@, r) == spec_runner(old(self)@, *obs),
    {
        if !self.ahead && obs.me.vitality > obs.opponent.vitality {
            self.ahead = true;
        }
        if self.ahead {
            if obs.my_corner_distance.to_int() > 80 {
                return Intent::Move(Direction::Back);
            }
            return Intent::Block;
        }
        if obs.opponent.state == FighterState::AttackStartup {
            return Intent::Block;
        }
        if obs.distance.0 <= self.light_range.0 {
            return Intent::Attack(AttackKind::Light);
        }
        Intent::Move(Direction::Forward)
    }

    fn reset(&mut self)
        ensures
            final(self)@ == (RunnerModel { ahead: false, ..old(self)@ }),
    {
        self.ahead = false;
    }
}

/// Spammer's poll: walk in until within range, then press Light.
pub open spec fn spec_spammer(approach_range: Fixed, obs: Observation) -> Intent {
    if obs.distance.0 > approach_range.0 {
        Intent::Move(Direction::Forward)
    } else {
        Intent::Attack(AttackKind::Light)
    }
}

/// Presses Light the instant it is actionable once in range; walks forward
/// otherwise. No blocking.
pub struct Spammer {
    approach_range: Fixed,
}

impl View for Spammer {
    type V = Fixed;

    /// The range it closes to before attacking.
    closed spec fn view(&self) -> Fixed {
        self.approach_range
    }
}

impl Spammer {
    /// A Spammer that attacks within 140 units.
    pub fn new() -> (r: Spammer)
        ensures
            r@.0 == units(140),
    {
        Spammer { approach_range: Fixed::from_int(140) }
    }
}

impl core::default::Default for Spammer {
    fn default() -> (r: Spammer)
        ensures
            r@.0 == units(140),
    {
        Spammer::new()
    }
}

impl Agent for Spammer {
    type Model = Fixed;

    open spec fn model(&self) -> Fixed {
        self@
    }

    open spec fn spec_decide(m: Fixed, obs: Observation) -> (Fixed, Intent) {
        (m, spec_spammer(m, obs))
    }

    open spec fn spec_reset(m: Fixed) -> Fixed {
        m
    }

    fn name(&self) -> (r: &str)
        ensures
            r@ == "spammer"@,
    {
        "spammer"
    }

    fn decide(&mut self, obs: &Observation) -> (r: Intent)
        ensures
            r == spec_spammer(old(self)@, *obs),
            final(self)@ == old(self)@,
    {
        if obs.distance.0 > self.approach_range.0 {
            return Intent::Move(Direction::Forward);
        }
        Intent::Attack(AttackKind::Light)
    }

    fn reset(&mut self)
        ensures
            final(self)@ == old(self)@,
    {
    }
}

/// How many intents Random chooses among.
pub const LEGAL_INTENT_COUNT: u32 = 20;

/// The intents Random chooses among, by index.
pub open spec fn spec_legal_intent(i: u32) -> Intent {
    if i == 0 {
        Intent::Nothing
    } else if i == 1 {
        Intent::Move(Direction::Neutral)
    } else if i == 2 {
        Intent::Move(Direction::Forward)
    } else if i == 3 {
        Intent::Move(Direction::Back)
    } else if i == 4 {
        Intent::Move(Direction::Up)
    } else if i == 5 {
        Intent::Move(Direction::Down)
    } else if i == 6 {
        Intent::Move(Direction::UpForward)
    } else if i == 7 {
        Intent::Move(Direction::UpBack)
    } else if i == 8 {
        Intent::Move(Direction::DownForward)
    } else if i == 9 {
        Intent::Move(Direction::DownBack)
    } else if i == 10 {
        Intent::Attack(AttackKind::Light)
    } else if i == 11 {
        Intent::Attack(AttackKind::Medium)
    } else if i == 12 {
        Intent::Attack(AttackKind::Heavy)
    } else if i == 13 {
        Intent::Block
    } else if i == 14 {
        Intent::Crouch
    } else if i == 15 {
        Intent::Dash(Direction::Forward)
    } else if i == 16 {
        Intent::Dash(Direction::Back)
    } else if i == 17 {
        Intent::Jump(Direction::Forward)
    } else if i == 18 {
        Intent::Jump(Direction::Back)
    } else {
        Intent::Throw
    }
}

/// The intent Random chooses for index `i`.
pub fn legal_intent(i: u32) -> (r: Intent)
    requires
        i < LEGAL_INTENT_COUNT,
    ensures
        r == spec_legal_intent(i),
{
    match i {
        0 => Intent::Nothing,
        1 => Intent::Move(Direction::Neutral),
        2 => Intent::Move(Direction::Forward),
        3 => Intent::Move(Direction::Back),
        4 => Intent::Move(Direction::Up),
        5 => Intent::Move(Direction::Down),
        6 => Intent::Move(Direction::UpForward),
        7 => Intent::Move(Direction::UpBack),
        8 => Intent::Move(Direction::DownForward),
        9 => Intent::Move(Direction::DownBack),
        10 => Intent::Attack(AttackKind::Light),
        11 => Intent::Attack(AttackKind::Medium),
        12 => Intent::Attack(AttackKind::Heavy),
        13 => Intent::Block,
        14 => Intent::Crouch,
        15 => Intent::Dash(Direction::Forward),
        16 => Intent::Dash(Direction::Back),
        17 => Intent::Jump(Direction::Forward),
        18 => Intent::Jump(Direction::Back),
        _ => Intent::Throw,
    }
}

/// XORed into the match seed for agent slot 0, so two Random agents in one
/// match do not share a stream.
pub const RANDOM_AGENT_SLOT_CONSTANT_0: u64 = 0x9E37_79B9_7F4A_7C15;

/// XORed into the match seed for agent slot 1.
pub const RANDOM_AGENT_SLOT_CONSTANT_1: u64 = 0xC2B2_AE3D_27D4_EB4F;

/// The salt for agent slot `slot` (even slots use slot 0's).
pub open spec fn spec_slot_salt(slot: usize) -> u64 {
    if slot % 2 == 0 {
        RANDOM_AGENT_SLOT_CONSTANT_0
    } else {
        RANDOM_AGENT_SLOT_CONSTANT_1
    }
}

/// The baseline: a uniformly random legal intent every poll, from its own
/// PRNG seeded from the match seed and its slot, never from the system.
pub struct Random {
    rng: Pcg32,
}

impl View for Random {
    type V = (u64, u64);

    /// The state of its generator.
    closed spec fn view(&self) -> (u64, u64) {
        self.rng@
    }
}

impl Random {
    /// `match_seed` is the seed the match was recorded with; `slot` is the
    /// fighter this agent controls.
    pub fn new(match_seed: u64, slot: usize) -> (r: Random)
        ensures
            r@ == spec_seeded(match_seed ^ spec_slot_salt(slot), 1),
    {
        let salt = if slot % 2 == 0 {
            RANDOM_AGENT_SLOT_CONSTANT_0
        } else {
            RANDOM_AGENT_SLOT_CONSTANT_1
        };
        Random { rng: Pcg32::new(match_seed ^ salt, 1) }
    }
}

impl Agent for Random {
    type Model = (u64, u64);

    open spec fn model(&self) -> (u64, u64) {
        self@
    }

    open spec fn spec_decide(m: (u64, u64), obs: Observation) -> ((u64, u64), Intent) {
        let (i, g) = spec_bounded(m, LEGAL_INTENT_COUNT);
        (g, spec_legal_intent(i))
    }

    open spec fn spec_reset(m: (u64, u64)) -> (u64, u64) {
        m
    }

    fn name(&self) -> (r: &str)
        ensures
            r@ == "random"@,
    {
        "random"
    }

    fn decide(&mut self, obs: &Observation) -> (r: Intent)
        ensures
            ({
                let (i, g) = spec_bounded(old(self)@, LEGAL_INTENT_COUNT);
                r == spec_legal_intent(i) && final(self)@ == g
            }),
    {
        let idx = self.rng.next_bounded(LEGAL_INTENT_COUNT);
        legal_intent(idx)
    }

    /// The stream is tied to the whole match, so nothing is reseeded.
    fn reset(&mut self)
        ensures
            final(self)@ == old(self)@,
    {
    }
}

/// The mathematical content of a `Spacer`.
pub struct SpacerModel {
    pub hold_range: Fixed,
    pub band: Fixed,
    pub bait_forward: bool,
    pub probe: ProbeModel,
}

/// Spacer's poll: punish a caught recovery, block a startup in range, probe
/// when the stalemate clock fires in range, otherwise keep to the pocket
/// `hold_range ± band`, rocking forward and back while in it.
pub open spec fn spec_spacer(s: SpacerModel, obs: Observation) -> (SpacerModel, Intent) {
    let (probe, fire) = spec_should_probe(s.probe, obs);
    let s1 = SpacerModel { probe, ..s };
    let in_range = obs.distance.0 <= s.hold_range.0;
    if obs.opponent.state == FighterState::AttackRecovery && in_range {
        (s1, Intent::Attack(AttackKind::Light))
    } else if obs.opponent.state == FighterState::AttackStartup && in_range {
        (s1, Intent::Block)
    } else if fire && in_range {
        (s1, Intent::Attack(AttackKind::Light))
    } else {
        let near = sub_raw(s.hold_range.0, s.band.0);
        let far = crate::fixed::add_raw(s.hold_range.0, s.band.0);
        if obs.distance.0 < near {
            (s1, Intent::Move(Direction::Back))
        } else if obs.distance.0 > far {
            (s1, Intent::Move(Direction::Forward))
        } else {
            let fwd = !s.bait_forward;
            (
                SpacerModel { bait_forward: fwd, ..s1 },
                Intent::Move(if fwd { Direction::Forward } else { Direction::Back }),
            )
        }
    }
}

/// Plays position rather than reaction: holds just outside Light range,
/// baits by rocking forward and back, and only attacks once the opponent
/// is stuck in attack recovery (or to break a stalemate).
pub struct Spacer {
    hold_range: Fixed,
    band: Fixed,
    bait_forward: bool,
    probe: ProbeTimer,
}

impl View for Spacer {
    type V = SpacerModel;

    closed spec fn view(&self) -> SpacerModel {
        SpacerModel {
            hold_range: self.hold_range,
            band: self.band,
            bait_forward: self.bait_forward,
            probe: self.probe@,
        }
    }
}

impl Spacer {
    /// A Spacer holding 155 ± 15 units and probing after 60 stale polls.
    pub fn new() -> (r: Spacer)
        ensures
            r@ == (SpacerModel {
                hold_range: Fixed(units(155) as i32),
                band: Fixed(units(15) as i32),
                bait_forward: true,
                probe: spec_fresh_probe(60),
            }),
    {
        Spacer {
            hold_range: Fixed::from_int(155),
            band: Fixed::from_int(15),
            bait_forward: true,
            probe: ProbeTimer::new(60),
        }
    }
}

impl core::default::Default for Spacer {
    fn default() -> (r: Spacer)
        ensures
            r@ == (SpacerModel {
                hold_range: Fixed(units(155) as i32),
                band: Fixed(units(15) as i32),
                bait_forward: true,
                probe: spec_fresh_probe(60),
            }),
    {
        Spacer::new()
    }
}

impl Agent for Spacer {
    type Model = SpacerModel;

    open spec fn model(&self) -> SpacerModel {
        self@
    }

    open spec fn spec_decide(m: SpacerModel, obs: Observation) -> (SpacerModel, Intent) {
        spec_spacer(m, obs)
    }

    open spec fn spec_reset(m: SpacerModel) -> SpacerModel {
        SpacerModel { bait_forward: true, probe: spec_fresh_probe(m.probe.threshold_polls), ..m }
    }

    fn name(&self) -> (r: &str)
        ensures
            r@ == "spacer"@,
    {
        "spacer"
    }

    fn decide(&mut self, obs: &Observation) -> (r: Intent)
        ensures
            (final(self)@, r) == spec_spacer(old(self)@, *obs),
    {
        // Polled every time so the stalemate clock runs while repositioning.
        let should_probe = self.probe.should_probe(obs);
        let in_range = obs.distance.0 <= self.hold_range.0;
        if obs.opponent.state == FighterState::AttackRecovery && in_range {
            return Intent::Attack(AttackKind::Light);
        }
        if obs.opponent.state == FighterState::AttackStartup && in_range {
            return Intent::Block;
        }
        if should_probe && in_range {
            return Intent::Attack(AttackKind::Light);
        }
        let near = self.hold_range.sub(self.band);
        let far = self.hold_range.add(self.band);
        if obs.distance.0 < near.0 {
            Intent::Move(Direction::Back)
        } else if obs.distance.0 > far.0 {
            Intent::Move(Direction::Forward)
        } else {
            self.bait_forward = !self.bait_forward;
            Intent::Move(
                if self.bait_forward {
                    Direction::Forward
                } else {
                    Direction::Back
                },
            )
        }
    }

    fn reset(&mut self)
        ensures
            final(self)@ == (SpacerModel {
                bait_forward: true,
                probe: spec_fresh_probe(old(self)@.probe.threshold_polls),
                ..old(self)@
            }),
    {
        self.bait_forward = true;
        self.probe.reset();
    }
}

/// Any one of the library's agents, chosen when the bout is set up (by
/// name, say).
pub enum AnyAgent {
    Dummy(Dummy),
    Rusher(Rusher),
    Turtle(Turtle),
    Runner(Runner),
    Spammer(Spammer),
    Random(Random),
    Spacer(Spacer),
}

/// The model of whichever agent an `AnyAgent` holds.
pub enum AnyModel {
    Dummy,
    Rusher(Fixed),
    Turtle(TurtleModel),
    Runner(RunnerModel),
    Spammer(Fixed),
    Random((u64, u64)),
    Spacer(SpacerModel),
}

impl Agent for AnyAgent {
    type Model = AnyModel;

    open spec fn model(&self) -> AnyModel {
        match self {
            AnyAgent::Dummy(_) => AnyModel::Dummy,
            AnyAgent::Rusher(a) => AnyModel::Rusher(a.model()),
            AnyAgent::Turtle(a) => AnyModel::Turtle(a.model()),
            AnyAgent::Runner(a) => AnyModel::Runner(a.model()),
            AnyAgent::Spammer(a) => AnyModel::Spammer(a.model()),
            AnyAgent::Random(a) => AnyModel::Random(a.model()),
            AnyAgent::Spacer(a) => AnyModel::Spacer(a.model()),
        }
    }

    open spec fn spec_decide(m: AnyModel, obs: Observation) -> (AnyModel, Intent) {
        match m {
            AnyModel::Dummy => (AnyModel::Dummy, Dummy::spec_decide((), obs).1),
            AnyModel::Rusher(x) => {
                let (y, i) = Rusher::spec_decide(x, obs);
                (AnyModel::Rusher(y), i)
            },
            AnyModel::Turtle(x) => {
                let (y, i) = Turtle::spec_decide(x, obs);
                (AnyModel::Turtle(y), i)
            },
            AnyModel::Runner(x) => {
                let (y, i) = Runner::spec_decide(x, obs);
                (AnyModel::Runner(y), i)
            },
            AnyModel::Spammer(x) => {
                let (y, i) = Spammer::spec_decide(x, obs);
                (AnyModel::Spammer(y), i)
            },
            AnyModel::Random(x) => {
                let (y, i) = Random::spec_decide(x, obs);
                (AnyModel::Random(y), i)
            },
            AnyModel::Spacer(x) => {
                let (y, i) = Spacer::spec_decide(x, obs);
                (AnyModel::Spacer(y), i)
            },
        }
    }

    open spec fn spec_reset(m: AnyModel) -> AnyModel {
        match m {
            AnyModel::Dummy => AnyModel::Dummy,
            AnyModel::Rusher(x) => AnyModel::Rusher(Rusher::spec_reset(x)),
            AnyModel::Turtle(x) => AnyModel::Turtle(Turtle::spec_reset(x)),
            AnyModel::Runner(x) => AnyModel::Runner(Runner::spec_reset(x)),
            AnyModel::Spammer(x) => AnyModel::Spammer(Spammer::spec_reset(x)),
            AnyModel::Random(x) => AnyModel::Random(Random::spec_reset(x)),
            AnyModel::Spacer(x) => AnyModel::Spacer(Spacer::spec_reset(x)),
        }
    }

    fn name(&self) -> &str {
        match self {
            AnyAgent::Dummy(a) => a.name(),
            AnyAgent::Rusher(a) => a.name(),
            AnyAgent::Turtle(a) => a.name(),
            AnyAgent::Runner(a) => a.name(),
            AnyAgent::Spammer(a) => a.name(),
            AnyAgent::Random(a) => a.name(),
            AnyAgent::Spacer(a) => a.name(),
        }
    }

    fn decide(&mut self, obs: &Observation) -> (r: Intent) {
        match self {
            AnyAgent::Dummy(a) => a.decide(obs),
            AnyAgent::Rusher(a) => a.decide(obs),
            AnyAgent::Turtle(a) => a.decide(obs),
            AnyAgent::Runner(a) => a.decide(obs),
            AnyAgent::Spammer(a) => a.decide(obs),
            AnyAgent::Random(a) => a.decide(obs),
            AnyAgent::Spacer(a) => a.decide(obs),
        }
    }

    fn reset(&mut self) {
        match self {
            AnyAgent::Dummy(a) => a.reset(),
            AnyAgent::Rusher(a) => a.reset(),
            AnyAgent::Turtle(a) => a.reset(),
            AnyAgent::Runner(a) => a.reset(),
            AnyAgent::Spammer(a) => a.reset(),
            AnyAgent::Random(a) => a.reset(),
            AnyAgent::Spacer(a) => a.reset(),
        }
    }
}

} // verus!
