//! Every tunable constant of the simulation. A ruleset is read from a TOML
//! document into a `RawRuleset` of plain integers (outside this crate), then
//! converted here into the per-tick, fixed-point `Ruleset` the engine runs on.
use crate::fixed::{div_raw, Fixed};
use crate::geometry::Rect;
use crate::hash::{fnv_hash, le_i32, lemma_hash_extend, put_i32, Fnv1a, FNV_OFFSET};
use vstd::utf8::encode_utf8;
use crate::types::AttackKind;
use vstd::prelude::*;

verus! {

/// Largest vitality, meter or damage value a valid ruleset may use.
///
/// Derivation: a round that times out is decided on vitality as a share of
/// its maximum, computed as `vitality * 10_000` in `i32`, which holds for
/// vitality up to 214,748; 200,000 is that bound rounded down. The same
/// limit is used for surge, guard and every move's damage, block damage and
/// guard damage, so that one bound covers every meter a fighter carries
/// through a match and the statistics kept of it; with combo percentages
/// capped at 10,000 it also keeps damage times a percentage within `i32`
/// (200,000 x 10,000 = 2 x 10^9). Resolving one tick's contacts needs much
/// less, and its own bounds are derived separately (see
/// `combat::spec_resolve_fits` and `combat::spec_contact_fits`).
pub const VALUE_MAX: i32 = 200_000;

/// Longest phase (freeze, round, sudden death, intermission) a valid ruleset
/// may use, in ticks.
///
/// Derivation: the global tick is a `u32` that must not wrap before the
/// match ends. One round cycle (its clock or sudden death, a trailing
/// hitstop, an intermission and a freeze) is then at most about 12.1
/// million ticks, and `ROUNDS_MAX + 1` such cycles (a sudden death included)
/// stay under 2.44 x 10^9 < 2^32. This is one sufficient split of the
/// `u32` range between phase length and round count, not the only one.
pub const PHASE_TICKS_MAX: u32 = 4_000_000;

/// Most regular rounds a valid ruleset may schedule. See `PHASE_TICKS_MAX`
/// for the derivation: it bounds the number of round cycles whose ticks the
/// `u32` global tick must hold.
pub const ROUNDS_MAX: u8 = 200;

/// Frame data of one move, as read from the ruleset.
#[derive(Debug, Clone, Copy, PartialEq, Eq, Structural)]
pub struct RawMove {
    pub startup: i32,
    pub active: i32,
    pub recovery: i32,
    pub damage: i32,
    pub block_damage: i32,
    pub hitstun: i32,
    pub blockstun: i32,
    pub guard_damage: i32,
    pub hitstop: i32,
}

/// A ruleset exactly as its TOML document states it (absent optional keys
/// already defaulted to zero or empty).
#[derive(Debug, Clone)]
pub struct RawRuleset {
    pub version: String,
    pub tick_rate: i32,
    pub round_ticks: i32,
    pub intermission_ticks: i32,
    pub opening_freeze_ticks: i32,
    pub rounds_to_win: i32,
    pub max_rounds: i32,
    pub arena_width: i32,
    pub ceiling: i32,
    pub fighter_height: i32,
    pub fighter_width: i32,
    pub start_separation: i32,
    pub start_separation_jitter: i32,
    pub vitality: i32,
    pub surge_max: i32,
    pub guard_max: i32,
    pub observation_delay: i32,
    pub reflex_interval: i32,
    pub gravity: i32,
    pub walk_speed: i32,
    pub dash_speed: i32,
    pub dash_ticks: i32,
    pub jump_velocity: i32,
    pub sudden_death_ticks: i32,
    pub sudden_death_vitality: i32,
    pub passivity_warning_ticks: i32,
    pub passivity_penalty_fraction_pct: i32,
    pub guard_crush_ticks: i32,
    pub guard_crush_refill_to: i32,
    pub throw_tech_window_ticks: i32,
    pub light: RawMove,
    pub medium: RawMove,
    pub heavy: RawMove,
    pub throw: RawMove,
    pub combo_scaling_pct: Vec<i32>,
    pub combo_floor_pct: i32,
    pub combo_hard_knockdown_hit: i32,
    pub block_advantage_whitelist: Vec<String>,
    pub light_hitbox: [i32; 4],
    pub medium_hitbox: [i32; 4],
    pub heavy_hitbox: [i32; 4],
    pub throw_hitbox: [i32; 4],
    pub light_hitbox_crouch: [i32; 4],
    pub medium_hitbox_crouch: [i32; 4],
    pub hurt_head: [i32; 4],
    pub hurt_torso: [i32; 4],
    pub hurt_arm_left: [i32; 4],
    pub hurt_arm_right: [i32; 4],
    pub hurt_leg_left: [i32; 4],
    pub hurt_leg_right: [i32; 4],
    pub hurt_head_crouch: [i32; 4],
    pub hurt_torso_crouch: [i32; 4],
    pub hurt_arm_left_crouch: [i32; 4],
    pub hurt_arm_right_crouch: [i32; 4],
    pub hurt_leg_left_crouch: [i32; 4],
    pub hurt_leg_right_crouch: [i32; 4],
}

/// Frame data and damage of one move, in engine units.
#[derive(Debug, Clone, Copy, PartialEq, Eq, Structural)]
pub struct MoveSpec {
    pub startup: u16,
    pub active: u16,
    pub recovery: u16,
    pub damage: i32,
    pub block_damage: i32,
    pub hitstun: u16,
    pub blockstun: u16,
    pub guard_damage: i32,
    pub hitstop: u16,
}

impl MoveSpec {
    /// Startup plus active plus recovery frames.
    pub fn total_frames(&self) -> (r: u16)
        requires
            self.startup + self.active + self.recovery <= u16::MAX,
        ensures
            r == self.startup + self.active + self.recovery,
    {
        self.startup + self.active + self.recovery
    }

    /// Bounds a move needs for the engine's arithmetic to stay in range.
    pub open spec fn wf(self) -> bool {
        &&& self.startup + self.active + self.recovery <= u16::MAX
        &&& 0 <= self.damage <= VALUE_MAX
        &&& 0 <= self.block_damage <= VALUE_MAX
        &&& 0 <= self.guard_damage <= VALUE_MAX
    }
}

/// The loaded, engine-ready ruleset.
#[derive(Debug, Clone)]
pub struct Ruleset {
    pub tick_rate: i32,
    pub round_ticks: u32,
    pub intermission_ticks: u32,
    pub opening_freeze_ticks: u32,
    pub rounds_to_win: u8,
    pub max_rounds: u8,
    pub arena_width: Fixed,
    pub ceiling: Fixed,
    pub fighter_height: Fixed,
    pub fighter_width: Fixed,
    pub start_separation: Fixed,
    /// Half-width of the range the starting separation may be drawn from.
    pub start_separation_jitter: i32,
    /// This ruleset revision's version label.
    pub version: String,
    pub vitality: i32,
    pub surge_max: i32,
    pub guard_max: i32,
    pub observation_delay: u32,
    pub reflex_interval: u32,
    pub gravity_per_tick: Fixed,
    pub walk_speed_per_tick: Fixed,
    pub dash_speed_per_tick: Fixed,
    pub dash_ticks: u16,
    pub jump_velocity_per_tick: Fixed,
    pub sudden_death_ticks: u32,
    pub sudden_death_vitality: i32,
    pub passivity_warning_ticks: u32,
    pub passivity_penalty_fraction_pct: i32,
    pub guard_crush_ticks: u16,
    pub guard_crush_refill_to: i32,
    pub throw_tech_window_ticks: u32,
    pub light: MoveSpec,
    pub medium: MoveSpec,
    pub heavy: MoveSpec,
    pub throw: MoveSpec,
    pub combo_scaling_pct: Vec<i32>,
    pub combo_floor_pct: i32,
    pub combo_hard_knockdown_hit: u8,
    /// Move names exempt from the non-negative-on-block rule.
    pub block_advantage_whitelist: Vec<String>,
    pub light_hitbox: Rect,
    pub medium_hitbox: Rect,
    pub heavy_hitbox: Rect,
    pub throw_hitbox: Rect,
    pub light_hitbox_crouch: Rect,
    pub medium_hitbox_crouch: Rect,
    pub hurt_head: Rect,
    pub hurt_torso: Rect,
    pub hurt_arm_left: Rect,
    pub hurt_arm_right: Rect,
    pub hurt_leg_left: Rect,
    pub hurt_leg_right: Rect,
    pub hurt_head_crouch: Rect,
    pub hurt_torso_crouch: Rect,
    pub hurt_arm_left_crouch: Rect,
    pub hurt_arm_right_crouch: Rect,
    pub hurt_leg_left_crouch: Rect,
    pub hurt_leg_right_crouch: Rect,
}

/// Why a ruleset could not be loaded.
#[derive(Debug)]
pub enum RulesetError {
    Parse(String),
}

impl RulesetError {
    /// Human-readable message.
    pub fn message(&self) -> (r: String)
        ensures
            r@ == (match self {
                RulesetError::Parse(s) => "ruleset parse error: "@ + s@,
            }),
    {
        match self {
            RulesetError::Parse(s) => {
                let mut t = String::from_str("ruleset parse error: ");
                t.append(s.as_str());
                t
            },
        }
    }
}

/// The rectangle a `[x, y, w, h]` quadruple of whole units describes.
pub open spec fn spec_rect_from(v: [i32; 4]) -> Rect {
    Rect {
        x: Fixed(v[0] << 16u32),
        y: Fixed(v[1] << 16u32),
        w: Fixed(v[2] << 16u32),
        h: Fixed(v[3] << 16u32),
    }
}

/// The engine form of a raw move: durations truncated to 16 bits.
pub open spec fn spec_move_from(m: RawMove) -> MoveSpec {
    MoveSpec {
        startup: m.startup as u16,
        active: m.active as u16,
        recovery: m.recovery as u16,
        damage: m.damage,
        block_damage: m.block_damage,
        hitstun: m.hitstun as u16,
        blockstun: m.blockstun as u16,
        guard_damage: m.guard_damage,
        hitstop: m.hitstop as u16,
    }
}

/// Units per second converted to fixed-point units per tick.
pub open spec fn spec_per_tick(units_per_sec: i32, tick_rate: i32) -> Fixed {
    Fixed(div_raw(units_per_sec << 16u32, tick_rate << 16u32))
}

/// `r` is the conversion of `raw`.
pub open spec fn spec_converted(raw: RawRuleset, r: Ruleset) -> bool {
    &&& r.tick_rate == raw.tick_rate
    &&& r.round_ticks == raw.round_ticks as u32
    &&& r.intermission_ticks == raw.intermission_ticks as u32
    &&& r.opening_freeze_ticks == raw.opening_freeze_ticks as u32
    &&& r.rounds_to_win == raw.rounds_to_win as u8
    &&& r.max_rounds == raw.max_rounds as u8
    &&& r.arena_width == Fixed(raw.arena_width << 16u32)
    &&& r.ceiling == Fixed(raw.ceiling << 16u32)
    &&& r.fighter_height == Fixed(raw.fighter_height << 16u32)
    &&& r.fighter_width == Fixed(raw.fighter_width << 16u32)
    &&& r.start_separation == Fixed(raw.start_separation << 16u32)
    &&& r.start_separation_jitter == raw.start_separation_jitter
    &&& r.version@ == raw.version@
    &&& r.vitality == raw.vitality
    &&& r.surge_max == raw.surge_max
    &&& r.guard_max == raw.guard_max
    &&& r.observation_delay == raw.observation_delay as u32
    &&& r.reflex_interval == raw.reflex_interval as u32
    &&& r.gravity_per_tick == spec_per_tick(raw.gravity, raw.tick_rate)
    &&& r.walk_speed_per_tick == spec_per_tick(raw.walk_speed, raw.tick_rate)
    &&& r.dash_speed_per_tick == spec_per_tick(raw.dash_speed, raw.tick_rate)
    &&& r.dash_ticks == raw.dash_ticks as u16
    &&& r.jump_velocity_per_tick == spec_per_tick(raw.jump_velocity, raw.tick_rate)
    &&& r.sudden_death_ticks == raw.sudden_death_ticks as u32
    &&& r.sudden_death_vitality == raw.sudden_death_vitality
    &&& r.passivity_warning_ticks == raw.passivity_warning_ticks as u32
    &&& r.passivity_penalty_fraction_pct == raw.passivity_penalty_fraction_pct
    &&& r.guard_crush_ticks == raw.guard_crush_ticks as u16
    &&& r.guard_crush_refill_to == raw.guard_crush_refill_to
    &&& r.throw_tech_window_ticks == raw.throw_tech_window_ticks as u32
    &&& r.light == spec_move_from(raw.light)
    &&& r.medium == spec_move_from(raw.medium)
    &&& r.heavy == spec_move_from(raw.heavy)
    &&& r.throw == spec_move_from(raw.throw)
    &&& r.combo_scaling_pct@ == raw.combo_scaling_pct@
    &&& r.combo_floor_pct == raw.combo_floor_pct
    &&& r.combo_hard_knockdown_hit == raw.combo_hard_knockdown_hit as u8
    &&& r.block_advantage_whitelist@.len() == raw.block_advantage_whitelist@.len()
    &&& forall|i: int|
        0 <= i < r.block_advantage_whitelist@.len() ==> #[trigger] r.block_advantage_whitelist@[i]@
            == raw.block_advantage_whitelist@[i]@
    &&& r.light_hitbox == spec_rect_from(raw.light_hitbox)
    &&& r.medium_hitbox == spec_rect_from(raw.medium_hitbox)
    &&& r.heavy_hitbox == spec_rect_from(raw.heavy_hitbox)
    &&& r.throw_hitbox == spec_rect_from(raw.throw_hitbox)
    &&& r.light_hitbox_crouch == spec_rect_from(raw.light_hitbox_crouch)
    &&& r.medium_hitbox_crouch == spec_rect_from(raw.medium_hitbox_crouch)
    &&& r.hurt_head == spec_rect_from(raw.hurt_head)
    &&& r.hurt_torso == spec_rect_from(raw.hurt_torso)
    &&& r.hurt_arm_left == spec_rect_from(raw.hurt_arm_left)
    &&& r.hurt_arm_right == spec_rect_from(raw.hurt_arm_right)
    &&& r.hurt_leg_left == spec_rect_from(raw.hurt_leg_left)
    &&& r.hurt_leg_right == spec_rect_from(raw.hurt_leg_right)
    &&& r.hurt_head_crouch == spec_rect_from(raw.hurt_head_crouch)
    &&& r.hurt_torso_crouch == spec_rect_from(raw.hurt_torso_crouch)
    &&& r.hurt_arm_left_crouch == spec_rect_from(raw.hurt_arm_left_crouch)
    &&& r.hurt_arm_right_crouch == spec_rect_from(raw.hurt_arm_right_crouch)
    &&& r.hurt_leg_left_crouch == spec_rect_from(raw.hurt_leg_left_crouch)
    &&& r.hurt_leg_right_crouch == spec_rect_from(raw.hurt_leg_right_crouch)
}

fn rect_from(v: [i32; 4]) -> (r: Rect)
    ensures
        r == spec_rect_from(v),
{
    Rect {
        x: Fixed::from_int(v[0]),
        y: Fixed::from_int(v[1]),
        w: Fixed::from_int(v[2]),
        h: Fixed::from_int(v[3]),
    }
}

fn move_from(m: &RawMove) -> (r: MoveSpec)
    ensures
        r == spec_move_from(*m),
{
    MoveSpec {
        startup: #[verifier::truncate] (m.startup as u16),
        active: #[verifier::truncate] (m.active as u16),
        recovery: #[verifier::truncate] (m.recovery as u16),
        damage: m.damage,
        block_damage: m.block_damage,
        hitstun: #[verifier::truncate] (m.hitstun as u16),
        blockstun: #[verifier::truncate] (m.blockstun as u16),
        guard_damage: m.guard_damage,
        hitstop: #[verifier::truncate] (m.hitstop as u16),
    }
}

fn per_tick(units_per_sec: i32, tick_rate: i32) -> (r: Fixed)
    requires
        tick_rate << 16u32 != 0,
    ensures
        r == spec_per_tick(units_per_sec, tick_rate),
{
    Fixed::from_int(units_per_sec).div(Fixed::from_int(tick_rate))
}

fn clone_strings(v: &Vec<String>) -> (r: Vec<String>)
    ensures
        r@.len() == v@.len(),
        forall|i: int| 0 <= i < r@.len() ==> #[trigger] r@[i]@ == v@[i]@,
{
    let mut out: Vec<String> = Vec::new();
    let mut i: usize = 0;
    while i < v.len()
        invariant
            0 <= i <= v@.len(),
            out@.len() == i,
            forall|k: int| 0 <= k < i ==> #[trigger] out@[k]@ == v@[k]@,
        decreases v@.len() - i,
    {
        out.push(v[i].clone());
        i = i + 1;
    }
    out
}

fn clone_ints(v: &Vec<i32>) -> (r: Vec<i32>)
    ensures
        r@ == v@,
{
    let mut out: Vec<i32> = Vec::new();
    let mut i: usize = 0;
    while i < v.len()
        invariant
            0 <= i <= v@.len(),
            out@ == v@.take(i as int),
        decreases v@.len() - i,
    {
        out.push(v[i]);
        i = i + 1;
        proof {
            assert(v@.take(i as int) =~= v@.take(i - 1).push(v@[i - 1]));
        }
    }
    assert(v@.take(i as int) =~= v@);
    out
}

impl Ruleset {
    /// Convert a raw ruleset: whole units become Q16.16, per-second speeds
    /// become per-tick speeds, durations are narrowed to the engine's widths.
    pub fn from_raw(raw: &RawRuleset) -> (r: Ruleset)
        requires
            raw.tick_rate << 16u32 != 0,
        ensures
            spec_converted(*raw, r),
    {
        let tick_rate = raw.tick_rate;
        Ruleset {
            tick_rate,
            round_ticks: #[verifier::truncate] (raw.round_ticks as u32),
            intermission_ticks: #[verifier::truncate] (raw.intermission_ticks as u32),
            opening_freeze_ticks: #[verifier::truncate] (raw.opening_freeze_ticks as u32),
            rounds_to_win: #[verifier::truncate] (raw.rounds_to_win as u8),
            max_rounds: #[verifier::truncate] (raw.max_rounds as u8),
            arena_width: Fixed::from_int(raw.arena_width),
            ceiling: Fixed::from_int(raw.ceiling),
            fighter_height: Fixed::from_int(raw.fighter_height),
            fighter_width: Fixed::from_int(raw.fighter_width),
            start_separation: Fixed::from_int(raw.start_separation),
            start_separation_jitter: raw.start_separation_jitter,
            version: raw.version.clone(),
            vitality: raw.vitality,
            surge_max: raw.surge_max,
            guard_max: raw.guard_max,
            observation_delay: #[verifier::truncate] (raw.observation_delay as u32),
            reflex_interval: #[verifier::truncate] (raw.reflex_interval as u32),
            gravity_per_tick: per_tick(raw.gravity, tick_rate),
            walk_speed_per_tick: per_tick(raw.walk_speed, tick_rate),
            dash_speed_per_tick: per_tick(raw.dash_speed, tick_rate),
            dash_ticks: #[verifier::truncate] (raw.dash_ticks as u16),
            jump_velocity_per_tick: per_tick(raw.jump_velocity, tick_rate),
            sudden_death_ticks: #[verifier::truncate] (raw.sudden_death_ticks as u32),
            sudden_death_vitality: raw.sudden_death_vitality,
            passivity_warning_ticks: #[verifier::truncate] (raw.passivity_warning_ticks as u32),
            passivity_penalty_fraction_pct: raw.passivity_penalty_fraction_pct,
            guard_crush_ticks: #[verifier::truncate] (raw.guard_crush_ticks as u16),
            guard_crush_refill_to: raw.guard_crush_refill_to,
            throw_tech_window_ticks: #[verifier::truncate] (raw.throw_tech_window_ticks as u32),
            light: move_from(&raw.light),
            medium: move_from(&raw.medium),
            heavy: move_from(&raw.heavy),
            throw: move_from(&raw.throw),
            combo_scaling_pct: clone_ints(&raw.combo_scaling_pct),
            combo_floor_pct: raw.combo_floor_pct,
            combo_hard_knockdown_hit: #[verifier::truncate] (raw.combo_hard_knockdown_hit as u8),
            block_advantage_whitelist: clone_strings(&raw.block_advantage_whitelist),
            light_hitbox: rect_from(raw.light_hitbox),
            medium_hitbox: rect_from(raw.medium_hitbox),
            heavy_hitbox: rect_from(raw.heavy_hitbox),
            throw_hitbox: rect_from(raw.throw_hitbox),
            light_hitbox_crouch: rect_from(raw.light_hitbox_crouch),
            medium_hitbox_crouch: rect_from(raw.medium_hitbox_crouch),
            hurt_head: rect_from(raw.hurt_head),
            hurt_torso: rect_from(raw.hurt_torso),
            hurt_arm_left: rect_from(raw.hurt_arm_left),
            hurt_arm_right: rect_from(raw.hurt_arm_right),
            hurt_leg_left: rect_from(raw.hurt_leg_left),
            hurt_leg_right: rect_from(raw.hurt_leg_right),
            hurt_head_crouch: rect_from(raw.hurt_head_crouch),
            hurt_torso_crouch: rect_from(raw.hurt_torso_crouch),
            hurt_arm_left_crouch: rect_from(raw.hurt_arm_left_crouch),
            hurt_arm_right_crouch: rect_from(raw.hurt_arm_right_crouch),
            hurt_leg_left_crouch: rect_from(raw.hurt_leg_left_crouch),
            hurt_leg_right_crouch: rect_from(raw.hurt_leg_right_crouch),
        }
    }

    /// The move spec of a normal attack.
    pub fn move_spec(&self, kind: AttackKind) -> (r: &MoveSpec)
        ensures
            *r == spec_move_spec(*self, kind),
    {
        match kind {
            AttackKind::Light => &self.light,
            AttackKind::Medium => &self.medium,
            AttackKind::Heavy => &self.heavy,
        }
    }
}

impl Ruleset {
    /// Longest hitstop any move applies.
    pub open spec fn max_hitstop(self) -> int {
        let a = if self.light.hitstop > self.medium.hitstop { self.light.hitstop } else { self.medium.hitstop };
        let b = if self.heavy.hitstop > self.throw.hitstop { self.heavy.hitstop } else { self.throw.hitstop };
        if a > b { a as int } else { b as int }
    }

    /// Longest a round can run, in ticks: its clock plus a trailing hitstop.
    pub open spec fn max_round_length(self) -> int {
        (if self.round_ticks > self.sudden_death_ticks { self.round_ticks } else { self.sudden_death_ticks })
            + self.max_hitstop() + 1
    }

    /// Values for which the engine's arithmetic stays in range for a whole
    /// match. Each bound guards one computation:
    /// - meters and damages within `VALUE_MAX` (see there: the timeout
    ///   decision's `vitality * 10_000`, and damage times a percentage);
    /// - the passivity penalty a percentage of vitality (0 to 100), and
    ///   combo and floor percentages at most 10,000, so that a damage times
    ///   a percentage stays within `i32`;
    /// - every move's startup, active and recovery summing within `u16`,
    ///   the type of the state timer that counts them;
    /// - a walk speed other than `i32::MIN`, which has no negation;
    /// - phase lengths within `PHASE_TICKS_MAX` and rounds within
    ///   `ROUNDS_MAX` (see there: the `u32` global tick), and an observation
    ///   delay below `PHASE_TICKS_MAX`, so that the observation window's
    ///   length `observation_delay + 1` fits in a `usize` and a `u32`;
    /// - a passivity window of at least one tick, and short enough rounds
    ///   that no fighter collects 255 warnings in one round, the capacity
    ///   of its `u8` warning count.
    pub open spec fn wf(self) -> bool {
        &&& 1 <= self.vitality <= VALUE_MAX
        &&& 1 <= self.sudden_death_vitality <= VALUE_MAX
        &&& 0 <= self.surge_max <= VALUE_MAX
        &&& 0 <= self.guard_max <= VALUE_MAX
        &&& 0 <= self.guard_crush_refill_to <= VALUE_MAX
        &&& 0 <= self.passivity_penalty_fraction_pct <= 100
        &&& 0 <= self.combo_floor_pct <= 10_000
        &&& forall|i: int|
            0 <= i < self.combo_scaling_pct@.len() ==> 0 <= #[trigger] self.combo_scaling_pct@[i] <= 10_000
        &&& self.light.wf()
        &&& self.medium.wf()
        &&& self.heavy.wf()
        &&& self.throw.wf()
        &&& self.walk_speed_per_tick.0 != i32::MIN
        &&& self.round_ticks <= PHASE_TICKS_MAX
        &&& self.sudden_death_ticks <= PHASE_TICKS_MAX
        &&& self.intermission_ticks <= PHASE_TICKS_MAX
        &&& self.opening_freeze_ticks <= PHASE_TICKS_MAX
        &&& self.max_rounds <= ROUNDS_MAX
        &&& self.observation_delay < PHASE_TICKS_MAX
        &&& self.passivity_warning_ticks >= 1
        &&& self.max_round_length() < 255 * self.passivity_warning_ticks
    }
}

/// The move spec of a normal attack.
pub open spec fn spec_move_spec(rs: Ruleset, kind: AttackKind) -> MoveSpec {
    match kind {
        AttackKind::Light => rs.light,
        AttackKind::Medium => rs.medium,
        AttackKind::Heavy => rs.heavy,
    }
}

/// The byte stream `content_hash` feeds: the header fields.
pub open spec fn header_bytes(rs: Ruleset) -> Seq<u8> {
    Seq::<u8>::empty()
        + le_i32(rs.tick_rate)
        + le_i32(rs.round_ticks as i32)
        + le_i32(rs.intermission_ticks as i32)
        + le_i32(rs.opening_freeze_ticks as i32)
        + le_i32(rs.rounds_to_win as i32)
        + le_i32(rs.max_rounds as i32)
        + le_i32(rs.arena_width.0)
        + le_i32(rs.ceiling.0)
        + le_i32(rs.fighter_height.0)
        + le_i32(rs.fighter_width.0)
        + le_i32(rs.start_separation.0)
        + le_i32(rs.start_separation_jitter)
}

/// The byte stream `content_hash` feeds: the meters, movement and timers.
pub open spec fn meter_bytes(rs: Ruleset) -> Seq<u8> {
    Seq::<u8>::empty()
        + le_i32(rs.vitality)
        + le_i32(rs.surge_max)
        + le_i32(rs.guard_max)
        + le_i32(rs.observation_delay as i32)
        + le_i32(rs.reflex_interval as i32)
        + le_i32(rs.gravity_per_tick.0)
        + le_i32(rs.walk_speed_per_tick.0)
        + le_i32(rs.dash_speed_per_tick.0)
        + le_i32(rs.dash_ticks as i32)
        + le_i32(rs.jump_velocity_per_tick.0)
        + le_i32(rs.sudden_death_ticks as i32)
        + le_i32(rs.sudden_death_vitality)
        + le_i32(rs.passivity_warning_ticks as i32)
        + le_i32(rs.passivity_penalty_fraction_pct)
        + le_i32(rs.guard_crush_ticks as i32)
        + le_i32(rs.guard_crush_refill_to)
        + le_i32(rs.throw_tech_window_ticks as i32)
}

/// The byte stream `content_hash` feeds for one move.
pub open spec fn move_bytes(m: MoveSpec) -> Seq<u8> {
    Seq::<u8>::empty()
        + le_i32(m.startup as i32)
        + le_i32(m.active as i32)
        + le_i32(m.recovery as i32)
        + le_i32(m.damage)
        + le_i32(m.block_damage)
        + le_i32(m.hitstun as i32)
        + le_i32(m.blockstun as i32)
        + le_i32(m.guard_damage)
        + le_i32(m.hitstop as i32)
}

/// Four little-endian bytes per value, in order.
pub open spec fn ints_bytes(s: Seq<i32>) -> Seq<u8>
    decreases s.len(),
{
    if s.len() == 0 {
        Seq::empty()
    } else {
        ints_bytes(s.drop_last()) + le_i32(s.last())
    }
}

/// The UTF-8 bytes of each string, in order.
pub open spec fn strings_bytes(s: Seq<String>) -> Seq<u8>
    decreases s.len(),
{
    if s.len() == 0 {
        Seq::empty()
    } else {
        strings_bytes(s.drop_last()) + encode_utf8(s.last()@)
    }
}

/// Everything `content_hash` feeds, in order.
pub open spec fn ruleset_bytes(rs: Ruleset) -> Seq<u8> {
    header_bytes(rs) + encode_utf8(rs.version@) + meter_bytes(rs) + move_bytes(rs.light)
        + move_bytes(rs.medium) + move_bytes(rs.heavy) + move_bytes(rs.throw) + ints_bytes(
        rs.combo_scaling_pct@,
    ) + le_i32(rs.combo_floor_pct) + le_i32(rs.combo_hard_knockdown_hit as i32) + strings_bytes(
        rs.block_advantage_whitelist@,
    )
}

fn put_str(h: &mut Fnv1a, s: &String, Ghost(acc): Ghost<Seq<u8>>) -> (r: Ghost<Seq<u8>>)
    requires
        old(h)@ == fnv_hash(acc),
    ensures
        r@ == acc + encode_utf8(s@),
        final(h)@ == fnv_hash(r@),
{
    let b = s.as_str().as_bytes();
    h.write_bytes(b);
    proof {
        lemma_hash_extend(acc, encode_utf8(s@));
    }
    Ghost(acc + encode_utf8(s@))
}

fn put_move(h: &mut Fnv1a, m: &MoveSpec, Ghost(acc): Ghost<Seq<u8>>) -> (r: Ghost<Seq<u8>>)
    requires
        old(h)@ == fnv_hash(acc),
    ensures
        r@ == acc + move_bytes(*m),
        final(h)@ == fnv_hash(r@),
{
    let ghost a0 = acc;
    let ghost mut a: Seq<u8> = acc;
    let g = put_i32(h, #[verifier::truncate] (m.startup as i32), Ghost(a));
    proof { a = g@; }
    let g = put_i32(h, #[verifier::truncate] (m.active as i32), Ghost(a));
    proof { a = g@; }
    let g = put_i32(h, #[verifier::truncate] (m.recovery as i32), Ghost(a));
    proof { a = g@; }
    let g = put_i32(h, m.damage, Ghost(a));
    proof { a = g@; }
    let g = put_i32(h, m.block_damage, Ghost(a));
    proof { a = g@; }
    let g = put_i32(h, #[verifier::truncate] (m.hitstun as i32), Ghost(a));
    proof { a = g@; }
    let g = put_i32(h, #[verifier::truncate] (m.blockstun as i32), Ghost(a));
    proof { a = g@; }
    let g = put_i32(h, m.guard_damage, Ghost(a));
    proof { a = g@; }
    let g = put_i32(h, #[verifier::truncate] (m.hitstop as i32), Ghost(a));
    proof { a = g@; }
    proof {
        assert(a =~= a0 + move_bytes(*m));
    }
    Ghost(a)
}

fn put_header(h: &mut Fnv1a, rs: &Ruleset, Ghost(acc): Ghost<Seq<u8>>) -> (r: Ghost<Seq<u8>>)
    requires
        old(h)@ == fnv_hash(acc),
    ensures
        r@ == acc + header_bytes(*rs),
        final(h)@ == fnv_hash(r@),
{
    let ghost a0 = acc;
    let ghost mut a: Seq<u8> = acc;
    let g = put_i32(h, rs.tick_rate, Ghost(a));
    proof { a = g@; }
    let g = put_i32(h, #[verifier::truncate] (rs.round_ticks as i32), Ghost(a));
    proof { a = g@; }
    let g = put_i32(h, #[verifier::truncate] (rs.intermission_ticks as i32), Ghost(a));
    proof { a = g@; }
    let g = put_i32(h, #[verifier::truncate] (rs.opening_freeze_ticks as i32), Ghost(a));
    proof { a = g@; }
    let g = put_i32(h, #[verifier::truncate] (rs.rounds_to_win as i32), Ghost(a));
    proof { a = g@; }
    let g = put_i32(h, #[verifier::truncate] (rs.max_rounds as i32), Ghost(a));
    proof { a = g@; }
    let g = put_i32(h, rs.arena_width.raw(), Ghost(a));
    proof { a = g@; }
    let g = put_i32(h, rs.ceiling.raw(), Ghost(a));
    proof { a = g@; }
    let g = put_i32(h, rs.fighter_height.raw(), Ghost(a));
    proof { a = g@; }
    let g = put_i32(h, rs.fighter_width.raw(), Ghost(a));
    proof { a = g@; }
    let g = put_i32(h, rs.start_separation.raw(), Ghost(a));
    proof { a = g@; }
    let g = put_i32(h, rs.start_separation_jitter, Ghost(a));
    proof { a = g@; }
    proof {
        assert(a =~= a0 + header_bytes(*rs));
    }
    Ghost(a)
}

#[verifier::spinoff_prover]
#[verifier::rlimit(60)]
fn put_meters(h: &mut Fnv1a, rs: &Ruleset, Ghost(acc): Ghost<Seq<u8>>) -> (r: Ghost<Seq<u8>>)
    requires
        old(h)@ == fnv_hash(acc),
    ensures
        r@ == acc + meter_bytes(*rs),
        final(h)@ == fnv_hash(r@),
{
    let ghost a0 = acc;
    let ghost mut a: Seq<u8> = acc;
    let g = put_i32(h, rs.vitality, Ghost(a));
    proof { a = g@; }
    let g = put_i32(h, rs.surge_max, Ghost(a));
    proof { a = g@; }
    let g = put_i32(h, rs.guard_max, Ghost(a));
    proof { a = g@; }
    let g = put_i32(h, #[verifier::truncate] (rs.observation_delay as i32), Ghost(a));
    proof { a = g@; }
    let g = put_i32(h, #[verifier::truncate] (rs.reflex_interval as i32), Ghost(a));
    proof { a = g@; }
    let g = put_i32(h, rs.gravity_per_tick.raw(), Ghost(a));
    proof { a = g@; }
    let g = put_i32(h, rs.walk_speed_per_tick.raw(), Ghost(a));
    proof { a = g@; }
    let g = put_i32(h, rs.dash_speed_per_tick.raw(), Ghost(a));
    proof { a = g@; }
    let g = put_i32(h, #[verifier::truncate] (rs.dash_ticks as i32), Ghost(a));
    proof { a = g@; }
    let g = put_i32(h, rs.jump_velocity_per_tick.raw(), Ghost(a));
    proof { a = g@; }
    let g = put_i32(h, #[verifier::truncate] (rs.sudden_death_ticks as i32), Ghost(a));
    proof { a = g@; }
    let g = put_i32(h, rs.sudden_death_vitality, Ghost(a));
    proof { a = g@; }
    let g = put_i32(h, #[verifier::truncate] (rs.passivity_warning_ticks as i32), Ghost(a));
    proof { a = g@; }
    let g = put_i32(h, rs.passivity_penalty_fraction_pct, Ghost(a));
    proof { a = g@; }
    let g = put_i32(h, #[verifier::truncate] (rs.guard_crush_ticks as i32), Ghost(a));
    proof { a = g@; }
    let g = put_i32(h, rs.guard_crush_refill_to, Ghost(a));
    proof { a = g@; }
    let g = put_i32(h, #[verifier::truncate] (rs.throw_tech_window_ticks as i32), Ghost(a));
    proof { a = g@; }
    proof {
        assert(a =~= a0 + meter_bytes(*rs));
    }
    Ghost(a)
}

impl Ruleset {
    /// Deterministic FNV-1a hash of the loaded ruleset, tying a replay to the
    /// exact ruleset it was recorded against.
    #[verifier::spinoff_prover]
    #[verifier::rlimit(60)]
    pub fn content_hash(&self) -> (r: u64)
        ensures
            r == fnv_hash(ruleset_bytes(*self)),
    {
        let mut h = Fnv1a::new();
        let ghost mut a: Seq<u8> = Seq::empty();
        assert(fnv_hash(a) == FNV_OFFSET);
        let g = put_header(&mut h, self, Ghost(a));
        proof { a = g@; }
        let g = put_str(&mut h, &self.version, Ghost(a));
        proof { a = g@; }
        let g = put_meters(&mut h, self, Ghost(a));
        proof { a = g@; }
        let g = put_move(&mut h, &self.light, Ghost(a));
        proof { a = g@; }
        let g = put_move(&mut h, &self.medium, Ghost(a));
        proof { a = g@; }
        let g = put_move(&mut h, &self.heavy, Ghost(a));
        proof { a = g@; }
        let g = put_move(&mut h, &self.throw, Ghost(a));
        proof { a = g@; }
        let ghost a2 = a;
        let mut i: usize = 0;
        while i < self.combo_scaling_pct.len()
            invariant
                0 <= i <= self.combo_scaling_pct@.len(),
                h@ == fnv_hash(a),
                a == a2 + ints_bytes(self.combo_scaling_pct@.take(i as int)),
            decreases self.combo_scaling_pct@.len() - i,
        {
            let g = put_i32(&mut h, self.combo_scaling_pct[i], Ghost(a));
            proof {
                a = g@;
                let t = self.combo_scaling_pct@.take(i + 1);
                assert(t.drop_last() =~= self.combo_scaling_pct@.take(i as int));
                assert(a =~= a2 + ints_bytes(t));
            }
            i = i + 1;
        }
        proof {
            assert(self.combo_scaling_pct@.take(i as int) =~= self.combo_scaling_pct@);
        }
        let g = put_i32(&mut h, self.combo_floor_pct, Ghost(a));
        proof { a = g@; }
        let g = put_i32(&mut h, self.combo_hard_knockdown_hit as i32, Ghost(a));
        proof { a = g@; }
        let ghost a3 = a;
        let mut j: usize = 0;
        while j < self.block_advantage_whitelist.len()
            invariant
                0 <= j <= self.block_advantage_whitelist@.len(),
                h@ == fnv_hash(a),
                a == a3 + strings_bytes(self.block_advantage_whitelist@.take(j as int)),
            decreases self.block_advantage_whitelist@.len() - j,
        {
            let g = put_str(&mut h, &self.block_advantage_whitelist[j], Ghost(a));
            proof {
                a = g@;
                let t = self.block_advantage_whitelist@.take(j + 1);
                assert(t.drop_last() =~= self.block_advantage_whitelist@.take(j as int));
                assert(a =~= a3 + strings_bytes(t));
            }
            j = j + 1;
        }
        proof {
            assert(self.block_advantage_whitelist@.take(j as int) =~= self.block_advantage_whitelist@);
            assert(Seq::<u8>::empty() + header_bytes(*self) =~= header_bytes(*self));
        }
        h.finish()
    }
}


/// A move's frame data from its `[startup, active, recovery, hitstop]`
/// and its damage figures.
fn raw_move(frames: [i32; 4], damage: i32, block_damage: i32, hitstun: i32, blockstun: i32, guard_damage: i32) -> (r: RawMove)
    ensures
        r == (RawMove {
            startup: frames[0],
            active: frames[1],
            recovery: frames[2],
            damage,
            block_damage,
            hitstun,
            blockstun,
            guard_damage,
            hitstop: frames[3],
        }),
{
    RawMove {
        startup: frames[0],
        active: frames[1],
        recovery: frames[2],
        damage,
        block_damage,
        hitstun,
        blockstun,
        guard_damage,
        hitstop: frames[3],
    }
}

/// Whether `r` is the bundled default ruleset document, value for value.
///
/// The bundled document is revision 2026.3 of the tuning log: the start
/// separation jittered by up to 80 around 600 (2026.2) and Light's
/// recovery at 10, making it -3 on block (2026.3). It keeps the 90-second
/// round (`round_ticks` 5400), the 300-tick passivity window and the
/// 14-tick, 900-speed dash with a 340 walk; the later revisions (a
/// 480-tick window in 2026.4, a 3600-tick round in 2026.5, a 10-tick,
/// 700-speed dash and a 400 walk in 2026.6) are ruleset documents of their
/// own, loaded like any other. The engine's rules themselves (the seeded
/// start-separation draw, tick-over-tick passivity counting) do not depend
/// on the revision.
pub open spec fn spec_is_default_raw(r: RawRuleset) -> bool {
    &&& r.version@ == "2026.3"@
    &&& r.tick_rate == 60
    &&& r.round_ticks == 5400
    &&& r.intermission_ticks == 480
    &&& r.opening_freeze_ticks == 90
    &&& r.rounds_to_win == 2
    &&& r.max_rounds == 5
    &&& r.arena_width == 1200
    &&& r.ceiling == 600
    &&& r.fighter_height == 200
    &&& r.fighter_width == 80
    &&& r.start_separation == 600
    &&& r.start_separation_jitter == 80
    &&& r.vitality == 1000
    &&& r.surge_max == 100
    &&& r.guard_max == 100
    &&& r.observation_delay == 4
    &&& r.reflex_interval == 5
    &&& r.gravity == 60
    &&& r.walk_speed == 340
    &&& r.dash_speed == 900
    &&& r.dash_ticks == 14
    &&& r.jump_velocity == 1200
    &&& r.sudden_death_ticks == 1800
    &&& r.sudden_death_vitality == 300
    &&& r.passivity_warning_ticks == 300
    &&& r.passivity_penalty_fraction_pct == 10
    &&& r.guard_crush_ticks == 60
    &&& r.guard_crush_refill_to == 50
    &&& r.throw_tech_window_ticks == 7
    &&& r.light == (RawMove { startup: 4, active: 2, recovery: 10, damage: 30, block_damage: 3, hitstun: 12, blockstun: 8, guard_damage: 6, hitstop: 6 })
    &&& r.medium == (RawMove { startup: 8, active: 3, recovery: 14, damage: 70, block_damage: 7, hitstun: 16, blockstun: 12, guard_damage: 12, hitstop: 8 })
    &&& r.heavy == (RawMove { startup: 14, active: 4, recovery: 22, damage: 120, block_damage: 12, hitstun: 22, blockstun: 16, guard_damage: 20, hitstop: 10 })
    &&& r.throw == (RawMove { startup: 3, active: 2, recovery: 20, damage: 100, block_damage: 0, hitstun: 0, blockstun: 0, guard_damage: 0, hitstop: 10 })
    &&& r.combo_scaling_pct@ == seq![100i32, 90, 80, 70, 60, 50]
    &&& r.combo_floor_pct == 30
    &&& r.combo_hard_knockdown_hit == 15
    &&& r.block_advantage_whitelist@.len() == 0
    &&& r.light_hitbox@ == seq![30i32, 90, 80, 30]
    &&& r.medium_hitbox@ == seq![30i32, 80, 100, 40]
    &&& r.heavy_hitbox@ == seq![40i32, 70, 120, 50]
    &&& r.throw_hitbox@ == seq![0i32, 40, 100, 80]
    &&& r.light_hitbox_crouch@ == seq![30i32, 20, 80, 30]
    &&& r.medium_hitbox_crouch@ == seq![30i32, 10, 100, 30]
    &&& r.hurt_head@ == seq![-15i32, 140, 30, 40]
    &&& r.hurt_torso@ == seq![-25i32, 60, 50, 80]
    &&& r.hurt_arm_left@ == seq![-35i32, 90, 15, 40]
    &&& r.hurt_arm_right@ == seq![20i32, 90, 15, 40]
    &&& r.hurt_leg_left@ == seq![-25i32, 0, 20, 60]
    &&& r.hurt_leg_right@ == seq![5i32, 0, 20, 60]
    &&& r.hurt_head_crouch@ == seq![-15i32, 90, 30, 40]
    &&& r.hurt_torso_crouch@ == seq![-25i32, 40, 50, 50]
    &&& r.hurt_arm_left_crouch@ == seq![-35i32, 60, 15, 30]
    &&& r.hurt_arm_right_crouch@ == seq![20i32, 60, 15, 30]
    &&& r.hurt_leg_left_crouch@ == seq![-25i32, 0, 20, 40]
    &&& r.hurt_leg_right_crouch@ == seq![5i32, 0, 20, 40]
}

/// The bundled default ruleset, as its document states it.
pub fn default_raw_ruleset() -> (r: RawRuleset)
    ensures
        spec_is_default_raw(r),
{
    RawRuleset {
        version: String::from_str("2026.3"),
        tick_rate: 60,
        round_ticks: 5400,
        intermission_ticks: 480,
        opening_freeze_ticks: 90,
        rounds_to_win: 2,
        max_rounds: 5,
        arena_width: 1200,
        ceiling: 600,
        fighter_height: 200,
        fighter_width: 80,
        start_separation: 600,
        start_separation_jitter: 80,
        vitality: 1000,
        surge_max: 100,
        guard_max: 100,
        observation_delay: 4,
        reflex_interval: 5,
        gravity: 60,
        walk_speed: 340,
        dash_speed: 900,
        dash_ticks: 14,
        jump_velocity: 1200,
        sudden_death_ticks: 1800,
        sudden_death_vitality: 300,
        passivity_warning_ticks: 300,
        passivity_penalty_fraction_pct: 10,
        guard_crush_ticks: 60,
        guard_crush_refill_to: 50,
        throw_tech_window_ticks: 7,
        light: raw_move([4, 2, 10, 6], 30, 3, 12, 8, 6),
        medium: raw_move([8, 3, 14, 8], 70, 7, 16, 12, 12),
        heavy: raw_move([14, 4, 22, 10], 120, 12, 22, 16, 20),
        throw: raw_move([3, 2, 20, 10], 100, 0, 0, 0, 0),
        combo_scaling_pct: vec![100, 90, 80, 70, 60, 50],
        combo_floor_pct: 30,
        combo_hard_knockdown_hit: 15,
        block_advantage_whitelist: Vec::new(),
        light_hitbox: [30, 90, 80, 30],
        medium_hitbox: [30, 80, 100, 40],
        heavy_hitbox: [40, 70, 120, 50],
        throw_hitbox: [0, 40, 100, 80],
        light_hitbox_crouch: [30, 20, 80, 30],
        medium_hitbox_crouch: [30, 10, 100, 30],
        hurt_head: [-15, 140, 30, 40],
        hurt_torso: [-25, 60, 50, 80],
        hurt_arm_left: [-35, 90, 15, 40],
        hurt_arm_right: [20, 90, 15, 40],
        hurt_leg_left: [-25, 0, 20, 60],
        hurt_leg_right: [5, 0, 20, 60],
        hurt_head_crouch: [-15, 90, 30, 40],
        hurt_torso_crouch: [-25, 40, 50, 50],
        hurt_arm_left_crouch: [-35, 60, 15, 30],
        hurt_arm_right_crouch: [20, 60, 15, 30],
        hurt_leg_left_crouch: [-25, 0, 20, 40],
        hurt_leg_right_crouch: [5, 0, 20, 40],
    }
}

/// The bundled default ruleset (revision 2026.3), loaded.
pub fn default_ruleset() -> (r: Ruleset)
    ensures
        r.wf(),
        exists|raw: RawRuleset| spec_is_default_raw(raw) && #[trigger] spec_converted(raw, r),
        r.tick_rate == 60,
        r.round_ticks == 5400,
        r.light.damage == 30,
        r.light == (MoveSpec { startup: 4, active: 2, recovery: 10, damage: 30, block_damage: 3, hitstun: 12, blockstun: 8, guard_damage: 6, hitstop: 6 }),
        r.combo_scaling_pct@ == seq![100i32, 90, 80, 70, 60, 50],
        r.block_advantage_whitelist@.len() == 0,
{
    let raw = default_raw_ruleset();
    assert(60i32 << 16u32 == 60 * 65536) by (bit_vector);
    assert(340i32 << 16u32 == 340 * 65536) by (bit_vector);
    let r = Ruleset::from_raw(&raw);
    proof {
        assert(spec_is_default_raw(raw) && spec_converted(raw, r));
    }
    r
}


impl MoveSpec {
    /// Whether the move is within the engine's bounds (see `wf`).
    pub fn is_well_formed(&self) -> (r: bool)
        ensures
            r == self.wf(),
    {
        (self.startup as u32 + self.active as u32 + self.recovery as u32) <= u16::MAX as u32 && 0 <= self.damage
            && self.damage <= VALUE_MAX && 0 <= self.block_damage && self.block_damage <= VALUE_MAX && 0
            <= self.guard_damage && self.guard_damage <= VALUE_MAX
    }
}

impl Ruleset {
    /// Whether the ruleset is within the engine's bounds (see `wf`); a
    /// match may only be played under one that is.
    pub fn is_well_formed(&self) -> (r: bool)
        ensures
            r == self.wf(),
    {
        let mut ok = 1 <= self.vitality && self.vitality <= VALUE_MAX && 1 <= self.sudden_death_vitality
            && self.sudden_death_vitality <= VALUE_MAX && 0 <= self.surge_max && self.surge_max <= VALUE_MAX
            && 0 <= self.guard_max && self.guard_max <= VALUE_MAX && 0 <= self.guard_crush_refill_to
            && self.guard_crush_refill_to <= VALUE_MAX && 0 <= self.passivity_penalty_fraction_pct
            && self.passivity_penalty_fraction_pct <= 100 && 0 <= self.combo_floor_pct && self.combo_floor_pct
            <= 10_000;
        ok = ok && self.light.is_well_formed() && self.medium.is_well_formed() && self.heavy.is_well_formed()
            && self.throw.is_well_formed();
        ok = ok && self.walk_speed_per_tick.0 != i32::MIN && self.round_ticks <= PHASE_TICKS_MAX
            && self.sudden_death_ticks <= PHASE_TICKS_MAX && self.intermission_ticks <= PHASE_TICKS_MAX
            && self.opening_freeze_ticks <= PHASE_TICKS_MAX && self.max_rounds <= ROUNDS_MAX
            && self.observation_delay < PHASE_TICKS_MAX && self.passivity_warning_ticks >= 1;
        let a = if self.light.hitstop > self.medium.hitstop {
            self.light.hitstop
        } else {
            self.medium.hitstop
        };
        let b = if self.heavy.hitstop > self.throw.hitstop {
            self.heavy.hitstop
        } else {
            self.throw.hitstop
        };
        let h = if a > b {
            a
        } else {
            b
        };
        let clock = if self.round_ticks > self.sudden_death_ticks {
            self.round_ticks
        } else {
            self.sudden_death_ticks
        };
        let longest = clock as u64 + h as u64 + 1;
        ok = ok && longest < 255 * (self.passivity_warning_ticks as u64);
        let mut i: usize = 0;
        while i < self.combo_scaling_pct.len()
            invariant
                0 <= i <= self.combo_scaling_pct@.len(),
                ok ==> forall|k: int| 0 <= k < i ==> 0 <= #[trigger] self.combo_scaling_pct@[k] <= 10_000,
                !ok ==> !self.wf(),
                ok ==> (self.wf() <==> forall|k: int|
                    i <= k < self.combo_scaling_pct@.len() ==> 0 <= #[trigger] self.combo_scaling_pct@[k] <= 10_000),
            decreases self.combo_scaling_pct@.len() - i,
        {
            let p = self.combo_scaling_pct[i];
            if p < 0 || p > 10_000 {
                ok = false;
            }
            i = i + 1;
        }
        ok
    }
}

} // verus!
