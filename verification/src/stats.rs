//! Match statistics gathered by watching the public per-tick reports and
//! fighter views: attack outcomes, damage, combos, guard, surge, throws,
//! passivity, time per state, spacing and trades. Everything here is
//! integer counting; percentages and averages are derived by the caller.
use crate::combat::HitLog;
use crate::fixed::{abs_raw, sub_raw, Fixed};
use crate::ruleset::{spec_move_spec, Ruleset, VALUE_MAX};
use crate::sim::{MatchEndReason, MatchResult, RoundOutcome, WarnLog};
use crate::types::{spec_state_index, AttackKind, FighterState, FighterView};
use vstd::prelude::*;

verus! {

/// How many bands the fighter-to-fighter distance is counted in.
pub const DISTANCE_BUCKETS: usize = 8;

/// Outcomes of one kind of normal attack.
#[derive(Debug, Clone, Copy, PartialEq, Eq, Structural)]
pub struct AttackTypeCounts {
    pub attempted: u32,
    pub landed: u32,
    pub blocked: u32,
    pub whiffed: u32,
}

/// Attack outcomes per kind.
#[derive(Debug, Clone, Copy, PartialEq, Eq, Structural)]
pub struct AttackCounts {
    pub light: AttackTypeCounts,
    pub medium: AttackTypeCounts,
    pub heavy: AttackTypeCounts,
}

/// Damage dealt and taken.
#[derive(Debug, Clone, Copy, PartialEq, Eq, Structural)]
pub struct DamageStats {
    pub dealt: i64,
    pub taken: i64,
    pub chip_dealt: i64,
    /// Base move damage minus damage actually dealt, over unblocked
    /// strikes: combo scaling, crouch scaling and kill clamping together.
    pub scaled_away: i64,
}

/// Guard damage taken, guard crushes and time spent blocking.
#[derive(Debug, Clone, Copy, PartialEq, Eq, Structural)]
pub struct GuardStats {
    pub damage_taken: i64,
    pub crushes: u32,
    pub ticks_blocking: u32,
}

/// Surge gained, its peak, and time at the maximum.
#[derive(Debug, Clone, Copy, PartialEq, Eq, Structural)]
pub struct SurgeStats {
    pub gained: i64,
    pub peak: i32,
    pub ticks_at_max: u32,
}

/// Throw attempts, throws landed and throws teched.
#[derive(Debug, Clone, Copy, PartialEq, Eq, Structural)]
pub struct ThrowStats {
    pub attempted: u32,
    pub landed: u32,
    pub teched: u32,
}

/// Passivity warnings received, and how many of them were penalties.
#[derive(Debug, Clone, Copy, PartialEq, Eq, Structural)]
pub struct PassivityStats {
    pub warnings: u32,
    pub penalties: u32,
}

/// Everything counted for one fighter.
#[derive(Debug, Clone, Copy)]
pub struct FighterCounts {
    pub attacks: AttackCounts,
    pub damage: DamageStats,
    pub combo_count: u32,
    pub combo_longest: u8,
    pub combo_length_sum: u64,
    pub guard: GuardStats,
    pub surge: SurgeStats,
    pub throws: ThrowStats,
    pub passivity: PassivityStats,
    /// Ticks spent in each state, by the state's index.
    pub state_tick_counts: [u32; 24],
    pub total_ticks: u32,
}

/// What the watcher remembers about a fighter from the previous tick, to
/// see edges (state entries, meter deltas, combo ends).
#[derive(Debug, Clone, Copy, PartialEq, Eq, Structural)]
pub struct Watch {
    pub prev_state: Option<FighterState>,
    pub prev_guard: i32,
    pub prev_surge: i32,
    pub prev_combo_count: u8,
    /// Who started the combo this fighter is currently taking.
    pub combo_attacker: Option<usize>,
}

/// Zero counts.
pub open spec fn spec_zero_type() -> AttackTypeCounts {
    AttackTypeCounts { attempted: 0, landed: 0, blocked: 0, whiffed: 0 }
}

impl AttackTypeCounts {
    /// Nothing counted yet.
    pub fn new() -> (r: AttackTypeCounts)
        ensures
            r == spec_zero_type(),
    {
        AttackTypeCounts { attempted: 0, landed: 0, blocked: 0, whiffed: 0 }
    }
}

impl AttackCounts {
    /// The counts of one kind.
    pub open spec fn spec_of(self, kind: AttackKind) -> AttackTypeCounts {
        match kind {
            AttackKind::Light => self.light,
            AttackKind::Medium => self.medium,
            AttackKind::Heavy => self.heavy,
        }
    }

    /// These counts with one kind's replaced.
    pub open spec fn spec_with(self, kind: AttackKind, c: AttackTypeCounts) -> AttackCounts {
        match kind {
            AttackKind::Light => AttackCounts { light: c, ..self },
            AttackKind::Medium => AttackCounts { medium: c, ..self },
            AttackKind::Heavy => AttackCounts { heavy: c, ..self },
        }
    }

    /// Nothing counted yet.
    pub fn new() -> (r: AttackCounts)
        ensures
            r == (AttackCounts { light: spec_zero_type(), medium: spec_zero_type(), heavy: spec_zero_type() }),
    {
        AttackCounts { light: AttackTypeCounts::new(), medium: AttackTypeCounts::new(), heavy: AttackTypeCounts::new() }
    }

    /// The counts of one kind.
    pub fn of(&self, kind: AttackKind) -> (r: AttackTypeCounts)
        ensures
            r == self.spec_of(kind),
    {
        match kind {
            AttackKind::Light => self.light,
            AttackKind::Medium => self.medium,
            AttackKind::Heavy => self.heavy,
        }
    }

    /// The counts of one kind, to update in place.
    fn of_mut(&mut self, kind: AttackKind) -> (r: &mut AttackTypeCounts)
        ensures
            *r == old(self).spec_of(kind),
            *final(self) == old(self).spec_with(kind, *final(r)),
    {
        match kind {
            AttackKind::Light => &mut self.light,
            AttackKind::Medium => &mut self.medium,
            AttackKind::Heavy => &mut self.heavy,
        }
    }

    /// Whiffs are the attempts that neither landed nor were blocked (never
    /// below zero).
    pub fn finalize_whiffs(&mut self)
        requires
            old(self).light.landed + old(self).light.blocked <= u32::MAX,
            old(self).medium.landed + old(self).medium.blocked <= u32::MAX,
            old(self).heavy.landed + old(self).heavy.blocked <= u32::MAX,
        ensures
            *final(self) == (AttackCounts {
                light: AttackTypeCounts { whiffed: spec_whiffs(old(self).light), ..old(self).light },
                medium: AttackTypeCounts { whiffed: spec_whiffs(old(self).medium), ..old(self).medium },
                heavy: AttackTypeCounts { whiffed: spec_whiffs(old(self).heavy), ..old(self).heavy },
            }),
    {
        self.light.whiffed = self.light.attempted.saturating_sub(self.light.landed + self.light.blocked);
        self.medium.whiffed = self.medium.attempted.saturating_sub(self.medium.landed + self.medium.blocked);
        self.heavy.whiffed = self.heavy.attempted.saturating_sub(self.heavy.landed + self.heavy.blocked);
    }
}

/// Attempts that neither landed nor were blocked, never below zero.
pub open spec fn spec_whiffs(c: AttackTypeCounts) -> u32 {
    if c.attempted >= c.landed + c.blocked {
        (c.attempted - (c.landed + c.blocked)) as u32
    } else {
        0
    }
}

/// The undamaged base damage of a normal.
pub open spec fn spec_base_damage(rs: Ruleset, kind: AttackKind) -> i32 {
    spec_move_spec(rs, kind).damage
}

/// The undamaged base damage of a normal.
pub fn base_damage(rs: &Ruleset, kind: AttackKind) -> (r: i32)
    ensures
        r == spec_base_damage(*rs, kind),
{
    match kind {
        AttackKind::Light => rs.light.damage,
        AttackKind::Medium => rs.medium.damage,
        AttackKind::Heavy => rs.heavy.damage,
    }
}

/// Nothing counted for a fighter.
pub open spec fn spec_zero_fighter() -> FighterCounts {
    FighterCounts {
        attacks: AttackCounts { light: spec_zero_type(), medium: spec_zero_type(), heavy: spec_zero_type() },
        damage: DamageStats { dealt: 0, taken: 0, chip_dealt: 0, scaled_away: 0 },
        combo_count: 0,
        combo_longest: 0,
        combo_length_sum: 0,
        guard: GuardStats { damage_taken: 0, crushes: 0, ticks_blocking: 0 },
        surge: SurgeStats { gained: 0, peak: 0, ticks_at_max: 0 },
        throws: ThrowStats { attempted: 0, landed: 0, teched: 0 },
        passivity: PassivityStats { warnings: 0, penalties: 0 },
        state_tick_counts: [0u32, 0u32, 0u32, 0u32, 0u32, 0u32, 0u32, 0u32, 0u32, 0u32, 0u32, 0u32, 0u32, 0u32, 0u32, 0u32, 0u32, 0u32, 0u32, 0u32, 0u32, 0u32, 0u32, 0u32],
        total_ticks: 0,
    }
}

/// A watch that has seen nothing.
pub open spec fn spec_fresh_watch() -> Watch {
    Watch { prev_state: None, prev_guard: 0, prev_surge: 0, prev_combo_count: 0, combo_attacker: None }
}

impl FighterCounts {
    /// Nothing counted yet.
    pub fn new() -> (r: FighterCounts)
        ensures
            r == (FighterCounts { state_tick_counts: r.state_tick_counts, ..spec_zero_fighter() }),
            r.state_tick_counts@ == Seq::new(24, |i: int| 0u32),
    {
        let r = FighterCounts {
            attacks: AttackCounts::new(),
            damage: DamageStats { dealt: 0, taken: 0, chip_dealt: 0, scaled_away: 0 },
            combo_count: 0,
            combo_longest: 0,
            combo_length_sum: 0,
            guard: GuardStats { damage_taken: 0, crushes: 0, ticks_blocking: 0 },
            surge: SurgeStats { gained: 0, peak: 0, ticks_at_max: 0 },
            throws: ThrowStats { attempted: 0, landed: 0, teched: 0 },
            passivity: PassivityStats { warnings: 0, penalties: 0 },
            state_tick_counts: [0u32; 24],
            total_ticks: 0,
        };
        assert(r.state_tick_counts@ =~= Seq::new(24, |i: int| 0u32));
        r
    }
}

impl Watch {
    /// A watch that has seen nothing.
    pub fn new() -> (r: Watch)
        ensures
            r == spec_fresh_watch(),
    {
        Watch { prev_state: None, prev_guard: 0, prev_surge: 0, prev_combo_count: 0, combo_attacker: None }
    }
}


/// Every counter far from its type's limits, so that one more tick (or
/// one more round merged in) cannot overflow.
pub open spec fn roomy(c: FighterCounts) -> bool {
    let lim: int = 0x4000_0000;
    let big: int = 0x2000_0000_0000_0000;
    &&& c.attacks.light.attempted <= lim && c.attacks.light.landed <= lim && c.attacks.light.blocked <= lim
        && c.attacks.light.whiffed <= lim
    &&& c.attacks.medium.attempted <= lim && c.attacks.medium.landed <= lim && c.attacks.medium.blocked
        <= lim && c.attacks.medium.whiffed <= lim
    &&& c.attacks.heavy.attempted <= lim && c.attacks.heavy.landed <= lim && c.attacks.heavy.blocked <= lim
        && c.attacks.heavy.whiffed <= lim
    &&& -big <= c.damage.dealt <= big && -big <= c.damage.taken <= big
    &&& -big <= c.damage.chip_dealt <= big && -big <= c.damage.scaled_away <= big
    &&& c.combo_count <= lim && c.combo_length_sum <= big
    &&& -big <= c.guard.damage_taken <= big && c.guard.crushes <= lim && c.guard.ticks_blocking <= lim
    &&& -big <= c.surge.gained <= big && c.surge.ticks_at_max <= lim
    &&& c.throws.attempted <= lim && c.throws.landed <= lim && c.throws.teched <= lim
    &&& c.passivity.warnings <= lim && c.passivity.penalties <= lim
    &&& c.total_ticks <= lim
    &&& forall|i: int| 0 <= i < 24 ==> #[trigger] c.state_tick_counts@[i] <= lim
}

impl FighterCounts {
    /// Whether every counter is far from its type's limits.
    pub fn has_room(&self) -> (r: bool)
        ensures
            r == roomy(*self),
    {
        let lim: u32 = 0x4000_0000;
        let big: i64 = 0x2000_0000_0000_0000;
        let a = &self.attacks;
        let mut ok = a.light.attempted <= lim && a.light.landed <= lim && a.light.blocked <= lim
            && a.light.whiffed <= lim && a.medium.attempted <= lim && a.medium.landed <= lim
            && a.medium.blocked <= lim && a.medium.whiffed <= lim && a.heavy.attempted <= lim
            && a.heavy.landed <= lim && a.heavy.blocked <= lim && a.heavy.whiffed <= lim;
        let d = &self.damage;
        ok = ok && -big <= d.dealt && d.dealt <= big && -big <= d.taken && d.taken <= big && -big
            <= d.chip_dealt && d.chip_dealt <= big && -big <= d.scaled_away && d.scaled_away <= big;
        ok = ok && self.combo_count <= lim && self.combo_length_sum <= big as u64;
        ok = ok && -big <= self.guard.damage_taken && self.guard.damage_taken <= big && self.guard.crushes
            <= lim && self.guard.ticks_blocking <= lim;
        ok = ok && -big <= self.surge.gained && self.surge.gained <= big && self.surge.ticks_at_max <= lim;
        ok = ok && self.throws.attempted <= lim && self.throws.landed <= lim && self.throws.teched <= lim;
        ok = ok && self.passivity.warnings <= lim && self.passivity.penalties <= lim && self.total_ticks <= lim;
        let mut i: usize = 0;
        while i < 24
            invariant
                0 <= i <= 24,
                ok ==> forall|k: int| 0 <= k < i ==> #[trigger] self.state_tick_counts@[k] <= lim,
                !ok ==> !roomy(*self),
                ok ==> (roomy(*self) <==> forall|k: int| i <= k < 24 ==> #[trigger] self.state_tick_counts@[k] <= lim),
            decreases 24 - i,
        {
            if self.state_tick_counts[i] > lim {
                ok = false;
            }
            i = i + 1;
        }
        ok
    }
}

/// Blocking, or stunned by a blocked hit.
pub open spec fn spec_blocking(s: FighterState) -> bool {
    s == FighterState::BlockStand || s == FighterState::BlockCrouch || s == FighterState::BlockStun
}

/// `v` shows `s` and the previous tick did not.
pub open spec fn spec_entered(w: Watch, v: FighterView, s: FighterState) -> bool {
    v.state == s && w.prev_state != Some(s)
}

/// Meter readings within the engine's value range.
pub open spec fn meters_seen(w: Watch, v: FighterView) -> bool {
    &&& 0 <= w.prev_guard <= VALUE_MAX
    &&& 0 <= w.prev_surge <= VALUE_MAX
    &&& 0 <= v.guard <= VALUE_MAX
    &&& 0 <= v.surge <= VALUE_MAX
}

/// One fighter's counts after watching it for one tick (its per-state
/// tick count aside): a tick counted, time blocking and at maximum surge,
/// the surge peak, attack and throw attempts on entry, guard damage taken
/// and surge gained from the meter deltas, and guard crushes on entry.
pub open spec fn spec_watched(c: FighterCounts, w: Watch, v: FighterView, kind: Option<AttackKind>, surge_max: i32) -> FighterCounts {
    let attacks = if spec_entered(w, v, FighterState::AttackStartup) && kind.is_some() {
        let t = c.attacks.spec_of(kind.unwrap());
        c.attacks.spec_with(kind.unwrap(), AttackTypeCounts { attempted: (t.attempted + 1) as u32, ..t })
    } else {
        c.attacks
    };
    let guard_delta = w.prev_guard - v.guard;
    let surge_delta = v.surge - w.prev_surge;
    FighterCounts {
        total_ticks: (c.total_ticks + 1) as u32,
        attacks,
        guard: GuardStats {
            ticks_blocking: if spec_blocking(v.state) { (c.guard.ticks_blocking + 1) as u32 } else { c.guard.ticks_blocking },
            damage_taken: if guard_delta > 0 { (c.guard.damage_taken + guard_delta) as i64 } else { c.guard.damage_taken },
            crushes: if spec_entered(w, v, FighterState::GuardCrush) { (c.guard.crushes + 1) as u32 } else { c.guard.crushes },
        },
        surge: SurgeStats {
            peak: if c.surge.peak > v.surge { c.surge.peak } else { v.surge },
            ticks_at_max: if v.surge >= surge_max { (c.surge.ticks_at_max + 1) as u32 } else { c.surge.ticks_at_max },
            gained: if surge_delta > 0 { (c.surge.gained + surge_delta) as i64 } else { c.surge.gained },
        },
        throws: ThrowStats {
            attempted: if spec_entered(w, v, FighterState::ThrowAttempt) { (c.throws.attempted + 1) as u32 } else { c.throws.attempted },
            ..c.throws
        },
        ..c
    }
}

/// One fighter's counts after watching it for one tick, its per-state
/// tick count included.
pub open spec fn spec_watched_counts(c: FighterCounts, w: Watch, v: FighterView, kind: Option<AttackKind>, surge_max: i32) -> FighterCounts {
    let i = spec_state_index(v.state) as int;
    FighterCounts {
        state_tick_counts: vstd::array::spec_array_update(c.state_tick_counts, i, (c.state_tick_counts[i] + 1) as u32),
        ..spec_watched(c, w, v, kind, surge_max)
    }
}

/// The watch after one tick: the fighter's meters and combo count
/// remembered, and a finished combo's attacker forgotten.
pub open spec fn spec_watch_after(w: Watch, v: FighterView) -> Watch {
    let ended = v.combo_count == 0 && w.prev_combo_count > 0;
    Watch {
        prev_guard: v.guard,
        prev_surge: v.surge,
        prev_combo_count: v.combo_count,
        combo_attacker: if ended { None } else { w.combo_attacker },
        ..w
    }
}

/// The combo that ended this tick, credited to its attacker with its
/// length, if any.
pub open spec fn spec_combo_credit(w: Watch, v: FighterView) -> Option<(usize, u8)> {
    if v.combo_count == 0 && w.prev_combo_count > 0 && w.combo_attacker.is_some() {
        Some((w.combo_attacker.unwrap(), w.prev_combo_count))
    } else {
        None
    }
}

/// Watch one fighter for one tick (outside a freeze); returns the combo
/// that ended on it, to be credited to its attacker.
pub fn watch_fighter(c: &mut FighterCounts, w: &mut Watch, v: FighterView, kind: Option<AttackKind>, surge_max: i32) -> (credit: Option<(usize, u8)>)
    requires
        roomy(*old(c)),
        meters_seen(*old(w), v),
    ensures
        *final(c) == (FighterCounts {
            state_tick_counts: final(c).state_tick_counts,
            ..spec_watched(*old(c), *old(w), v, kind, surge_max)
        }),
        final(c).state_tick_counts@ == old(c).state_tick_counts@.update(
            spec_state_index(v.state) as int,
            (old(c).state_tick_counts@[spec_state_index(v.state) as int] + 1) as u32,
        ),
        *final(c) == spec_watched_counts(*old(c), *old(w), v, kind, surge_max),
        *final(w) == spec_watch_after(*old(w), v),
        credit == spec_combo_credit(*old(w), v),
{
    let ghost c0 = *c;
    c.total_ticks = c.total_ticks + 1;
    let si = v.state.index() as usize;
    c.state_tick_counts[si] = c.state_tick_counts[si] + 1;
    if v.state == FighterState::BlockStand || v.state == FighterState::BlockCrouch || v.state == FighterState::BlockStun {
        c.guard.ticks_blocking = c.guard.ticks_blocking + 1;
    }
    c.surge.peak = if c.surge.peak > v.surge {
        c.surge.peak
    } else {
        v.surge
    };
    if v.surge >= surge_max {
        c.surge.ticks_at_max = c.surge.ticks_at_max + 1;
    }
    let was_startup = match w.prev_state {
        Some(s) => s == FighterState::AttackStartup,
        None => false,
    };
    if v.state == FighterState::AttackStartup && !was_startup {
        match kind {
            Some(k) => {
                let t = c.attacks.of_mut(k);
                t.attempted = t.attempted + 1;
            },
            None => {},
        }
    }
    let was_throw = match w.prev_state {
        Some(s) => s == FighterState::ThrowAttempt,
        None => false,
    };
    if v.state == FighterState::ThrowAttempt && !was_throw {
        c.throws.attempted = c.throws.attempted + 1;
    }
    let guard_delta = w.prev_guard - v.guard;
    if guard_delta > 0 {
        c.guard.damage_taken = c.guard.damage_taken + guard_delta as i64;
    }
    let was_crushed = match w.prev_state {
        Some(s) => s == FighterState::GuardCrush,
        None => false,
    };
    if v.state == FighterState::GuardCrush && !was_crushed {
        c.guard.crushes = c.guard.crushes + 1;
    }
    let surge_delta = v.surge - w.prev_surge;
    if surge_delta > 0 {
        c.surge.gained = c.surge.gained + surge_delta as i64;
    }
    let mut credit: Option<(usize, u8)> = None;
    if v.combo_count == 0 && w.prev_combo_count > 0 {
        match w.combo_attacker {
            Some(attacker) => {
                credit = Some((attacker, w.prev_combo_count));
            },
            None => {},
        }
        w.combo_attacker = None;
    }
    w.prev_guard = v.guard;
    w.prev_surge = v.surge;
    w.prev_combo_count = v.combo_count;
    proof {
        let i = spec_state_index(v.state) as int;
        assert(c.state_tick_counts@ =~= c0.state_tick_counts@.update(i, (c0.state_tick_counts@[i] + 1) as u32));
        vstd::array::axiom_spec_array_update(c0.state_tick_counts, i, (c0.state_tick_counts[i] + 1) as u32);
        assert(c.state_tick_counts =~= vstd::array::spec_array_update(c0.state_tick_counts, i, (c0.state_tick_counts[i] + 1) as u32));
    }
    credit
}

/// The attacker's counts with one finished combo of length `len`.
pub open spec fn spec_credited(c: FighterCounts, len: u8) -> FighterCounts {
    FighterCounts {
        combo_count: (c.combo_count + 1) as u32,
        combo_longest: if c.combo_longest > len { c.combo_longest } else { len },
        combo_length_sum: (c.combo_length_sum + len) as u64,
        ..c
    }
}

/// Credit a finished combo of length `len` to its attacker.
pub fn credit_combo(c: &mut FighterCounts, len: u8)
    requires
        roomy(*old(c)),
    ensures
        *final(c) == spec_credited(*old(c), len),
{
    c.combo_count = c.combo_count + 1;
    c.combo_longest = if c.combo_longest > len {
        c.combo_longest
    } else {
        len
    };
    c.combo_length_sum = c.combo_length_sum + len as u64;
}

/// The attacker's and defender's counts after one contact, and whether
/// the defender's combo should now be attributed to this attacker (an
/// unblocked strike that is the defender's first combo hit).
pub open spec fn spec_tallied(a: FighterCounts, d: FighterCounts, h: HitLog, base: i32, defender_combo: u8) -> (FighterCounts, FighterCounts, bool) {
    if h.is_tech {
        (FighterCounts { throws: ThrowStats { teched: (a.throws.teched + 1) as u32, ..a.throws }, ..a }, d, false)
    } else if h.is_throw {
        (
            FighterCounts {
                throws: ThrowStats { landed: (a.throws.landed + 1) as u32, ..a.throws },
                damage: DamageStats { dealt: (a.damage.dealt + h.damage) as i64, ..a.damage },
                ..a
            },
            FighterCounts { damage: DamageStats { taken: (d.damage.taken + h.damage) as i64, ..d.damage }, ..d },
            false,
        )
    } else {
        let k = h.kind.unwrap();
        let t = a.attacks.spec_of(k);
        if h.blocked {
            (
                FighterCounts {
                    attacks: a.attacks.spec_with(k, AttackTypeCounts { blocked: (t.blocked + 1) as u32, ..t }),
                    damage: DamageStats { chip_dealt: (a.damage.chip_dealt + h.damage) as i64, ..a.damage },
                    ..a
                },
                d,
                false,
            )
        } else {
            let away = if base - h.damage > 0 { base - h.damage } else { 0 };
            (
                FighterCounts {
                    attacks: a.attacks.spec_with(k, AttackTypeCounts { landed: (t.landed + 1) as u32, ..t }),
                    damage: DamageStats {
                        dealt: (a.damage.dealt + h.damage) as i64,
                        scaled_away: (a.damage.scaled_away + away) as i64,
                        ..a.damage
                    },
                    ..a
                },
                FighterCounts { damage: DamageStats { taken: (d.damage.taken + h.damage) as i64, ..d.damage }, ..d },
                defender_combo == 1,
            )
        }
    }
}

/// Count one contact: techs and throws by the thrower, strikes landed or
/// blocked by kind, damage dealt, taken, chipped and scaled away. Returns
/// whether the defender's combo is now this attacker's.
pub fn tally_hit(a: &mut FighterCounts, d: &mut FighterCounts, h: &HitLog, base: i32, defender_combo: u8) -> (starts: bool)
    requires
        roomy(*old(a)),
        roomy(*old(d)),
        0 <= h.damage <= VALUE_MAX,
        0 <= base <= VALUE_MAX,
        !h.is_tech && !h.is_throw ==> h.kind.is_some(),
    ensures
        (*final(a), *final(d), starts) == spec_tallied(*old(a), *old(d), *h, base, defender_combo),
{
    if h.is_tech {
        a.throws.teched = a.throws.teched + 1;
        return false;
    }
    if h.is_throw {
        a.throws.landed = a.throws.landed + 1;
        a.damage.dealt = a.damage.dealt + h.damage as i64;
        d.damage.taken = d.damage.taken + h.damage as i64;
        return false;
    }
    let k = match h.kind {
        Some(k) => k,
        None => AttackKind::Light,
    };
    if h.blocked {
        let t = a.attacks.of_mut(k);
        t.blocked = t.blocked + 1;
        a.damage.chip_dealt = a.damage.chip_dealt + h.damage as i64;
        false
    } else {
        let t = a.attacks.of_mut(k);
        t.landed = t.landed + 1;
        a.damage.dealt = a.damage.dealt + h.damage as i64;
        d.damage.taken = d.damage.taken + h.damage as i64;
        let away = base - h.damage;
        let away = if away > 0 {
            away
        } else {
            0
        };
        a.damage.scaled_away = a.damage.scaled_away + away as i64;
        defender_combo == 1
    }
}

/// Count one passivity warning (and, for a second one, a penalty).
pub fn tally_warning(c: &mut FighterCounts, w: &WarnLog)
    requires
        roomy(*old(c)),
    ensures
        *final(c) == (FighterCounts {
            passivity: PassivityStats {
                warnings: (old(c).passivity.warnings + 1) as u32,
                penalties: if w.second_warning { (old(c).passivity.penalties + 1) as u32 } else { old(c).passivity.penalties },
            },
            ..*old(c)
        }),
{
    c.passivity.warnings = c.passivity.warnings + 1;
    if w.second_warning {
        c.passivity.penalties = c.passivity.penalties + 1;
    }
}

/// The spacing band of two positions: their whole-unit distance scaled to
/// `DISTANCE_BUCKETS` bands over the arena width (at least one unit), the
/// last band also taking anything beyond.
pub open spec fn spec_distance_bucket(x0: Fixed, x1: Fixed, arena_width: Fixed) -> int {
    let d = crate::fixed::spec_to_int(abs_raw(sub_raw(x0.0, x1.0)));
    let dist = if d >= 0 { d } else { -d };
    let w = crate::fixed::spec_to_int(arena_width.0);
    let aw = if w > 1 { w } else { 1 };
    let b = dist * 8 / (aw + 1);
    if b < 7 { b } else { 7 }
}

/// The spacing band of two positions.
pub fn distance_bucket(x0: Fixed, x1: Fixed, arena_width: Fixed) -> (b: usize)
    ensures
        b == spec_distance_bucket(x0, x1, arena_width),
        b < DISTANCE_BUCKETS,
{
    let d = x0.sub(x1).abs().to_int();
    let dist: u64 = if d >= 0 {
        d as u64
    } else {
        (-(d as i64)) as u64
    };
    let w = arena_width.to_int();
    let aw: u64 = if w > 1 {
        w as u64
    } else {
        1
    };
    let b = dist * 8 / (aw + 1);
    if b < 7 {
        b as usize
    } else {
        7
    }
}

/// Whether fighter `i` made contact this tick (a tech is no contact).
pub open spec fn spec_made_contact(hits: Seq<HitLog>, i: usize) -> bool {
    exists|k: int| 0 <= k < hits.len() && !hits[k].is_tech && #[trigger] hits[k].attacker_idx == i
}

/// Whether a tick's contacts are a trade: both fighters made contact.
pub fn is_trade(hits: &Vec<HitLog>) -> (r: bool)
    ensures
        r == (spec_made_contact(hits@, 0) && spec_made_contact(hits@, 1)),
{
    let mut hit0 = false;
    let mut hit1 = false;
    let mut k: usize = 0;
    while k < hits.len()
        invariant
            k <= hits@.len(),
            hit0 == exists|j: int| 0 <= j < k && !hits@[j].is_tech && #[trigger] hits@[j].attacker_idx == 0,
            hit1 == exists|j: int| 0 <= j < k && !hits@[j].is_tech && #[trigger] hits@[j].attacker_idx == 1,
        decreases hits.len() - k,
    {
        let h = &hits[k];
        if !h.is_tech {
            if h.attacker_idx == 0 {
                hit0 = true;
            } else if h.attacker_idx == 1 {
                hit1 = true;
            }
        }
        k = k + 1;
    }
    hit0 && hit1
}

/// How a round is labelled in the statistics: a round that ends the match
/// in sudden death is `sudden_death`, otherwise `ko`, `timeout` or
/// `double_ko`.
pub open spec fn spec_round_ending(outcome: RoundOutcome, match_ended: Option<MatchResult>) -> Seq<char> {
    if match_ended.is_some() && match_ended.unwrap().reason == MatchEndReason::SuddenDeath {
        "sudden_death"@
    } else {
        match outcome {
            RoundOutcome::Ko { .. } => "ko"@,
            RoundOutcome::Timeout { .. } => "timeout"@,
            RoundOutcome::DoubleKo => "double_ko"@,
        }
    }
}

/// How a round is labelled in the statistics.
pub fn round_ending(outcome: RoundOutcome, match_ended: Option<MatchResult>) -> (r: &'static str)
    ensures
        r@ == spec_round_ending(outcome, match_ended),
{
    let sudden = match match_ended {
        Some(m) => match m.reason {
            MatchEndReason::SuddenDeath => true,
            _ => false,
        },
        None => false,
    };
    if sudden {
        "sudden_death"
    } else {
        match outcome {
            RoundOutcome::Ko { .. } => "ko",
            RoundOutcome::Timeout { .. } => "timeout",
            RoundOutcome::DoubleKo => "double_ko",
        }
    }
}


/// `t` with `r` added: every count and sum added, longest combo and surge
/// peak maximised.
pub open spec fn spec_merged(t: FighterCounts, r: FighterCounts) -> FighterCounts {
    FighterCounts {
        attacks: AttackCounts {
            light: spec_sum_type(t.attacks.light, r.attacks.light),
            medium: spec_sum_type(t.attacks.medium, r.attacks.medium),
            heavy: spec_sum_type(t.attacks.heavy, r.attacks.heavy),
        },
        damage: DamageStats {
            dealt: (t.damage.dealt + r.damage.dealt) as i64,
            taken: (t.damage.taken + r.damage.taken) as i64,
            chip_dealt: (t.damage.chip_dealt + r.damage.chip_dealt) as i64,
            scaled_away: (t.damage.scaled_away + r.damage.scaled_away) as i64,
        },
        combo_count: (t.combo_count + r.combo_count) as u32,
        combo_longest: if t.combo_longest > r.combo_longest { t.combo_longest } else { r.combo_longest },
        combo_length_sum: (t.combo_length_sum + r.combo_length_sum) as u64,
        guard: GuardStats {
            damage_taken: (t.guard.damage_taken + r.guard.damage_taken) as i64,
            crushes: (t.guard.crushes + r.guard.crushes) as u32,
            ticks_blocking: (t.guard.ticks_blocking + r.guard.ticks_blocking) as u32,
        },
        surge: SurgeStats {
            gained: (t.surge.gained + r.surge.gained) as i64,
            peak: if t.surge.peak > r.surge.peak { t.surge.peak } else { r.surge.peak },
            ticks_at_max: (t.surge.ticks_at_max + r.surge.ticks_at_max) as u32,
        },
        throws: ThrowStats {
            attempted: (t.throws.attempted + r.throws.attempted) as u32,
            landed: (t.throws.landed + r.throws.landed) as u32,
            teched: (t.throws.teched + r.throws.teched) as u32,
        },
        passivity: PassivityStats {
            warnings: (t.passivity.warnings + r.passivity.warnings) as u32,
            penalties: (t.passivity.penalties + r.passivity.penalties) as u32,
        },
        total_ticks: (t.total_ticks + r.total_ticks) as u32,
        ..t
    }
}

/// Counts of one kind added together.
pub open spec fn spec_sum_type(a: AttackTypeCounts, b: AttackTypeCounts) -> AttackTypeCounts {
    AttackTypeCounts {
        attempted: (a.attempted + b.attempted) as u32,
        landed: (a.landed + b.landed) as u32,
        blocked: (a.blocked + b.blocked) as u32,
        whiffed: (a.whiffed + b.whiffed) as u32,
    }
}

fn sum_type(a: AttackTypeCounts, b: AttackTypeCounts) -> (r: AttackTypeCounts)
    requires
        a.attempted + b.attempted <= u32::MAX,
        a.landed + b.landed <= u32::MAX,
        a.blocked + b.blocked <= u32::MAX,
        a.whiffed + b.whiffed <= u32::MAX,
    ensures
        r == spec_sum_type(a, b),
{
    AttackTypeCounts {
        attempted: a.attempted + b.attempted,
        landed: a.landed + b.landed,
        blocked: a.blocked + b.blocked,
        whiffed: a.whiffed + b.whiffed,
    }
}

/// Add one round's counts into the match totals.
pub fn merge_into(total: &mut FighterCounts, round: &FighterCounts)
    requires
        roomy(*old(total)),
        roomy(*round),
    ensures
        *final(total) == (FighterCounts {
            state_tick_counts: final(total).state_tick_counts,
            ..spec_merged(*old(total), *round)
        }),
        forall|i: int|
            0 <= i < 24 ==> #[trigger] final(total).state_tick_counts@[i] == old(total).state_tick_counts@[i]
                + round.state_tick_counts@[i],
{
    total.attacks.light = sum_type(total.attacks.light, round.attacks.light);
    total.attacks.medium = sum_type(total.attacks.medium, round.attacks.medium);
    total.attacks.heavy = sum_type(total.attacks.heavy, round.attacks.heavy);
    total.damage.dealt = total.damage.dealt + round.damage.dealt;
    total.damage.taken = total.damage.taken + round.damage.taken;
    total.damage.chip_dealt = total.damage.chip_dealt + round.damage.chip_dealt;
    total.damage.scaled_away = total.damage.scaled_away + round.damage.scaled_away;
    total.combo_count = total.combo_count + round.combo_count;
    total.combo_longest = if total.combo_longest > round.combo_longest {
        total.combo_longest
    } else {
        round.combo_longest
    };
    total.combo_length_sum = total.combo_length_sum + round.combo_length_sum;
    total.guard.damage_taken = total.guard.damage_taken + round.guard.damage_taken;
    total.guard.crushes = total.guard.crushes + round.guard.crushes;
    total.guard.ticks_blocking = total.guard.ticks_blocking + round.guard.ticks_blocking;
    total.surge.gained = total.surge.gained + round.surge.gained;
    total.surge.peak = if total.surge.peak > round.surge.peak {
        total.surge.peak
    } else {
        round.surge.peak
    };
    total.surge.ticks_at_max = total.surge.ticks_at_max + round.surge.ticks_at_max;
    total.throws.attempted = total.throws.attempted + round.throws.attempted;
    total.throws.landed = total.throws.landed + round.throws.landed;
    total.throws.teched = total.throws.teched + round.throws.teched;
    total.passivity.warnings = total.passivity.warnings + round.passivity.warnings;
    total.passivity.penalties = total.passivity.penalties + round.passivity.penalties;
    let ghost pre = *total;
    let mut i: usize = 0;
    while i < 24
        invariant
            0 <= i <= 24,
            forall|k: int| 0 <= k < 24 ==> #[trigger] pre.state_tick_counts@[k] <= 0x4000_0000,
            pre.total_ticks <= 0x4000_0000,
            roomy(*round),
            *total == (FighterCounts { state_tick_counts: total.state_tick_counts, ..pre }),
            forall|k: int| 0 <= k < i ==> #[trigger] total.state_tick_counts@[k] == pre.state_tick_counts@[k]
                + round.state_tick_counts@[k],
            forall|k: int| i <= k < 24 ==> #[trigger] total.state_tick_counts@[k] == pre.state_tick_counts@[k],
        decreases 24 - i,
    {
        total.state_tick_counts[i] = total.state_tick_counts[i] + round.state_tick_counts[i];
        i = i + 1;
    }
    total.total_ticks = total.total_ticks + round.total_ticks;
}

} // verus!
