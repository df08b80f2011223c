//! One round's statistics, tallied tick by tick from what a tick reports
//! and what the fighters show after it. Freeze ticks are not counted; on
//! every other tick each fighter is watched, finished combos are credited
//! to their attackers, the spacing band is counted, every contact and
//! warning is tallied, and a tick on which both fighters made contact is a
//! trade.
use crate::combat::HitLog;
use crate::ruleset::{Ruleset, VALUE_MAX};
use crate::sim::WarnLog;
use crate::stats::{
    credit_combo, distance_bucket, meters_seen, roomy, spec_base_damage, spec_combo_credit, spec_credited,
    spec_distance_bucket, spec_made_contact, spec_tallied, spec_watch_after, spec_watched_counts, tally_hit,
    tally_warning, watch_fighter, FighterCounts, PassivityStats, Watch,
};
use crate::types::{AttackKind, FighterState, FighterView};
use vstd::prelude::*;

verus! {

/// Why a tick could not be tallied.
#[derive(Debug, Clone, Copy, PartialEq, Eq, Structural)]
pub enum TallyError {
    /// A counter has no room left for this tick.
    CounterOverflow,
    /// A meter reading or a damage is outside the engine's value range.
    ValueOutOfRange,
    /// A strike that is neither a throw nor a tech names no attack.
    MissingKind,
    /// A contact, credit or warning names a fighter other than 0 and 1, or
    /// one fighter on both sides.
    BadFighter,
}

/// One round's counts for both fighters, with what is remembered of each
/// from the previous tick.
#[derive(Debug, Clone, Copy)]
pub struct RoundTally {
    pub f0: FighterCounts,
    pub f1: FighterCounts,
    pub w0: Watch,
    pub w1: Watch,
    /// Ticks counted in each spacing band.
    pub distance_histogram: [u32; 8],
    pub trades: u32,
}

/// Fighter `i`'s counts.
pub open spec fn counts_of(t: RoundTally, i: usize) -> FighterCounts {
    if i == 0 {
        t.f0
    } else {
        t.f1
    }
}

/// The tally with fighter `i`'s counts replaced.
pub open spec fn with_counts(t: RoundTally, i: usize, c: FighterCounts) -> RoundTally {
    if i == 0 {
        RoundTally { f0: c, ..t }
    } else {
        RoundTally { f1: c, ..t }
    }
}

/// What is remembered of fighter `i`.
pub open spec fn watch_of(t: RoundTally, i: usize) -> Watch {
    if i == 0 {
        t.w0
    } else {
        t.w1
    }
}

/// The tally with what is remembered of fighter `i` replaced.
pub open spec fn with_watch(t: RoundTally, i: usize, w: Watch) -> RoundTally {
    if i == 0 {
        RoundTally { w0: w, ..t }
    } else {
        RoundTally { w1: w, ..t }
    }
}

/// Watch fighter `i` for one tick; also gives the combo that ended on it.
pub open spec fn spec_watch_step(t: RoundTally, i: usize, v: FighterView, kind: Option<AttackKind>, surge_max: i32) -> Result<(RoundTally, Option<(usize, u8)>), TallyError> {
    let c = counts_of(t, i);
    let w = watch_of(t, i);
    if !roomy(c) {
        Err(TallyError::CounterOverflow)
    } else if !meters_seen(w, v) {
        Err(TallyError::ValueOutOfRange)
    } else {
        Ok((
            with_watch(with_counts(t, i, spec_watched_counts(c, w, v, kind, surge_max)), i, spec_watch_after(w, v)),
            spec_combo_credit(w, v),
        ))
    }
}

/// Credit a finished combo, if any, to its attacker.
pub open spec fn spec_credit_step(t: RoundTally, credit: Option<(usize, u8)>) -> Result<RoundTally, TallyError> {
    match credit {
        None => Ok(t),
        Some((a, len)) => if a >= 2 {
            Err(TallyError::BadFighter)
        } else if !roomy(counts_of(t, a)) {
            Err(TallyError::CounterOverflow)
        } else {
            Ok(with_counts(t, a, spec_credited(counts_of(t, a), len)))
        },
    }
}

/// The undamaged damage of a contact's attack: none for throws and techs.
pub open spec fn spec_hit_base(rs: Ruleset, h: HitLog) -> Option<i32> {
    match h.kind {
        Some(k) => Some(spec_base_damage(rs, k)),
        None => if h.is_tech || h.is_throw {
            Some(0)
        } else {
            None
        },
    }
}

/// Tally one contact; the defender's combo count (after the tick) decides
/// whether this attacker now owns the defender's combo.
pub open spec fn spec_hit_step(t: RoundTally, h: HitLog, combo0: u8, combo1: u8, rs: Ruleset) -> Result<RoundTally, TallyError> {
    let a = h.attacker_idx;
    let d = h.defender_idx;
    if !((a == 0 && d == 1) || (a == 1 && d == 0)) {
        Err(TallyError::BadFighter)
    } else if spec_hit_base(rs, h).is_none() {
        Err(TallyError::MissingKind)
    } else if !(0 <= h.damage <= VALUE_MAX && 0 <= spec_hit_base(rs, h).unwrap() <= VALUE_MAX) {
        Err(TallyError::ValueOutOfRange)
    } else if !roomy(counts_of(t, a)) || !roomy(counts_of(t, d)) {
        Err(TallyError::CounterOverflow)
    } else {
        let r = spec_tallied(counts_of(t, a), counts_of(t, d), h, spec_hit_base(rs, h).unwrap(), if d == 0 { combo0 } else { combo1 });
        let t1 = with_counts(with_counts(t, a, r.0), d, r.1);
        if r.2 {
            Ok(with_watch(t1, d, Watch { combo_attacker: Some(a), ..watch_of(t1, d) }))
        } else {
            Ok(t1)
        }
    }
}

/// Tally the first `n` contacts, in order, stopping at the first error.
pub open spec fn spec_hits_fold(t: RoundTally, hits: Seq<HitLog>, n: int, combo0: u8, combo1: u8, rs: Ruleset) -> Result<RoundTally, TallyError>
    decreases n,
{
    if n <= 0 {
        Ok(t)
    } else {
        match spec_hits_fold(t, hits, n - 1, combo0, combo1, rs) {
            Ok(t1) => spec_hit_step(t1, hits[n - 1], combo0, combo1, rs),
            Err(e) => Err(e),
        }
    }
}

/// A fighter's counts with one more passivity warning (and penalty, for a
/// second one).
pub open spec fn spec_warned_counts(c: FighterCounts, w: WarnLog) -> FighterCounts {
    FighterCounts {
        passivity: PassivityStats {
            warnings: (c.passivity.warnings + 1) as u32,
            penalties: if w.second_warning { (c.passivity.penalties + 1) as u32 } else { c.passivity.penalties },
        },
        ..c
    }
}

/// Tally one warning.
pub open spec fn spec_warning_step(t: RoundTally, w: WarnLog) -> Result<RoundTally, TallyError> {
    if w.fighter_idx >= 2 {
        Err(TallyError::BadFighter)
    } else if !roomy(counts_of(t, w.fighter_idx)) {
        Err(TallyError::CounterOverflow)
    } else {
        Ok(with_counts(t, w.fighter_idx, spec_warned_counts(counts_of(t, w.fighter_idx), w)))
    }
}

/// Tally the first `n` warnings, in order, stopping at the first error.
pub open spec fn spec_warnings_fold(t: RoundTally, warnings: Seq<WarnLog>, n: int) -> Result<RoundTally, TallyError>
    decreases n,
{
    if n <= 0 {
        Ok(t)
    } else {
        match spec_warnings_fold(t, warnings, n - 1) {
            Ok(t1) => spec_warning_step(t1, warnings[n - 1]),
            Err(e) => Err(e),
        }
    }
}

/// Remember the states the fighters show.
pub open spec fn spec_note_states(t: RoundTally, v0: FighterView, v1: FighterView) -> RoundTally {
    RoundTally {
        w0: Watch { prev_state: Some(v0.state), ..t.w0 },
        w1: Watch { prev_state: Some(v1.state), ..t.w1 },
        ..t
    }
}

/// The spacing band counted, and the trade, once the fighters are watched.
pub open spec fn spec_band_step(t: RoundTally, v0: FighterView, v1: FighterView, rs: Ruleset) -> Result<RoundTally, TallyError> {
    let b = spec_distance_bucket(v0.position.x, v1.position.x, rs.arena_width);
    if t.distance_histogram[b] >= u32::MAX {
        Err(TallyError::CounterOverflow)
    } else {
        Ok(RoundTally {
            distance_histogram: vstd::array::spec_array_update(t.distance_histogram, b, (t.distance_histogram[b] + 1) as u32),
            ..t
        })
    }
}

/// Count the trade, if both fighters made contact.
pub open spec fn spec_trade_step(t: RoundTally, hits: Seq<HitLog>) -> Result<RoundTally, TallyError> {
    if spec_made_contact(hits, 0) && spec_made_contact(hits, 1) {
        if t.trades >= u32::MAX {
            Err(TallyError::CounterOverflow)
        } else {
            Ok(RoundTally { trades: (t.trades + 1) as u32, ..t })
        }
    } else {
        Ok(t)
    }
}

/// The warnings of a tick counted, then the states shown remembered.
pub open spec fn spec_warnings_stage(t: RoundTally, v0: FighterView, v1: FighterView, warnings: Seq<WarnLog>) -> Result<RoundTally, TallyError> {
    match spec_warnings_fold(t, warnings, warnings.len() as int) {
        Err(e) => Err(e),
        Ok(t8) => Ok(spec_note_states(t8, v0, v1)),
    }
}

/// A tick's contacts and trade counted, then its warnings.
pub open spec fn spec_contacts_stage(
    t: RoundTally,
    v0: FighterView,
    v1: FighterView,
    hits: Seq<HitLog>,
    warnings: Seq<WarnLog>,
    rs: Ruleset,
) -> Result<RoundTally, TallyError> {
    match spec_hits_fold(t, hits, hits.len() as int, v0.combo_count, v1.combo_count, rs) {
        Err(e) => Err(e),
        Ok(t6) => match spec_trade_step(t6, hits) {
            Err(e) => Err(e),
            Ok(t7) => spec_warnings_stage(t7, v0, v1, warnings),
        },
    }
}

/// The whole tick: nothing counted during a freeze; otherwise both
/// fighters watched, combos credited, the band, contacts, trade and
/// warnings counted; then the states the fighters show remembered.
pub open spec fn spec_tally_tick(
    t: RoundTally,
    v0: FighterView,
    v1: FighterView,
    k0: Option<AttackKind>,
    k1: Option<AttackKind>,
    hits: Seq<HitLog>,
    warnings: Seq<WarnLog>,
    rs: Ruleset,
) -> Result<RoundTally, TallyError> {
    if v0.state == FighterState::RoundFreeze {
        Ok(spec_note_states(t, v0, v1))
    } else {
        match spec_watch_step(t, 0, v0, k0, rs.surge_max) {
            Err(e) => Err(e),
            Ok((t1, cr0)) => match spec_watch_step(t1, 1, v1, k1, rs.surge_max) {
                Err(e) => Err(e),
                Ok((t2, cr1)) => match spec_credit_step(t2, cr0) {
                    Err(e) => Err(e),
                    Ok(t3) => match spec_credit_step(t3, cr1) {
                        Err(e) => Err(e),
                        Ok(t4) => match spec_band_step(t4, v0, v1, rs) {
                            Err(e) => Err(e),
                            Ok(t5) => spec_contacts_stage(t5, v0, v1, hits, warnings, rs),
                        },
                    },
                },
            },
        }
    }
}

proof fn lemma_hits_fold_stays_failed(t: RoundTally, hits: Seq<HitLog>, k: int, n: int, combo0: u8, combo1: u8, rs: Ruleset)
    requires
        0 <= k <= n,
        spec_hits_fold(t, hits, k, combo0, combo1, rs).is_err(),
    ensures
        spec_hits_fold(t, hits, n, combo0, combo1, rs) == spec_hits_fold(t, hits, k, combo0, combo1, rs),
    decreases n - k,
{
    if n > k {
        lemma_hits_fold_stays_failed(t, hits, k, n - 1, combo0, combo1, rs);
    }
}

proof fn lemma_warnings_fold_stays_failed(t: RoundTally, warnings: Seq<WarnLog>, k: int, n: int)
    requires
        0 <= k <= n,
        spec_warnings_fold(t, warnings, k).is_err(),
    ensures
        spec_warnings_fold(t, warnings, n) == spec_warnings_fold(t, warnings, k),
    decreases n - k,
{
    if n > k {
        lemma_warnings_fold_stays_failed(t, warnings, k, n - 1);
    }
}

impl RoundTally {
    /// How long the round ran: the larger of the two fighters' tick counts.
    pub fn duration_ticks(&self) -> (r: u32)
        ensures
            r == if self.f0.total_ticks >= self.f1.total_ticks {
                self.f0.total_ticks
            } else {
                self.f1.total_ticks
            },
    {
        if self.f0.total_ticks >= self.f1.total_ticks {
            self.f0.total_ticks
        } else {
            self.f1.total_ticks
        }
    }

    /// Nothing counted yet.
    pub fn new() -> (r: RoundTally)
        ensures
            r.f0 == (FighterCounts { state_tick_counts: r.f0.state_tick_counts, ..crate::stats::spec_zero_fighter() }),
            r.f1 == (FighterCounts { state_tick_counts: r.f1.state_tick_counts, ..crate::stats::spec_zero_fighter() }),
            r.f0.state_tick_counts@ == Seq::new(24, |i: int| 0u32),
            r.f1.state_tick_counts@ == Seq::new(24, |i: int| 0u32),
            r.w0 == crate::stats::spec_fresh_watch(),
            r.w1 == crate::stats::spec_fresh_watch(),
            forall|b: int| 0 <= b < 8 ==> #[trigger] r.distance_histogram[b] == 0,
            r.trades == 0,
    {
        RoundTally {
            f0: FighterCounts::new(),
            f1: FighterCounts::new(),
            w0: Watch::new(),
            w1: Watch::new(),
            distance_histogram: [0u32; 8],
            trades: 0,
        }
    }
}

fn meters_in_range(w: &Watch, v: &FighterView) -> (r: bool)
    ensures
        r == meters_seen(*w, *v),
{
    0 <= w.prev_guard && w.prev_guard <= VALUE_MAX && 0 <= w.prev_surge && w.prev_surge <= VALUE_MAX && 0 <= v.guard
        && v.guard <= VALUE_MAX && 0 <= v.surge && v.surge <= VALUE_MAX
}

fn watch_step(t: &mut RoundTally, i: usize, v: FighterView, kind: Option<AttackKind>, surge_max: i32) -> (r: Result<Option<(usize, u8)>, TallyError>)
    requires
        i < 2,
    ensures
        match spec_watch_step(*old(t), i, v, kind, surge_max) {
            Ok((t2, cr)) => r == Ok::<Option<(usize, u8)>, TallyError>(cr) && *final(t) == t2,
            Err(e) => r == Err::<Option<(usize, u8)>, TallyError>(e),
        },
{
    if i == 0 {
        if !t.f0.has_room() {
            return Err(TallyError::CounterOverflow);
        }
        if !meters_in_range(&t.w0, &v) {
            return Err(TallyError::ValueOutOfRange);
        }
        Ok(watch_fighter(&mut t.f0, &mut t.w0, v, kind, surge_max))
    } else {
        if !t.f1.has_room() {
            return Err(TallyError::CounterOverflow);
        }
        if !meters_in_range(&t.w1, &v) {
            return Err(TallyError::ValueOutOfRange);
        }
        Ok(watch_fighter(&mut t.f1, &mut t.w1, v, kind, surge_max))
    }
}

fn credit_step(t: &mut RoundTally, credit: Option<(usize, u8)>) -> (r: Result<(), TallyError>)
    ensures
        match spec_credit_step(*old(t), credit) {
            Ok(t2) => r == Ok::<(), TallyError>(()) && *final(t) == t2,
            Err(e) => r == Err::<(), TallyError>(e),
        },
{
    match credit {
        None => Ok(()),
        Some((a, len)) => {
            if a >= 2 {
                return Err(TallyError::BadFighter);
            }
            if a == 0 {
                if !t.f0.has_room() {
                    return Err(TallyError::CounterOverflow);
                }
                credit_combo(&mut t.f0, len);
            } else {
                if !t.f1.has_room() {
                    return Err(TallyError::CounterOverflow);
                }
                credit_combo(&mut t.f1, len);
            }
            Ok(())
        },
    }
}

fn hit_step(t: &mut RoundTally, h: &HitLog, combo0: u8, combo1: u8, rs: &Ruleset) -> (r: Result<(), TallyError>)
    ensures
        match spec_hit_step(*old(t), *h, combo0, combo1, *rs) {
            Ok(t2) => r == Ok::<(), TallyError>(()) && *final(t) == t2,
            Err(e) => r == Err::<(), TallyError>(e),
        },
{
    let a = h.attacker_idx;
    let d = h.defender_idx;
    if !((a == 0 && d == 1) || (a == 1 && d == 0)) {
        return Err(TallyError::BadFighter);
    }
    let base = match h.kind {
        Some(k) => crate::stats::base_damage(rs, k),
        None => {
            if h.is_tech || h.is_throw {
                0
            } else {
                return Err(TallyError::MissingKind);
            }
        },
    };
    if !(0 <= h.damage && h.damage <= VALUE_MAX && 0 <= base && base <= VALUE_MAX) {
        return Err(TallyError::ValueOutOfRange);
    }
    let room = if a == 0 {
        t.f0.has_room() && t.f1.has_room()
    } else {
        t.f1.has_room() && t.f0.has_room()
    };
    if !room {
        return Err(TallyError::CounterOverflow);
    }
    let defender_combo = if d == 0 {
        combo0
    } else {
        combo1
    };
    let starts = if a == 0 {
        tally_hit(&mut t.f0, &mut t.f1, h, base, defender_combo)
    } else {
        tally_hit(&mut t.f1, &mut t.f0, h, base, defender_combo)
    };
    if starts {
        if d == 0 {
            t.w0.combo_attacker = Some(a);
        } else {
            t.w1.combo_attacker = Some(a);
        }
    }
    Ok(())
}

fn warning_step(t: &mut RoundTally, w: &WarnLog) -> (r: Result<(), TallyError>)
    ensures
        match spec_warning_step(*old(t), *w) {
            Ok(t2) => r == Ok::<(), TallyError>(()) && *final(t) == t2,
            Err(e) => r == Err::<(), TallyError>(e),
        },
{
    if w.fighter_idx >= 2 {
        return Err(TallyError::BadFighter);
    }
    if w.fighter_idx == 0 {
        if !t.f0.has_room() {
            return Err(TallyError::CounterOverflow);
        }
        tally_warning(&mut t.f0, w);
    } else {
        if !t.f1.has_room() {
            return Err(TallyError::CounterOverflow);
        }
        tally_warning(&mut t.f1, w);
    }
    Ok(())
}

impl RoundTally {
    /// Tally one tick from the views of both fighters after it, the
    /// attacks they are executing, and the tick's contacts and warnings.
    /// Freeze ticks only remember the states shown. On success the tally
    /// is exactly `spec_tally_tick`'s; an error says which check failed
    /// first.
    pub fn tally_tick(
        &mut self,
        views: [FighterView; 2],
        kinds: [Option<AttackKind>; 2],
        hits: &Vec<HitLog>,
        warnings: &Vec<WarnLog>,
        rs: &Ruleset,
    ) -> (r: Result<(), TallyError>)
        ensures
            match spec_tally_tick(*old(self), views[0], views[1], kinds[0], kinds[1], hits@, warnings@, *rs) {
                Ok(t2) => r == Ok::<(), TallyError>(()) && *final(self) == t2,
                Err(e) => r == Err::<(), TallyError>(e),
            },
    {
        let ghost t0 = *self;
        if views[0].state == FighterState::RoundFreeze {
            self.w0.prev_state = Some(views[0].state);
            self.w1.prev_state = Some(views[1].state);
            return Ok(());
        }
        let cr0 = match watch_step(self, 0, views[0], kinds[0], rs.surge_max) {
            Ok(c) => c,
            Err(e) => return Err(e),
        };
        let cr1 = match watch_step(self, 1, views[1], kinds[1], rs.surge_max) {
            Ok(c) => c,
            Err(e) => return Err(e),
        };
        match credit_step(self, cr0) {
            Ok(()) => {},
            Err(e) => return Err(e),
        }
        match credit_step(self, cr1) {
            Ok(()) => {},
            Err(e) => return Err(e),
        }
        let b = distance_bucket(views[0].position.x, views[1].position.x, rs.arena_width);
        if self.distance_histogram[b] == u32::MAX {
            return Err(TallyError::CounterOverflow);
        }
        let ghost before_band = *self;
        self.distance_histogram[b] = self.distance_histogram[b] + 1;
        proof {
            vstd::array::axiom_spec_array_update(before_band.distance_histogram, b as int, (before_band.distance_histogram[b as int] + 1) as u32);
            assert(self.distance_histogram =~= vstd::array::spec_array_update(
                before_band.distance_histogram,
                b as int,
                (before_band.distance_histogram[b as int] + 1) as u32,
            ));
        }
        let ghost t5 = *self;
        let combo0 = views[0].combo_count;
        let combo1 = views[1].combo_count;
        let mut i: usize = 0;
        while i < hits.len()
            invariant
                i <= hits@.len(),
                t0 == *old(self),
                combo0 == views[0].combo_count,
                combo1 == views[1].combo_count,
                spec_tally_tick(t0, views[0], views[1], kinds[0], kinds[1], hits@, warnings@, *rs)
                    == spec_contacts_stage(t5, views[0], views[1], hits@, warnings@, *rs),
                spec_hits_fold(t5, hits@, i as int, combo0, combo1, *rs) == Ok::<RoundTally, TallyError>(*self),
            decreases hits.len() - i,
        {
            match hit_step(self, &hits[i], combo0, combo1, rs) {
                Ok(()) => {},
                Err(e) => {
                    proof {
                        assert(spec_hits_fold(t5, hits@, i + 1, combo0, combo1, *rs) == Err::<RoundTally, TallyError>(e));
                        lemma_hits_fold_stays_failed(t5, hits@, i + 1, hits@.len() as int, combo0, combo1, *rs);
                    }
                    return Err(e);
                },
            }
            i = i + 1;
        }
        if crate::stats::is_trade(hits) {
            if self.trades == u32::MAX {
                return Err(TallyError::CounterOverflow);
            }
            self.trades = self.trades + 1;
        }
        let ghost t7 = *self;
        let mut j: usize = 0;
        while j < warnings.len()
            invariant
                j <= warnings@.len(),
                t0 == *old(self),
                spec_tally_tick(t0, views[0], views[1], kinds[0], kinds[1], hits@, warnings@, *rs)
                    == spec_warnings_stage(t7, views[0], views[1], warnings@),
                spec_warnings_fold(t7, warnings@, j as int) == Ok::<RoundTally, TallyError>(*self),
            decreases warnings.len() - j,
        {
            match warning_step(self, &warnings[j]) {
                Ok(()) => {},
                Err(e) => {
                    proof {
                        assert(spec_warnings_fold(t7, warnings@, j + 1) == Err::<RoundTally, TallyError>(e));
                        lemma_warnings_fold_stays_failed(t7, warnings@, j + 1, warnings@.len() as int);
                    }
                    return Err(e);
                },
            }
            j = j + 1;
        }
        self.w0.prev_state = Some(views[0].state);
        self.w1.prev_state = Some(views[1].state);
        Ok(())
    }
}

} // verus!
