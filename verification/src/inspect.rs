//! Helpers for inspecting bouts: one-letter state glyphs and track columns
//! for a text view, and locating where two recorded hash traces first
//! disagree.
use crate::fixed::{div_trunc, spec_to_int, Fixed};
use crate::types::FighterState;
use vstd::prelude::*;

verus! {

/// How many columns the text view's arena track has.
pub const TRACK_COLUMNS: usize = 60;

/// The track column a fighter at horizontal position `x` is drawn in, in
/// an arena `width` wide: the integer parts scaled to the track (Rust's
/// truncating division, a width under one counting as one), then clamped
/// to the track.
pub open spec fn spec_track_column(x: Fixed, width: Fixed) -> int {
    let w = if spec_to_int(width.0) < 1 { 1 } else { spec_to_int(width.0) };
    let raw = div_trunc(spec_to_int(x.0) * 60, w);
    if raw < 0 {
        0
    } else if raw > 59 {
        59
    } else {
        raw
    }
}

/// The track column a fighter at `x` is drawn in.
pub fn track_column(x: Fixed, width: Fixed) -> (c: usize)
    ensures
        c == spec_track_column(x, width),
        c < TRACK_COLUMNS,
{
    let xi = x.to_int();
    let wi = width.to_int();
    proof {
        assert(-32768 <= xi <= 32767) by (nonlinear_arith)
            requires
                xi == spec_to_int(x.0),
        ;
    }
    let w: i64 = if wi < 1 {
        1
    } else {
        wi as i64
    };
    let num: i64 = (xi as i64) * 60;
    let raw: i64 = if num >= 0 {
        num / w
    } else {
        -((-num) / w)
    };
    if raw < 0 {
        0
    } else if raw > 59 {
        59
    } else {
        raw as usize
    }
}

/// The one-letter glyph a text view shows for a state.
pub open spec fn spec_glyph(state: FighterState) -> char {
    match state {
        FighterState::Idle => 'I',
        FighterState::WalkFwd | FighterState::WalkBack => 'W',
        FighterState::Crouch => 'c',
        FighterState::DashFwd | FighterState::DashBack => 'D',
        FighterState::JumpRise | FighterState::JumpFall => 'J',
        FighterState::AttackStartup => 's',
        FighterState::AttackActive => 'A',
        FighterState::AttackRecovery => 'r',
        FighterState::BlockStand | FighterState::BlockCrouch => 'B',
        FighterState::BlockStun => 'b',
        FighterState::HitStun => 'h',
        FighterState::Knockdown => 'K',
        FighterState::WakeUp => 'u',
        FighterState::GuardCrush => 'G',
        FighterState::Dizzy => 'Z',
        FighterState::ThrowAttempt => 'T',
        FighterState::ThrowWhiff => 't',
        FighterState::Thrown => 'X',
        FighterState::RoundFreeze => '.',
        FighterState::RoundOver => 'O',
    }
}

/// The one-letter glyph a text view shows for a state.
pub fn intent_glyph(state: FighterState) -> (c: char)
    ensures
        c == spec_glyph(state),
{
    match state {
        FighterState::Idle => 'I',
        FighterState::WalkFwd | FighterState::WalkBack => 'W',
        FighterState::Crouch => 'c',
        FighterState::DashFwd | FighterState::DashBack => 'D',
        FighterState::JumpRise | FighterState::JumpFall => 'J',
        FighterState::AttackStartup => 's',
        FighterState::AttackActive => 'A',
        FighterState::AttackRecovery => 'r',
        FighterState::BlockStand | FighterState::BlockCrouch => 'B',
        FighterState::BlockStun => 'b',
        FighterState::HitStun => 'h',
        FighterState::Knockdown => 'K',
        FighterState::WakeUp => 'u',
        FighterState::GuardCrush => 'G',
        FighterState::Dizzy => 'Z',
        FighterState::ThrowAttempt => 'T',
        FighterState::ThrowWhiff => 't',
        FighterState::Thrown => 'X',
        FighterState::RoundFreeze => '.',
        FighterState::RoundOver => 'O',
    }
}

/// Two traces agree on a prefix and disagree from some point on (as two
/// hash chains do): agreement at an index implies agreement before it.
pub open spec fn prefix_closed(a: Seq<u64>, b: Seq<u64>) -> bool {
    forall|k: int, j: int|
        #![trigger a[k], a[j]]
        0 <= j <= k < a.len() && k < b.len() && a[k] == b[k] ==> a[j] == b[j]
}

/// The index a bisection for the first disagreement between `a` and `b`
/// settles on, searching `[lo, hi)`: probe the midpoint, continue above it
/// where the traces agree there and below it (keeping it) where they do not.
pub open spec fn spec_bisect(a: Seq<u64>, b: Seq<u64>, lo: int, hi: int) -> int
    decreases hi - lo,
{
    if lo < hi {
        let mid = lo + (hi - lo) / 2;
        if a[mid] == b[mid] {
            spec_bisect(a, b, mid + 1, hi)
        } else {
            spec_bisect(a, b, lo, mid)
        }
    } else {
        lo
    }
}

/// Where two hash traces first disagree, found by bisection over their
/// common length (exactly `spec_bisect` over `[0, common length)`); the
/// common length when they never disagree there. The result always sits
/// where agreement (or the start) meets disagreement (or the end of the
/// shorter trace); for traces that agree on a prefix and disagree after it
/// (hash chains), it is exactly the first disagreement.
pub fn first_divergence(a: &Vec<u64>, b: &Vec<u64>) -> (r: usize)
    ensures
        r == spec_bisect(a@, b@, 0, if a@.len() < b@.len() { a@.len() as int } else { b@.len() as int }),
        r <= a@.len(),
        r <= b@.len(),
        prefix_closed(a@, b@) ==> forall|j: int| 0 <= j < r ==> a@[j] == b@[j],
        prefix_closed(a@, b@) && r < a@.len() && r < b@.len() ==> a@[r as int] != b@[r as int],
        r == 0 || a@[r - 1] == b@[r - 1],
        r == a@.len() || r == b@.len() || a@[r as int] != b@[r as int],
{
    let min_len = if a.len() < b.len() {
        a.len()
    } else {
        b.len()
    };
    let mut lo: usize = 0;
    let mut hi: usize = min_len;
    while lo < hi
        invariant
            0 <= lo <= hi <= min_len,
            min_len <= a@.len(),
            min_len <= b@.len(),
            min_len == a@.len() || min_len == b@.len(),
            lo == 0 || a@[lo - 1] == b@[lo - 1],
            hi == min_len || a@[hi as int] != b@[hi as int],
            spec_bisect(a@, b@, lo as int, hi as int) == spec_bisect(a@, b@, 0, min_len as int),
        decreases hi - lo,
    {
        let mid = lo + (hi - lo) / 2;
        if a[mid] == b[mid] {
            lo = mid + 1;
        } else {
            hi = mid;
        }
    }
    proof {
        if prefix_closed(a@, b@) && lo > 0 {
            assert forall|j: int| 0 <= j < lo implies a@[j] == b@[j] by {
                assert(a@[lo - 1] == b@[lo - 1]);
            }
        }
    }
    lo
}

} // verus!
