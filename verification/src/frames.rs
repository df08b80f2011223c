//! Frame data derived from the ruleset, and the rule that no move may be
//! non-negative on block unless whitelisted.
use crate::ruleset::{MoveSpec, Ruleset};
use crate::text::{decimal, spec_decimal};
use vstd::prelude::*;

verus! {

/// One move's frame data and derived advantages.
#[derive(Debug, Clone, Copy)]
pub struct FrameRow {
    pub name: &'static str,
    pub startup: u16,
    pub active: u16,
    pub recovery: u16,
    pub total: u16,
    pub damage: i32,
    pub block_damage: i32,
    pub guard_damage: i32,
    pub hitstun: u16,
    pub blockstun: u16,
    pub hitstop: u16,
    /// `None` for moves with no block interaction (the throw).
    pub advantage_on_block: Option<i32>,
    pub advantage_on_hit: i32,
    pub reactable: bool,
    pub whitelisted: bool,
}

/// Frame advantage when the defender is stunned for `stun` frames: the
/// defender is actionable `stun` frames after the hit frame (`startup +
/// 1`), the attacker after `startup + active + recovery`. Hitstop freezes
/// both equally and cancels out.
pub open spec fn spec_advantage(m: MoveSpec, stun: u16) -> int {
    (m.startup + 1 + stun) - (m.startup + m.active + m.recovery)
}

fn advantage(spec: &MoveSpec, defender_stun: u16) -> (r: i32)
    ensures
        r == spec_advantage(*spec, defender_stun),
{
    let hit_frame = spec.startup as i32 + 1;
    let attacker_actionable = spec.startup as i32 + spec.active as i32 + spec.recovery as i32;
    let defender_actionable = hit_frame + defender_stun as i32;
    defender_actionable - attacker_actionable
}

/// ASCII lower case of one character.
pub open spec fn ascii_lower(c: char) -> char {
    if 'A' <= c <= 'Z' {
        ((c as u32) + 32) as char
    } else {
        c
    }
}

/// Equal up to ASCII case.
pub open spec fn spec_eq_ignore_ascii_case(a: Seq<char>, b: Seq<char>) -> bool {
    a.len() == b.len() && forall|i: int| 0 <= i < a.len() ==> ascii_lower(#[trigger] a[i]) == ascii_lower(b[i])
}

/// The code point of `c` once lower-cased in ASCII.
fn lower_code(c: char) -> (r: u32)
    ensures
        r == ascii_lower(c) as u32,
{
    if 'A' <= c && c <= 'Z' {
        (c as u32) + 32
    } else {
        c as u32
    }
}

/// Whether `a` and `b` are equal once every ASCII letter is lower-cased
/// (other characters compare as they are).
fn eq_ignore_ascii_case(a: &str, b: &str) -> (r: bool)
    ensures
        r == spec_eq_ignore_ascii_case(a@, b@),
{
    let n = a.unicode_len();
    if n != b.unicode_len() {
        return false;
    }
    let mut i: usize = 0;
    while i < n
        invariant
            n == a@.len(),
            n == b@.len(),
            0 <= i <= n,
            forall|k: int| 0 <= k < i ==> ascii_lower(#[trigger] a@[k]) == ascii_lower(b@[k]),
        decreases n - i,
    {
        let x = a.get_char(i);
        let y = b.get_char(i);
        if lower_code(x) != lower_code(y) {
            return false;
        }
        i = i + 1;
    }
    true
}

/// Whether `name` is on the whitelist (ignoring ASCII case).
pub open spec fn spec_whitelisted(whitelist: Seq<String>, name: Seq<char>) -> bool {
    exists|i: int| 0 <= i < whitelist.len() && spec_eq_ignore_ascii_case(#[trigger] whitelist[i]@, name)
}

fn on_whitelist(whitelist: &Vec<String>, name: &str) -> (r: bool)
    ensures
        r == spec_whitelisted(whitelist@, name@),
{
    let mut i: usize = 0;
    while i < whitelist.len()
        invariant
            0 <= i <= whitelist@.len(),
            forall|k: int| 0 <= k < i ==> !spec_eq_ignore_ascii_case(#[trigger] whitelist@[k]@, name@),
        decreases whitelist@.len() - i,
    {
        if eq_ignore_ascii_case(whitelist[i].as_str(), name) {
            return true;
        }
        i = i + 1;
    }
    false
}

/// The row for one move.
pub open spec fn spec_row(
    name: &'static str,
    m: MoveSpec,
    has_block: bool,
    worst_case_latency: u32,
    whitelist: Seq<String>,
) -> FrameRow {
    FrameRow {
        name,
        startup: m.startup,
        active: m.active,
        recovery: m.recovery,
        total: (m.startup + m.active + m.recovery) as u16,
        damage: m.damage,
        block_damage: m.block_damage,
        guard_damage: m.guard_damage,
        hitstun: m.hitstun,
        blockstun: m.blockstun,
        hitstop: m.hitstop,
        advantage_on_block: if has_block { Some(spec_advantage(m, m.blockstun) as i32) } else { None },
        advantage_on_hit: spec_advantage(m, m.hitstun) as i32,
        reactable: m.startup >= worst_case_latency,
        whitelisted: spec_whitelisted(whitelist, name@),
    }
}

fn row(name: &'static str, spec: &MoveSpec, has_block: bool, worst_case_latency: u32, whitelist: &Vec<String>) -> (r: FrameRow)
    requires
        spec.startup + spec.active + spec.recovery <= u16::MAX,
    ensures
        r == spec_row(name, *spec, has_block, worst_case_latency, whitelist@),
{
    let advantage_on_block = if has_block {
        Some(advantage(spec, spec.blockstun))
    } else {
        None
    };
    FrameRow {
        name,
        startup: spec.startup,
        active: spec.active,
        recovery: spec.recovery,
        total: spec.total_frames(),
        damage: spec.damage,
        block_damage: spec.block_damage,
        guard_damage: spec.guard_damage,
        hitstun: spec.hitstun,
        blockstun: spec.blockstun,
        hitstop: spec.hitstop,
        advantage_on_block,
        advantage_on_hit: advantage(spec, spec.hitstun),
        reactable: spec.startup as u32 >= worst_case_latency,
        whitelisted: on_whitelist(whitelist, name),
    }
}

/// Frame data for the four moves, in order light, medium, heavy, throw;
/// a move is reactable when its startup is at least the worst-case
/// reaction latency (observation delay plus reflex interval).
pub fn compute(rs: &Ruleset) -> (rows: Vec<FrameRow>)
    requires
        rs.light.startup + rs.light.active + rs.light.recovery <= u16::MAX,
        rs.medium.startup + rs.medium.active + rs.medium.recovery <= u16::MAX,
        rs.heavy.startup + rs.heavy.active + rs.heavy.recovery <= u16::MAX,
        rs.throw.startup + rs.throw.active + rs.throw.recovery <= u16::MAX,
        rs.observation_delay + rs.reflex_interval <= u32::MAX,
    ensures
        ({
            let l = (rs.observation_delay + rs.reflex_interval) as u32;
            let w = rs.block_advantage_whitelist@;
            rows@ == seq![
                spec_row("light", rs.light, true, l, w),
                spec_row("medium", rs.medium, true, l, w),
                spec_row("heavy", rs.heavy, true, l, w),
                spec_row("throw", rs.throw, false, l, w),
            ]
        }),
{
    let worst_case_latency = rs.observation_delay + rs.reflex_interval;
    let mut rows: Vec<FrameRow> = Vec::new();
    rows.push(row("light", &rs.light, true, worst_case_latency, &rs.block_advantage_whitelist));
    rows.push(row("medium", &rs.medium, true, worst_case_latency, &rs.block_advantage_whitelist));
    rows.push(row("heavy", &rs.heavy, true, worst_case_latency, &rs.block_advantage_whitelist));
    rows.push(row("throw", &rs.throw, false, worst_case_latency, &rs.block_advantage_whitelist));
    rows
}

/// `v` with an explicit sign: `+` for zero and above, `-` below.
pub open spec fn spec_signed(v: int) -> Seq<char> {
    if v >= 0 {
        seq!['+'] + spec_decimal(v as nat)
    } else {
        seq!['-'] + spec_decimal((-v) as nat)
    }
}

fn signed(v: i32) -> (s: String)
    ensures
        s@ == spec_signed(v as int),
{
    proof {
        reveal_strlit("+");
        reveal_strlit("-");
    }
    if v >= 0 {
        let mut s = String::from_str("+");
        s.append(decimal(v as u32).as_str());
        s
    } else {
        let mut s = String::from_str("-");
        let mag: u32 = if v == i32::MIN {
            2147483648
        } else {
            (-v) as u32
        };
        s.append(decimal(mag).as_str());
        s
    }
}

/// The block rule: a move fails when it is non-negative on block and not
/// whitelisted.
pub open spec fn spec_violates(r: FrameRow) -> bool {
    match r.advantage_on_block {
        Some(a) => a >= 0 && !r.whitelisted,
        None => false,
    }
}

/// The message for a failing move.
pub open spec fn spec_violation_message(r: FrameRow) -> Seq<char> {
    r.name@ + " is "@ + spec_signed(r.advantage_on_block.unwrap() as int)
        + " on block (must be negative, or whitelisted with a reason)"@
}

/// The messages for every failing row, in order.
pub open spec fn spec_violations(rows: Seq<FrameRow>) -> Seq<Seq<char>>
    decreases rows.len(),
{
    if rows.len() == 0 {
        Seq::empty()
    } else {
        let prev = spec_violations(rows.drop_last());
        if spec_violates(rows.last()) {
            prev.push(spec_violation_message(rows.last()))
        } else {
            prev
        }
    }
}

/// One message per move that is non-negative on block and not
/// whitelisted; empty means every move complies.
pub fn check_violations(rows: &Vec<FrameRow>) -> (r: Vec<String>)
    ensures
        r@.map_values(|s: String| s@) == spec_violations(rows@),
{
    let mut out: Vec<String> = Vec::new();
    let mut i: usize = 0;
    while i < rows.len()
        invariant
            0 <= i <= rows@.len(),
            out@.map_values(|s: String| s@) == spec_violations(rows@.take(i as int)),
        decreases rows@.len() - i,
    {
        let r = rows[i];
        proof {
            assert(rows@.take(i + 1).drop_last() =~= rows@.take(i as int));
        }
        match r.advantage_on_block {
            Some(a) => {
                if a >= 0 && !r.whitelisted {
                    let mut msg = String::from_str(r.name);
                    msg.append(" is ");
                    msg.append(signed(a).as_str());
                    msg.append(" on block (must be negative, or whitelisted with a reason)");
                    let ghost before = out@;
                    out.push(msg);
                    proof {
                        assert(out@.map_values(|s: String| s@) =~= before.map_values(|s: String| s@).push(msg@));
                    }
                }
            },
            None => {},
        }
        i = i + 1;
    }
    proof {
        assert(rows@.take(i as int) =~= rows@);
    }
    out
}

} // verus!
