//! The determinism record: the document holding the aggregate hash the
//! bench must reproduce. It is deliberately not a full TOML document: the
//! first line that starts (after whitespace) with `expected_aggregate`
//! carries the value, as `= "0x..."` with optional quotes and `0x`.
use vstd::prelude::*;
use vstd::string::StringSliceAdditionalSpecFns;

verus! {

/// Why an expected-aggregate document was refused.
#[derive(Debug, Clone, Copy, PartialEq, Eq, Structural)]
pub enum AggregateError {
    /// No line starts with the key.
    NoKey,
    /// The first line with the key has no `=` after it.
    Malformed,
    /// The value is not a hexadecimal `u64`.
    BadHex,
}

/// The key's bytes: `expected_aggregate`.
pub open spec fn spec_key() -> Seq<u8> {
    seq![101u8, 120, 112, 101, 99, 116, 101, 100, 95, 97, 103, 103, 114, 101, 103, 97, 116, 101]
}

/// How many bytes of whitespace (Unicode `White_Space`, UTF-8 encoded)
/// open `s`: one character's worth, or 0 when `s` does not open with one.
pub open spec fn spec_ws_front(s: Seq<u8>) -> nat {
    if s.len() >= 1 && (s[0] == 32 || (9 <= s[0] <= 13)) {
        1
    } else if s.len() >= 2 && s[0] == 0xC2 && (s[1] == 0x85 || s[1] == 0xA0) {
        2
    } else if s.len() >= 3 && ((s[0] == 0xE1 && s[1] == 0x9A && s[2] == 0x80) || (s[0] == 0xE2 && s[1] == 0x80 && ((0x80
        <= s[2] <= 0x8A) || s[2] == 0xA8 || s[2] == 0xA9 || s[2] == 0xAF)) || (s[0] == 0xE2 && s[1] == 0x81 && s[2]
        == 0x9F) || (s[0] == 0xE3 && s[1] == 0x80 && s[2] == 0x80)) {
        3
    } else {
        0
    }
}

/// How many bytes of whitespace close `s`: one character's worth, or 0.
pub open spec fn spec_ws_back(s: Seq<u8>) -> nat {
    let n = s.len();
    if n >= 1 && (s[n - 1] == 32 || (9 <= s[n - 1] <= 13)) {
        1
    } else if n >= 2 && s[n - 2] == 0xC2 && (s[n - 1] == 0x85 || s[n - 1] == 0xA0) {
        2
    } else if n >= 3 && ((s[n - 3] == 0xE1 && s[n - 2] == 0x9A && s[n - 1] == 0x80) || (s[n - 3] == 0xE2 && s[n - 2]
        == 0x80 && ((0x80 <= s[n - 1] <= 0x8A) || s[n - 1] == 0xA8 || s[n - 1] == 0xA9 || s[n - 1] == 0xAF)) || (s[n
        - 3] == 0xE2 && s[n - 2] == 0x81 && s[n - 1] == 0x9F) || (s[n - 3] == 0xE3 && s[n - 2] == 0x80 && s[n - 1]
        == 0x80)) {
        3
    } else {
        0
    }
}

/// `s` without its leading whitespace.
pub open spec fn spec_trim_start(s: Seq<u8>) -> Seq<u8>
    decreases s.len(),
{
    if spec_ws_front(s) > 0 {
        spec_trim_start(s.skip(spec_ws_front(s) as int))
    } else {
        s
    }
}

/// `s` without its trailing whitespace.
pub open spec fn spec_trim_end(s: Seq<u8>) -> Seq<u8>
    decreases s.len(),
{
    if spec_ws_back(s) > 0 {
        spec_trim_end(s.take(s.len() - spec_ws_back(s)))
    } else {
        s
    }
}

/// `s` without leading and trailing whitespace.
pub open spec fn spec_trim(s: Seq<u8>) -> Seq<u8> {
    spec_trim_end(spec_trim_start(s))
}

/// `s` without its leading double quotes.
pub open spec fn spec_unquote_start(s: Seq<u8>) -> Seq<u8>
    decreases s.len(),
{
    if s.len() > 0 && s[0] == 34 {
        spec_unquote_start(s.skip(1))
    } else {
        s
    }
}

/// `s` without its trailing double quotes.
pub open spec fn spec_unquote_end(s: Seq<u8>) -> Seq<u8>
    decreases s.len(),
{
    if s.len() > 0 && s[s.len() - 1] == 34 {
        spec_unquote_end(s.drop_last())
    } else {
        s
    }
}

/// The value of a hexadecimal digit.
pub open spec fn spec_hex_digit(c: u8) -> Option<nat> {
    if 48 <= c <= 57 {
        Some((c - 48) as nat)
    } else if 97 <= c <= 102 {
        Some((c - 87) as nat)
    } else if 65 <= c <= 70 {
        Some((c - 55) as nat)
    } else {
        None
    }
}

/// Whether every byte of `s` is a hexadecimal digit.
pub open spec fn spec_all_hex(s: Seq<u8>) -> bool {
    forall|i: int| 0 <= i < s.len() ==> #[trigger] spec_hex_digit(s[i]).is_some()
}

/// The number the hexadecimal digits `s` write, most significant first.
pub open spec fn spec_hex_value(s: Seq<u8>) -> nat
    decreases s.len(),
{
    if s.len() == 0 {
        0
    } else {
        spec_hex_value(s.drop_last()) * 16 + spec_hex_digit(s.last()).unwrap_or(0)
    }
}

/// A `u64` written in hexadecimal: an optional `+`, then at least one
/// digit, with a value that fits.
pub open spec fn spec_from_hex(s: Seq<u8>) -> Option<u64> {
    let d = if s.len() > 0 && s[0] == 43 {
        s.skip(1)
    } else {
        s
    };
    if d.len() > 0 && spec_all_hex(d) && spec_hex_value(d) <= u64::MAX {
        Some(spec_hex_value(d) as u64)
    } else {
        None
    }
}

/// What follows the key on its line: `=`, then the hash, possibly quoted
/// and possibly with a `0x` prefix.
pub open spec fn spec_value(rest: Seq<u8>) -> Result<u64, AggregateError> {
    let r = spec_trim_start(rest);
    if r.len() > 0 && r[0] == 61 {
        let q = spec_unquote_end(spec_unquote_start(spec_trim(r.skip(1))));
        let h = if q.len() >= 2 && q[0] == 48 && q[1] == 120 {
            q.skip(2)
        } else {
            q
        };
        match spec_from_hex(h) {
            Some(v) => Ok(v),
            None => Err(AggregateError::BadHex),
        }
    } else {
        Err(AggregateError::Malformed)
    }
}

/// The length of the first line of `s`, its newline excluded.
pub open spec fn spec_line_len(s: Seq<u8>) -> nat
    decreases s.len(),
{
    if s.len() == 0 || s[0] == 10 {
        0
    } else {
        1 + spec_line_len(s.skip(1))
    }
}

/// The aggregate the document `s` records: read from the first line that,
/// trimmed, starts with the key.
pub open spec fn spec_expected_aggregate(s: Seq<u8>) -> Result<u64, AggregateError>
    decreases s.len(),
{
    if s.len() == 0 {
        Err(AggregateError::NoKey)
    } else {
        let n = spec_line_len(s);
        let line = spec_trim(s.take(n as int));
        if line.len() >= spec_key().len() && line.take(spec_key().len() as int) == spec_key() {
            spec_value(line.skip(spec_key().len() as int))
        } else if n >= s.len() {
            Err(AggregateError::NoKey)
        } else {
            spec_expected_aggregate(s.skip(n as int + 1))
        }
    }
}

proof fn lemma_line_len_bound(s: Seq<u8>)
    ensures
        spec_line_len(s) <= s.len(),
        spec_line_len(s) < s.len() ==> s[spec_line_len(s) as int] == 10,
    decreases s.len(),
{
    if s.len() > 0 && s[0] != 10 {
        lemma_line_len_bound(s.skip(1));
        if spec_line_len(s) < s.len() {
            assert(s.skip(1)[spec_line_len(s.skip(1)) as int] == s[spec_line_len(s) as int]);
        }
    }
}

/// The whitespace opening `b[i..end]`, in bytes.
fn ws_front(b: &[u8], i: usize, end: usize) -> (l: usize)
    requires
        i <= end <= b@.len(),
    ensures
        l == spec_ws_front(b@.subrange(i as int, end as int)),
{
    let ghost s = b@.subrange(i as int, end as int);
    let n = end - i;
    if n >= 1 && (b[i] == 32 || (9 <= b[i] && b[i] <= 13)) {
        1
    } else if n >= 2 && b[i] == 0xC2 && (b[i + 1] == 0x85 || b[i + 1] == 0xA0) {
        2
    } else if n >= 3 && ((b[i] == 0xE1 && b[i + 1] == 0x9A && b[i + 2] == 0x80) || (b[i] == 0xE2 && b[i + 1] == 0x80
        && ((0x80 <= b[i + 2] && b[i + 2] <= 0x8A) || b[i + 2] == 0xA8 || b[i + 2] == 0xA9 || b[i + 2] == 0xAF)) || (b[i]
        == 0xE2 && b[i + 1] == 0x81 && b[i + 2] == 0x9F) || (b[i] == 0xE3 && b[i + 1] == 0x80 && b[i + 2] == 0x80)) {
        3
    } else {
        0
    }
}

/// The whitespace closing `b[start..j]`, in bytes.
fn ws_back(b: &[u8], start: usize, j: usize) -> (l: usize)
    requires
        start <= j <= b@.len(),
    ensures
        l == spec_ws_back(b@.subrange(start as int, j as int)),
{
    let n = j - start;
    if n >= 1 && (b[j - 1] == 32 || (9 <= b[j - 1] && b[j - 1] <= 13)) {
        1
    } else if n >= 2 && b[j - 2] == 0xC2 && (b[j - 1] == 0x85 || b[j - 1] == 0xA0) {
        2
    } else if n >= 3 && ((b[j - 3] == 0xE1 && b[j - 2] == 0x9A && b[j - 1] == 0x80) || (b[j - 3] == 0xE2 && b[j - 2]
        == 0x80 && ((0x80 <= b[j - 1] && b[j - 1] <= 0x8A) || b[j - 1] == 0xA8 || b[j - 1] == 0xA9 || b[j - 1] == 0xAF))
        || (b[j - 3] == 0xE2 && b[j - 2] == 0x81 && b[j - 1] == 0x9F) || (b[j - 3] == 0xE3 && b[j - 2] == 0x80 && b[j
        - 1] == 0x80)) {
        3
    } else {
        0
    }
}

/// The bounds of `b[start..end]` with its leading whitespace removed.
fn trim_start_at(b: &[u8], start: usize, end: usize) -> (s: usize)
    requires
        start <= end <= b@.len(),
    ensures
        start <= s <= end,
        b@.subrange(s as int, end as int) == spec_trim_start(b@.subrange(start as int, end as int)),
{
    let mut s = start;
    loop
        invariant
            start <= s <= end <= b@.len(),
            spec_trim_start(b@.subrange(s as int, end as int)) == spec_trim_start(b@.subrange(start as int, end as int)),
        decreases end - s,
    {
        let l = ws_front(b, s, end);
        if l == 0 {
            return s;
        }
        proof {
            assert(b@.subrange(s as int, end as int).skip(l as int) =~= b@.subrange(s + l, end as int));
        }
        s = s + l;
    }
}

/// The bounds of `b[start..end]` with its trailing whitespace removed.
fn trim_end_at(b: &[u8], start: usize, end: usize) -> (e: usize)
    requires
        start <= end <= b@.len(),
    ensures
        start <= e <= end,
        b@.subrange(start as int, e as int) == spec_trim_end(b@.subrange(start as int, end as int)),
{
    let mut e = end;
    loop
        invariant
            start <= e <= end <= b@.len(),
            spec_trim_end(b@.subrange(start as int, e as int)) == spec_trim_end(b@.subrange(start as int, end as int)),
        decreases e - start,
    {
        let l = ws_back(b, start, e);
        if l == 0 {
            return e;
        }
        proof {
            let sub = b@.subrange(start as int, e as int);
            assert(sub.take(sub.len() - l) =~= b@.subrange(start as int, e - l));
        }
        e = e - l;
    }
}

/// The bounds of `b[start..end]` trimmed of whitespace at both ends.
fn trim_at(b: &[u8], start: usize, end: usize) -> (r: (usize, usize))
    requires
        start <= end <= b@.len(),
    ensures
        start <= r.0 <= r.1 <= end,
        b@.subrange(r.0 as int, r.1 as int) == spec_trim(b@.subrange(start as int, end as int)),
{
    let s = trim_start_at(b, start, end);
    let e = trim_end_at(b, s, end);
    (s, e)
}

/// The bounds of `b[start..end]` with double quotes removed at both ends.
fn unquote_at(b: &[u8], start: usize, end: usize) -> (r: (usize, usize))
    requires
        start <= end <= b@.len(),
    ensures
        start <= r.0 <= r.1 <= end,
        b@.subrange(r.0 as int, r.1 as int) == spec_unquote_end(spec_unquote_start(b@.subrange(start as int, end as int))),
{
    let mut s = start;
    while s < end && b[s] == 34
        invariant
            start <= s <= end <= b@.len(),
            spec_unquote_start(b@.subrange(s as int, end as int)) == spec_unquote_start(b@.subrange(start as int, end as int)),
        decreases end - s,
    {
        proof {
            assert(b@.subrange(s as int, end as int).skip(1) =~= b@.subrange(s + 1, end as int));
        }
        s = s + 1;
    }
    let mut e = end;
    while e > s && b[e - 1] == 34
        invariant
            start <= s <= e <= end <= b@.len(),
            spec_unquote_start(b@.subrange(start as int, end as int)) == b@.subrange(s as int, end as int),
            spec_unquote_end(b@.subrange(s as int, e as int)) == spec_unquote_end(b@.subrange(s as int, end as int)),
        decreases e - s,
    {
        proof {
            assert(b@.subrange(s as int, e as int).drop_last() =~= b@.subrange(s as int, e - 1));
        }
        e = e - 1;
    }
    (s, e)
}

proof fn lemma_hex_value_grows(s: Seq<u8>, k: int)
    requires
        0 <= k <= s.len(),
    ensures
        spec_hex_value(s.take(k)) <= spec_hex_value(s),
    decreases s.len(),
{
    if k < s.len() {
        lemma_hex_value_grows(s.drop_last(), k);
        assert(s.drop_last().take(k) =~= s.take(k));
    } else {
        assert(s.take(k) =~= s);
    }
}

/// The `u64` that `b[start..end]` writes in hexadecimal, if it writes one.
fn from_hex_at(b: &[u8], start: usize, end: usize) -> (r: Option<u64>)
    requires
        start <= end <= b@.len(),
    ensures
        r == spec_from_hex(b@.subrange(start as int, end as int)),
{
    let ghost s = b@.subrange(start as int, end as int);
    let d0 = if start < end && b[start] == 43 {
        start + 1
    } else {
        start
    };
    let ghost d = b@.subrange(d0 as int, end as int);
    proof {
        if start < end {
            assert(s[0] == b@[start as int]);
        }
        if start < end && b@[start as int] == 43 {
            assert(s.skip(1) =~= d);
        } else {
            assert(s =~= d);
        }
        assert(spec_from_hex(s) == (if d.len() > 0 && spec_all_hex(d) && spec_hex_value(d) <= u64::MAX {
            Some(spec_hex_value(d) as u64)
        } else {
            None
        }));
    }
    if d0 == end {
        return None;
    }
    let mut v: u64 = 0;
    let mut i = d0;
    while i < end
        invariant
            d0 <= i <= end <= b@.len(),
            d == b@.subrange(d0 as int, end as int),
            d.len() > 0,
            spec_from_hex(b@.subrange(start as int, end as int)) == (if d.len() > 0 && spec_all_hex(d)
                && spec_hex_value(d) <= u64::MAX {
                Some(spec_hex_value(d) as u64)
            } else {
                None
            }),
            spec_all_hex(d.take(i - d0)),
            v == spec_hex_value(d.take(i - d0)),
        decreases end - i,
    {
        let c = b[i];
        let dg: u64 = if 48 <= c && c <= 57 {
            (c - 48) as u64
        } else if 97 <= c && c <= 102 {
            (c - 87) as u64
        } else if 65 <= c && c <= 70 {
            (c - 55) as u64
        } else {
            proof {
                assert(d[i - d0] == c);
                assert(!spec_hex_digit(d[i - d0]).is_some());
                assert(!spec_all_hex(d));
            }
            return None;
        };
        let ghost k = i - d0;
        proof {
            assert(d.take(k + 1).drop_last() =~= d.take(k));
            assert(d.take(k + 1).last() == c);
        }
        if v > (u64::MAX - dg) / 16 {
            proof {
                assert(spec_hex_value(d.take(k + 1)) == v * 16 + dg);
                assert(v * 16 + dg > u64::MAX) by (nonlinear_arith)
                    requires
                        v > (u64::MAX - dg) / 16,
                        dg <= 15,
                ;
                lemma_hex_value_grows(d, k + 1);
                assert(spec_hex_value(d) > u64::MAX);
            }
            return None;
        }
        proof {
            assert(v * 16 + dg <= u64::MAX) by (nonlinear_arith)
                requires
                    v <= (u64::MAX - dg) / 16,
                    dg <= 15,
            ;
            assert forall|j: int| 0 <= j < k + 1 implies #[trigger] spec_hex_digit(d.take(k + 1)[j]).is_some() by {
                if j < k {
                    assert(d.take(k + 1)[j] == d.take(k)[j]);
                }
            }
        }
        v = v * 16 + dg;
        i = i + 1;
    }
    proof {
        assert(d.take(end - d0) =~= d);
    }
    Some(v)
}

/// The value after the key on its line, `b[start..end]` being what
/// follows the key.
fn value_at(b: &[u8], start: usize, end: usize) -> (r: Result<u64, AggregateError>)
    requires
        start <= end <= b@.len(),
    ensures
        r == spec_value(b@.subrange(start as int, end as int)),
{
    let s = trim_start_at(b, start, end);
    if s < end && b[s] == 61 {
        let ghost r = b@.subrange(s as int, end as int);
        proof {
            assert(r.skip(1) =~= b@.subrange(s + 1, end as int));
        }
        let (ts, te) = trim_at(b, s + 1, end);
        let (qs, qe) = unquote_at(b, ts, te);
        let ghost q = b@.subrange(qs as int, qe as int);
        let hs = if qe - qs >= 2 && b[qs] == 48 && b[qs + 1] == 120 {
            proof {
                assert(q.skip(2) =~= b@.subrange(qs + 2, qe as int));
            }
            qs + 2
        } else {
            qs
        };
        match from_hex_at(b, hs, qe) {
            Some(v) => Ok(v),
            None => Err(AggregateError::BadHex),
        }
    } else {
        Err(AggregateError::Malformed)
    }
}

/// Whether `b[start..end]` starts with the key.
fn starts_with_key(b: &[u8], start: usize, end: usize) -> (r: bool)
    requires
        start <= end <= b@.len(),
    ensures
        r == ({
            let line = b@.subrange(start as int, end as int);
            line.len() >= spec_key().len() && line.take(spec_key().len() as int) == spec_key()
        }),
{
    let key: [u8; 18] = [101, 120, 112, 101, 99, 116, 101, 100, 95, 97, 103, 103, 114, 101, 103, 97, 116, 101];
    proof {
        assert(key@ =~= spec_key());
    }
    let ghost line = b@.subrange(start as int, end as int);
    if end - start < 18 {
        return false;
    }
    let mut i: usize = 0;
    while i < 18
        invariant
            0 <= i <= 18,
            start + 18 <= end <= b@.len(),
            key@ == spec_key(),
            line == b@.subrange(start as int, end as int),
            forall|j: int| 0 <= j < i ==> line[j] == key@[j],
        decreases 18 - i,
    {
        if b[start + i] != key[i] {
            proof {
                assert(line.take(18)[i as int] != spec_key()[i as int]);
            }
            return false;
        }
        i = i + 1;
    }
    proof {
        assert(line.take(18) =~= spec_key());
    }
    true
}

/// Read the expected aggregate from a determinism record: the first line
/// that, trimmed, starts with `expected_aggregate` gives it, as
/// `= "0x..."` (quotes and `0x` optional). No such line is `NoKey`; no `=`
/// after the key is `Malformed`; a value that is not a hexadecimal `u64`
/// is `BadHex`.
pub fn parse_expected_aggregate(text: &str) -> (r: Result<u64, AggregateError>)
    ensures
        r == spec_expected_aggregate(text.spec_bytes()),
{
    let b = text.as_bytes();
    let len = b.len();
    let mut pos: usize = 0;
    proof {
        assert(b@.subrange(0, len as int) =~= b@);
    }
    while pos < len
        invariant
            pos <= len == b@.len(),
            b@ == text.spec_bytes(),
            spec_expected_aggregate(b@.subrange(pos as int, len as int)) == spec_expected_aggregate(b@),
        decreases len - pos,
    {
        let ghost s = b@.subrange(pos as int, len as int);
        let mut nl = pos;
        while nl < len && b[nl] != 10
            invariant
                pos <= nl <= len == b@.len(),
                s == b@.subrange(pos as int, len as int),
                spec_line_len(s) == (nl - pos) + spec_line_len(b@.subrange(nl as int, len as int)),
            decreases len - nl,
        {
            proof {
                assert(b@.subrange(nl as int, len as int).skip(1) =~= b@.subrange(nl + 1, len as int));
            }
            nl = nl + 1;
        }
        let ghost n = spec_line_len(s);
        proof {
            assert(n == nl - pos);
            assert(s.take(n as int) =~= b@.subrange(pos as int, nl as int));
        }
        let (ls, le) = trim_at(b, pos, nl);
        if starts_with_key(b, ls, le) {
            proof {
                let line = b@.subrange(ls as int, le as int);
                assert(line.skip(18) =~= b@.subrange(ls + 18, le as int));
            }
            return value_at(b, ls + 18, le);
        }
        if nl >= len {
            return Err(AggregateError::NoKey);
        }
        proof {
            assert(s.skip(n as int + 1) =~= b@.subrange(nl + 1, len as int));
        }
        pos = nl + 1;
    }
    proof {
        assert(b@.subrange(pos as int, len as int) =~= Seq::<u8>::empty());
    }
    Err(AggregateError::NoKey)
}

} // verus!
