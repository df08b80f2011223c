//! 64-bit FNV-1a hashing of world state, chained tick over tick.
use vstd::prelude::*;

verus! {

/// FNV-1a 64-bit offset basis.
pub const FNV_OFFSET: u64 = 0xcbf29ce484222325;

/// FNV-1a 64-bit prime.
pub const FNV_PRIME: u64 = 0x100000001b3;

/// One FNV-1a round: xor the byte in, then multiply by the prime mod 2^64.
pub open spec fn fnv_step(h: u64, b: u8) -> u64 {
    vstd::wrapping::u64_specs::wrapping_mul(h ^ (b as u64), FNV_PRIME)
}

/// FNV-1a state after feeding `bytes`, in order, into state `h`.
pub open spec fn fnv_fold(h: u64, bytes: Seq<u8>) -> u64
    decreases bytes.len(),
{
    if bytes.len() == 0 {
        h
    } else {
        fnv_step(fnv_fold(h, bytes.drop_last()), bytes.last())
    }
}

/// FNV-1a hash of a byte sequence.
pub open spec fn fnv_hash(bytes: Seq<u8>) -> u64 {
    fnv_fold(FNV_OFFSET, bytes)
}

/// Little-endian bytes of a `u32`.
pub open spec fn le_u32(v: u32) -> Seq<u8> {
    seq![
        (v & 0xff) as u8,
        ((v >> 8u32) & 0xff) as u8,
        ((v >> 16u32) & 0xff) as u8,
        ((v >> 24u32) & 0xff) as u8,
    ]
}

/// Little-endian bytes of an `i32` (its two's-complement bit pattern).
pub open spec fn le_i32(v: i32) -> Seq<u8> {
    le_u32(v as u32)
}

/// Little-endian bytes of a `u64`.
pub open spec fn le_u64(v: u64) -> Seq<u8> {
    le_u32((v & 0xffff_ffff) as u32) + le_u32((v >> 32u64) as u32)
}

/// Little-endian bytes of an `i64` (its two's-complement bit pattern).
pub open spec fn le_i64(v: i64) -> Seq<u8> {
    le_u64(v as u64)
}

/// Hash chaining: the hash of `prev` followed by `tick_hash`, each as
/// eight little-endian bytes.
#[verifier::opaque]
pub open spec fn spec_chain(prev: u64, tick_hash: u64) -> u64 {
    fnv_hash(le_u64(prev) + le_u64(tick_hash))
}

/// Feeding two byte strings one after the other is feeding their concatenation.
pub proof fn lemma_fold_append(h: u64, a: Seq<u8>, b: Seq<u8>)
    ensures
        fnv_fold(fnv_fold(h, a), b) == fnv_fold(h, a + b),
    decreases b.len(),
{
    if b.len() == 0 {
        assert(a + b =~= a);
    } else {
        lemma_fold_append(h, a, b.drop_last());
        assert((a + b).drop_last() =~= a + b.drop_last());
        assert((a + b).last() == b.last());
    }
}

/// Feeding one byte is one FNV step.
pub proof fn lemma_fold_single(h: u64, b: u8)
    ensures
        fnv_fold(h, seq![b]) == fnv_step(h, b),
{
    assert(seq![b].drop_last() =~= Seq::<u8>::empty());
    assert(fnv_fold(h, Seq::<u8>::empty()) == h);
}

/// Feeding `s` then one more byte is one more FNV step.
pub proof fn lemma_fold_push(h: u64, s: Seq<u8>, b: u8)
    ensures
        fnv_fold(h, s.push(b)) == fnv_step(fnv_fold(h, s), b),
{
    assert(s.push(b).drop_last() =~= s);
}

/// Streaming FNV-1a hasher.
pub struct Fnv1a(u64);

impl View for Fnv1a {
    type V = u64;

    closed spec fn view(&self) -> u64 {
        self.0
    }
}

impl Fnv1a {
    /// A hasher at the FNV offset basis.
    pub fn new() -> (r: Fnv1a)
        ensures
            r@ == FNV_OFFSET,
    {
        Fnv1a(FNV_OFFSET)
    }

    /// Feed one byte.
    pub fn write_u8(&mut self, b: u8)
        ensures
            final(self)@ == fnv_step(old(self)@, b),
            final(self)@ == fnv_fold(old(self)@, seq![b]),
    {
        proof {
            lemma_fold_single(self.0, b);
        }
        self.0 = self.0 ^ (b as u64);
        self.0 = self.0.wrapping_mul(FNV_PRIME);
    }

    /// Feed bytes in order.
    pub fn write_bytes(&mut self, bytes: &[u8])
        ensures
            final(self)@ == fnv_fold(old(self)@, bytes@),
    {
        let ghost h0 = self@;
        let mut i: usize = 0;
        while i < bytes.len()
            invariant
                0 <= i <= bytes@.len(),
                self@ == fnv_fold(h0, bytes@.take(i as int)),
            decreases bytes@.len() - i,
        {
            proof {
                assert(bytes@.take(i + 1).drop_last() =~= bytes@.take(i as int));
            }
            self.write_u8(bytes[i]);
            i = i + 1;
        }
        assert(bytes@.take(i as int) =~= bytes@);
    }

    /// Feed the four little-endian bytes of `v`.
    pub fn write_u32(&mut self, v: u32)
        ensures
            final(self)@ == fnv_fold(old(self)@, le_u32(v)),
    {
        let ghost h0 = self@;
        let b0 = (v & 0xff) as u8;
        let b1 = ((v >> 8u32) & 0xff) as u8;
        let b2 = ((v >> 16u32) & 0xff) as u8;
        let b3 = ((v >> 24u32) & 0xff) as u8;
        self.write_u8(b0);
        proof {
            lemma_fold_single(h0, b0);
        }
        self.write_u8(b1);
        proof {
            lemma_fold_push(h0, seq![b0], b1);
            assert(seq![b0].push(b1) =~= seq![b0, b1]);
        }
        self.write_u8(b2);
        proof {
            lemma_fold_push(h0, seq![b0, b1], b2);
            assert(seq![b0, b1].push(b2) =~= seq![b0, b1, b2]);
        }
        self.write_u8(b3);
        proof {
            lemma_fold_push(h0, seq![b0, b1, b2], b3);
            assert(seq![b0, b1, b2].push(b3) =~= le_u32(v));
        }
    }

    /// Feed the four little-endian bytes of `v`.
    pub fn write_i32(&mut self, v: i32)
        ensures
            final(self)@ == fnv_fold(old(self)@, le_i32(v)),
    {
        self.write_u32(v as u32);
    }

    /// Feed the eight little-endian bytes of `v`.
    pub fn write_u64(&mut self, v: u64)
        ensures
            final(self)@ == fnv_fold(old(self)@, le_u64(v)),
    {
        let ghost h0 = self@;
        self.write_u32((v & 0xffff_ffff) as u32);
        let ghost h1 = self@;
        self.write_u32((v >> 32u64) as u32);
        proof {
            lemma_fold_append(h0, le_u32((v & 0xffff_ffff) as u32), le_u32((v >> 32u64) as u32));
        }
    }

    /// Feed the eight little-endian bytes of `v`.
    pub fn write_i64(&mut self, v: i64)
        ensures
            final(self)@ == fnv_fold(old(self)@, le_i64(v)),
    {
        self.write_u64(v as u64);
    }

    /// The current hash value.
    pub fn finish(self) -> (r: u64)
        ensures
            r == self@,
    {
        self.0
    }
}

impl core::default::Default for Fnv1a {
    fn default() -> (r: Fnv1a)
        ensures
            r@ == FNV_OFFSET,
    {
        Fnv1a::new()
    }
}

/// Chains the previous hash into the next tick's hash so the result depends
/// on the entire history, not just the current tick's state.
pub fn chain(prev: u64, tick_hash: u64) -> (r: u64)
    ensures
        r == spec_chain(prev, tick_hash),
{
    let mut h = Fnv1a::new();
    h.write_u64(prev);
    h.write_u64(tick_hash);
    proof {
        lemma_fold_append(FNV_OFFSET, le_u64(prev), le_u64(tick_hash));
        reveal(spec_chain);
    }
    h.finish()
}

/// Feeding more bytes after `acc` is hashing the concatenation.
pub proof fn lemma_hash_extend(acc: Seq<u8>, b: Seq<u8>)
    ensures
        fnv_fold(fnv_hash(acc), b) == fnv_hash(acc + b),
{
    lemma_fold_append(FNV_OFFSET, acc, b);
}

/// Feed `v`, tracking the bytes fed so far.
pub(crate) fn put_i32(h: &mut Fnv1a, v: i32, Ghost(acc): Ghost<Seq<u8>>) -> (r: Ghost<Seq<u8>>)
    requires
        old(h)@ == fnv_hash(acc),
    ensures
        r@ == acc + le_i32(v),
        final(h)@ == fnv_hash(r@),
{
    h.write_i32(v);
    proof {
        lemma_hash_extend(acc, le_i32(v));
    }
    Ghost(acc + le_i32(v))
}

/// Feed `v`, tracking the bytes fed so far.
pub(crate) fn put_u32(h: &mut Fnv1a, v: u32, Ghost(acc): Ghost<Seq<u8>>) -> (r: Ghost<Seq<u8>>)
    requires
        old(h)@ == fnv_hash(acc),
    ensures
        r@ == acc + le_u32(v),
        final(h)@ == fnv_hash(r@),
{
    h.write_u32(v);
    proof {
        lemma_hash_extend(acc, le_u32(v));
    }
    Ghost(acc + le_u32(v))
}

/// Feed one byte, tracking the bytes fed so far.
pub(crate) fn put_u8(h: &mut Fnv1a, v: u8, Ghost(acc): Ghost<Seq<u8>>) -> (r: Ghost<Seq<u8>>)
    requires
        old(h)@ == fnv_hash(acc),
    ensures
        r@ == acc + seq![v],
        final(h)@ == fnv_hash(r@),
{
    h.write_u8(v);
    proof {
        lemma_hash_extend(acc, seq![v]);
    }
    Ghost(acc + seq![v])
}

/// The state of a hasher that started fresh and was fed `bytes` one at a
/// time (each feed being one `write_u8`).
pub open spec fn spec_fed_bytewise(bytes: Seq<u8>) -> u64
    decreases bytes.len(),
{
    if bytes.len() == 0 {
        FNV_OFFSET
    } else {
        fnv_fold(spec_fed_bytewise(bytes.drop_last()), seq![bytes.last()])
    }
}

/// A fresh hasher fed any bytes, one at a time, holds (and finishes on)
/// their 64-bit FNV-1a hash: the offset basis with each byte xored in and
/// multiplied by the prime modulo 2^64, in order; with no bytes, the
/// offset basis itself.
pub proof fn law_fnv_from_fresh(bytes: Seq<u8>)
    ensures
        spec_fed_bytewise(bytes) == fnv_hash(bytes),
        fnv_hash(Seq::<u8>::empty()) == FNV_OFFSET,
        bytes.len() > 0 ==> fnv_hash(bytes) == vstd::wrapping::u64_specs::wrapping_mul(
            fnv_hash(bytes.drop_last()) ^ (bytes.last() as u64),
            FNV_PRIME,
        ),
    decreases bytes.len(),
{
    if bytes.len() > 0 {
        law_fnv_from_fresh(bytes.drop_last());
        lemma_fold_single(spec_fed_bytewise(bytes.drop_last()), bytes.last());
    }
}

/// A hasher taken through any run of `write_u8` calls from `new()` ends on
/// the 64-bit FNV-1a hash of the bytes written: `states[0]` is the fresh
/// hasher (the offset basis), and each `states[i + 1]` is what `write_u8`
/// leaves after feeding `bytes[i]` into `states[i]`; `finish` returns the
/// last state.
pub proof fn law_fnv_write_calls(states: Seq<u64>, bytes: Seq<u8>)
    requires
        states.len() == bytes.len() + 1,
        states[0] == FNV_OFFSET,
        forall|i: int| 0 <= i < bytes.len() ==> #[trigger] states[i + 1] == fnv_step(states[i], bytes[i]),
    ensures
        states.last() == fnv_hash(bytes),
    decreases bytes.len(),
{
    if bytes.len() == 0 {
        assert(fnv_hash(bytes) == FNV_OFFSET);
    } else {
        let n = bytes.len() - 1;
        let s0 = states.drop_last();
        let b0 = bytes.drop_last();
        assert forall|i: int| 0 <= i < b0.len() implies #[trigger] s0[i + 1] == fnv_step(s0[i], b0[i]) by {
            assert(states[i + 1] == fnv_step(states[i], bytes[i]));
        }
        law_fnv_write_calls(s0, b0);
        assert(states[n + 1] == fnv_step(states[n], bytes[n]));
        assert(bytes =~= b0.push(bytes[n]));
        lemma_fold_push(FNV_OFFSET, b0, bytes[n]);
    }
}

} // verus!
