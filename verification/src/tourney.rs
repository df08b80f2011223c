//! Round-robin tournament bookkeeping: the seed each bout is played with,
//! and the win/draw and round-ending tallies.
use crate::stats::DISTANCE_BUCKETS;
use vstd::prelude::*;

verus! {

/// The seed of repeat `k` of the pairing `(i, j)`: the base seed mixed
/// with the two agent indices (smaller one first) and the repeat index.
pub open spec fn spec_pairing_seed(base_seed: u64, i: usize, j: usize, k: u32) -> u64 {
    let lo = if i <= j { i } else { j };
    let hi = if i <= j { j } else { i };
    base_seed ^ ((lo as u64) << 40u64) ^ ((hi as u64) << 20u64) ^ (k as u64)
}

/// The seed of repeat `k` of the pairing `(i, j)`. Cell `(i, j)` and its
/// mirror `(j, i)` share it, so they are the same match with sides swapped.
pub fn pairing_seed(base_seed: u64, i: usize, j: usize, k: u32) -> (s: u64)
    ensures
        s == spec_pairing_seed(base_seed, i, j, k),
{
    let (lo, hi) = if i <= j {
        (i, j)
    } else {
        (j, i)
    };
    base_seed ^ ((lo as u64) << 40u64) ^ ((hi as u64) << 20u64) ^ (k as u64)
}

/// The mirror rule: a pairing and its mirror are played with the same seed
/// at every repeat.
pub proof fn law_pairing_seed_mirrors(base_seed: u64, i: usize, j: usize, k: u32)
    ensures
        spec_pairing_seed(base_seed, i, j, k) == spec_pairing_seed(base_seed, j, i, k),
{
}

/// Bout results of one pairing, from the row agent's side.
#[derive(Debug, Clone, Copy, PartialEq, Eq, Structural)]
pub struct PairCell {
    pub wins_a: u32,
    pub wins_b: u32,
    pub draws: u32,
}

impl PairCell {
    /// No bouts yet.
    pub fn new() -> (r: PairCell)
        ensures
            r == (PairCell { wins_a: 0, wins_b: 0, draws: 0 }),
    {
        PairCell { wins_a: 0, wins_b: 0, draws: 0 }
    }

    /// Count one bout: a win for slot 0, a win for slot 1, or a draw
    /// (no winner).
    pub fn record(&mut self, winner: Option<u8>)
        requires
            old(self).wins_a < u32::MAX,
            old(self).wins_b < u32::MAX,
            old(self).draws < u32::MAX,
        ensures
            *final(self) == (match winner {
                Some(0) => PairCell { wins_a: (old(self).wins_a + 1) as u32, ..*old(self) },
                Some(1) => PairCell { wins_b: (old(self).wins_b + 1) as u32, ..*old(self) },
                _ => PairCell { draws: (old(self).draws + 1) as u32, ..*old(self) },
            }),
    {
        match winner {
            Some(0) => self.wins_a = self.wins_a + 1,
            Some(1) => self.wins_b = self.wins_b + 1,
            _ => self.draws = self.draws + 1,
        }
    }
}

/// Tournament-wide tallies.
#[derive(Debug, Clone, Copy)]
pub struct Aggregate {
    pub bouts: u32,
    pub rounds: u32,
    pub ko: u32,
    pub timeout: u32,
    pub double_ko: u32,
    pub sudden_death: u32,
    pub round_duration_ticks_sum: u64,
    pub damage_per_bout_sum: u64,
    pub guard_crushes: u32,
    pub trades: u32,
    pub passivity_penalties: u32,
    pub distance_ticks: [u64; 8],
    pub total_ticks: u64,
}

/// Which round ending a label names: 0 ko, 1 timeout, 2 double KO,
/// 3 sudden death, 4 anything else.
pub open spec fn spec_ending_index(label: Seq<char>) -> int {
    if label == "ko"@ {
        0
    } else if label == "timeout"@ {
        1
    } else if label == "double_ko"@ {
        2
    } else if label == "sudden_death"@ {
        3
    } else {
        4
    }
}

impl Aggregate {
    /// Nothing tallied yet.
    pub fn new() -> (r: Aggregate)
        ensures
            r.bouts == 0 && r.rounds == 0 && r.ko == 0 && r.timeout == 0 && r.double_ko == 0,
            r.sudden_death == 0 && r.round_duration_ticks_sum == 0 && r.damage_per_bout_sum == 0,
            r.guard_crushes == 0 && r.trades == 0 && r.passivity_penalties == 0 && r.total_ticks == 0,
            forall|b: int| 0 <= b < 8 ==> #[trigger] r.distance_ticks@[b] == 0,
    {
        let r = Aggregate {
            bouts: 0,
            rounds: 0,
            ko: 0,
            timeout: 0,
            double_ko: 0,
            sudden_death: 0,
            round_duration_ticks_sum: 0,
            damage_per_bout_sum: 0,
            guard_crushes: 0,
            trades: 0,
            passivity_penalties: 0,
            distance_ticks: [0u64; 8],
            total_ticks: 0,
        };
        r
    }

    /// Count one round: its ending, duration and spacing histogram.
    pub fn record_round(&mut self, ending: &str, duration_ticks: u32, histogram: &[u32; 8])
        requires
            old(self).rounds < u32::MAX,
            old(self).ko < u32::MAX,
            old(self).timeout < u32::MAX,
            old(self).double_ko < u32::MAX,
            old(self).sudden_death < u32::MAX,
            old(self).round_duration_ticks_sum <= u64::MAX - u32::MAX,
            old(self).total_ticks <= u64::MAX - 8 * (u32::MAX as int),
            forall|b: int| 0 <= b < 8 ==> #[trigger] old(self).distance_ticks@[b] <= u64::MAX - u32::MAX,
        ensures
            final(self).rounds == old(self).rounds + 1,
            final(self).round_duration_ticks_sum == old(self).round_duration_ticks_sum + duration_ticks,
            final(self).ko == old(self).ko + (if spec_ending_index(ending@) == 0 { 1int } else { 0 }),
            final(self).timeout == old(self).timeout + (if spec_ending_index(ending@) == 1 { 1int } else { 0 }),
            final(self).double_ko == old(self).double_ko + (if spec_ending_index(ending@) == 2 { 1int } else { 0 }),
            final(self).sudden_death == old(self).sudden_death + (if spec_ending_index(ending@) == 3 { 1int } else { 0 }),
            forall|b: int| 0 <= b < 8 ==> #[trigger] final(self).distance_ticks@[b] == old(self).distance_ticks@[b] + histogram@[b],
            final(self).total_ticks == old(self).total_ticks + spec_hist_sum(histogram@, 8),
            final(self).bouts == old(self).bouts,
            final(self).damage_per_bout_sum == old(self).damage_per_bout_sum,
            final(self).guard_crushes == old(self).guard_crushes,
            final(self).trades == old(self).trades,
            final(self).passivity_penalties == old(self).passivity_penalties,
    {
        proof {
            reveal_strlit("ko");
            reveal_strlit("timeout");
            reveal_strlit("double_ko");
            reveal_strlit("sudden_death");
        }
        self.rounds = self.rounds + 1;
        self.round_duration_ticks_sum = self.round_duration_ticks_sum + duration_ticks as u64;
        let idx = ending_index(ending);
        if idx == 0 {
            self.ko = self.ko + 1;
        } else if idx == 1 {
            self.timeout = self.timeout + 1;
        } else if idx == 2 {
            self.double_ko = self.double_ko + 1;
        } else if idx == 3 {
            self.sudden_death = self.sudden_death + 1;
        }
        let ghost pre = *self;
        let ghost t0 = self.total_ticks;
        let mut b: usize = 0;
        while b < DISTANCE_BUCKETS
            invariant
                0 <= b <= 8,
                forall|k: int| 0 <= k < 8 ==> #[trigger] pre.distance_ticks@[k] <= u64::MAX - u32::MAX,
                t0 <= u64::MAX - 8 * (u32::MAX as int),
                forall|k: int| 0 <= k < b ==> #[trigger] self.distance_ticks@[k] == pre.distance_ticks@[k] + histogram@[k],
                forall|k: int| b <= k < 8 ==> #[trigger] self.distance_ticks@[k] == pre.distance_ticks@[k],
                self.total_ticks == t0 + spec_hist_sum(histogram@, b as int),
                self.total_ticks <= t0 + b * (u32::MAX as int),
                self.rounds == pre.rounds && self.ko == pre.ko && self.timeout == pre.timeout,
                self.double_ko == pre.double_ko && self.sudden_death == pre.sudden_death,
                self.round_duration_ticks_sum == pre.round_duration_ticks_sum,
                self.bouts == pre.bouts && self.damage_per_bout_sum == pre.damage_per_bout_sum,
                self.guard_crushes == pre.guard_crushes && self.trades == pre.trades,
                self.passivity_penalties == pre.passivity_penalties,
            decreases 8 - b,
        {
            self.distance_ticks[b] = self.distance_ticks[b] + histogram[b] as u64;
            self.total_ticks = self.total_ticks + histogram[b] as u64;
            b = b + 1;
        }
    }
}

/// Sum of the first `n` entries of a histogram.
pub open spec fn spec_hist_sum(h: Seq<u32>, n: int) -> int
    decreases n,
{
    if n <= 0 {
        0
    } else {
        spec_hist_sum(h, n - 1) + h[n - 1]
    }
}

fn ending_index(label: &str) -> (r: u8)
    ensures
        r == spec_ending_index(label@),
{
    let s = String::from_str(label);
    let ko = String::from_str("ko");
    let timeout = String::from_str("timeout");
    let double_ko = String::from_str("double_ko");
    let sudden_death = String::from_str("sudden_death");
    if s == ko {
        0
    } else if s == timeout {
        1
    } else if s == double_ko {
        2
    } else if s == sudden_death {
        3
    } else {
        4
    }
}

} // verus!
