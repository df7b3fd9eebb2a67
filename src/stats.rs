//! The statistics block of one search run: the attempt counter and the
//! found flag, with the laws that govern them.
use vstd::prelude::*;

verus! {

/// The counter after `n` more attempts; it stops at the top of `u64`.
pub open spec fn counted(attempts: u64, n: u64) -> u64 {
    if attempts + n <= u64::MAX {
        (attempts + n) as u64
    } else {
        u64::MAX
    }
}

/// One claim of the found flag: `won` holds exactly when the flag went from
/// clear to set, and a set flag stays set.
pub open spec fn claim_step(before: bool, after: bool, won: bool) -> bool {
    &&& won == (!before && after)
    &&& before ==> after
}

/// The number of `true` entries of `s`.
pub open spec fn count_won(s: Seq<bool>) -> nat
    decreases s.len(),
{
    if s.len() == 0 {
        0
    } else {
        count_won(s.drop_last()) + if s.last() {
            1nat
        } else {
            0nat
        }
    }
}

/// The counter after `k` batches of `b` attempts each, from `start`.
pub open spec fn after_batches(start: u64, k: nat, b: u64) -> u64
    decreases k,
{
    if k == 0 {
        start
    } else {
        counted(after_batches(start, (k - 1) as nat, b), b)
    }
}

/// Shared state of one run: how many candidates were tried, and whether a
/// winner has been claimed.
#[derive(Clone, Copy, Debug, PartialEq, Eq, Structural)]
pub struct SearchStats {
    pub attempts: u64,
    pub found: bool,
}

impl SearchStats {
    /// A fresh block: no attempts, no winner.
    pub fn new() -> (r: SearchStats)
        ensures
            r.attempts == 0,
            !r.found,
    {
        SearchStats { attempts: 0, found: false }
    }

    /// Adds one batch of `n` attempts.
    pub fn record_batch(&mut self, n: u64)
        ensures
            final(self).attempts == counted(old(self).attempts, n),
            final(self).found == old(self).found,
    {
        self.attempts = self.attempts.saturating_add(n);
    }

    /// Compare-and-swap on the found flag, from clear to set. Returns whether
    /// this call made the transition, which entitles it to report a winner.
    pub fn try_claim(&mut self) -> (won: bool)
        ensures
            won == !old(self).found,
            final(self).found,
            final(self).attempts == old(self).attempts,
            claim_step(old(self).found, final(self).found, won),
    {
        if self.found {
            false
        } else {
            self.found = true;
            true
        }
    }

    pub fn is_found(&self) -> (r: bool)
        ensures
            r == self.found,
    {
        self.found
    }

    pub fn attempts(&self) -> (r: u64)
        ensures
            r == self.attempts,
    {
        self.attempts
    }
}

/// The attempt counter never goes down.
pub proof fn lemma_attempts_monotonic(attempts: u64, n: u64)
    ensures
        counted(attempts, n) >= attempts,
{
}

/// After `k` batches of `b` attempts on a fresh counter, it holds exactly
/// `k * b`, as long as that fits.
pub proof fn lemma_attempts_after_batches(k: nat, b: u64)
    requires
        k * b <= u64::MAX,
    ensures
        after_batches(0, k, b) == k * b,
    decreases k,
{
    if k > 0 {
        let j = (k - 1) as nat;
        assert(j * b + b == k * b && j * b <= k * b) by (nonlinear_arith)
            requires
                j + 1 == k,
        ;
        lemma_attempts_after_batches(j, b);
        assert(after_batches(0, k, b) == counted(after_batches(0, j, b), b));
    } else {
        assert(k * b == 0) by (nonlinear_arith)
            requires
                k == 0,
        ;
    }
}

/// A counter that starts at zero and takes `k` batches of `b` attempts, one
/// after another (the values it passes through being `counts`), holds
/// exactly `k * b` after them, as long as that fits.
pub proof fn lemma_counter_after_batches(counts: Seq<u64>, b: u64)
    requires
        counts.len() >= 1,
        counts[0] == 0,
        forall|i: int| 0 <= i < counts.len() - 1 ==> #[trigger] counts[i + 1] == counted(counts[i], b),
        (counts.len() - 1) * b <= u64::MAX,
    ensures
        counts.last() == (counts.len() - 1) * b,
{
    let k = (counts.len() - 1) as nat;
    assert forall|i: nat| i <= k implies #[trigger] counts[i as int] == after_batches(0, i, b) by {
        lemma_counts_follow_batches(counts, b, i);
    }
    assert(counts[k as int] == after_batches(0, k, b));
    lemma_attempts_after_batches(k, b);
}

proof fn lemma_counts_follow_batches(counts: Seq<u64>, b: u64, i: nat)
    requires
        i < counts.len(),
        counts[0] == 0,
        forall|j: int| 0 <= j < counts.len() - 1 ==> #[trigger] counts[j + 1] == counted(counts[j], b),
    ensures
        counts[i as int] == after_batches(0, i, b),
    decreases i,
{
    if i > 0 {
        lemma_counts_follow_batches(counts, b, (i - 1) as nat);
        assert(counts[(i - 1) + 1] == counted(counts[i - 1], b));
    }
}

/// Whatever number of claims is made in turn on one found flag, at most one
/// of them wins, none wins if the flag was set before the first, and the
/// flag ends set exactly when it started set or some claim won.
pub proof fn lemma_at_most_one_winner(flags: Seq<bool>, won: Seq<bool>)
    requires
        flags.len() == won.len() + 1,
        forall|i: int| 0 <= i < won.len() ==> claim_step(flags[i], flags[i + 1], won[i]),
    ensures
        count_won(won) <= 1,
        flags[0] ==> count_won(won) == 0,
        flags.last() == (flags[0] || count_won(won) == 1),
    decreases won.len(),
{
    if won.len() > 0 {
        let f = flags.drop_last();
        let w = won.drop_last();
        assert forall|i: int| 0 <= i < w.len() implies claim_step(f[i], f[i + 1], w[i]) by {
            assert(f[i] == flags[i] && f[i + 1] == flags[i + 1] && w[i] == won[i]);
        }
        lemma_at_most_one_winner(f, w);
        let n = won.len() - 1;
        assert(claim_step(flags[n], flags[n + 1], won[n]));
    }
}

} // verus!
