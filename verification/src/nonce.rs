//! Strictly increasing nonce issuance for signed exchange actions.

use vstd::prelude::*;

verus! {

/// Issues nonces for signed actions. Every nonce is strictly greater than all
/// nonces issued before it, so the exchange can order actions and reject
/// replays. Nonces are milliseconds-since-epoch shaped: `next` takes the
/// current wall-clock reading and returns it when it is ahead of the last
/// issued value, else the last issued value plus one.
pub struct NonceSequencer {
    last: u64,
}

impl NonceSequencer {
    /// The most recently issued nonce, or the seed if none was issued yet.
    pub closed spec fn last_issued(&self) -> u64 {
        self.last
    }

    /// A fresh sequencer; all nonces it issues exceed `seed`.
    pub fn new(seed: u64) -> (s: Self)
        ensures
            s.last_issued() == seed,
    {
        NonceSequencer { last: seed }
    }

    /// The most recently issued nonce, or the seed if none was issued yet.
    pub fn last(&self) -> (r: u64)
        ensures
            r == self.last_issued(),
    {
        self.last
    }

    /// Issue the next nonce: the wall-clock reading `now_ms` when it has moved
    /// past the last issued value, else one past the last issued value.
    pub fn next(&mut self, now_ms: u64) -> (n: u64)
        requires
            old(self).last_issued() < u64::MAX,
        ensures
            n == if now_ms > old(self).last_issued() {
                now_ms as int
            } else {
                old(self).last_issued() + 1
            },
            n > old(self).last_issued(),
            final(self).last_issued() == n,
    {
        let n = if now_ms > self.last {
            now_ms
        } else {
            self.last + 1
        };
        self.last = n;
        n
    }
}

/// Nonces issued one after the other are pairwise distinct and come out in
/// strictly increasing order: a later call can never repeat or undercut an
/// earlier one, whatever wall-clock readings the two calls saw.
pub proof fn lemma_nonces_strictly_increase(s0: NonceSequencer, s1: NonceSequencer, n1: u64, n2: u64)
    requires
        n1 > s0.last_issued(),
        s1.last_issued() == n1,
        n2 > s1.last_issued(),
    ensures
        n2 > n1,
        n2 != n1,
{
}

/// Any trace of issued nonces — each one strictly above its predecessor, as
/// `next` guarantees — is strictly increasing throughout, so no value is ever
/// issued twice, however many callers drew from the sequencer.
pub proof fn lemma_nonce_trace_distinct(ns: Seq<u64>)
    requires
        forall|k: int| 0 <= k < ns.len() - 1 ==> #[trigger] ns[k] < ns[k + 1],
    ensures
        forall|i: int, j: int| 0 <= i < j < ns.len() ==> ns[i] < ns[j],
        forall|i: int, j: int| 0 <= i < j < ns.len() ==> ns[i] != ns[j],
    decreases ns.len(),
{
    if ns.len() > 1 {
        let head = ns.drop_first();
        assert(forall|k: int| 0 <= k < head.len() - 1 ==> #[trigger] head[k] < head[k + 1]) by {
            assert(forall|k: int| 0 <= k < head.len() ==> #[trigger] head[k] == ns[k + 1]);
        }
        lemma_nonce_trace_distinct(head);
        assert forall|i: int, j: int| 0 <= i < j < ns.len() implies ns[i] < ns[j] by {
            if i == 0 {
                if j == 1 {
                    assert(ns[0] < ns[1]);
                } else {
                    assert(head[0] < head[j - 1]);
                    assert(ns[0] < ns[1] == head[0]);
                    assert(head[j - 1] == ns[j]);
                }
            } else {
                assert(head[i - 1] < head[j - 1]);
                assert(head[i - 1] == ns[i] && head[j - 1] == ns[j]);
            }
        }
    }
}

} // verus!
