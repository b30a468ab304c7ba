//! The per-command crash ledger: an append-only record of failure times,
//! and the sliding-window count that drives escalation.

use vstd::prelude::*;

verus! {

/// How many entries of `s` lie strictly after `cutoff`.
pub open spec fn window_count(s: Seq<i64>, cutoff: int) -> nat
    decreases s.len(),
{
    if s.len() == 0 {
        0
    } else {
        window_count(s.drop_last(), cutoff) + if s.last() > cutoff {
            1nat
        } else {
            0nat
        }
    }
}

/// Append-only record of the times at which a command's attempts failed.
/// Owned by one supervision task; never shared across commands.
pub struct CrashLedger {
    pub crashes: Vec<i64>,
}

impl View for CrashLedger {
    type V = Seq<i64>;

    open spec fn view(&self) -> Seq<i64> {
        self.crashes@
    }
}

impl CrashLedger {
    pub fn new() -> (r: CrashLedger)
        ensures
            r@ == Seq::<i64>::empty(),
    {
        CrashLedger { crashes: Vec::new() }
    }

    /// Appends one crash time.
    pub fn record(&mut self, t: i64)
        ensures
            final(self)@ == old(self)@.push(t),
    {
        self.crashes.push(t);
    }

    /// The count compared against the escalation threshold: how many
    /// recorded crashes fall strictly inside the window of `period`
    /// seconds ending at `now`.
    pub fn count_recent(&self, now: i64, period: i64) -> (r: u64)
        ensures
            r == window_count(self@, now - period),
    {
        let cutoff: i128 = now as i128 - period as i128;
        let mut count: u64 = 0;
        let mut i: usize = 0;
        while i < self.crashes.len()
            invariant
                0 <= i <= self.crashes.len(),
                count <= i,
                count == window_count(self@.take(i as int), now - period),
                cutoff == now - period,
            decreases self.crashes.len() - i,
        {
            let t = self.crashes[i];
            proof {
                assert(self@.take(i as int + 1).drop_last() =~= self@.take(i as int));
                assert(self@.take(i as int + 1).last() == self@[i as int]);
            }
            if t as i128 > cutoff {
                count += 1;
            }
            i += 1;
        }
        proof {
            assert(self@.take(i as int) =~= self@);
        }
        count
    }
}

/// Crash-window counting: with strictly increasing crash times, the count
/// compared against the threshold equals the cardinality of
/// `{ t in s : t > cutoff }` — entries at or before the cutoff do not count.
pub proof fn lemma_window_count_is_cardinality(s: Seq<i64>, cutoff: int)
    requires
        forall|i: int, j: int| 0 <= i < j < s.len() ==> s[i] < s[j],
    ensures
        ({
            let inside = Set::new(|t: i64| s.contains(t) && t > cutoff);
            inside.finite() && window_count(s, cutoff) == inside.len()
        }),
    decreases s.len(),
{
    let inside = Set::new(|t: i64| s.contains(t) && t > cutoff);
    if s.len() == 0 {
        assert(inside =~= Set::<i64>::empty());
    } else {
        let prefix = s.drop_last();
        let last = s.last();
        assert(forall|i: int, j: int| 0 <= i < j < prefix.len() ==> prefix[i] < prefix[j]);
        lemma_window_count_is_cardinality(prefix, cutoff);
        let inside_prefix = Set::new(|t: i64| prefix.contains(t) && t > cutoff);
        // the last entry is strictly larger than every earlier one, so it
        // is not already in the prefix set
        assert(forall|i: int| 0 <= i < prefix.len() ==> prefix[i] < last);
        assert(!prefix.contains(last));
        assert forall|t: i64| s.contains(t) implies prefix.contains(t) || t == last by {
            let k = choose|k: int| 0 <= k < s.len() && s[k] == t;
            if k < s.len() - 1 {
                assert(prefix[k] == t);
            }
        }
        assert(forall|t: i64| prefix.contains(t) ==> s.contains(t));
        assert(s.contains(last)) by {
            assert(s[s.len() - 1] == last);
        }
        if last > cutoff {
            assert(inside =~= inside_prefix.insert(last));
            assert(!inside_prefix.contains(last));
            assert(inside.len() == inside_prefix.len() + 1);
        } else {
            assert(inside =~= inside_prefix);
        }
    }
}

} // verus!
