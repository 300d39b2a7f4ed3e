//! The per-pair cumulative-price ledger.
//!
//! A ledger is an append-only, time-ordered sequence of entries
//! `(timestamp, cumulative value)`. Timestamps are strictly increasing and
//! cumulative values are non-decreasing; lookups return the entry with the
//! greatest timestamp at or before a bound.

use vstd::prelude::*;

use crate::decimal::Decimal;

verus! {

/// One ledger entry: a timestamp in seconds and the cumulative price value
/// recorded at that instant.
#[derive(Clone, Copy, PartialEq, Eq, Structural, Debug)]
pub struct Entry {
    pub timestamp: u64,
    pub value: Decimal,
}

/// The entry with timestamp `t` and cumulative value of `v` atomic units.
pub open spec fn entry(t: u64, v: u128) -> Entry {
    Entry { timestamp: t, value: Decimal { atomics: v } }
}

/// Timestamps are strictly increasing along the sequence.
pub open spec fn sorted(s: Seq<Entry>) -> bool {
    forall|i: int, j: int| 0 <= i < j < s.len() ==> s[i].timestamp < s[j].timestamp
}

/// Cumulative values never decrease along the sequence.
pub open spec fn values_monotone(s: Seq<Entry>) -> bool {
    forall|i: int, j: int|
        0 <= i < j < s.len() ==> s[i].value.atomics <= s[j].value.atomics
}

/// The entry with the greatest timestamp at or before `bound`: a descending
/// scan anchored at the end of the sequence, taking the first entry whose
/// timestamp does not exceed the bound.
pub open spec fn at_or_before_spec(s: Seq<Entry>, bound: u64) -> Option<Entry>
    decreases s.len(),
{
    if s.len() == 0 {
        None
    } else if s.last().timestamp <= bound {
        Some(s.last())
    } else {
        at_or_before_spec(s.drop_last(), bound)
    }
}

/// The last entry of the sequence, if any.
pub open spec fn last_entry(s: Seq<Entry>) -> Option<Entry> {
    if s.len() == 0 {
        None
    } else {
        Some(s.last())
    }
}

/// What pruning at `cutoff` leaves behind: leading entries are discarded as
/// long as the entry after them still lies at or before the cutoff, so every
/// discarded entry is strictly older than the cutoff, and the youngest entry
/// at or before the cutoff is always retained as the bracketing point for
/// in-window queries.
pub open spec fn prune_spec(s: Seq<Entry>, cutoff: u64) -> Seq<Entry>
    decreases s.len(),
{
    if s.len() >= 2 && s[1].timestamp <= cutoff {
        prune_spec(s.drop_first(), cutoff)
    } else {
        s
    }
}

/// A successful at-or-before lookup returns an element of the sequence, and
/// that element lies at or before the bound.
pub proof fn lemma_at_or_before_member(s: Seq<Entry>, bound: u64)
    requires
        at_or_before_spec(s, bound) is Some,
    ensures
        exists|i: int|
            0 <= i < s.len() && s[i] == at_or_before_spec(s, bound).unwrap() && s[i].timestamp
                <= bound,
    decreases s.len(),
{
    if s.last().timestamp <= bound {
        assert(s[s.len() - 1] == s.last());
    } else {
        lemma_at_or_before_member(s.drop_last(), bound);
        let i = choose|i: int|
            0 <= i < s.drop_last().len() && s.drop_last()[i] == at_or_before_spec(
                s.drop_last(),
                bound,
            ).unwrap() && s.drop_last()[i].timestamp <= bound;
        assert(s[i] == s.drop_last()[i]);
    }
}

/// Law: at-or-before lookups are monotone in their bound. Two successful
/// lookups with ordered bounds return entries with ordered timestamps and
/// ordered cumulative values.
pub proof fn lemma_at_or_before_ordered(s: Seq<Entry>, b0: u64, b1: u64)
    requires
        sorted(s),
        values_monotone(s),
        b0 <= b1,
        at_or_before_spec(s, b0) is Some,
        at_or_before_spec(s, b1) is Some,
    ensures
        at_or_before_spec(s, b0).unwrap().timestamp <= at_or_before_spec(s, b1).unwrap().timestamp,
        at_or_before_spec(s, b0).unwrap().value.atomics <= at_or_before_spec(
            s,
            b1,
        ).unwrap().value.atomics,
    decreases s.len(),
{
    if s.last().timestamp <= b0 {
        // both lookups stop at the last entry
    } else if s.last().timestamp <= b1 {
        // the upper lookup stops at the last entry; the lower one returns an
        // earlier element
        lemma_at_or_before_member(s.drop_last(), b0);
        let i = choose|i: int|
            0 <= i < s.drop_last().len() && s.drop_last()[i] == at_or_before_spec(
                s.drop_last(),
                b0,
            ).unwrap() && s.drop_last()[i].timestamp <= b0;
        assert(s[i] == s.drop_last()[i]);
        assert(s[i].timestamp <= s[s.len() - 1].timestamp);
        assert(s[i].value.atomics <= s[s.len() - 1].value.atomics);
    } else {
        assert forall|i: int, j: int| 0 <= i < j < s.drop_last().len() implies s.drop_last()[i].timestamp
            < s.drop_last()[j].timestamp && s.drop_last()[i].value.atomics
            <= s.drop_last()[j].value.atomics by {
            assert(s.drop_last()[i] == s[i]);
            assert(s.drop_last()[j] == s[j]);
        }
        lemma_at_or_before_ordered(s.drop_last(), b0, b1);
    }
}

/// Law: a successful append followed immediately by an at-or-before lookup
/// at the appended timestamp returns the just-written entry unchanged.
pub proof fn lemma_append_round_trip(s: Seq<Entry>, e: Entry)
    ensures
        at_or_before_spec(s.push(e), e.timestamp) == Some(e),
{
    assert(s.push(e).last() == e);
}

/// An at-or-before lookup never depends on a leading entry whose successor
/// still lies at or before the bound.
proof fn lemma_at_or_before_drop_first(s: Seq<Entry>, bound: u64)
    requires
        s.len() >= 2,
        s[1].timestamp <= bound,
    ensures
        at_or_before_spec(s, bound) == at_or_before_spec(s.drop_first(), bound),
    decreases s.len(),
{
    if s.last().timestamp <= bound {
        assert(s.drop_first().last() == s.last());
    } else {
        assert(s.len() >= 3) by {
            assert(s[s.len() - 1].timestamp > bound);
        }
        assert(s.drop_last()[1] == s[1]);
        lemma_at_or_before_drop_first(s.drop_last(), bound);
        assert(s.drop_last().drop_first() =~= s.drop_first().drop_last());
        assert(s.drop_first().last() == s.last());
    }
}

/// Law: pruning at a cutoff never changes the result of an at-or-before
/// lookup anchored at or after that cutoff — in-window queries never regress
/// to "not found" purely because of pruning.
pub proof fn lemma_prune_preserves_lookups(s: Seq<Entry>, cutoff: u64, bound: u64)
    requires
        cutoff <= bound,
    ensures
        at_or_before_spec(prune_spec(s, cutoff), bound) == at_or_before_spec(s, bound),
    decreases s.len(),
{
    if s.len() >= 2 && s[1].timestamp <= cutoff {
        lemma_at_or_before_drop_first(s, bound);
        lemma_prune_preserves_lookups(s.drop_first(), cutoff, bound);
    }
}

/// Pruning a non-empty ledger always leaves at least one entry.
pub proof fn lemma_prune_retains_one(s: Seq<Entry>, cutoff: u64)
    requires
        s.len() > 0,
    ensures
        prune_spec(s, cutoff).len() > 0,
    decreases s.len(),
{
    if s.len() >= 2 && s[1].timestamp <= cutoff {
        lemma_prune_retains_one(s.drop_first(), cutoff);
    }
}

/// A per-pair, ordered store of cumulative price entries.
pub struct CumulativeLedger {
    pub entries: Vec<Entry>,
}

impl CumulativeLedger {
    /// Well-formedness: strictly increasing timestamps, non-decreasing
    /// cumulative values.
    pub open spec fn wf(self) -> bool {
        sorted(self.entries@) && values_monotone(self.entries@)
    }

    /// An empty ledger, as implicitly created on the first update of a pair.
    pub fn new() -> (r: CumulativeLedger)
        ensures
            r.entries@ =~= Seq::<Entry>::empty(),
            r.wf(),
    {
        CumulativeLedger { entries: Vec::new() }
    }

    /// Append a new entry. The engine is responsible for temporal ordering
    /// and value monotonicity, so both are preconditions here: the ledger
    /// itself never reorders or overwrites history.
    pub fn append(&mut self, timestamp: u64, value: Decimal)
        requires
            old(self).wf(),
            old(self).entries@.len() > 0 ==> old(self).entries@.last().timestamp < timestamp,
            old(self).entries@.len() > 0 ==> old(self).entries@.last().value.atomics
                <= value.atomics,
        ensures
            final(self).entries@ == old(self).entries@.push(entry(timestamp, value.atomics)),
            final(self).wf(),
    {
        self.entries.push(Entry { timestamp, value });
        proof {
            let s = old(self).entries@;
            let t = self.entries@;
            assert(t == s.push(entry(timestamp, value.atomics)));
            assert forall|i: int, j: int| 0 <= i < j < t.len() implies t[i].timestamp
                < t[j].timestamp by {
                if j == t.len() - 1 {
                    if i < s.len() - 1 {
                        assert(s[i].timestamp < s[s.len() - 1].timestamp);
                    }
                }
            }
            assert forall|i: int, j: int| 0 <= i < j < t.len() implies t[i].value.atomics
                <= t[j].value.atomics by {
                if j == t.len() - 1 {
                    if i < s.len() - 1 {
                        assert(s[i].value.atomics <= s[s.len() - 1].value.atomics);
                    }
                }
            }
        }
    }

    /// The entry with the greatest timestamp, or none if the ledger is empty.
    pub fn latest(&self) -> (r: Option<Entry>)
        ensures
            r == last_entry(self.entries@),
    {
        if self.entries.len() == 0 {
            None
        } else {
            Some(self.entries[self.entries.len() - 1])
        }
    }

    /// The entry with the greatest timestamp at or before `bound`, or none if
    /// no entry lies at or before it.
    pub fn at_or_before(&self, bound: u64) -> (r: Option<Entry>)
        ensures
            r == at_or_before_spec(self.entries@, bound),
    {
        let s = Ghost(self.entries@);
        proof {
            assert(s@.take(s@.len() as int) =~= s@);
        }
        let mut i: usize = self.entries.len();
        while i > 0
            invariant
                i <= s@.len(),
                s@ == self.entries@,
                at_or_before_spec(s@, bound) == at_or_before_spec(s@.take(i as int), bound),
            decreases i,
        {
            let e = self.entries[i - 1];
            if e.timestamp <= bound {
                proof {
                    assert(s@.take(i as int).last() == e);
                }
                return Some(e);
            }
            proof {
                assert(s@.take(i as int).last() == e);
                assert(s@.take(i as int).drop_last() =~= s@.take(i - 1));
            }
            i = i - 1;
        }
        proof {
            assert(s@.take(0).len() == 0);
        }
        None
    }

    /// Prune history older than `cutoff`, always retaining the youngest entry
    /// at or before the cutoff (if one exists) so that queries anchored at or
    /// after the cutoff still find their bracketing point.
    pub fn prune(&mut self, cutoff: u64)
        requires
            old(self).wf(),
        ensures
            final(self).entries@ == prune_spec(old(self).entries@, cutoff),
            final(self).wf(),
    {
        let s = Ghost(self.entries@);
        proof {
            assert(s@.skip(0) =~= s@);
        }
        let n: usize = self.entries.len();
        let mut k: usize = 0;
        while k + 1 < n && self.entries[k + 1].timestamp <= cutoff
            invariant
                k < n || k == 0,
                n == s@.len(),
                s@ == self.entries@,
                prune_spec(s@, cutoff) == prune_spec(s@.skip(k as int), cutoff),
            decreases self.entries@.len() - k,
        {
            proof {
                assert(s@.skip(k as int)[1] == s@[k + 1]);
                assert(s@.skip(k as int).drop_first() =~= s@.skip(k + 1));
            }
            k = k + 1;
        }
        proof {
            let rest = s@.skip(k as int);
            if rest.len() >= 2 {
                assert(rest[1] == s@[k + 1]);
            }
            assert(prune_spec(s@, cutoff) == rest);
        }
        let mut kept: Vec<Entry> = Vec::new();
        let mut j: usize = k;
        while j < self.entries.len()
            invariant
                k <= j <= self.entries@.len(),
                s@ == self.entries@,
                kept@ =~= s@.subrange(k as int, j as int),
            decreases self.entries@.len() - j,
        {
            kept.push(self.entries[j]);
            j = j + 1;
        }
        proof {
            assert(kept@ =~= s@.skip(k as int));
        }
        self.entries = kept;
    }
}

} // verus!
