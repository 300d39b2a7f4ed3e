//! The TWAP engine: update and query algorithms over a cumulative ledger.

use vstd::prelude::*;

use crate::decimal::Decimal;
use crate::error::TwapError;
use crate::ledger::CumulativeLedger;
use crate::ledger::Entry;
use crate::ledger::at_or_before_spec;
use crate::ledger::entry;
use crate::ledger::last_entry;
use crate::ledger::lemma_at_or_before_ordered;
use crate::ledger::prune_spec;
use crate::msg::CumulativePriceResponse;
use crate::msg::PriceResponse;
use crate::msg::cum;

verus! {

/// The cumulative value an update writes after a prior entry `prev`: the
/// previous cumulative value plus `price` times the elapsed seconds.
pub open spec fn next_value(prev: Entry, now: u64, price: Decimal) -> int {
    prev.value.atomics + price.atomics * (now - prev.timestamp)
}

/// The average price recovered from two bracketing entries: the difference
/// of their cumulative values over the difference of their timestamps,
/// floored at one atomic unit.
pub open spec fn twap_of(e0: Entry, e1: Entry) -> int {
    (e1.value.atomics - e0.value.atomics) / (e1.timestamp - e0.timestamp)
}

/// The engine for one tracked pair: it owns that pair's cumulative ledger
/// and layers the update and query algorithms on it.
///
/// The engine never prunes implicitly: `update` appends only, matching the
/// reference behaviour of an oracle that retains full history. Callers that
/// want a bounded ledger invoke `prune` explicitly with their retention
/// window; the policy is thereby independently toggleable.
pub struct TWAP {
    pub ledger: CumulativeLedger,
}

impl TWAP {
    /// Well-formedness of the engine: its ledger is well-formed.
    pub open spec fn wf(self) -> bool {
        self.ledger.wf()
    }

    /// The ledger contents, as a sequence of entries ordered by timestamp.
    pub open spec fn entries(self) -> Seq<Entry> {
        self.ledger.entries@
    }

    /// The ledger head: the entry with the greatest timestamp, if any.
    pub open spec fn head(self) -> Option<Entry> {
        last_entry(self.ledger.entries@)
    }

    /// The machine limit on an update: the new cumulative value must fit in
    /// the atomic-unit representation. A caller that cannot establish the
    /// bound checks it with checked arithmetic before calling.
    pub open spec fn update_fits(self, now: u64, price: Decimal) -> bool {
        match self.head() {
            None => true,
            Some(prev) => prev.timestamp < now ==> next_value(prev, now, price) <= u128::MAX,
        }
    }

    /// The two bracketing entries a price query resolves, or the error it
    /// fails with: the window is `[timestamp - offset, timestamp]`, each edge
    /// is resolved by an at-or-before lookup, and the two entries must be
    /// distinct for the interpolation to be defined.
    pub open spec fn price_spec(self, timestamp: u64, offset: u64) -> Result<
        (Entry, Entry),
        TwapError,
    > {
        if offset > timestamp {
            Err(TwapError::InvalidInput)
        } else {
            match at_or_before_spec(self.entries(), timestamp) {
                None => Err(TwapError::NotFound),
                Some(e1) => match at_or_before_spec(self.entries(), (timestamp - offset) as u64) {
                    None => Err(TwapError::NotFound),
                    Some(e0) => if e0.timestamp == e1.timestamp {
                        Err(TwapError::DegenerateWindow)
                    } else {
                        Ok((e0, e1))
                    },
                },
            }
        }
    }

    /// An engine over an empty ledger, as implicitly created on the first
    /// update of a pair.
    pub fn new() -> (r: TWAP)
        ensures
            r.entries() =~= Seq::<Entry>::empty(),
            r.wf(),
    {
        TWAP { ledger: CumulativeLedger::new() }
    }

    /// Record a new observation at time `now` with spot price `price`.
    ///
    /// On an empty ledger this writes the baseline entry `(now, 0)`,
    /// whatever the spot price. Otherwise, with prior entry
    /// `(t_prev, v_prev)`, it appends `(now, v_prev + price * (now - t_prev))`
    /// provided `now` is strictly later than `t_prev`, and fails with
    /// `TemporalOrderViolation`, leaving the ledger unchanged, otherwise.
    ///
    /// `max_age` parameterizes the retention policy; the engine keeps the
    /// policy a no-op here, so the parameter is read but not acted on, and
    /// pruning happens only through an explicit `prune` call.
    #[allow(unused_variables)]
    pub fn update(&mut self, now: u64, price: Decimal, max_age: u64) -> (r: Result<
        (),
        TwapError,
    >)
        requires
            old(self).wf(),
            old(self).update_fits(now, price),
        ensures
            final(self).wf(),
            old(self).head() is None ==> r == Ok::<(), TwapError>(()) && final(self).entries()
                == old(self).entries().push(entry(now, 0)),
            old(self).head() matches Some(prev) ==> if prev.timestamp < now {
                r == Ok::<(), TwapError>(()) && final(self).entries() == old(
                    self,
                ).entries().push(entry(now, next_value(prev, now, price) as u128))
            } else {
                r == Err::<(), TwapError>(TwapError::TemporalOrderViolation) && *final(self)
                    == *old(self)
            },
    {
        match self.ledger.latest() {
            None => {
                self.ledger.append(now, Decimal::zero());
                Ok(())
            },
            Some(prev) => {
                if now <= prev.timestamp {
                    return Err(TwapError::TemporalOrderViolation);
                }
                let dt = now - prev.timestamp;
                let grown = price.atomics * (dt as u128);
                let v_new = prev.value.atomics + grown;
                self.ledger.append(now, Decimal::from_atomics(v_new));
                Ok(())
            },
        }
    }

    /// Answer a price query: the average price between `timestamp - offset`
    /// and `timestamp`, interpolated from the two nearest bracketing ledger
    /// entries, which are returned verbatim alongside the price.
    ///
    /// Fails with `InvalidInput` when the offset exceeds the timestamp, with
    /// `NotFound` when either window edge has no entry at or before it, and
    /// with `DegenerateWindow` when both edges resolve to the same entry.
    pub fn price(&self, timestamp: u64, offset: u64) -> (r: Result<PriceResponse, TwapError>)
        requires
            self.wf(),
        ensures
            match (r, self.price_spec(timestamp, offset)) {
                (Ok(p), Ok(pair)) => p.price.atomics == twap_of(pair.0, pair.1) && p.raw[0] == cum(
                    pair.0,
                ) && p.raw[1] == cum(pair.1),
                (Err(a), Err(b)) => a == b,
                _ => false,
            },
    {
        if offset > timestamp {
            return Err(TwapError::InvalidInput);
        }
        let e1 = match self.ledger.at_or_before(timestamp) {
            None => return Err(TwapError::NotFound),
            Some(e) => e,
        };
        let e0 = match self.ledger.at_or_before(timestamp - offset) {
            None => return Err(TwapError::NotFound),
            Some(e) => e,
        };
        if e0.timestamp == e1.timestamp {
            return Err(TwapError::DegenerateWindow);
        }
        proof {
            lemma_at_or_before_ordered(self.entries(), (timestamp - offset) as u64, timestamp);
        }
        let dt = e1.timestamp - e0.timestamp;
        let diff = e1.value.atomics - e0.value.atomics;
        let avg = diff / (dt as u128);
        Ok(
            PriceResponse {
                price: Decimal { atomics: avg },
                raw: [
                    CumulativePriceResponse { timestamp: e0.timestamp, value: e0.value },
                    CumulativePriceResponse { timestamp: e1.timestamp, value: e1.value },
                ],
            },
        )
    }

    /// Discard history older than the retention window: with head time `now`
    /// and window `max_age`, entries older than `now - max_age` are pruned,
    /// always retaining the youngest entry at or before the cutoff as the
    /// bracketing point for in-window queries.
    pub fn prune(&mut self, now: u64, max_age: u64)
        requires
            old(self).wf(),
        ensures
            final(self).wf(),
            final(self).entries() == prune_spec(
                old(self).entries(),
                if max_age <= now {
                    (now - max_age) as u64
                } else {
                    0
                },
            ),
    {
        let cutoff = if max_age <= now {
            now - max_age
        } else {
            0
        };
        self.ledger.prune(cutoff);
    }
}

} // verus!
