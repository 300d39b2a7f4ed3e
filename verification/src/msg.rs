//! Query response payloads.

use vstd::prelude::*;

use crate::decimal::Decimal;
use crate::ledger::Entry;

verus! {

/// One raw cumulative sample: a ledger entry as returned to a caller.
#[derive(Clone, Copy, PartialEq, Eq, Structural, Debug)]
pub struct CumulativePriceResponse {
    pub timestamp: u64,
    pub value: Decimal,
}

/// The answer to a price query: the interpolated average price, together
/// with the two raw bracketing samples it was derived from, included
/// verbatim so that callers can audit the interpolation.
#[derive(Clone, Copy, Debug)]
pub struct PriceResponse {
    /// The time-weighted average price over the requested window.
    pub price: Decimal,
    /// The two raw cumulative entries used: the earlier bracketing point
    /// first, the later one second.
    pub raw: [CumulativePriceResponse; 2],
}

/// The raw sample corresponding to a ledger entry.
pub open spec fn cum(e: Entry) -> CumulativePriceResponse {
    CumulativePriceResponse { timestamp: e.timestamp, value: e.value }
}

} // verus!
