//! The error kinds surfaced by the ledger and the engine.

use vstd::prelude::*;

verus! {

/// An error of an `update` or `price` operation. The core never recovers
/// from these locally: they are surfaced verbatim to the caller.
#[derive(Clone, Copy, PartialEq, Eq, Structural, Debug)]
pub enum TwapError {
    /// No ledger entry exists at or before a required bound.
    NotFound,
    /// Both window bounds resolved to the same ledger entry, so the time
    /// delta of the interpolation would be zero.
    DegenerateWindow,
    /// The caller supplied a timestamp not later than the ledger's current
    /// head.
    TemporalOrderViolation,
    /// The underlying persistence layer failed a read or a write. The
    /// in-memory ledger of this crate never raises it; a caller that backs
    /// the ledger with an external store maps that store's failures to it.
    StorageFailure,
    /// The query window is ill-formed: the offset exceeds the timestamp.
    InvalidInput,
}

} // verus!
