use twap_oracle::config::Config;
use twap_oracle::config::InstantiateMsg;
use twap_oracle::decimal::Decimal;
use twap_oracle::decimal::DECIMAL_FRACTIONAL;
use twap_oracle::error::TwapError;
use twap_oracle::ledger::CumulativeLedger;
use twap_oracle::ledger::Entry;
use twap_oracle::twap::TWAP;

fn whole(n: u64) -> Decimal {
    Decimal::from_whole(n)
}

#[test]
fn bootstrap_first_update_writes_zero() {
    // The first update establishes the baseline entry with cumulative value
    // exactly zero, regardless of the supplied spot price.
    let mut t = TWAP::new();
    assert_eq!(t.update(42, whole(12345), 1000), Ok(()));
    let head = t.ledger.latest().unwrap();
    assert_eq!(head.timestamp, 42);
    assert_eq!(head.value.atomics, 0);
}

#[test]
fn worked_example_price_five() {
    // update(t=0, price=0) -> {0: 0}; update(t=100, price=2) -> {100: 200};
    // update(t=200, price=5) -> {200: 700}; price(200, 100) = (700-200)/100 = 5.
    let mut t = TWAP::new();
    assert_eq!(t.update(0, whole(0), 1000), Ok(()));
    assert_eq!(t.update(100, whole(2), 1000), Ok(()));
    assert_eq!(t.update(200, whole(5), 1000), Ok(()));
    let resp = t.price(200, 100).unwrap();
    assert_eq!(resp.price.atomics, 5 * DECIMAL_FRACTIONAL);
    assert_eq!(resp.raw[0].timestamp, 100);
    assert_eq!(resp.raw[0].value.atomics, 200 * DECIMAL_FRACTIONAL);
    assert_eq!(resp.raw[1].timestamp, 200);
    assert_eq!(resp.raw[1].value.atomics, 700 * DECIMAL_FRACTIONAL);
}

#[test]
fn cumulative_values_accumulate() {
    let mut t = TWAP::new();
    assert_eq!(t.update(0, whole(0), 1000), Ok(()));
    assert_eq!(t.update(100, whole(2), 1000), Ok(()));
    assert_eq!(t.update(200, whole(5), 1000), Ok(()));
    let e0 = t.ledger.at_or_before(0).unwrap();
    let e1 = t.ledger.at_or_before(100).unwrap();
    let e2 = t.ledger.at_or_before(200).unwrap();
    assert_eq!(e0.value.atomics, 0);
    assert_eq!(e1.value.atomics, 200 * DECIMAL_FRACTIONAL);
    assert_eq!(e2.value.atomics, 700 * DECIMAL_FRACTIONAL);
    // Monotone values, strictly increasing timestamps.
    assert!(e0.timestamp < e1.timestamp && e1.timestamp < e2.timestamp);
    assert!(e0.value.atomics <= e1.value.atomics && e1.value.atomics <= e2.value.atomics);
}

#[test]
fn degenerate_window_same_entry() {
    // With entries only at t=0 and t=100, both bounds of price(50, 50)
    // resolve to the entry at t=0: the window is degenerate.
    let mut t = TWAP::new();
    assert_eq!(t.update(0, whole(3), 1000), Ok(()));
    assert_eq!(t.update(100, whole(4), 1000), Ok(()));
    assert_eq!(t.price(50, 50).unwrap_err(), TwapError::DegenerateWindow);
}

#[test]
fn not_found_empty_ledger() {
    let t = TWAP::new();
    assert_eq!(t.price(50, 10).unwrap_err(), TwapError::NotFound);
}

#[test]
fn not_found_before_first_entry() {
    let mut t = TWAP::new();
    assert_eq!(t.update(100, whole(1), 1000), Ok(()));
    // Upper bound earlier than the first entry.
    assert_eq!(t.price(50, 0).unwrap_err(), TwapError::NotFound);
    // Upper bound resolves, lower bound falls before the first entry.
    assert_eq!(t.update(200, whole(1), 1000), Ok(()));
    assert_eq!(t.price(200, 150).unwrap_err(), TwapError::NotFound);
}

#[test]
fn temporal_order_violation() {
    let mut t = TWAP::new();
    assert_eq!(t.update(100, whole(1), 1000), Ok(()));
    // Earlier than the head: refused, ledger unchanged.
    assert_eq!(
        t.update(50, whole(1), 1000),
        Err(TwapError::TemporalOrderViolation)
    );
    // Equal to the head: also refused.
    assert_eq!(
        t.update(100, whole(1), 1000),
        Err(TwapError::TemporalOrderViolation)
    );
    let head = t.ledger.latest().unwrap();
    assert_eq!(head.timestamp, 100);
    assert_eq!(head.value.atomics, 0);
}

#[test]
fn invalid_input_offset_exceeds_timestamp() {
    let mut t = TWAP::new();
    assert_eq!(t.update(0, whole(1), 1000), Ok(()));
    assert_eq!(t.update(100, whole(1), 1000), Ok(()));
    assert_eq!(t.price(50, 60).unwrap_err(), TwapError::InvalidInput);
}

#[test]
fn append_then_lookup_round_trip() {
    // A successful append followed immediately by at_or_before at that exact
    // timestamp returns the just-written value unchanged.
    let mut l = CumulativeLedger::new();
    l.append(10, Decimal::from_atomics(0));
    l.append(20, Decimal::from_atomics(7));
    assert_eq!(
        l.at_or_before(20),
        Some(Entry {
            timestamp: 20,
            value: Decimal::from_atomics(7)
        })
    );
    l.append(35, Decimal::from_atomics(9));
    assert_eq!(
        l.at_or_before(35),
        Some(Entry {
            timestamp: 35,
            value: Decimal::from_atomics(9)
        })
    );
}

#[test]
fn at_or_before_picks_greatest_not_exceeding() {
    let mut l = CumulativeLedger::new();
    l.append(10, Decimal::from_atomics(0));
    l.append(20, Decimal::from_atomics(5));
    l.append(30, Decimal::from_atomics(11));
    assert_eq!(l.at_or_before(5), None);
    assert_eq!(l.at_or_before(10).unwrap().timestamp, 10);
    assert_eq!(l.at_or_before(25).unwrap().timestamp, 20);
    assert_eq!(l.at_or_before(1000).unwrap().timestamp, 30);
}

#[test]
fn latest_returns_head() {
    let mut l = CumulativeLedger::new();
    assert_eq!(l.latest(), None);
    l.append(10, Decimal::from_atomics(0));
    l.append(25, Decimal::from_atomics(3));
    assert_eq!(l.latest().unwrap().timestamp, 25);
}

#[test]
fn price_floors_at_one_atomic() {
    // A window spanning updates of different prices: the quotient is floored
    // at one atomic unit.
    let mut t = TWAP::new();
    assert_eq!(t.update(0, whole(0), 1000), Ok(()));
    assert_eq!(t.update(100, whole(2), 1000), Ok(()));
    assert_eq!(t.update(137, whole(5), 1000), Ok(()));
    // Cumulative at 137: 200e18 + 5e18 * 37 = 385e18.
    let resp = t.price(137, 137).unwrap();
    assert_eq!(resp.price.atomics, 385 * DECIMAL_FRACTIONAL / 137);
}

#[test]
fn prune_discards_stale_keeps_bracket() {
    let mut t = TWAP::new();
    assert_eq!(t.update(0, whole(0), 1000), Ok(()));
    assert_eq!(t.update(100, whole(2), 1000), Ok(()));
    assert_eq!(t.update(200, whole(5), 1000), Ok(()));
    assert_eq!(t.update(300, whole(1), 1000), Ok(()));
    let before = t.price(250, 100).unwrap();
    // Head at 300, retention 150 seconds: cutoff 150. The entry at 0 goes;
    // the entry at 100 stays as the bracketing point for the cutoff.
    t.prune(300, 150);
    assert_eq!(t.ledger.latest().unwrap().timestamp, 300);
    assert_eq!(t.ledger.at_or_before(99), None);
    assert_eq!(t.ledger.at_or_before(150).unwrap().timestamp, 100);
    // In-window queries are unchanged by pruning.
    let after = t.price(250, 100).unwrap();
    assert_eq!(after.price.atomics, before.price.atomics);
    assert_eq!(after.raw[0].timestamp, before.raw[0].timestamp);
    assert_eq!(after.raw[1].timestamp, before.raw[1].timestamp);
}

#[test]
fn prune_never_empties_ledger() {
    let mut t = TWAP::new();
    assert_eq!(t.update(10, whole(1), 1000), Ok(()));
    assert_eq!(t.update(20, whole(1), 1000), Ok(()));
    // Cutoff far past every entry: only the head survives.
    t.prune(100_000, 0);
    assert_eq!(t.ledger.latest().unwrap().timestamp, 20);
    assert_eq!(t.ledger.at_or_before(19), None);
}

#[test]
fn prune_with_large_window_keeps_all() {
    let mut t = TWAP::new();
    assert_eq!(t.update(10, whole(1), 1000), Ok(()));
    assert_eq!(t.update(20, whole(1), 1000), Ok(()));
    // max_age larger than the head time: nothing can be stale.
    t.prune(20, 1000);
    assert_eq!(t.ledger.at_or_before(10).unwrap().timestamp, 10);
}

#[test]
fn update_continues_after_prune() {
    let mut t = TWAP::new();
    assert_eq!(t.update(0, whole(0), 1000), Ok(()));
    assert_eq!(t.update(100, whole(2), 1000), Ok(()));
    t.prune(100, 0);
    // The cumulative sum keeps growing from the retained head.
    assert_eq!(t.update(200, whole(5), 1000), Ok(()));
    let head = t.ledger.latest().unwrap();
    assert_eq!(head.timestamp, 200);
    assert_eq!(head.value.atomics, 700 * DECIMAL_FRACTIONAL);
}

#[test]
fn decimal_constructors() {
    assert_eq!(Decimal::zero().atomics, 0);
    assert_eq!(Decimal::from_atomics(17).atomics, 17);
    assert_eq!(whole(2).atomics, 2 * DECIMAL_FRACTIONAL);
    assert_eq!(whole(u64::MAX).atomics, u64::MAX as u128 * DECIMAL_FRACTIONAL);
}

#[test]
fn config_from_msg_carries_fields() {
    let msg = InstantiateMsg {
        owner: String::from("owner-address"),
        max_age: 86400,
    };
    let config = Config::from(msg);
    assert_eq!(config.owner, "owner-address");
    assert_eq!(config.max_age, 86400);
}
