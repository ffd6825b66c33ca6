use mdingest::aggregate::{AggregationError, Aggregator};

const T0: i64 = 1_700_000_000;

#[test]
fn buy_then_sell_accumulates() {
    let mut agg = Aggregator::new();
    let first = agg.update("EURUSD", "B", 10, T0).unwrap();
    assert_eq!(first.cum_buy, 10);
    assert_eq!(first.cum_sell, 0);
    assert_eq!(first.cum_delta, 10);
    let second = agg.update("EURUSD", "S", 3, T0 + 1).unwrap();
    assert_eq!(second.cum_buy, 10);
    assert_eq!(second.cum_sell, 3);
    assert_eq!(second.cum_delta, 7);
}

#[test]
fn next_day_resets_before_applying() {
    let mut agg = Aggregator::new();
    agg.update("EURUSD", "B", 10, T0).unwrap();
    agg.update("EURUSD", "S", 3, T0 + 1).unwrap();
    let third = agg.update("EURUSD", "B", 5, T0 + 86400).unwrap();
    assert_eq!(third.cum_buy, 5);
    assert_eq!(third.cum_sell, 0);
    assert_eq!(third.cum_delta, 5);
}

#[test]
fn single_day_delta_is_signed_volume_sum() {
    let mut agg = Aggregator::new();
    let ticks = [("B", 4), ("S", 1), ("B", 2), ("X", 100), ("S", 3)];
    let mut last = None;
    for (i, (ty, vol)) in ticks.iter().enumerate() {
        last = Some(agg.update("GBPUSD", ty, *vol, T0 + i as i64).unwrap());
    }
    let last = last.unwrap();
    assert_eq!(last.cum_buy, 6);
    assert_eq!(last.cum_sell, 4);
    assert_eq!(last.cum_delta, 2);
}

#[test]
fn other_symbols_crossing_leaves_counters() {
    let mut agg = Aggregator::new();
    agg.update("EURUSD", "B", 10, T0).unwrap();
    agg.update("GBPUSD", "B", 7, T0 + 86400).unwrap();
    // The boundary was observed through GBPUSD's tick; EURUSD still holds
    // its counters and loses them only through its own later tick.
    let same_day = agg.update("EURUSD", "B", 1, T0 + 86400 + 10).unwrap();
    assert_eq!(same_day.cum_buy, 11);
    let next_day = agg.update("EURUSD", "B", 1, T0 + 2 * 86400).unwrap();
    assert_eq!(next_day.cum_buy, 1);
}

#[test]
fn unknown_trade_type_keeps_counters() {
    let mut agg = Aggregator::new();
    agg.update("EURUSD", "B", 10, T0).unwrap();
    let r = agg.update("EURUSD", "Q", 99, T0 + 1).unwrap();
    assert_eq!(r.cum_buy, 10);
    assert_eq!(r.cum_sell, 0);
    assert_eq!(r.cum_delta, 10);
}

#[test]
fn pre_epoch_time_is_rejected_and_state_kept() {
    let mut agg = Aggregator::new();
    agg.update("EURUSD", "B", 10, T0).unwrap();
    let err = agg.update("EURUSD", "B", 5, -1).unwrap_err();
    assert_eq!(err, AggregationError::TimeBeforeEpoch);
    let after = agg.update("EURUSD", "S", 2, T0 + 1).unwrap();
    assert_eq!(after.cum_buy, 10);
    assert_eq!(after.cum_sell, 2);
}

#[test]
fn counter_overflow_is_rejected_and_state_kept() {
    let mut agg = Aggregator::new();
    agg.update("EURUSD", "B", i32::MAX, T0).unwrap();
    let err = agg.update("EURUSD", "B", 1, T0 + 1).unwrap_err();
    assert_eq!(err, AggregationError::CounterOverflow);
    let after = agg.update("EURUSD", "S", 1, T0 + 2).unwrap();
    assert_eq!(after.cum_buy, i32::MAX);
    assert_eq!(after.cum_sell, 1);
}

#[test]
fn delta_overflow_is_rejected() {
    let mut agg = Aggregator::new();
    // Negative volumes drive one side below zero so that the difference
    // leaves the 32-bit range while both sides stay inside it.
    agg.update("EURUSD", "S", i32::MIN + 1, T0).unwrap();
    let err = agg.update("EURUSD", "B", 2, T0 + 1).unwrap_err();
    assert_eq!(err, AggregationError::CounterOverflow);
}
