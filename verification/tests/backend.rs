//! Behavior of the aggregation backend: registration, counters, gauges,
//! histograms.

use metrics_backend::recorder::Recorder;

/// Add `delta` to a gauge the way a concurrent caller must: load the bit
/// pattern, compute the new value, and retry the compare-exchange until it
/// succeeds.
fn gauge_add(rec: &mut Recorder, h: usize, delta: f64) {
    loop {
        let cur = rec.gauge_load(h);
        let new = f64::from_bits(cur) + delta;
        if rec.gauge_compare_exchange(h, cur, new.to_bits()) {
            break;
        }
    }
}

#[test]
fn register_is_idempotent() {
    let mut rec = Recorder::new();
    let h1 = rec.register_counter(&"requests".to_string());
    let h2 = rec.register_counter(&"requests".to_string());
    let h3 = rec.register_counter(&"requests".to_string());
    assert_eq!(h1, h2);
    assert_eq!(h1, h3);
    assert_eq!(rec.counter_count(), 1);
    // A mutation through one handle is visible through every other.
    rec.counter_increment(h1, 7);
    assert_eq!(rec.counter_value(h2), 7);
}

#[test]
fn kinds_are_independent() {
    let mut rec = Recorder::new();
    let hc = rec.register_counter(&"x".to_string());
    let hg = rec.register_gauge(&"x".to_string());
    let hh = rec.register_histogram(&"x".to_string());
    rec.counter_increment(hc, 41);
    assert_eq!(rec.gauge_load(hg), 0);
    assert_eq!(rec.histogram_len(hh), 0);
    gauge_add(&mut rec, hg, 2.5);
    assert_eq!(rec.counter_value(hc), 41);
    assert_eq!(rec.histogram_len(hh), 0);
    rec.histogram_record(hh, 0.25f64.to_bits());
    assert_eq!(rec.counter_value(hc), 41);
    assert_eq!(f64::from_bits(rec.gauge_load(hg)), 2.5);
}

#[test]
fn counter_three_increments() {
    let mut rec = Recorder::new();
    let h = rec.register_counter(&"add".to_string());
    rec.counter_increment(h, 1);
    rec.counter_increment(h, 1);
    rec.counter_increment(h, 1);
    assert_eq!(rec.counter_value(h), 3);
}

#[test]
fn counter_value_is_sum_of_deltas() {
    let mut rec = Recorder::new();
    let h = rec.register_counter(&"bytes".to_string());
    let deltas: [u64; 5] = [3, 0, 14, 7, 100];
    for d in deltas {
        rec.counter_increment(h, d);
    }
    assert_eq!(rec.counter_value(h), 124);
}

#[test]
fn counter_wraps_on_overflow() {
    let mut rec = Recorder::new();
    let h = rec.register_counter(&"wrap".to_string());
    rec.counter_increment(h, u64::MAX);
    rec.counter_increment(h, 2);
    assert_eq!(rec.counter_value(h), 1);
}

#[test]
fn fresh_gauge_reads_zero() {
    let mut rec = Recorder::new();
    let h = rec.register_gauge(&"total".to_string());
    assert_eq!(f64::from_bits(rec.gauge_load(h)), 0.0);
}

#[test]
fn gauge_add_and_subtract() {
    let mut rec = Recorder::new();
    let h = rec.register_gauge(&"total".to_string());
    gauge_add(&mut rec, h, 1.0);
    gauge_add(&mut rec, h, -1.0);
    gauge_add(&mut rec, h, 1.0);
    assert_eq!(f64::from_bits(rec.gauge_load(h)), 1.0);
}

#[test]
fn gauge_exchange_refuses_stale_pattern() {
    let mut rec = Recorder::new();
    let h = rec.register_gauge(&"total".to_string());
    // One caller loads the current pattern ...
    let seen = rec.gauge_load(h);
    // ... another caller updates the gauge first ...
    gauge_add(&mut rec, h, 4.0);
    // ... so the first caller's exchange must fail and lose nothing, and its
    // retry from the fresh pattern must succeed: no update is ever lost.
    let stale = (f64::from_bits(seen) + 1.0).to_bits();
    assert!(!rec.gauge_compare_exchange(h, seen, stale));
    assert_eq!(f64::from_bits(rec.gauge_load(h)), 4.0);
    gauge_add(&mut rec, h, 1.0);
    assert_eq!(f64::from_bits(rec.gauge_load(h)), 5.0);
}

#[test]
fn gauge_store_sets_absolute_value() {
    let mut rec = Recorder::new();
    let h = rec.register_gauge(&"level".to_string());
    gauge_add(&mut rec, h, 8.0);
    rec.gauge_store(h, 2.25f64.to_bits());
    assert_eq!(f64::from_bits(rec.gauge_load(h)), 2.25);
}

#[test]
fn histogram_keeps_every_observation() {
    let mut rec = Recorder::new();
    let h = rec.register_histogram(&"lat".to_string());
    let values: [f64; 7] = [0.1, 0.2, 0.05, 0.3, 0.15, 0.4, 0.2];
    for v in values {
        rec.histogram_record(h, v.to_bits());
    }
    let stored = rec.histogram_values(h);
    assert_eq!(stored.len(), values.len());
    for (i, v) in values.iter().enumerate() {
        assert_eq!(f64::from_bits(stored[i]), *v);
    }
}

#[test]
fn empty_histogram_stays_empty() {
    let mut rec = Recorder::new();
    let h = rec.register_histogram(&"lat".to_string());
    assert_eq!(rec.histogram_len(h), 0);
    assert!(rec.histogram_values(h).is_empty());
}

#[test]
fn increment_counter_by_name() {
    let mut rec = Recorder::new();
    rec.increment_counter(&"hits".to_string(), 5);
    rec.increment_counter(&"hits".to_string(), 5);
    rec.increment_counter(&"misses".to_string(), 1);
    let h = rec.register_counter(&"hits".to_string());
    assert_eq!(rec.counter_value(h), 10);
    let m = rec.register_counter(&"misses".to_string());
    assert_eq!(rec.counter_value(m), 1);
    assert_eq!(rec.counter_count(), 2);
}

#[test]
fn record_histogram_by_name() {
    let mut rec = Recorder::new();
    rec.record_histogram(&"lat".to_string(), 0.5f64.to_bits());
    rec.record_histogram(&"lat".to_string(), 0.75f64.to_bits());
    let h = rec.register_histogram(&"lat".to_string());
    assert_eq!(rec.histogram_len(h), 2);
    assert_eq!(f64::from_bits(rec.histogram_values(h)[0]), 0.5);
    assert_eq!(f64::from_bits(rec.histogram_values(h)[1]), 0.75);
}

#[test]
fn describe_does_nothing() {
    let mut rec = Recorder::new();
    let h = rec.register_counter(&"n".to_string());
    rec.counter_increment(h, 3);
    rec.describe_counter(&"n".to_string(), None, "a counter");
    rec.describe_gauge(&"g".to_string(), None, "a gauge");
    rec.describe_histogram(&"h".to_string(), None, "a histogram");
    assert_eq!(rec.counter_count(), 1);
    assert_eq!(rec.gauge_count(), 0);
    assert_eq!(rec.histogram_count(), 0);
    assert_eq!(rec.counter_value(h), 3);
}
