//! The textual snapshot: decimal counters, caller-supplied floating-point
//! texts, and the five-observation display bound of histograms.

use metrics_backend::recorder::Recorder;
use metrics_backend::render::{histogram_visible, render_histogram, render_snapshot, render_u64};

/// The floating-point text of one stored bit pattern, as the snapshot of the
/// backend displays it.
fn float_text(bits: u64) -> String {
    format!("{:?}", f64::from_bits(bits))
}

/// The texts that a snapshot of `rec` needs: one per gauge, and one per
/// displayed histogram observation.
fn snapshot_texts(rec: &Recorder) -> (Vec<String>, Vec<Vec<String>>) {
    let mut gauge_texts = Vec::new();
    for h in 0..rec.gauge_count() {
        gauge_texts.push(float_text(rec.gauge_load(h)));
    }
    let mut histogram_texts = Vec::new();
    for h in 0..rec.histogram_count() {
        let shown = histogram_visible(rec.histogram_values(h));
        histogram_texts.push(shown.iter().map(|b| float_text(*b)).collect());
    }
    (gauge_texts, histogram_texts)
}

#[test]
fn renders_u64_in_decimal() {
    assert_eq!(render_u64(0), "0");
    assert_eq!(render_u64(7), "7");
    assert_eq!(render_u64(42), "42");
    assert_eq!(render_u64(1203), "1203");
    assert_eq!(render_u64(u64::MAX), "18446744073709551615");
}

#[test]
fn three_observations_show_untruncated() {
    let mut rec = Recorder::new();
    let h = rec.register_histogram(&"lat".to_string());
    for v in [0.1f64, 0.2, 0.3] {
        rec.histogram_record(h, v.to_bits());
    }
    let shown = histogram_visible(rec.histogram_values(h));
    assert_eq!(shown.len(), 3);
    let texts: Vec<String> = shown.iter().map(|b| float_text(*b)).collect();
    let display = render_histogram(&texts, rec.histogram_len(h));
    assert_eq!(display, "[0.1, 0.2, 0.3]");
}

#[test]
fn seven_observations_show_five_and_marker() {
    let mut rec = Recorder::new();
    let h = rec.register_histogram(&"lat".to_string());
    for v in [0.1f64, 0.2, 0.3, 0.4, 0.5, 0.6, 0.7] {
        rec.histogram_record(h, v.to_bits());
    }
    let shown = histogram_visible(rec.histogram_values(h));
    assert_eq!(shown.len(), 5);
    let texts: Vec<String> = shown.iter().map(|b| float_text(*b)).collect();
    let display = render_histogram(&texts, rec.histogram_len(h));
    assert_eq!(display, "[0.1, 0.2, 0.3, 0.4, 0.5] and more ... ");
}

#[test]
fn five_observations_show_without_marker() {
    let mut rec = Recorder::new();
    let h = rec.register_histogram(&"lat".to_string());
    for v in [0.1f64, 0.2, 0.3, 0.4, 0.5] {
        rec.histogram_record(h, v.to_bits());
    }
    let shown = histogram_visible(rec.histogram_values(h));
    assert_eq!(shown.len(), 5);
    let texts: Vec<String> = shown.iter().map(|b| float_text(*b)).collect();
    assert_eq!(render_histogram(&texts, rec.histogram_len(h)), "[0.1, 0.2, 0.3, 0.4, 0.5]");
}

#[test]
fn six_recorded_values_render_first_five() {
    let mut rec = Recorder::new();
    let h = rec.register_histogram(&"add".to_string());
    for v in [0.1f64, 0.2, 0.05, 0.3, 0.15, 0.4] {
        rec.histogram_record(h, v.to_bits());
    }
    let (gauge_texts, histogram_texts) = snapshot_texts(&rec);
    let snapshot = render_snapshot(&rec, &gauge_texts, &histogram_texts);
    assert_eq!(
        snapshot,
        "Recorder { counters: {}, gauges: {}, histograms: \
         {\"add\": [0.1, 0.2, 0.05, 0.3, 0.15] and more ... } }"
    );
}

#[test]
fn empty_recorder_snapshot() {
    let rec = Recorder::new();
    let (gauge_texts, histogram_texts) = snapshot_texts(&rec);
    assert_eq!(
        render_snapshot(&rec, &gauge_texts, &histogram_texts),
        "Recorder { counters: {}, gauges: {}, histograms: {} }"
    );
}

#[test]
fn full_snapshot_lists_every_kind() {
    let mut rec = Recorder::new();
    let hc = rec.register_counter(&"add".to_string());
    rec.counter_increment(hc, 3);
    let hg = rec.register_gauge(&"total".to_string());
    rec.gauge_store(hg, 1.0f64.to_bits());
    let hh = rec.register_histogram(&"add".to_string());
    rec.histogram_record(hh, 0.1f64.to_bits());
    rec.histogram_record(hh, 0.2f64.to_bits());
    let hm = rec.register_counter(&"sub".to_string());
    rec.counter_increment(hm, 1);
    let (gauge_texts, histogram_texts) = snapshot_texts(&rec);
    let snapshot = render_snapshot(&rec, &gauge_texts, &histogram_texts);
    assert_eq!(
        snapshot,
        "Recorder { counters: {\"add\": 3, \"sub\": 1}, gauges: {\"total\": 1.0}, \
         histograms: {\"add\": [0.1, 0.2]} }"
    );
}
