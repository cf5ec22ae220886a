use hint_control::history::{
    collect_bounds, current_value, current_value_label, graph_bounds, metric_path, MetricRing,
    SignalHistory, Switches, MAX_SAMPLES,
};
use hint_control::snapshot::SignalMetrics;
use hint_control::time::{Duration, Instant};

const NOW: Instant = Instant { nanos: 1_000_000_000_000 };

const ALL_ON: Switches = Switches { rsrp: true, rsrq: true, rssi: true, sinr: true, cqi: true };

fn ago(secs: u64) -> Instant {
    Instant { nanos: NOW.nanos - Duration::from_secs(secs).nanos }
}

#[test]
fn metric_ring_retains_only_the_fixed_sample_window() {
    let mut ring = MetricRing::default();
    let start = NOW;

    for index in 0..(MAX_SAMPLES + 5) {
        ring.push(start.plus(Duration::from_secs(index as u64)), Some(index as i64));
    }

    assert_eq!(ring.values.len(), MAX_SAMPLES);
    assert_eq!(ring.values.front().unwrap().value.unwrap() as f64, 5.0);
    assert_eq!(ring.values.back().unwrap().value.unwrap() as f64, (MAX_SAMPLES + 4) as f64);
}

#[test]
fn metric_ring_iter_visible_filters_samples_outside_time_window() {
    let mut ring = MetricRing::default();
    let now = NOW;

    ring.push(ago(121), Some(-100));
    ring.push(ago(120), Some(-90));
    ring.push(now, Some(-80));

    let values: Vec<f64> =
        ring.iter_visible(now).iter().map(|sample| sample.value.unwrap() as f64).collect();
    assert_eq!(values, vec![-90.0, -80.0]);
}

#[test]
fn a_ring_keeps_the_order_of_its_samples() {
    let mut ring = MetricRing::default();
    for value in 0..40 {
        ring.push(NOW, Some(value));
    }
    let kept: Vec<Option<i64>> = ring.values.iter().map(|sample| sample.value).collect();
    let wanted: Vec<Option<i64>> = (8..40).map(Some).collect();
    assert_eq!(kept, wanted);
}

#[test]
fn a_sample_just_past_the_window_is_hidden() {
    let mut ring = MetricRing::default();
    ring.push(Instant { nanos: ago(120).nanos - 1 }, Some(1));
    ring.push(NOW.plus(Duration::from_secs(5)), Some(2));
    let shown = ring.iter_visible(NOW);
    assert_eq!(shown.len(), 1);
    assert_eq!(shown[0].value, Some(2));
}

#[test]
fn missing_metrics_leave_a_gap_in_every_ring() {
    let mut history = SignalHistory::default();
    let metrics = SignalMetrics {
        rsrp: Some(-95),
        rsrq: Some(-11),
        rssi: None,
        sinr: Some(12),
        cqi: Some(9),
    };
    history.push(ago(5), Some(&metrics));
    history.push(NOW, None);
    assert_eq!(history.rsrp.values[0].value, Some(-95));
    assert_eq!(history.rsrq.values[0].value, Some(-11));
    assert_eq!(history.rssi.values[0].value, None);
    assert_eq!(history.sinr.values[0].value, Some(12));
    assert_eq!(history.cqi.values[0].value, Some(9));
    assert_eq!(history.rsrp.values[1].value, None);
    assert_eq!(history.cqi.values[1].value, None);
    assert_eq!(history.cqi.values[1].at, NOW);
}

#[test]
fn bounds_span_the_figures_that_are_shown() {
    let mut history = SignalHistory::default();
    let metrics = SignalMetrics {
        rsrp: Some(-95),
        rsrq: Some(-11),
        rssi: Some(-70),
        sinr: Some(12),
        cqi: None,
    };
    history.push(NOW, Some(&metrics));
    assert_eq!(graph_bounds(&history, ALL_ON, NOW), Some((-95, 12)));
    let some = Switches { rsrp: false, sinr: false, ..ALL_ON };
    assert_eq!(graph_bounds(&history, some, NOW), Some((-70, -11)));
    let later = NOW.plus(Duration::from_secs(121));
    assert_eq!(graph_bounds(&history, ALL_ON, later), None);
}

#[test]
fn bounds_widen_and_gaps_do_not_count() {
    let mut ring = MetricRing::default();
    ring.push(NOW, None);
    assert_eq!(collect_bounds(&ring, true, NOW, None), None);
    ring.push(NOW, Some(3));
    assert_eq!(collect_bounds(&ring, true, NOW, None), Some((3, 3)));
    assert_eq!(collect_bounds(&ring, true, NOW, Some((5, 9))), Some((3, 9)));
    assert_eq!(collect_bounds(&ring, true, NOW, Some((0, 1))), Some((0, 3)));
    assert_eq!(collect_bounds(&ring, false, NOW, Some((5, 9))), Some((5, 9)));
}

#[test]
fn the_current_value_is_the_latest_figure() {
    let mut ring = MetricRing::default();
    assert_eq!(current_value(&ring, true, NOW), None);
    ring.push(ago(10), Some(-90));
    ring.push(ago(5), Some(-91));
    ring.push(NOW, None);
    assert_eq!(current_value(&ring, true, NOW), Some(-91));
    assert_eq!(current_value(&ring, false, NOW), None);
}

#[test]
fn the_latest_figure_is_written_as_it_is_drawn() {
    let far = 1i64 << 53;
    let values = [
        0, 7, -95, far, far + 1, -far - 1, far + 3, 2 * far - 1, 4 * far + 4, 4 * far + 12,
        i64::MAX, i64::MIN, i64::MAX - 511, i64::MAX - 512,
    ];
    for value in values {
        let mut ring = MetricRing::default();
        ring.push(NOW, Some(value));
        assert_eq!(
            current_value_label("RSRP", &ring, true, NOW),
            Some(format!("{:.0} (RSRP)", value as f64))
        );
        assert_eq!(current_value_label("RSRP", &ring, false, NOW), None);
    }
    let mut ring = MetricRing::default();
    ring.push(NOW, Some(-95));
    assert_eq!(current_value_label("RSRP", &ring, true, NOW).as_deref(), Some("-95 (RSRP)"));
}

#[test]
fn a_gap_breaks_the_curve() {
    let mut ring = MetricRing::default();
    ring.push(ago(200), Some(1));
    ring.push(ago(20), Some(2));
    ring.push(ago(15), Some(3));
    ring.push(ago(10), None);
    ring.push(ago(5), Some(4));
    let path = metric_path(&ring, true, NOW);
    let points: Vec<(bool, u128, i64)> = path
        .iter()
        .map(|point| (point.starts, point.age.nanos / 1_000_000_000, point.value))
        .collect();
    assert_eq!(points, vec![(true, 20, 2), (false, 15, 3), (true, 5, 4)]);
    assert!(metric_path(&ring, false, NOW).is_empty());
}

#[test]
fn curves_lie_within_the_bounds_of_their_graph() {
    let mut history = SignalHistory::default();
    for step in 0..20 {
        let metrics = SignalMetrics {
            rsrp: Some(-100 + step),
            rsrq: Some(-20 + 2 * step),
            rssi: None,
            sinr: Some(30 - step),
            cqi: Some(step),
        };
        history.push(ago(100 - 5 * step as u64), Some(&metrics));
    }
    let (low, high) = graph_bounds(&history, ALL_ON, NOW).unwrap();
    assert_eq!((low, high), (-100, 30));
    for ring in [&history.rsrp, &history.rsrq, &history.rssi, &history.sinr, &history.cqi] {
        for point in metric_path(ring, true, NOW) {
            assert!(low <= point.value && point.value <= high);
        }
    }
}
