use the_bridge::metrics::MetricsCollector;

#[test]
fn inc_orders_counts_correctly() {
    let mut m = MetricsCollector::new();
    m.inc_orders();
    m.inc_orders();
    m.inc_orders();
    let snap = m.snapshot();
    assert_eq!(snap.tps_current, 3);
}

#[test]
fn snapshot_resets_counters() {
    let mut m = MetricsCollector::new();
    m.inc_orders();
    m.inc_trades();
    m.snapshot();

    let snap2 = m.snapshot();
    assert_eq!(snap2.tps_current, 0);
    assert_eq!(snap2.trades, 0);
}

#[test]
fn peak_tps_tracks_maximum() {
    let mut m = MetricsCollector::new();
    for _ in 0..100 {
        m.inc_orders();
    }
    m.snapshot();

    m.inc_orders();
    let snap = m.snapshot();
    assert_eq!(snap.tps_current, 1);
    assert_eq!(snap.tps_peak, 100);
}

#[test]
fn record_latency_buckets() {
    let mut m = MetricsCollector::new();
    m.record_latency(3);
    m.record_latency(100);
    m.record_latency(9999);
    m.prometheus_text();
}

#[test]
fn health_toggle() {
    let mut m = MetricsCollector::new();
    assert!(m.snapshot_at(0).health);
    m.set_health(false);
    let snap = m.snapshot();
    assert_eq!(snap.health, false);
}

#[test]
fn prometheus_text_contains_all_metrics() {
    let mut m = MetricsCollector::new();
    m.inc_orders();
    m.inc_trades();
    let text = m.prometheus_text();
    assert!(text.contains("the_bridge_orders_total"));
    assert!(text.contains("the_bridge_trades_total"));
    assert!(text.contains("the_bridge_health"));
    assert!(text.contains("the_bridge_uptime_seconds"));
    assert!(text.contains("the_bridge_peak_tps"));
}

#[test]
fn inc_trades_by_adds_correctly() {
    let mut m = MetricsCollector::new();
    m.inc_trades_by(500);
    m.inc_trades_by(300);
    let snap = m.snapshot();
    assert_eq!(snap.trades, 800);
}

#[test]
fn add_volume_cents_and_snapshot() {
    let mut m = MetricsCollector::new();
    m.add_volume_cents(12345);
    m.add_volume_cents(6789);
    let snap = m.snapshot();
    assert_eq!(snap.volume_cents, 19134);
    let again = m.snapshot();
    assert_eq!(again.volume_cents, 0);
}

#[test]
fn snapshot_at_reads_every_counter() {
    let mut m = MetricsCollector::new();
    m.inc_orders();
    m.inc_orders();
    m.inc_trades_by(7);
    m.inc_dot();
    m.inc_fix();
    m.inc_fix();
    m.inc_errors();
    let s = m.snapshot_at(42);
    assert_eq!(s.tps_current, 2);
    assert_eq!(s.tps_peak, 2);
    assert_eq!(s.trades, 7);
    assert_eq!(s.dot, 1);
    assert_eq!(s.fix, 2);
    assert_eq!(s.errors, 1);
    assert!(s.health);
    assert_eq!(s.uptime_secs, 42);
}

#[test]
fn prometheus_text_at_exact_counters() {
    let mut m = MetricsCollector::new();
    m.inc_orders();
    m.inc_orders();
    m.inc_trades();
    m.add_volume_cents(150);
    m.record_latency(3);
    let text = m.prometheus_text_at(17);
    assert!(text.contains("the_bridge_orders_total 2\n"));
    assert!(text.contains("the_bridge_trades_total 1\n"));
    assert!(text.contains("the_bridge_volume_24h 1.5\n"));
    assert!(text.contains("the_bridge_health 1\n"));
    assert!(text.contains("the_bridge_uptime_seconds 17\n"));
    // the exposition drains the counters it prints
    let text2 = m.prometheus_text_at(18);
    assert!(text2.contains("the_bridge_orders_total 0\n"));
    assert!(text2.contains("the_bridge_trades_total 0\n"));
}

#[test]
fn volume_text_matches_float_display() {
    for cents in [0u64, 1, 10, 99, 100, 150, 19134, 123456789] {
        let mut m = MetricsCollector::new();
        m.add_volume_cents(cents);
        let text = m.prometheus_text_at(0);
        let expected = format!("the_bridge_volume_24h {}\n", cents as f64 / 100.0);
        assert!(text.contains(&expected), "{} not in {}", expected, text);
    }
}

#[test]
fn prometheus_cumulative_drains_orders() {
    let mut m = MetricsCollector::new();
    m.inc_orders();
    m.inc_orders();
    assert_eq!(m.prometheus_cumulative(), 2);
    assert_eq!(m.prometheus_cumulative(), 0);
}
