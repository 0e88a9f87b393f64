use esticli::models::IndexSnapshot;
use esticli::rates::Smoother;
use esticli::stats::{dedup_by_name, RateSnapshotStore};

fn snap(index_total: u64) -> IndexSnapshot {
    IndexSnapshot { doc_count: 1, index_total, size_bytes: 10, health: "green".to_string() }
}

#[test]
fn test_instantaneous_rate_from_counter_delta() {
    let mut store = RateSnapshotStore::new();

    // First poll: no previous snapshot, so every rate is zero.
    let rates = store.compute_rates(0, vec![("a".to_string(), snap(100))]);
    assert_eq!(rates.len(), 1);
    assert_eq!(rates[0].rate_milli, 0);

    // total_ops 100 -> 150 over five seconds: 10.0/s.
    let rates = store.compute_rates(5_000, vec![("a".to_string(), snap(150))]);
    assert_eq!(rates[0].rate_milli, 10_000);

    // Counter reset: 150 -> 90 reads as rate zero, not negative.
    let rates = store.compute_rates(10_000, vec![("a".to_string(), snap(90))]);
    assert_eq!(rates[0].rate_milli, 0);
}

#[test]
fn test_rate_zero_for_unknown_index_and_zero_elapsed() {
    let mut store = RateSnapshotStore::new();
    let _ = store.compute_rates(1_000, vec![("a".to_string(), snap(100))]);

    // A new index has no previous counter: rate zero.
    let rates = store.compute_rates(
        2_000,
        vec![("a".to_string(), snap(200)), ("b".to_string(), snap(999))],
    );
    assert_eq!(rates[0].rate_milli, 100_000);
    assert_eq!(rates[1].rate_milli, 0);

    // No elapsed time: rate zero.
    let rates = store.compute_rates(2_000, vec![("a".to_string(), snap(300))]);
    assert_eq!(rates[0].rate_milli, 0);
}

#[test]
fn test_dedup_keeps_first_snapshot_per_name() {
    let pairs = vec![
        ("a".to_string(), snap(1)),
        ("b".to_string(), snap(2)),
        ("a".to_string(), snap(3)),
    ];
    let deduped = dedup_by_name(pairs);
    assert_eq!(deduped.len(), 2);
    assert_eq!(deduped[0].0, "a");
    assert_eq!(deduped[0].1.index_total, 1);
    assert_eq!(deduped[1].0, "b");
}

#[test]
fn test_smoothing_window_mean_of_recent_samples() {
    let mut sm = Smoother::new(3);
    let name = "a".to_string();
    // Means over the last three samples, rounding toward zero.
    assert_eq!(sm.push_sample(&name, 9_000), 9_000);
    assert_eq!(sm.push_sample(&name, 3_000), 6_000);
    assert_eq!(sm.push_sample(&name, 3_000), 5_000);
    // Window full: the oldest sample (9000) is evicted.
    assert_eq!(sm.push_sample(&name, 3_000), 3_000);
    // Integer mean rounds toward zero: (3000 + 3000 + 1000) / 3.
    assert_eq!(sm.push_sample(&name, 1_000), 2_333);
}

#[test]
fn test_smoother_minimum_capacity_and_pruning() {
    // A requested sample count of zero is raised to one.
    let mut sm = Smoother::new(0);
    let name = "a".to_string();
    assert_eq!(sm.push_sample(&name, 5_000), 5_000);
    assert_eq!(sm.push_sample(&name, 7_000), 7_000);

    // Pruning against an empty row list discards the window, so the next
    // sample starts a fresh window rather than extending the old one.
    sm.prune(&Vec::new());
    assert_eq!(sm.push_sample(&name, 1_000), 1_000);
}

#[test]
fn test_apply_smooths_each_row() {
    let mut sm = Smoother::new(2);
    let rows = vec![
        esticli::models::IndexRate {
            name: "a".to_string(),
            doc_count: 1,
            rate_milli: 4_000,
            size_bytes: 1,
            health: "green".to_string(),
        },
        esticli::models::IndexRate {
            name: "b".to_string(),
            doc_count: 2,
            rate_milli: 10_000,
            size_bytes: 2,
            health: "green".to_string(),
        },
    ];
    let out = sm.apply(rows);
    assert_eq!(out[0].rate_milli, 4_000);
    assert_eq!(out[1].rate_milli, 10_000);

    let rows = vec![
        esticli::models::IndexRate {
            name: "a".to_string(),
            doc_count: 1,
            rate_milli: 8_000,
            size_bytes: 1,
            health: "green".to_string(),
        },
    ];
    let out = sm.apply(rows);
    // Mean of 4000 and 8000.
    assert_eq!(out[0].rate_milli, 6_000);
}
