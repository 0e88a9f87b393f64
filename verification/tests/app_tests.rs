use esticli::app::{App, FetchEvent};
use esticli::es_types::{
    DocsStats, IndexStatsEntry, IndexingStats, PrimaryStats, StatsResponse, StoreStats,
};
use esticli::models::{ClusterHealth, IndexRate};
use esticli::view_types::Colormap;

fn mock_row(name: &str, doc_count: u64, rate_milli: u64, size_bytes: u64) -> IndexRate {
    IndexRate {
        name: name.to_string(),
        doc_count,
        rate_milli,
        size_bytes,
        health: "green".to_string(),
    }
}

fn setup_mock_app() -> App {
    let mut app = App::new("http://localhost:9200".to_string(), 5, Colormap::Turbo, 10);
    app.indices = vec![
        mock_row("index-1", 100, 1_000, 1024),
        mock_row("index-2", 200, 2_000, 2048),
        mock_row("index-3", 300, 3_000, 3072),
    ];
    app
}

fn stats_entry(index_total: u64, doc_count: u64, size_bytes: u64) -> IndexStatsEntry {
    IndexStatsEntry {
        primaries: PrimaryStats {
            docs: DocsStats { count: doc_count },
            indexing: IndexingStats { index_total },
            store: StoreStats { size_in_bytes: size_bytes },
        },
        health: "green".to_string(),
    }
}

#[test]
fn test_selection_movement() {
    let mut app = setup_mock_app();

    assert_eq!(app.selected_index, None);

    app.select_down();
    assert_eq!(app.selected_index, Some(0));

    app.select_down();
    assert_eq!(app.selected_index, Some(1));

    app.select_up();
    assert_eq!(app.selected_index, Some(0));

    app.select_up();
    assert_eq!(app.selected_index, Some(0));

    app.select_last();
    assert_eq!(app.selected_index, Some(2));

    app.select_down();
    assert_eq!(app.selected_index, Some(2));

    app.select_first();
    assert_eq!(app.selected_index, Some(0));
}

#[test]
fn test_pagination() {
    let mut app = setup_mock_app();
    app.select_first();

    app.select_page_down(2);
    assert_eq!(app.selected_index, Some(2));

    app.select_page_up(2);
    assert_eq!(app.selected_index, Some(0));
}

#[test]
fn test_exclusion_impact_on_selection() {
    let mut app = setup_mock_app();
    app.select_down();
    assert_eq!(app.selected_index, Some(0));

    app.toggle_exclude_selected();
    assert!(app.is_excluded(&"index-1".to_string()));

    // After excluding index-1, index-2 becomes the new index 0.
    assert_eq!(app.selected_index, Some(0));
    let filtered = app.filtered_indices();
    assert_eq!(app.indices[filtered[0]].name, "index-2");
}

#[test]
fn test_total_cluster_rate_excludes_hidden() {
    let mut app = setup_mock_app();
    // A hidden system index at 10.0/s.
    app.indices.push(mock_row(".system-index", 50, 10_000, 512));

    // 1.0 + 2.0 + 3.0 = 6.0/s; the system index is hidden by default.
    assert_eq!(app.total_cluster_rate(), 6_000);

    app.show_system_indices = true;
    assert_eq!(app.total_cluster_rate(), 16_000);

    app.show_system_indices = false;
    app.excluded_indices.push("index-1".to_string());
    assert_eq!(app.total_cluster_rate(), 5_000); // 2.0 + 3.0
}

#[test]
fn test_exclude_last_visible_clears_selection() {
    let mut app = App::new("http://localhost:9200".to_string(), 5, Colormap::Turbo, 10);
    app.indices = vec![mock_row("only-index", 10, 1_000, 64)];
    app.select_down();
    assert_eq!(app.selected_index, Some(0));

    app.toggle_exclude_selected();
    assert_eq!(app.selected_index, None);
    assert_eq!(app.filtered_indices().len(), 0);
}

#[test]
fn test_start_fetch_single_flight() {
    let mut app = App::new("http://localhost:9200".to_string(), 5, Colormap::Turbo, 10);
    assert!(app.start_fetch(1_000));
    assert!(app.loading);
    assert_eq!(app.fetch_start_ms, Some(1_000));

    // A second start while in flight has no observable effect.
    assert!(!app.start_fetch(2_000));
    assert!(app.loading);
    assert_eq!(app.fetch_start_ms, Some(1_000));
}

#[test]
fn test_poll_failure_keeps_stale_data() {
    let mut app = setup_mock_app();
    let before: Vec<String> = app.indices.iter().map(|r| r.name.clone()).collect();
    app.poll_fetch_result(FetchEvent::Ready(Err("boom".to_string())), 5_000);
    assert_eq!(app.error, Some("boom".to_string()));
    let after: Vec<String> = app.indices.iter().map(|r| r.name.clone()).collect();
    assert_eq!(before, after);

    app.poll_fetch_result(FetchEvent::Disconnected, 6_000);
    assert_eq!(app.error, Some("Fetch task disconnected".to_string()));
}

#[test]
fn test_rate_history_bounded_and_evicts_oldest() {
    let mut app = App::new("http://localhost:9200".to_string(), 5, Colormap::Turbo, 1);
    let mut cumulative: u64 = 0;
    // 62 polls, one second apart: the first yields rate 0 (no previous
    // snapshot); poll i >= 1 increments the counter by i, so the total is
    // i * 1000 milli-ops per second.
    for i in 0..62u64 {
        cumulative += i;
        let stats = StatsResponse {
            indices: vec![("idx".to_string(), stats_entry(cumulative, 1, 1))],
        };
        let health = ClusterHealth::default();
        app.poll_fetch_result(FetchEvent::Ready(Ok((stats, health))), (i + 1) * 1_000);
    }
    let hist = app.rate_history_vec();
    assert_eq!(hist.len(), 60);
    // Totals were 0, 1000, 2000, ..., 61000: the first two were evicted.
    assert_eq!(hist[0], 2_000);
    assert_eq!(hist[59], 61_000);
}

#[test]
fn test_poll_success_replaces_rows_and_sorts() {
    let mut app = App::new("http://localhost:9200".to_string(), 5, Colormap::Turbo, 1);
    let stats = StatsResponse {
        indices: vec![
            ("alpha".to_string(), stats_entry(100, 10, 1)),
            ("beta".to_string(), stats_entry(500, 20, 2)),
        ],
    };
    app.poll_fetch_result(FetchEvent::Ready(Ok((stats, ClusterHealth::default()))), 1_000);
    assert_eq!(app.indices.len(), 2);
    assert!(app.error.is_none());
    assert!(!app.loading);

    // Second poll five seconds later: alpha wrote 50 more (10.0/s), beta
    // wrote 10 more (2.0/s); default sort is rate descending.
    let stats = StatsResponse {
        indices: vec![
            ("alpha".to_string(), stats_entry(150, 11, 1)),
            ("beta".to_string(), stats_entry(510, 21, 2)),
        ],
    };
    app.poll_fetch_result(FetchEvent::Ready(Ok((stats, ClusterHealth::default()))), 6_000);
    assert_eq!(app.indices.len(), 2);
    assert_eq!(app.indices[0].name, "alpha");
    assert_eq!(app.indices[0].rate_milli, 10_000);
    assert_eq!(app.indices[1].name, "beta");
    assert_eq!(app.indices[1].rate_milli, 2_000);
}

#[test]
fn test_should_refresh_schedule() {
    let mut app = App::new("http://localhost:9200".to_string(), 5, Colormap::Turbo, 10);
    // No poll completed yet.
    assert!(app.should_refresh(0));
    app.last_refresh_ms = Some(10_000);
    assert!(!app.should_refresh(14_999));
    assert!(app.should_refresh(15_000));
    app.paused = true;
    assert!(!app.should_refresh(60_000));
}

#[test]
fn test_refresh_interval_clamped() {
    let app = App::new("u".to_string(), 0, Colormap::Turbo, 10);
    assert_eq!(app.refresh_interval_secs, 1);
    let app = App::new("u".to_string(), 600, Colormap::Turbo, 10);
    assert_eq!(app.refresh_interval_secs, 60);
    let mut app = App::new("u".to_string(), 1, Colormap::Turbo, 10);
    app.increase_refresh_rate();
    assert_eq!(app.refresh_interval_secs, 1);
    app.decrease_refresh_rate();
    assert_eq!(app.refresh_interval_secs, 2);
}
