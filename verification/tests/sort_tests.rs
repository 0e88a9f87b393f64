use esticli::models::IndexRate;
use esticli::sort::SortState;
use esticli::view_types::{SortColumn, SortOrder};

fn mock_index(name: &str, docs: u64, rate_milli: u64) -> IndexRate {
    IndexRate {
        name: name.to_string(),
        doc_count: docs,
        rate_milli,
        size_bytes: 0,
        health: "green".to_string(),
    }
}

#[test]
fn test_sort_by_name() {
    let mut indices = vec![mock_index("z", 0, 0), mock_index("a", 0, 0)];
    let sort = SortState { column: SortColumn::Name, order: SortOrder::Ascending };
    sort.sort(&mut indices);
    assert_eq!(indices[0].name, "a");
    assert_eq!(indices[1].name, "z");
}

#[test]
fn test_sort_by_rate_descending() {
    // 1.0/s and 5.0/s
    let mut indices = vec![mock_index("a", 10, 1_000), mock_index("b", 10, 5_000)];
    let sort = SortState { column: SortColumn::Rate, order: SortOrder::Descending };
    sort.sort(&mut indices);
    assert_eq!(indices[0].name, "b");
    assert_eq!(indices[1].name, "a");
}

#[test]
fn test_sort_by_doc_count_and_size() {
    let mut indices = vec![
        IndexRate {
            name: "big".to_string(),
            doc_count: 50,
            rate_milli: 0,
            size_bytes: 9_000,
            health: "green".to_string(),
        },
        IndexRate {
            name: "small".to_string(),
            doc_count: 5,
            rate_milli: 0,
            size_bytes: 100,
            health: "yellow".to_string(),
        },
    ];
    let sort = SortState { column: SortColumn::DocCount, order: SortOrder::Ascending };
    sort.sort(&mut indices);
    assert_eq!(indices[0].name, "small");
    let sort = SortState { column: SortColumn::Size, order: SortOrder::Descending };
    sort.sort(&mut indices);
    assert_eq!(indices[0].name, "big");
    let sort = SortState { column: SortColumn::Health, order: SortOrder::Ascending };
    sort.sort(&mut indices);
    assert_eq!(indices[0].health, "green");
}

#[test]
fn test_column_cycle_and_order_toggle() {
    let mut sort = SortState::default();
    assert_eq!(sort.column, SortColumn::Rate);
    assert_eq!(sort.order, SortOrder::Descending);
    sort.next_column();
    assert_eq!(sort.column, SortColumn::Size);
    sort.prev_column();
    sort.prev_column();
    assert_eq!(sort.column, SortColumn::DocCount);
    sort.toggle_order();
    assert_eq!(sort.order, SortOrder::Ascending);
    sort.toggle_order();
    assert_eq!(sort.order, SortOrder::Descending);
}
