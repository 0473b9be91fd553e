use arangotui::data::{CollectionCount, CollectionInfo, CollectionWithCount};
use arangotui::listing::{sort_collections, stands_before};

fn row(name: &str, is_system: bool, count: Option<u64>) -> CollectionWithCount {
    CollectionWithCount {
        info: CollectionInfo {
            id: format!("id-{}", name),
            name: name.to_string(),
            status: 3,
            collection_type: 2,
            is_system,
            globally_unique_id: format!("h/{}", name),
        },
        count,
    }
}

fn names(rows: &[CollectionWithCount]) -> Vec<&str> {
    rows.iter().map(|r| r.info.name.as_str()).collect()
}

fn properties(name: &str, count: u64) -> CollectionCount {
    CollectionCount {
        error: false,
        code: 200,
        write_concern: Some(1),
        wait_for_sync: Some(false),
        uses_revisions_as_document_ids: None,
        sync_by_revision: None,
        status_string: Some("loaded".to_string()),
        id: Some("77".to_string()),
        is_smart_child: None,
        schema: None,
        name: name.to_string(),
        collection_type: 2,
        status: 3,
        count,
        cache_enabled: None,
        is_system: false,
        internal_validator_type: None,
        globally_unique_id: None,
        key_options: Some(serde_json::Value::from("traditional")),
        computed_values: None,
        object_id: None,
    }
}

#[test]
fn user_collections_stand_above_system_collections() {
    let mut rows = vec![
        row("_graphs", true, None),
        row("users", false, Some(3)),
        row("_apps", true, Some(0)),
        row("orders", false, None),
        row("knows", false, Some(12)),
    ];
    sort_collections(&mut rows);
    assert_eq!(names(&rows), vec!["knows", "orders", "users", "_apps", "_graphs"]);
}

#[test]
fn sorting_does_not_go_by_the_underscore() {
    let mut rows = vec![row("_users", false, None), row("zebra", true, None), row("apple", true, None)];
    sort_collections(&mut rows);
    assert_eq!(names(&rows), vec!["_users", "apple", "zebra"]);
}

#[test]
fn sorting_keeps_the_rows_whole() {
    let mut rows = vec![row("b", false, Some(2)), row("a", false, Some(1)), row("_s", true, None)];
    sort_collections(&mut rows);
    assert_eq!(rows, vec![row("a", false, Some(1)), row("b", false, Some(2)), row("_s", true, None)]);
}

#[test]
fn sorting_any_source_order_gives_the_same_list() {
    let sorted = vec!["a", "b", "c", "_x", "_y"];
    let orders: [[usize; 5]; 6] = [
        [0, 1, 2, 3, 4],
        [4, 3, 2, 1, 0],
        [3, 0, 4, 1, 2],
        [2, 4, 0, 3, 1],
        [1, 2, 3, 4, 0],
        [4, 0, 3, 2, 1],
    ];
    for order in orders {
        let mut rows: Vec<CollectionWithCount> =
            order.iter().map(|&i| row(sorted[i], sorted[i].starts_with('_'), None)).collect();
        sort_collections(&mut rows);
        assert_eq!(names(&rows), sorted);
    }
}

#[test]
fn sorting_keeps_rows_of_one_name_in_their_order() {
    let mut rows = vec![
        row("same", false, Some(1)),
        row("other", false, None),
        row("same", false, Some(2)),
        row("same", false, Some(3)),
    ];
    sort_collections(&mut rows);
    let counts: Vec<Option<u64>> = rows.iter().map(|r| r.count).collect();
    assert_eq!(names(&rows), vec!["other", "same", "same", "same"]);
    assert_eq!(counts, vec![None, Some(1), Some(2), Some(3)]);
}

#[test]
fn sorting_an_empty_or_single_list() {
    let mut rows: Vec<CollectionWithCount> = Vec::new();
    sort_collections(&mut rows);
    assert!(rows.is_empty());
    let mut rows = vec![row("one", false, None)];
    sort_collections(&mut rows);
    assert_eq!(names(&rows), vec!["one"]);
}

#[test]
fn sorting_goes_by_code_point_within_a_group() {
    let mut rows = vec![row("b", false, None), row("B", false, None), row("a", false, None), row("A", false, None)];
    sort_collections(&mut rows);
    assert_eq!(names(&rows), vec!["A", "B", "a", "b"]);
}

#[test]
fn stands_before_compares_group_then_name() {
    assert!(stands_before(&row("z", false, None), &row("a", true, None)));
    assert!(!stands_before(&row("a", true, None), &row("z", false, None)));
    assert!(stands_before(&row("a", false, None), &row("b", false, None)));
    assert!(!stands_before(&row("b", true, None), &row("a", true, None)));
    assert!(stands_before(&row("a", true, None), &row("a", true, Some(1))));
}

#[test]
fn a_row_knows_its_count_where_the_properties_came() {
    let info = row("orders", false, None).info;
    let with = CollectionWithCount::from_parts(info.clone(), Some(&properties("orders", 42)));
    assert_eq!(with, row("orders", false, Some(42)));
    let without = CollectionWithCount::from_parts(info, None);
    assert_eq!(without, row("orders", false, None));
}
