use arangotui::data::{
    CollectionInfo, CollectionWithCount, DatabaseStats, EdgeDefinition, GraphInfo,
};
use arangotui::display::{
    collection_list_title, collection_row, collection_type_label, count_label,
    database_list_title, database_row, dialog_area, dialog_can_stand, document_lines,
    document_screen_lines,
    document_viewer_title,
    from_to_label, gae_line, graph_list_title, graph_table, join, properties_title, scroll_rows,
    server_line, smart_disjoint_label, system_label, total_documents, Area, DIALOG_HEIGHT,
    DIALOG_WIDTH,
};
use arangotui::selection::GraphRow;

fn counted(name: &str, collection_type: u32, is_system: bool, count: Option<u64>) -> CollectionWithCount {
    CollectionWithCount {
        info: CollectionInfo {
            id: "1".to_string(),
            name: name.to_string(),
            status: 3,
            collection_type,
            is_system,
            globally_unique_id: "h/1".to_string(),
        },
        count,
    }
}

fn strings(items: &[&str]) -> Vec<String> {
    items.iter().map(|s| s.to_string()).collect()
}

fn definition(collection: &str, from: &[&str], to: &[&str]) -> EdgeDefinition {
    EdgeDefinition { collection: collection.to_string(), from: strings(from), to: strings(to) }
}

fn named_graph(
    name: &str,
    edge_definitions: Vec<EdgeDefinition>,
    is_smart: Option<bool>,
    is_disjoint: Option<bool>,
) -> GraphInfo {
    GraphInfo {
        id: format!("_graphs/{}", name),
        key: name.to_string(),
        rev: "_r".to_string(),
        edge_definitions,
        orphan_collections: Vec::new(),
        name: name.to_string(),
        is_smart,
        is_disjoint,
        smart_graph_attribute: None,
        number_of_shards: None,
        replication_factor: None,
    }
}

#[test]
fn type_labels() {
    assert_eq!(collection_type_label(2), "Document");
    assert_eq!(collection_type_label(3), "Edge");
    assert_eq!(collection_type_label(0), "Edge");
    assert_eq!(collection_type_label(7), "Edge");
}

#[test]
fn system_labels() {
    assert_eq!(system_label(true), "Yes");
    assert_eq!(system_label(false), "No");
}

#[test]
fn count_labels() {
    assert_eq!(count_label(Some(0)), "0");
    assert_eq!(count_label(Some(1234567)), "1234567");
    assert_eq!(count_label(Some(u64::MAX)), "18446744073709551615");
    assert_eq!(count_label(None), "?");
}

#[test]
fn total_documents_adds_the_known_counts() {
    let rows = vec![
        counted("a", 2, false, Some(5)),
        counted("b", 2, false, None),
        counted("c", 3, false, Some(7)),
        counted("_d", 2, true, Some(100)),
    ];
    assert_eq!(total_documents(&rows), Some(112));
    assert_eq!(total_documents(&Vec::new()), Some(0));
    assert_eq!(total_documents(&vec![counted("a", 2, false, None)]), Some(0));
}

#[test]
fn total_documents_that_do_not_fit() {
    let rows = vec![counted("a", 2, false, Some(u64::MAX)), counted("b", 2, false, Some(0))];
    assert_eq!(total_documents(&rows), Some(u64::MAX));
    let rows = vec![
        counted("a", 2, false, Some(u64::MAX)),
        counted("b", 2, false, Some(1)),
        counted("c", 2, false, None),
    ];
    assert_eq!(total_documents(&rows), None);
}

#[test]
fn cells_of_a_collection_row() {
    assert_eq!(
        collection_row(&counted("orders", 2, false, Some(42))),
        strings(&["orders", "Document", "No", "42"])
    );
    assert_eq!(
        collection_row(&counted("_edges", 3, true, None)),
        strings(&["_edges", "Edge", "Yes", "?"])
    );
}

#[test]
fn cells_of_a_database_row() {
    let row = DatabaseStats {
        name: "shop".to_string(),
        doc_collections: 12,
        edge_collections: 0,
        system_collections: 9,
        accessible: true,
    };
    assert_eq!(database_row(&row), strings(&["shop", "12", "0", "9"]));
    let row = DatabaseStats {
        name: "secret".to_string(),
        doc_collections: 0,
        edge_collections: 0,
        system_collections: 0,
        accessible: false,
    };
    assert_eq!(database_row(&row), strings(&["secret", "NO ACCESS", "", ""]));
}

#[test]
fn smart_and_disjoint_labels() {
    assert_eq!(smart_disjoint_label(Some(true), Some(true)), "Smart, Disjoint");
    assert_eq!(smart_disjoint_label(Some(true), Some(false)), "Smart");
    assert_eq!(smart_disjoint_label(Some(true), None), "Smart");
    assert_eq!(smart_disjoint_label(None, Some(true)), "Disjoint");
    assert_eq!(smart_disjoint_label(Some(false), Some(true)), "Disjoint");
    assert_eq!(smart_disjoint_label(None, None), "-");
    assert_eq!(smart_disjoint_label(Some(false), Some(false)), "-");
}

#[test]
fn join_puts_the_separator_between() {
    assert_eq!(join(&strings(&[]), ", "), "");
    assert_eq!(join(&strings(&["a"]), ", "), "a");
    assert_eq!(join(&strings(&["a", "b", "c"]), ", "), "a, b, c");
    assert_eq!(join(&strings(&["", ""]), "-"), "-");
    assert_eq!(join(&strings(&["a", "b"]), ""), "ab");
}

#[test]
fn from_to_labels() {
    assert_eq!(
        from_to_label(&definition("likes", &["persons", "bots"], &["posts"])),
        "persons, bots → posts"
    );
    assert_eq!(from_to_label(&definition("x", &[], &[])), " → ");
}

#[test]
fn cells_of_the_graph_list() {
    let graphs = vec![
        named_graph(
            "g1",
            vec![definition("e1", &["a"], &["b", "c"]), definition("e2", &[], &["d"])],
            Some(true),
            None,
        ),
        named_graph("g2", Vec::new(), None, None),
    ];
    assert_eq!(
        graph_table(&graphs),
        vec![
            strings(&["g1", "", "", "Smart"]),
            strings(&["  └─ e1", "e1", "a → b, c", ""]),
            strings(&["  └─ e2", "e2", " → d", ""]),
            strings(&["", "", "", ""]),
            strings(&["g2", "", "", "-"]),
        ]
    );
    assert_eq!(graph_table(&Vec::new()), Vec::<Vec<String>>::new());
}

#[test]
fn database_list_titles() {
    assert_eq!(database_list_title(true), "Database Browser - Select a database");
    assert_eq!(database_list_title(false), "Database Browser");
}

#[test]
fn collection_list_titles() {
    assert_eq!(collection_list_title("shop", 0, 0), "Database: shop | Press G for Graphs");
    assert_eq!(
        collection_list_title("shop", 12, 3456),
        "Database: shop | Collections: 12 | Total Documents: 3456 | Press G for Graphs | SPACE to view documents"
    );
}

#[test]
fn graph_list_titles() {
    assert_eq!(graph_list_title("shop", 0, None), "Database: shop | Press C for Collections");
    assert_eq!(
        graph_list_title("shop", 2, Some(GraphRow::Edge { graph: 0, edge: 1 })),
        "Database: shop | Graphs: 2 | C: Collections | ENTER: Edge collection | V: Vertex collection"
    );
    assert_eq!(
        graph_list_title("shop", 2, Some(GraphRow::Graph { graph: 1 })),
        "Database: shop | Graphs: 2 | C: Collections | ENTER: Graph details (JSON)"
    );
    assert_eq!(
        graph_list_title("shop", 2, Some(GraphRow::Spacer)),
        "Database: shop | Graphs: 2 | C: Collections"
    );
    assert_eq!(graph_list_title("shop", 10, None), "Database: shop | Graphs: 10 | C: Collections");
}

#[test]
fn properties_titles() {
    assert_eq!(
        properties_title("Collection", "shop", "orders", true),
        "Collection Properties: shop.orders"
    );
    assert_eq!(properties_title("Collection", "shop", "orders", false), "Collection: shop.orders");
    assert_eq!(properties_title("Graph", "shop", "social", true), "Graph Properties: shop.social");
    assert_eq!(properties_title("Graph", "shop", "social", false), "Graph: shop.social");
}

#[test]
fn document_viewer_titles() {
    assert_eq!(document_viewer_title("shop", "orders", 0), "Documents: shop.orders");
    assert_eq!(
        document_viewer_title("shop", "orders", 10),
        "Documents: shop.orders (10 documents) | Press ESC or Q to go back"
    );
}

#[test]
fn document_lines_have_an_empty_line_between_documents() {
    assert_eq!(document_lines(&Vec::new()), Vec::<String>::new());
    assert_eq!(document_lines(&vec![strings(&["{", "}"])]), strings(&["{", "}"]));
    let three = vec![strings(&["{", "  \"a\": 1", "}"]), strings(&["7"]), strings(&["[", "]"])];
    assert_eq!(document_lines(&three), strings(&["{", "  \"a\": 1", "}", "", "7", "", "[", "]"]));
    assert_eq!(document_lines(&vec![Vec::new(), Vec::new()]), strings(&[""]));
}

#[test]
fn header_lines() {
    assert_eq!(server_line("3.12.0", "community"), "ArangoDB 3.12.0 (community)");
    assert_eq!(gae_line(Some("1.2")), "GAE 1.2");
    assert_eq!(gae_line(None), "GAE: Not connected");
}

#[test]
fn scroll_rows_wrap_at_sixteen_bits() {
    assert_eq!(scroll_rows(0), 0);
    assert_eq!(scroll_rows(12), 12);
    assert_eq!(scroll_rows(65535), 65535);
    assert_eq!(scroll_rows(65536), 0);
    assert_eq!(scroll_rows(65536 + 5), 5);
}

#[test]
fn the_dialog_stands_in_the_middle() {
    let dialog = dialog_area(Area { x: 0, y: 0, width: 120, height: 40 });
    assert_eq!(dialog, Area { x: 35, y: 16, width: 50, height: 7 });
    let dialog = dialog_area(Area { x: 10, y: 5, width: 51, height: 8 });
    assert_eq!(dialog, Area { x: 10, y: 5, width: 50, height: 7 });
    let dialog = dialog_area(Area { x: 3, y: 4, width: 53, height: 10 });
    assert_eq!(dialog, Area { x: 4, y: 5, width: 50, height: 7 });
    assert_eq!(DIALOG_WIDTH, 50);
    assert_eq!(DIALOG_HEIGHT, 7);
}

#[test]
fn the_dialog_on_a_small_screen_stands_at_the_edge() {
    let dialog = dialog_area(Area { x: 2, y: 3, width: 20, height: 5 });
    assert_eq!(dialog, Area { x: 2, y: 3, width: 50, height: 7 });
    let dialog = dialog_area(Area { x: 0, y: 0, width: 0, height: 0 });
    assert_eq!(dialog, Area { x: 0, y: 0, width: 50, height: 7 });
    let dialog = dialog_area(Area { x: 65535, y: 65535, width: 0, height: 0 });
    assert_eq!(dialog, Area { x: 65535, y: 65535, width: 50, height: 7 });
    let dialog = dialog_area(Area { x: 65535, y: 65535, width: 1, height: 1 });
    assert_eq!(dialog, Area { x: 65535, y: 65535, width: 50, height: 7 });
    let dialog = dialog_area(Area { x: 65535, y: 0, width: 51, height: 65535 });
    assert_eq!(dialog, Area { x: 65535, y: 32764, width: 50, height: 7 });
}

#[test]
fn the_dialog_can_stand_where_its_corner_is_on_the_screen() {
    assert!(dialog_can_stand(Area { x: 0, y: 0, width: 120, height: 40 }));
    assert!(dialog_can_stand(Area { x: 65535, y: 65535, width: 1, height: 1 }));
    assert!(dialog_can_stand(Area { x: 65535, y: 65535, width: 51, height: 8 }));
    assert!(dialog_can_stand(Area { x: 65534, y: 0, width: 52, height: 0 }));
    assert!(!dialog_can_stand(Area { x: 65535, y: 0, width: 52, height: 0 }));
    assert!(!dialog_can_stand(Area { x: 0, y: 65535, width: 0, height: 9 }));
    assert!(!dialog_can_stand(Area { x: 40000, y: 0, width: 65535, height: 0 }));
    assert!(dialog_can_stand(Area { x: 0, y: 0, width: 65535, height: 65535 }));
}

#[test]
fn the_document_screen_shows_each_document_as_indented_json() {
    let mut object = serde_json::Map::new();
    object.insert("_key".to_string(), serde_json::Value::from("7"));
    object.insert("tags".to_string(), serde_json::Value::from(vec!["a", "b"]));
    let documents = vec![
        serde_json::Value::Object(object),
        serde_json::Value::from(42),
        serde_json::Value::Null,
        serde_json::Value::from("two\nlines"),
    ];
    assert_eq!(
        document_screen_lines(&documents),
        strings(&[
            "{",
            "  \"_key\": \"7\",",
            "  \"tags\": [",
            "    \"a\",",
            "    \"b\"",
            "  ]",
            "}",
            "",
            "42",
            "",
            "null",
            "",
            "\"two\\nlines\"",
        ])
    );
}

#[test]
fn the_document_screen_without_documents_is_empty() {
    assert_eq!(document_screen_lines(&Vec::new()), Vec::<String>::new());
    assert_eq!(document_screen_lines(&vec![serde_json::Value::from(true)]), strings(&["true"]));
}
