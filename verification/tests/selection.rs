use arangotui::data::{EdgeDefinition, GraphInfo};
use arangotui::selection::{
    graph_rows, locate, next_index, previous_index, total_rows, GraphRow,
};

fn edge(collection: &str) -> EdgeDefinition {
    EdgeDefinition {
        collection: collection.to_string(),
        from: vec!["a".to_string()],
        to: vec!["b".to_string()],
    }
}

fn graph(name: &str, edges: &[&str]) -> GraphInfo {
    GraphInfo {
        id: format!("_graphs/{}", name),
        key: name.to_string(),
        rev: "_r".to_string(),
        edge_definitions: edges.iter().map(|e| edge(e)).collect(),
        orphan_collections: Vec::new(),
        name: name.to_string(),
        is_smart: None,
        is_disjoint: None,
        smart_graph_attribute: None,
        number_of_shards: None,
        replication_factor: None,
    }
}

#[test]
fn rows_of_two_graphs_with_a_spacer_between() {
    let graphs = vec![graph("g1", &["e1", "e2"]), graph("g2", &[])];
    assert_eq!(
        graph_rows(&graphs),
        vec![
            GraphRow::Graph { graph: 0 },
            GraphRow::Edge { graph: 0, edge: 0 },
            GraphRow::Edge { graph: 0, edge: 1 },
            GraphRow::Spacer,
            GraphRow::Graph { graph: 1 },
        ]
    );
    assert_eq!(total_rows(&graphs), Some(5));
}

#[test]
fn no_graphs_no_rows() {
    let graphs: Vec<GraphInfo> = Vec::new();
    assert_eq!(total_rows(&graphs), Some(0));
    assert_eq!(graph_rows(&graphs), Vec::new());
    assert_eq!(locate(&graphs, 0), None);
    assert_eq!(locate(&graphs, 7), None);
}

#[test]
fn one_graph_has_no_spacer() {
    let graphs = vec![graph("only", &["e1"])];
    assert_eq!(total_rows(&graphs), Some(2));
    assert_eq!(locate(&graphs, 0), Some(GraphRow::Graph { graph: 0 }));
    assert_eq!(locate(&graphs, 1), Some(GraphRow::Edge { graph: 0, edge: 0 }));
    assert_eq!(locate(&graphs, 2), None);
}

#[test]
fn graphs_without_edges_alternate_with_spacers() {
    let graphs = vec![graph("a", &[]), graph("b", &[]), graph("c", &[])];
    assert_eq!(total_rows(&graphs), Some(5));
    assert_eq!(
        graph_rows(&graphs),
        vec![
            GraphRow::Graph { graph: 0 },
            GraphRow::Spacer,
            GraphRow::Graph { graph: 1 },
            GraphRow::Spacer,
            GraphRow::Graph { graph: 2 },
        ]
    );
}

#[test]
fn every_row_below_the_count_holds_something() {
    let graphs = vec![
        graph("a", &["e1", "e2", "e3"]),
        graph("b", &[]),
        graph("c", &["e4"]),
        graph("d", &["e5", "e6"]),
    ];
    let total = total_rows(&graphs).unwrap();
    assert_eq!(total, (1 + 3) + (1 + 0) + (1 + 1) + (1 + 2) + 3);
    let rows = graph_rows(&graphs);
    assert_eq!(rows.len(), total);
    for pos in 0..total {
        assert_eq!(locate(&graphs, pos), Some(rows[pos]));
    }
    for pos in total..total + 5 {
        assert_eq!(locate(&graphs, pos), None);
    }
    assert_eq!(locate(&graphs, usize::MAX), None);
}

#[test]
fn rows_name_their_graph_and_edge() {
    let graphs = vec![graph("a", &["e1", "e2"]), graph("b", &["e3"])];
    assert_eq!(locate(&graphs, 0), Some(GraphRow::Graph { graph: 0 }));
    assert_eq!(locate(&graphs, 1), Some(GraphRow::Edge { graph: 0, edge: 0 }));
    assert_eq!(locate(&graphs, 2), Some(GraphRow::Edge { graph: 0, edge: 1 }));
    assert_eq!(locate(&graphs, 3), Some(GraphRow::Spacer));
    assert_eq!(locate(&graphs, 4), Some(GraphRow::Graph { graph: 1 }));
    assert_eq!(locate(&graphs, 5), Some(GraphRow::Edge { graph: 1, edge: 0 }));
    assert_eq!(locate(&graphs, 6), None);
}

#[test]
fn next_index_wraps_after_the_last_row() {
    assert_eq!(next_index(0, 5), 1);
    assert_eq!(next_index(3, 5), 4);
    assert_eq!(next_index(4, 5), 0);
    assert_eq!(next_index(0, 1), 0);
}

#[test]
fn previous_index_wraps_before_the_first_row() {
    assert_eq!(previous_index(0, 5), 4);
    assert_eq!(previous_index(4, 5), 3);
    assert_eq!(previous_index(1, 5), 0);
    assert_eq!(previous_index(0, 1), 0);
}

#[test]
fn cursor_stays_in_an_empty_list() {
    assert_eq!(next_index(0, 0), 0);
    assert_eq!(previous_index(0, 0), 0);
    assert_eq!(next_index(3, 0), 3);
    assert_eq!(previous_index(3, 0), 3);
}

#[test]
fn cursor_outside_the_list_comes_back_in() {
    assert_eq!(next_index(7, 5), 3);
    assert_eq!(next_index(9, 5), 0);
    assert_eq!(next_index(usize::MAX, 5), ((usize::MAX % 5) + 1) % 5);
    assert_eq!(previous_index(7, 5), 6);
}

#[test]
fn down_then_up_leads_back() {
    for total in 1..6usize {
        for cursor in 0..total {
            assert_eq!(previous_index(next_index(cursor, total), total), cursor);
            assert_eq!(next_index(previous_index(cursor, total), total), cursor);
        }
    }
}
