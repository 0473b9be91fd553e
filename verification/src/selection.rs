//! The flat row list of the graph view, and the cursor that walks a list.
//!
//! Graphs are shown one under the other: a header row for the graph, one
//! row for each of its edge definitions, and one empty row between a graph
//! and the next. A cursor position is a row number in that list.

use crate::data::{GraphInfo, GraphInfoModel};
use vstd::arithmetic::div_mod::*;
use vstd::prelude::*;

verus! {

/// What a row of the graph view shows.
#[derive(Clone, Copy, Debug, PartialEq, Eq, Structural)]
pub enum GraphRow {
    /// The header of the graph with this index.
    Graph { graph: usize },
    /// An edge definition of a graph, by the indices of both.
    Edge { graph: usize, edge: usize },
    /// The empty row between two graphs.
    Spacer,
}

/// Model of a [`GraphRow`].
pub enum GraphRowModel {
    Graph { graph: int },
    Edge { graph: int, edge: int },
    Spacer,
}

impl View for GraphRow {
    type V = GraphRowModel;

    open spec fn view(&self) -> GraphRowModel {
        match *self {
            GraphRow::Graph { graph } => GraphRowModel::Graph { graph: graph as int },
            GraphRow::Edge { graph, edge } => GraphRowModel::Edge {
                graph: graph as int,
                edge: edge as int,
            },
            GraphRow::Spacer => GraphRowModel::Spacer,
        }
    }
}

impl DeepView for GraphRow {
    type V = GraphRowModel;

    open spec fn deep_view(&self) -> GraphRowModel {
        self@
    }
}

/// Rows that one graph fills: its header and its edge definitions.
pub open spec fn block_rows(graph: GraphInfoModel) -> nat {
    1 + graph.edge_definitions.len()
}

/// Rows that the graphs fill together, the rows between them left out.
pub open spec fn block_rows_total(graphs: Seq<GraphInfoModel>) -> nat
    decreases graphs.len(),
{
    if graphs.len() == 0 {
        0
    } else {
        block_rows_total(graphs.drop_last()) + block_rows(graphs.last())
    }
}

/// Number of rows of the graph view: every graph's rows, and one row
/// between each graph and the next.
pub open spec fn row_count(graphs: Seq<GraphInfoModel>) -> nat {
    block_rows_total(graphs) + if graphs.len() > 0 {
        (graphs.len() - 1) as nat
    } else {
        0
    }
}

/// Row number of the header of graph `graph`.
pub open spec fn block_start(graphs: Seq<GraphInfoModel>, graph: int) -> int {
    block_rows_total(graphs.take(graph)) + graph
}

/// What sits `pos` rows below the header of graph `first`.
pub open spec fn row_from(graphs: Seq<GraphInfoModel>, first: int, pos: int) -> Option<
    GraphRowModel,
>
    decreases graphs.len() - first,
{
    if first < 0 || first >= graphs.len() || pos < 0 {
        None
    } else {
        let edges = graphs[first].edge_definitions.len() as int;
        if pos == 0 {
            Some(GraphRowModel::Graph { graph: first })
        } else if pos <= edges {
            Some(GraphRowModel::Edge { graph: first, edge: pos - 1 })
        } else if pos == edges + 1 && first + 1 < graphs.len() {
            Some(GraphRowModel::Spacer)
        } else {
            row_from(graphs, first + 1, pos - edges - 2)
        }
    }
}

/// What sits at row `pos` of the graph view; nothing outside the list.
pub open spec fn row_at(graphs: Seq<GraphInfoModel>, pos: int) -> Option<GraphRowModel> {
    row_from(graphs, 0, pos)
}

/// The row after `cursor` in a list of `total` rows, the first row coming
/// after the last. In an empty list the cursor stays.
pub open spec fn next_position(cursor: int, total: int) -> int {
    if total > 0 {
        (cursor + 1) % total
    } else {
        cursor
    }
}

/// The row before `cursor` in a list of `total` rows, the last row coming
/// before the first. In an empty list the cursor stays.
pub open spec fn previous_position(cursor: int, total: int) -> int {
    if total > 0 {
        if cursor == 0 {
            total - 1
        } else {
            cursor - 1
        }
    } else {
        cursor
    }
}

proof fn lemma_block_rows_total_front(graphs: Seq<GraphInfoModel>)
    requires
        graphs.len() > 0,
    ensures
        block_rows_total(graphs) == block_rows(graphs[0]) + block_rows_total(graphs.drop_first()),
    decreases graphs.len(),
{
    if graphs.len() == 1 {
        assert(graphs.drop_last() =~= graphs.drop_first());
    } else {
        lemma_block_rows_total_front(graphs.drop_last());
        assert(graphs.drop_last().drop_first() =~= graphs.drop_first().drop_last());
    }
}

proof fn lemma_row_count_front(graphs: Seq<GraphInfoModel>, first: int)
    requires
        0 <= first < graphs.len(),
    ensures
        row_count(graphs.skip(first)) == block_rows(graphs[first]) + if first + 1 < graphs.len() {
            1 + row_count(graphs.skip(first + 1))
        } else {
            0
        },
{
    let rest = graphs.skip(first);
    lemma_block_rows_total_front(rest);
    assert(rest.drop_first() =~= graphs.skip(first + 1));
}

proof fn lemma_row_from_total(graphs: Seq<GraphInfoModel>, first: int, pos: int)
    requires
        0 <= first <= graphs.len(),
    ensures
        row_from(graphs, first, pos) is Some <==> 0 <= pos < row_count(graphs.skip(first)),
        row_from(graphs, first, pos) matches Some(GraphRowModel::Graph { graph }) ==> first <= graph
            < graphs.len(),
        row_from(graphs, first, pos) matches Some(GraphRowModel::Edge { graph, edge }) ==> first
            <= graph < graphs.len() && 0 <= edge < graphs[graph].edge_definitions.len(),
    decreases graphs.len() - first,
{
    if first < graphs.len() {
        lemma_row_count_front(graphs, first);
        lemma_row_from_total(graphs, first + 1, pos - graphs[first].edge_definitions.len() - 2);
    } else {
        assert(graphs.skip(first) =~= Seq::<GraphInfoModel>::empty());
    }
}

proof fn lemma_row_from_block(graphs: Seq<GraphInfoModel>, graph: int, offset: int)
    requires
        0 <= graph < graphs.len(),
        0 <= offset,
    ensures
        row_from(graphs, 0, block_start(graphs, graph) + offset) == row_from(graphs, graph, offset),
    decreases graph,
{
    if graph == 0 {
        assert(graphs.take(0) =~= Seq::<GraphInfoModel>::empty());
    } else {
        let before = graph - 1;
        let edges = graphs[before].edge_definitions.len() as int;
        assert(graphs.take(graph).drop_last() =~= graphs.take(before));
        assert(block_start(graphs, graph) == block_start(graphs, before) + edges + 2);
        lemma_row_from_block(graphs, before, edges + 2 + offset);
    }
}

/// Every row number below the row count of a list of graphs holds a graph
/// header, an edge definition or a spacer, and no other row number holds
/// anything. A header names a graph of the list, and an edge row an edge
/// definition of its graph.
pub proof fn lemma_rows_total(graphs: Seq<GraphInfoModel>, pos: int)
    ensures
        row_at(graphs, pos) is Some <==> 0 <= pos < row_count(graphs),
        row_at(graphs, pos) matches Some(GraphRowModel::Graph { graph }) ==> 0 <= graph
            < graphs.len(),
        row_at(graphs, pos) matches Some(GraphRowModel::Edge { graph, edge }) ==> 0 <= graph
            < graphs.len() && 0 <= edge < graphs[graph].edge_definitions.len(),
{
    lemma_row_from_total(graphs, 0, pos);
    assert(graphs.skip(0) =~= graphs);
}

/// The rows of a graph stand together: its header at the start of its
/// block, its edge definitions below in their order, and after the last of
/// them a spacer, unless the graph is the last one.
pub proof fn lemma_rows_layout(graphs: Seq<GraphInfoModel>, graph: int)
    requires
        0 <= graph < graphs.len(),
    ensures
        row_at(graphs, block_start(graphs, graph)) == Some(GraphRowModel::Graph { graph }),
        forall|edge: int|
            0 <= edge < graphs[graph].edge_definitions.len() ==> #[trigger] row_at(
                graphs,
                block_start(graphs, graph) + 1 + edge,
            ) == Some(GraphRowModel::Edge { graph, edge }),
        graph + 1 < graphs.len() ==> row_at(
            graphs,
            block_start(graphs, graph) + 1 + graphs[graph].edge_definitions.len(),
        ) == Some(GraphRowModel::Spacer),
        graph + 1 < graphs.len() ==> block_start(graphs, graph + 1) == block_start(graphs, graph)
            + graphs[graph].edge_definitions.len() + 2,
        graph + 1 == graphs.len() ==> row_count(graphs) == block_start(graphs, graph) + 1
            + graphs[graph].edge_definitions.len(),
{
    let edges = graphs[graph].edge_definitions.len() as int;
    lemma_row_from_block(graphs, graph, 0);
    assert forall|edge: int| 0 <= edge < edges implies #[trigger] row_at(
        graphs,
        block_start(graphs, graph) + 1 + edge,
    ) == Some(GraphRowModel::Edge { graph, edge }) by {
        lemma_row_from_block(graphs, graph, 1 + edge);
    }
    lemma_row_from_block(graphs, graph, 1 + edges);
    assert(graphs.take(graph + 1).drop_last() =~= graphs.take(graph));
    if graph + 1 == graphs.len() {
        assert(graphs.take(graph + 1) =~= graphs);
    }
}

proof fn lemma_block_start_next(graphs: Seq<GraphInfoModel>, graph: int)
    requires
        0 <= graph < graphs.len(),
    ensures
        block_start(graphs, graph + 1) == block_start(graphs, graph)
            + graphs[graph].edge_definitions.len() + 2,
{
    assert(graphs.take(graph + 1).drop_last() =~= graphs.take(graph));
}

proof fn lemma_row_from_place(graphs: Seq<GraphInfoModel>, first: int, pos: int)
    requires
        0 <= first <= graphs.len(),
    ensures
        match row_from(graphs, first, pos) {
            Some(GraphRowModel::Graph { graph }) => block_start(graphs, first) + pos
                == block_start(graphs, graph),
            Some(GraphRowModel::Edge { graph, edge }) => block_start(graphs, first) + pos
                == block_start(graphs, graph) + 1 + edge,
            Some(GraphRowModel::Spacer) => exists|graph: int|
                first <= graph && graph + 1 < graphs.len() && block_start(graphs, first) + pos
                    == #[trigger] block_start(graphs, graph) + 1
                    + graphs[graph].edge_definitions.len(),
            None => true,
        },
    decreases graphs.len() - first,
{
    if first < graphs.len() && pos >= 0 {
        let edges = graphs[first].edge_definitions.len() as int;
        if pos == 0 || pos <= edges {
        } else if pos == edges + 1 && first + 1 < graphs.len() {
            assert(block_start(graphs, first) + pos == block_start(graphs, first) + 1
                + graphs[first].edge_definitions.len());
        } else {
            lemma_block_start_next(graphs, first);
            lemma_row_from_place(graphs, first + 1, pos - edges - 2);
            match row_from(graphs, first + 1, pos - edges - 2) {
                Some(GraphRowModel::Spacer) => {
                    let graph = choose|graph: int|
                        first + 1 <= graph && graph + 1 < graphs.len() && block_start(
                            graphs,
                            first + 1,
                        ) + (pos - edges - 2) == #[trigger] block_start(graphs, graph) + 1
                            + graphs[graph].edge_definitions.len();
                    assert(first <= graph && graph + 1 < graphs.len() && block_start(
                        graphs,
                        first,
                    ) + pos == block_start(graphs, graph) + 1
                        + graphs[graph].edge_definitions.len());
                },
                _ => {},
            }
        }
    }
}

/// Every row stands at one place only: the header of a graph at the start
/// of the graph's block, an edge definition as many rows below the header
/// as its number says and one more, and a spacer right below the last row
/// of a graph that is not the last. Together with [`lemma_rows_layout`]
/// this says that a row number holds a row if and only if it is that
/// row's place.
pub proof fn lemma_row_place(graphs: Seq<GraphInfoModel>, pos: int)
    ensures
        match row_at(graphs, pos) {
            Some(GraphRowModel::Graph { graph }) => pos == block_start(graphs, graph),
            Some(GraphRowModel::Edge { graph, edge }) => pos == block_start(graphs, graph) + 1
                + edge,
            Some(GraphRowModel::Spacer) => exists|graph: int|
                0 <= graph && graph + 1 < graphs.len() && pos == #[trigger] block_start(
                    graphs,
                    graph,
                ) + 1 + graphs[graph].edge_definitions.len(),
            None => true,
        },
{
    lemma_row_from_place(graphs, 0, pos);
    assert(graphs.take(0) =~= Seq::<GraphInfoModel>::empty());
    assert(block_start(graphs, 0) == 0);
}

/// Moving down from the last row of a list leads to the first row, and
/// moving up from the first row leads to the last.
pub proof fn lemma_wraparound(total: int)
    requires
        total > 0,
    ensures
        next_position(total - 1, total) == 0,
        previous_position(0, total) == total - 1,
{
    lemma_mod_self_0(total);
}

/// Moving the cursor keeps it inside the list, and inside the list moving
/// down and then up, or up and then down, leads back.
pub proof fn lemma_cursor_moves(cursor: int, total: int)
    requires
        0 <= cursor < total,
    ensures
        0 <= next_position(cursor, total) < total,
        0 <= previous_position(cursor, total) < total,
        previous_position(next_position(cursor, total), total) == cursor,
        next_position(previous_position(cursor, total), total) == cursor,
        cursor + 1 < total ==> next_position(cursor, total) == cursor + 1,
{
    lemma_mod_self_0(total);
    if cursor + 1 < total {
        lemma_small_mod((cursor + 1) as nat, total as nat);
    }
    if cursor > 0 {
        lemma_small_mod(cursor as nat, total as nat);
    }
}

/// The row after `cursor` in a list of `total` rows.
pub fn next_index(cursor: usize, total: usize) -> (next: usize)
    ensures
        next == next_position(cursor as int, total as int),
        total > 0 ==> next < total,
{
    if total == 0 {
        cursor
    } else {
        let within = cursor % total;
        proof {
            lemma_add_mod_noop(cursor as int, 1, total as int);
            lemma_mod_self_0(total as int);
            if total > 1 {
                lemma_small_mod(1, total as nat);
            }
            if within + 1 < total {
                lemma_small_mod((within + 1) as nat, total as nat);
            }
        }
        if within + 1 == total {
            0
        } else {
            within + 1
        }
    }
}

/// The row before `cursor` in a list of `total` rows.
pub fn previous_index(cursor: usize, total: usize) -> (previous: usize)
    ensures
        previous == previous_position(cursor as int, total as int),
{
    if total == 0 {
        cursor
    } else if cursor == 0 {
        total - 1
    } else {
        cursor - 1
    }
}

/// Number of rows of the graph view, where `usize` can hold it.
pub fn total_rows(graphs: &Vec<GraphInfo>) -> (total: Option<usize>)
    ensures
        total is Some <==> row_count(graphs.deep_view()) <= usize::MAX,
        total matches Some(n) ==> n == row_count(graphs.deep_view()),
{
    let ghost models = graphs.deep_view();
    let mut sum: usize = 0;
    let mut i: usize = 0;
    while i < graphs.len()
        invariant
            models == graphs.deep_view(),
            0 <= i <= graphs.len(),
            sum == block_rows_total(models.take(i as int)),
        decreases graphs.len() - i,
    {
        proof {
            assert(models.take(i + 1).drop_last() =~= models.take(i as int));
            assert(models[i as int].edge_definitions.len()
                == graphs[i as int].edge_definitions.len());
            lemma_block_rows_total_prefix(models, i + 1);
        }
        let edges = graphs[i].edge_definitions.len();
        let block = match edges.checked_add(1) {
            Some(b) => b,
            None => {
                return None;
            },
        };
        sum = match sum.checked_add(block) {
            Some(s) => s,
            None => {
                return None;
            },
        };
        i = i + 1;
    }
    proof {
        assert(models.take(i as int) =~= models);
    }
    if graphs.len() > 0 {
        sum.checked_add(graphs.len() - 1)
    } else {
        Some(sum)
    }
}

proof fn lemma_block_rows_total_prefix(graphs: Seq<GraphInfoModel>, k: int)
    requires
        0 <= k <= graphs.len(),
    ensures
        block_rows_total(graphs.take(k)) <= block_rows_total(graphs),
    decreases graphs.len() - k,
{
    if k == graphs.len() {
        assert(graphs.take(k) =~= graphs);
    } else {
        lemma_block_rows_total_prefix(graphs, k + 1);
        assert(graphs.take(k + 1).drop_last() =~= graphs.take(k));
    }
}

/// What sits at row `pos` of the graph view.
pub fn locate(graphs: &Vec<GraphInfo>, pos: usize) -> (row: Option<GraphRow>)
    ensures
        row.deep_view() == row_at(graphs.deep_view(), pos as int),
{
    let ghost models = graphs.deep_view();
    let mut remaining: usize = pos;
    let mut g: usize = 0;
    while g < graphs.len()
        invariant
            models == graphs.deep_view(),
            0 <= g <= graphs.len(),
            row_at(models, pos as int) == row_from(models, g as int, remaining as int),
        decreases graphs.len() - g,
    {
        proof {
            assert(models[g as int].edge_definitions.len()
                == graphs[g as int].edge_definitions.len());
        }
        let edges = graphs[g].edge_definitions.len();
        if remaining == 0 {
            return Some(GraphRow::Graph { graph: g });
        }
        if remaining <= edges {
            return Some(GraphRow::Edge { graph: g, edge: remaining - 1 });
        }
        remaining = remaining - edges - 1;
        if remaining == 0 {
            if g + 1 < graphs.len() {
                return Some(GraphRow::Spacer);
            } else {
                assert(row_from(models, g + 1, -1) is None);
                return None;
            }
        }
        remaining = remaining - 1;
        g = g + 1;
    }
    None
}

/// The rows of the graph view, from the top.
pub fn graph_rows(graphs: &Vec<GraphInfo>) -> (rows: Vec<GraphRow>)
    ensures
        rows@.len() == row_count(graphs.deep_view()),
        forall|pos: int|
            0 <= pos < rows@.len() ==> row_at(graphs.deep_view(), pos) == Some(
                (#[trigger] rows@[pos])@,
            ),
{
    let ghost models = graphs.deep_view();
    let mut rows: Vec<GraphRow> = Vec::new();
    let mut g: usize = 0;
    while g < graphs.len()
        invariant
            models == graphs.deep_view(),
            0 <= g <= graphs.len(),
            rows@.len() == (if g < graphs.len() {
                block_start(models, g as int)
            } else {
                row_count(models) as int
            }),
            forall|pos: int|
                0 <= pos < rows@.len() ==> row_at(models, pos) == Some((#[trigger] rows@[pos])@),
        decreases graphs.len() - g,
    {
        proof {
            assert(models[g as int].edge_definitions.len()
                == graphs[g as int].edge_definitions.len());
            lemma_rows_layout(models, g as int);
        }
        let ghost start = block_start(models, g as int);
        let edges = graphs[g].edge_definitions.len();
        rows.push(GraphRow::Graph { graph: g });
        let mut e: usize = 0;
        while e < edges
            invariant
                models == graphs.deep_view(),
                0 <= g < graphs.len(),
                edges == models[g as int].edge_definitions.len(),
                start == block_start(models, g as int),
                0 <= e <= edges,
                rows@.len() == start + 1 + e,
                forall|edge: int|
                    0 <= edge < edges ==> #[trigger] row_at(models, start + 1 + edge) == Some(
                        GraphRowModel::Edge { graph: g as int, edge },
                    ),
                forall|pos: int|
                    0 <= pos < rows@.len() ==> row_at(models, pos) == Some(
                        (#[trigger] rows@[pos])@,
                    ),
            decreases edges - e,
        {
            assert(row_at(models, start + 1 + e) == Some(
                GraphRowModel::Edge { graph: g as int, edge: e as int },
            ));
            rows.push(GraphRow::Edge { graph: g, edge: e });
            e = e + 1;
        }
        if g + 1 < graphs.len() {
            rows.push(GraphRow::Spacer);
        }
        g = g + 1;
    }
    proof {
        if graphs.len() == 0 {
            assert(models =~= Seq::<GraphInfoModel>::empty());
        }
    }
    rows
}

} // verus!
