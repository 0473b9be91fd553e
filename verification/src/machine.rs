//! The browser as a state machine over mathematical values.
//!
//! [`step`] says what a key press does and [`complete`] what the end of a
//! read does. A transition that needs data from the server happens in two
//! parts: the key press notes the read as pending and changes nothing
//! else; the answer to the read completes the transition, and a failed
//! read only clears the note. While a read is pending key presses are
//! ignored, and while the text entry is open it alone takes them.

use crate::data::{
    CollectionCount, CollectionWithCountModel, DatabaseStatsModel, GraphInfoModel,
};
use crate::listing::{in_listed_order, lemma_listed_in_order, lemma_listed_same_rows, listed};
use crate::modal::{
    confirmed_count, entry_after, entry_wf, lemma_empty_entry, lemma_entry_stays_digits,
    DEFAULT_DOCUMENT_COUNT,
};
use crate::selection::{
    lemma_cursor_moves, lemma_rows_total, lemma_wraparound, next_position, previous_position,
    row_at, row_count, GraphRowModel,
};
use crate::view::{
    command_of, ActionModel, BrowserViewModel, Command, Key, RequestModel, ResponseModel,
};
use vstd::prelude::*;

verus! {

/// Rows that a page key moves the text of a detail screen.
pub const PAGE_ROWS: usize = 10;

/// Everything the browser knows at one moment.
pub struct BrowserModel {
    /// The screen that is shown.
    pub view: BrowserViewModel,
    /// The rows of the database list.
    pub database_stats: Seq<DatabaseStatsModel>,
    /// The cursor in the database list.
    pub selected_db_index: usize,
    /// The rows of the collection list.
    pub collections: Seq<CollectionWithCountModel>,
    /// The cursor in the collection list.
    pub selected_coll_index: usize,
    /// The graphs of the graph list.
    pub graphs: Seq<GraphInfoModel>,
    /// The cursor in the graph list, as a row number.
    pub selected_graph_index: usize,
    /// The properties shown on the collection properties screen.
    pub collection_details: Option<CollectionCount>,
    /// How far the text of a detail screen is moved up.
    pub scroll_offset: usize,
    /// Whether the database list could be read.
    pub accessible: bool,
    /// The text of the entry for the document count, while it is open.
    pub input: Option<Seq<char>>,
    /// The documents shown on the document screen.
    pub documents: Seq<serde_json::Value>,
    /// The graph lists that jumps came from, the latest last, each with
    /// the cursor it had.
    pub navigation_stack: Seq<(BrowserViewModel, usize)>,
    /// The graph shown on the graph properties screen.
    pub graph_details: Option<GraphInfoModel>,
    /// The read that a transition waits for.
    pub pending: Option<RequestModel>,
}

/// The names of the rows of a collection list, in their order.
pub open spec fn collection_names(rows: Seq<CollectionWithCountModel>) -> Seq<Seq<char>> {
    rows.map_values(|row: CollectionWithCountModel| row.info.name)
}

/// The names of the graphs of a graph list, in their order.
pub open spec fn graph_names(graphs: Seq<GraphInfoModel>) -> Seq<Seq<char>> {
    graphs.map_values(|graph: GraphInfoModel| graph.name)
}

/// Where the cursor lands after a jump to the collection `name`: on the
/// first row of that name, and on the first row of all where there is
/// none.
pub open spec fn cursor_on(rows: Seq<CollectionWithCountModel>, name: Seq<char>) -> usize {
    match collection_names(rows).index_of_first(name) {
        Some(index) => index as usize,
        None => 0,
    }
}

/// The first graph of the list that is called `name`.
pub open spec fn graph_named(graphs: Seq<GraphInfoModel>, name: Seq<char>) -> Option<
    GraphInfoModel,
> {
    match graph_names(graphs).index_of_first(name) {
        Some(index) => Some(graphs[index]),
        None => None,
    }
}

/// The cursor is on a row of a list of `total` rows, or the list is empty.
pub open spec fn cursor_valid(cursor: usize, total: nat) -> bool {
    total == 0 || cursor < total
}

/// The row below `cursor` in a list of `total` rows, which is the first row
/// below the last.
pub open spec fn below(cursor: usize, total: nat) -> int {
    if cursor + 1 == total {
        0
    } else {
        cursor + 1
    }
}

/// The row above `cursor` in a list of `total` rows, which is the last row
/// above the first.
pub open spec fn above(cursor: usize, total: nat) -> int {
    if cursor == 0 {
        total - 1
    } else {
        cursor - 1
    }
}

/// Where the cursor of a list stands when the list is shown again after it
/// was read anew: where it stood, if the list still has that row, and on
/// the first row if not.
pub open spec fn restored_cursor(saved: usize, total: nat) -> usize {
    if saved < total {
        saved
    } else {
        0
    }
}

impl BrowserModel {
    /// The browser before anything was read.
    pub open spec fn initial() -> BrowserModel {
        BrowserModel {
            view: BrowserViewModel::DatabaseList,
            database_stats: Seq::empty(),
            selected_db_index: 0,
            collections: Seq::empty(),
            selected_coll_index: 0,
            graphs: Seq::empty(),
            selected_graph_index: 0,
            collection_details: None,
            scroll_offset: 0,
            accessible: true,
            input: None,
            documents: Seq::empty(),
            navigation_stack: Seq::empty(),
            graph_details: None,
            pending: None,
        }
    }

    /// The lists of the browser can be counted in `usize`.
    pub open spec fn countable(self) -> bool {
        &&& self.database_stats.len() <= usize::MAX
        &&& self.collections.len() <= usize::MAX
        &&& row_count(self.graphs) <= usize::MAX
    }

    /// Each cursor is on a row of its list, unless the list is empty.
    pub open spec fn cursors_valid(self) -> bool {
        &&& cursor_valid(self.selected_db_index, self.database_stats.len())
        &&& cursor_valid(self.selected_coll_index, self.collections.len())
        &&& cursor_valid(self.selected_graph_index, row_count(self.graphs))
    }

    /// What a detail screen shows is held while that screen is shown, and
    /// no longer.
    pub open spec fn details_fit(self) -> bool {
        &&& self.collection_details is Some <==> self.view is CollectionProperties
        &&& self.graph_details is Some <==> self.view is GraphProperties
        &&& self.documents.len() > 0 ==> self.view is DocumentViewer
    }

    /// The collection list of `database` is shown.
    pub open spec fn shows_collections_of(self, database: Seq<char>) -> bool {
        self.view == (BrowserViewModel::CollectionList { database })
    }

    /// The graph list of `database` is shown.
    pub open spec fn shows_graphs_of(self, database: Seq<char>) -> bool {
        self.view == (BrowserViewModel::GraphList { database })
    }

    /// A pending read was asked for on the screen that is shown, with the
    /// text entry closed; and the text entry is open on the collection
    /// list only.
    pub open spec fn pending_fits(self) -> bool {
        &&& self.input is Some ==> self.view is CollectionList && self.pending is None
        &&& match self.pending {
            None => true,
            Some(RequestModel::OpenDatabase { .. }) => self.view is DatabaseList,
            Some(RequestModel::OpenCollection { database, .. }) => self.shows_collections_of(
                database,
            ),
            Some(RequestModel::OpenGraphs { database }) => self.shows_collections_of(database),
            Some(RequestModel::SampleDocuments { database, .. }) => self.shows_collections_of(
                database,
            ),
            Some(RequestModel::JumpToCollection { database, .. }) => self.shows_graphs_of(
                database,
            ),
            Some(RequestModel::ReturnToGraphs { database }) => {
                &&& self.view is CollectionList
                &&& self.navigation_stack.len() > 0
                &&& self.navigation_stack.last().0 == (BrowserViewModel::GraphList { database })
            },
        }
    }

    /// The navigation stack holds graph lists only.
    pub open spec fn stack_of_graph_lists(self) -> bool {
        forall|i: int|
            0 <= i < self.navigation_stack.len() ==> (#[trigger] self.navigation_stack[i]).0
                is GraphList
    }

    /// What holds of the browser at every moment.
    pub open spec fn wf(self) -> bool {
        &&& self.countable()
        &&& self.cursors_valid()
        &&& self.details_fit()
        &&& self.pending_fits()
        &&& self.stack_of_graph_lists()
        &&& in_listed_order(self.collections)
        &&& entry_wf(self.input)
    }

    /// The browser with `request` noted as pending, and the action that
    /// hands the request to the host.
    pub open spec fn ask(self, request: RequestModel) -> (BrowserModel, ActionModel) {
        (BrowserModel { pending: Some(request), ..self }, ActionModel::Fetch(request))
    }

    /// The browser as it is, with nothing for the host to do.
    pub open spec fn stay(self) -> (BrowserModel, ActionModel) {
        (self, ActionModel::Continue)
    }
}

/// The browser after the database list was read, or could not be read. A
/// list that came replaces the rows and puts the cursor on the first; a
/// failure marks the list as not accessible and keeps the rows.
pub open spec fn databases_loaded(
    s: BrowserModel,
    listing: Option<Seq<DatabaseStatsModel>>,
) -> BrowserModel {
    match listing {
        Some(rows) => BrowserModel {
            accessible: true,
            database_stats: rows,
            selected_db_index: 0,
            ..s
        },
        None => BrowserModel { accessible: false, ..s },
    }
}

/// What a key press does while the text entry is open.
pub open spec fn entry_step(s: BrowserModel, key: Key) -> (BrowserModel, ActionModel)
    recommends
        s.input is Some,
{
    let text = s.input->0;
    let after = BrowserModel { input: entry_after(text, key), ..s };
    if key == Key::Enter {
        match s.view {
            BrowserViewModel::CollectionList { database } => {
                if s.selected_coll_index < s.collections.len() {
                    after.ask(
                        RequestModel::SampleDocuments {
                            database,
                            collection: s.collections[s.selected_coll_index as int].info.name,
                            limit: confirmed_count(text),
                        },
                    )
                } else {
                    after.stay()
                }
            },
            _ => after.stay(),
        }
    } else {
        after.stay()
    }
}

/// What a command does on the database list.
pub open spec fn database_list_step(s: BrowserModel, command: Command) -> (
    BrowserModel,
    ActionModel,
) {
    let rows = s.database_stats;
    let cursor = s.selected_db_index;
    match command {
        Command::Leave => (s, ActionModel::Quit),
        Command::Down => BrowserModel {
            selected_db_index: next_position(cursor as int, rows.len() as int) as usize,
            ..s
        }.stay(),
        Command::Up => BrowserModel {
            selected_db_index: previous_position(cursor as int, rows.len() as int) as usize,
            ..s
        }.stay(),
        Command::Activate => {
            if cursor < rows.len() && rows[cursor as int].accessible {
                s.ask(RequestModel::OpenDatabase { database: rows[cursor as int].name })
            } else {
                s.stay()
            }
        },
        _ => s.stay(),
    }
}

/// The browser after leaving a database for the database list.
pub open spec fn database_left(s: BrowserModel) -> BrowserModel {
    BrowserModel { view: BrowserViewModel::DatabaseList, collections: Seq::empty(), ..s }
}

/// What a command does on the collection list of `database`.
pub open spec fn collection_list_step(s: BrowserModel, database: Seq<char>, command: Command) -> (
    BrowserModel,
    ActionModel,
) {
    let rows = s.collections;
    let cursor = s.selected_coll_index;
    match command {
        Command::Leave => database_left(s).stay(),
        Command::Back => {
            if s.navigation_stack.len() == 0 {
                database_left(s).stay()
            } else {
                match s.navigation_stack.last().0 {
                    BrowserViewModel::GraphList { database: origin } => s.ask(
                        RequestModel::ReturnToGraphs { database: origin },
                    ),
                    other => BrowserModel {
                        view: other,
                        navigation_stack: s.navigation_stack.drop_last(),
                        ..s
                    }.stay(),
                }
            }
        },
        Command::OpenGraphs => s.ask(RequestModel::OpenGraphs { database }),
        Command::SampleDocuments => BrowserModel { input: Some(Seq::empty()), ..s }.stay(),
        Command::Down => BrowserModel {
            selected_coll_index: next_position(cursor as int, rows.len() as int) as usize,
            ..s
        }.stay(),
        Command::Up => BrowserModel {
            selected_coll_index: previous_position(cursor as int, rows.len() as int) as usize,
            ..s
        }.stay(),
        Command::Activate => {
            if cursor < rows.len() {
                s.ask(
                    RequestModel::OpenCollection {
                        database,
                        collection: rows[cursor as int].info.name,
                    },
                )
            } else {
                s.stay()
            }
        },
        _ => s.stay(),
    }
}

/// What a command does on the graph list of `database`. The cursor moves
/// over the rows of the list; it stays where `usize` cannot count them.
pub open spec fn graph_list_step(s: BrowserModel, database: Seq<char>, command: Command) -> (
    BrowserModel,
    ActionModel,
) {
    let cursor = s.selected_graph_index;
    let total = row_count(s.graphs);
    match command {
        Command::Leave => BrowserModel {
            view: BrowserViewModel::DatabaseList,
            graphs: Seq::empty(),
            ..s
        }.stay(),
        Command::OpenCollections => BrowserModel {
            view: BrowserViewModel::CollectionList { database },
            ..s
        }.stay(),
        Command::Activate => match row_at(s.graphs, cursor as int) {
            Some(GraphRowModel::Graph { graph }) => BrowserModel {
                view: BrowserViewModel::GraphProperties { database, graph: s.graphs[graph].name },
                graph_details: graph_named(s.graphs, s.graphs[graph].name),
                scroll_offset: 0,
                ..s
            }.stay(),
            Some(GraphRowModel::Edge { graph, edge }) => s.ask(
                RequestModel::JumpToCollection {
                    database,
                    collection: s.graphs[graph].edge_definitions[edge].collection,
                },
            ),
            _ => s.stay(),
        },
        Command::JumpToVertex => match row_at(s.graphs, cursor as int) {
            Some(GraphRowModel::Edge { graph, edge }) => {
                let from = s.graphs[graph].edge_definitions[edge].from;
                if from.len() > 0 {
                    s.ask(RequestModel::JumpToCollection { database, collection: from[0] })
                } else {
                    s.stay()
                }
            },
            _ => s.stay(),
        },
        Command::Down => if total <= usize::MAX {
            BrowserModel {
                selected_graph_index: next_position(cursor as int, total as int) as usize,
                ..s
            }.stay()
        } else {
            s.stay()
        },
        Command::Up => if total <= usize::MAX {
            BrowserModel {
                selected_graph_index: previous_position(cursor as int, total as int) as usize,
                ..s
            }.stay()
        } else {
            s.stay()
        },
        _ => s.stay(),
    }
}

/// What a command does on one of the three detail screens, where
/// `closed` is the browser after the screen was closed.
pub open spec fn detail_step(s: BrowserModel, closed: BrowserModel, command: Command) -> (
    BrowserModel,
    ActionModel,
) {
    match command {
        Command::Leave => closed.stay(),
        Command::Down => BrowserModel {
            scroll_offset: s.scroll_offset.saturating_add(1),
            ..s
        }.stay(),
        Command::Up => BrowserModel {
            scroll_offset: s.scroll_offset.saturating_sub(1),
            ..s
        }.stay(),
        Command::PageDown => BrowserModel {
            scroll_offset: s.scroll_offset.saturating_add(PAGE_ROWS),
            ..s
        }.stay(),
        Command::PageUp => BrowserModel {
            scroll_offset: s.scroll_offset.saturating_sub(PAGE_ROWS),
            ..s
        }.stay(),
        _ => s.stay(),
    }
}

/// The browser after the detail screen that is shown was closed: the
/// screen above it is shown, what the detail screen showed is dropped, and
/// the text stands at its top.
pub open spec fn detail_closed(s: BrowserModel) -> BrowserModel {
    match s.view {
        BrowserViewModel::CollectionProperties { database, collection } => BrowserModel {
            view: BrowserViewModel::CollectionList { database },
            collection_details: None,
            scroll_offset: 0,
            ..s
        },
        BrowserViewModel::DocumentViewer { database, collection } => BrowserModel {
            view: BrowserViewModel::CollectionList { database },
            documents: Seq::empty(),
            scroll_offset: 0,
            ..s
        },
        BrowserViewModel::GraphProperties { database, graph } => BrowserModel {
            view: BrowserViewModel::GraphList { database },
            graph_details: None,
            scroll_offset: 0,
            ..s
        },
        _ => s,
    }
}

/// What a command does while the text entry is closed.
pub open spec fn command_step(s: BrowserModel, command: Command) -> (BrowserModel, ActionModel) {
    match s.view {
        BrowserViewModel::DatabaseList => database_list_step(s, command),
        BrowserViewModel::CollectionList { database } => collection_list_step(s, database, command),
        BrowserViewModel::GraphList { database } => graph_list_step(s, database, command),
        _ => detail_step(s, detail_closed(s), command),
    }
}

/// What a key press does: the browser after it, and what the host is to
/// do.
pub open spec fn step(s: BrowserModel, key: Key) -> (BrowserModel, ActionModel) {
    if s.pending is Some {
        s.stay()
    } else if s.input is Some {
        entry_step(s, key)
    } else {
        command_step(s, command_of(key))
    }
}

/// The browser after a collection list was read: the rows in their order,
/// the cursor on row `cursor`, the collection list of `database` shown.
pub open spec fn collections_shown(
    s: BrowserModel,
    database: Seq<char>,
    rows: Seq<CollectionWithCountModel>,
    cursor: usize,
) -> BrowserModel {
    BrowserModel {
        view: BrowserViewModel::CollectionList { database },
        collections: listed(rows),
        selected_coll_index: cursor,
        scroll_offset: 0,
        ..s
    }
}

/// The browser after a graph list was read: the graphs as they came, the
/// cursor on row `cursor`, and `view` shown.
pub open spec fn graphs_shown(
    s: BrowserModel,
    view: BrowserViewModel,
    graphs: Seq<GraphInfoModel>,
    cursor: usize,
) -> BrowserModel {
    BrowserModel { view, graphs, selected_graph_index: cursor, scroll_offset: 0, ..s }
}

/// What the end of a read does. Without a pending read nothing changes.
/// Otherwise the read is no longer pending, and where the answer is of
/// the kind that was asked for the transition is completed. A graph list
/// whose rows `usize` cannot count is taken as a failed read. On the way
/// back from a jump the cursor of the graph list stands where it stood
/// before the jump, unless the list that was read has no such row any
/// more.
pub open spec fn complete(s: BrowserModel, response: ResponseModel) -> BrowserModel {
    match s.pending {
        None => s,
        Some(request) => {
            let idle = BrowserModel { pending: None, ..s };
            match (request, response) {
                (
                    RequestModel::OpenDatabase { database },
                    ResponseModel::Collections(rows),
                ) => collections_shown(idle, database, rows, 0),
                (
                    RequestModel::OpenCollection { database, collection },
                    ResponseModel::CollectionDetails(details),
                ) => BrowserModel {
                    view: BrowserViewModel::CollectionProperties { database, collection },
                    collection_details: Some(details),
                    scroll_offset: 0,
                    ..idle
                },
                (RequestModel::OpenGraphs { database }, ResponseModel::Graphs(graphs)) => {
                    if row_count(graphs) <= usize::MAX {
                        graphs_shown(idle, BrowserViewModel::GraphList { database }, graphs, 0)
                    } else {
                        idle
                    }
                },
                (
                    RequestModel::SampleDocuments { database, collection, limit },
                    ResponseModel::Documents(documents),
                ) => BrowserModel {
                    view: BrowserViewModel::DocumentViewer { database, collection },
                    documents,
                    scroll_offset: 0,
                    ..idle
                },
                (
                    RequestModel::JumpToCollection { database, collection },
                    ResponseModel::Collections(rows),
                ) => collections_shown(
                    BrowserModel {
                        navigation_stack: s.navigation_stack.push((s.view, s.selected_graph_index)),
                        ..idle
                    },
                    database,
                    rows,
                    cursor_on(listed(rows), collection),
                ),
                (RequestModel::ReturnToGraphs { database }, ResponseModel::Graphs(graphs)) => {
                    if row_count(graphs) <= usize::MAX && s.navigation_stack.len() > 0 {
                        graphs_shown(
                            BrowserModel {
                                navigation_stack: s.navigation_stack.drop_last(),
                                ..idle
                            },
                            s.navigation_stack.last().0,
                            graphs,
                            restored_cursor(s.navigation_stack.last().1, row_count(graphs)),
                        )
                    } else {
                        idle
                    }
                },
                _ => idle,
            }
        },
    }
}

/// The same browser but for the pending read.
pub open spec fn same_but_pending(a: BrowserModel, b: BrowserModel) -> bool {
    a == (BrowserModel { pending: a.pending, ..b })
}

/// The collection list of `response`, if it holds one, can be counted in
/// `usize`, as every list that was read can.
pub open spec fn response_countable(response: ResponseModel) -> bool {
    match response {
        ResponseModel::Collections(rows) => rows.len() <= usize::MAX,
        _ => true,
    }
}

/// `response` is an answer of the kind that `request` asks for.
pub open spec fn answers(request: RequestModel, response: ResponseModel) -> bool {
    match request {
        RequestModel::OpenDatabase { .. } => response is Collections,
        RequestModel::JumpToCollection { .. } => response is Collections,
        RequestModel::OpenCollection { .. } => response is CollectionDetails,
        RequestModel::OpenGraphs { .. } => response is Graphs,
        RequestModel::ReturnToGraphs { .. } => response is Graphs,
        RequestModel::SampleDocuments { .. } => response is Documents,
    }
}

/// A key press leaves a well-formed browser well-formed.
pub proof fn lemma_step_keeps_wf(s: BrowserModel, key: Key)
    requires
        s.wf(),
    ensures
        step(s, key).0.wf(),
{
    if s.pending is None {
        if s.input is Some {
            lemma_entry_stays_digits(s.input->0, key);
        } else {
            lemma_empty_entry();
            let command = command_of(key);
            match s.view {
                BrowserViewModel::DatabaseList => {
                    lemma_moves_keep_valid(s.selected_db_index, s.database_stats.len());
                },
                BrowserViewModel::CollectionList { database } => {
                    lemma_moves_keep_valid(s.selected_coll_index, s.collections.len());
                    if command == Command::Back && s.navigation_stack.len() > 0 {
                        assert(s.navigation_stack[s.navigation_stack.len() - 1].0 is GraphList);
                    }
                },
                BrowserViewModel::GraphList { database } => {
                    lemma_moves_keep_valid(s.selected_graph_index, row_count(s.graphs));
                    lemma_rows_total(s.graphs, s.selected_graph_index as int);
                    if command == Command::Activate {
                        match row_at(s.graphs, s.selected_graph_index as int) {
                            Some(GraphRowModel::Graph { graph }) => {
                                lemma_graph_named(s.graphs, graph);
                            },
                            _ => {},
                        }
                    }
                    if command == Command::Leave {
                        assert(row_count(Seq::<GraphInfoModel>::empty()) == 0);
                    }
                },
                _ => {},
            }
        }
    }
}

proof fn lemma_moves_keep_valid(cursor: usize, total: nat)
    requires
        total <= usize::MAX,
        cursor_valid(cursor, total),
    ensures
        cursor_valid(next_position(cursor as int, total as int) as usize, total),
        cursor_valid(previous_position(cursor as int, total as int) as usize, total),
{
    if total > 0 {
        lemma_cursor_moves(cursor as int, total as int);
    }
}

/// The end of a read leaves a well-formed browser well-formed.
pub proof fn lemma_complete_keeps_wf(s: BrowserModel, response: ResponseModel)
    requires
        s.wf(),
        response_countable(response),
    ensures
        complete(s, response).wf(),
{
    match response {
        ResponseModel::Collections(rows) => {
            lemma_listed_in_order(rows);
            lemma_listed_same_rows(rows);
            match s.pending {
                Some(RequestModel::JumpToCollection { database, collection }) => {
                    lemma_cursor_on(listed(rows), collection);
                    let pushed = s.navigation_stack.push((s.view, s.selected_graph_index));
                    assert forall|i: int| 0 <= i < pushed.len() implies (#[trigger] pushed[i]).0
                        is GraphList by {
                        if i < s.navigation_stack.len() {
                            assert(pushed[i] == s.navigation_stack[i]);
                        }
                    }
                },
                _ => {},
            }
        },
        ResponseModel::Graphs(graphs) => {
            match s.pending {
                Some(RequestModel::ReturnToGraphs { database }) => {
                    let popped = s.navigation_stack.drop_last();
                    assert forall|i: int| 0 <= i < popped.len() implies (#[trigger] popped[i]).0
                        is GraphList by {
                        assert(popped[i] == s.navigation_stack[i]);
                    }
                },
                _ => {},
            }
        },
        _ => {},
    }
}

/// Taking a database list leaves a well-formed browser well-formed.
pub proof fn lemma_databases_loaded_keeps_wf(
    s: BrowserModel,
    listing: Option<Seq<DatabaseStatsModel>>,
)
    requires
        s.wf(),
        listing matches Some(rows) ==> rows.len() <= usize::MAX,
    ensures
        databases_loaded(s, listing).wf(),
{
}

/// A new browser is well-formed.
pub proof fn lemma_initial_wf()
    ensures
        BrowserModel::initial().wf(),
{
    assert(row_count(Seq::<GraphInfoModel>::empty()) == 0);
}

/// The collection list that is shown after a read holds the rows that
/// came, each as often as it came, with the collections of the user above
/// the system collections and each group by name.
pub proof fn lemma_collections_listed(s: BrowserModel, rows: Seq<CollectionWithCountModel>)
    requires
        s.pending matches Some(request) && (request is OpenDatabase
            || request is JumpToCollection),
    ensures
        complete(s, ResponseModel::Collections(rows)).collections == listed(rows),
        complete(s, ResponseModel::Collections(rows)).collections.to_multiset()
            == rows.to_multiset(),
        in_listed_order(complete(s, ResponseModel::Collections(rows)).collections),
{
    lemma_listed_in_order(rows);
    lemma_listed_same_rows(rows);
}

/// While a read is pending no key press changes anything.
pub proof fn lemma_pending_ignores_keys(s: BrowserModel, key: Key)
    requires
        s.pending is Some,
    ensures
        step(s, key) == (s, ActionModel::Continue),
{
}

/// A key press that asks for a read notes the read as pending and hands
/// the same read to the host. Such a key press changes nothing else,
/// unless it confirms the text entry, which it then closes.
pub proof fn lemma_asking_changes_nothing(s: BrowserModel, key: Key)
    requires
        s.pending is None,
    ensures
        step(s, key).1 matches ActionModel::Fetch(request) ==> {
            &&& step(s, key).0.pending == Some(request)
            &&& same_but_pending(step(s, key).0, BrowserModel { input: None, ..s })
            &&& s.input is Some ==> key == Key::Enter
        },
        !(step(s, key).1 is Fetch) ==> step(s, key).0.pending is None,
{
}

/// A failed read leaves the browser as it was before the key press that
/// asked for it, and so does an answer of another kind than was asked
/// for.
pub proof fn lemma_failure_changes_nothing(s: BrowserModel, response: ResponseModel)
    requires
        s.pending matches Some(request) && !answers(request, response),
    ensures
        complete(s, response) == (BrowserModel { pending: None, ..s }),
        !answers(s.pending->0, ResponseModel::Failed),
{
}

/// Without a pending read an answer changes nothing.
pub proof fn lemma_unasked_answer(s: BrowserModel, response: ResponseModel)
    requires
        s.pending is None,
    ensures
        complete(s, response) == s,
{
}

/// While the text entry is open, a key press changes nothing but the
/// entry: the screen, the lists, the cursors and the navigation stack stay
/// as they are, whatever the key. Only enter asks for a read, and only for
/// a sample of the collection under the cursor of the collection list,
/// with the count that the text denotes.
pub proof fn lemma_modal_isolation(s: BrowserModel, key: Key)
    requires
        s.pending is None,
        s.input is Some,
    ensures
        same_but_pending(
            step(s, key).0,
            BrowserModel { input: entry_after(s.input->0, key), ..s },
        ),
        step(s, key).1 is Continue || step(s, key).1 is Fetch,
        step(s, key).1 is Fetch ==> key == Key::Enter,
        step(s, key).1 matches ActionModel::Fetch(request) ==> {
            &&& s.view matches BrowserViewModel::CollectionList { database }
            &&& s.selected_coll_index < s.collections.len()
            &&& request == (RequestModel::SampleDocuments {
                database,
                collection: s.collections[s.selected_coll_index as int].info.name,
                limit: confirmed_count(s.input->0),
            })
        },
        !(key is Char) && key != Key::Backspace && key != Key::Enter && key != Key::Esc ==> step(
            s,
            key,
        ) == (s, ActionModel::Continue),
{
}

/// On a detail screen no key press asks for a read, and no key press but
/// the one that closes the screen changes anything but how far the text
/// is moved.
pub proof fn lemma_detail_scrolls(s: BrowserModel, key: Key)
    requires
        s.pending is None,
        s.input is None,
        s.view is CollectionProperties || s.view is DocumentViewer || s.view is GraphProperties,
    ensures
        step(s, key).1 is Continue,
        command_of(key) != Command::Leave ==> step(s, key).0 == (BrowserModel {
            scroll_offset: step(s, key).0.scroll_offset,
            ..s
        }),
        command_of(key) == Command::Leave ==> step(s, key).0 == detail_closed(s)
            && detail_closed(s).scroll_offset == 0,
        command_of(key) == Command::Down ==> step(s, key).0.scroll_offset == if s.scroll_offset
            < usize::MAX {
            s.scroll_offset + 1
        } else {
            usize::MAX as int
        },
        command_of(key) == Command::Up ==> step(s, key).0.scroll_offset == if s.scroll_offset > 0 {
            s.scroll_offset - 1
        } else {
            0
        },
{
}

/// The key that asks for a sample opens the text entry with no text and
/// changes nothing else. Confirming the entry then asks for as many
/// documents as its text denotes, and for the default count where the
/// text is still empty.
pub proof fn lemma_sample_entry_opens_empty(s: BrowserModel)
    requires
        s.pending is None,
        s.input is None,
        s.view is CollectionList,
    ensures
        step(s, Key::Char(' ')) == (
            BrowserModel { input: Some(Seq::empty()), ..s },
            ActionModel::Continue,
        ),
        confirmed_count(Seq::<char>::empty()) == DEFAULT_DOCUMENT_COUNT,
{
}

/// Activating a database that could not be read changes nothing.
pub proof fn lemma_inaccessible_database(s: BrowserModel)
    requires
        s.pending is None,
        s.input is None,
        s.view is DatabaseList,
        s.selected_db_index < s.database_stats.len(),
        !s.database_stats[s.selected_db_index as int].accessible,
    ensures
        step(s, Key::Enter) == (s, ActionModel::Continue),
{
}

/// On each of the three lists the cursor moves in a circle: down from the
/// last row leads to the first, up from the first row to the last, and
/// otherwise to the row below or above.
pub proof fn lemma_cursor_wraps(s: BrowserModel)
    requires
        s.wf(),
        s.pending is None,
        s.input is None,
    ensures
        s.view is DatabaseList && s.database_stats.len() > 0 ==> {
            &&& step(s, Key::Down).0.selected_db_index == below(
                s.selected_db_index,
                s.database_stats.len(),
            )
            &&& step(s, Key::Up).0.selected_db_index == above(
                s.selected_db_index,
                s.database_stats.len(),
            )
        },
        s.view is CollectionList && s.collections.len() > 0 ==> {
            &&& step(s, Key::Down).0.selected_coll_index == below(
                s.selected_coll_index,
                s.collections.len(),
            )
            &&& step(s, Key::Up).0.selected_coll_index == above(
                s.selected_coll_index,
                s.collections.len(),
            )
        },
        s.view is GraphList && s.graphs.len() > 0 ==> {
            &&& step(s, Key::Down).0.selected_graph_index == below(
                s.selected_graph_index,
                row_count(s.graphs),
            )
            &&& step(s, Key::Up).0.selected_graph_index == above(
                s.selected_graph_index,
                row_count(s.graphs),
            )
        },
{
    if s.view is DatabaseList && s.database_stats.len() > 0 {
        let total = s.database_stats.len() as int;
        lemma_wraparound(total);
        lemma_cursor_moves(s.selected_db_index as int, total);
    }
    if s.view is CollectionList && s.collections.len() > 0 {
        let total = s.collections.len() as int;
        lemma_wraparound(total);
        lemma_cursor_moves(s.selected_coll_index as int, total);
    }
    if s.view is GraphList && s.graphs.len() > 0 {
        let total = row_count(s.graphs) as int;
        lemma_wraparound(total);
        lemma_cursor_moves(s.selected_graph_index as int, total);
    }
}

/// A jump from an edge definition of the graph list and the way back.
///
/// Activating an edge row asks for the collections of the database. When
/// they have come, the graph list and its cursor lie on top of the
/// navigation stack, the collection list is shown, and its cursor is on
/// the edge collection if the list holds it, and on the first row if not.
/// Going back from there asks for the graphs of the same database. When
/// they have come, the graph list is shown again with the graphs that were
/// just read, and the navigation stack is as it was before the jump. The
/// cursor is where it was, if the list that was read still has that row,
/// as it has when the graphs are the same as before.
pub proof fn lemma_jump_and_return(
    s: BrowserModel,
    database: Seq<char>,
    rows: Seq<CollectionWithCountModel>,
    graphs: Seq<GraphInfoModel>,
)
    requires
        s.pending is None,
        s.input is None,
        s.view == (BrowserViewModel::GraphList { database }),
        row_at(s.graphs, s.selected_graph_index as int) matches Some(GraphRowModel::Edge { .. }),
        row_count(graphs) <= usize::MAX,
    ensures
        ({
            let edge_row = row_at(s.graphs, s.selected_graph_index as int)->0;
            let definitions = s.graphs[edge_row->Edge_graph].edge_definitions;
            let target = definitions[edge_row->Edge_edge].collection;
            let jump = RequestModel::JumpToCollection { database, collection: target };
            let asked = step(s, Key::Enter);
            let jumped = complete(asked.0, ResponseModel::Collections(rows));
            let back = step(jumped, Key::Backspace);
            let returned = complete(back.0, ResponseModel::Graphs(graphs));
            &&& asked == s.ask(jump)
            &&& jumped.view == (BrowserViewModel::CollectionList { database })
            &&& jumped.collections == listed(rows)
            &&& jumped.selected_coll_index == cursor_on(listed(rows), target)
            &&& jumped.navigation_stack == s.navigation_stack.push(
                (s.view, s.selected_graph_index),
            )
            &&& jumped.pending is None
            &&& back == jumped.ask(RequestModel::ReturnToGraphs { database })
            &&& returned.view == s.view
            &&& returned.selected_graph_index == restored_cursor(
                s.selected_graph_index,
                row_count(graphs),
            )
            &&& graphs == s.graphs ==> returned.selected_graph_index == s.selected_graph_index
            &&& returned.graphs == graphs
            &&& returned.navigation_stack == s.navigation_stack
            &&& returned.pending is None
        }),
{
    let pushed = s.navigation_stack.push((s.view, s.selected_graph_index));
    assert(pushed.drop_last() =~= s.navigation_stack);
    lemma_rows_total(s.graphs, s.selected_graph_index as int);
}

/// Where the cursor lands after a jump: on a row of the name that was
/// asked for, with no row of that name above it, if the list holds such a
/// row, and on the first row otherwise.
pub proof fn lemma_cursor_on(rows: Seq<CollectionWithCountModel>, name: Seq<char>)
    requires
        rows.len() <= usize::MAX,
    ensures
        (exists|i: int| 0 <= i < rows.len() && rows[i].info.name == name) ==> {
            &&& cursor_on(rows, name) < rows.len()
            &&& rows[cursor_on(rows, name) as int].info.name == name
            &&& forall|j: int| 0 <= j < cursor_on(rows, name) ==> rows[j].info.name != name
        },
        (forall|i: int| 0 <= i < rows.len() ==> rows[i].info.name != name) ==> cursor_on(
            rows,
            name,
        ) == 0,
{
    let names = collection_names(rows);
    names.index_of_first_ensures(name);
    if exists|i: int| 0 <= i < rows.len() && rows[i].info.name == name {
        let i = choose|i: int| 0 <= i < rows.len() && rows[i].info.name == name;
        assert(names[i] == name);
        assert(names.contains(name));
        let found = names.index_of_first(name)->0;
        assert forall|j: int| 0 <= j < found implies rows[j].info.name != name by {
            assert(names[j] != name);
        }
    } else {
        assert forall|i: int| 0 <= i < names.len() implies names[i] != name by {
            assert(rows[i].info.name != name);
        }
    }
}

/// The graph whose properties are shown after a header row was activated
/// is a graph of the list that has the name of the row's graph, and it is
/// the row's graph itself where no graph above it has the same name.
pub proof fn lemma_graph_named(graphs: Seq<GraphInfoModel>, graph: int)
    requires
        0 <= graph < graphs.len(),
    ensures
        graph_named(graphs, graphs[graph].name) matches Some(found) && found.name
            == graphs[graph].name,
        (forall|j: int| 0 <= j < graph ==> graphs[j].name != graphs[graph].name) ==> graph_named(
            graphs,
            graphs[graph].name,
        ) == Some(graphs[graph]),
{
    let names = graph_names(graphs);
    let name = graphs[graph].name;
    names.index_of_first_ensures(name);
    assert(names[graph] == name);
    assert(names.contains(name));
    let found = names.index_of_first(name)->0;
    if forall|j: int| 0 <= j < graph ==> graphs[j].name != graphs[graph].name {
        if found < graph {
            assert(names[found] == graphs[found].name);
        }
        if graph < found {
            assert(names[graph] == name);
        }
    }
}

} // verus!
