//! The browser itself: the state that the host shows, the key presses it
//! takes and the answers it is given.

use crate::data::{CollectionCount, CollectionWithCount, DatabaseStats, GraphInfo};
use crate::listing::{listed, sort_collections};
use crate::machine::{
    collection_list_step, collection_names, collections_shown, complete, cursor_on,
    database_left, database_list_step, databases_loaded, detail_closed, detail_step, entry_step,
    graph_list_step, graph_named, graph_names, graphs_shown, lemma_complete_keeps_wf,
    lemma_databases_loaded_keeps_wf, lemma_initial_wf, lemma_step_keeps_wf, step, BrowserModel,
    PAGE_ROWS,
};
use crate::modal::InputModal;
use crate::selection::{
    lemma_rows_total, locate, next_index, previous_index, row_at, total_rows, GraphRow,
    GraphRowModel,
};
use crate::view::{
    command_for, Action, BrowserView, BrowserViewModel, Command, Key, Request, Response,
};
use vstd::prelude::*;

verus! {

/// The browser of one server: the screen that is shown, the lists and
/// details that were read, the cursors, the text entry, the navigation
/// stack and the read that is pending. Its model is a
/// [`BrowserModel`], which says what each part is.
#[derive(Debug)]
pub struct DatabaseBrowser {
    view: BrowserView,
    database_stats: Vec<DatabaseStats>,
    selected_db_index: usize,
    collections: Vec<CollectionWithCount>,
    selected_coll_index: usize,
    graphs: Vec<GraphInfo>,
    selected_graph_index: usize,
    collection_details: Option<CollectionCount>,
    scroll_offset: usize,
    accessible: bool,
    input_state: InputModal,
    documents: Vec<serde_json::Value>,
    navigation_stack: Vec<(BrowserView, usize)>,
    graph_details: Option<GraphInfo>,
    pending: Option<Request>,
}

impl View for DatabaseBrowser {
    type V = BrowserModel;

    closed spec fn view(&self) -> BrowserModel {
        BrowserModel {
            view: self.view@,
            database_stats: self.database_stats.deep_view(),
            selected_db_index: self.selected_db_index,
            collections: self.collections.deep_view(),
            selected_coll_index: self.selected_coll_index,
            graphs: self.graphs.deep_view(),
            selected_graph_index: self.selected_graph_index,
            collection_details: self.collection_details,
            scroll_offset: self.scroll_offset,
            accessible: self.accessible,
            input: self.input_state@,
            documents: self.documents@,
            navigation_stack: self.navigation_stack.deep_view(),
            graph_details: self.graph_details.deep_view(),
            pending: self.pending.deep_view(),
        }
    }
}

proof fn lemma_first_index(names: Seq<Seq<char>>, name: Seq<char>, found: Option<int>)
    requires
        match found {
            Some(index) => {
                &&& 0 <= index < names.len()
                &&& names[index] == name
                &&& forall|j: int| 0 <= j < index ==> names[j] != name
            },
            None => forall|j: int| 0 <= j < names.len() ==> names[j] != name,
        },
    ensures
        names.index_of_first(name) == found,
{
    names.index_of_first_ensures(name);
    match found {
        Some(index) => {
            assert(names.contains(name));
        },
        None => {},
    }
}

/// The first row of `rows` that is called `name`.
pub fn find_collection(rows: &Vec<CollectionWithCount>, name: &String) -> (found: Option<usize>)
    ensures
        match found {
            Some(index) => index < rows.len() && collection_names(
                rows.deep_view(),
            ).index_of_first(name@) == Some(index as int),
            None => collection_names(rows.deep_view()).index_of_first(name@) is None,
        },
{
    let ghost names = collection_names(rows.deep_view());
    let mut i: usize = 0;
    while i < rows.len()
        invariant
            names == collection_names(rows.deep_view()),
            0 <= i <= rows.len(),
            forall|j: int| 0 <= j < i ==> names[j] != name@,
        decreases rows.len() - i,
    {
        if rows[i].info.name == *name {
            proof {
                lemma_first_index(names, name@, Some(i as int));
            }
            return Some(i);
        }
        i = i + 1;
    }
    proof {
        lemma_first_index(names, name@, None);
    }
    None
}

/// The first graph of `graphs` that is called `name`.
pub fn find_graph(graphs: &Vec<GraphInfo>, name: &String) -> (found: Option<usize>)
    ensures
        match found {
            Some(index) => index < graphs.len() && graph_names(
                graphs.deep_view(),
            ).index_of_first(name@) == Some(index as int),
            None => graph_names(graphs.deep_view()).index_of_first(name@) is None,
        },
{
    let ghost names = graph_names(graphs.deep_view());
    let mut i: usize = 0;
    while i < graphs.len()
        invariant
            names == graph_names(graphs.deep_view()),
            0 <= i <= graphs.len(),
            forall|j: int| 0 <= j < i ==> names[j] != name@,
        decreases graphs.len() - i,
    {
        if graphs[i].name == *name {
            proof {
                lemma_first_index(names, name@, Some(i as int));
            }
            return Some(i);
        }
        i = i + 1;
    }
    proof {
        lemma_first_index(names, name@, None);
    }
    None
}

impl DatabaseBrowser {
    /// A browser that shows the database list and has read nothing yet.
    pub fn new() -> (browser: Self)
        ensures
            browser@ == BrowserModel::initial(),
            browser@.wf(),
    {
        let browser = DatabaseBrowser {
            view: BrowserView::DatabaseList,
            database_stats: Vec::new(),
            selected_db_index: 0,
            collections: Vec::new(),
            selected_coll_index: 0,
            graphs: Vec::new(),
            selected_graph_index: 0,
            collection_details: None,
            scroll_offset: 0,
            accessible: true,
            input_state: InputModal::new(),
            documents: Vec::new(),
            navigation_stack: Vec::new(),
            graph_details: None,
            pending: None,
        };
        proof {
            assert(browser.database_stats.deep_view() =~= Seq::empty());
            assert(browser.collections.deep_view() =~= Seq::empty());
            assert(browser.graphs.deep_view() =~= Seq::empty());
            assert(browser.navigation_stack.deep_view() =~= Seq::empty());
            lemma_initial_wf();
        }
        browser
    }

    /// Takes the database list that was read, or the news that it could
    /// not be read. A list replaces the rows and puts the cursor on the
    /// first row; a failure marks the list as not accessible.
    pub fn load_databases(&mut self, listing: Option<Vec<DatabaseStats>>)
        ensures
            final(self)@ == databases_loaded(old(self)@, listing.deep_view()),
            old(self)@.wf() ==> final(self)@.wf(),
    {
        proof {
            if let Some(rows) = &listing {
                assert(rows.deep_view().len() == rows.len());
            }
            if self@.wf() {
                lemma_databases_loaded_keeps_wf(self@, listing.deep_view());
            }
        }
        match listing {
            Some(rows) => {
                self.accessible = true;
                self.database_stats = rows;
                self.selected_db_index = 0;
            },
            None => {
                self.accessible = false;
            },
        }
    }

    fn ask(&mut self, request: Request) -> (action: Action)
        ensures
            (final(self)@, action@) == old(self)@.ask(request@),
    {
        self.pending = Some(request.clone());
        Action::Fetch(request)
    }

    fn on_entry_key(&mut self, key: Key) -> (action: Action)
        requires
            old(self)@.input is Some,
        ensures
            (final(self)@, action@) == entry_step(old(self)@, key),
    {
        match self.input_state.handle_key(key) {
            Some(limit) => {
                if self.selected_coll_index < self.collections.len() {
                    match &self.view {
                        BrowserView::CollectionList { database } => {
                            let database = database.clone();
                            let row = &self.collections[self.selected_coll_index];
                            let collection = row.info.name.clone();
                            self.ask(Request::SampleDocuments { database, collection, limit })
                        },
                        _ => Action::Continue,
                    }
                } else {
                    Action::Continue
                }
            },
            None => Action::Continue,
        }
    }

    fn on_database_list(&mut self, command: Command) -> (action: Action)
        ensures
            (final(self)@, action@) == database_list_step(old(self)@, command),
    {
        match command {
            Command::Leave => Action::Quit,
            Command::Down => {
                self.selected_db_index = next_index(
                    self.selected_db_index,
                    self.database_stats.len(),
                );
                Action::Continue
            },
            Command::Up => {
                self.selected_db_index = previous_index(
                    self.selected_db_index,
                    self.database_stats.len(),
                );
                Action::Continue
            },
            Command::Activate => {
                if self.selected_db_index < self.database_stats.len()
                    && self.database_stats[self.selected_db_index].accessible {
                    let database = self.database_stats[self.selected_db_index].name.clone();
                    self.ask(Request::OpenDatabase { database })
                } else {
                    Action::Continue
                }
            },
            _ => Action::Continue,
        }
    }

    fn leave_database(&mut self)
        ensures
            final(self)@ == database_left(old(self)@),
    {
        self.view = BrowserView::DatabaseList;
        self.collections.clear();
        proof {
            assert(self.collections.deep_view() =~= Seq::empty());
        }
    }

    fn on_collection_list(&mut self, database: String, command: Command) -> (action: Action)
        ensures
            (final(self)@, action@) == collection_list_step(old(self)@, database@, command),
    {
        match command {
            Command::Leave => {
                self.leave_database();
                Action::Continue
            },
            Command::Back => {
                let depth = self.navigation_stack.len();
                if depth == 0 {
                    self.leave_database();
                    Action::Continue
                } else {
                    let origin = self.navigation_stack[depth - 1].0.clone();
                    match origin {
                        BrowserView::GraphList { database: origin } => self.ask(
                            Request::ReturnToGraphs { database: origin },
                        ),
                        other => {
                            let ghost before = self.navigation_stack.deep_view();
                            self.navigation_stack.pop();
                            self.view = other;
                            proof {
                                assert(self.navigation_stack.deep_view() =~= before.drop_last());
                            }
                            Action::Continue
                        },
                    }
                }
            },
            Command::OpenGraphs => self.ask(Request::OpenGraphs { database }),
            Command::SampleDocuments => {
                self.input_state.open();
                Action::Continue
            },
            Command::Down => {
                self.selected_coll_index = next_index(
                    self.selected_coll_index,
                    self.collections.len(),
                );
                Action::Continue
            },
            Command::Up => {
                self.selected_coll_index = previous_index(
                    self.selected_coll_index,
                    self.collections.len(),
                );
                Action::Continue
            },
            Command::Activate => {
                if self.selected_coll_index < self.collections.len() {
                    let collection = self.collections[self.selected_coll_index].info.name.clone();
                    self.ask(Request::OpenCollection { database, collection })
                } else {
                    Action::Continue
                }
            },
            _ => Action::Continue,
        }
    }

    fn show_graph(&mut self, database: String, graph: usize)
        requires
            graph < old(self)@.graphs.len(),
        ensures
            final(self)@ == (BrowserModel {
                view: BrowserViewModel::GraphProperties {
                    database: database@,
                    graph: old(self)@.graphs[graph as int].name,
                },
                graph_details: graph_named(
                    old(self)@.graphs,
                    old(self)@.graphs[graph as int].name,
                ),
                scroll_offset: 0,
                ..old(self)@
            }),
    {
        let name = self.graphs[graph].name.clone();
        let details = match find_graph(&self.graphs, &name) {
            Some(index) => Some(self.graphs[index].clone()),
            None => None,
        };
        self.graph_details = details;
        self.scroll_offset = 0;
        self.view = BrowserView::GraphProperties { database, graph: name };
    }

    fn on_graph_list(&mut self, database: String, command: Command) -> (action: Action)
        ensures
            (final(self)@, action@) == graph_list_step(old(self)@, database@, command),
    {
        proof {
            lemma_rows_total(self@.graphs, self.selected_graph_index as int);
        }
        match command {
            Command::Leave => {
                self.view = BrowserView::DatabaseList;
                self.graphs.clear();
                proof {
                    assert(self.graphs.deep_view() =~= Seq::empty());
                }
                Action::Continue
            },
            Command::OpenCollections => {
                self.view = BrowserView::CollectionList { database };
                Action::Continue
            },
            Command::Activate => match locate(&self.graphs, self.selected_graph_index) {
                Some(GraphRow::Graph { graph }) => {
                    self.show_graph(database, graph);
                    Action::Continue
                },
                Some(GraphRow::Edge { graph, edge }) => {
                    let collection = self.graphs[graph].edge_definitions[edge].collection.clone();
                    self.ask(Request::JumpToCollection { database, collection })
                },
                _ => Action::Continue,
            },
            Command::JumpToVertex => match locate(&self.graphs, self.selected_graph_index) {
                Some(GraphRow::Edge { graph, edge }) => {
                    if self.graphs[graph].edge_definitions[edge].from.len() > 0 {
                        let collection = self.graphs[graph].edge_definitions[edge].from[0].clone();
                        self.ask(Request::JumpToCollection { database, collection })
                    } else {
                        Action::Continue
                    }
                },
                _ => Action::Continue,
            },
            Command::Down => {
                match total_rows(&self.graphs) {
                    Some(total) => {
                        self.selected_graph_index = next_index(self.selected_graph_index, total);
                    },
                    None => {},
                }
                Action::Continue
            },
            Command::Up => {
                match total_rows(&self.graphs) {
                    Some(total) => {
                        self.selected_graph_index = previous_index(
                            self.selected_graph_index,
                            total,
                        );
                    },
                    None => {},
                }
                Action::Continue
            },
            _ => Action::Continue,
        }
    }

    fn close_detail(&mut self)
        ensures
            final(self)@ == detail_closed(old(self)@),
    {
        match self.view.clone() {
            BrowserView::CollectionProperties { database, collection } => {
                self.view = BrowserView::CollectionList { database };
                self.collection_details = None;
                self.scroll_offset = 0;
            },
            BrowserView::DocumentViewer { database, collection } => {
                self.view = BrowserView::CollectionList { database };
                self.documents.clear();
                self.scroll_offset = 0;
            },
            BrowserView::GraphProperties { database, graph } => {
                self.view = BrowserView::GraphList { database };
                self.graph_details = None;
                self.scroll_offset = 0;
            },
            _ => {},
        }
    }

    fn on_detail(&mut self, command: Command) -> (action: Action)
        ensures
            (final(self)@, action@) == detail_step(old(self)@, detail_closed(old(self)@), command),
    {
        match command {
            Command::Leave => {
                self.close_detail();
            },
            Command::Down => {
                self.scroll_offset = self.scroll_offset.saturating_add(1);
            },
            Command::Up => {
                self.scroll_offset = self.scroll_offset.saturating_sub(1);
            },
            Command::PageDown => {
                self.scroll_offset = self.scroll_offset.saturating_add(PAGE_ROWS);
            },
            Command::PageUp => {
                self.scroll_offset = self.scroll_offset.saturating_sub(PAGE_ROWS);
            },
            _ => {},
        }
        Action::Continue
    }

    /// Takes a key press and says what the host is to do: nothing, leave
    /// the browser, or perform a read and give its answer to
    /// [`complete`](Self::complete). What the key press does is what
    /// [`step`] says. A key press that asks for a read changes nothing but
    /// to note the read as pending.
    pub fn handle_key(&mut self, key: Key) -> (action: Action)
        ensures
            (final(self)@, action@) == step(old(self)@, key),
            old(self)@.wf() ==> final(self)@.wf(),
    {
        proof {
            if self@.wf() {
                lemma_step_keeps_wf(self@, key);
            }
        }
        self.dispatch(key)
    }

    fn dispatch(&mut self, key: Key) -> (action: Action)
        ensures
            (final(self)@, action@) == step(old(self)@, key),
    {
        if self.pending.is_some() {
            return Action::Continue;
        }
        if self.input_state.is_active() {
            return self.on_entry_key(key);
        }
        let command = command_for(key);
        match self.view.clone() {
            BrowserView::DatabaseList => self.on_database_list(command),
            BrowserView::CollectionList { database } => self.on_collection_list(database, command),
            BrowserView::GraphList { database } => self.on_graph_list(database, command),
            _ => self.on_detail(command),
        }
    }

    fn show_collections(
        &mut self,
        database: String,
        rows: Vec<CollectionWithCount>,
        target: Option<&String>,
    )
        ensures
            final(self)@ == collections_shown(
                old(self)@,
                database@,
                rows.deep_view(),
                match target {
                    Some(name) => cursor_on(listed(rows.deep_view()), name@),
                    None => 0,
                },
            ),
    {
        let mut rows = rows;
        sort_collections(&mut rows);
        let cursor = match target {
            Some(name) => match find_collection(&rows, name) {
                Some(index) => index,
                None => 0,
            },
            None => 0,
        };
        self.collections = rows;
        self.selected_coll_index = cursor;
        self.scroll_offset = 0;
        self.view = BrowserView::CollectionList { database };
    }

    fn show_graphs(&mut self, view: BrowserView, graphs: Vec<GraphInfo>, cursor: usize)
        ensures
            final(self)@ == graphs_shown(old(self)@, view@, graphs.deep_view(), cursor),
    {
        self.graphs = graphs;
        self.selected_graph_index = cursor;
        self.scroll_offset = 0;
        self.view = view;
    }

    /// Takes the answer to the read that is pending, and does what
    /// [`complete`] says: an answer of the kind that was asked for
    /// completes the transition, and a failed read leaves the browser as
    /// it was before the key press that asked for it.
    pub fn complete(&mut self, response: Response)
        ensures
            final(self)@ == complete(old(self)@, response@),
            old(self)@.wf() ==> final(self)@.wf(),
    {
        proof {
            if let Response::Collections(rows) = &response {
                assert(rows.deep_view().len() == rows.len());
            }
            if self@.wf() {
                lemma_complete_keeps_wf(self@, response@);
            }
        }
        self.finish(response)
    }

    fn finish(&mut self, response: Response)
        ensures
            final(self)@ == complete(old(self)@, response@),
    {
        let request = match self.pending.take() {
            Some(request) => request,
            None => {
                return ;
            },
        };
        match request {
            Request::OpenDatabase { database } => match response {
                Response::Collections(rows) => {
                    self.show_collections(database, rows, None);
                },
                _ => {},
            },
            Request::OpenCollection { database, collection } => match response {
                Response::CollectionDetails(details) => {
                    self.collection_details = Some(details);
                    self.scroll_offset = 0;
                    self.view = BrowserView::CollectionProperties { database, collection };
                },
                _ => {},
            },
            Request::OpenGraphs { database } => match response {
                Response::Graphs(graphs) => {
                    if total_rows(&graphs).is_some() {
                        self.show_graphs(BrowserView::GraphList { database }, graphs, 0);
                    }
                },
                _ => {},
            },
            Request::SampleDocuments { database, collection, limit } => match response {
                Response::Documents(documents) => {
                    self.documents = documents;
                    self.scroll_offset = 0;
                    self.view = BrowserView::DocumentViewer { database, collection };
                },
                _ => {},
            },
            Request::JumpToCollection { database, collection } => match response {
                Response::Collections(rows) => {
                    let origin = self.view.clone();
                    let ghost before = self.navigation_stack.deep_view();
                    self.navigation_stack.push((origin, self.selected_graph_index));
                    proof {
                        assert(self.navigation_stack.deep_view() =~= before.push(
                            (old(self)@.view, old(self)@.selected_graph_index),
                        ));
                    }
                    self.show_collections(database, rows, Some(&collection));
                },
                _ => {},
            },
            Request::ReturnToGraphs { database } => match response {
                Response::Graphs(graphs) => match total_rows(&graphs) {
                    Some(total) => {
                        let ghost before = self.navigation_stack.deep_view();
                        match self.navigation_stack.pop() {
                            Some((view, saved)) => {
                                proof {
                                    let after = self.navigation_stack.deep_view();
                                    assert(after =~= before.drop_last());
                                }
                                let cursor = if saved < total {
                                    saved
                                } else {
                                    0
                                };
                                self.show_graphs(view, graphs, cursor);
                            },
                            None => {},
                        }
                    },
                    None => {},
                },
                _ => {},
            },
        }
    }

    /// The graph and, on an edge row, the edge definition that the cursor
    /// of the graph list is on; `None` on a spacer and outside the list.
    pub fn find_selected_graph_item(&self) -> (item: Option<(usize, Option<usize>)>)
        ensures
            item == match row_at(self@.graphs, self@.selected_graph_index as int) {
                Some(GraphRowModel::Graph { graph }) => Some((graph as usize, None::<usize>)),
                Some(GraphRowModel::Edge { graph, edge }) => Some(
                    (graph as usize, Some(edge as usize)),
                ),
                _ => None,
            },
    {
        match locate(&self.graphs, self.selected_graph_index) {
            Some(GraphRow::Graph { graph }) => Some((graph, None)),
            Some(GraphRow::Edge { graph, edge }) => Some((graph, Some(edge))),
            _ => None,
        }
    }
    /// The screen that is shown.
    pub fn current_view(&self) -> (view: &BrowserView)
        ensures
            view@ == self@.view,
    {
        &self.view
    }

    /// The rows of the database list.
    pub fn database_stats(&self) -> (rows: &Vec<DatabaseStats>)
        ensures
            rows.deep_view() == self@.database_stats,
    {
        &self.database_stats
    }

    /// The cursor in the database list.
    pub fn selected_db_index(&self) -> (cursor: usize)
        ensures
            cursor == self@.selected_db_index,
    {
        self.selected_db_index
    }

    /// The rows of the collection list, in the order in which they are
    /// shown.
    pub fn collections(&self) -> (rows: &Vec<CollectionWithCount>)
        ensures
            rows.deep_view() == self@.collections,
    {
        &self.collections
    }

    /// The cursor in the collection list.
    pub fn selected_coll_index(&self) -> (cursor: usize)
        ensures
            cursor == self@.selected_coll_index,
    {
        self.selected_coll_index
    }

    /// The graphs of the graph list.
    pub fn graphs(&self) -> (graphs: &Vec<GraphInfo>)
        ensures
            graphs.deep_view() == self@.graphs,
    {
        &self.graphs
    }

    /// The cursor in the graph list, as a row number.
    pub fn selected_graph_index(&self) -> (cursor: usize)
        ensures
            cursor == self@.selected_graph_index,
    {
        self.selected_graph_index
    }

    /// The properties that the collection properties screen shows.
    pub fn collection_details(&self) -> (details: Option<&CollectionCount>)
        ensures
            details == match self@.collection_details {
                Some(d) => Some(&d),
                None => None,
            },
    {
        self.collection_details.as_ref()
    }

    /// How far the text of a detail screen is moved up.
    pub fn scroll_offset(&self) -> (offset: usize)
        ensures
            offset == self@.scroll_offset,
    {
        self.scroll_offset
    }

    /// Whether the database list could be read.
    pub fn accessible(&self) -> (yes: bool)
        ensures
            yes == self@.accessible,
    {
        self.accessible
    }

    /// The text entry for the document count.
    pub fn input_state(&self) -> (entry: &InputModal)
        ensures
            entry@ == self@.input,
    {
        &self.input_state
    }

    /// The documents that the document screen shows.
    pub fn documents(&self) -> (documents: &Vec<serde_json::Value>)
        ensures
            documents@ == self@.documents,
    {
        &self.documents
    }

    /// The graph lists that jumps came from, the latest last, each with
    /// the cursor it had.
    pub fn navigation_stack(&self) -> (stack: &Vec<(BrowserView, usize)>)
        ensures
            stack.deep_view() == self@.navigation_stack,
    {
        &self.navigation_stack
    }

    /// The graph that the graph properties screen shows.
    pub fn graph_details(&self) -> (details: Option<&GraphInfo>)
        ensures
            details.deep_view() == self@.graph_details,
    {
        self.graph_details.as_ref()
    }

    /// The read that a transition waits for.
    pub fn pending(&self) -> (request: Option<&Request>)
        ensures
            request.deep_view() == self@.pending,
    {
        self.pending.as_ref()
    }
}

} // verus!
