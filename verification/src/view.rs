//! The screens of the browser, the input it takes, and what it asks of
//! its host.

use crate::data::{
    CollectionCount, CollectionWithCount, CollectionWithCountModel, GraphInfo, GraphInfoModel,
};
use vstd::prelude::*;

verus! {

/// The screen that is shown, with the names that say what it shows.
#[derive(Debug, PartialEq, Eq)]
pub enum BrowserView {
    /// The databases of the server.
    DatabaseList,
    /// The collections of a database.
    CollectionList { database: String },
    /// The graphs of a database.
    GraphList { database: String },
    /// The properties of a collection.
    CollectionProperties { database: String, collection: String },
    /// Documents sampled from a collection.
    DocumentViewer { database: String, collection: String },
    /// The properties of a graph.
    GraphProperties { database: String, graph: String },
}

/// Model of a [`BrowserView`].
pub enum BrowserViewModel {
    DatabaseList,
    CollectionList { database: Seq<char> },
    GraphList { database: Seq<char> },
    CollectionProperties { database: Seq<char>, collection: Seq<char> },
    DocumentViewer { database: Seq<char>, collection: Seq<char> },
    GraphProperties { database: Seq<char>, graph: Seq<char> },
}

impl View for BrowserView {
    type V = BrowserViewModel;

    open spec fn view(&self) -> BrowserViewModel {
        match self {
            BrowserView::DatabaseList => BrowserViewModel::DatabaseList,
            BrowserView::CollectionList { database } => BrowserViewModel::CollectionList {
                database: database@,
            },
            BrowserView::GraphList { database } => BrowserViewModel::GraphList {
                database: database@,
            },
            BrowserView::CollectionProperties {
                database,
                collection,
            } => BrowserViewModel::CollectionProperties {
                database: database@,
                collection: collection@,
            },
            BrowserView::DocumentViewer {
                database,
                collection,
            } => BrowserViewModel::DocumentViewer { database: database@, collection: collection@ },
            BrowserView::GraphProperties { database, graph } => BrowserViewModel::GraphProperties {
                database: database@,
                graph: graph@,
            },
        }
    }
}

impl DeepView for BrowserView {
    type V = BrowserViewModel;

    open spec fn deep_view(&self) -> BrowserViewModel {
        self@
    }
}

impl Clone for BrowserView {
    fn clone(&self) -> (copy: Self)
        ensures
            copy@ == self@,
    {
        match self {
            BrowserView::DatabaseList => BrowserView::DatabaseList,
            BrowserView::CollectionList { database } => BrowserView::CollectionList {
                database: database.clone(),
            },
            BrowserView::GraphList { database } => BrowserView::GraphList {
                database: database.clone(),
            },
            BrowserView::CollectionProperties {
                database,
                collection,
            } => BrowserView::CollectionProperties {
                database: database.clone(),
                collection: collection.clone(),
            },
            BrowserView::DocumentViewer { database, collection } => BrowserView::DocumentViewer {
                database: database.clone(),
                collection: collection.clone(),
            },
            BrowserView::GraphProperties { database, graph } => BrowserView::GraphProperties {
                database: database.clone(),
                graph: graph.clone(),
            },
        }
    }
}

/// A key press, as far as the browser tells keys apart.
#[derive(Clone, Copy, Debug, PartialEq, Eq, Structural)]
pub enum Key {
    Char(char),
    Enter,
    Esc,
    Backspace,
    Up,
    Down,
    PageUp,
    PageDown,
    /// Any other key.
    Other,
}

/// What a key press asks for while no text is being entered.
#[derive(Clone, Copy, Debug, PartialEq, Eq, Structural)]
pub enum Command {
    /// Close the screen and go to the one above it.
    Leave,
    /// Go back to where a jump came from.
    Back,
    /// Open what the cursor is on.
    Activate,
    /// Move the cursor, or the text, one row up.
    Up,
    /// Move the cursor, or the text, one row down.
    Down,
    /// Move the text one page up.
    PageUp,
    /// Move the text one page down.
    PageDown,
    /// Show the graphs of the database.
    OpenGraphs,
    /// Show the collections of the database.
    OpenCollections,
    /// Ask how many documents to show of the collection under the cursor.
    SampleDocuments,
    /// Jump to the first vertex collection of the edge definition under
    /// the cursor.
    JumpToVertex,
    /// Nothing.
    Ignore,
}

/// The command that each key stands for.
pub open spec fn command_of(key: Key) -> Command {
    match key {
        Key::Esc => Command::Leave,
        Key::Backspace => Command::Back,
        Key::Enter => Command::Activate,
        Key::Up => Command::Up,
        Key::Down => Command::Down,
        Key::PageUp => Command::PageUp,
        Key::PageDown => Command::PageDown,
        Key::Other => Command::Ignore,
        Key::Char(c) => if c == 'q' {
            Command::Leave
        } else if c == 'j' {
            Command::Down
        } else if c == 'k' {
            Command::Up
        } else if c == 'g' || c == 'G' {
            Command::OpenGraphs
        } else if c == 'c' || c == 'C' {
            Command::OpenCollections
        } else if c == 'v' || c == 'V' {
            Command::JumpToVertex
        } else if c == ' ' {
            Command::SampleDocuments
        } else {
            Command::Ignore
        },
    }
}

/// The command that `key` stands for.
pub fn command_for(key: Key) -> (command: Command)
    ensures
        command == command_of(key),
{
    match key {
        Key::Esc => Command::Leave,
        Key::Backspace => Command::Back,
        Key::Enter => Command::Activate,
        Key::Up => Command::Up,
        Key::Down => Command::Down,
        Key::PageUp => Command::PageUp,
        Key::PageDown => Command::PageDown,
        Key::Other => Command::Ignore,
        Key::Char(c) => {
            if c == 'q' {
                Command::Leave
            } else if c == 'j' {
                Command::Down
            } else if c == 'k' {
                Command::Up
            } else if c == 'g' || c == 'G' {
                Command::OpenGraphs
            } else if c == 'c' || c == 'C' {
                Command::OpenCollections
            } else if c == 'v' || c == 'V' {
                Command::JumpToVertex
            } else if c == ' ' {
                Command::SampleDocuments
            } else {
                Command::Ignore
            }
        },
    }
}

/// One read against the server that a transition waits for.
#[derive(Debug, PartialEq, Eq)]
pub enum Request {
    /// The collections of `database`, each with its document count, to
    /// enter the database.
    OpenDatabase { database: String },
    /// The properties of `collection`, to show them.
    OpenCollection { database: String, collection: String },
    /// The graphs of `database`, to show them.
    OpenGraphs { database: String },
    /// The first `limit` documents of `collection`, to show them.
    SampleDocuments { database: String, collection: String, limit: usize },
    /// The collections of `database`, each with its document count, to
    /// jump from the graph list to `collection`.
    JumpToCollection { database: String, collection: String },
    /// The graphs of `database`, to go back to the graph list that a jump
    /// came from.
    ReturnToGraphs { database: String },
}

/// Model of a [`Request`].
pub enum RequestModel {
    OpenDatabase { database: Seq<char> },
    OpenCollection { database: Seq<char>, collection: Seq<char> },
    OpenGraphs { database: Seq<char> },
    SampleDocuments { database: Seq<char>, collection: Seq<char>, limit: usize },
    JumpToCollection { database: Seq<char>, collection: Seq<char> },
    ReturnToGraphs { database: Seq<char> },
}

impl View for Request {
    type V = RequestModel;

    open spec fn view(&self) -> RequestModel {
        match self {
            Request::OpenDatabase { database } => RequestModel::OpenDatabase {
                database: database@,
            },
            Request::OpenCollection { database, collection } => RequestModel::OpenCollection {
                database: database@,
                collection: collection@,
            },
            Request::OpenGraphs { database } => RequestModel::OpenGraphs { database: database@ },
            Request::SampleDocuments {
                database,
                collection,
                limit,
            } => RequestModel::SampleDocuments {
                database: database@,
                collection: collection@,
                limit: *limit,
            },
            Request::JumpToCollection { database, collection } => RequestModel::JumpToCollection {
                database: database@,
                collection: collection@,
            },
            Request::ReturnToGraphs { database } => RequestModel::ReturnToGraphs {
                database: database@,
            },
        }
    }
}

impl DeepView for Request {
    type V = RequestModel;

    open spec fn deep_view(&self) -> RequestModel {
        self@
    }
}

impl Clone for Request {
    fn clone(&self) -> (copy: Self)
        ensures
            copy@ == self@,
    {
        match self {
            Request::OpenDatabase { database } => Request::OpenDatabase {
                database: database.clone(),
            },
            Request::OpenCollection { database, collection } => Request::OpenCollection {
                database: database.clone(),
                collection: collection.clone(),
            },
            Request::OpenGraphs { database } => Request::OpenGraphs { database: database.clone() },
            Request::SampleDocuments { database, collection, limit } => Request::SampleDocuments {
                database: database.clone(),
                collection: collection.clone(),
                limit: *limit,
            },
            Request::JumpToCollection { database, collection } => Request::JumpToCollection {
                database: database.clone(),
                collection: collection.clone(),
            },
            Request::ReturnToGraphs { database } => Request::ReturnToGraphs {
                database: database.clone(),
            },
        }
    }
}

/// How a read ended.
#[derive(Debug, PartialEq, Eq)]
pub enum Response {
    /// The read failed: the server was not reached, refused, or sent what
    /// could not be understood.
    Failed,
    /// The collections of a database, in the order in which they came.
    Collections(Vec<CollectionWithCount>),
    /// The properties of a collection.
    CollectionDetails(CollectionCount),
    /// The graphs of a database.
    Graphs(Vec<GraphInfo>),
    /// The documents of a sample.
    Documents(Vec<serde_json::Value>),
}

/// Model of a [`Response`].
pub enum ResponseModel {
    Failed,
    Collections(Seq<CollectionWithCountModel>),
    CollectionDetails(CollectionCount),
    Graphs(Seq<GraphInfoModel>),
    Documents(Seq<serde_json::Value>),
}

impl View for Response {
    type V = ResponseModel;

    open spec fn view(&self) -> ResponseModel {
        match self {
            Response::Failed => ResponseModel::Failed,
            Response::Collections(rows) => ResponseModel::Collections(rows.deep_view()),
            Response::CollectionDetails(details) => ResponseModel::CollectionDetails(*details),
            Response::Graphs(graphs) => ResponseModel::Graphs(graphs.deep_view()),
            Response::Documents(documents) => ResponseModel::Documents(documents@),
        }
    }
}

/// What the host is to do after a key press.
#[derive(Debug, PartialEq, Eq)]
pub enum Action {
    /// Nothing but to show the state.
    Continue,
    /// Leave the browser.
    Quit,
    /// Perform this read and report how it ended.
    Fetch(Request),
}

/// Model of an [`Action`].
pub enum ActionModel {
    Continue,
    Quit,
    Fetch(RequestModel),
}

impl View for Action {
    type V = ActionModel;

    open spec fn view(&self) -> ActionModel {
        match self {
            Action::Continue => ActionModel::Continue,
            Action::Quit => ActionModel::Quit,
            Action::Fetch(request) => ActionModel::Fetch(request@),
        }
    }
}

} // verus!
