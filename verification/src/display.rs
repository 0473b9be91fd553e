//! The words that the screens show: titles, table cells and the lines of
//! the document screen, and where the text entry stands. Drawing them is
//! the host's work.

use crate::data::{
    CollectionWithCount, CollectionWithCountModel, DatabaseStats, DatabaseStatsModel,
    EdgeDefinition, EdgeDefinitionModel, GraphInfo, GraphInfoModel, DOCUMENT_COLLECTION,
};
use crate::selection::{graph_rows, lemma_rows_total, row_at, row_count, GraphRow, GraphRowModel};
use crate::text::{decimal_digits, push_decimal, split_lines, text_lines};
use vstd::prelude::*;
use vstd::string::*;

verus! {

/// Width of the text entry, in cells.
pub const DIALOG_WIDTH: u16 = 50;

/// Height of the text entry, in cells.
pub const DIALOG_HEIGHT: u16 = 7;

/// `parts` one after the other with `separator` between them.
pub open spec fn joined(parts: Seq<Seq<char>>, separator: Seq<char>) -> Seq<char>
    decreases parts.len(),
{
    if parts.len() == 0 {
        Seq::empty()
    } else if parts.len() == 1 {
        parts[0]
    } else {
        joined(parts.drop_last(), separator) + separator + parts.last()
    }
}

/// The documents of all rows whose count is known, together.
pub open spec fn known_documents(rows: Seq<CollectionWithCountModel>) -> nat
    decreases rows.len(),
{
    if rows.len() == 0 {
        0
    } else {
        known_documents(rows.drop_last()) + match rows.last().count {
            Some(count) => count as nat,
            None => 0nat,
        }
    }
}

/// What the type column says of a collection.
pub open spec fn type_text(collection_type: u32) -> Seq<char> {
    if collection_type == DOCUMENT_COLLECTION {
        "Document"@
    } else {
        "Edge"@
    }
}

/// What the system column says of a collection.
pub open spec fn system_text(is_system: bool) -> Seq<char> {
    if is_system {
        "Yes"@
    } else {
        "No"@
    }
}

/// What the count column says of a collection.
pub open spec fn count_text(count: Option<u64>) -> Seq<char> {
    match count {
        Some(n) => decimal_digits(n as nat),
        None => "?"@,
    }
}

/// The cells of one row of the collection list.
pub open spec fn collection_cells(row: CollectionWithCountModel) -> Seq<Seq<char>> {
    seq![
        row.info.name,
        type_text(row.info.collection_type),
        system_text(row.info.is_system),
        count_text(row.count),
    ]
}

/// The cells of one row of the database list.
pub open spec fn database_cells(row: DatabaseStatsModel) -> Seq<Seq<char>> {
    if row.accessible {
        seq![
            row.name,
            decimal_digits(row.doc_collections as nat),
            decimal_digits(row.edge_collections as nat),
            decimal_digits(row.system_collections as nat),
        ]
    } else {
        seq![row.name, "NO ACCESS"@, ""@, ""@]
    }
}

/// What the last column says of a graph.
pub open spec fn smart_disjoint_text(is_smart: Option<bool>, is_disjoint: Option<bool>) -> Seq<
    char,
> {
    let smart = is_smart == Some(true);
    let disjoint = is_disjoint == Some(true);
    if smart && disjoint {
        "Smart, Disjoint"@
    } else if smart {
        "Smart"@
    } else if disjoint {
        "Disjoint"@
    } else {
        "-"@
    }
}

/// The vertex collections that an edge definition leads from and to.
pub open spec fn from_to_text(edge: EdgeDefinitionModel) -> Seq<char> {
    joined(edge.from, ", "@) + " → "@ + joined(edge.to, ", "@)
}

/// The cells of one row of the graph list.
pub open spec fn graph_cells(graphs: Seq<GraphInfoModel>, row: GraphRowModel) -> Seq<Seq<char>> {
    match row {
        GraphRowModel::Graph { graph } => seq![
            graphs[graph].name,
            ""@,
            ""@,
            smart_disjoint_text(graphs[graph].is_smart, graphs[graph].is_disjoint),
        ],
        GraphRowModel::Edge { graph, edge } => {
            let definition = graphs[graph].edge_definitions[edge];
            seq![
                "  └─ "@ + definition.collection,
                definition.collection,
                from_to_text(definition),
                ""@,
            ]
        },
        GraphRowModel::Spacer => seq![""@, ""@, ""@, ""@],
    }
}

/// The title of the database list.
pub open spec fn database_list_title_text(accessible: bool) -> Seq<char> {
    if accessible {
        "Database Browser - Select a database"@
    } else {
        "Database Browser"@
    }
}

/// The title of the collection list of `database` with `collections` rows
/// that hold `documents` documents together.
pub open spec fn collection_list_title_text(
    database: Seq<char>,
    collections: nat,
    documents: nat,
) -> Seq<char> {
    if collections == 0 {
        "Database: "@ + database + " | Press G for Graphs"@
    } else {
        "Database: "@ + database + " | Collections: "@ + decimal_digits(collections)
            + " | Total Documents: "@ + decimal_digits(documents)
            + " | Press G for Graphs | SPACE to view documents"@
    }
}

/// The title of the graph list of `database` with `graphs` graphs and the
/// cursor on `row`.
pub open spec fn graph_list_title_text(
    database: Seq<char>,
    graphs: nat,
    row: Option<GraphRowModel>,
) -> Seq<char> {
    if graphs == 0 {
        "Database: "@ + database + " | Press C for Collections"@
    } else {
        "Database: "@ + database + " | Graphs: "@ + decimal_digits(graphs) + " | C: Collections"@
            + match row {
            Some(GraphRowModel::Edge { .. }) => " | ENTER: Edge collection | V: Vertex collection"@,
            Some(GraphRowModel::Graph { .. }) => " | ENTER: Graph details (JSON)"@,
            _ => Seq::empty(),
        }
    }
}

/// The title of the document screen of `collection` with `documents`
/// documents.
pub open spec fn document_viewer_title_text(
    database: Seq<char>,
    collection: Seq<char>,
    documents: nat,
) -> Seq<char> {
    if documents == 0 {
        "Documents: "@ + database + "."@ + collection
    } else {
        "Documents: "@ + database + "."@ + collection + " ("@ + decimal_digits(documents)
            + " documents) | Press ESC or Q to go back"@
    }
}

/// The lines of the document screen: the lines of each document, with an
/// empty line between a document and the next.
pub open spec fn document_lines_text(documents: Seq<Seq<Seq<char>>>) -> Seq<Seq<char>>
    decreases documents.len(),
{
    if documents.len() == 0 {
        Seq::empty()
    } else if documents.len() == 1 {
        documents[0]
    } else {
        document_lines_text(documents.drop_last()) + seq![""@] + documents.last()
    }
}

/// The text that `serde_json::to_string_pretty` gives for a JSON value,
/// and `None` where it gives an error.
pub uninterp spec fn pretty_json(value: serde_json::Value) -> Option<Seq<char>>;

/// The text that the document screen shows for a document.
pub open spec fn document_text(document: serde_json::Value) -> Seq<char> {
    match pretty_json(document) {
        Some(text) => text,
        None => "Error"@,
    }
}

/// `serde_json::to_string_pretty` on a JSON value: the text it gives, or
/// `None` where it gives an error. The text depends on the value alone.
#[verifier::external_body]
fn pretty(value: &serde_json::Value) -> (text: Option<String>)
    ensures
        text.deep_view() == pretty_json(*value),
{
    serde_json::to_string_pretty(value).ok()
}

/// What the type column says of a collection of this type.
pub fn collection_type_label(collection_type: u32) -> (label: &'static str)
    ensures
        label@ == type_text(collection_type),
{
    if collection_type == DOCUMENT_COLLECTION {
        "Document"
    } else {
        "Edge"
    }
}

/// What the system column says of a collection.
pub fn system_label(is_system: bool) -> (label: &'static str)
    ensures
        label@ == system_text(is_system),
{
    if is_system {
        "Yes"
    } else {
        "No"
    }
}

/// What the count column says: the count, or a question mark where it is
/// not known.
pub fn count_label(count: Option<u64>) -> (label: String)
    ensures
        label@ == count_text(count),
{
    match count {
        Some(n) => {
            let mut label = String::new();
            push_decimal(&mut label, n);
            label
        },
        None => String::from_str("?"),
    }
}

proof fn lemma_known_documents_prefix(rows: Seq<CollectionWithCountModel>, k: int)
    requires
        0 <= k <= rows.len(),
    ensures
        known_documents(rows.take(k)) <= known_documents(rows),
    decreases rows.len() - k,
{
    if k == rows.len() {
        assert(rows.take(k) =~= rows);
    } else {
        lemma_known_documents_prefix(rows, k + 1);
        assert(rows.take(k + 1).drop_last() =~= rows.take(k));
    }
}

/// The documents of all rows whose count is known, together, where `u64`
/// can hold their number.
pub fn total_documents(rows: &Vec<CollectionWithCount>) -> (total: Option<u64>)
    ensures
        total is Some <==> known_documents(rows.deep_view()) <= u64::MAX,
        total matches Some(n) ==> n == known_documents(rows.deep_view()),
{
    let ghost models = rows.deep_view();
    let mut sum: u64 = 0;
    let mut i: usize = 0;
    while i < rows.len()
        invariant
            models == rows.deep_view(),
            0 <= i <= rows.len(),
            sum == known_documents(models.take(i as int)),
        decreases rows.len() - i,
    {
        proof {
            assert(models.take(i + 1).drop_last() =~= models.take(i as int));
            assert(models.take(i + 1).last() == rows[i as int]@);
            lemma_known_documents_prefix(models, i + 1);
        }
        match rows[i].count {
            Some(count) => match sum.checked_add(count) {
                Some(next) => {
                    sum = next;
                },
                None => {
                    return None;
                },
            },
            None => {},
        }
        i = i + 1;
    }
    proof {
        assert(models.take(i as int) =~= models);
    }
    Some(sum)
}

fn decimal(n: u64) -> (text: String)
    ensures
        text@ == decimal_digits(n as nat),
{
    let mut text = String::new();
    push_decimal(&mut text, n);
    text
}

fn four_cells(first: String, second: String, third: String, fourth: String) -> (cells: Vec<String>)
    ensures
        cells.deep_view() == seq![first@, second@, third@, fourth@],
{
    let mut cells: Vec<String> = Vec::new();
    cells.push(first);
    cells.push(second);
    cells.push(third);
    cells.push(fourth);
    assert(cells.deep_view() =~= seq![first@, second@, third@, fourth@]);
    cells
}

/// The cells of one row of the collection list: name, type, whether it is
/// a system collection, and document count.
pub fn collection_row(row: &CollectionWithCount) -> (cells: Vec<String>)
    ensures
        cells.deep_view() == collection_cells(row@),
{
    four_cells(
        row.info.name.clone(),
        String::from_str(collection_type_label(row.info.collection_type)),
        String::from_str(system_label(row.info.is_system)),
        count_label(row.count),
    )
}

/// The cells of one row of the database list: name and the number of
/// document, edge and system collections, or the mark that the database
/// could not be read.
pub fn database_row(row: &DatabaseStats) -> (cells: Vec<String>)
    ensures
        cells.deep_view() == database_cells(row@),
{
    if row.accessible {
        four_cells(
            row.name.clone(),
            decimal(row.doc_collections as u64),
            decimal(row.edge_collections as u64),
            decimal(row.system_collections as u64),
        )
    } else {
        four_cells(
            row.name.clone(),
            String::from_str("NO ACCESS"),
            String::from_str(""),
            String::from_str(""),
        )
    }
}

/// What the last column of the graph list says of a graph.
pub fn smart_disjoint_label(is_smart: Option<bool>, is_disjoint: Option<bool>) -> (label:
    &'static str)
    ensures
        label@ == smart_disjoint_text(is_smart, is_disjoint),
{
    let smart = match is_smart {
        Some(yes) => yes,
        None => false,
    };
    let disjoint = match is_disjoint {
        Some(yes) => yes,
        None => false,
    };
    if smart && disjoint {
        "Smart, Disjoint"
    } else if smart {
        "Smart"
    } else if disjoint {
        "Disjoint"
    } else {
        "-"
    }
}

/// `parts` one after the other with `separator` between them.
pub fn join(parts: &Vec<String>, separator: &str) -> (text: String)
    ensures
        text@ == joined(parts.deep_view(), separator@),
{
    let ghost models = parts.deep_view();
    let mut text = String::new();
    let mut i: usize = 0;
    proof {
        assert(models.take(0) =~= Seq::<Seq<char>>::empty());
    }
    while i < parts.len()
        invariant
            models == parts.deep_view(),
            0 <= i <= parts.len(),
            text@ == joined(models.take(i as int), separator@),
        decreases parts.len() - i,
    {
        proof {
            assert(models.take(i + 1).drop_last() =~= models.take(i as int));
            assert(models.take(i + 1).last() == parts[i as int]@);
            if i == 0 {
                assert(models.take(1)[0] == parts[0]@);
                assert(Seq::<char>::empty() + parts[0]@ =~= parts[0]@);
            }
        }
        if i > 0 {
            text.append(separator);
        }
        text.append(parts[i].as_str());
        i = i + 1;
    }
    proof {
        assert(models.take(i as int) =~= models);
    }
    text
}

/// The vertex collections that an edge definition leads from and to.
pub fn from_to_label(edge: &EdgeDefinition) -> (label: String)
    ensures
        label@ == from_to_text(edge@),
{
    let mut label = join(&edge.from, ", ");
    label.append(" → ");
    let to = join(&edge.to, ", ");
    label.append(to.as_str());
    label
}

/// The cells of the rows of the graph list, from the top: for a graph its
/// name and whether it is smart or disjoint, for an edge definition its
/// collection and the vertex collections it joins, and nothing for a
/// spacer.
pub fn graph_table(graphs: &Vec<GraphInfo>) -> (table: Vec<Vec<String>>)
    ensures
        table@.len() == row_count(graphs.deep_view()),
        forall|pos: int|
            0 <= pos < table@.len() ==> (#[trigger] table@[pos]).deep_view() == graph_cells(
                graphs.deep_view(),
                row_at(graphs.deep_view(), pos)->0,
            ),
{
    let ghost models = graphs.deep_view();
    let rows = graph_rows(graphs);
    let mut table: Vec<Vec<String>> = Vec::new();
    let mut i: usize = 0;
    while i < rows.len()
        invariant
            models == graphs.deep_view(),
            rows@.len() == row_count(models),
            forall|pos: int|
                0 <= pos < rows@.len() ==> row_at(models, pos) == Some((#[trigger] rows@[pos])@),
            0 <= i <= rows.len(),
            table@.len() == i,
            forall|pos: int|
                0 <= pos < i ==> (#[trigger] table@[pos]).deep_view() == graph_cells(
                    models,
                    row_at(models, pos)->0,
                ),
        decreases rows.len() - i,
    {
        proof {
            lemma_rows_total(models, i as int);
            assert(row_at(models, i as int) == Some(rows@[i as int]@));
        }
        let cells = match rows[i] {
            GraphRow::Graph { graph } => four_cells(
                graphs[graph].name.clone(),
                String::from_str(""),
                String::from_str(""),
                String::from_str(
                    smart_disjoint_label(graphs[graph].is_smart, graphs[graph].is_disjoint),
                ),
            ),
            GraphRow::Edge { graph, edge } => {
                let definition = &graphs[graph].edge_definitions[edge];
                let mut first = String::from_str("  └─ ");
                first.append(definition.collection.as_str());
                four_cells(
                    first,
                    definition.collection.clone(),
                    from_to_label(definition),
                    String::from_str(""),
                )
            },
            GraphRow::Spacer => four_cells(
                String::from_str(""),
                String::from_str(""),
                String::from_str(""),
                String::from_str(""),
            ),
        };
        table.push(cells);
        i = i + 1;
    }
    table
}

/// The title of the database list.
pub fn database_list_title(accessible: bool) -> (title: &'static str)
    ensures
        title@ == database_list_title_text(accessible),
{
    if accessible {
        "Database Browser - Select a database"
    } else {
        "Database Browser"
    }
}

/// The title of the collection list.
pub fn collection_list_title(database: &str, collections: usize, documents: u64) -> (title: String)
    ensures
        title@ == collection_list_title_text(database@, collections as nat, documents as nat),
{
    let mut title = String::from_str("Database: ");
    title.append(database);
    if collections == 0 {
        title.append(" | Press G for Graphs");
    } else {
        title.append(" | Collections: ");
        push_decimal(&mut title, collections as u64);
        title.append(" | Total Documents: ");
        push_decimal(&mut title, documents);
        title.append(" | Press G for Graphs | SPACE to view documents");
    }
    title
}

/// The title of the graph list, which names the keys that work on the row
/// under the cursor.
pub fn graph_list_title(database: &str, graphs: usize, row: Option<GraphRow>) -> (title: String)
    ensures
        title@ == graph_list_title_text(database@, graphs as nat, row.deep_view()),
{
    let mut title = String::from_str("Database: ");
    title.append(database);
    if graphs == 0 {
        title.append(" | Press C for Collections");
    } else {
        title.append(" | Graphs: ");
        push_decimal(&mut title, graphs as u64);
        title.append(" | C: Collections");
        match row {
            Some(GraphRow::Edge { .. }) => {
                title.append(" | ENTER: Edge collection | V: Vertex collection");
            },
            Some(GraphRow::Graph { .. }) => {
                title.append(" | ENTER: Graph details (JSON)");
            },
            _ => {
                assert(title@ + Seq::<char>::empty() =~= title@);
            },
        }
    }
    title
}

/// The title of a properties screen for the thing called `name`, of the
/// kind called `kind`. While nothing is loaded the title names the kind
/// alone.
pub fn properties_title(kind: &str, database: &str, name: &str, loaded: bool) -> (title: String)
    ensures
        title@ == kind@ + (if loaded {
            " Properties: "@
        } else {
            ": "@
        }) + database@ + "."@ + name@,
{
    let mut title = String::from_str(kind);
    if loaded {
        title.append(" Properties: ");
    } else {
        title.append(": ");
    }
    title.append(database);
    title.append(".");
    title.append(name);
    title
}

/// The title of the document screen.
pub fn document_viewer_title(database: &str, collection: &str, documents: usize) -> (title: String)
    ensures
        title@ == document_viewer_title_text(database@, collection@, documents as nat),
{
    let mut title = String::from_str("Documents: ");
    title.append(database);
    title.append(".");
    title.append(collection);
    if documents > 0 {
        title.append(" (");
        push_decimal(&mut title, documents as u64);
        title.append(" documents) | Press ESC or Q to go back");
    }
    title
}

/// The lines of the document screen, given the lines of each document.
pub fn document_lines(documents: &Vec<Vec<String>>) -> (lines: Vec<String>)
    ensures
        lines.deep_view() == document_lines_text(documents.deep_view()),
{
    let ghost models = documents.deep_view();
    let mut lines: Vec<String> = Vec::new();
    let mut i: usize = 0;
    proof {
        assert(models.take(0) =~= Seq::<Seq<Seq<char>>>::empty());
        assert(lines.deep_view() =~= document_lines_text(models.take(0)));
    }
    while i < documents.len()
        invariant
            models == documents.deep_view(),
            0 <= i <= documents.len(),
            lines.deep_view() == document_lines_text(models.take(i as int)),
        decreases documents.len() - i,
    {
        let ghost before = lines.deep_view();
        if i > 0 {
            lines.push(String::from_str(""));
        }
        let ghost spaced = lines.deep_view();
        proof {
            assert(spaced =~= if i > 0 {
                before + seq![""@]
            } else {
                before
            });
        }
        let document = &documents[i];
        let mut j: usize = 0;
        while j < document.len()
            invariant
                0 <= j <= document.len(),
                lines.deep_view() == spaced + document.deep_view().take(j as int),
            decreases document.len() - j,
        {
            let ghost so_far = lines.deep_view();
            lines.push(document[j].clone());
            proof {
                assert(lines.deep_view() =~= so_far.push(document[j as int]@));
                assert(document.deep_view().take(j + 1) =~= document.deep_view().take(
                    j as int,
                ).push(document[j as int]@));
            }
            j = j + 1;
        }
        proof {
            assert(document.deep_view().take(j as int) =~= models[i as int]);
            assert(models.take(i + 1).drop_last() =~= models.take(i as int));
            assert(models.take(i + 1).last() == models[i as int]);
            if i == 0 {
                assert(models.take(1)[0] == models[0]);
                assert(Seq::<Seq<char>>::empty() + models[0] =~= models[0]);
            }
        }
        i = i + 1;
    }
    proof {
        assert(models.take(i as int) =~= models);
    }
    lines
}

/// The lines of the document screen for `documents`: the lines of the
/// text of each, with an empty line between a document and the next.
pub fn document_screen_lines(documents: &Vec<serde_json::Value>) -> (lines: Vec<String>)
    ensures
        lines.deep_view() == document_lines_text(
            documents@.map_values(|d: serde_json::Value| text_lines(document_text(d))),
        ),
{
    let ghost texts = documents@.map_values(|d: serde_json::Value| text_lines(document_text(d)));
    let mut split: Vec<Vec<String>> = Vec::new();
    let mut i: usize = 0;
    while i < documents.len()
        invariant
            0 <= i <= documents.len(),
            texts == documents@.map_values(|d: serde_json::Value| text_lines(document_text(d))),
            split.deep_view() == texts.take(i as int),
        decreases documents.len() - i,
    {
        let text = match pretty(&documents[i]) {
            Some(text) => text,
            None => String::from_str("Error"),
        };
        let ghost before = split.deep_view();
        let document = split_lines(text.as_str());
        split.push(document);
        proof {
            assert(split.deep_view() =~= before.push(texts[i as int]));
            assert(texts.take(i + 1) =~= texts.take(i as int).push(texts[i as int]));
        }
        i = i + 1;
    }
    proof {
        assert(texts.take(i as int) =~= texts);
    }
    document_lines(&split)
}

/// What the header says of the server.
pub fn server_line(version: &str, license: &str) -> (line: String)
    ensures
        line@ == "ArangoDB "@ + version@ + " ("@ + license@ + ")"@,
{
    let mut line = String::from_str("ArangoDB ");
    line.append(version);
    line.append(" (");
    line.append(license);
    line.append(")");
    line
}

/// What the header says of the analytics engine.
pub fn gae_line(version: Option<&str>) -> (line: String)
    ensures
        line@ == match version {
            Some(v) => "GAE "@ + v@,
            None => "GAE: Not connected"@,
        },
{
    match version {
        Some(v) => {
            let mut line = String::from_str("GAE ");
            line.append(v);
            line
        },
        None => String::from_str("GAE: Not connected"),
    }
}

/// How many rows the text of a detail screen is moved up on a screen
/// that counts its rows in sixteen bits.
pub fn scroll_rows(offset: usize) -> (rows: u16)
    ensures
        rows == offset % 0x10000,
{
    (offset % 0x10000) as u16
}

/// A rectangle of cells on the screen.
#[derive(Clone, Copy, Debug, PartialEq, Eq, Structural)]
pub struct Area {
    pub x: u16,
    pub y: u16,
    pub width: u16,
    pub height: u16,
}

/// How far from the start of a stretch of `extent` cells a thing of `size`
/// cells stands that is in its middle: half of what is left over, and
/// nothing where the stretch is too short.
pub open spec fn centred(extent: u16, size: u16) -> int {
    if extent > size {
        (extent - size) / 2
    } else {
        0
    }
}

/// The corner of the text entry on a screen that fills `area` has a column
/// and a row that sixteen bits can hold.
pub open spec fn dialog_fits(area: Area) -> bool {
    &&& area.x + centred(area.width, DIALOG_WIDTH) <= u16::MAX
    &&& area.y + centred(area.height, DIALOG_HEIGHT) <= u16::MAX
}

/// Whether the text entry can be placed on a screen that fills `area`.
pub fn dialog_can_stand(area: Area) -> (yes: bool)
    ensures
        yes == dialog_fits(area),
{
    let x = area.width.saturating_sub(DIALOG_WIDTH) / 2;
    let y = area.height.saturating_sub(DIALOG_HEIGHT) / 2;
    x <= u16::MAX - area.x && y <= u16::MAX - area.y
}

/// Where the text entry stands on a screen that fills `area`: in its
/// middle, and at its left or upper edge where the screen is too small.
pub fn dialog_area(area: Area) -> (dialog: Area)
    requires
        dialog_fits(area),
    ensures
        dialog.width == DIALOG_WIDTH,
        dialog.height == DIALOG_HEIGHT,
        dialog.x == area.x + centred(area.width, DIALOG_WIDTH),
        dialog.y == area.y + centred(area.height, DIALOG_HEIGHT),
{
    let x = area.width.saturating_sub(DIALOG_WIDTH) / 2;
    let y = area.height.saturating_sub(DIALOG_HEIGHT) / 2;
    Area { x: area.x + x, y: area.y + y, width: DIALOG_WIDTH, height: DIALOG_HEIGHT }
}

} // verus!
