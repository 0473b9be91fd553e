//! The records that the server's management API returns, and their
//! mathematical models.
//!
//! Each record that the browser reads into has a model in which text is a
//! `Seq<char>` and a list is a `Seq`. JSON values are carried through as
//! they came.

use vstd::prelude::*;

verus! {

/// A JSON value. The browser never looks inside one.
#[verifier::external_type_specification]
#[verifier::external_body]
pub struct ExJsonValue(serde_json::Value);

/// `Clone::clone` of a JSON value gives a value equal to the one cloned.
pub assume_specification[ <serde_json::Value as Clone>::clone ](value: &serde_json::Value) -> (copy:
    serde_json::Value)
    ensures
        copy == *value,
;

/// Collection type number of a document collection.
pub const DOCUMENT_COLLECTION: u32 = 2;

/// Collection type number of an edge collection.
pub const EDGE_COLLECTION: u32 = 3;

/// One collection as the collection listing of a database describes it.
#[derive(Clone, Debug, PartialEq, Eq)]
pub struct CollectionInfo {
    pub id: String,
    pub name: String,
    pub status: u32,
    pub collection_type: u32,
    pub is_system: bool,
    pub globally_unique_id: String,
}

/// Model of a [`CollectionInfo`].
pub struct CollectionInfoModel {
    pub id: Seq<char>,
    pub name: Seq<char>,
    pub status: u32,
    pub collection_type: u32,
    pub is_system: bool,
    pub globally_unique_id: Seq<char>,
}

impl View for CollectionInfo {
    type V = CollectionInfoModel;

    open spec fn view(&self) -> CollectionInfoModel {
        CollectionInfoModel {
            id: self.id@,
            name: self.name@,
            status: self.status,
            collection_type: self.collection_type,
            is_system: self.is_system,
            globally_unique_id: self.globally_unique_id@,
        }
    }
}

impl DeepView for CollectionInfo {
    type V = CollectionInfoModel;

    open spec fn deep_view(&self) -> CollectionInfoModel {
        self@
    }
}

/// The full property set of one collection, document count included, as
/// the server sent it.
#[derive(Clone, Debug, PartialEq, Eq)]
pub struct CollectionCount {
    pub error: bool,
    pub code: u16,
    pub write_concern: Option<u32>,
    pub wait_for_sync: Option<bool>,
    pub uses_revisions_as_document_ids: Option<bool>,
    pub sync_by_revision: Option<bool>,
    pub status_string: Option<String>,
    pub id: Option<String>,
    pub is_smart_child: Option<bool>,
    pub schema: Option<serde_json::Value>,
    pub name: String,
    pub collection_type: u32,
    pub status: u32,
    pub count: u64,
    pub cache_enabled: Option<bool>,
    pub is_system: bool,
    pub internal_validator_type: Option<u32>,
    pub globally_unique_id: Option<String>,
    pub key_options: Option<serde_json::Value>,
    pub computed_values: Option<serde_json::Value>,
    pub object_id: Option<String>,
}

/// One row of the collection list: a collection and, where the server
/// told it, the number of its documents.
#[derive(Clone, Debug, PartialEq, Eq)]
pub struct CollectionWithCount {
    pub info: CollectionInfo,
    pub count: Option<u64>,
}

/// Model of a [`CollectionWithCount`].
pub struct CollectionWithCountModel {
    pub info: CollectionInfoModel,
    pub count: Option<u64>,
}

impl View for CollectionWithCount {
    type V = CollectionWithCountModel;

    open spec fn view(&self) -> CollectionWithCountModel {
        CollectionWithCountModel { info: self.info@, count: self.count }
    }
}

impl DeepView for CollectionWithCount {
    type V = CollectionWithCountModel;

    open spec fn deep_view(&self) -> CollectionWithCountModel {
        self@
    }
}

impl CollectionWithCount {
    /// Joins a listed collection with the answer to the question for its
    /// properties: the document count is known where there was an answer.
    pub fn from_parts(info: CollectionInfo, properties: Option<&CollectionCount>) -> (row: Self)
        ensures
            row.info == info,
            row.count == match properties {
                Some(p) => Some(p.count),
                None => None,
            },
    {
        let count = match properties {
            Some(p) => Some(p.count),
            None => None,
        };
        CollectionWithCount { info, count }
    }
}

/// One edge collection of a graph, with the vertex collections its edges
/// lead from and to.
#[derive(Debug, PartialEq, Eq)]
pub struct EdgeDefinition {
    pub collection: String,
    pub from: Vec<String>,
    pub to: Vec<String>,
}

/// Model of an [`EdgeDefinition`].
pub struct EdgeDefinitionModel {
    pub collection: Seq<char>,
    pub from: Seq<Seq<char>>,
    pub to: Seq<Seq<char>>,
}

impl View for EdgeDefinition {
    type V = EdgeDefinitionModel;

    open spec fn view(&self) -> EdgeDefinitionModel {
        EdgeDefinitionModel {
            collection: self.collection@,
            from: self.from.deep_view(),
            to: self.to.deep_view(),
        }
    }
}

impl DeepView for EdgeDefinition {
    type V = EdgeDefinitionModel;

    open spec fn deep_view(&self) -> EdgeDefinitionModel {
        self@
    }
}

impl Clone for EdgeDefinition {
    fn clone(&self) -> (copy: Self)
        ensures
            copy@ == self@,
    {
        let from = self.from.clone();
        let to = self.to.clone();
        proof {
            assert(from.deep_view() =~= self.from.deep_view());
            assert(to.deep_view() =~= self.to.deep_view());
        }
        EdgeDefinition { collection: self.collection.clone(), from, to }
    }
}

/// One named graph.
#[derive(Debug, PartialEq, Eq)]
pub struct GraphInfo {
    pub id: String,
    pub key: String,
    pub rev: String,
    pub edge_definitions: Vec<EdgeDefinition>,
    pub orphan_collections: Vec<String>,
    pub name: String,
    pub is_smart: Option<bool>,
    pub is_disjoint: Option<bool>,
    pub smart_graph_attribute: Option<String>,
    pub number_of_shards: Option<u32>,
    pub replication_factor: Option<serde_json::Value>,
}

/// Model of a [`GraphInfo`].
pub struct GraphInfoModel {
    pub id: Seq<char>,
    pub key: Seq<char>,
    pub rev: Seq<char>,
    pub edge_definitions: Seq<EdgeDefinitionModel>,
    pub orphan_collections: Seq<Seq<char>>,
    pub name: Seq<char>,
    pub is_smart: Option<bool>,
    pub is_disjoint: Option<bool>,
    pub smart_graph_attribute: Option<Seq<char>>,
    pub number_of_shards: Option<u32>,
    pub replication_factor: Option<serde_json::Value>,
}

impl View for GraphInfo {
    type V = GraphInfoModel;

    open spec fn view(&self) -> GraphInfoModel {
        GraphInfoModel {
            id: self.id@,
            key: self.key@,
            rev: self.rev@,
            edge_definitions: self.edge_definitions.deep_view(),
            orphan_collections: self.orphan_collections.deep_view(),
            name: self.name@,
            is_smart: self.is_smart,
            is_disjoint: self.is_disjoint,
            smart_graph_attribute: self.smart_graph_attribute.deep_view(),
            number_of_shards: self.number_of_shards,
            replication_factor: self.replication_factor,
        }
    }
}

impl DeepView for GraphInfo {
    type V = GraphInfoModel;

    open spec fn deep_view(&self) -> GraphInfoModel {
        self@
    }
}

impl Clone for GraphInfo {
    fn clone(&self) -> (copy: Self)
        ensures
            copy@ == self@,
    {
        let edge_definitions = self.edge_definitions.clone();
        let orphan_collections = self.orphan_collections.clone();
        let smart_graph_attribute = match &self.smart_graph_attribute {
            Some(a) => Some(a.clone()),
            None => None,
        };
        let replication_factor = match &self.replication_factor {
            Some(r) => Some(r.clone()),
            None => None,
        };
        proof {
            assert(edge_definitions.deep_view() =~= self.edge_definitions.deep_view());
            assert(orphan_collections.deep_view() =~= self.orphan_collections.deep_view());
        }
        GraphInfo {
            id: self.id.clone(),
            key: self.key.clone(),
            rev: self.rev.clone(),
            edge_definitions,
            orphan_collections,
            name: self.name.clone(),
            is_smart: self.is_smart,
            is_disjoint: self.is_disjoint,
            smart_graph_attribute,
            number_of_shards: self.number_of_shards,
            replication_factor,
        }
    }
}

/// One row of the database list: a database and how many collections of
/// each kind it holds, or the mark that it could not be read.
#[derive(Clone, Debug, PartialEq, Eq)]
pub struct DatabaseStats {
    pub name: String,
    pub doc_collections: usize,
    pub edge_collections: usize,
    pub system_collections: usize,
    pub accessible: bool,
}

/// Model of a [`DatabaseStats`].
pub struct DatabaseStatsModel {
    pub name: Seq<char>,
    pub doc_collections: usize,
    pub edge_collections: usize,
    pub system_collections: usize,
    pub accessible: bool,
}

impl View for DatabaseStats {
    type V = DatabaseStatsModel;

    open spec fn view(&self) -> DatabaseStatsModel {
        DatabaseStatsModel {
            name: self.name@,
            doc_collections: self.doc_collections,
            edge_collections: self.edge_collections,
            system_collections: self.system_collections,
            accessible: self.accessible,
        }
    }
}

impl DeepView for DatabaseStats {
    type V = DatabaseStatsModel;

    open spec fn deep_view(&self) -> DatabaseStatsModel {
        self@
    }
}

} // verus!
