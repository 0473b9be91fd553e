//! What one read against the server asks for and what is made of the
//! answer: the address of each read, the text of the sampling query, and
//! the summary of a database drawn from its collection listing.
//!
//! The reads themselves are the host's work.

use crate::data::{
    CollectionInfo, CollectionInfoModel, DatabaseStats, DOCUMENT_COLLECTION, EDGE_COLLECTION,
};
use crate::text::{decimal_digits, push_decimal, trim_trailing_slashes, without_trailing_slashes};
use vstd::prelude::*;
use vstd::string::*;

verus! {

/// Fewest documents that one answer to the sampling query is asked to
/// have room for.
pub const QUERY_BATCH_SIZE: u64 = 1000;

/// Documents that one answer to a sampling query for `limit` documents is
/// asked to have room for: all of them, and never fewer than
/// [`QUERY_BATCH_SIZE`].
pub open spec fn batch_size_for(limit: nat) -> nat {
    if limit > QUERY_BATCH_SIZE {
        limit
    } else {
        QUERY_BATCH_SIZE as nat
    }
}

/// The address under which the server answers for one database.
pub open spec fn database_prefix(endpoint: Seq<char>, database: Seq<char>) -> Seq<char> {
    without_trailing_slashes(endpoint) + "/_db/"@ + database
}

/// The query that takes the first `count` documents of `collection`.
pub open spec fn sample_query_text(collection: Seq<char>, count: nat) -> Seq<char> {
    "FOR d IN "@ + collection + " LIMIT "@ + decimal_digits(count) + " RETURN d"@
}

/// The group that the summary of a database counts a collection in.
#[derive(Clone, Copy, Debug, PartialEq, Eq, Structural)]
pub enum CollectionKind {
    /// A system collection, of whatever type.
    System,
    /// A document collection of the user.
    Document,
    /// An edge collection of the user.
    Edge,
    /// A collection of the user of a type that is not counted.
    Other,
}

/// The group of one collection.
pub open spec fn kind_of(collection: CollectionInfoModel) -> CollectionKind {
    if collection.is_system {
        CollectionKind::System
    } else if collection.collection_type == DOCUMENT_COLLECTION {
        CollectionKind::Document
    } else if collection.collection_type == EDGE_COLLECTION {
        CollectionKind::Edge
    } else {
        CollectionKind::Other
    }
}

/// How many of `collections` are of group `kind`.
pub open spec fn count_of(collections: Seq<CollectionInfoModel>, kind: CollectionKind) -> nat
    decreases collections.len(),
{
    if collections.len() == 0 {
        0
    } else {
        count_of(collections.drop_last(), kind) + if kind_of(collections.last()) == kind {
            1nat
        } else {
            0nat
        }
    }
}

proof fn lemma_count_of_bound(collections: Seq<CollectionInfoModel>)
    ensures
        count_of(collections, CollectionKind::System) + count_of(
            collections,
            CollectionKind::Document,
        ) + count_of(collections, CollectionKind::Edge) <= collections.len(),
    decreases collections.len(),
{
    if collections.len() > 0 {
        lemma_count_of_bound(collections.drop_last());
    }
}

/// The group of one collection.
pub fn classify(collection: &CollectionInfo) -> (kind: CollectionKind)
    ensures
        kind == kind_of(collection@),
{
    if collection.is_system {
        CollectionKind::System
    } else if collection.collection_type == DOCUMENT_COLLECTION {
        CollectionKind::Document
    } else if collection.collection_type == EDGE_COLLECTION {
        CollectionKind::Edge
    } else {
        CollectionKind::Other
    }
}

impl DatabaseStats {
    /// The row of the database list for `database`. With a collection
    /// listing the row counts the collections of each group; without one
    /// the database is marked as not accessible and counts nothing.
    pub fn from_listing(database: &str, listing: Option<&Vec<CollectionInfo>>) -> (stats: Self)
        ensures
            stats@.name == database@,
            stats.accessible == listing is Some,
            listing matches Some(collections) ==> {
                &&& stats.doc_collections == count_of(
                    collections.deep_view(),
                    CollectionKind::Document,
                )
                &&& stats.edge_collections == count_of(
                    collections.deep_view(),
                    CollectionKind::Edge,
                )
                &&& stats.system_collections == count_of(
                    collections.deep_view(),
                    CollectionKind::System,
                )
            },
            listing is None ==> stats.doc_collections == 0 && stats.edge_collections == 0
                && stats.system_collections == 0,
    {
        let name = String::from_str(database);
        match listing {
            None => DatabaseStats {
                name,
                doc_collections: 0,
                edge_collections: 0,
                system_collections: 0,
                accessible: false,
            },
            Some(collections) => {
                let ghost models = collections.deep_view();
                let mut doc_collections: usize = 0;
                let mut edge_collections: usize = 0;
                let mut system_collections: usize = 0;
                let mut i: usize = 0;
                proof {
                    assert(models.take(0) =~= Seq::<CollectionInfoModel>::empty());
                }
                while i < collections.len()
                    invariant
                        models == collections.deep_view(),
                        0 <= i <= collections.len(),
                        ({
                            let seen = models.take(i as int);
                            &&& doc_collections == count_of(seen, CollectionKind::Document)
                            &&& edge_collections == count_of(seen, CollectionKind::Edge)
                            &&& system_collections == count_of(seen, CollectionKind::System)
                        }),
                    decreases collections.len() - i,
                {
                    proof {
                        lemma_count_of_bound(models.take(i as int));
                        assert(models.take(i + 1).drop_last() =~= models.take(i as int));
                        assert(models.take(i + 1).last() == collections[i as int]@);
                    }
                    match classify(&collections[i]) {
                        CollectionKind::System => {
                            system_collections = system_collections + 1;
                        },
                        CollectionKind::Document => {
                            doc_collections = doc_collections + 1;
                        },
                        CollectionKind::Edge => {
                            edge_collections = edge_collections + 1;
                        },
                        CollectionKind::Other => {},
                    }
                    i = i + 1;
                }
                proof {
                    assert(models.take(i as int) =~= models);
                }
                DatabaseStats {
                    name,
                    doc_collections,
                    edge_collections,
                    system_collections,
                    accessible: true,
                }
            },
        }
    }
}

fn with_suffix(endpoint: &str, suffix: &str) -> (url: String)
    ensures
        url@ == without_trailing_slashes(endpoint@) + suffix@,
{
    let mut url = String::from_str(trim_trailing_slashes(endpoint));
    url.append(suffix);
    url
}

fn in_database(endpoint: &str, database: &str, suffix: &str) -> (url: String)
    ensures
        url@ == database_prefix(endpoint@, database@) + suffix@,
{
    let mut url = String::from_str(trim_trailing_slashes(endpoint));
    url.append("/_db/");
    url.append(database);
    url.append(suffix);
    url
}

/// Where the server tells its version.
pub fn version_url(endpoint: &str) -> (url: String)
    ensures
        url@ == without_trailing_slashes(endpoint@) + "/_api/version"@,
{
    with_suffix(endpoint, "/_api/version")
}

/// Where the analytics engine tells its version.
pub fn gae_version_url(endpoint: &str) -> (url: String)
    ensures
        url@ == without_trailing_slashes(endpoint@) + "/v1/version"@,
{
    with_suffix(endpoint, "/v1/version")
}

/// Where the server lists its databases.
pub fn databases_url(endpoint: &str) -> (url: String)
    ensures
        url@ == without_trailing_slashes(endpoint@) + "/_api/database"@,
{
    with_suffix(endpoint, "/_api/database")
}

/// Where the server lists the collections of `database`.
pub fn collections_url(endpoint: &str, database: &str) -> (url: String)
    ensures
        url@ == database_prefix(endpoint@, database@) + "/_api/collection"@,
{
    in_database(endpoint, database, "/_api/collection")
}

/// Where the server tells the properties and the document count of
/// `collection`.
pub fn collection_count_url(endpoint: &str, database: &str, collection: &str) -> (url: String)
    ensures
        url@ == database_prefix(endpoint@, database@) + "/_api/collection/"@ + collection@
            + "/count"@,
{
    let mut url = in_database(endpoint, database, "/_api/collection/");
    url.append(collection);
    url.append("/count");
    url
}

/// Where the server lists the graphs of `database`.
pub fn graphs_url(endpoint: &str, database: &str) -> (url: String)
    ensures
        url@ == database_prefix(endpoint@, database@) + "/_api/gharial"@,
{
    in_database(endpoint, database, "/_api/gharial")
}

/// Where the server takes queries on `database`.
pub fn cursor_url(endpoint: &str, database: &str) -> (url: String)
    ensures
        url@ == database_prefix(endpoint@, database@) + "/_api/cursor"@,
{
    in_database(endpoint, database, "/_api/cursor")
}

/// Documents that one answer to a sampling query for `limit` documents is
/// asked to have room for, so that the whole sample comes in one answer.
pub fn query_batch_size(limit: usize) -> (size: u64)
    ensures
        size == batch_size_for(limit as nat),
        size >= limit,
        size >= QUERY_BATCH_SIZE,
{
    let wanted = limit as u64;
    if wanted > QUERY_BATCH_SIZE {
        wanted
    } else {
        QUERY_BATCH_SIZE
    }
}

/// The query that takes the first `count` documents of `collection`, in
/// the order in which the server holds them.
pub fn sample_query(collection: &str, count: usize) -> (query: String)
    ensures
        query@ == sample_query_text(collection@, count as nat),
{
    let mut query = String::from_str("FOR d IN ");
    query.append(collection);
    query.append(" LIMIT ");
    push_decimal(&mut query, count as u64);
    query.append(" RETURN d");
    query
}

} // verus!
