use arangotui::data::{CollectionInfo, DatabaseStats};
use arangotui::gateway::{
    classify, collection_count_url, collections_url, cursor_url, databases_url, gae_version_url,
    graphs_url, query_batch_size, sample_query, version_url, CollectionKind, QUERY_BATCH_SIZE,
};

fn listed_collection(name: &str, collection_type: u32, is_system: bool) -> CollectionInfo {
    CollectionInfo {
        id: format!("id-{}", name),
        name: name.to_string(),
        status: 3,
        collection_type,
        is_system,
        globally_unique_id: format!("h/{}", name),
    }
}

#[test]
fn version_url_is_under_the_endpoint() {
    assert_eq!(version_url("http://localhost:8529"), "http://localhost:8529/_api/version");
    assert_eq!(version_url("http://localhost:8529/"), "http://localhost:8529/_api/version");
    assert_eq!(version_url("http://localhost:8529//"), "http://localhost:8529/_api/version");
}

#[test]
fn gae_version_url_is_under_the_endpoint() {
    assert_eq!(gae_version_url("https://gae.example/"), "https://gae.example/v1/version");
}

#[test]
fn databases_url_is_under_the_endpoint() {
    assert_eq!(databases_url("http://db:8529/"), "http://db:8529/_api/database");
}

#[test]
fn collections_url_names_the_database() {
    assert_eq!(
        collections_url("http://db:8529/", "_system"),
        "http://db:8529/_db/_system/_api/collection"
    );
}

#[test]
fn collection_count_url_names_the_collection() {
    assert_eq!(
        collection_count_url("http://db:8529", "shop", "orders"),
        "http://db:8529/_db/shop/_api/collection/orders/count"
    );
}

#[test]
fn graphs_url_names_the_database() {
    assert_eq!(graphs_url("http://db:8529/", "shop"), "http://db:8529/_db/shop/_api/gharial");
}

#[test]
fn cursor_url_names_the_database() {
    assert_eq!(cursor_url("http://db:8529/", "shop"), "http://db:8529/_db/shop/_api/cursor");
}

#[test]
fn urls_keep_slashes_inside_the_endpoint() {
    assert_eq!(databases_url("http://db:8529/base/"), "http://db:8529/base/_api/database");
}

#[test]
fn sample_query_takes_the_first_documents() {
    assert_eq!(sample_query("orders", 10), "FOR d IN orders LIMIT 10 RETURN d");
    assert_eq!(sample_query("knows", 0), "FOR d IN knows LIMIT 0 RETURN d");
    assert_eq!(sample_query("c", 1234), "FOR d IN c LIMIT 1234 RETURN d");
}

#[test]
fn the_batch_has_room_for_a_thousand_documents_at_least() {
    assert_eq!(QUERY_BATCH_SIZE, 1000);
    assert_eq!(query_batch_size(0), 1000);
    assert_eq!(query_batch_size(10), 1000);
    assert_eq!(query_batch_size(999), 1000);
    assert_eq!(query_batch_size(1000), 1000);
}

#[test]
fn the_batch_has_room_for_the_whole_sample() {
    assert_eq!(query_batch_size(1001), 1001);
    assert_eq!(query_batch_size(1010), 1010);
    assert_eq!(query_batch_size(250_000), 250_000);
    assert_eq!(query_batch_size(usize::MAX), usize::MAX as u64);
}

#[test]
fn classify_tells_the_groups_apart() {
    assert_eq!(classify(&listed_collection("a", 2, false)), CollectionKind::Document);
    assert_eq!(classify(&listed_collection("b", 3, false)), CollectionKind::Edge);
    assert_eq!(classify(&listed_collection("_c", 2, true)), CollectionKind::System);
    assert_eq!(classify(&listed_collection("_d", 3, true)), CollectionKind::System);
    assert_eq!(classify(&listed_collection("e", 4, false)), CollectionKind::Other);
    assert_eq!(classify(&listed_collection("_f", 0, true)), CollectionKind::System);
}

#[test]
fn stats_count_each_group() {
    let listing = vec![
        listed_collection("users", 2, false),
        listed_collection("_graphs", 2, true),
        listed_collection("knows", 3, false),
        listed_collection("orders", 2, false),
        listed_collection("_edges", 3, true),
        listed_collection("odd", 7, false),
        listed_collection("_jobs", 2, true),
    ];
    let stats = DatabaseStats::from_listing("shop", Some(&listing));
    assert_eq!(
        stats,
        DatabaseStats {
            name: "shop".to_string(),
            doc_collections: 2,
            edge_collections: 1,
            system_collections: 3,
            accessible: true,
        }
    );
}

#[test]
fn stats_of_an_empty_database() {
    let listing: Vec<CollectionInfo> = Vec::new();
    let stats = DatabaseStats::from_listing("empty", Some(&listing));
    assert_eq!(stats.name, "empty");
    assert_eq!(stats.doc_collections, 0);
    assert_eq!(stats.edge_collections, 0);
    assert_eq!(stats.system_collections, 0);
    assert!(stats.accessible);
}

#[test]
fn stats_without_a_listing_mark_no_access() {
    let stats = DatabaseStats::from_listing("secret", None);
    assert_eq!(
        stats,
        DatabaseStats {
            name: "secret".to_string(),
            doc_collections: 0,
            edge_collections: 0,
            system_collections: 0,
            accessible: false,
        }
    );
}
