use osm_rest::normalize::{RawBlock, RawDenseNode, RawElement, RawInfo, RawNode, RawUser, RawWay};
use osm_rest::query::{file_exists, list_nodes, list_ways, NodeQuery, QueryError, WayQuery};

fn info() -> RawInfo {
    RawInfo {
        version: Some(1),
        milli_timestamp: None,
        changeset: None,
        uid: None,
        user: RawUser::Absent,
        visible: true,
        deleted: false,
    }
}

fn strings() -> Vec<Vec<u8>> {
    vec![b"".to_vec(), b"amenity".to_vec(), b"cafe".to_vec()]
}

fn stream() -> Vec<RawBlock> {
    vec![
        RawBlock {
            strings: strings(),
            elements: vec![
                RawElement::Node(RawNode { id: 1, tags: vec![(1, 2)], nano_lat: 10, nano_lon: 20, info: info() }),
                RawElement::Way(RawWay { id: 100, tags: Vec::new(), refs: vec![1, 2], info: info() }),
            ],
        },
        RawBlock {
            strings: Vec::new(),
            elements: vec![
                RawElement::DenseNode(RawDenseNode { id: 2, tags: Vec::new(), nano_lat: 30, nano_lon: 40 }),
                RawElement::Relation(7),
                RawElement::Way(RawWay { id: 101, tags: Vec::new(), refs: vec![2, 1], info: info() }),
                RawElement::Other,
            ],
        },
    ]
}

#[test]
fn nodes_listed_in_stream_order() {
    let v = list_nodes(Ok(stream())).expect("clean scan");
    let ids: Vec<i64> = v.iter().map(|n| n.id).collect();
    assert_eq!(ids, vec![1, 2]);
    assert!(v[0].info.is_some());
    assert_eq!(v[0].tags, vec![("amenity".to_string(), "cafe".to_string())]);
    assert!(v[1].info.is_none());
}

#[test]
fn ways_listed_in_stream_order() {
    let v = list_ways(Ok(stream())).expect("clean scan");
    let ids: Vec<i64> = v.iter().map(|w| w.id).collect();
    assert_eq!(ids, vec![100, 101]);
    assert_eq!(v[1].refs, vec![2, 1]);
}

#[test]
fn two_listings_of_one_stream_agree() {
    assert_eq!(list_nodes(Ok(stream())), list_nodes(Ok(stream())));
    assert_eq!(list_ways(Ok(stream())), list_ways(Ok(stream())));
}

#[test]
fn no_ways_gives_empty_list() {
    let s = vec![RawBlock {
        strings: Vec::new(),
        elements: vec![
            RawElement::DenseNode(RawDenseNode { id: 2, tags: Vec::new(), nano_lat: 0, nano_lon: 0 }),
            RawElement::Relation(3),
        ],
    }];
    assert_eq!(list_ways(Ok(s)), Ok(Vec::new()));
    assert_eq!(list_ways(Ok(Vec::new())), Ok(Vec::new()));
}

#[test]
fn truncated_stream_is_an_error() {
    let r = list_nodes(Err("unexpected end of file".to_string()));
    assert_eq!(r, Err(QueryError::Decode("unexpected end of file".to_string())));
    let r = list_ways(Err("bad blob".to_string()));
    assert_eq!(r, Err(QueryError::Decode("bad blob".to_string())));
}

#[test]
fn streaming_query_matches_listing() {
    let mut q = NodeQuery::new();
    let mut w = WayQuery::new();
    for b in stream() {
        q.accept_block(b.clone());
        for el in b.elements {
            w.accept(el, &b.strings);
        }
    }
    assert_eq!(q.finish(Ok(())), list_nodes(Ok(stream())));
    assert_eq!(w.finish(Ok(())), list_ways(Ok(stream())));
}

#[test]
fn streaming_query_drops_partial_result_on_error() {
    let mut q = NodeQuery::new();
    for b in stream() {
        q.accept_block(b);
    }
    assert_eq!(q.finish(Err("truncated".to_string())), Err(QueryError::Decode("truncated".to_string())));
}

#[test]
fn file_exists_accepts_present_path() {
    assert_eq!(file_exists("map.osm.pbf", true), Ok("map.osm.pbf".to_string()));
}

#[test]
fn file_exists_rejects_missing_path() {
    assert_eq!(
        file_exists("missing.pbf", false),
        Err(QueryError::FileUnavailable("missing.pbf".to_string()))
    );
}
