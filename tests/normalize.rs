use osm_rest::entity::Info;
use osm_rest::normalize::{
    decode_user, make_info, make_node, make_node_from_dense_node, make_way, normalize, Entity,
    RawDenseNode, RawElement, RawInfo, RawNode, RawUser, RawWay,
};
use osm_rest::tags::collect_tags;
use osm_rest::text::{lookup_text, resolve_tags};

fn tag(k: &str, v: &str) -> (String, String) {
    (k.to_string(), v.to_string())
}

fn table(strings: &[&str]) -> Vec<Vec<u8>> {
    strings.iter().map(|s| s.as_bytes().to_vec()).collect()
}

fn info_with(user: RawUser) -> RawInfo {
    RawInfo {
        version: Some(3),
        milli_timestamp: Some(1_600_000_000_000),
        changeset: Some(42),
        uid: Some(7),
        user,
        visible: true,
        deleted: false,
    }
}

#[test]
fn tags_keep_last_value_for_repeated_key() {
    let r = collect_tags(vec![tag("a", "1"), tag("b", "2"), tag("a", "3")]);
    assert_eq!(r, vec![tag("a", "3"), tag("b", "2")]);
}

#[test]
fn tags_empty_stay_empty() {
    assert!(collect_tags(Vec::new()).is_empty());
}

#[test]
fn tags_have_no_duplicate_keys() {
    let r = collect_tags(vec![tag("x", "1"), tag("x", "2"), tag("x", "3"), tag("y", "")]);
    for i in 0..r.len() {
        for j in 0..r.len() {
            if i != j {
                assert_ne!(r[i].0, r[j].0);
            }
        }
    }
    assert_eq!(r.len(), 2);
    assert!(r.contains(&tag("x", "3")));
}

#[test]
fn lookup_decodes_valid_text() {
    let t = vec![b"".to_vec(), "höhe".as_bytes().to_vec()];
    assert_eq!(lookup_text(&t, 1), Some("höhe".to_string()));
    assert_eq!(lookup_text(&t, 0), Some(String::new()));
}

#[test]
fn lookup_rejects_invalid_text_and_bad_index() {
    let t = vec![vec![0xff, 0xfe], b"ok".to_vec()];
    assert_eq!(lookup_text(&t, 0), None);
    assert_eq!(lookup_text(&t, 2), None);
    assert_eq!(lookup_text(&t, -1), None);
}

#[test]
fn bad_tag_string_drops_only_that_tag() {
    let mut t = table(&["", "name", "Main", "bad", "ref", "7"]);
    t[3] = vec![0xc3, 0x28];
    let r = resolve_tags(&t, &vec![(1, 2), (3, 2), (4, 5), (1, 99)]);
    assert_eq!(r, vec![tag("name", "Main"), tag("ref", "7")]);
}

#[test]
fn way_refs_keep_order_and_repeats() {
    let t = table(&["", "highway", "residential"]);
    let w = make_way(
        RawWay {
            id: 10,
            tags: vec![(1, 2)],
            refs: vec![5, 3, 5, 9],
            info: info_with(RawUser::Text("alice".to_string())),
        },
        &t,
    );
    assert_eq!(w.refs, vec![5, 3, 5, 9]);
    assert_eq!(w.id, 10);
    assert_eq!(w.tags, vec![tag("highway", "residential")]);
    assert!(w.info.is_some());
}

#[test]
fn way_without_refs_is_kept() {
    let w = make_way(RawWay { id: 1, tags: Vec::new(), refs: Vec::new(), info: info_with(RawUser::Absent) }, &Vec::new());
    assert!(w.refs.is_empty());
}

#[test]
fn dense_node_has_no_info() {
    let t = table(&["", "k", "v"]);
    let n = make_node_from_dense_node(
        RawDenseNode { id: -4, tags: vec![(1, 2)], nano_lat: 51_500_000_000, nano_lon: -120_000_000 },
        &t,
    );
    assert_eq!(n.info, None);
    assert_eq!(n.id, -4);
    assert_eq!(n.tags, vec![tag("k", "v")]);
    assert_eq!(n.nano_lat, 51_500_000_000);
    assert_eq!(n.nano_lon, -120_000_000);
}

#[test]
fn plain_node_has_info() {
    let n = make_node(
        RawNode { id: 8, tags: Vec::new(), nano_lat: 1, nano_lon: 2, info: info_with(RawUser::Text("bob".to_string())) },
        &Vec::new(),
    );
    let i = n.info.expect("plain node carries metadata");
    assert_eq!(i.user, Some("bob".to_string()));
    assert_eq!(i.version, Some(3));
}

#[test]
fn node_tags_repeated_key_last_wins() {
    let t = table(&["", "k", "1", "2"]);
    let n = make_node(
        RawNode { id: 8, tags: vec![(1, 2), (1, 3)], nano_lat: 0, nano_lon: 0, info: info_with(RawUser::Absent) },
        &t,
    );
    assert_eq!(n.tags, vec![tag("k", "2")]);
}

#[test]
fn invalid_user_keeps_sibling_fields() {
    let i = make_info(info_with(RawUser::Invalid));
    assert_eq!(
        i,
        Info {
            version: Some(3),
            milli_timestamp: Some(1_600_000_000_000),
            changeset: Some(42),
            uid: Some(7),
            user: None,
            visible: true,
            deleted: false,
        }
    );
}

#[test]
fn absent_fields_stay_absent() {
    let raw = RawInfo {
        version: None,
        milli_timestamp: None,
        changeset: Some(1),
        uid: None,
        user: RawUser::Absent,
        visible: false,
        deleted: true,
    };
    let i = make_info(raw);
    assert_eq!(i.version, None);
    assert_eq!(i.milli_timestamp, None);
    assert_eq!(i.changeset, Some(1));
    assert_eq!(i.uid, None);
    assert_eq!(i.user, None);
    assert!(!i.visible);
    assert!(i.deleted);
}

#[test]
fn decode_user_cases() {
    assert_eq!(decode_user(RawUser::Text("c".to_string())), Some("c".to_string()));
    assert_eq!(decode_user(RawUser::Invalid), None);
    assert_eq!(decode_user(RawUser::Absent), None);
}

#[test]
fn relations_and_other_records_give_nothing() {
    assert_eq!(normalize(RawElement::Relation(5), &Vec::new()), None);
    assert_eq!(normalize(RawElement::Other, &Vec::new()), None);
}

#[test]
fn normalize_dispatches_by_kind() {
    let t = Vec::new();
    let d = normalize(RawElement::DenseNode(RawDenseNode { id: 1, tags: Vec::new(), nano_lat: 0, nano_lon: 0 }), &t);
    match d {
        Some(Entity::Node(n)) => assert_eq!(n.info, None),
        other => panic!("expected a node, got {:?}", other),
    }
    let w = normalize(
        RawElement::Way(RawWay { id: 2, tags: Vec::new(), refs: vec![1], info: info_with(RawUser::Absent) }),
        &t,
    );
    match w {
        Some(Entity::Way(w)) => assert_eq!(w.refs, vec![1]),
        other => panic!("expected a way, got {:?}", other),
    }
}
