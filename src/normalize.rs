//! Raw elements as the binary reader yields them, and their mapping to entities.
use vstd::prelude::*;
use crate::tags::{tag_map, collect_tags};
use crate::text::{resolved_tags, resolve_tags, table_view};
use crate::entity::{Info, InfoModel, Node, NodeModel, Way, WayModel};

verus! {

/// The user name of an element as read: missing, decoded text, or bytes that are
/// not valid text.
#[derive(Debug, Clone, PartialEq, Eq)]
pub enum RawUser {
    Absent,
    Text(String),
    Invalid,
}

/// The metadata block of an element as read.
#[derive(Debug, Clone, PartialEq, Eq)]
pub struct RawInfo {
    pub version: Option<i32>,
    pub milli_timestamp: Option<i64>,
    pub changeset: Option<i64>,
    pub uid: Option<i32>,
    pub user: RawUser,
    pub visible: bool,
    pub deleted: bool,
}

/// A plain node with its metadata block; its tags are pairs of indices into the
/// string table of its block.
#[derive(Debug, Clone, PartialEq, Eq)]
pub struct RawNode {
    pub id: i64,
    pub tags: Vec<(i64, i64)>,
    pub nano_lat: i64,
    pub nano_lon: i64,
    pub info: RawInfo,
}

/// A member of a dense-node block, with tags as string-table indices.
#[derive(Debug, Clone, PartialEq, Eq)]
pub struct RawDenseNode {
    pub id: i64,
    pub tags: Vec<(i64, i64)>,
    pub nano_lat: i64,
    pub nano_lon: i64,
}

/// A way with its node references in source order and tags as string-table
/// indices.
#[derive(Debug, Clone, PartialEq, Eq)]
pub struct RawWay {
    pub id: i64,
    pub tags: Vec<(i64, i64)>,
    pub refs: Vec<i64>,
    pub info: RawInfo,
}

/// One element of the stream.
#[derive(Debug, Clone, PartialEq, Eq)]
pub enum RawElement {
    Node(RawNode),
    DenseNode(RawDenseNode),
    Way(RawWay),
    Relation(i64),
    Other,
}

/// A block of the stream: its string table and its elements, in order.
#[derive(Debug, Clone, PartialEq, Eq)]
pub struct RawBlock {
    pub strings: Vec<Vec<u8>>,
    pub elements: Vec<RawElement>,
}

/// A normalised entity.
#[derive(Debug, Clone, PartialEq, Eq)]
pub enum Entity {
    Node(Node),
    Way(Way),
}

/// The model of an `Entity`.
pub enum EntityModel {
    Node(NodeModel),
    Way(WayModel),
}

impl View for Entity {
    type V = EntityModel;

    open spec fn view(&self) -> EntityModel {
        match self {
            Entity::Node(n) => EntityModel::Node(n@),
            Entity::Way(w) => EntityModel::Way(w@),
        }
    }
}

impl Entity {
    pub open spec fn wf(&self) -> bool {
        match self {
            Entity::Node(n) => n.wf(),
            Entity::Way(w) => w.wf(),
        }
    }
}

/// What an element becomes: relations and other records give nothing.
pub open spec fn element_model(e: RawElement, t: Seq<Seq<u8>>) -> Option<EntityModel> {
    match e {
        RawElement::Node(n) => Some(EntityModel::Node(plain_node_model(n, t))),
        RawElement::DenseNode(d) => Some(EntityModel::Node(dense_node_model(d, t))),
        RawElement::Way(w) => Some(EntityModel::Way(way_model(w, t))),
        _ => None,
    }
}

/// A user name that is not valid text is dropped; a decoded one is kept.
pub open spec fn user_model(u: RawUser) -> Option<Seq<char>> {
    match u {
        RawUser::Text(s) => Some(s@),
        _ => None,
    }
}

pub open spec fn raw_info_model(r: RawInfo) -> InfoModel {
    InfoModel {
        version: r.version,
        milli_timestamp: r.milli_timestamp,
        changeset: r.changeset,
        uid: r.uid,
        user: user_model(r.user),
        visible: r.visible,
        deleted: r.deleted,
    }
}

/// The node that a plain node becomes: metadata present.
pub open spec fn plain_node_model(r: RawNode, t: Seq<Seq<u8>>) -> NodeModel {
    NodeModel {
        id: r.id,
        tags: tag_map(resolved_tags(t, r.tags@)),
        nano_lat: r.nano_lat,
        nano_lon: r.nano_lon,
        info: Some(raw_info_model(r.info)),
    }
}

/// The node that a dense-node member becomes: metadata absent.
pub open spec fn dense_node_model(r: RawDenseNode, t: Seq<Seq<u8>>) -> NodeModel {
    NodeModel {
        id: r.id,
        tags: tag_map(resolved_tags(t, r.tags@)),
        nano_lat: r.nano_lat,
        nano_lon: r.nano_lon,
        info: None,
    }
}

/// The way that a raw way becomes: references as read, metadata present.
pub open spec fn way_model(r: RawWay, t: Seq<Seq<u8>>) -> WayModel {
    WayModel {
        id: r.id,
        tags: tag_map(resolved_tags(t, r.tags@)),
        info: Some(raw_info_model(r.info)),
        refs: r.refs@,
    }
}

/// Turns a user name as read into an optional string; undecodable text becomes
/// absent.
pub fn decode_user(u: RawUser) -> (r: Option<String>)
    ensures
        match r {
            Some(s) => user_model(u) == Some(s@),
            None => user_model(u) is None,
        },
{
    match u {
        RawUser::Text(s) => Some(s),
        _ => None,
    }
}

/// Builds the metadata record; every field passes through as read, except that
/// an undecodable user name becomes absent.
pub fn make_info(raw: RawInfo) -> (r: Info)
    ensures
        r@ == raw_info_model(raw),
{
    let RawInfo { version, milli_timestamp, changeset, uid, user, visible, deleted } = raw;
    Info {
        version,
        milli_timestamp,
        changeset,
        uid,
        user: decode_user(user),
        visible,
        deleted,
    }
}

/// Normalises a plain node.
pub fn make_node(raw: RawNode, table: &Vec<Vec<u8>>) -> (r: Node)
    ensures
        r.wf(),
        r@ == plain_node_model(raw, table_view(table@)),
        r.info is Some,
{
    let RawNode { id, tags, nano_lat, nano_lon, info } = raw;
    Node { id, tags: collect_tags(resolve_tags(table, &tags)), nano_lat, nano_lon, info: Some(make_info(info)) }
}

/// Normalises a member of a dense-node block; such a node carries no metadata.
pub fn make_node_from_dense_node(raw: RawDenseNode, table: &Vec<Vec<u8>>) -> (r: Node)
    ensures
        r.wf(),
        r@ == dense_node_model(raw, table_view(table@)),
        r.info is None,
{
    let RawDenseNode { id, tags, nano_lat, nano_lon } = raw;
    Node { id, tags: collect_tags(resolve_tags(table, &tags)), nano_lat, nano_lon, info: None }
}

/// Normalises a way; its references keep their order and repetitions.
pub fn make_way(raw: RawWay, table: &Vec<Vec<u8>>) -> (r: Way)
    ensures
        r.wf(),
        r@ == way_model(raw, table_view(table@)),
        r.refs@ == raw.refs@,
        r.info is Some,
{
    let RawWay { id, tags, refs, info } = raw;
    Way { id, tags: collect_tags(resolve_tags(table, &tags)), info: Some(make_info(info)), refs }
}

/// Normalises any element; relations and other records are passed over.
pub fn normalize(el: RawElement, table: &Vec<Vec<u8>>) -> (r: Option<Entity>)
    ensures
        match r {
            Some(e) => e.wf() && element_model(el, table_view(table@)) == Some(e@),
            None => element_model(el, table_view(table@)) is None,
        },
{
    match el {
        RawElement::Node(n) => Some(Entity::Node(make_node(n, table))),
        RawElement::DenseNode(d) => Some(Entity::Node(make_node_from_dense_node(d, table))),
        RawElement::Way(w) => Some(Entity::Way(make_way(w, table))),
        RawElement::Relation(_) => None,
        RawElement::Other => None,
    }
}

} // verus!
