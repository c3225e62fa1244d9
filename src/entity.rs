//! The normalised entities and their mathematical models.
use vstd::prelude::*;
use crate::tags::{Tag, tag_map, tags_view, keys_unique};

verus! {

/// Revision metadata of an element; each field is present or absent on its own.
#[derive(Debug, Clone, PartialEq, Eq)]
pub struct Info {
    pub version: Option<i32>,
    pub milli_timestamp: Option<i64>,
    pub changeset: Option<i64>,
    pub uid: Option<i32>,
    pub user: Option<String>,
    pub visible: bool,
    pub deleted: bool,
}

/// A point entity. Coordinates are in nanodegrees.
#[derive(Debug, Clone, PartialEq, Eq)]
pub struct Node {
    pub id: i64,
    pub tags: Vec<Tag>,
    pub nano_lat: i64,
    pub nano_lon: i64,
    pub info: Option<Info>,
}

/// A linear or area entity; `refs` lists node ids in the order of the source.
#[derive(Debug, Clone, PartialEq, Eq)]
pub struct Way {
    pub id: i64,
    pub tags: Vec<Tag>,
    pub info: Option<Info>,
    pub refs: Vec<i64>,
}

/// The model of an `Info`.
pub struct InfoModel {
    pub version: Option<i32>,
    pub milli_timestamp: Option<i64>,
    pub changeset: Option<i64>,
    pub uid: Option<i32>,
    pub user: Option<Seq<char>>,
    pub visible: bool,
    pub deleted: bool,
}

/// The model of a `Node`: its tags as a map.
pub struct NodeModel {
    pub id: i64,
    pub tags: Map<Seq<char>, Seq<char>>,
    pub nano_lat: i64,
    pub nano_lon: i64,
    pub info: Option<InfoModel>,
}

/// The model of a `Way`.
pub struct WayModel {
    pub id: i64,
    pub tags: Map<Seq<char>, Seq<char>>,
    pub info: Option<InfoModel>,
    pub refs: Seq<i64>,
}

pub open spec fn info_model(i: Option<Info>) -> Option<InfoModel> {
    match i {
        Some(i) => Some(i@),
        None => None,
    }
}

impl View for Info {
    type V = InfoModel;

    open spec fn view(&self) -> InfoModel {
        InfoModel {
            version: self.version,
            milli_timestamp: self.milli_timestamp,
            changeset: self.changeset,
            uid: self.uid,
            user: match self.user {
                Some(u) => Some(u@),
                None => None,
            },
            visible: self.visible,
            deleted: self.deleted,
        }
    }
}

impl View for Node {
    type V = NodeModel;

    open spec fn view(&self) -> NodeModel {
        NodeModel {
            id: self.id,
            tags: tag_map(tags_view(self.tags@)),
            nano_lat: self.nano_lat,
            nano_lon: self.nano_lon,
            info: info_model(self.info),
        }
    }
}

impl Node {
    /// The tag keys are unique.
    pub open spec fn wf(&self) -> bool {
        keys_unique(tags_view(self.tags@))
    }
}

impl View for Way {
    type V = WayModel;

    open spec fn view(&self) -> WayModel {
        WayModel {
            id: self.id,
            tags: tag_map(tags_view(self.tags@)),
            info: info_model(self.info),
            refs: self.refs@,
        }
    }
}

impl Way {
    /// The tag keys are unique.
    pub open spec fn wf(&self) -> bool {
        keys_unique(tags_view(self.tags@))
    }
}

} // verus!
