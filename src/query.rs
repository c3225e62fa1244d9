//! Listing the entities of one kind over a whole element stream.
use vstd::prelude::*;
use crate::entity::{Node, NodeModel, Way, WayModel};
use crate::normalize::{
    RawBlock, RawElement, plain_node_model, dense_node_model, way_model, make_node,
    make_node_from_dense_node, make_way,
};
use crate::text::table_view;

verus! {

/// Why a listing failed.
#[derive(Debug, Clone, PartialEq, Eq)]
pub enum QueryError {
    /// The source file is missing or unreadable; holds its path.
    FileUnavailable(String),
    /// The stream is malformed or truncated; holds the reader's explanation.
    Decode(String),
}

/// The nodes that one element contributes, given its block's string table.
pub open spec fn element_nodes(e: RawElement, t: Seq<Seq<u8>>) -> Seq<NodeModel> {
    match e {
        RawElement::Node(n) => seq![plain_node_model(n, t)],
        RawElement::DenseNode(d) => seq![dense_node_model(d, t)],
        _ => seq![],
    }
}

/// The ways that one element contributes, given its block's string table.
pub open spec fn element_ways(e: RawElement, t: Seq<Seq<u8>>) -> Seq<WayModel> {
    match e {
        RawElement::Way(w) => seq![way_model(w, t)],
        _ => seq![],
    }
}

/// The nodes of a block's elements, in order.
pub open spec fn nodes_of(s: Seq<RawElement>, t: Seq<Seq<u8>>) -> Seq<NodeModel>
    decreases s.len(),
{
    if s.len() == 0 {
        seq![]
    } else {
        nodes_of(s.drop_last(), t) + element_nodes(s.last(), t)
    }
}

/// The ways of a block's elements, in order.
pub open spec fn ways_of(s: Seq<RawElement>, t: Seq<Seq<u8>>) -> Seq<WayModel>
    decreases s.len(),
{
    if s.len() == 0 {
        seq![]
    } else {
        ways_of(s.drop_last(), t) + element_ways(s.last(), t)
    }
}

pub open spec fn block_nodes(b: RawBlock) -> Seq<NodeModel> {
    nodes_of(b.elements@, table_view(b.strings@))
}

pub open spec fn block_ways(b: RawBlock) -> Seq<WayModel> {
    ways_of(b.elements@, table_view(b.strings@))
}

/// The nodes of a stream of blocks, in stream order.
pub open spec fn stream_nodes(s: Seq<RawBlock>) -> Seq<NodeModel>
    decreases s.len(),
{
    if s.len() == 0 {
        seq![]
    } else {
        stream_nodes(s.drop_last()) + block_nodes(s.last())
    }
}

/// The ways of a stream of blocks, in stream order.
pub open spec fn stream_ways(s: Seq<RawBlock>) -> Seq<WayModel>
    decreases s.len(),
{
    if s.len() == 0 {
        seq![]
    } else {
        stream_ways(s.drop_last()) + block_ways(s.last())
    }
}

pub open spec fn node_models(v: Seq<Node>) -> Seq<NodeModel> {
    v.map_values(|n: Node| n@)
}

pub open spec fn way_models(v: Seq<Way>) -> Seq<WayModel> {
    v.map_values(|w: Way| w@)
}

pub open spec fn all_nodes_wf(v: Seq<Node>) -> bool {
    forall|i: int| 0 <= i < v.len() ==> #[trigger] v[i].wf()
}

pub open spec fn all_ways_wf(v: Seq<Way>) -> bool {
    forall|i: int| 0 <= i < v.len() ==> #[trigger] v[i].wf()
}

/// Accepts the source path when it was found to exist.
pub fn file_exists(path: &str, exists: bool) -> (r: Result<String, QueryError>)
    ensures
        exists ==> (r matches Ok(p) && p@ == path@),
        !exists ==> (r matches Err(QueryError::FileUnavailable(p)) && p@ == path@),
{
    let p = path.to_string();
    if exists {
        Ok(p)
    } else {
        Err(QueryError::FileUnavailable(p))
    }
}

/// Gathers the nodes of a stream as its elements arrive.
pub struct NodeQuery {
    found: Vec<Node>,
}

impl View for NodeQuery {
    type V = Seq<NodeModel>;

    closed spec fn view(&self) -> Seq<NodeModel> {
        node_models(self.found@)
    }
}

impl NodeQuery {
    /// Every gathered node is well formed.
    pub closed spec fn wf(&self) -> bool {
        all_nodes_wf(self.found@)
    }

    pub fn new() -> (r: NodeQuery)
        ensures
            r.wf(),
            r@ == Seq::<NodeModel>::empty(),
    {
        let r = NodeQuery { found: Vec::new() };
        assert(node_models(r.found@) =~= Seq::<NodeModel>::empty());
        r
    }

    /// Takes the next element of the stream, read from a block with string
    /// table `table`; plain and dense nodes are kept.
    pub fn accept(&mut self, el: RawElement, table: &Vec<Vec<u8>>)
        requires
            old(self).wf(),
        ensures
            final(self).wf(),
            final(self)@ == old(self)@ + element_nodes(el, table_view(table@)),
    {
        let ghost before = self.found@;
        match el {
            RawElement::Node(n) => {
                let node = make_node(n, table);
                self.found.push(node);
            },
            RawElement::DenseNode(d) => {
                let node = make_node_from_dense_node(d, table);
                self.found.push(node);
            },
            _ => {},
        }
        assert(node_models(self.found@) =~= node_models(before) + element_nodes(el, table_view(table@)));
    }

    /// Takes the next block of the stream, element by element.
    pub fn accept_block(&mut self, b: RawBlock)
        requires
            old(self).wf(),
        ensures
            final(self).wf(),
            final(self)@ == old(self)@ + block_nodes(b),
    {
        let ghost start = self@;
        let ghost t = table_view(b.strings@);
        let ghost s = b.elements@;
        let RawBlock { strings, elements } = b;
        for el in iter: elements.into_iter()
            invariant
                iter.seq() == s,
                t == table_view(strings@),
                self.wf(),
                self@ == start + nodes_of(s.take(iter.index() as int), t),
        {
            proof {
                assert(s.take(iter.index() as int + 1).drop_last() =~= s.take(iter.index() as int));
            }
            self.accept(el, &strings);
        }
        proof {
            assert(s.take(s.len() as int) =~= s);
        }
    }

    /// Ends the scan: the gathered nodes when the reader finished cleanly, its
    /// error otherwise, with nothing gathered handed out.
    pub fn finish(self, outcome: Result<(), String>) -> (r: Result<Vec<Node>, QueryError>)
        requires
            self.wf(),
        ensures
            outcome is Ok ==> (r matches Ok(v) && node_models(v@) == self@ && all_nodes_wf(v@)),
            outcome matches Err(m) ==> r == Err::<Vec<Node>, QueryError>(QueryError::Decode(m)),
    {
        match outcome {
            Ok(()) => Ok(self.found),
            Err(m) => Err(QueryError::Decode(m)),
        }
    }
}

/// Gathers the ways of a stream as its elements arrive.
pub struct WayQuery {
    found: Vec<Way>,
}

impl View for WayQuery {
    type V = Seq<WayModel>;

    closed spec fn view(&self) -> Seq<WayModel> {
        way_models(self.found@)
    }
}

impl WayQuery {
    /// Every gathered way is well formed.
    pub closed spec fn wf(&self) -> bool {
        all_ways_wf(self.found@)
    }

    pub fn new() -> (r: WayQuery)
        ensures
            r.wf(),
            r@ == Seq::<WayModel>::empty(),
    {
        let r = WayQuery { found: Vec::new() };
        assert(way_models(r.found@) =~= Seq::<WayModel>::empty());
        r
    }

    /// Takes the next element of the stream, read from a block with string
    /// table `table`; ways are kept.
    pub fn accept(&mut self, el: RawElement, table: &Vec<Vec<u8>>)
        requires
            old(self).wf(),
        ensures
            final(self).wf(),
            final(self)@ == old(self)@ + element_ways(el, table_view(table@)),
    {
        let ghost before = self.found@;
        match el {
            RawElement::Way(w) => {
                let way = make_way(w, table);
                self.found.push(way);
            },
            _ => {},
        }
        assert(way_models(self.found@) =~= way_models(before) + element_ways(el, table_view(table@)));
    }

    /// Takes the next block of the stream, element by element.
    pub fn accept_block(&mut self, b: RawBlock)
        requires
            old(self).wf(),
        ensures
            final(self).wf(),
            final(self)@ == old(self)@ + block_ways(b),
    {
        let ghost start = self@;
        let ghost t = table_view(b.strings@);
        let ghost s = b.elements@;
        let RawBlock { strings, elements } = b;
        for el in iter: elements.into_iter()
            invariant
                iter.seq() == s,
                t == table_view(strings@),
                self.wf(),
                self@ == start + ways_of(s.take(iter.index() as int), t),
        {
            proof {
                assert(s.take(iter.index() as int + 1).drop_last() =~= s.take(iter.index() as int));
            }
            self.accept(el, &strings);
        }
        proof {
            assert(s.take(s.len() as int) =~= s);
        }
    }

    /// Ends the scan: the gathered ways when the reader finished cleanly, its
    /// error otherwise, with nothing gathered handed out.
    pub fn finish(self, outcome: Result<(), String>) -> (r: Result<Vec<Way>, QueryError>)
        requires
            self.wf(),
        ensures
            outcome is Ok ==> (r matches Ok(v) && way_models(v@) == self@ && all_ways_wf(v@)),
            outcome matches Err(m) ==> r == Err::<Vec<Way>, QueryError>(QueryError::Decode(m)),
    {
        match outcome {
            Ok(()) => Ok(self.found),
            Err(m) => Err(QueryError::Decode(m)),
        }
    }
}

/// Lists the nodes of a whole stream of blocks as the reader delivered it; a
/// reader failure is passed on and no node is returned.
pub fn list_nodes(scan: Result<Vec<RawBlock>, String>) -> (r: Result<Vec<Node>, QueryError>)
    ensures
        scan matches Ok(s) ==> (r matches Ok(v) && node_models(v@) == stream_nodes(s@)
            && all_nodes_wf(v@)),
        scan matches Err(m) ==> r == Err::<Vec<Node>, QueryError>(QueryError::Decode(m)),
{
    match scan {
        Ok(blocks) => {
            let ghost s = blocks@;
            let mut q = NodeQuery::new();
            for b in iter: blocks.into_iter()
                invariant
                    iter.seq() == s,
                    q.wf(),
                    q@ == stream_nodes(s.take(iter.index() as int)),
            {
                proof {
                    assert(s.take(iter.index() as int + 1).drop_last() =~= s.take(iter.index() as int));
                }
                q.accept_block(b);
            }
            proof {
                assert(s.take(s.len() as int) =~= s);
            }
            q.finish(Ok(()))
        },
        Err(m) => Err(QueryError::Decode(m)),
    }
}

/// Lists the ways of a whole stream of blocks as the reader delivered it; a
/// reader failure is passed on and no way is returned.
pub fn list_ways(scan: Result<Vec<RawBlock>, String>) -> (r: Result<Vec<Way>, QueryError>)
    ensures
        scan matches Ok(s) ==> (r matches Ok(v) && way_models(v@) == stream_ways(s@)
            && all_ways_wf(v@)),
        scan matches Err(m) ==> r == Err::<Vec<Way>, QueryError>(QueryError::Decode(m)),
{
    match scan {
        Ok(blocks) => {
            let ghost s = blocks@;
            let mut q = WayQuery::new();
            for b in iter: blocks.into_iter()
                invariant
                    iter.seq() == s,
                    q.wf(),
                    q@ == stream_ways(s.take(iter.index() as int)),
            {
                proof {
                    assert(s.take(iter.index() as int + 1).drop_last() =~= s.take(iter.index() as int));
                }
                q.accept_block(b);
            }
            proof {
                assert(s.take(s.len() as int) =~= s);
            }
            q.finish(Ok(()))
        },
        Err(m) => Err(QueryError::Decode(m)),
    }
}

} // verus!
