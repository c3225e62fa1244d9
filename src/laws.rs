//! Properties of listings that relate several elements, blocks or scans.
use vstd::prelude::*;
use crate::entity::WayModel;
use crate::normalize::{
    RawBlock, RawDenseNode, RawElement, RawInfo, RawNode, raw_info_model,
    plain_node_model, dense_node_model,
};
use crate::query::{ways_of, stream_nodes, stream_ways};

verus! {

/// A node from a dense block never carries metadata; a plain node always carries
/// the metadata of its source element.
pub proof fn lemma_node_info_by_source(p: RawNode, d: RawDenseNode, t: Seq<Seq<u8>>)
    ensures
        dense_node_model(d, t).info is None,
        plain_node_model(p, t).info == Some(raw_info_model(p.info)),
{
}

/// A user name that is not valid text becomes absent, and every other metadata
/// field keeps the value it was read with.
pub proof fn lemma_invalid_user_keeps_siblings(r: RawInfo)
    requires
        r.user is Invalid,
    ensures
        raw_info_model(r).user is None,
        raw_info_model(r).version == r.version,
        raw_info_model(r).milli_timestamp == r.milli_timestamp,
        raw_info_model(r).changeset == r.changeset,
        raw_info_model(r).uid == r.uid,
        raw_info_model(r).visible == r.visible,
        raw_info_model(r).deleted == r.deleted,
{
}

/// A listing is a function of the blocks read alone: two scans that read the same
/// blocks list the same nodes and the same ways.
pub proof fn lemma_listing_deterministic(a: Seq<RawBlock>, b: Seq<RawBlock>)
    requires
        a == b,
    ensures
        stream_nodes(a) == stream_nodes(b),
        stream_ways(a) == stream_ways(b),
{
}

proof fn lemma_block_without_ways(s: Seq<RawElement>, t: Seq<Seq<u8>>)
    requires
        forall|j: int| 0 <= j < s.len() ==> !(#[trigger] s[j] is Way),
    ensures
        ways_of(s, t) == Seq::<WayModel>::empty(),
    decreases s.len(),
{
    if s.len() > 0 {
        let d = s.drop_last();
        assert forall|j: int| 0 <= j < d.len() implies !(#[trigger] d[j] is Way) by {
            assert(d[j] == s[j]);
        }
        lemma_block_without_ways(d, t);
        assert(!(s[s.len() - 1] is Way));
        assert(ways_of(s, t) =~= Seq::<WayModel>::empty());
    }
}

/// A stream without ways lists no ways: the listing is empty, not a failure.
pub proof fn lemma_no_ways_lists_empty(s: Seq<RawBlock>)
    requires
        forall|i: int, j: int|
            0 <= i < s.len() && 0 <= j < s[i].elements@.len() ==> !(#[trigger] s[i].elements@[j] is Way),
    ensures
        stream_ways(s) == Seq::<WayModel>::empty(),
    decreases s.len(),
{
    if s.len() > 0 {
        let d = s.drop_last();
        assert forall|i: int, j: int|
            0 <= i < d.len() && 0 <= j < d[i].elements@.len() implies !(#[trigger] d[i].elements@[j] is Way) by {
            assert(d[i] == s[i]);
        }
        lemma_no_ways_lists_empty(d);
        let b = s.last();
        assert forall|j: int| 0 <= j < b.elements@.len() implies !(#[trigger] b.elements@[j] is Way) by {
            assert(s[s.len() - 1].elements@[j] == b.elements@[j]);
        }
        lemma_block_without_ways(b.elements@, crate::text::table_view(b.strings@));
        assert(stream_ways(s) =~= Seq::<WayModel>::empty());
    }
}

/// Listing a stream read in two parts gives the listing of the first part
/// followed by that of the second.
pub proof fn lemma_listing_splits(a: Seq<RawBlock>, b: Seq<RawBlock>)
    ensures
        stream_nodes(a + b) == stream_nodes(a) + stream_nodes(b),
        stream_ways(a + b) == stream_ways(a) + stream_ways(b),
    decreases b.len(),
{
    if b.len() == 0 {
        assert(a + b =~= a);
        assert(stream_nodes(a) + stream_nodes(b) =~= stream_nodes(a));
        assert(stream_ways(a) + stream_ways(b) =~= stream_ways(a));
    } else {
        let d = b.drop_last();
        lemma_listing_splits(a, d);
        assert((a + b).drop_last() =~= a + d);
        assert((a + b).last() == b.last());
        assert(stream_nodes(a + b) =~= stream_nodes(a) + stream_nodes(b));
        assert(stream_ways(a + b) =~= stream_ways(a) + stream_ways(b));
    }
}

} // verus!
