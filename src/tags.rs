//! Tag lists with unique keys, where a later pair for a key replaces an earlier one.
use vstd::prelude::*;

verus! {

/// A tag as key and value.
pub type Tag = (String, String);

/// A tag as the characters of its key and value.
pub type TagModel = (Seq<char>, Seq<char>);

pub open spec fn tag_view(t: Tag) -> TagModel {
    (t.0@, t.1@)
}

pub open spec fn tags_view(s: Seq<Tag>) -> Seq<TagModel> {
    s.map_values(|t: Tag| tag_view(t))
}

/// The mapping that a sequence of tags denotes: pairs are applied in order, so the
/// last pair for a key gives its value.
pub open spec fn tag_map(s: Seq<TagModel>) -> Map<Seq<char>, Seq<char>>
    decreases s.len(),
{
    if s.len() == 0 {
        Map::empty()
    } else {
        tag_map(s.drop_last()).insert(s.last().0, s.last().1)
    }
}

/// No key occurs twice.
pub open spec fn keys_unique(s: Seq<TagModel>) -> bool {
    forall|i: int, j: int| 0 <= i < s.len() && 0 <= j < s.len() && i != j ==> s[i].0 != s[j].0
}

proof fn lemma_tag_map_update(s: Seq<TagModel>, j: int, p: TagModel)
    requires
        keys_unique(s),
        0 <= j < s.len(),
        s[j].0 == p.0,
    ensures
        tag_map(s.update(j, p)) == tag_map(s).insert(p.0, p.1),
    decreases s.len(),
{
    let u = s.update(j, p);
    if j == s.len() - 1 {
        assert(u.drop_last() =~= s.drop_last());
        assert(tag_map(u) =~= tag_map(s).insert(p.0, p.1));
    } else {
        let d = s.drop_last();
        assert(u.drop_last() =~= d.update(j, p));
        assert(keys_unique(d));
        lemma_tag_map_update(d, j, p);
        assert(s.last().0 != p.0);
        assert(tag_map(u) =~= tag_map(s).insert(p.0, p.1));
    }
}

/// Collects tag pairs into a list with unique keys; for a repeated key the last
/// pair wins.
pub fn collect_tags(pairs: Vec<Tag>) -> (r: Vec<Tag>)
    ensures
        keys_unique(tags_view(r@)),
        tag_map(tags_view(r@)) == tag_map(tags_view(pairs@)),
{
    let mut out: Vec<Tag> = Vec::new();
    let n = pairs.len();
    let mut i: usize = 0;
    while i < n
        invariant
            n == pairs.len(),
            0 <= i <= n,
            keys_unique(tags_view(out@)),
            tag_map(tags_view(out@)) == tag_map(tags_view(pairs@.take(i as int))),
        decreases n - i,
    {
        let key = pairs[i].0.clone();
        let value = pairs[i].1.clone();
        let ghost before = out@;
        assert(tags_view(pairs@.take(i as int + 1)).drop_last() =~= tags_view(pairs@.take(i as int)));
        let mut j: usize = 0;
        let mut found = false;
        while j < out.len() && !found
            invariant
                out@ == before,
                0 <= j <= out.len(),
                forall|t: int| 0 <= t < j ==> out@[t].0@ != key@,
                found ==> j < out.len() && out@[j as int].0@ == key@,
            decreases out.len() - j, if found { 0int } else { 1int },
        {
            if out[j].0 == key {
                found = true;
            } else {
                j = j + 1;
            }
        }
        let ghost p = (key@, value@);
        assert(tags_view(pairs@.take(i as int + 1)).last() == p);
        if found {
            proof {
                lemma_tag_map_update(tags_view(before), j as int, p);
            }
            out.set(j, (key, value));
            assert(tags_view(out@) =~= tags_view(before).update(j as int, p));
            assert(tags_view(before)[j as int].0 == p.0);
            assert forall|a: int| 0 <= a < before.len() implies tags_view(out@)[a].0 == #[trigger] tags_view(before)[a].0 by {
                if a == j {
                    assert(tags_view(out@)[a] == p);
                } else {
                    assert(tags_view(out@)[a] == tags_view(before)[a]);
                }
            }
        } else {
            out.push((key, value));
            assert(tags_view(out@).drop_last() =~= tags_view(before));
            let ghost v = tags_view(out@);
            let ghost w = tags_view(before);
            assert forall|t: int| 0 <= t < before.len() implies #[trigger] w[t].0 != p.0 && v[t] == w[t] by {
                assert(w[t].0 == before[t].0@);
            }
            assert(v[before.len() as int] == p);
            assert forall|a: int, b: int| 0 <= a < v.len() && 0 <= b < v.len() && a != b implies v[a].0 != v[b].0 by {
                if a < before.len() && b < before.len() {
                    assert(v[a] == w[a] && v[b] == w[b]);
                } else if a < before.len() {
                    assert(v[a] == w[a]);
                } else {
                    assert(v[b] == w[b]);
                }
            }
        }
        i = i + 1;
    }
    assert(pairs@.take(n as int) =~= pairs@);
    out
}

} // verus!
