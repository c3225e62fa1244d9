//! Strings of a block's string table, decoded as UTF-8.
use vstd::prelude::*;
use crate::tags::{Tag, TagModel, tags_view};

verus! {

/// The text that a byte sequence encodes as UTF-8, or `None` where it is not
/// valid UTF-8.
pub uninterp spec fn utf8_text(b: Seq<u8>) -> Option<Seq<char>>;

/// Relies on `std::str::from_utf8`: it accepts exactly the valid UTF-8 byte
/// sequences and returns the text they encode.
#[verifier::external_body]
fn decode_utf8(b: &[u8]) -> (r: Option<String>)
    ensures
        match r {
            Some(s) => utf8_text(b@) == Some(s@),
            None => utf8_text(b@) is None,
        },
{
    match std::str::from_utf8(b) {
        Ok(s) => Some(s.to_string()),
        Err(_) => None,
    }
}

/// A string table as byte sequences.
pub open spec fn table_view(t: Seq<Vec<u8>>) -> Seq<Seq<u8>> {
    t.map_values(|b: Vec<u8>| b@)
}

/// The text at an index of the table: absent where the index is out of range or
/// the bytes there are not valid UTF-8.
pub open spec fn text_at(t: Seq<Seq<u8>>, i: int) -> Option<Seq<char>> {
    if 0 <= i < t.len() {
        utf8_text(t[i])
    } else {
        None
    }
}

pub open spec fn opt_text(o: Option<String>) -> Option<Seq<char>> {
    match o {
        Some(s) => Some(s@),
        None => None,
    }
}

/// The tags that index pairs denote, in order; a pair whose key or value is
/// absent from the table is left out, and the others are kept.
pub open spec fn resolved_tags(t: Seq<Seq<u8>>, raw: Seq<(i64, i64)>) -> Seq<TagModel>
    decreases raw.len(),
{
    if raw.len() == 0 {
        seq![]
    } else {
        let rest = resolved_tags(t, raw.drop_last());
        let (k, v) = raw.last();
        match (text_at(t, k as int), text_at(t, v as int)) {
            (Some(ks), Some(vs)) => rest.push((ks, vs)),
            _ => rest,
        }
    }
}

/// Looks up and decodes the string at `index` of the table.
pub fn lookup_text(table: &Vec<Vec<u8>>, index: i64) -> (r: Option<String>)
    ensures
        opt_text(r) == text_at(table_view(table@), index as int),
{
    if 0 <= index && (index as u128) < (table.len() as u128) {
        let i = index as usize;
        assert(table_view(table@)[index as int] == table@[index as int]@);
        decode_utf8(table[i].as_slice())
    } else {
        None
    }
}

/// Resolves tag index pairs against the string table, skipping any pair with a
/// string that cannot be had.
pub fn resolve_tags(table: &Vec<Vec<u8>>, raw: &Vec<(i64, i64)>) -> (r: Vec<Tag>)
    ensures
        tags_view(r@) == resolved_tags(table_view(table@), raw@),
{
    let ghost t = table_view(table@);
    let mut out: Vec<Tag> = Vec::new();
    let mut i: usize = 0;
    while i < raw.len()
        invariant
            0 <= i <= raw.len(),
            t == table_view(table@),
            tags_view(out@) == resolved_tags(t, raw@.take(i as int)),
        decreases raw.len() - i,
    {
        let (k, v) = raw[i];
        assert(raw@.take(i as int + 1).drop_last() =~= raw@.take(i as int));
        let ghost before = out@;
        let key = lookup_text(table, k);
        let value = lookup_text(table, v);
        match (key, value) {
            (Some(ks), Some(vs)) => {
                out.push((ks, vs));
                assert(tags_view(out@) =~= tags_view(before).push((ks@, vs@)));
            },
            _ => {},
        }
        i = i + 1;
    }
    assert(raw@.take(raw.len() as int) =~= raw@);
    out
}

} // verus!
