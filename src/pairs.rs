//! Lists of text pairs kept with each key once, standing for maps from
//! keys to values: a later value for a key replaces the earlier one.
use vstd::prelude::*;
use crate::json::{distinct_keys, map_from_pairs};
use crate::response::text_pairs;
use crate::text::str_eq;

verus! {

/// Replacing the value of a key that occurs once updates the map that way.
proof fn lemma_replace_value(pairs: Seq<(Seq<char>, Seq<char>)>, j: int, v: Seq<char>)
    requires
        distinct_keys(pairs),
        0 <= j < pairs.len(),
    ensures
        distinct_keys(pairs.update(j, (pairs[j].0, v))),
        map_from_pairs(pairs.update(j, (pairs[j].0, v))) == map_from_pairs(pairs).insert(pairs[j].0, v),
    decreases pairs.len(),
{
    let updated = pairs.update(j, (pairs[j].0, v));
    assert forall|a: int, b: int| 0 <= a < b < updated.len() implies updated[a].0 != updated[b].0 by {
        assert(pairs[a].0 != pairs[b].0);
    }
    if j == pairs.len() - 1 {
        assert(updated.drop_last() =~= pairs.drop_last());
        assert(map_from_pairs(updated) =~= map_from_pairs(pairs).insert(pairs[j].0, v));
    } else {
        lemma_replace_value(pairs.drop_last(), j, v);
        assert(updated.drop_last() =~= pairs.drop_last().update(j, (pairs[j].0, v)));
        assert(pairs.last().0 != pairs[j].0);
        assert(map_from_pairs(updated) =~= map_from_pairs(pairs).insert(pairs[j].0, v));
    }
}

/// Sets `key` to `value`: the value of a key already present is replaced in
/// place, a new key is appended.
pub fn put(pairs: &mut Vec<(String, String)>, key: String, value: String)
    requires
        distinct_keys(text_pairs(old(pairs)@)),
    ensures
        distinct_keys(text_pairs(final(pairs)@)),
        map_from_pairs(text_pairs(final(pairs)@)) == map_from_pairs(text_pairs(old(pairs)@)).insert(key@, value@),
{
    let mut j: usize = 0;
    while j < pairs.len()
        invariant
            j <= pairs@.len(),
            pairs@ == old(pairs)@,
            distinct_keys(text_pairs(pairs@)),
            forall|i: int| 0 <= i < j ==> pairs@[i].0@ != key@,
        decreases pairs.len() - j,
    {
        if str_eq(pairs[j].0.as_str(), key.as_str()) {
            let ghost before = text_pairs(pairs@);
            proof {
                lemma_replace_value(before, j as int, value@);
            }
            pairs.set(j, (key, value));
            assert(text_pairs(pairs@) =~= before.update(j as int, (before[j as int].0, value@)));
            return;
        }
        j = j + 1;
    }
    let ghost before = text_pairs(pairs@);
    pairs.push((key, value));
    assert(text_pairs(pairs@).drop_last() =~= before);
    assert forall|a: int, b: int| 0 <= a < b < text_pairs(pairs@).len() implies text_pairs(pairs@)[a].0
        != text_pairs(pairs@)[b].0 by {
        if b == text_pairs(pairs@).len() - 1 {
            assert(pairs@[a].0@ != key@);
        } else {
            assert(text_pairs(pairs@)[a] == before[a]);
            assert(text_pairs(pairs@)[b] == before[b]);
        }
    }
}

} // verus!
