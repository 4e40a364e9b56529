//! Reading submitted forms as ordered pairs of name and value, so that a name
//! can occur more than once.

use vstd::prelude::*;
use crate::id::{read_uuid, Uuid};
use crate::lists::{filter_none, filter_step, kept_from, map_push, take_all};
use crate::text::{same, text_of, texts};

verus! {

/// The first value submitted under `key`.
pub open spec fn first_value(pairs: Seq<(String, String)>, key: Seq<char>) -> Option<Seq<char>>
    decreases pairs.len(),
{
    if pairs.len() == 0 {
        None
    } else if pairs[0].0@ == key {
        Some(pairs[0].1@)
    } else {
        first_value(pairs.skip(1), key)
    }
}

/// The first value submitted under `key`, as a text of its own.
pub fn field_text(pairs: &Vec<(String, String)>, key: &str) -> (r: Option<String>)
    ensures
        text_of(r) == first_value(pairs@, key@),
{
    match field(pairs, key) {
        Some(v) => Some(v.to_owned()),
        None => None,
    }
}

/// The pairs with something submitted under `key`.
pub open spec fn filled_in(key: Seq<char>) -> spec_fn((String, String)) -> bool {
    |p: (String, String)| p.0@ == key && p.1@.len() > 0
}

/// The value of a pair.
pub open spec fn value_part() -> spec_fn((String, String)) -> Seq<char> {
    |p: (String, String)| p.1@
}

/// All values submitted under `key` that are not empty, in order.
pub open spec fn all_values(pairs: Seq<(String, String)>, key: Seq<char>) -> Seq<Seq<char>> {
    pairs.filter(filled_in(key)).map_values(value_part())
}

/// The identifiers that the values read as, if every one of them does.
pub open spec fn all_ids(values: Seq<Seq<char>>) -> Option<Seq<Uuid>> {
    if forall|i: int| 0 <= i < values.len() ==> read_uuid(#[trigger] values[i]) is Some {
        Some(values.map_values(|v: Seq<char>| read_uuid(v)->0))
    } else {
        None
    }
}

/// The first value submitted under `key`.
pub fn field<'a>(pairs: &'a Vec<(String, String)>, key: &str) -> (r: Option<&'a str>)
    ensures
        match r {
            Some(v) => first_value(pairs@, key@) == Some(v@),
            None => first_value(pairs@, key@) is None,
        },
{
    let mut i: usize = 0;
    assert(pairs@.skip(0) == pairs@);
    while i < pairs.len()
        invariant
            i <= pairs.len(),
            first_value(pairs@, key@) == first_value(pairs@.skip(i as int), key@),
        decreases pairs.len() - i,
    {
        if same(pairs[i].0.as_str(), key) {
            return Some(pairs[i].1.as_str());
        }
        assert(pairs@.skip(i as int).skip(1) == pairs@.skip(i + 1));
        i = i + 1;
    }
    None
}

/// All values submitted under `key` that are not empty, in order.
pub fn multi(pairs: &Vec<(String, String)>, key: &str) -> (r: Vec<String>)
    ensures
        texts(r@) == all_values(pairs@, key@),
{
    let ghost p = filled_in(key@);
    let ghost f = value_part();
    let mut out: Vec<String> = Vec::new();
    let mut i: usize = 0;
    proof {
        filter_none(pairs@, p);
    }
    assert(texts(out@) == pairs@.take(0).filter(p).map_values(f));
    while i < pairs.len()
        invariant
            i <= pairs.len(),
            p == filled_in(key@),
            f == value_part(),
            texts(out@) == pairs@.take(i as int).filter(p).map_values(f),
        decreases pairs.len() - i,
    {
        proof {
            filter_step(pairs@, i as int, p);
            map_push(pairs@.take(i as int).filter(p), pairs@[i as int], f);
        }
        let ghost sofar = out@;
        if same(pairs[i].0.as_str(), key) && !pairs[i].1.as_str().is_empty() {
            out.push(pairs[i].1.clone());
            assert(texts(out@) == texts(sofar).push(pairs@[i as int].1@));
        }
        i = i + 1;
    }
    proof {
        take_all(pairs@);
    }
    out
}

/// Reads every value as an identifier; `None` where one does not.
pub fn parse_ids(values: &Vec<String>) -> (r: Option<Vec<Uuid>>)
    ensures
        match r {
            Some(ids) => all_ids(texts(values@)) == Some(ids@),
            None => all_ids(texts(values@)) is None,
        },
{
    let mut out: Vec<Uuid> = Vec::new();
    let mut i: usize = 0;
    while i < values.len()
        invariant
            i <= values.len(),
            out@.len() == i,
            forall|k: int| 0 <= k < i ==> read_uuid(#[trigger] texts(values@)[k]) == Some(out@[k]),
        decreases values.len() - i,
    {
        assert(texts(values@)[i as int] == values@[i as int]@);
        match Uuid::parse_str(values[i].as_str()) {
            Some(id) => out.push(id),
            None => {
                assert(read_uuid(texts(values@)[i as int]) is None);
                return None;
            },
        }
        i = i + 1;
    }
    assert(out@ == texts(values@).map_values(|v: Seq<char>| read_uuid(v)->0));
    Some(out)
}

/// A field that was submitted with a non-empty value has a first value among
/// those submitted under its name.
pub proof fn first_value_was_submitted(pairs: Seq<(String, String)>, key: Seq<char>)
    ensures
        match first_value(pairs, key) {
            Some(v) => exists|i: int|
                0 <= i < pairs.len() && (#[trigger] pairs[i]).0@ == key && pairs[i].1@ == v,
            None => forall|i: int| 0 <= i < pairs.len() ==> (#[trigger] pairs[i]).0@ != key,
        },
    decreases pairs.len(),
{
    if pairs.len() > 0 && pairs[0].0@ != key {
        let rest = pairs.skip(1);
        first_value_was_submitted(rest, key);
        match first_value(pairs, key) {
            Some(v) => {
                let k = choose|k: int|
                    0 <= k < rest.len() && (#[trigger] rest[k]).0@ == key && rest[k].1@ == v;
                assert(pairs[k + 1] == rest[k]);
            },
            None => {
                assert forall|i: int| 0 <= i < pairs.len() implies (#[trigger] pairs[i]).0@
                    != key by {
                    if i > 0 {
                        assert(rest[i - 1] == pairs[i]);
                    }
                }
            },
        }
    }
}

/// Whether the pair at `i` is the first one submitted under `key`.
pub open spec fn comes_first(pairs: Seq<(String, String)>, key: Seq<char>, i: int) -> bool {
    &&& 0 <= i < pairs.len()
    &&& pairs[i].0@ == key
    &&& forall|j: int| 0 <= j < i ==> (#[trigger] pairs[j]).0@ != key
}

/// Of several values submitted under a name the earliest counts; a name under
/// which nothing was submitted has none.
pub proof fn the_earliest_value_counts(pairs: Seq<(String, String)>, key: Seq<char>)
    ensures
        forall|i: int| #[trigger]
            comes_first(pairs, key, i) ==> first_value(pairs, key) == Some(pairs[i].1@),
        first_value(pairs, key) is Some ==> exists|i: int| #[trigger] comes_first(pairs, key, i),
    decreases pairs.len(),
{
    if pairs.len() > 0 {
        if pairs[0].0@ == key {
            assert(comes_first(pairs, key, 0));
            assert forall|i: int| #[trigger] comes_first(pairs, key, i) implies first_value(
                pairs,
                key,
            ) == Some(pairs[i].1@) by {
                if i > 0 {
                    assert(pairs[0].0@ != key);
                }
            }
        } else {
            let rest = pairs.skip(1);
            the_earliest_value_counts(rest, key);
            assert forall|i: int| #[trigger] comes_first(pairs, key, i) implies first_value(
                pairs,
                key,
            ) == Some(pairs[i].1@) by {
                assert(rest[i - 1] == pairs[i]);
                assert forall|j: int| 0 <= j < i - 1 implies (#[trigger] rest[j]).0@ != key by {
                    assert(rest[j] == pairs[j + 1]);
                }
                assert(comes_first(rest, key, i - 1));
            }
            if first_value(pairs, key) is Some {
                let k = choose|k: int| #[trigger] comes_first(rest, key, k);
                assert(pairs[k + 1] == rest[k]);
                assert forall|j: int| 0 <= j < k + 1 implies (#[trigger] pairs[j]).0@ != key by {
                    if j > 0 {
                        assert(rest[j - 1] == pairs[j]);
                    }
                }
                assert(comes_first(pairs, key, k + 1));
            }
        }
    }
}

/// The values collected under a name are those that were submitted there and
/// are not empty, each one, in the order they came in: `from` says where each
/// was submitted.
pub proof fn collected_values_were_submitted(pairs: Seq<(String, String)>, key: Seq<char>) -> (from:
    Seq<int>)
    ensures
        from.len() == all_values(pairs, key).len(),
        forall|k: int|
            0 <= k < from.len() ==> 0 <= #[trigger] from[k] < pairs.len() && pairs[from[k]].0@
                == key && pairs[from[k]].1@.len() > 0 && pairs[from[k]].1@ == all_values(
                pairs,
                key,
            )[k],
        forall|k: int, l: int| 0 <= k < l < from.len() ==> #[trigger] from[k] < #[trigger] from[l],
        forall|i: int|
            0 <= i < pairs.len() && (#[trigger] pairs[i]).0@ == key && pairs[i].1@.len() > 0
                ==> from.contains(i),
{
    kept_from(pairs, filled_in(key), value_part())
}

} // verus!
