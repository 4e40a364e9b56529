//! Versions of rows and pages of lists.

use vstd::prelude::*;
use crate::error::{fails, AppError, ErrorView};
use crate::number::{decimal, int_text, text_reads_back};
use crate::text::{
    after, before, same, split_once, text_of, the_first_separator_parts_a_text,
};

verus! {

/// The entity tag of a row: the time of its last change in milliseconds, in
/// quotes.
pub open spec fn etag(updated_at: i64) -> Seq<char> {
    seq!['"'] + int_text(updated_at as int) + seq!['"']
}

/// The entity tag of a row: the time of its last change in milliseconds, in
/// quotes.
pub fn etag_for(updated_at: i64) -> (r: String)
    ensures
        r@ == etag(updated_at),
{
    let mut out: String = String::new();
    out.push('"');
    out.append(decimal(updated_at).as_str());
    out.push('"');
    out
}

/// Whether a precondition names the row's current version: by its entity tag,
/// or, as a form field carries it, by the time alone. One that is absent names
/// none.
pub open spec fn names_version(precondition: Option<Seq<char>>, updated_at: i64) -> bool {
    match precondition {
        Some(p) => p == etag(updated_at) || p == int_text(updated_at as int),
        None => false,
    }
}

/// The characters of an optional text.
pub open spec fn str_of(t: Option<&str>) -> Option<Seq<char>> {
    match t {
        Some(t) => Some(t@),
        None => None,
    }
}

/// Whether `r` is what [`check_if_match`] owes its caller.
pub open spec fn check_if_match_outcome(
    r: Result<(), AppError>,
    precondition: Option<&str>,
    updated_at: i64,
) -> bool {
    &&& names_version(str_of(precondition), updated_at) ==> r is Ok
    &&& !names_version(str_of(precondition), updated_at) ==> fails(
        r,
        ErrorView::PreconditionFailed,
    )
}

/// Holds a write to the version of the row that it was made for.
pub fn check_if_match(precondition: Option<&str>, updated_at: i64) -> (r: Result<(), AppError>)
    ensures
        check_if_match_outcome(r, precondition, updated_at),
{
    match precondition {
        Some(p) => {
            if same(p, etag_for(updated_at).as_str()) || same(p, decimal(updated_at).as_str()) {
                Ok(())
            } else {
                Err(AppError::PreconditionFailed)
            }
        },
        None => Err(AppError::PreconditionFailed),
    }
}

/// The tag that was given for a row is good for exactly as long as the time of
/// the row's last change, in milliseconds, is the same, in either form.
pub proof fn a_tag_names_one_version(given: i64, now: i64)
    ensures
        names_version(Some(etag(given)), now) <==> given == now,
        names_version(Some(int_text(given as int)), now) <==> given == now,
{
    text_reads_back(given as int, i64::MIN as int, i64::MAX as int);
    text_reads_back(now as int, i64::MIN as int, i64::MAX as int);
    let a = int_text(given as int);
    let b = int_text(now as int);
    lemma_no_quote(given as int);
    lemma_no_quote(now as int);
    if etag(given) == etag(now) {
        assert(etag(given).subrange(1, etag(given).len() - 1) == a);
        assert(etag(now).subrange(1, etag(now).len() - 1) == b);
    }
    assert(etag(given)[0] == '"');
    assert(etag(now)[0] == '"');
}

proof fn lemma_no_quote(n: int)
    ensures
        int_text(n).len() > 0,
        int_text(n)[0] != '"',
{
    text_reads_back(n, n, n);
    if n >= 0 {
        assert(crate::number::unsigned_part(int_text(n)).len() > 0);
        crate::number::lemma_first_digit(n as nat);
    }
}

/// The filter that a query key names, as in `filter[title]`.
pub open spec fn filter_name(key: Seq<char>) -> Option<Seq<char>> {
    match after(key, '[') {
        Some(rest) => if before(key, '[') == "filter"@ && rest.len() > 0 && rest.last() == ']' {
            Some(rest.drop_last())
        } else {
            None
        },
        None => None,
    }
}

/// The filters among the pairs of a query: name and value, in their order.
pub open spec fn filters_in(pairs: Seq<(String, String)>) -> Seq<(Seq<char>, Seq<char>)>
    decreases pairs.len(),
{
    if pairs.len() == 0 {
        Seq::empty()
    } else {
        let init = filters_in(pairs.drop_last());
        match filter_name(pairs.last().0@) {
            Some(name) => init.push((name, pairs.last().1@)),
            None => init,
        }
    }
}

/// Pairs as mathematical values.
pub open spec fn pair_views(pairs: Seq<(String, String)>) -> Seq<(Seq<char>, Seq<char>)> {
    pairs.map_values(|p: (String, String)| (p.0@, p.1@))
}

fn read_filter_name(key: &str) -> (r: Option<String>)
    ensures
        text_of(r) == filter_name(key@),
{
    match split_once(key, '[') {
        Some((head, rest)) => {
            let n: usize = rest.unicode_len();
            if same(head, "filter") && n > 0 && rest.get_char(n - 1) == ']' {
                assert(rest@.subrange(0, n - 1) == rest@.drop_last());
                Some(rest.substring_char(0, n - 1).to_owned())
            } else {
                None
            }
        },
        None => None,
    }
}

/// The filters among the pairs of a query.
pub fn parse_filters(pairs: &Vec<(String, String)>) -> (r: Vec<(String, String)>)
    ensures
        pair_views(r@) == filters_in(pairs@),
{
    let mut out: Vec<(String, String)> = Vec::new();
    let mut i: usize = 0;
    assert(pairs@.take(0) == Seq::<(String, String)>::empty());
    assert(pair_views(out@) == Seq::<(Seq<char>, Seq<char>)>::empty());
    while i < pairs.len()
        invariant
            i <= pairs.len(),
            pair_views(out@) == filters_in(pairs@.take(i as int)),
        decreases pairs.len() - i,
    {
        let ghost sofar = out@;
        assert(pairs@.take(i + 1).drop_last() == pairs@.take(i as int));
        if let Some(name) = read_filter_name(pairs[i].0.as_str()) {
            out.push((name, pairs[i].1.clone()));
            assert(pair_views(out@) == pair_views(sofar).push((name@, pairs@[i as int].1@)));
        }
        i = i + 1;
    }
    assert(pairs@.take(pairs@.len() as int) == pairs@);
    out
}

/// Whether a page holds less than all there is.
pub fn is_truncated(shown: usize, total: i64) -> (r: bool)
    ensures
        r == (total > shown),
{
    total as i128 > shown as i128
}

/// A query key names a filter exactly where it is `filter[` and the name and
/// `]`.
pub proof fn a_filter_goes_by_the_name_in_brackets(key: Seq<char>, name: Seq<char>)
    ensures
        filter_name(key) == Some(name) <==> key == "filter["@ + name + "]"@,
{
    reveal_strlit("filter[");
    reveal_strlit("filter");
    reveal_strlit("]");
    let whole = "filter["@ + name + "]"@;
    the_first_separator_parts_a_text(whole, '[', 6);
    assert(whole.take(6) == "filter"@);
    assert(whole.skip(7) == name + "]"@);
    assert((name + "]"@).drop_last() == name);
    if filter_name(key) == Some(name) {
        lemma_parted(key, '[');
        let rest = after(key, '[')->0;
        assert(rest == name.push(']'));
        assert(key == "filter"@ + seq!['['] + rest);
        assert(key == whole);
    }
}

proof fn lemma_parted(s: Seq<char>, c: char)
    ensures
        after(s, c) is Some ==> s == before(s, c) + seq![c] + after(s, c)->0,
    decreases s.len(),
{
    if s.len() > 0 {
        if s[0] == c {
            assert(s == Seq::<char>::empty() + seq![c] + s.skip(1));
        } else {
            lemma_parted(s.skip(1), c);
            if after(s, c) is Some {
                assert(s == seq![s[0]] + s.skip(1));
                assert(seq![s[0]] + (before(s.skip(1), c) + seq![c] + after(s, c)->0) == before(
                    s,
                    c,
                ) + seq![c] + after(s, c)->0);
            }
        }
    }
}

/// Of a query every filter is taken in, by its name and with its value, in the
/// order they were sent, and nothing else is; `from` says where each was sent.
pub proof fn every_filter_is_taken_in(
    filters: Seq<(String, String)>,
    pairs: Seq<(String, String)>,
) -> (from: Seq<int>)
    requires
        pair_views(filters) == filters_in(pairs),
    ensures
        from.len() == filters.len(),
        forall|k: int|
            0 <= k < from.len() ==> {
                &&& 0 <= #[trigger] from[k] < pairs.len()
                &&& pairs[from[k]].0@ == "filter["@ + filters[k].0@ + "]"@
                &&& pairs[from[k]].1@ == filters[k].1@
            },
        forall|k: int, l: int| 0 <= k < l < from.len() ==> #[trigger] from[k] < #[trigger] from[l],
        forall|i: int, name: Seq<char>|
            0 <= i < pairs.len()
                && (#[trigger] pairs[i]).0@ == #[trigger] ("filter["@ + name) + "]"@
                ==> from.contains(i),
{
    let from = lemma_filters_from(pairs);
    assert(pair_views(filters).len() == filters.len());
    assert forall|k: int| 0 <= k < from.len() implies {
        &&& 0 <= #[trigger] from[k] < pairs.len()
        &&& pairs[from[k]].0@ == "filter["@ + filters[k].0@ + "]"@
        &&& pairs[from[k]].1@ == filters[k].1@
    } by {
        assert(pair_views(filters)[k] == (filters[k].0@, filters[k].1@));
        a_filter_goes_by_the_name_in_brackets(pairs[from[k]].0@, filters[k].0@);
    }
    assert forall|i: int, name: Seq<char>|
        0 <= i < pairs.len() && (#[trigger] pairs[i]).0@ == #[trigger] ("filter["@ + name)
            + "]"@ implies from.contains(i) by {
        a_filter_goes_by_the_name_in_brackets(pairs[i].0@, name);
    }
    from
}

proof fn lemma_filters_from(pairs: Seq<(String, String)>) -> (from: Seq<int>)
    ensures
        from.len() == filters_in(pairs).len(),
        forall|k: int|
            0 <= k < from.len() ==> {
                &&& 0 <= #[trigger] from[k] < pairs.len()
                &&& filter_name(pairs[from[k]].0@) == Some(filters_in(pairs)[k].0)
                &&& pairs[from[k]].1@ == filters_in(pairs)[k].1
            },
        forall|k: int, l: int| 0 <= k < l < from.len() ==> #[trigger] from[k] < #[trigger] from[l],
        forall|i: int|
            0 <= i < pairs.len() && filter_name((#[trigger] pairs[i]).0@) is Some
                ==> from.contains(i),
    decreases pairs.len(),
{
    if pairs.len() == 0 {
        Seq::empty()
    } else {
        let init = pairs.drop_last();
        let before = lemma_filters_from(init);
        let from = if filter_name(pairs.last().0@) is Some {
            before.push(pairs.len() - 1)
        } else {
            before
        };
        assert forall|k: int| 0 <= k < from.len() implies {
            &&& 0 <= #[trigger] from[k] < pairs.len()
            &&& filter_name(pairs[from[k]].0@) == Some(filters_in(pairs)[k].0)
            &&& pairs[from[k]].1@ == filters_in(pairs)[k].1
        } by {
            if k < before.len() {
                assert(from[k] == before[k]);
                assert(init[before[k]] == pairs[before[k]]);
            }
        }
        assert forall|i: int|
            0 <= i < pairs.len()
                && filter_name((#[trigger] pairs[i]).0@) is Some implies from.contains(
            i,
        ) by {
            if i < init.len() {
                assert(init[i] == pairs[i]);
                let k = choose|k: int| 0 <= k < before.len() && before[k] == i;
                assert(from[k] == i);
            } else {
                assert(from[before.len() as int] == i);
            }
        }
        from
    }
}

/// A write is let through exactly where it names the version of the row, by its
/// tag or by the time alone.
pub proof fn a_write_is_held_to_its_version(
    r: Result<(), AppError>,
    precondition: Option<&str>,
    updated_at: i64,
)
    requires
        check_if_match_outcome(r, precondition, updated_at),
    ensures
        r is Ok <==> precondition is Some && (precondition->0@ == int_text(updated_at as int)
            || precondition->0@ == seq!['"'] + int_text(updated_at as int) + seq!['"']),
        r is Err ==> r->Err_0@.status() == 412,
{
}

} // verus!
