//! Facts about lists that are built one element at a time.

use vstd::prelude::*;
use crate::id::Uuid;

verus! {

/// Filtering one element more.
pub proof fn filter_step<T>(s: Seq<T>, i: int, p: spec_fn(T) -> bool)
    requires
        0 <= i < s.len(),
    ensures
        s.take(i + 1).filter(p) == (if p(s[i]) {
            s.take(i).filter(p).push(s[i])
        } else {
            s.take(i).filter(p)
        }),
{
    reveal(Seq::filter);
    assert(s.take(i + 1).drop_last() == s.take(i));
    assert(s.take(i + 1).last() == s[i]);
}

/// Filtering a list with one element more at its end.
pub proof fn filter_push<T>(s: Seq<T>, x: T, p: spec_fn(T) -> bool)
    ensures
        s.push(x).filter(p) == (if p(x) {
            s.filter(p).push(x)
        } else {
            s.filter(p)
        }),
{
    reveal(Seq::filter);
    assert(s.push(x).drop_last() == s);
}

/// Filtering none.
pub proof fn filter_none<T>(s: Seq<T>, p: spec_fn(T) -> bool)
    ensures
        s.take(0).filter(p) == Seq::<T>::empty(),
{
    reveal(Seq::filter);
    assert(s.take(0) == Seq::<T>::empty());
}

/// Mapping one element more.
pub proof fn map_push<T, U>(s: Seq<T>, x: T, f: spec_fn(T) -> U)
    ensures
        s.push(x).map_values(f) == s.map_values(f).push(f(x)),
{
    assert(s.push(x).map_values(f) == s.map_values(f).push(f(x)));
}

/// All of a list.
pub proof fn take_all<T>(s: Seq<T>)
    ensures
        s.take(s.len() as int) == s,
{
    assert(s.take(s.len() as int) == s);
}

/// Where the elements come from that are left of a list once it is filtered
/// and mapped: in order, each one that passes, and no other.
pub proof fn kept_from<T, U>(s: Seq<T>, p: spec_fn(T) -> bool, f: spec_fn(T) -> U) -> (from:
    Seq<int>)
    ensures
        from.len() == s.filter(p).map_values(f).len(),
        forall|k: int|
            0 <= k < from.len() ==> 0 <= #[trigger] from[k] < s.len() && p(s[from[k]]) && f(
                s[from[k]],
            ) == s.filter(p).map_values(f)[k],
        forall|k: int, l: int| 0 <= k < l < from.len() ==> #[trigger] from[k] < #[trigger] from[l],
        forall|i: int| 0 <= i < s.len() && p(#[trigger] s[i]) ==> from.contains(i),
    decreases s.len(),
{
    if s.len() == 0 {
        filter_none(s, p);
        assert(s.take(0) == s);
        Seq::empty()
    } else {
        let n = s.len() - 1;
        let init = s.take(n);
        let before = kept_from(init, p, f);
        filter_step(s, n, p);
        take_all(s);
        map_push(init.filter(p), s[n], f);
        let from = if p(s[n]) {
            before.push(n)
        } else {
            before
        };
        assert forall|k: int| 0 <= k < from.len() implies 0 <= #[trigger] from[k] < s.len() && p(
            s[from[k]],
        ) && f(s[from[k]]) == s.filter(p).map_values(f)[k] by {
            if k < before.len() {
                assert(from[k] == before[k]);
                assert(init[before[k]] == s[before[k]]);
            }
        }
        assert forall|i: int| 0 <= i < s.len() && p(#[trigger] s[i]) implies from.contains(i) by {
            if i < n {
                assert(init[i] == s[i]);
                assert(before.contains(i));
                let k = choose|k: int| 0 <= k < before.len() && before[k] == i;
                assert(from[k] == i);
            } else {
                assert(from[before.len() as int] == n);
            }
        }
        from
    }
}

/// Whether `id` is among `ids`.
pub fn contains_id(ids: &Vec<Uuid>, id: Uuid) -> (r: bool)
    ensures
        r == ids@.contains(id),
{
    let mut i: usize = 0;
    while i < ids.len()
        invariant
            i <= ids.len(),
            forall|k: int| 0 <= k < i ==> ids@[k] != id,
        decreases ids.len() - i,
    {
        if ids[i] == id {
            return true;
        }
        i = i + 1;
    }
    false
}

/// A copy of a list of identifiers.
pub fn copy_ids(ids: &Vec<Uuid>) -> (r: Vec<Uuid>)
    ensures
        r@ == ids@,
{
    let mut out: Vec<Uuid> = Vec::new();
    let mut i: usize = 0;
    while i < ids.len()
        invariant
            i <= ids.len(),
            out@ == ids@.take(i as int),
        decreases ids.len() - i,
    {
        out.push(ids[i]);
        i = i + 1;
    }
    proof {
        take_all(ids@);
    }
    out
}

} // verus!
