//! Putting lists in order. Elements that compare equal keep the order they
//! came in.

use vstd::prelude::*;
use crate::lists::filter_push;
use crate::text::chars_of;

verus! {

/// Whether `a` comes before `b` in the order of their characters.
pub open spec fn text_lt(a: Seq<char>, b: Seq<char>) -> bool
    decreases a.len(),
{
    if b.len() == 0 {
        false
    } else if a.len() == 0 {
        true
    } else if a[0] == b[0] {
        text_lt(a.skip(1), b.skip(1))
    } else {
        a[0] < b[0]
    }
}

/// No text comes before itself.
pub proof fn text_lt_is_irreflexive(a: Seq<char>)
    ensures
        !text_lt(a, a),
    decreases a.len(),
{
    if a.len() > 0 {
        text_lt_is_irreflexive(a.skip(1));
    }
}

/// The order of texts is transitive.
pub proof fn text_lt_is_transitive(a: Seq<char>, b: Seq<char>, c: Seq<char>)
    requires
        text_lt(a, b),
        text_lt(b, c),
    ensures
        text_lt(a, c),
    decreases a.len(),
{
    if a.len() > 0 && b.len() > 0 && c.len() > 0 && a[0] == b[0] && b[0] == c[0] {
        text_lt_is_transitive(a.skip(1), b.skip(1), c.skip(1));
    }
}

/// Of two different texts one comes first.
pub proof fn text_lt_is_total(a: Seq<char>, b: Seq<char>)
    ensures
        text_lt(a, b) || text_lt(b, a) || a == b,
    decreases a.len(),
{
    if a.len() > 0 && b.len() > 0 {
        if a[0] == b[0] {
            text_lt_is_total(a.skip(1), b.skip(1));
            if a.skip(1) == b.skip(1) {
                assert(a == seq![a[0]] + a.skip(1));
                assert(b == seq![b[0]] + b.skip(1));
            }
        }
    } else if a.len() == 0 && b.len() == 0 {
        assert(a == b);
    }
}

proof fn lemma_text_lt_at(a: Seq<char>, b: Seq<char>, k: int)
    requires
        0 <= k <= a.len(),
        k <= b.len(),
        forall|i: int| 0 <= i < k ==> #[trigger] a[i] == b[i],
    ensures
        text_lt(a, b) == text_lt(a.skip(k), b.skip(k)),
    decreases k,
{
    if k > 0 {
        assert(a[0] == b[0]);
        let x = a.skip(1);
        let y = b.skip(1);
        assert forall|i: int| 0 <= i < k - 1 implies #[trigger] x[i] == y[i] by {
            assert(x[i] == a[i + 1]);
            assert(a[i + 1] == b[i + 1]);
        }
        lemma_text_lt_at(x, y, k - 1);
        assert(x.skip(k - 1) == a.skip(k));
        assert(y.skip(k - 1) == b.skip(k));
    } else {
        assert(a.skip(0) == a);
        assert(b.skip(0) == b);
    }
}

/// Whether `a` comes before `b` in the order of their characters.
pub fn text_less(a: &str, b: &str) -> (r: bool)
    ensures
        r == text_lt(a@, b@),
{
    let x: Vec<char> = chars_of(a);
    let y: Vec<char> = chars_of(b);
    let mut i: usize = 0;
    while i < x.len() && i < y.len() && x[i] == y[i]
        invariant
            x@ == a@,
            y@ == b@,
            i <= x.len(),
            i <= y.len(),
            forall|k: int| 0 <= k < i ==> #[trigger] a@[k] == b@[k],
        decreases x.len() - i,
    {
        i = i + 1;
    }
    proof {
        lemma_text_lt_at(a@, b@, i as int);
    }
    if i == y.len() {
        false
    } else if i == x.len() {
        true
    } else {
        x[i] < y[i]
    }
}

/// `s` with `x` put before the first element that comes after it.
pub open spec fn put_in_order<T>(s: Seq<T>, x: T, lt: spec_fn(T, T) -> bool) -> Seq<T>
    decreases s.len(),
{
    if s.len() > 0 && lt(x, s.last()) {
        put_in_order(s.drop_last(), x, lt).push(s.last())
    } else {
        s.push(x)
    }
}

/// `s` in order. Elements of which neither comes first keep their order.
pub open spec fn in_order<T>(s: Seq<T>, lt: spec_fn(T, T) -> bool) -> Seq<T>
    decreases s.len(),
{
    if s.len() == 0 {
        Seq::empty()
    } else {
        put_in_order(in_order(s.drop_last(), lt), s.last(), lt)
    }
}

/// Whether no element of `s` comes before one that stands ahead of it.
pub open spec fn is_ordered<T>(s: Seq<T>, lt: spec_fn(T, T) -> bool) -> bool {
    forall|i: int, j: int| 0 <= i < j < s.len() ==> !lt(#[trigger] s[j], #[trigger] s[i])
}

/// Whether `lt` orders up to ties: of two elements at most one comes before the
/// other, and two that tie compare alike with every third.
pub open spec fn is_weak_order<T>(lt: spec_fn(T, T) -> bool) -> bool {
    &&& forall|a: T, b: T| #[trigger] lt(a, b) ==> !lt(b, a)
    &&& forall|a: T, b: T, c: T| #[trigger] lt(a, b) && !lt(c, b) ==> #[trigger] lt(a, c)
}

proof fn lemma_put_in_order<T>(s: Seq<T>, x: T, lt: spec_fn(T, T) -> bool)
    requires
        is_weak_order(lt),
        is_ordered(s, lt),
    ensures
        is_ordered(put_in_order(s, x, lt), lt),
        put_in_order(s, x, lt).to_multiset() == s.to_multiset().insert(x),
        put_in_order(s, x, lt).len() == s.len() + 1,
        forall|i: int|
            0 <= i < put_in_order(s, x, lt).len() ==> #[trigger] put_in_order(s, x, lt)[i] == x
                || s.contains(put_in_order(s, x, lt)[i]),
    decreases s.len(),
{
    broadcast use vstd::seq_lib::group_to_multiset_ensures;

    let r = put_in_order(s, x, lt);
    if s.len() > 0 && lt(x, s.last()) {
        let t = s.drop_last();
        assert forall|i: int, j: int| 0 <= i < j < t.len() implies !lt(
            #[trigger] t[j],
            #[trigger] t[i],
        ) by {
            assert(!lt(s[j], s[i]));
        }
        lemma_put_in_order(t, x, lt);
        let u = put_in_order(t, x, lt);
        assert(r == u.push(s.last()));
        assert forall|i: int, j: int| 0 <= i < j < r.len() implies !lt(
            #[trigger] r[j],
            #[trigger] r[i],
        ) by {
            if j < u.len() {
                assert(r[j] == u[j] && r[i] == u[i]);
            } else {
                assert(r[j] == s.last() && r[i] == u[i]);
                if u[i] == x {
                    assert(!lt(s.last(), x));
                } else {
                    let k = choose|k: int| 0 <= k < t.len() && t[k] == u[i];
                    assert(s[k] == u[i]);
                    assert(!lt(s[s.len() - 1], s[k]));
                }
            }
        }
        assert(s == t.push(s.last()));
        assert(r.to_multiset() == s.to_multiset().insert(x));
        assert forall|i: int| 0 <= i < r.len() implies #[trigger] r[i] == x || s.contains(r[i]) by {
            if i < u.len() {
                assert(r[i] == u[i]);
                if u[i] != x {
                    let k = choose|k: int| 0 <= k < t.len() && t[k] == u[i];
                    assert(s[k] == u[i]);
                }
            } else {
                assert(s[s.len() - 1] == r[i]);
            }
        }
    } else {
        assert(r == s.push(x));
        assert forall|i: int, j: int| 0 <= i < j < r.len() implies !lt(
            #[trigger] r[j],
            #[trigger] r[i],
        ) by {
            if j < s.len() {
                assert(r[j] == s[j] && r[i] == s[i]);
            } else {
                assert(r[i] == s[i]);
                if lt(x, s[i]) {
                    if i < s.len() - 1 {
                        assert(!lt(s[s.len() - 1], s[i]));
                        assert(lt(x, s.last()));
                    }
                }
            }
        }
        assert forall|i: int| 0 <= i < r.len() implies #[trigger] r[i] == x || s.contains(r[i]) by {
            if i < s.len() {
                assert(s[i] == r[i]);
            }
        }
    }
}

/// Putting a list in order loses and adds nothing, and leaves no element
/// ahead of one that comes before it.
pub proof fn in_order_is_an_ordered_rearrangement<T>(s: Seq<T>, lt: spec_fn(T, T) -> bool)
    requires
        is_weak_order(lt),
    ensures
        is_ordered(in_order(s, lt), lt),
        in_order(s, lt).to_multiset() == s.to_multiset(),
        in_order(s, lt).len() == s.len(),
    decreases s.len(),
{
    broadcast use vstd::seq_lib::group_to_multiset_ensures;

    if s.len() > 0 {
        in_order_is_an_ordered_rearrangement(s.drop_last(), lt);
        lemma_put_in_order(in_order(s.drop_last(), lt), s.last(), lt);
        assert(s == s.drop_last().push(s.last()));
    } else {
        assert(s == Seq::<T>::empty());
    }
}

proof fn lemma_put_is_stable<T>(
    s: Seq<T>,
    x: T,
    lt: spec_fn(T, T) -> bool,
    alike: spec_fn(T) -> bool,
)
    requires
        forall|a: T, b: T| #[trigger] alike(a) && #[trigger] alike(b) ==> !lt(a, b),
    ensures
        put_in_order(s, x, lt).filter(alike) == s.push(x).filter(alike),
    decreases s.len(),
{
    if s.len() > 0 && lt(x, s.last()) {
        let t = s.drop_last();
        let l = s.last();
        lemma_put_is_stable(t, x, lt, alike);
        assert(s == t.push(l));
        filter_push(put_in_order(t, x, lt), l, alike);
        filter_push(t, x, alike);
        filter_push(t, l, alike);
        filter_push(s, x, alike);
        assert(!(alike(x) && alike(l)));
    }
}

/// Among elements of which none comes before another, putting a list in order
/// changes nothing: they stand in the order they came in.
pub proof fn in_order_keeps_ties<T>(
    s: Seq<T>,
    lt: spec_fn(T, T) -> bool,
    alike: spec_fn(T) -> bool,
)
    requires
        forall|a: T, b: T| #[trigger] alike(a) && #[trigger] alike(b) ==> !lt(a, b),
    ensures
        in_order(s, lt).filter(alike) == s.filter(alike),
    decreases s.len(),
{
    if s.len() > 0 {
        let t = s.drop_last();
        in_order_keeps_ties(t, lt, alike);
        lemma_put_is_stable(in_order(t, lt), s.last(), lt, alike);
        filter_push(in_order(t, lt), s.last(), alike);
        filter_push(t, s.last(), alike);
        assert(s == t.push(s.last()));
    }
}

/// Where an element belongs in an ordered list: behind everything that it does
/// not come before.
pub proof fn put_in_order_at<T>(s: Seq<T>, x: T, lt: spec_fn(T, T) -> bool, k: int)
    requires
        0 <= k <= s.len(),
        forall|i: int| k <= i < s.len() ==> lt(x, #[trigger] s[i]),
        k > 0 ==> !lt(x, s[k - 1]),
    ensures
        put_in_order(s, x, lt) == s.insert(k, x),
    decreases s.len() - k,
{
    if k < s.len() {
        let t = s.drop_last();
        assert(lt(x, s[s.len() - 1]));
        assert forall|i: int| k <= i < t.len() implies lt(x, #[trigger] t[i]) by {
            assert(t[i] == s[i]);
        }
        put_in_order_at(t, x, lt, k);
        assert(t.insert(k, x).push(s.last()) == s.insert(k, x));
    } else {
        assert(s.insert(k, x) == s.push(x));
    }
}

} // verus!
