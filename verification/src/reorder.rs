//! Moving a piece up or down in a collection.

use vstd::prelude::*;
use crate::id::{read_uuid, uuid_text, Uuid};
use crate::text::{after, before, same, split_once, the_first_separator_parts_a_text};

verus! {

/// Where `id` first stands in `order`.
pub open spec fn position(order: Seq<Uuid>, id: Uuid) -> Option<int>
    decreases order.len(),
{
    if order.len() == 0 {
        None
    } else if order[0] == id {
        Some(0)
    } else {
        match position(order.skip(1), id) {
            Some(k) => Some(k + 1),
            None => None,
        }
    }
}

/// `s` with the elements at `a` and `b` exchanged.
pub open spec fn swapped(s: Seq<Uuid>, a: int, b: int) -> Seq<Uuid> {
    s.update(a, s[b]).update(b, s[a])
}

/// The two places that a directive exchanges: the named piece and its
/// neighbour. `None` where the directive does not describe a legal move.
pub open spec fn move_of(order: Seq<Uuid>, directive: Seq<char>) -> Option<(int, int)> {
    match after(directive, ':') {
        None => None,
        Some(raw) => match read_uuid(raw) {
            None => None,
            Some(id) => match position(order, id) {
                None => None,
                Some(pos) => if before(directive, ':') == "up"@ && pos > 0 {
                    Some((pos, pos - 1))
                } else if before(directive, ':') == "down"@ && pos + 1 < order.len() {
                    Some((pos, pos + 1))
                } else {
                    None
                },
            },
        },
    }
}

/// The directive that moves a piece up, or down.
pub open spec fn directive(up: bool, id: Uuid) -> Seq<char> {
    if up {
        "up:"@ + uuid_text(id)
    } else {
        "down:"@ + uuid_text(id)
    }
}

/// What an arrow beside the piece at `i` does.
pub open spec fn arrow(order: Seq<Uuid>, up: bool, i: int) -> Option<(int, int)> {
    if up && i > 0 {
        Some((i, i - 1))
    } else if !up && i + 1 < order.len() {
        Some((i, i + 1))
    } else {
        None
    }
}

proof fn lemma_position_at(order: Seq<Uuid>, id: Uuid, k: int)
    requires
        0 <= k < order.len(),
        order[k] == id,
        forall|i: int| 0 <= i < k ==> #[trigger] order[i] != id,
    ensures
        position(order, id) == Some(k),
    decreases k,
{
    if k > 0 {
        let rest = order.skip(1);
        assert forall|i: int| 0 <= i < k - 1 implies #[trigger] rest[i] != id by {
            assert(rest[i] == order[i + 1]);
        }
        assert(order[0] != id);
        lemma_position_at(rest, id, k - 1);
    }
}

proof fn lemma_position_none(order: Seq<Uuid>, id: Uuid)
    requires
        forall|i: int| 0 <= i < order.len() ==> #[trigger] order[i] != id,
    ensures
        position(order, id) is None,
    decreases order.len(),
{
    if order.len() > 0 {
        let rest = order.skip(1);
        assert forall|i: int| 0 <= i < rest.len() implies #[trigger] rest[i] != id by {
            assert(rest[i] == order[i + 1]);
        }
        assert(order[0] != id);
        lemma_position_none(rest, id);
    }
}

proof fn lemma_position_bounds(order: Seq<Uuid>, id: Uuid)
    ensures
        position(order, id) matches Some(k) ==> 0 <= k < order.len() && order[k] == id,
    decreases order.len(),
{
    if order.len() > 0 && order[0] != id {
        lemma_position_bounds(order.skip(1), id);
    }
}

proof fn lemma_directive_parts(up: bool, id: Uuid)
    ensures
        before(directive(up, id), ':') == (if up {
            "up"@
        } else {
            "down"@
        }),
        after(directive(up, id), ':') == Some(uuid_text(id)),
{
    reveal_strlit("up:");
    reveal_strlit("down:");
    reveal_strlit("up");
    reveal_strlit("down");
    reveal_with_fuel(before, 6);
    reveal_with_fuel(after, 6);
    let d = directive(up, id);
    let t = uuid_text(id);
    if up {
        assert(d.skip(1).skip(1).skip(1) == t);
        assert(before(d, ':') == "up"@);
    } else {
        assert(d.skip(1).skip(1).skip(1).skip(1).skip(1) == t);
        assert(before(d, ':') == "down"@);
    }
}

/// Whether `after` is the order `before` once the directive is followed, and `r`
/// whether it could be.
pub open spec fn is_moved(r: bool, before: Seq<Uuid>, after: Seq<Uuid>, text: Seq<char>) -> bool {
    &&& r == (move_of(before, text) is Some)
    &&& after == (match move_of(before, text) {
        Some((a, b)) => swapped(before, a, b),
        None => before,
    })
}

/// Following `up:` and the identifier of a piece puts that piece one place up,
/// and `down:` one place down; its neighbour takes its place and every other
/// piece stays. At either end nothing moves.
pub proof fn a_piece_moves_one_place(
    r: bool,
    order: Seq<Uuid>,
    after: Seq<Uuid>,
    up: bool,
    i: int,
    id_text: Seq<char>,
)
    requires
        0 <= i < order.len(),
        order.no_duplicates(),
        read_uuid(id_text) == Some(order[i]),
        is_moved(
            r,
            order,
            after,
            if up {
                "up:"@ + id_text
            } else {
                "down:"@ + id_text
            },
        ),
    ensures
        after.len() == order.len(),
        r <==> (if up {
            i > 0
        } else {
            i < order.len() - 1
        }),
        r && up ==> after[i - 1] == order[i] && after[i] == order[i - 1],
        r && !up ==> after[i + 1] == order[i] && after[i] == order[i + 1],
        r ==> forall|k: int|
            0 <= k < order.len() && k != i && k != (if up {
                i - 1
            } else {
                i + 1
            }) ==> #[trigger] after[k] == order[k],
        !r ==> after == order,
{
    reveal_strlit("up:");
    reveal_strlit("down:");
    reveal_strlit("up");
    reveal_strlit("down");
    assert("up"@.len() != "down"@.len());
    if up {
        let t = "up:"@ + id_text;
        the_first_separator_parts_a_text(t, ':', 2);
        assert(t.take(2) == "up"@);
        assert(t.skip(3) == id_text);
    } else {
        let t = "down:"@ + id_text;
        the_first_separator_parts_a_text(t, ':', 4);
        assert(t.take(4) == "down"@);
        assert(t.skip(5) == id_text);
    }
    lemma_position_at(order, order[i], i);
}

/// A directive that is neither `up:` nor `down:` of a piece in the order moves
/// nothing.
pub proof fn nothing_else_moves_a_piece(
    r: bool,
    order: Seq<Uuid>,
    after: Seq<Uuid>,
    text: Seq<char>,
)
    requires
        is_moved(r, order, after, text),
        !text.contains(':') || forall|i: int|
            0 <= i < order.len() ==> crate::text::after(text, ':') is Some && read_uuid(
                crate::text::after(text, ':')->0,
            ) != Some(#[trigger] order[i]),
    ensures
        !r && after == order,
{
    if !text.contains(':') {
        the_first_separator_parts_a_text(text, ':', text.len() as int);
    } else if move_of(order, text) is Some {
        let id = read_uuid(crate::text::after(text, ':')->0)->0;
        lemma_position_bounds(order, id);
    }
}

/// Moves a piece up or down by exchanging it with its neighbour. A directive
/// that is malformed, names a piece that is not there, or would move one off
/// either end is refused and changes nothing. The arrows of the page are never
/// refused while every piece stands in the order once.
pub fn apply_move(order: &mut Vec<Uuid>, text: &str) -> (r: bool)
    ensures
        is_moved(r, old(order)@, final(order)@, text@),
        forall|up: bool, i: int|
            #![trigger arrow(old(order)@, up, i)]
            old(order)@.no_duplicates() && 0 <= i < old(order)@.len() && text@ == directive(
                up,
                old(order)@[i],
            ) ==> move_of(old(order)@, text@) == arrow(old(order)@, up, i),
{
    let (direction, raw): (&str, &str) = match split_once(text, ':') {
        Some(parts) => parts,
        None => {
            proof {
                assert forall|up: bool, i: int|
                    #![trigger arrow(order@, up, i)]
                    text@ == directive(up, order@[i]) implies move_of(order@, text@) == arrow(
                    order@,
                    up,
                    i,
                ) by {
                    lemma_directive_parts(up, order@[i]);
                }
            }
            return false;
        },
    };
    let found: Option<Uuid> = Uuid::parse_str(raw);
    proof {
        assert forall|up: bool, i: int|
            #![trigger arrow(order@, up, i)]
            order@.no_duplicates() && 0 <= i < order@.len() && text@ == directive(
                up,
                order@[i],
            ) implies move_of(order@, text@) == arrow(order@, up, i) by {
            lemma_directive_parts(up, order@[i]);
            assert(raw@ == uuid_text(order@[i]));
            assert(found == Some(order@[i]));
            lemma_position_at(order@, order@[i], i);
            reveal_strlit("up");
            reveal_strlit("down");
            assert("up"@.len() != "down"@.len());
        }
    }
    let id: Uuid = match found {
        Some(id) => id,
        None => return false,
    };
    let mut pos: usize = 0;
    while pos < order.len() && order[pos] != id
        invariant
            *order == *old(order),
            pos <= order.len(),
            forall|i: int| 0 <= i < pos ==> #[trigger] order@[i] != id,
        decreases order.len() - pos,
    {
        pos = pos + 1;
    }
    if pos == order.len() {
        proof {
            lemma_position_none(order@, id);
        }
        return false;
    }
    proof {
        lemma_position_at(order@, id, pos as int);
    }
    let target: usize = if same(direction, "up") && pos > 0 {
        pos - 1
    } else if same(direction, "down") && pos + 1 < order.len() {
        pos + 1
    } else {
        return false;
    };
    let a: Uuid = order[pos];
    let b: Uuid = order[target];
    order.set(pos, b);
    order.set(target, a);
    true
}

/// The directive that an arrow beside a piece submits.
pub fn arrow_value(up: bool, id: Uuid) -> (r: String)
    ensures
        r@ == directive(up, id),
{
    let mut out: String = if up {
        "up:".to_owned()
    } else {
        "down:".to_owned()
    };
    out.append(id.text().as_str());
    out
}

/// A move only rearranges: the order has the same pieces before and after.
pub proof fn a_move_keeps_the_pieces(order: Seq<Uuid>, text: Seq<char>)
    ensures
        move_of(order, text) matches Some((a, b)) ==> {
            &&& 0 <= a < order.len() && 0 <= b < order.len()
            &&& a - b == 1 || b - a == 1
            &&& swapped(order, a, b).to_multiset() == order.to_multiset()
            &&& forall|i: int|
                0 <= i < order.len() && i != a && i != b ==> #[trigger] swapped(order, a, b)[i]
                    == order[i]
        },
{
    if let Some((a, b)) = move_of(order, text) {
        let id = read_uuid(after(text, ':')->0)->0;
        lemma_position_bounds(order, id);
        vstd::seq_lib::to_multiset_update(order, a, order[b]);
        vstd::seq_lib::to_multiset_update(order.update(a, order[b]), b, order[a]);
        let m = order.to_multiset();
        broadcast use vstd::seq_lib::group_to_multiset_ensures;

        assert(order.contains(order[a]));
        assert(m.count(order[a]) > 0);
        assert(swapped(order, a, b).to_multiset() =~= m);
    }
}

/// Moving a piece up and then down again, or down and then up, gives the order
/// back.
pub proof fn opposite_moves_cancel(order: Seq<Uuid>, up: bool, i: int)
    requires
        order.no_duplicates(),
        0 <= i < order.len(),
        arrow(order, up, i) is Some,
    ensures
        ({
            let there = arrow(order, up, i)->0;
            let moved = swapped(order, there.0, there.1);
            let back = arrow(moved, !up, there.1);
            &&& moved[there.1] == order[i]
            &&& back is Some
            &&& (back matches Some((a, b)) && swapped(moved, a, b) == order)
        }),
{
    let there = arrow(order, up, i)->0;
    let moved = swapped(order, there.0, there.1);
    assert(swapped(moved, there.1, there.0) == order);
}

} // verus!
