//! The instrument picker: the vocabulary grouped by family, families in score
//! order.

use vstd::prelude::*;
use crate::id::{uuid_text, Uuid};
use crate::lists::{filter_none, filter_step, kept_from, map_push, take_all};
use crate::model::Instrument;
use crate::order::{
    text_less, text_lt, text_lt_is_irreflexive, text_lt_is_total, text_lt_is_transitive,
};
use crate::text::{same, texts};

verus! {

/// Where a family stands in score order. All that have no place of their own
/// stand together at the end.
pub open spec fn family_rank(f: Seq<char>) -> int {
    if f == "woodwind"@ {
        0
    } else if f == "brass"@ {
        1
    } else if f == "strings"@ {
        2
    } else if f == "percussion"@ {
        3
    } else if f == "keyboard"@ {
        4
    } else if f == "voice"@ {
        5
    } else if f == "other"@ {
        6
    } else {
        7
    }
}

/// Whether family `a` is shown before family `b`: by score order, and those
/// without a place by name.
pub open spec fn family_lt(a: Seq<char>, b: Seq<char>) -> bool {
    family_rank(a) < family_rank(b) || (family_rank(a) == family_rank(b) && text_lt(a, b))
}

/// Whether each family of `shown` comes before all that follow it.
pub open spec fn families_ordered(shown: Seq<Seq<char>>) -> bool {
    forall|i: int, j: int| 0 <= i < j < shown.len()
        ==> family_lt(#[trigger] shown[i], #[trigger] shown[j])
}

/// The families that instruments belong to, one for each instrument.
pub open spec fn families_of(instruments: Seq<Instrument>) -> Seq<Seq<char>> {
    instruments.map_values(|i: Instrument| i.family@)
}

/// Whether `shown` has the families of `instruments`, each once and in order.
pub open spec fn shows_families(shown: Seq<Seq<char>>, instruments: Seq<Instrument>) -> bool {
    &&& families_ordered(shown)
    &&& forall|f: Seq<char>| #[trigger] shown.contains(f) <==> families_of(instruments).contains(f)
}

proof fn lemma_family_lt(a: Seq<char>, b: Seq<char>, c: Seq<char>)
    ensures
        !family_lt(a, a),
        family_lt(a, b) || family_lt(b, a) || a == b,
        family_lt(a, b) && family_lt(b, c) ==> family_lt(a, c),
{
    text_lt_is_irreflexive(a);
    text_lt_is_total(a, b);
    if text_lt(a, b) && text_lt(b, c) {
        text_lt_is_transitive(a, b, c);
    }
}

/// Two lists of families that both show the families of the same instruments
/// are the same list.
pub proof fn shown_families_are_determined(
    a: Seq<Seq<char>>,
    b: Seq<Seq<char>>,
    instruments: Seq<Instrument>,
)
    requires
        shows_families(a, instruments),
        shows_families(b, instruments),
    ensures
        a == b,
{
    assert forall|f: Seq<char>| #[trigger] a.contains(f) <==> b.contains(f) by {}
    lemma_same_families(a, b);
}

proof fn lemma_same_families(a: Seq<Seq<char>>, b: Seq<Seq<char>>)
    requires
        families_ordered(a),
        families_ordered(b),
        forall|f: Seq<char>| #[trigger] a.contains(f) <==> b.contains(f),
    ensures
        a == b,
    decreases a.len(),
{
    if a.len() == 0 {
        if b.len() > 0 {
            assert(b.contains(b[0]));
            assert(a.contains(b[0]));
        }
        assert(a == b);
    } else {
        let x = a.last();
        assert(a.contains(x));
        let kb = choose|k: int| 0 <= k < b.len() && b[k] == x;
        let y = b.last();
        assert(b.contains(y));
        assert(a.contains(y));
        let ka = choose|k: int| 0 <= k < a.len() && a[k] == y;
        lemma_family_lt(x, y, x);
        if x != y {
            assert(family_lt(b[kb], b[b.len() - 1]));
            assert(family_lt(a[ka], a[a.len() - 1]));
            lemma_family_lt(x, y, x);
        }
        let a1 = a.drop_last();
        let b1 = b.drop_last();
        assert forall|f: Seq<char>| #[trigger] a1.contains(f) <==> b1.contains(f) by {
            if a1.contains(f) {
                let k = choose|k: int| 0 <= k < a1.len() && a1[k] == f;
                assert(a[k] == f);
                assert(family_lt(a[k], a[a.len() - 1]));
                lemma_family_lt(f, f, f);
                assert(a.contains(f));
                let m = choose|m: int| 0 <= m < b.len() && b[m] == f;
                assert(b1[m] == f);
            }
            if b1.contains(f) {
                let k = choose|k: int| 0 <= k < b1.len() && b1[k] == f;
                assert(b[k] == f);
                assert(family_lt(b[k], b[b.len() - 1]));
                lemma_family_lt(f, f, f);
                assert(b.contains(f));
                assert(a.contains(f));
                let m = choose|m: int| 0 <= m < a.len() && a[m] == f;
                assert(a1[m] == f);
            }
        }
        assert forall|i: int, j: int| 0 <= i < j < a1.len() implies family_lt(
            #[trigger] a1[i],
            #[trigger] a1[j],
        ) by {
            assert(family_lt(a[i], a[j]));
        }
        assert forall|i: int, j: int| 0 <= i < j < b1.len() implies family_lt(
            #[trigger] b1[i],
            #[trigger] b1[j],
        ) by {
            assert(family_lt(b[i], b[j]));
        }
        lemma_same_families(a1, b1);
        assert(a == a1.push(x));
        assert(b == b1.push(y));
    }
}

fn rank(f: &str) -> (r: u8)
    ensures
        r == family_rank(f@),
{
    if same(f, "woodwind") {
        0
    } else if same(f, "brass") {
        1
    } else if same(f, "strings") {
        2
    } else if same(f, "percussion") {
        3
    } else if same(f, "keyboard") {
        4
    } else if same(f, "voice") {
        5
    } else if same(f, "other") {
        6
    } else {
        7
    }
}

fn family_less(a: &str, b: &str) -> (r: bool)
    ensures
        r == family_lt(a@, b@),
{
    let x: u8 = rank(a);
    let y: u8 = rank(b);
    x < y || (x == y && text_less(a, b))
}

/// Puts a family in its place, unless it is there already.
fn put_family(out: &mut Vec<String>, family: &String)
    requires
        families_ordered(texts(old(out)@)),
    ensures
        families_ordered(texts(final(out)@)),
        forall|f: Seq<char>| #[trigger]
            texts(final(out)@).contains(f) <==> texts(old(out)@).contains(f) || f == family@,
{
    let ghost before = texts(out@);
    let mut k: usize = 0;
    while k < out.len() && family_less(out[k].as_str(), family.as_str())
        invariant
            *out == *old(out),
            before == texts(out@),
            k <= out.len(),
            forall|i: int| 0 <= i < k ==> family_lt(#[trigger] before[i], family@),
        decreases out.len() - k,
    {
        assert(before[k as int] == out@[k as int]@);
        k = k + 1;
    }
    if k < out.len() && same(out[k].as_str(), family.as_str()) {
        assert(before[k as int] == family@);
        return;
    }
    proof {
        assert forall|i: int| k <= i < before.len() implies family_lt(
            family@,
            #[trigger] before[i],
        ) by {
            assert(before[k as int] == out@[k as int]@);
            lemma_family_lt(family@, before[k as int], before[i]);
            if i > k {
                assert(family_lt(before[k as int], before[i]));
            }
        }
    }
    out.insert(k, family.clone());
    proof {
        let after = texts(out@);
        assert(after == before.insert(k as int, family@));
        assert forall|f: Seq<char>| #[trigger] after.contains(f) <==> before.contains(f) || f
            == family@ by {
            if after.contains(f) {
                let i = choose|i: int| 0 <= i < after.len() && after[i] == f;
                if i < k {
                    assert(before[i] == f);
                } else if i > k {
                    assert(before[i - 1] == f);
                }
            }
            if before.contains(f) {
                let i = choose|i: int| 0 <= i < before.len() && before[i] == f;
                if i < k {
                    assert(after[i] == f);
                } else {
                    assert(after[i + 1] == f);
                }
            }
            assert(after[k as int] == family@);
        }
        assert forall|i: int, j: int| 0 <= i < j < after.len() implies family_lt(
            #[trigger] after[i],
            #[trigger] after[j],
        ) by {
            let x = if i < k {
                i
            } else {
                i - 1
            };
            let y = if j < k {
                j
            } else {
                j - 1
            };
            if i != k && j != k {
                assert(family_lt(before[x], before[y]));
            } else if i == k {
                assert(family_lt(family@, before[y]));
            } else {
                assert(family_lt(before[x], family@));
            }
        }
    }
}

/// The families that the instruments belong to: each once, in score order, and
/// behind them in alphabetical order those without a place.
pub fn ordered_families(instruments: &Vec<Instrument>) -> (r: Vec<String>)
    ensures
        shows_families(texts(r@), instruments@),
{
    let mut out: Vec<String> = Vec::new();
    let mut i: usize = 0;
    while i < instruments.len()
        invariant
            i <= instruments.len(),
            families_ordered(texts(out@)),
            forall|f: Seq<char>| #[trigger]
                texts(out@).contains(f) <==> families_of(instruments@).take(i as int).contains(f),
        decreases instruments.len() - i,
    {
        let ghost sofar = texts(out@);
        put_family(&mut out, &instruments[i].family);
        proof {
            let given = families_of(instruments@);
            let x = given[i as int];
            let more = given.take(i + 1);
            assert(more == given.take(i as int).push(x));
            assert forall|f: Seq<char>| #[trigger] texts(out@).contains(f)
                <==> more.contains(f) by {
                assert(texts(out@).contains(f) <==> sofar.contains(f) || f == x);
                if given.take(i as int).contains(f) {
                    let m = choose|m: int| 0 <= m < i && given.take(i as int)[m] == f;
                    assert(more[m] == f);
                }
                if more.contains(f) {
                    let m = choose|m: int| 0 <= m < more.len() && more[m] == f;
                    if m < i {
                        assert(given.take(i as int)[m] == f);
                    }
                }
                assert(more[i as int] == x);
            }
        }
        i = i + 1;
    }
    proof {
        take_all(families_of(instruments@));
    }
    out
}

/// One instrument as the picker offers it.
pub struct InstrumentOption {
    pub id: Uuid,
    pub display_name: String,
    pub transposition: Option<String>,
    pub selected: bool,
}

/// A family in the picker.
pub struct FamilyGroup {
    pub family: String,
    pub options: Vec<InstrumentOption>,
}

/// An instrument as the picker offers it while `selected` is chosen.
pub open spec fn option_for(i: Instrument, selected: Seq<Uuid>) -> InstrumentOption {
    InstrumentOption {
        id: i.id,
        display_name: i.display_name,
        transposition: i.transposition,
        selected: selected.contains(i.id),
    }
}

/// Whether an instrument belongs to a family.
pub open spec fn of_family(family: Seq<char>) -> spec_fn(Instrument) -> bool {
    |i: Instrument| i.family@ == family
}

/// Instruments as the picker offers them while `selected` is chosen.
pub open spec fn offered(selected: Seq<Uuid>) -> spec_fn(Instrument) -> InstrumentOption {
    |i: Instrument| option_for(i, selected)
}

/// What the picker offers under a family: its instruments in vocabulary order.
pub open spec fn family_options(
    instruments: Seq<Instrument>,
    family: Seq<char>,
    selected: Seq<Uuid>,
) -> Seq<InstrumentOption> {
    instruments.filter(of_family(family)).map_values(offered(selected))
}

fn options_of(instruments: &Vec<Instrument>, family: &String, selected: &Vec<Uuid>) -> (r: Vec<
    InstrumentOption,
>)
    ensures
        r@ == family_options(instruments@, family@, selected@),
{
    let ghost p = of_family(family@);
    let ghost f = offered(selected@);
    let mut out: Vec<InstrumentOption> = Vec::new();
    let mut k: usize = 0;
    proof {
        filter_none(instruments@, p);
    }
    assert(out@ == instruments@.take(0).filter(p).map_values(f));
    while k < instruments.len()
        invariant
            k <= instruments.len(),
            p == of_family(family@),
            f == offered(selected@),
            out@ == instruments@.take(k as int).filter(p).map_values(f),
        decreases instruments.len() - k,
    {
        proof {
            filter_step(instruments@, k as int, p);
            map_push(instruments@.take(k as int).filter(p), instruments@[k as int], f);
        }
        let i: &Instrument = &instruments[k];
        if same(i.family.as_str(), family.as_str()) {
            out.push(
                InstrumentOption {
                    id: i.id,
                    display_name: i.display_name.clone(),
                    transposition: i.transposition.clone(),
                    selected: crate::lists::contains_id(selected, i.id),
                },
            );
        }
        k = k + 1;
    }
    proof {
        take_all(instruments@);
    }
    out
}

/// The names of the families that the picker shows.
pub open spec fn group_names(groups: Seq<FamilyGroup>) -> Seq<Seq<char>> {
    groups.map_values(|g: FamilyGroup| g.family@)
}

/// Whether the picker shows exactly these instruments, grouped by family.
pub open spec fn is_picker(
    groups: Seq<FamilyGroup>,
    instruments: Seq<Instrument>,
    selected: Seq<Uuid>,
) -> bool {
    &&& shows_families(group_names(groups), instruments)
    &&& forall|g: int|
        0 <= g < groups.len() ==> (#[trigger] groups[g]).options@ == family_options(
            instruments,
            groups[g].family@,
            selected,
        )
}

/// The picker for one or more instruments: a group for each family, in order,
/// with the family's instruments.
pub fn instrument_picker(instruments: &Vec<Instrument>, selected: &Vec<Uuid>) -> (r: Vec<
    FamilyGroup,
>)
    ensures
        is_picker(r@, instruments@, selected@),
{
    let families: Vec<String> = ordered_families(instruments);
    let mut out: Vec<FamilyGroup> = Vec::new();
    let mut k: usize = 0;
    while k < families.len()
        invariant
            k <= families.len(),
            group_names(out@) == texts(families@).take(k as int),
            forall|g: int|
                0 <= g < out@.len() ==> (#[trigger] out@[g]).options@ == family_options(
                    instruments@,
                    out@[g].family@,
                    selected@,
                ),
        decreases families.len() - k,
    {
        let ghost sofar = group_names(out@);
        out.push(
            FamilyGroup {
                family: families[k].clone(),
                options: options_of(instruments, &families[k], selected),
            },
        );
        assert(group_names(out@) == sofar.push(families@[k as int]@));
        assert(texts(families@).take(k + 1) == texts(families@).take(k as int).push(
            families@[k as int]@,
        ));
        k = k + 1;
    }
    proof {
        take_all(texts(families@));
    }
    out
}

/// Every instrument of the vocabulary is offered by the picker, under its own
/// family.
pub proof fn every_instrument_is_offered(
    groups: Seq<FamilyGroup>,
    instruments: Seq<Instrument>,
    selected: Seq<Uuid>,
    k: int,
)
    requires
        is_picker(groups, instruments, selected),
        0 <= k < instruments.len(),
    ensures
        exists|g: int|
            #![trigger groups[g]]
            0 <= g < groups.len() && groups[g].family@ == instruments[k].family@
                && groups[g].options@.contains(option_for(instruments[k], selected)),
{
    let fam = instruments[k].family@;
    assert(families_of(instruments)[k] == fam);
    assert(families_of(instruments).contains(fam));
    assert(group_names(groups).contains(fam));
    let g = choose|g: int| 0 <= g < group_names(groups).len() && group_names(groups)[g] == fam;
    assert(groups[g].family@ == fam);
    let p = of_family(groups[g].family@);
    let kept = instruments.filter(p);
    broadcast use vstd::seq_lib::group_seq_properties;

    assert(instruments.contains(instruments[k]));
    assert(kept.contains(instruments[k]));
    let m = choose|m: int| 0 <= m < kept.len() && kept[m] == instruments[k];
    let options = kept.map_values(offered(selected));
    assert(options[m] == option_for(instruments[k], selected));
    assert(groups[g].options@ == family_options(instruments, groups[g].family@, selected));
    assert(groups[g].options@ == options);
    assert(groups[g].options@.contains(option_for(instruments[k], selected)));
}

/// The name that a voice's instrument is shown by: its identifier, should it
/// not be in the vocabulary.
pub open spec fn name_of(instruments: Seq<Instrument>, id: Uuid) -> Seq<char>
    decreases instruments.len(),
{
    if instruments.len() == 0 {
        uuid_text(id)
    } else if instruments[0].id == id {
        instruments[0].display_name@
    } else {
        name_of(instruments.skip(1), id)
    }
}

/// The name that a voice's instrument is shown by.
pub fn instrument_name(instruments: &Vec<Instrument>, id: Uuid) -> (r: String)
    ensures
        r@ == name_of(instruments@, id),
{
    let mut i: usize = 0;
    assert(instruments@.skip(0) == instruments@);
    while i < instruments.len()
        invariant
            i <= instruments.len(),
            name_of(instruments@, id) == name_of(instruments@.skip(i as int), id),
        decreases instruments.len() - i,
    {
        if instruments[i].id == id {
            return instruments[i].display_name.clone();
        }
        assert(instruments@.skip(i as int).skip(1) == instruments@.skip(i + 1));
        i = i + 1;
    }
    id.text()
}

/// Whether the instrument at `j` is the first with the identifier `id`.
pub open spec fn is_first_with(instruments: Seq<Instrument>, id: Uuid, j: int) -> bool {
    &&& 0 <= j < instruments.len()
    &&& instruments[j].id == id
    &&& forall|i: int| 0 <= i < j ==> (#[trigger] instruments[i]).id != id
}

/// An instrument of the vocabulary goes by its own name.
pub proof fn an_instrument_goes_by_its_name(instruments: Seq<Instrument>, id: Uuid, j: int)
    requires
        is_first_with(instruments, id, j),
    ensures
        name_of(instruments, id) == instruments[j].display_name@,
    decreases j,
{
    if j > 0 {
        let rest = instruments.skip(1);
        assert(instruments[0].id != id);
        assert(rest[j - 1] == instruments[j]);
        assert forall|i: int| 0 <= i < j - 1 implies (#[trigger] rest[i]).id != id by {
            assert(rest[i] == instruments[i + 1]);
        }
        an_instrument_goes_by_its_name(rest, id, j - 1);
    }
}

/// In the picker exactly the chosen instruments are ticked; each is offered by
/// its own name, under its own family.
pub proof fn chosen_instruments_are_ticked(
    groups: Seq<FamilyGroup>,
    instruments: Seq<Instrument>,
    selected: Seq<Uuid>,
)
    requires
        is_picker(groups, instruments, selected),
    ensures
        forall|g: int, k: int|
            0 <= g < groups.len() && 0 <= k < groups[g].options@.len() ==> ((
            #[trigger] groups[g].options@[k]).selected <==> selected.contains(
                groups[g].options@[k].id,
            )),
        forall|g: int, k: int|
            0 <= g < groups.len() && 0 <= k < groups[g].options@.len() ==> exists|j: int|
                0 <= j < instruments.len() && (#[trigger] instruments[j]).id == (
                #[trigger] groups[g].options@[k]).id && instruments[j].display_name@
                    == groups[g].options@[k].display_name@ && instruments[j].transposition
                    == groups[g].options@[k].transposition && instruments[j].family@
                    == groups[g].family@,
{
    assert forall|g: int, k: int|
        0 <= g < groups.len() && 0 <= k < groups[g].options@.len() implies {
        &&& (#[trigger] groups[g].options@[k]).selected <==> selected.contains(
            groups[g].options@[k].id,
        )
        &&& exists|j: int|
            0 <= j < instruments.len() && (#[trigger] instruments[j]).id
                == groups[g].options@[k].id && instruments[j].display_name@
                == groups[g].options@[k].display_name@ && instruments[j].transposition
                == groups[g].options@[k].transposition && instruments[j].family@
                == groups[g].family@
    } by {
        assert(groups[g].options@ == family_options(instruments, groups[g].family@, selected));
        let from = kept_from(instruments, of_family(groups[g].family@), offered(selected));
        assert(from[k] == from[k]);
        let x = instruments[from[k]];
        assert(offered(selected)(x) == groups[g].options@[k]);
        assert(instruments[from[k]].id == groups[g].options@[k].id);
    }
}

/// The families stand in score order: woodwind, brass, strings, percussion,
/// keyboard, voice and then other; no family stands twice.
pub proof fn families_stand_in_score_order(groups: Seq<FamilyGroup>, g: int, h: int)
    requires
        families_ordered(group_names(groups)),
        0 <= g < groups.len(),
        0 <= h < groups.len(),
    ensures
        groups[g].family@ == "woodwind"@ && groups[h].family@ == "brass"@ ==> g < h,
        groups[g].family@ == "brass"@ && groups[h].family@ == "strings"@ ==> g < h,
        groups[g].family@ == "strings"@ && groups[h].family@ == "percussion"@ ==> g < h,
        groups[g].family@ == "percussion"@ && groups[h].family@ == "keyboard"@ ==> g < h,
        groups[g].family@ == "keyboard"@ && groups[h].family@ == "voice"@ ==> g < h,
        groups[g].family@ == "voice"@ && groups[h].family@ == "other"@ ==> g < h,
        groups[g].family@ == groups[h].family@ ==> g == h,
{
    reveal_strlit("woodwind");
    reveal_strlit("brass");
    reveal_strlit("strings");
    reveal_strlit("percussion");
    reveal_strlit("keyboard");
    reveal_strlit("voice");
    reveal_strlit("other");
    assert("woodwind"@[0] == 'w' && "brass"@[0] == 'b' && "strings"@[0] == 's' && "percussion"@[0]
        == 'p' && "keyboard"@[0] == 'k' && "voice"@[0] == 'v' && "other"@[0] == 'o');
    let names = group_names(groups);
    assert(names[g] == groups[g].family@ && names[h] == groups[h].family@);
    lemma_family_lt(names[g], names[h], names[g]);
    lemma_family_lt(names[h], names[g], names[h]);
    if g < h {
        assert(family_lt(names[g], names[h]));
    }
    if h < g {
        assert(family_lt(names[h], names[g]));
    }
}

/// The families of the picker are those of the vocabulary.
pub proof fn the_picker_shows_the_families_of_the_vocabulary(
    groups: Seq<FamilyGroup>,
    instruments: Seq<Instrument>,
    selected: Seq<Uuid>,
)
    requires
        is_picker(groups, instruments, selected),
    ensures
        families_ordered(group_names(groups)),
        forall|g: int|
            0 <= g < groups.len() ==> families_of(instruments).contains(
                (#[trigger] groups[g]).family@,
            ),
        forall|j: int|
            0 <= j < instruments.len() ==> group_names(groups).contains(
                (#[trigger] instruments[j]).family@,
            ),
{
    let names = group_names(groups);
    let all = families_of(instruments);
    assert forall|g: int| 0 <= g < groups.len() implies all.contains(
        (#[trigger] groups[g]).family@,
    ) by {
        assert(names[g] == groups[g].family@);
        assert(names.contains(groups[g].family@));
    }
    assert forall|j: int| 0 <= j < instruments.len() implies names.contains(
        (#[trigger] instruments[j]).family@,
    ) by {
        assert(all[j] == instruments[j].family@);
        assert(all.contains(instruments[j].family@));
    }
}

} // verus!
