//! Text as the rest of the library sees it: a sequence of characters that can
//! be trimmed, split, escaped, joined and compared.

use vstd::prelude::*;

verus! {

/// Appends one character.
///
/// `String::push`: the text afterwards is the text before with `c` at its end.
pub assume_specification[ String::push ](s: &mut String, c: char)
    ensures
        final(s)@ == old(s)@.push(c),
;

/// The characters with Unicode's `White_Space` property.
pub open spec fn is_white_space(c: char) -> bool {
    let n = c as u32;
    ||| 0x09 <= n <= 0x0d
    ||| n == 0x20
    ||| n == 0x85
    ||| n == 0xa0
    ||| n == 0x1680
    ||| 0x2000 <= n <= 0x200a
    ||| n == 0x2028
    ||| n == 0x2029
    ||| n == 0x202f
    ||| n == 0x205f
    ||| n == 0x3000
}

/// Whether `c` is white space.
pub fn white_space(c: char) -> (r: bool)
    ensures
        r == is_white_space(c),
{
    let n: u32 = c as u32;
    (0x09 <= n && n <= 0x0d) || n == 0x20 || n == 0x85 || n == 0xa0 || n == 0x1680 || (0x2000 <= n
        && n <= 0x200a) || n == 0x2028 || n == 0x2029 || n == 0x202f || n == 0x205f || n == 0x3000
}

/// `s` without its leading white space.
pub open spec fn trim_start(s: Seq<char>) -> Seq<char>
    decreases s.len(),
{
    if s.len() > 0 && is_white_space(s[0]) {
        trim_start(s.skip(1))
    } else {
        s
    }
}

/// `s` without its trailing white space.
pub open spec fn trim_end(s: Seq<char>) -> Seq<char>
    decreases s.len(),
{
    if s.len() > 0 && is_white_space(s.last()) {
        trim_end(s.drop_last())
    } else {
        s
    }
}

/// `s` without white space at either end.
pub open spec fn trimmed(s: Seq<char>) -> Seq<char> {
    trim_end(trim_start(s))
}

proof fn lemma_trim_start_at(s: Seq<char>, k: int)
    requires
        0 <= k <= s.len(),
        forall|i: int| 0 <= i < k ==> is_white_space(#[trigger] s[i]),
        k < s.len() ==> !is_white_space(s[k]),
    ensures
        trim_start(s) == s.skip(k),
    decreases k,
{
    if k > 0 {
        let t = s.skip(1);
        assert(is_white_space(s[0]));
        assert forall|i: int| 0 <= i < k - 1 implies is_white_space(#[trigger] t[i]) by {
            assert(t[i] == s[i + 1]);
        }
        lemma_trim_start_at(t, k - 1);
        assert(t.skip(k - 1) == s.skip(k));
    } else {
        assert(s.skip(0) == s);
    }
}

proof fn lemma_trim_end_at(s: Seq<char>, k: int)
    requires
        0 <= k <= s.len(),
        forall|i: int| k <= i < s.len() ==> is_white_space(#[trigger] s[i]),
        k > 0 ==> !is_white_space(s[k - 1]),
    ensures
        trim_end(s) == s.take(k),
    decreases s.len() - k,
{
    if k < s.len() {
        let t = s.drop_last();
        assert(is_white_space(s.last()));
        assert forall|i: int| k <= i < t.len() implies is_white_space(#[trigger] t[i]) by {
            assert(t[i] == s[i]);
        }
        lemma_trim_end_at(t, k);
        assert(t.take(k) == s.take(k));
    } else {
        assert(s.take(k) == s);
        if s.len() > 0 {
            assert(s.last() == s[k - 1]);
        }
    }
}

proof fn lemma_trim_start_shape(s: Seq<char>) -> (k: int)
    ensures
        0 <= k <= s.len(),
        trim_start(s) == s.skip(k),
        k < s.len() ==> !is_white_space(s[k]),
        forall|i: int| 0 <= i < k ==> is_white_space(#[trigger] s[i]),
    decreases s.len(),
{
    if s.len() > 0 && is_white_space(s[0]) {
        let t = s.skip(1);
        let j = lemma_trim_start_shape(t);
        assert(t.skip(j) == s.skip(j + 1));
        assert forall|i: int| 0 <= i < j + 1 implies is_white_space(#[trigger] s[i]) by {
            if i > 0 {
                assert(s[i] == t[i - 1]);
            }
        }
        j + 1
    } else {
        assert(s.skip(0) == s);
        0
    }
}

proof fn lemma_trim_end_shape(s: Seq<char>) -> (k: int)
    ensures
        0 <= k <= s.len(),
        trim_end(s) == s.take(k),
        k > 0 ==> !is_white_space(s[k - 1]),
    decreases s.len(),
{
    if s.len() > 0 && is_white_space(s.last()) {
        let t = s.drop_last();
        let j = lemma_trim_end_shape(t);
        assert(t.take(j) == s.take(j));
        j
    } else {
        assert(s.take(s.len() as int) == s);
        s.len() as int
    }
}

/// A trimmed text neither starts nor ends with white space, and lies within
/// the text it came from.
pub proof fn trimmed_has_bare_ends(s: Seq<char>)
    ensures
        trimmed(s).len() > 0 ==> !is_white_space(trimmed(s)[0]) && !is_white_space(
            trimmed(s).last(),
        ),
        exists|i: int, j: int| 0 <= i <= j <= s.len() && trimmed(s) == #[trigger] s.subrange(i, j),
{
    let i = lemma_trim_start_shape(s);
    let t = trim_start(s);
    let k = lemma_trim_end_shape(t);
    assert(t.take(k) == s.subrange(i, i + k));
}

/// Trimming what is already trimmed changes nothing.
pub proof fn trimming_twice_is_trimming_once(s: Seq<char>)
    ensures
        trimmed(trimmed(s)) == trimmed(s),
{
    trimmed_has_bare_ends(s);
    let t = trimmed(s);
    lemma_trim_start_at(t, 0);
    assert(t.skip(0) == t);
    lemma_trim_end_at(t, t.len() as int);
    assert(t.take(t.len() as int) == t);
}

/// Whether `s` has something in it and no white space at either end.
pub open spec fn bare(s: Seq<char>) -> bool {
    s.len() > 0 && !is_white_space(s[0]) && !is_white_space(s.last())
}

/// Text with bare ends is taken in as it stands; text that is all white space
/// counts as none.
pub proof fn bare_text_is_taken_in_as_it_stands(s: Seq<char>)
    ensures
        bare(s) ==> trimmed(s) == s,
        (forall|i: int| 0 <= i < s.len() ==> is_white_space(#[trigger] s[i])) ==> trimmed(s).len()
            == 0,
{
    if bare(s) {
        lemma_trim_start_at(s, 0);
        assert(s.skip(0) == s);
        lemma_trim_end_at(s, s.len() as int);
        assert(s.take(s.len() as int) == s);
    }
    if forall|i: int| 0 <= i < s.len() ==> is_white_space(#[trigger] s[i]) {
        lemma_trim_start_at(s, s.len() as int);
        assert(s.skip(s.len() as int) == Seq::<char>::empty());
    }
}

/// The characters of `s`, in order.
pub fn chars_of(s: &str) -> (r: Vec<char>)
    ensures
        r@ == s@,
{
    let mut out: Vec<char> = Vec::new();
    for c in it: s.chars()
        invariant
            it.seq() == s@,
            out@ == s@.take(it.index() as int),
    {
        out.push(c);
    }
    assert(s@.take(s@.len() as int) == s@);
    out
}

/// `s` without white space at either end.
pub fn trim(s: &str) -> (r: &str)
    ensures
        r@ == trimmed(s@),
{
    let v: Vec<char> = chars_of(s);
    let mut from: usize = 0;
    while from < v.len() && white_space(v[from])
        invariant
            v@ == s@,
            from <= v.len(),
            forall|i: int| 0 <= i < from ==> is_white_space(#[trigger] s@[i]),
        decreases v.len() - from,
    {
        from = from + 1;
    }
    proof {
        lemma_trim_start_at(s@, from as int);
    }
    let mut to: usize = v.len();
    while from < to && white_space(v[to - 1])
        invariant
            v@ == s@,
            from <= to <= v.len(),
            forall|i: int| to <= i < v.len() ==> is_white_space(#[trigger] s@[i]),
        decreases to - from,
    {
        to = to - 1;
    }
    proof {
        let t = s@.skip(from as int);
        assert forall|i: int| to - from <= i < t.len() implies is_white_space(#[trigger] t[i]) by {
            assert(t[i] == s@[i + from]);
        }
        lemma_trim_end_at(t, to - from);
        assert(t.take(to - from) == s@.subrange(from as int, to as int));
    }
    s.substring_char(from, to)
}

/// The characters of an optional text.
pub open spec fn text_of(value: Option<String>) -> Option<Seq<char>> {
    match value {
        Some(v) => Some(v@),
        None => None,
    }
}

/// What an optional form value amounts to: its trimmed text, unless that is
/// empty. Text inputs always submit, so an empty one was not filled in.
pub open spec fn entered(value: Option<Seq<char>>) -> Option<Seq<char>> {
    match value {
        Some(v) => if trimmed(v).len() > 0 {
            Some(trimmed(v))
        } else {
            None
        },
        None => None,
    }
}

/// Trims a form value and treats the empty text as absent.
pub fn blank_to_none(value: &Option<String>) -> (r: Option<String>)
    ensures
        text_of(r) == entered(text_of(*value)),
{
    match value {
        Some(v) => {
            let t: &str = trim(v.as_str());
            if t.is_empty() {
                None
            } else {
                Some(t.to_owned())
            }
        },
        None => None,
    }
}

/// A form value that has been taken in stays as it is when taken in again.
pub proof fn entering_twice_is_entering_once(value: Option<Seq<char>>)
    ensures
        entered(entered(value)) == entered(value),
{
    if value is Some {
        trimming_twice_is_trimming_once(value->0);
    }
}

/// Whether `a` and `b` are the same text.
pub fn same(a: &str, b: &str) -> (r: bool)
    ensures
        r == (a@ == b@),
{
    a.to_owned() == b.to_owned()
}

/// The pieces of `s` between the occurrences of `c`. There is always at least
/// one, and an occurrence at either end leaves an empty piece there.
pub open spec fn split(s: Seq<char>, c: char) -> Seq<Seq<char>>
    decreases s.len(),
{
    if s.len() == 0 {
        seq![Seq::empty()]
    } else {
        let pieces = split(s.drop_last(), c);
        if s.last() == c {
            pieces.push(Seq::empty())
        } else {
            pieces.update(pieces.len() - 1, pieces.last().push(s.last()))
        }
    }
}

/// The pieces in one text, with `c` between neighbours.
pub open spec fn join(pieces: Seq<Seq<char>>, c: char) -> Seq<char>
    decreases pieces.len(),
{
    if pieces.len() == 0 {
        Seq::empty()
    } else if pieces.len() == 1 {
        pieces[0]
    } else {
        join(pieces.drop_last(), c) + seq![c] + pieces.last()
    }
}

/// The part of `s` before the first `c`, or all of it where there is none.
pub open spec fn before(s: Seq<char>, c: char) -> Seq<char>
    decreases s.len(),
{
    if s.len() == 0 || s[0] == c {
        Seq::empty()
    } else {
        seq![s[0]] + before(s.skip(1), c)
    }
}

/// The part of `s` after the first `c`; nothing where there is none.
pub open spec fn after(s: Seq<char>, c: char) -> Option<Seq<char>>
    decreases s.len(),
{
    if s.len() == 0 {
        None
    } else if s[0] == c {
        Some(s.skip(1))
    } else {
        after(s.skip(1), c)
    }
}

/// The texts that a list of strings holds.
pub open spec fn texts(v: Seq<String>) -> Seq<Seq<char>> {
    v.map_values(|s: String| s@)
}

/// No piece holds the separator, and there is at least one piece.
pub proof fn pieces_are_free_of_the_separator(s: Seq<char>, c: char)
    ensures
        split(s, c).len() > 0,
        forall|i: int| 0 <= i < split(s, c).len() ==> !(#[trigger] split(s, c)[i]).contains(c),
    decreases s.len(),
{
    if s.len() > 0 {
        pieces_are_free_of_the_separator(s.drop_last(), c);
        let p = split(s.drop_last(), c);
        if s.last() != c {
            let last = p.last().push(s.last());
            assert(!last.contains(c)) by {
                if last.contains(c) {
                    let k = choose|k: int| 0 <= k < last.len() && last[k] == c;
                    if k < p.last().len() {
                        assert(p.last()[k] == c);
                    }
                }
            }
        }
    }
}

/// Joining the pieces of a text gives the text back.
pub proof fn joining_undoes_splitting(s: Seq<char>, c: char)
    ensures
        join(split(s, c), c) == s,
    decreases s.len(),
{
    if s.len() > 0 {
        let t = s.drop_last();
        joining_undoes_splitting(t, c);
        pieces_are_free_of_the_separator(t, c);
        let p = split(t, c);
        if s.last() == c {
            assert(p.push(Seq::empty()).drop_last() == p);
            assert(join(split(s, c), c) == t + seq![c] + Seq::empty());
            assert(t + seq![c] + Seq::<char>::empty() == s);
        } else {
            let q = split(s, c);
            assert(q.drop_last() == p.drop_last());
            if p.len() == 1 {
                assert(q[0] == p[0].push(s.last()));
                assert(q[0] == s);
            } else {
                assert(join(q, c) == join(p.drop_last(), c) + seq![c] + p.last().push(s.last()));
                assert(join(q, c) == join(p, c).push(s.last()));
                assert(t.push(s.last()) == s);
            }
        }
    }
}

proof fn lemma_split_append_clean(s: Seq<char>, t: Seq<char>, c: char)
    requires
        !t.contains(c),
    ensures
        split(s + t, c) == split(s, c).update(
            split(s, c).len() - 1,
            split(s, c).last() + t,
        ),
    decreases t.len(),
{
    pieces_are_free_of_the_separator(s, c);
    if t.len() == 0 {
        assert(s + t == s);
        assert(split(s, c).last() + t == split(s, c).last());
        assert(split(s, c).update(split(s, c).len() - 1, split(s, c).last()) == split(s, c));
    } else {
        let u = t.drop_last();
        assert(!u.contains(c)) by {
            if u.contains(c) {
                let k = choose|k: int| 0 <= k < u.len() && u[k] == c;
                assert(t[k] == c);
            }
        }
        lemma_split_append_clean(s, u, c);
        assert((s + t).drop_last() == s + u);
        assert((s + t).last() == t.last());
        assert(t.contains(t.last()));
        let p = split(s, c);
        let a = p.last() + u;
        assert(a.push(t.last()) == p.last() + t);
        assert(split(s + t, c) == p.update(p.len() - 1, p.last() + t));
    }
}

/// Splitting joined pieces gives the pieces back, where none of them holds the
/// separator.
pub proof fn splitting_undoes_joining(pieces: Seq<Seq<char>>, c: char)
    requires
        pieces.len() > 0,
        forall|i: int| 0 <= i < pieces.len() ==> !(#[trigger] pieces[i]).contains(c),
    ensures
        split(join(pieces, c), c) == pieces,
    decreases pieces.len(),
{
    if pieces.len() == 1 {
        lemma_split_append_clean(Seq::empty(), pieces[0], c);
        assert(Seq::<char>::empty() + pieces[0] == pieces[0]);
        assert(split(pieces[0], c) == pieces);
    } else {
        let init = pieces.drop_last();
        splitting_undoes_joining(init, c);
        let head = join(init, c) + seq![c];
        assert(head.drop_last() == join(init, c));
        assert(split(head, c) == init.push(Seq::empty()));
        lemma_split_append_clean(head, pieces.last(), c);
        assert(Seq::<char>::empty() + pieces.last() == pieces.last());
        assert(split(join(pieces, c), c) == pieces);
    }
}

/// The first `c` of a text parts it: what stands before it and what stands
/// after it.
pub proof fn the_first_separator_parts_a_text(s: Seq<char>, c: char, k: int)
    requires
        0 <= k <= s.len(),
        forall|i: int| 0 <= i < k ==> #[trigger] s[i] != c,
        k < s.len() ==> s[k] == c,
    ensures
        before(s, c) == s.take(k),
        after(s, c) == (if k < s.len() {
            Some(s.skip(k + 1))
        } else {
            None
        }),
    decreases k,
{
    if k > 0 {
        let t = s.skip(1);
        assert forall|i: int| 0 <= i < k - 1 implies #[trigger] t[i] != c by {
            assert(t[i] == s[i + 1]);
        }
        the_first_separator_parts_a_text(t, c, k - 1);
        assert(s.take(k) == seq![s[0]] + t.take(k - 1));
        if k < s.len() {
            assert(t.skip(k) == s.skip(k + 1));
        }
    } else {
        assert(s.take(0) == Seq::<char>::empty());
    }
}

/// The parts of `s` before and after the first `c`; `None` where there is none.
pub fn split_once(s: &str, c: char) -> (r: Option<(&str, &str)>)
    ensures
        match r {
            Some((a, b)) => a@ == before(s@, c) && after(s@, c) == Some(b@),
            None => after(s@, c) is None && before(s@, c) == s@,
        },
{
    let v: Vec<char> = chars_of(s);
    let mut k: usize = 0;
    while k < v.len() && v[k] != c
        invariant
            v@ == s@,
            k <= v.len(),
            forall|i: int| 0 <= i < k ==> #[trigger] s@[i] != c,
        decreases v.len() - k,
    {
        k = k + 1;
    }
    proof {
        the_first_separator_parts_a_text(s@, c, k as int);
        assert(s@.take(s@.len() as int) == s@);
    }
    if k < v.len() {
        Some((s.substring_char(0, k), s.substring_char(k + 1, v.len())))
    } else {
        None
    }
}

/// The pieces of `s` between the occurrences of `c`.
pub fn split_all(s: &str, c: char) -> (r: Vec<String>)
    ensures
        texts(r@) == split(s@, c),
{
    let v: Vec<char> = chars_of(s);
    let mut done: Vec<String> = Vec::new();
    let mut last: String = String::new();
    let mut i: usize = 0;
    assert(s@.take(0) == Seq::<char>::empty());
    assert(texts(done@).push(last@) == split(s@.take(0), c));
    while i < v.len()
        invariant
            v@ == s@,
            i <= v.len(),
            texts(done@).push(last@) == split(s@.take(i as int), c),
        decreases v.len() - i,
    {
        let x: char = v[i];
        assert(s@.take(i + 1).drop_last() == s@.take(i as int));
        if x == c {
            done.push(last);
            last = String::new();
        } else {
            last.push(x);
        }
        assert(texts(done@).push(last@) == split(s@.take(i + 1), c));
        i = i + 1;
    }
    assert(s@.take(s@.len() as int) == s@);
    done.push(last);
    assert(texts(done@) == split(s@, c));
    done
}

/// The pieces in one text, with `c` between neighbours.
pub fn join_all(pieces: &Vec<String>, c: char) -> (r: String)
    ensures
        r@ == join(texts(pieces@), c),
{
    let mut out: String = String::new();
    let mut i: usize = 0;
    assert(texts(pieces@).take(0) == Seq::<Seq<char>>::empty());
    while i < pieces.len()
        invariant
            i <= pieces.len(),
            out@ == join(texts(pieces@).take(i as int), c),
        decreases pieces.len() - i,
    {
        assert(texts(pieces@).take(i + 1).drop_last() == texts(pieces@).take(i as int));
        if i > 0 {
            out.push(c);
        }
        out.append(pieces[i].as_str());
        assert(out@ == join(texts(pieces@).take(i + 1), c));
        i = i + 1;
    }
    assert(texts(pieces@).take(pieces@.len() as int) == texts(pieces@));
    out
}

/// What a character becomes in HTML text and attribute values.
pub open spec fn escaped_char(c: char) -> Seq<char> {
    if c == '&' {
        "&amp;"@
    } else if c == '<' {
        "&lt;"@
    } else if c == '>' {
        "&gt;"@
    } else if c == '"' {
        "&quot;"@
    } else {
        seq![c]
    }
}

/// `s` with each character that HTML gives a meaning to written as an entity.
pub open spec fn escaped(s: Seq<char>) -> Seq<char>
    decreases s.len(),
{
    if s.len() == 0 {
        Seq::empty()
    } else {
        escaped(s.drop_last()) + escaped_char(s.last())
    }
}

/// Escapes text for HTML.
pub fn html_escape(input: &str) -> (r: String)
    ensures
        r@ == escaped(input@),
{
    let v: Vec<char> = chars_of(input);
    let mut out: String = String::new();
    let mut i: usize = 0;
    assert(input@.take(0) == Seq::<char>::empty());
    while i < v.len()
        invariant
            v@ == input@,
            i <= v.len(),
            out@ == escaped(input@.take(i as int)),
        decreases v.len() - i,
    {
        let c: char = v[i];
        assert(input@.take(i + 1).drop_last() == input@.take(i as int));
        if c == '&' {
            out.append("&amp;");
        } else if c == '<' {
            out.append("&lt;");
        } else if c == '>' {
            out.append("&gt;");
        } else if c == '"' {
            out.append("&quot;");
        } else {
            out.push(c);
        }
        assert(out@ == escaped(input@.take(i + 1)));
        i = i + 1;
    }
    assert(input@.take(input@.len() as int) == input@);
    out
}

/// Escaped text can neither open or close a tag nor end a quoted attribute.
pub proof fn escaped_text_has_no_markup(s: Seq<char>)
    ensures
        !escaped(s).contains('<'),
        !escaped(s).contains('>'),
        !escaped(s).contains('"'),
    decreases s.len(),
{
    if s.len() > 0 {
        let init = escaped(s.drop_last());
        let last = escaped_char(s.last());
        escaped_text_has_no_markup(s.drop_last());
        reveal_strlit("&amp;");
        reveal_strlit("&lt;");
        reveal_strlit("&gt;");
        reveal_strlit("&quot;");
        assert forall|k: int| 0 <= k < escaped(s).len() implies {
            let x = #[trigger] escaped(s)[k];
            x != '<' && x != '>' && x != '"'
        } by {
            if k < init.len() {
                assert(escaped(s)[k] == init[k]);
                assert(init.contains(init[k]));
            } else {
                assert(escaped(s)[k] == last[k - init.len()]);
            }
        }
    }
}

/// Text without any of the four characters is left as it is.
pub proof fn plain_text_is_not_escaped(s: Seq<char>)
    requires
        forall|i: int|
            0 <= i < s.len() ==> #[trigger] s[i] != '&' && s[i] != '<' && s[i] != '>'
                && s[i] != '"',
    ensures
        escaped(s) == s,
    decreases s.len(),
{
    if s.len() > 0 {
        let t = s.drop_last();
        assert forall|i: int| 0 <= i < t.len() implies #[trigger] t[i] != '&' && t[i] != '<' && t[i]
            != '>' && t[i] != '"' by {
            assert(t[i] == s[i]);
        }
        plain_text_is_not_escaped(t);
        assert(s.last() == s[s.len() - 1]);
        assert(t + seq![s.last()] == s);
    }
}

/// White space around a text is taken off, and nothing else is.
pub proof fn white_space_around_a_text_is_taken_off(a: Seq<char>, t: Seq<char>, b: Seq<char>)
    requires
        bare(t),
        forall|i: int| 0 <= i < a.len() ==> is_white_space(#[trigger] a[i]),
        forall|i: int| 0 <= i < b.len() ==> is_white_space(#[trigger] b[i]),
    ensures
        trimmed(a + t + b) == t,
{
    let s = a + t + b;
    assert forall|i: int| 0 <= i < a.len() implies is_white_space(#[trigger] s[i]) by {
        assert(s[i] == a[i]);
    }
    assert(s[a.len() as int] == t[0]);
    lemma_trim_start_at(s, a.len() as int);
    let rest = t + b;
    assert(s.skip(a.len() as int) == rest);
    assert forall|i: int| t.len() <= i < rest.len() implies is_white_space(#[trigger] rest[i]) by {
        assert(rest[i] == b[i - t.len()]);
    }
    assert(rest[t.len() - 1] == t.last());
    lemma_trim_end_at(rest, t.len() as int);
    assert(rest.take(t.len() as int) == t);
}

/// What is entered in a form is the text without the white space around it, and
/// nothing where that is all there is.
pub proof fn what_is_entered_is_the_text_itself(a: Seq<char>, t: Seq<char>, b: Seq<char>)
    requires
        bare(t) || t.len() == 0,
        forall|i: int| 0 <= i < a.len() ==> is_white_space(#[trigger] a[i]),
        forall|i: int| 0 <= i < b.len() ==> is_white_space(#[trigger] b[i]),
    ensures
        entered(None) is None,
        bare(t) ==> entered(Some(a + t + b)) == Some(t),
        t.len() == 0 ==> entered(Some(a + t + b)) is None,
{
    if bare(t) {
        white_space_around_a_text_is_taken_off(a, t, b);
    } else {
        let s = a + t + b;
        assert forall|i: int| 0 <= i < s.len() implies is_white_space(#[trigger] s[i]) by {
            if i < a.len() {
                assert(s[i] == a[i]);
            } else {
                assert(s[i] == b[i - a.len()]);
            }
        }
        bare_text_is_taken_in_as_it_stands(s);
    }
}

/// Two texts that differ are still told apart once they are escaped character
/// by character: each character has a form of its own.
pub proof fn each_character_has_a_form_of_its_own(c: char, d: char)
    ensures
        escaped_char(c) == escaped_char(d) ==> c == d,
        escaped_char(c).len() > 0,
{
    reveal_strlit("&amp;");
    reveal_strlit("&lt;");
    reveal_strlit("&gt;");
    reveal_strlit("&quot;");
    assert("&amp;"@.len() == 5 && "&lt;"@.len() == 4 && "&gt;"@.len() == 4 && "&quot;"@.len() == 6);
    assert("&lt;"@[1] == 'l' && "&gt;"@[1] == 'g');
    if escaped_char(c) == escaped_char(d) {
        assert(seq![c][0] == c && seq![d][0] == d);
        assert(seq![c].len() == 1 && seq![d].len() == 1);
    }
}

} // verus!
