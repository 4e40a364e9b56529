//! Searching the archive. The console's form is read leniently and says what it
//! ignored; the API rejects what it does not understand. Neither drops a facet
//! in silence.

use vstd::prelude::*;
use crate::collection_screens::{notes_truncation, truncation, Truncation};
use crate::console::{ConsoleCtx, Section};
use crate::error::{fails, invalid, AppError, ErrorView};
use crate::form::{
    all_values, collected_values_were_submitted, comes_first, field, first_value, multi,
    the_earliest_value_counts,
};
use crate::id::{read_uuid, uuid_text, Uuid};
use crate::lists::take_all;
use crate::model::{Arrangement, Instrument, Tag};
use crate::number::{decimal, int_text, read_i32, read_int, text_reads_back};
use crate::reply::{error_at, refused, Reply, ReplyView};
use crate::text::{
    join, same, split, split_all, splitting_undoes_joining, text_of, texts, trim, trimmed,
};
use crate::urls::{arrangement_path, arrangement_url};

verus! {

/// What to search for.
pub struct ArrangementSearch {
    pub q: Option<String>,
    pub status: Option<String>,
    pub difficulty_min: Option<i16>,
    pub difficulty_max: Option<i16>,
    pub duration_min_seconds: Option<i32>,
    pub duration_max_seconds: Option<i32>,
    pub tag_ids: Vec<Uuid>,
    pub instrument_id: Option<Uuid>,
}

/// The search form as it was submitted. Every field stays a text, so that a
/// half-typed number can be shown again.
pub struct SearchForm {
    pub q: String,
    pub status: String,
    pub difficulty_min: String,
    pub difficulty_max: String,
    pub duration_max_minutes: String,
    pub tag: Vec<String>,
    pub instrument_id: String,
    pub sort: String,
}

/// The value submitted under `key`, empty where there is none.
pub open spec fn one(pairs: Seq<(String, String)>, key: Seq<char>) -> Seq<char> {
    match first_value(pairs, key) {
        Some(v) => v,
        None => Seq::empty(),
    }
}

fn take_one(pairs: &Vec<(String, String)>, key: &str) -> (r: String)
    ensures
        r@ == one(pairs@, key@),
{
    match field(pairs, key) {
        Some(v) => v.to_owned(),
        None => String::new(),
    }
}

impl SearchForm {
    /// Whether the form holds what was submitted.
    pub open spec fn reads(self, pairs: Seq<(String, String)>) -> bool {
        &&& self.q@ == one(pairs, "q"@)
        &&& self.status@ == one(pairs, "status"@)
        &&& self.difficulty_min@ == one(pairs, "difficulty_min"@)
        &&& self.difficulty_max@ == one(pairs, "difficulty_max"@)
        &&& self.duration_max_minutes@ == one(pairs, "duration_max_minutes"@)
        &&& texts(self.tag@) == all_values(pairs, "tag"@)
        &&& self.instrument_id@ == one(pairs, "instrument_id"@)
        &&& self.sort@ == one(pairs, "sort"@)
    }

    /// Reads the form off the query string.
    pub fn from_pairs(pairs: &Vec<(String, String)>) -> (r: SearchForm)
        ensures
            r.reads(pairs@),
    {
        SearchForm {
            q: take_one(pairs, "q"),
            status: take_one(pairs, "status"),
            difficulty_min: take_one(pairs, "difficulty_min"),
            difficulty_max: take_one(pairs, "difficulty_max"),
            duration_max_minutes: take_one(pairs, "duration_max_minutes"),
            tag: multi(pairs, "tag"),
            instrument_id: take_one(pairs, "instrument_id"),
            sort: take_one(pairs, "sort"),
        }
    }

    /// Whether the form asks for nothing in particular.
    pub open spec fn asks_nothing(self) -> bool {
        &&& trimmed(self.q@).len() == 0
        &&& self.status@.len() == 0
        &&& self.difficulty_min@.len() == 0
        &&& self.difficulty_max@.len() == 0
        &&& self.duration_max_minutes@.len() == 0
        &&& self.tag@.len() == 0
        &&& self.instrument_id@.len() == 0
    }

    /// Whether the form asks for nothing in particular.
    pub fn is_empty(&self) -> (r: bool)
        ensures
            r == self.asks_nothing(),
    {
        trim(self.q.as_str()).is_empty() && self.status.as_str().is_empty()
            && self.difficulty_min.as_str().is_empty() && self.difficulty_max.as_str().is_empty()
            && self.duration_max_minutes.as_str().is_empty() && self.tag.is_empty()
            && self.instrument_id.as_str().is_empty()
    }
}

/// A box of the form that could not be understood.
pub struct Complaint {
    pub field: &'static str,
    pub message: String,
}

/// The complaints as mathematical values.
pub open spec fn complaint_views(v: Seq<Complaint>) -> Seq<(Seq<char>, Seq<char>)> {
    v.map_values(|c: Complaint| (c.field@, c.message@))
}

/// What is said of a value that is not what its box asks for.
pub open spec fn ignored(value: Seq<char>, what: Seq<char>) -> Seq<char> {
    "'"@ + value + "' is not "@ + what + " — that filter was ignored."@
}

fn push_ignored(complaints: &mut Vec<Complaint>, field: &'static str, value: &str, what: &str)
    ensures
        complaint_views(final(complaints)@) == complaint_views(old(complaints)@).push(
            (field@, ignored(value@, what@)),
        ),
{
    let mut message: String = "'".to_owned();
    message.append(value);
    message.append("' is not ");
    message.append(what);
    message.append(" — that filter was ignored.");
    complaints.push(Complaint { field, message });
    assert(complaint_views(complaints@) == complaint_views(old(complaints)@).push(
        (field@, ignored(value@, what@)),
    ));
}

/// The number in a box, if it holds one from `lo` to `hi`.
pub open spec fn box_number(raw: Seq<char>, lo: int, hi: int) -> Option<int> {
    if trimmed(raw).len() == 0 {
        None
    } else {
        read_int(trimmed(raw), lo, hi)
    }
}

/// The complaint about a number box: there is one where it is filled in with
/// something else.
pub open spec fn box_complaint(
    raw: Seq<char>,
    lo: int,
    hi: int,
    field: Seq<char>,
    what: Seq<char>,
) -> Seq<(Seq<char>, Seq<char>)> {
    if trimmed(raw).len() > 0 && read_int(trimmed(raw), lo, hi) is None {
        seq![(field, ignored(trimmed(raw), what))]
    } else {
        seq![]
    }
}

/// Reads a number box, complaining where it holds something else.
pub fn parse_number(
    raw: &str,
    lo: i32,
    hi: i32,
    field: &'static str,
    what: &str,
    complaints: &mut Vec<Complaint>,
) -> (r: Option<i32>)
    ensures
        match r {
            Some(n) => box_number(raw@, lo as int, hi as int) == Some(n as int),
            None => box_number(raw@, lo as int, hi as int) is None,
        },
        complaint_views(final(complaints)@) == complaint_views(old(complaints)@) + box_complaint(
            raw@,
            lo as int,
            hi as int,
            field@,
            what@,
        ),
{
    let t: &str = trim(raw);
    if t.is_empty() {
        assert(complaint_views(complaints@) == complaint_views(old(complaints)@) + Seq::<
            (Seq<char>, Seq<char>),
        >::empty());
        return None;
    }
    if let Some(n) = read_i32(t) {
        if lo <= n && n <= hi {
            assert(complaint_views(complaints@) == complaint_views(old(complaints)@) + Seq::<
                (Seq<char>, Seq<char>),
            >::empty());
            return Some(n);
        }
    }
    push_ignored(complaints, field, t, what);
    assert(complaint_views(complaints@) == complaint_views(old(complaints)@) + box_complaint(
        raw@,
        lo as int,
        hi as int,
        field@,
        what@,
    ));
    None
}

/// The complaint about an identifier box.
pub open spec fn id_complaint(raw: Seq<char>, field: Seq<char>) -> Seq<(Seq<char>, Seq<char>)> {
    if read_uuid(trimmed(raw)) is None {
        seq![(field, ignored(trimmed(raw), "a valid id"@))]
    } else {
        seq![]
    }
}

/// Reads an identifier box, complaining where it holds something else.
pub fn parse_id(raw: &str, field: &'static str, complaints: &mut Vec<Complaint>) -> (r: Option<Uuid>)
    ensures
        r == read_uuid(trimmed(raw@)),
        complaint_views(final(complaints)@) == complaint_views(old(complaints)@) + id_complaint(
            raw@,
            field@,
        ),
{
    let t: &str = trim(raw);
    match Uuid::parse_str(t) {
        Some(id) => {
            assert(complaint_views(complaints@) == complaint_views(old(complaints)@)
                + id_complaint(raw@, field@));
            Some(id)
        },
        None => {
            push_ignored(complaints, field, t, "a valid id");
            assert(complaint_views(complaints@) == complaint_views(old(complaints)@)
                + id_complaint(raw@, field@));
            None
        },
    }
}

/// The tags among the submitted values.
pub open spec fn tags_in(values: Seq<Seq<char>>) -> Seq<Uuid>
    decreases values.len(),
{
    if values.len() == 0 {
        Seq::empty()
    } else {
        let init = tags_in(values.drop_last());
        if values.last().len() == 0 {
            init
        } else {
            match read_uuid(trimmed(values.last())) {
                Some(id) => init.push(id),
                None => init,
            }
        }
    }
}

/// The complaints about the submitted tags.
pub open spec fn tag_complaints(values: Seq<Seq<char>>) -> Seq<(Seq<char>, Seq<char>)>
    decreases values.len(),
{
    if values.len() == 0 {
        Seq::empty()
    } else {
        let init = tag_complaints(values.drop_last());
        if values.last().len() == 0 {
            init
        } else {
            init + id_complaint(values.last(), "Tags"@)
        }
    }
}

/// `n` minutes in seconds, held within what an `i32` can say.
pub open spec fn seconds(n: int) -> int {
    if n * 60 > i32::MAX {
        i32::MAX as int
    } else if n * 60 < i32::MIN {
        i32::MIN as int
    } else {
        n * 60
    }
}

fn to_seconds(n: i32) -> (r: i32)
    ensures
        r == seconds(n as int),
{
    let s: i64 = (n as i64) * 60;
    if s > i32::MAX as i64 {
        i32::MAX
    } else if s < i32::MIN as i64 {
        i32::MIN
    } else {
        s as i32
    }
}

/// A text, unless it is empty.
pub open spec fn nonempty(t: Seq<char>) -> Option<Seq<char>> {
    if t.len() == 0 {
        None
    } else {
        Some(t)
    }
}

fn keep(t: &str) -> (r: Option<String>)
    ensures
        text_of(r) == nonempty(t@),
{
    if t.is_empty() {
        None
    } else {
        Some(t.to_owned())
    }
}

/// The complaints that a form gives rise to, box by box.
pub open spec fn form_complaints(f: SearchForm) -> Seq<(Seq<char>, Seq<char>)> {
    tag_complaints(texts(f.tag@)) + box_complaint(
        f.duration_max_minutes@,
        i32::MIN as int,
        i32::MAX as int,
        "Longest"@,
        "a whole number of minutes"@,
    ) + box_complaint(
        f.difficulty_min@,
        i16::MIN as int,
        i16::MAX as int,
        "Difficulty from"@,
        "a whole number"@,
    ) + box_complaint(
        f.difficulty_max@,
        i16::MIN as int,
        i16::MAX as int,
        "Difficulty to"@,
        "a whole number"@,
    ) + (if trimmed(f.instrument_id@).len() == 0 {
        seq![]
    } else {
        id_complaint(f.instrument_id@, "Instrument"@)
    })
}

/// Whether `s` searches for what the form asks for.
pub open spec fn searches_for(s: ArrangementSearch, f: SearchForm) -> bool {
    &&& text_of(s.q) == nonempty(trimmed(f.q@))
    &&& text_of(s.status) == nonempty(f.status@)
    &&& match s.difficulty_min {
        Some(n) => box_number(f.difficulty_min@, i16::MIN as int, i16::MAX as int) == Some(
            n as int,
        ),
        None => box_number(f.difficulty_min@, i16::MIN as int, i16::MAX as int) is None,
    }
    &&& match s.difficulty_max {
        Some(n) => box_number(f.difficulty_max@, i16::MIN as int, i16::MAX as int) == Some(
            n as int,
        ),
        None => box_number(f.difficulty_max@, i16::MIN as int, i16::MAX as int) is None,
    }
    &&& s.duration_min_seconds is None
    &&& match s.duration_max_seconds {
        Some(n) => box_number(f.duration_max_minutes@, i32::MIN as int, i32::MAX as int) matches
            Some(m) && n == seconds(m),
        None => box_number(f.duration_max_minutes@, i32::MIN as int, i32::MAX as int) is None,
    }
    &&& s.tag_ids@ == tags_in(texts(f.tag@))
    &&& s.instrument_id == (if trimmed(f.instrument_id@).len() == 0 {
        None
    } else {
        read_uuid(trimmed(f.instrument_id@))
    })
}

/// Whether `r` is what [`plan_search`] owes its caller.
pub open spec fn plan_search_outcome(
    r: (ArrangementSearch, Vec<Complaint>),
    f: SearchForm,
) -> bool {
    &&& searches_for(r.0, f)
    &&& complaint_views(r.1@) == form_complaints(f)
}

/// What the console's form searches for, and what it had to ignore.
pub fn plan_search(f: &SearchForm) -> (r: (ArrangementSearch, Vec<Complaint>))
    ensures
        plan_search_outcome(r, *f),
{
    let mut complaints: Vec<Complaint> = Vec::new();
    let mut tag_ids: Vec<Uuid> = Vec::new();
    let ghost values = texts(f.tag@);
    let mut i: usize = 0;
    assert(values.take(0) == Seq::<Seq<char>>::empty());
    assert(complaint_views(complaints@) == Seq::<(Seq<char>, Seq<char>)>::empty());
    while i < f.tag.len()
        invariant
            i <= f.tag.len(),
            values == texts(f.tag@),
            tag_ids@ == tags_in(values.take(i as int)),
            complaint_views(complaints@) == tag_complaints(values.take(i as int)),
        decreases f.tag.len() - i,
    {
        assert(values.take(i + 1).drop_last() == values.take(i as int));
        assert(values.take(i + 1).last() == f.tag@[i as int]@);
        if !f.tag[i].as_str().is_empty() {
            if let Some(id) = parse_id(f.tag[i].as_str(), "Tags", &mut complaints) {
                tag_ids.push(id);
            }
        }
        i = i + 1;
    }
    proof {
        take_all(values);
    }
    let minutes: Option<i32> = parse_number(
        f.duration_max_minutes.as_str(),
        i32::MIN,
        i32::MAX,
        "Longest",
        "a whole number of minutes",
        &mut complaints,
    );
    let from: Option<i32> = parse_number(
        f.difficulty_min.as_str(),
        -32768,
        32767,
        "Difficulty from",
        "a whole number",
        &mut complaints,
    );
    let to: Option<i32> = parse_number(
        f.difficulty_max.as_str(),
        -32768,
        32767,
        "Difficulty to",
        "a whole number",
        &mut complaints,
    );
    let ghost before = complaint_views(complaints@);
    let instrument_id: Option<Uuid> = if trim(f.instrument_id.as_str()).is_empty() {
        assert(before == before + Seq::<(Seq<char>, Seq<char>)>::empty());
        None
    } else {
        parse_id(f.instrument_id.as_str(), "Instrument", &mut complaints)
    };
    let search: ArrangementSearch = ArrangementSearch {
        q: keep(trim(f.q.as_str())),
        status: keep(f.status.as_str()),
        difficulty_min: match from {
            Some(n) => Some(n as i16),
            None => None,
        },
        difficulty_max: match to {
            Some(n) => Some(n as i16),
            None => None,
        },
        duration_min_seconds: None,
        duration_max_seconds: match minutes {
            Some(n) => Some(to_seconds(n)),
            None => None,
        },
        tag_ids,
        instrument_id,
    };
    (search, complaints)
}

/// Every tag that was submitted is searched for or complained about.
pub proof fn no_tag_is_dropped_in_silence(values: Seq<Seq<char>>)
    requires
        forall|i: int| 0 <= i < values.len() ==> (#[trigger] values[i]).len() > 0,
    ensures
        tags_in(values).len() + tag_complaints(values).len() == values.len(),
    decreases values.len(),
{
    if values.len() > 0 {
        let init = values.drop_last();
        assert forall|i: int| 0 <= i < init.len() implies (#[trigger] init[i]).len() > 0 by {
            assert(init[i] == values[i]);
        }
        no_tag_is_dropped_in_silence(init);
        assert(values.last() == values[values.len() - 1]);
    }
}

/// A number box that is filled in is searched for or complained about.
pub proof fn no_number_is_dropped_in_silence(
    raw: Seq<char>,
    lo: int,
    hi: int,
    field: Seq<char>,
    what: Seq<char>,
)
    ensures
        trimmed(raw).len() > 0 ==> (box_number(raw, lo, hi) is Some <==> box_complaint(
            raw,
            lo,
            hi,
            field,
            what,
        ).len() == 0),
        trimmed(raw).len() == 0 ==> box_number(raw, lo, hi) is None && box_complaint(
            raw,
            lo,
            hi,
            field,
            what,
        ).len() == 0,
{
}

/// One where `b` holds, none where it does not.
pub open spec fn one_if(b: bool) -> nat {
    if b {
        1
    } else {
        0
    }
}

/// How many facets of the form are filled in that have to be read: the tags,
/// the three number boxes and the instrument.
pub open spec fn facets_filled(f: SearchForm) -> nat {
    f.tag@.len() + one_if(trimmed(f.duration_max_minutes@).len() > 0) + one_if(
        trimmed(f.difficulty_min@).len() > 0,
    ) + one_if(trimmed(f.difficulty_max@).len() > 0) + one_if(trimmed(f.instrument_id@).len() > 0)
}

/// How many such facets a search applies.
pub open spec fn facets_applied(s: ArrangementSearch) -> nat {
    s.tag_ids@.len() + one_if(s.duration_max_seconds is Some) + one_if(s.difficulty_min is Some)
        + one_if(s.difficulty_max is Some) + one_if(s.instrument_id is Some)
}

/// Each facet that is filled in is either applied or named in one complaint,
/// and there is no other complaint.
pub proof fn each_facet_is_applied_or_complained_about(f: SearchForm, s: ArrangementSearch)
    requires
        searches_for(s, f),
        forall|i: int| 0 <= i < f.tag@.len() ==> (#[trigger] f.tag@[i])@.len() > 0,
    ensures
        facets_filled(f) == facets_applied(s) + form_complaints(f).len(),
{
    let values = texts(f.tag@);
    assert forall|i: int| 0 <= i < values.len() implies (#[trigger] values[i]).len() > 0 by {
        assert(values[i] == f.tag@[i]@);
    }
    no_tag_is_dropped_in_silence(values);
}

/// Whether `r` is what [`choose_sort`] owes its caller.
pub open spec fn choose_sort_outcome(r: Option<String>, form_sort: &str, has_query: bool) -> bool {
    text_of(r) == (if form_sort@.len() == 0 && has_query {
        Some("relevance"@)
    } else {
        nonempty(form_sort@)
    })
}

/// The order that results are asked for in: the best match first where there is
/// something to match and no order was chosen.
pub fn choose_sort(form_sort: &str, has_query: bool) -> (r: Option<String>)
    ensures
        choose_sort_outcome(r, form_sort, has_query),
{
    if form_sort.is_empty() && has_query {
        Some("relevance".to_owned())
    } else {
        keep(form_sort)
    }
}

/// The order that results come in.
pub enum SearchOrder {
    /// By a column that the order asked for stands for.
    Resolved { column: String, ascending: bool },
    /// By title, from A to Z.
    TitleAscending,
}

/// Whether `r` is what [`settle_order`] owes its caller.
pub open spec fn settle_order_outcome(r: SearchOrder, resolved: Option<(String, bool)>) -> bool {
    match resolved {
        Some((column, ascending)) => r == (SearchOrder::Resolved { column, ascending }),
        None => r == SearchOrder::TitleAscending,
    }
}

/// The order that results come in, `resolved` being what the order asked for
/// stands for; `None` where there is no such order, which is no reason to
/// refuse a search.
pub fn settle_order(resolved: Option<(String, bool)>) -> (r: SearchOrder)
    ensures
        settle_order_outcome(r, resolved),
{
    match resolved {
        Some((column, ascending)) => SearchOrder::Resolved { column, ascending },
        None => SearchOrder::TitleAscending,
    }
}

/// The order that a form asks for.
pub open spec fn asked_order(f: SearchForm) -> Option<Seq<char>> {
    if f.sort@.len() == 0 && trimmed(f.q@).len() > 0 {
        Some("relevance"@)
    } else {
        nonempty(f.sort@)
    }
}

/// A search that is about to be run.
pub struct SearchPlan {
    pub search: ArrangementSearch,
    /// The order asked for, to be resolved and then settled.
    pub sort: Option<String>,
}

/// Whether `r` is what [`open_search`] owes its caller.
pub open spec fn open_search_outcome(
    r: Result<SearchPlan, Reply>,
    ctx: ConsoleCtx,
    form: SearchForm,
) -> bool {
    &&& !ctx.access_of().staff() ==> refused(r, ReplyView::SectionForbidden)
    &&& ctx.access_of().staff() ==> {
        &&& r is Ok
        &&& searches_for(r->Ok_0.search, form)
        &&& text_of(r->Ok_0.sort) == asked_order(form)
    }
}

/// Lets staff search for what the form asks for, whatever was typed into it.
pub fn open_search(ctx: &ConsoleCtx, form: &SearchForm) -> (r: Result<SearchPlan, Reply>)
    ensures
        open_search_outcome(r, *ctx, *form),
{
    if !ctx.is_staff() {
        return Err(Reply::SectionForbidden);
    }
    let (search, _): (ArrangementSearch, Vec<Complaint>) = plan_search(form);
    let sort: Option<String> = choose_sort(form.sort.as_str(), search.q.is_some());
    Ok(SearchPlan { search, sort })
}

/// A duration as minutes and seconds.
pub open spec fn clock_text(s: int) -> Seq<char> {
    let minutes = if s < 0 {
        -((-s) / 60)
    } else {
        s / 60
    };
    let rest = if s < 0 {
        -((-s) % 60)
    } else {
        s % 60
    };
    int_text(minutes) + ":"@ + (if 0 <= rest < 10 {
        "0"@ + int_text(rest)
    } else {
        int_text(rest)
    })
}

/// A duration as minutes and seconds, as in `14:05`.
pub fn clock(s: i32) -> (r: String)
    ensures
        r@ == clock_text(s as int),
{
    let wide: i64 = s as i64;
    let (minutes, rest): (i64, i64) = if wide < 0 {
        let up: i64 = -wide;
        (-(up / 60), -(up % 60))
    } else {
        (wide / 60, wide % 60)
    };
    let mut out: String = decimal(minutes);
    out.append(":");
    if 0 <= rest && rest < 10 {
        let mut two: String = "0".to_owned();
        two.append(decimal(rest).as_str());
        out.append(two.as_str());
    } else {
        out.append(decimal(rest).as_str());
    }
    out
}

/// A result.
pub struct ResultRow {
    pub title: String,
    pub href: String,
    pub difficulty: String,
    pub duration: String,
    pub status: String,
}

/// Whether `row` shows the arrangement `a`.
pub open spec fn shows_result(row: ResultRow, a: Arrangement, org: Uuid) -> bool {
    &&& row.title == a.title
    &&& row.href@ == arrangement_url(org, a.id)
    &&& row.difficulty@ == (match a.difficulty {
        Some(d) => int_text(d as int),
        None => "—"@,
    })
    &&& row.duration@ == (match a.duration_seconds {
        Some(s) => clock_text(s as int),
        None => "—"@,
    })
    &&& row.status == a.status
}

/// A choice of the form: which are selected follows from what was submitted.
pub struct Choice {
    pub id: Uuid,
    pub label: String,
    pub kind: Option<String>,
    pub selected: bool,
}

/// The instruments as choices.
pub open spec fn instrument_choices(instruments: Seq<Instrument>, chosen: Seq<char>) -> Seq<Choice> {
    instruments.map_values(
        |i: Instrument|
            Choice {
                id: i.id,
                label: i.display_name,
                kind: None,
                selected: chosen == uuid_text(i.id),
            },
    )
}

/// The tags as choices.
pub open spec fn tag_choices(tags: Seq<Tag>, chosen: Seq<Seq<char>>) -> Seq<Choice> {
    tags.map_values(
        |t: Tag|
            Choice {
                id: t.id,
                label: t.name,
                kind: t.kind,
                selected: chosen.contains(uuid_text(t.id)),
            },
    )
}

fn contains_text(v: &Vec<String>, t: &str) -> (r: bool)
    ensures
        r == texts(v@).contains(t@),
{
    let mut i: usize = 0;
    while i < v.len()
        invariant
            i <= v.len(),
            forall|k: int| 0 <= k < i ==> #[trigger] texts(v@)[k] != t@,
        decreases v.len() - i,
    {
        assert(texts(v@)[i as int] == v@[i as int]@);
        if same(v[i].as_str(), t) {
            return true;
        }
        i = i + 1;
    }
    false
}

fn instrument_options(instruments: &Vec<Instrument>, chosen: &String) -> (r: Vec<Choice>)
    ensures
        r@ == instrument_choices(instruments@, chosen@),
{
    let mut out: Vec<Choice> = Vec::new();
    let mut i: usize = 0;
    while i < instruments.len()
        invariant
            i <= instruments.len(),
            out@ == instrument_choices(instruments@, chosen@).take(i as int),
        decreases instruments.len() - i,
    {
        let x: &Instrument = &instruments[i];
        out.push(
            Choice {
                id: x.id,
                label: x.display_name.clone(),
                kind: None,
                selected: same(chosen.as_str(), x.id.text().as_str()),
            },
        );
        assert(out@ == instrument_choices(instruments@, chosen@).take(i + 1));
        i = i + 1;
    }
    proof {
        take_all(instrument_choices(instruments@, chosen@));
    }
    out
}

fn tag_options(tags: &Vec<Tag>, chosen: &Vec<String>) -> (r: Vec<Choice>)
    ensures
        r@ == tag_choices(tags@, texts(chosen@)),
{
    let mut out: Vec<Choice> = Vec::new();
    let mut i: usize = 0;
    while i < tags.len()
        invariant
            i <= tags.len(),
            out@ == tag_choices(tags@, texts(chosen@)).take(i as int),
        decreases tags.len() - i,
    {
        let t: &Tag = &tags[i];
        out.push(
            Choice {
                id: t.id,
                label: t.name.clone(),
                kind: t.kind.clone(),
                selected: contains_text(chosen, t.id.text().as_str()),
            },
        );
        assert(out@ == tag_choices(tags@, texts(chosen@)).take(i + 1));
        i = i + 1;
    }
    proof {
        take_all(tag_choices(tags@, texts(chosen@)));
    }
    out
}

/// The search screen.
pub struct SearchPage {
    /// Whether there is something to match.
    pub has_query: bool,
    pub instruments: Vec<Choice>,
    pub tags: Vec<Choice>,
    /// What was typed and could not be understood.
    pub complaints: Vec<Complaint>,
    pub heading: &'static str,
    pub total: i64,
    pub rows: Vec<ResultRow>,
    pub truncated: Option<Truncation>,
}

/// Whether `r` is what [`search_page`] owes its caller.
pub open spec fn search_page_outcome(
    r: Result<SearchPage, Reply>,
    ctx: ConsoleCtx,
    form: SearchForm,
    tags: Vec<Tag>,
    instruments: Vec<Instrument>,
    found: Option<(&Vec<Arrangement>, i64)>,
) -> bool {
    &&& !ctx.access_of().staff() ==> refused(r, ReplyView::SectionForbidden)
    &&& ctx.access_of().staff() ==> match found {
        None => refused(
            r,
            error_at(Section::Search, 500, "The search could not be run."@),
        ),
        Some((results, total)) => {
            &&& r is Ok
            &&& r->Ok_0.has_query == (trimmed(form.q@).len() > 0)
            &&& r->Ok_0.instruments@ == instrument_choices(
                instruments@,
                form.instrument_id@,
            )
            &&& r->Ok_0.tags@ == tag_choices(tags@, texts(form.tag@))
            &&& complaint_views(r->Ok_0.complaints@) == form_complaints(form)
            &&& r->Ok_0.heading@ == (if form.asks_nothing() {
                "All arrangements"@
            } else {
                "Results"@
            })
            &&& r->Ok_0.total == total
            &&& r->Ok_0.rows@.len() == results@.len()
            &&& forall|i: int|
                0 <= i < results@.len() ==> shows_result(
                    #[trigger] r->Ok_0.rows@[i],
                    results@[i],
                    ctx.org_of().id,
                )
            &&& notes_truncation(r->Ok_0.truncated, results@.len(), total)
        },
    }
}

/// The search screen. `found` is `None` where the search could not be run.
pub fn search_page(
    ctx: &ConsoleCtx,
    form: &SearchForm,
    tags: &Vec<Tag>,
    instruments: &Vec<Instrument>,
    found: Option<(&Vec<Arrangement>, i64)>,
) -> (r: Result<SearchPage, Reply>)
    ensures
        search_page_outcome(r, *ctx, *form, *tags, *instruments, found),
{
    if !ctx.is_staff() {
        return Err(Reply::SectionForbidden);
    }
    let (results, total): (&Vec<Arrangement>, i64) = match found {
        Some(found) => found,
        None => return Err(
            Reply::error_page(Section::Search, 500, "The search could not be run."),
        ),
    };
    let (_, complaints): (ArrangementSearch, Vec<Complaint>) = plan_search(form);
    let org: Uuid = ctx.org().id;
    let mut rows: Vec<ResultRow> = Vec::new();
    let mut i: usize = 0;
    while i < results.len()
        invariant
            i <= results.len(),
            rows@.len() == i,
            forall|k: int| 0 <= k < i ==> shows_result(#[trigger] rows@[k], results@[k], org),
        decreases results.len() - i,
    {
        let a: &Arrangement = &results[i];
        rows.push(
            ResultRow {
                title: a.title.clone(),
                href: arrangement_path(org, a.id),
                difficulty: match a.difficulty {
                    Some(d) => decimal(d as i64),
                    None => "—".to_owned(),
                },
                duration: match a.duration_seconds {
                    Some(s) => clock(s),
                    None => "—".to_owned(),
                },
                status: a.status.clone(),
            },
        );
        i = i + 1;
    }
    Ok(
        SearchPage {
            has_query: !trim(form.q.as_str()).is_empty(),
            instruments: instrument_options(instruments, &form.instrument_id),
            tags: tag_options(tags, &form.tag),
            complaints,
            heading: if form.is_empty() {
                "All arrangements"
            } else {
                "Results"
            },
            total,
            rows,
            truncated: truncation(results.len(), total),
        },
    )
}

/// The value of a filter, unless it is empty.
pub open spec fn facet(filters: Seq<(String, String)>, name: Seq<char>) -> Option<Seq<char>> {
    match first_value(filters, name) {
        Some(v) => nonempty(v),
        None => None,
    }
}

fn read_facet<'a>(filters: &'a Vec<(String, String)>, name: &str) -> (r: Option<&'a str>)
    ensures
        match r {
            Some(v) => facet(filters@, name@) == Some(v@),
            None => facet(filters@, name@) is None,
        },
{
    match field(filters, name) {
        Some(v) => {
            if v.is_empty() {
                None
            } else {
                Some(v)
            }
        },
        None => None,
    }
}

/// The error for a filter that is not what is expected of it.
pub open spec fn unexpected(name: Seq<char>, expected: Seq<char>, raw: Seq<char>) -> ErrorView {
    invalid("filter["@ + name + "]"@, "expected "@ + expected + ", got '"@ + raw + "'"@)
}

fn unexpected_error(name: &str, expected: &str, raw: &str) -> (r: AppError)
    ensures
        r@ == unexpected(name@, expected@, raw@),
{
    let mut f: String = "filter[".to_owned();
    f.append(name);
    f.append("]");
    let mut m: String = "expected ".to_owned();
    m.append(expected);
    m.append(", got '");
    m.append(raw);
    m.append("'");
    AppError::invalid(f.as_str(), m.as_str())
}

/// The error for a filter that should hold a whole number from `lo` to `hi`.
pub open spec fn number_error(
    filters: Seq<(String, String)>,
    name: Seq<char>,
    expected: Seq<char>,
    lo: int,
    hi: int,
) -> Option<ErrorView> {
    match facet(filters, name) {
        Some(raw) => if read_int(raw, lo, hi) is None {
            Some(unexpected(name, expected, raw))
        } else {
            None
        },
        None => None,
    }
}

/// The number that a filter holds.
pub open spec fn facet_number(
    filters: Seq<(String, String)>,
    name: Seq<char>,
    lo: int,
    hi: int,
) -> Option<int> {
    match facet(filters, name) {
        Some(raw) => read_int(raw, lo, hi),
        None => None,
    }
}

fn number_facet(
    filters: &Vec<(String, String)>,
    name: &str,
    expected: &str,
    lo: i32,
    hi: i32,
) -> (r: Result<Option<i32>, AppError>)
    ensures
        match r {
            Err(e) => number_error(filters@, name@, expected@, lo as int, hi as int) == Some(e@),
            Ok(n) => {
                &&& number_error(filters@, name@, expected@, lo as int, hi as int) is None
                &&& match n {
                    Some(n) => facet_number(filters@, name@, lo as int, hi as int) == Some(
                        n as int,
                    ),
                    None => facet(filters@, name@) is None,
                }
            },
        },
{
    match read_facet(filters, name) {
        None => Ok(None),
        Some(raw) => {
            if let Some(n) = read_i32(raw) {
                if lo <= n && n <= hi {
                    return Ok(Some(n));
                }
            }
            Err(unexpected_error(name, expected, raw))
        },
    }
}

/// The tags named in a list of texts: trimmed, empty ones passed over. The
/// first that is not an identifier is what is wrong with the list.
pub open spec fn listed_tags(parts: Seq<Seq<char>>) -> Result<Seq<Uuid>, Seq<char>>
    decreases parts.len(),
{
    if parts.len() == 0 {
        Ok(Seq::empty())
    } else {
        match listed_tags(parts.drop_last()) {
            Err(bad) => Err(bad),
            Ok(ids) => {
                let part = trimmed(parts.last());
                if part.len() == 0 {
                    Ok(ids)
                } else {
                    match read_uuid(part) {
                        Some(id) => Ok(ids.push(id)),
                        None => Err(part),
                    }
                }
            },
        }
    }
}

/// The error for a list of tags.
pub open spec fn tag_list_error(bad: Seq<char>) -> ErrorView {
    invalid(
        "filter[tag]"@,
        "expected a comma-separated list of tag ids, got '"@ + bad + "'"@,
    )
}

/// The tags that the filters name.
pub open spec fn facet_tags(filters: Seq<(String, String)>) -> Result<Seq<Uuid>, Seq<char>> {
    match facet(filters, "tag"@) {
        Some(raw) => listed_tags(split(raw, ',')),
        None => Ok(Seq::empty()),
    }
}

fn tags_facet(filters: &Vec<(String, String)>) -> (r: Result<Vec<Uuid>, AppError>)
    ensures
        match facet_tags(filters@) {
            Ok(ids) => r is Ok && r->Ok_0@ == ids,
            Err(bad) => fails(r, tag_list_error(bad)),
        },
{
    let mut out: Vec<Uuid> = Vec::new();
    let raw: &str = match read_facet(filters, "tag") {
        Some(raw) => raw,
        None => return Ok(out),
    };
    let parts: Vec<String> = split_all(raw, ',');
    let ghost all = split(raw@, ',');
    let mut i: usize = 0;
    assert(all.take(0) == Seq::<Seq<char>>::empty());
    while i < parts.len()
        invariant
            i <= parts.len(),
            texts(parts@) == all,
            all == split(raw@, ','),
            facet(filters@, "tag"@) == Some(raw@),
            listed_tags(all.take(i as int)) == Ok::<Seq<Uuid>, Seq<char>>(out@),
        decreases parts.len() - i,
    {
        assert(all.take(i + 1).drop_last() == all.take(i as int));
        assert(all.take(i + 1).last() == parts@[i as int]@);
        let part: &str = trim(parts[i].as_str());
        if !part.is_empty() {
            match Uuid::parse_str(part) {
                Some(id) => out.push(id),
                None => {
                    proof {
                        assert(listed_tags(all.take(i + 1)) == Err::<Seq<Uuid>, Seq<char>>(part@));
                        lemma_bad_tag_stays(all, i + 1);
                    }
                    let mut m: String =
                        "expected a comma-separated list of tag ids, got '".to_owned();
                    m.append(part);
                    m.append("'");
                    return Err(AppError::invalid("filter[tag]", m.as_str()));
                },
            }
        }
        i = i + 1;
    }
    proof {
        take_all(all);
    }
    Ok(out)
}

proof fn lemma_bad_tag_stays(parts: Seq<Seq<char>>, n: int)
    requires
        0 <= n <= parts.len(),
        listed_tags(parts.take(n)) is Err,
    ensures
        listed_tags(parts) == listed_tags(parts.take(n)),
    decreases parts.len() - n,
{
    if n == parts.len() {
        take_all(parts);
    } else {
        assert(parts.take(n + 1).drop_last() == parts.take(n));
        lemma_bad_tag_stays(parts, n + 1);
    }
}

/// The error for a filter that should hold an instrument.
pub open spec fn instrument_error(filters: Seq<(String, String)>) -> Option<ErrorView> {
    match facet(filters, "instrumentId"@) {
        Some(raw) => if read_uuid(raw) is None {
            Some(unexpected("instrumentId"@, "a tag id"@, raw))
        } else {
            None
        },
        None => None,
    }
}

/// The first error among the filters.
pub open spec fn search_error(filters: Seq<(String, String)>) -> Option<ErrorView> {
    let i16_lo = i16::MIN as int;
    let i16_hi = i16::MAX as int;
    let i32_lo = i32::MIN as int;
    let i32_hi = i32::MAX as int;
    let n = "a whole number"@;
    let s = "a whole number of seconds"@;
    if facet_tags(filters) is Err {
        Some(tag_list_error(facet_tags(filters)->Err_0))
    } else if number_error(filters, "difficultyMin"@, n, i16_lo, i16_hi) is Some {
        number_error(filters, "difficultyMin"@, n, i16_lo, i16_hi)
    } else if number_error(filters, "difficultyMax"@, n, i16_lo, i16_hi) is Some {
        number_error(filters, "difficultyMax"@, n, i16_lo, i16_hi)
    } else if number_error(filters, "durationMinSeconds"@, s, i32_lo, i32_hi) is Some {
        number_error(filters, "durationMinSeconds"@, s, i32_lo, i32_hi)
    } else if number_error(filters, "durationMaxSeconds"@, s, i32_lo, i32_hi) is Some {
        number_error(filters, "durationMaxSeconds"@, s, i32_lo, i32_hi)
    } else {
        instrument_error(filters)
    }
}

/// Whether `r` is what the filters and the words searched for amount to.
pub open spec fn search_built(
    r: Result<ArrangementSearch, AppError>,
    filters: Seq<(String, String)>,
    q: Option<&str>,
) -> bool {
    match r {
        Err(e) => search_error(filters) == Some(e@),
        Ok(s) => {
            &&& search_error(filters) is None
            &&& text_of(s.q) == (match q {
                Some(q) => nonempty(q@),
                None => None,
            })
            &&& text_of(s.status) == facet(filters, "status"@)
            &&& match s.difficulty_min {
                Some(n) => facet_number(
                    filters,
                    "difficultyMin"@,
                    i16::MIN as int,
                    i16::MAX as int,
                ) == Some(n as int),
                None => facet(filters, "difficultyMin"@) is None,
            }
            &&& match s.difficulty_max {
                Some(n) => facet_number(
                    filters,
                    "difficultyMax"@,
                    i16::MIN as int,
                    i16::MAX as int,
                ) == Some(n as int),
                None => facet(filters, "difficultyMax"@) is None,
            }
            &&& match s.duration_min_seconds {
                Some(n) => facet_number(
                    filters,
                    "durationMinSeconds"@,
                    i32::MIN as int,
                    i32::MAX as int,
                ) == Some(n as int),
                None => facet(filters, "durationMinSeconds"@) is None,
            }
            &&& match s.duration_max_seconds {
                Some(n) => facet_number(
                    filters,
                    "durationMaxSeconds"@,
                    i32::MIN as int,
                    i32::MAX as int,
                ) == Some(n as int),
                None => facet(filters, "durationMaxSeconds"@) is None,
            }
            &&& facet_tags(filters) == Ok::<Seq<Uuid>, Seq<char>>(s.tag_ids@)
            &&& match s.instrument_id {
                Some(id) => facet(filters, "instrumentId"@) is Some && read_uuid(
                    facet(filters, "instrumentId"@)->0,
                ) == Some(id),
                None => facet(filters, "instrumentId"@) is None,
            }
        },
    }
}

/// Turns filters into a search. A value that does not read is an error, never a
/// facet that is left out.
pub fn build_search(filters: &Vec<(String, String)>, q: Option<&str>) -> (r: Result<
    ArrangementSearch,
    AppError,
>)
    ensures
        search_built(r, filters@, q),
{
    let tag_ids: Vec<Uuid> = match tags_facet(filters) {
        Ok(ids) => ids,
        Err(e) => return Err(e),
    };
    let difficulty_min: Option<i32> = match number_facet(
        filters,
        "difficultyMin",
        "a whole number",
        -32768,
        32767,
    ) {
        Ok(n) => n,
        Err(e) => return Err(e),
    };
    let difficulty_max: Option<i32> = match number_facet(
        filters,
        "difficultyMax",
        "a whole number",
        -32768,
        32767,
    ) {
        Ok(n) => n,
        Err(e) => return Err(e),
    };
    let duration_min_seconds: Option<i32> = match number_facet(
        filters,
        "durationMinSeconds",
        "a whole number of seconds",
        i32::MIN,
        i32::MAX,
    ) {
        Ok(n) => n,
        Err(e) => return Err(e),
    };
    let duration_max_seconds: Option<i32> = match number_facet(
        filters,
        "durationMaxSeconds",
        "a whole number of seconds",
        i32::MIN,
        i32::MAX,
    ) {
        Ok(n) => n,
        Err(e) => return Err(e),
    };
    let instrument_id: Option<Uuid> = match read_facet(filters, "instrumentId") {
        None => None,
        Some(raw) => match Uuid::parse_str(raw) {
            Some(id) => Some(id),
            None => return Err(unexpected_error("instrumentId", "a tag id", raw)),
        },
    };
    Ok(
        ArrangementSearch {
            q: match q {
                Some(q) => keep(q),
                None => None,
            },
            status: match read_facet(filters, "status") {
                Some(s) => Some(s.to_owned()),
                None => None,
            },
            difficulty_min: match difficulty_min {
                Some(n) => Some(n as i16),
                None => None,
            },
            difficulty_max: match difficulty_max {
                Some(n) => Some(n as i16),
                None => None,
            },
            duration_min_seconds,
            duration_max_seconds,
            tag_ids,
            instrument_id,
        },
    )
}

/// An accepted search leaves out no facet: each number filter that was given
/// was read.
pub proof fn no_facet_is_left_out(filters: Seq<(String, String)>)
    requires
        search_error(filters) is None,
    ensures
        facet(filters, "difficultyMin"@) is Some ==> facet_number(
            filters,
            "difficultyMin"@,
            i16::MIN as int,
            i16::MAX as int,
        ) is Some,
        facet(filters, "difficultyMax"@) is Some ==> facet_number(
            filters,
            "difficultyMax"@,
            i16::MIN as int,
            i16::MAX as int,
        ) is Some,
        facet(filters, "durationMinSeconds"@) is Some ==> facet_number(
            filters,
            "durationMinSeconds"@,
            i32::MIN as int,
            i32::MAX as int,
        ) is Some,
        facet(filters, "durationMaxSeconds"@) is Some ==> facet_number(
            filters,
            "durationMaxSeconds"@,
            i32::MIN as int,
            i32::MAX as int,
        ) is Some,
        facet(filters, "instrumentId"@) matches Some(raw) ==> read_uuid(raw) is Some,
        facet_tags(filters) is Ok,
{
}

/// Whether the filter `name` was given: the first pair of that name has a value
/// that is not empty.
pub open spec fn was_given(filters: Seq<(String, String)>, name: Seq<char>) -> bool {
    exists|i: int| #[trigger] comes_first(filters, name, i) && filters[i].1@.len() > 0
}

/// Whether `got` is the number that the filter `name` asks for: one exactly
/// where the filter was given, and then the one whose decimal text was.
pub open spec fn asked_number(
    got: Option<int>,
    filters: Seq<(String, String)>,
    name: Seq<char>,
    lo: int,
    hi: int,
) -> bool {
    &&& got is Some <==> was_given(filters, name)
    &&& got matches Some(n) ==> lo <= n <= hi
    &&& forall|i: int, n: int| #[trigger]
        comes_first(filters, name, i) && lo <= n <= hi && filters[i].1@ == #[trigger] int_text(n)
            ==> got == Some(n)
    &&& forall|i: int| #[trigger]
        comes_first(filters, name, i) && filters[i].1@.len() > 0 ==> read_int(
            filters[i].1@,
            lo,
            hi,
        ) == got
}

/// Whether `got` is the text that the filter `name` asks for.
pub open spec fn asked_text(
    got: Option<String>,
    filters: Seq<(String, String)>,
    name: Seq<char>,
) -> bool {
    &&& got is Some <==> was_given(filters, name)
    &&& forall|i: int| #[trigger]
        comes_first(filters, name, i) && filters[i].1@.len() > 0 ==> text_of(got) == Some(
            filters[i].1@,
        )
}

proof fn lemma_facet(filters: Seq<(String, String)>, name: Seq<char>)
    ensures
        facet(filters, name) is Some <==> was_given(filters, name),
        forall|i: int| #[trigger]
            comes_first(filters, name, i) && filters[i].1@.len() > 0 ==> facet(filters, name)
                == Some(filters[i].1@),
{
    the_earliest_value_counts(filters, name);
    if facet(filters, name) is Some {
        let i = choose|i: int| #[trigger] comes_first(filters, name, i);
        assert(filters[i].1@.len() > 0);
    }
}

proof fn lemma_facet_number(
    got: Option<int>,
    filters: Seq<(String, String)>,
    name: Seq<char>,
    lo: int,
    hi: int,
)
    requires
        got is Some ==> facet_number(filters, name, lo, hi) == got,
        got is None ==> facet(filters, name) is None,
    ensures
        asked_number(got, filters, name, lo, hi),
{
    lemma_facet(filters, name);
    assert forall|i: int, n: int| #[trigger]
        comes_first(filters, name, i) && lo <= n <= hi && filters[i].1@ == #[trigger] int_text(
            n,
        ) implies got == Some(n) by {
        text_reads_back(n, lo, hi);
    }
}

/// A number that may be missing, as a mathematical one.
pub open spec fn number_of(n: Option<i32>) -> Option<int> {
    match n {
        Some(n) => Some(n as int),
        None => None,
    }
}

/// A small number that may be missing, as a mathematical one.
pub open spec fn small_number_of(n: Option<i16>) -> Option<int> {
    match n {
        Some(n) => Some(n as int),
        None => None,
    }
}

/// An accepted search looks for everything that was asked for, each in its own
/// place: the words, the status, the four limits, the tags and the instrument.
/// What was not asked for does not narrow it.
pub proof fn an_accepted_search_applies_every_filter(
    s: ArrangementSearch,
    filters: Seq<(String, String)>,
    q: Option<&str>,
)
    requires
        search_built(Ok::<ArrangementSearch, AppError>(s), filters, q),
    ensures
        s.q is Some <==> (q is Some && q->0@.len() > 0),
        s.q is Some ==> s.q->0@ == q->0@,
        asked_text(s.status, filters, "status"@),
        asked_number(
            small_number_of(s.difficulty_min),
            filters,
            "difficultyMin"@,
            i16::MIN as int,
            i16::MAX as int,
        ),
        asked_number(
            small_number_of(s.difficulty_max),
            filters,
            "difficultyMax"@,
            i16::MIN as int,
            i16::MAX as int,
        ),
        asked_number(
            number_of(s.duration_min_seconds),
            filters,
            "durationMinSeconds"@,
            i32::MIN as int,
            i32::MAX as int,
        ),
        asked_number(
            number_of(s.duration_max_seconds),
            filters,
            "durationMaxSeconds"@,
            i32::MIN as int,
            i32::MAX as int,
        ),
        s.instrument_id is Some <==> was_given(filters, "instrumentId"@),
        forall|i: int| #[trigger]
            comes_first(filters, "instrumentId"@, i) && filters[i].1@.len() > 0 ==> read_uuid(
                filters[i].1@,
            ) == s.instrument_id,
        !was_given(filters, "tag"@) ==> s.tag_ids@.len() == 0,
{
    lemma_facet(filters, "status"@);
    lemma_facet(filters, "instrumentId"@);
    lemma_facet(filters, "tag"@);
    lemma_facet_number(
        small_number_of(s.difficulty_min),
        filters,
        "difficultyMin"@,
        i16::MIN as int,
        i16::MAX as int,
    );
    lemma_facet_number(
        small_number_of(s.difficulty_max),
        filters,
        "difficultyMax"@,
        i16::MIN as int,
        i16::MAX as int,
    );
    lemma_facet_number(
        number_of(s.duration_min_seconds),
        filters,
        "durationMinSeconds"@,
        i32::MIN as int,
        i32::MAX as int,
    );
    lemma_facet_number(
        number_of(s.duration_max_seconds),
        filters,
        "durationMaxSeconds"@,
        i32::MIN as int,
        i32::MAX as int,
    );
}

/// Tags that are listed with commas between them are the tags searched for,
/// all of them and in that order.
pub proof fn an_accepted_search_applies_every_tag(
    s: ArrangementSearch,
    filters: Seq<(String, String)>,
    q: Option<&str>,
    i: int,
    listed: Seq<Seq<char>>,
    ids: Seq<Uuid>,
)
    requires
        search_built(Ok::<ArrangementSearch, AppError>(s), filters, q),
        comes_first(filters, "tag"@, i),
        listed.len() == ids.len() && listed.len() > 0,
        filters[i].1@ == join(listed, ','),
        filters[i].1@.len() > 0,
        forall|k: int|
            0 <= k < listed.len() ==> {
                &&& !(#[trigger] listed[k]).contains(',')
                &&& trimmed(listed[k]).len() > 0
                &&& read_uuid(trimmed(listed[k])) == Some(ids[k])
            },
    ensures
        s.tag_ids@ == ids,
{
    lemma_facet(filters, "tag"@);
    splitting_undoes_joining(listed, ',');
    lemma_listed_tags(listed, ids);
}

proof fn lemma_listed_tags(listed: Seq<Seq<char>>, ids: Seq<Uuid>)
    requires
        listed.len() == ids.len(),
        forall|k: int|
            0 <= k < listed.len() ==> trimmed(#[trigger] listed[k]).len() > 0 && read_uuid(
                trimmed(listed[k]),
            ) == Some(ids[k]),
    ensures
        listed_tags(listed) == Ok::<Seq<Uuid>, Seq<char>>(ids),
    decreases listed.len(),
{
    if listed.len() == 0 {
        assert(ids == Seq::<Uuid>::empty());
    } else {
        let (l, d) = (listed.drop_last(), ids.drop_last());
        assert forall|k: int| 0 <= k < l.len() implies trimmed(#[trigger] l[k]).len() > 0
            && read_uuid(trimmed(l[k])) == Some(d[k]) by {
            assert(l[k] == listed[k]);
        }
        lemma_listed_tags(l, d);
        assert(listed.last() == listed[listed.len() - 1]);
        assert(d.push(ids.last()) == ids);
    }
}

/// Whether the filter `name` was given a value that is no whole number from
/// `lo` to `hi`.
pub open spec fn misread(filters: Seq<(String, String)>, name: Seq<char>, lo: int, hi: int) -> bool {
    exists|i: int| #[trigger]
        comes_first(filters, name, i) && filters[i].1@.len() > 0 && read_int(filters[i].1@, lo, hi)
            is None
}

/// A search is refused only over a filter that cannot be understood, and it is
/// refused over every such filter.
pub proof fn a_search_is_refused_over_what_it_cannot_read(
    r: Result<ArrangementSearch, AppError>,
    filters: Seq<(String, String)>,
    q: Option<&str>,
)
    requires
        search_built(r, filters, q),
    ensures
        r is Err ==> r->Err_0@.status() == 400,
        misread(filters, "difficultyMin"@, i16::MIN as int, i16::MAX as int) ==> r is Err,
        misread(filters, "difficultyMax"@, i16::MIN as int, i16::MAX as int) ==> r is Err,
        misread(filters, "durationMinSeconds"@, i32::MIN as int, i32::MAX as int) ==> r is Err,
        misread(filters, "durationMaxSeconds"@, i32::MIN as int, i32::MAX as int) ==> r is Err,
        r is Err && !was_given(filters, "tag"@) && !was_given(filters, "instrumentId"@) ==> {
            ||| misread(filters, "difficultyMin"@, i16::MIN as int, i16::MAX as int)
            ||| misread(filters, "difficultyMax"@, i16::MIN as int, i16::MAX as int)
            ||| misread(filters, "durationMinSeconds"@, i32::MIN as int, i32::MAX as int)
            ||| misread(filters, "durationMaxSeconds"@, i32::MIN as int, i32::MAX as int)
        },
{
    lemma_facet(filters, "tag"@);
    lemma_facet(filters, "instrumentId"@);
    lemma_misread(filters, "difficultyMin"@, "a whole number"@, i16::MIN as int, i16::MAX as int);
    lemma_misread(filters, "difficultyMax"@, "a whole number"@, i16::MIN as int, i16::MAX as int);
    lemma_misread(
        filters,
        "durationMinSeconds"@,
        "a whole number of seconds"@,
        i32::MIN as int,
        i32::MAX as int,
    );
    lemma_misread(
        filters,
        "durationMaxSeconds"@,
        "a whole number of seconds"@,
        i32::MIN as int,
        i32::MAX as int,
    );
}

proof fn lemma_misread(
    filters: Seq<(String, String)>,
    name: Seq<char>,
    expected: Seq<char>,
    lo: int,
    hi: int,
)
    ensures
        misread(filters, name, lo, hi) <==> number_error(filters, name, expected, lo, hi) is Some,
{
    lemma_facet(filters, name);
    the_earliest_value_counts(filters, name);
}

/// Whether a number box that holds `raw` asks for `got`: for nothing where it
/// is blank or holds no such number, else for the number typed, with or without
/// white space around it.
pub open spec fn box_asks(got: Option<int>, raw: Seq<char>, lo: int, hi: int) -> bool {
    &&& trimmed(raw).len() == 0 ==> got is None
    &&& forall|n: int|
        lo <= n <= hi && trimmed(raw) == #[trigger] int_text(n) ==> got == Some(n)
    &&& trimmed(raw).len() > 0 ==> got == read_int(trimmed(raw), lo, hi)
}

proof fn lemma_box(raw: Seq<char>, lo: int, hi: int)
    ensures
        box_asks(box_number(raw, lo, hi), raw, lo, hi),
{
    assert forall|n: int| lo <= n <= hi && trimmed(raw) == #[trigger] int_text(n) implies
        box_number(raw, lo, hi) == Some(n) by {
        text_reads_back(n, lo, hi);
    }
}

/// The console searches for what its form says, box by box: a longest duration
/// in minutes is searched for in seconds.
pub proof fn the_form_is_searched_for(s: ArrangementSearch, f: SearchForm)
    requires
        searches_for(s, f),
    ensures
        s.q is Some <==> trimmed(f.q@).len() > 0,
        s.q is Some ==> s.q->0@ == trimmed(f.q@),
        s.status is Some <==> f.status@.len() > 0,
        s.status is Some ==> s.status->0@ == f.status@,
        box_asks(
            small_number_of(s.difficulty_min),
            f.difficulty_min@,
            i16::MIN as int,
            i16::MAX as int,
        ),
        box_asks(
            small_number_of(s.difficulty_max),
            f.difficulty_max@,
            i16::MIN as int,
            i16::MAX as int,
        ),
        s.duration_min_seconds is None,
        forall|n: int|
            -35_791_394 <= n <= 35_791_394 && trimmed(f.duration_max_minutes@)
                == #[trigger] int_text(n) ==> number_of(s.duration_max_seconds) == Some(n * 60),
        trimmed(f.duration_max_minutes@).len() == 0 ==> s.duration_max_seconds is None,
        trimmed(f.instrument_id@).len() == 0 ==> s.instrument_id is None,
        trimmed(f.instrument_id@).len() > 0 ==> s.instrument_id == read_uuid(
            trimmed(f.instrument_id@),
        ),
{
    lemma_box(f.difficulty_min@, i16::MIN as int, i16::MAX as int);
    lemma_box(f.difficulty_max@, i16::MIN as int, i16::MAX as int);
    assert forall|n: int|
        -35_791_394 <= n <= 35_791_394 && trimmed(f.duration_max_minutes@) == #[trigger] int_text(
            n,
        ) implies number_of(s.duration_max_seconds) == Some(n * 60) by {
        text_reads_back(n, i32::MIN as int, i32::MAX as int);
    }
}

/// The console searches for every tag that was chosen, in order; `from` says
/// which of the submitted values each comes from.
pub proof fn the_chosen_tags_are_searched_for(s: ArrangementSearch, f: SearchForm) -> (from: Seq<
    int,
>)
    requires
        searches_for(s, f),
    ensures
        from.len() == s.tag_ids@.len(),
        forall|k: int|
            0 <= k < from.len() ==> 0 <= #[trigger] from[k] < f.tag@.len() && read_uuid(
                trimmed(f.tag@[from[k]]@),
            ) == Some(s.tag_ids@[k]),
        forall|k: int, l: int| 0 <= k < l < from.len() ==> #[trigger] from[k] < #[trigger] from[l],
        forall|j: int|
            0 <= j < f.tag@.len() && (#[trigger] f.tag@[j])@.len() > 0 && read_uuid(
                trimmed(f.tag@[j]@),
            ) is Some ==> from.contains(j),
{
    let values = texts(f.tag@);
    let from = lemma_tags_from(values);
    assert forall|j: int|
        0 <= j < f.tag@.len() && (#[trigger] f.tag@[j])@.len() > 0 && read_uuid(
            trimmed(f.tag@[j]@),
        ) is Some implies from.contains(j) by {
        assert(values[j] == f.tag@[j]@);
    }
    assert forall|k: int| 0 <= k < from.len() implies 0 <= #[trigger] from[k] < f.tag@.len()
        && read_uuid(trimmed(f.tag@[from[k]]@)) == Some(s.tag_ids@[k]) by {
        assert(values[from[k]] == f.tag@[from[k]]@);
    }
    from
}

proof fn lemma_tags_from(values: Seq<Seq<char>>) -> (from: Seq<int>)
    ensures
        from.len() == tags_in(values).len(),
        forall|k: int|
            0 <= k < from.len() ==> 0 <= #[trigger] from[k] < values.len() && read_uuid(
                trimmed(values[from[k]]),
            ) == Some(tags_in(values)[k]),
        forall|k: int, l: int| 0 <= k < l < from.len() ==> #[trigger] from[k] < #[trigger] from[l],
        forall|j: int|
            0 <= j < values.len() && (#[trigger] values[j]).len() > 0 && read_uuid(
                trimmed(values[j]),
            ) is Some ==> from.contains(j),
    decreases values.len(),
{
    if values.len() == 0 {
        Seq::empty()
    } else {
        let init = values.drop_last();
        let before = lemma_tags_from(init);
        let last = values.last();
        let from = if last.len() > 0 && read_uuid(trimmed(last)) is Some {
            before.push(values.len() - 1)
        } else {
            before
        };
        assert forall|k: int| 0 <= k < from.len() implies 0 <= #[trigger] from[k] < values.len()
            && read_uuid(trimmed(values[from[k]])) == Some(tags_in(values)[k]) by {
            if k < before.len() {
                assert(from[k] == before[k]);
                assert(init[before[k]] == values[before[k]]);
            }
        }
        assert forall|j: int|
            0 <= j < values.len() && (#[trigger] values[j]).len() > 0 && read_uuid(
                trimmed(values[j]),
            ) is Some implies from.contains(j) by {
            if j < init.len() {
                assert(init[j] == values[j]);
                let k = choose|k: int| 0 <= k < before.len() && before[k] == j;
                assert(from[k] == j);
            } else {
                assert(from[before.len() as int] == j);
            }
        }
        from
    }
}

/// Each box of the form holds what was first submitted under its name, and
/// nothing where that was nothing.
pub proof fn the_form_is_what_was_submitted(f: SearchForm, pairs: Seq<(String, String)>)
    requires
        f.reads(pairs),
    ensures
        forall|i: int| #[trigger] comes_first(pairs, "q"@, i) ==> f.q@ == pairs[i].1@,
        forall|i: int| #[trigger] comes_first(pairs, "status"@, i) ==> f.status@ == pairs[i].1@,
        forall|i: int| #[trigger]
            comes_first(pairs, "difficulty_min"@, i) ==> f.difficulty_min@ == pairs[i].1@,
        forall|i: int| #[trigger]
            comes_first(pairs, "difficulty_max"@, i) ==> f.difficulty_max@ == pairs[i].1@,
        forall|i: int| #[trigger]
            comes_first(pairs, "duration_max_minutes"@, i) ==> f.duration_max_minutes@
                == pairs[i].1@,
        forall|i: int| #[trigger]
            comes_first(pairs, "instrument_id"@, i) ==> f.instrument_id@ == pairs[i].1@,
        forall|i: int| #[trigger] comes_first(pairs, "sort"@, i) ==> f.sort@ == pairs[i].1@,
        forall|i: int|
            0 <= i < pairs.len() && (#[trigger] pairs[i]).0@ == "tag"@ && pairs[i].1@.len() > 0
                ==> texts(f.tag@).contains(pairs[i].1@),
        pairs.len() == 0 ==> f.asks_nothing() && f.sort@.len() == 0,
{
    the_earliest_value_counts(pairs, "q"@);
    the_earliest_value_counts(pairs, "status"@);
    the_earliest_value_counts(pairs, "difficulty_min"@);
    the_earliest_value_counts(pairs, "difficulty_max"@);
    the_earliest_value_counts(pairs, "duration_max_minutes"@);
    the_earliest_value_counts(pairs, "instrument_id"@);
    the_earliest_value_counts(pairs, "sort"@);
    let from = collected_values_were_submitted(pairs, "tag"@);
    assert forall|i: int|
        0 <= i < pairs.len() && (#[trigger] pairs[i]).0@ == "tag"@ && pairs[i].1@.len()
            > 0 implies texts(f.tag@).contains(pairs[i].1@) by {
        let k = choose|k: int| 0 <= k < from.len() && from[k] == i;
        assert(texts(f.tag@)[k] == pairs[i].1@);
    }
    if pairs.len() == 0 {
        assert(from.len() == 0) by {
            if from.len() > 0 {
                assert(0 <= from[0] < pairs.len());
            }
        }
        assert(texts(f.tag@).len() == f.tag@.len());
        lemma_nothing_trims_to_nothing();
    }
}

proof fn lemma_nothing_trims_to_nothing()
    ensures
        trimmed(Seq::<char>::empty()).len() == 0,
{
}

/// The search screen lists each arrangement that was found, in its order, with
/// its own title, status, difficulty and duration and the way to its page; the
/// choices that the form was submitted with stay chosen.
pub proof fn the_search_screen_shows_what_was_found(
    page: SearchPage,
    ctx: ConsoleCtx,
    form: SearchForm,
    tags: Vec<Tag>,
    instruments: Vec<Instrument>,
    results: &Vec<Arrangement>,
    total: i64,
)
    requires
        search_page_outcome(
            Ok::<SearchPage, Reply>(page),
            ctx,
            form,
            tags,
            instruments,
            Some((results, total)),
        ),
    ensures
        page.total == total,
        page.rows@.len() == results@.len(),
        page.has_query <==> trimmed(form.q@).len() > 0,
        forall|i: int|
            0 <= i < results@.len() ==> {
                let (row, a) = (#[trigger] page.rows@[i], results@[i]);
                &&& row.title@ == a.title@ && row.status@ == a.status@
                &&& row.href@ == arrangement_url(ctx.org_of().id, a.id)
                &&& a.difficulty matches Some(d) ==> row.difficulty@ == int_text(d as int)
                &&& a.difficulty is None ==> row.difficulty@ == "—"@
                &&& a.duration_seconds is None ==> row.duration@ == "—"@
                &&& a.duration_seconds matches Some(s) ==> forall|m: int, x: int|
                    s == 60 * m + x && 0 <= m && 10 <= x < 60 ==> row.duration@
                        == #[trigger] int_text(m) + ":"@ + #[trigger] int_text(x)
                &&& a.duration_seconds matches Some(s) ==> forall|m: int, x: int|
                    s == 60 * m + x && 0 <= m && 0 <= x < 10 ==> row.duration@
                        == #[trigger] int_text(m) + ":"@ + ("0"@ + #[trigger] int_text(x))
            },
        page.instruments@.len() == instruments@.len(),
        forall|i: int|
            0 <= i < instruments@.len() ==> {
                let (c, x) = (#[trigger] page.instruments@[i], instruments@[i]);
                &&& c.id == x.id && c.label@ == x.display_name@
                &&& c.selected <==> form.instrument_id@ == uuid_text(x.id)
            },
        page.tags@.len() == tags@.len(),
        forall|i: int|
            0 <= i < tags@.len() ==> {
                let (c, t) = (#[trigger] page.tags@[i], tags@[i]);
                &&& c.id == t.id && c.label@ == t.name@ && c.kind == t.kind
                &&& c.selected <==> exists|k: int|
                    0 <= k < form.tag@.len() && (#[trigger] form.tag@[k])@ == uuid_text(t.id)
            },
        page.truncated is Some <==> total > results@.len(),
{
    assert forall|i: int| 0 <= i < results@.len() implies {
        let (row, a) = (#[trigger] page.rows@[i], results@[i]);
        a.duration_seconds matches Some(s) ==> {
            &&& forall|m: int, x: int|
                s == 60 * m + x && 0 <= m && 10 <= x < 60 ==> row.duration@ == #[trigger] int_text(
                    m,
                ) + ":"@ + #[trigger] int_text(x)
            &&& forall|m: int, x: int|
                s == 60 * m + x && 0 <= m && 0 <= x < 10 ==> row.duration@ == #[trigger] int_text(
                    m,
                ) + ":"@ + ("0"@ + #[trigger] int_text(x))
        }
    } by {
        let (row, a) = (page.rows@[i], results@[i]);
        assert(shows_result(row, a, ctx.org_of().id));
        if let Some(s) = a.duration_seconds {
            assert forall|m: int, x: int| s == 60 * m + x && 0 <= m && 0 <= x < 60 implies
                clock_text(s as int) == #[trigger] int_text(m) + ":"@ + (if x < 10 {
                "0"@ + #[trigger] int_text(x)
            } else {
                int_text(x)
            }) by {
                vstd::arithmetic::div_mod::lemma_fundamental_div_mod_converse(s as int, 60, m, x);
            }
        }
    }
    assert forall|i: int| 0 <= i < tags@.len() implies {
        let (c, t) = (#[trigger] page.tags@[i], tags@[i]);
        c.selected <==> exists|k: int|
            0 <= k < form.tag@.len() && (#[trigger] form.tag@[k])@ == uuid_text(t.id)
    } by {
        let (c, t) = (page.tags@[i], tags@[i]);
        let all = texts(form.tag@);
        if c.selected {
            let k = choose|k: int| 0 <= k < all.len() && all[k] == uuid_text(t.id);
            assert(form.tag@[k]@ == uuid_text(t.id));
        }
        if exists|k: int| 0 <= k < form.tag@.len()
            && (#[trigger] form.tag@[k])@ == uuid_text(t.id) {
            let k = choose|k: int|
                0 <= k < form.tag@.len() && (#[trigger] form.tag@[k])@ == uuid_text(t.id);
            assert(all[k] == uuid_text(t.id));
        }
    }
}

/// Results come in the order that the form asks for, the best match first where
/// it asks for none and there are words to match; an order that is unknown is
/// no reason to refuse the search.
pub proof fn results_come_in_the_order_asked_for(
    plan: SearchPlan,
    ctx: ConsoleCtx,
    form: SearchForm,
    resolved: Option<(String, bool)>,
    order: SearchOrder,
)
    requires
        open_search_outcome(Ok::<SearchPlan, Reply>(plan), ctx, form),
        settle_order_outcome(order, resolved),
    ensures
        ctx.access_of().staff(),
        searches_for(plan.search, form),
        form.sort@.len() > 0 ==> plan.sort is Some && plan.sort->0@ == form.sort@,
        form.sort@.len() == 0 && plan.search.q is Some ==> plan.sort is Some && plan.sort->0@
            == "relevance"@,
        form.sort@.len() == 0 && plan.search.q is None ==> plan.sort is None,
        resolved matches Some((by, up)) ==> (order matches SearchOrder::Resolved {
            column,
            ascending,
        } && column@ == by@ && ascending == up),
        resolved is None ==> order is TitleAscending,
{
}

/// What is said of a box that could not be understood quotes what was typed.
pub proof fn a_box_that_was_not_understood_is_named(f: SearchForm, complaints: Seq<Complaint>)
    requires
        complaint_views(complaints) == form_complaints(f),
    ensures
        trimmed(f.duration_max_minutes@).len() > 0 && read_int(
            trimmed(f.duration_max_minutes@),
            i32::MIN as int,
            i32::MAX as int,
        ) is None ==> complaint_views(complaints).contains(
            (
                "Longest"@,
                "'"@ + trimmed(f.duration_max_minutes@) + "' is not "@
                    + "a whole number of minutes"@ + " — that filter was ignored."@,
            ),
        ),
        trimmed(f.difficulty_min@).len() > 0 && read_int(
            trimmed(f.difficulty_min@),
            i16::MIN as int,
            i16::MAX as int,
        ) is None ==> complaint_views(complaints).contains(
            (
                "Difficulty from"@,
                "'"@ + trimmed(f.difficulty_min@) + "' is not "@ + "a whole number"@
                    + " — that filter was ignored."@,
            ),
        ),
        trimmed(f.difficulty_max@).len() > 0 && read_int(
            trimmed(f.difficulty_max@),
            i16::MIN as int,
            i16::MAX as int,
        ) is None ==> complaint_views(complaints).contains(
            (
                "Difficulty to"@,
                "'"@ + trimmed(f.difficulty_max@) + "' is not "@ + "a whole number"@
                    + " — that filter was ignored."@,
            ),
        ),
        trimmed(f.instrument_id@).len() > 0 && read_uuid(trimmed(f.instrument_id@)) is None
            ==> complaint_views(complaints).contains(
            (
                "Instrument"@,
                "'"@ + trimmed(f.instrument_id@) + "' is not "@ + "a valid id"@
                    + " — that filter was ignored."@,
            ),
        ),
{
    let t = tag_complaints(texts(f.tag@));
    let d = box_complaint(
        f.duration_max_minutes@,
        i32::MIN as int,
        i32::MAX as int,
        "Longest"@,
        "a whole number of minutes"@,
    );
    let a = box_complaint(
        f.difficulty_min@,
        i16::MIN as int,
        i16::MAX as int,
        "Difficulty from"@,
        "a whole number"@,
    );
    let b = box_complaint(
        f.difficulty_max@,
        i16::MIN as int,
        i16::MAX as int,
        "Difficulty to"@,
        "a whole number"@,
    );
    let all = form_complaints(f);
    if d.len() > 0 {
        assert(all[t.len() as int] == d[0]);
    }
    if a.len() > 0 {
        assert(all[(t.len() + d.len()) as int] == a[0]);
    }
    if b.len() > 0 {
        assert(all[(t.len() + d.len() + a.len()) as int] == b[0]);
    }
    if trimmed(f.instrument_id@).len() > 0 && read_uuid(trimmed(f.instrument_id@)) is None {
        let i = id_complaint(f.instrument_id@, "Instrument"@);
        assert(all[(t.len() + d.len() + a.len() + b.len()) as int] == i[0]);
    }
}

/// Staff are shown what was found; where the search could not be run they are
/// told so, and everyone else is turned away.
pub proof fn staff_see_what_was_found(
    r: Result<SearchPage, Reply>,
    ctx: ConsoleCtx,
    form: SearchForm,
    tags: Vec<Tag>,
    instruments: Vec<Instrument>,
    found: Option<(&Vec<Arrangement>, i64)>,
)
    requires
        search_page_outcome(r, ctx, form, tags, instruments, found),
    ensures
        r is Ok <==> ctx.access_of().staff() && found is Some,
        !ctx.access_of().staff() ==> r->Err_0@.status() == 403,
        ctx.access_of().staff() && found is None ==> r->Err_0@.status() == 500,
        r is Ok ==> complaint_views(r->Ok_0.complaints@) == form_complaints(form),
        r is Ok ==> r->Ok_0.heading@ == (if trimmed(form.q@).len() == 0 && form.status@.len() == 0
            && form.difficulty_min@.len() == 0 && form.difficulty_max@.len() == 0
            && form.duration_max_minutes@.len() == 0 && form.tag@.len() == 0
            && form.instrument_id@.len() == 0 {
            "All arrangements"@
        } else {
            "Results"@
        }),
{
    if ctx.access_of().staff() && found is Some {
        let (results, total) = found->0;
    }
}

/// Staff search, whatever they typed, and nobody else does.
pub proof fn staff_search(r: Result<SearchPlan, Reply>, ctx: ConsoleCtx, form: SearchForm)
    requires
        open_search_outcome(r, ctx, form),
    ensures
        r is Ok <==> ctx.access_of().staff(),
        r is Err ==> r->Err_0@.status() == 403,
{
}

/// A longest duration that is more than can be said in seconds is taken as the
/// most that can.
pub proof fn very_long_durations_are_capped(r: (ArrangementSearch, Vec<Complaint>), f: SearchForm)
    requires
        plan_search_outcome(r, f),
    ensures
        forall|n: int|
            35_791_395 <= n <= i32::MAX
                && trimmed(f.duration_max_minutes@) == #[trigger] int_text(n)
                ==> number_of(r.0.duration_max_seconds) == Some(i32::MAX as int),
        searches_for(r.0, f) && complaint_views(r.1@) == form_complaints(f),
{
    assert forall|n: int|
        35_791_395 <= n <= i32::MAX && trimmed(f.duration_max_minutes@) == #[trigger] int_text(
            n,
        ) implies number_of(r.0.duration_max_seconds) == Some(i32::MAX as int) by {
        text_reads_back(n, i32::MIN as int, i32::MAX as int);
    }
}

} // verus!
