//! What the arrangement, work and voice screens show.

use vstd::prelude::*;
use crate::arrangement_form::{entered_id, ArrangementForm, Parsed};
use crate::arrangements::{
    a_form_is_stale_once_the_row_changed, a_voice_is_changed_as_the_form_says, arr_error, error_page, in_arrangement, in_org, scoped_arrangement, scoped_voice,
    plan_update_voice_outcome, submitted_version, VoiceFields, VoiceForm,
};
use crate::console::{ConsoleCtx, Section};
use crate::date::{dates_have_bare_ends, read_date_view};
use crate::id::{identifiers_have_bare_ends, read_uuid, uuid_text, Uuid};
use crate::instruments::{
    an_instrument_goes_by_its_name, chosen_instruments_are_ticked, is_first_with, instrument_name, instrument_picker, is_picker, name_of, FamilyGroup,
};
use crate::json::{no_entries, value_entries, value_text};
use crate::lists::{filter_none, filter_step, kept_from, map_push, take_all};
use crate::model::{Arrangement, Instrument, Lookup, Tag, Voice, Work};
use crate::number::{decimal, int_text, numbers_have_bare_ends, read_int, text_reads_back};
use crate::reply::{open_row, refused, Reply, ReplyView};
use crate::tags::{contains_tag, has_tag};
use crate::text::{
    bare, bare_text_is_taken_in_as_it_stands, entered, is_white_space, same, text_of,
};
use crate::urls::{
    arrangement_path, arrangement_url, list_path, list_url, row_path, row_url, voice_path,
    voice_url, voices_path, voices_url,
};

verus! {

/// A work as a choice.
pub struct WorkOption {
    pub id: Uuid,
    pub title: String,
    pub selected: bool,
}

/// The works as choices, the one of an arrangement selected.
pub open spec fn work_options(works: Seq<Work>, selected: Option<Uuid>) -> Seq<WorkOption> {
    works.map_values(
        |w: Work| WorkOption { id: w.id, title: w.title, selected: selected == Some(w.id) },
    )
}

/// A rating in the form.
pub struct RatingField {
    pub key: &'static str,
    pub label: &'static str,
    pub value: String,
}

/// The editable fields of an arrangement, as a form shows them.
pub struct FormFields {
    pub title: String,
    pub works: Vec<WorkOption>,
    pub instrumentation: String,
    pub arranger: String,
    pub publisher: String,
    pub purchase_date: String,
    pub license_notes: String,
    pub copy_count_allowed: String,
    pub active_selected: bool,
    pub archived_selected: bool,
    pub duration_seconds: String,
    pub difficulty: String,
    pub ratings: Vec<RatingField>,
    pub difficulty_notes: String,
}

/// A text, or nothing.
pub open spec fn or_empty(t: Option<Seq<char>>) -> Seq<char> {
    match t {
        Some(t) => t,
        None => Seq::empty(),
    }
}

/// The rating on the scale `key` among stored ratings.
pub open spec fn stored_rating(ratings: Option<serde_json::Value>, key: Seq<char>) -> Seq<char> {
    match ratings {
        Some(v) => if value_entries(v).contains_key(key) {
            or_empty(value_entries(v)[key])
        } else {
            Seq::empty()
        },
        None => Seq::empty(),
    }
}

/// The number in words of a form field, or nothing.
pub open spec fn number_or_empty(n: Option<int>) -> Seq<char> {
    match n {
        Some(n) => int_text(n),
        None => Seq::empty(),
    }
}

/// Whether the ratings part of a form shows the stored ratings, scale by scale.
pub open spec fn shows_ratings(fields: Seq<RatingField>, ratings: Option<serde_json::Value>) -> bool {
    &&& fields.len() == 5
    &&& fields[0].key@ == "abrsm"@ && fields[0].label@ == "ABRSM"@
    &&& fields[1].key@ == "aba"@ && fields[1].label@ == "ABA"@
    &&& fields[2].key@ == "henle"@ && fields[2].label@ == "Henle"@
    &&& fields[3].key@ == "rcm"@ && fields[3].label@ == "RCM"@
    &&& fields[4].key@ == "trinity"@ && fields[4].label@ == "Trinity"@
    &&& forall|i: int|
        0 <= i < 5 ==> (#[trigger] fields[i]).value@ == stored_rating(ratings, fields[i].key@)
}

/// Whether the form shows the arrangement `a`.
pub open spec fn shows_arrangement(f: FormFields, a: Arrangement, works: Seq<Work>) -> bool {
    &&& f.title == a.title
    &&& f.works@ == work_options(works, a.work_id)
    &&& f.instrumentation@ == or_empty(text_of(a.instrumentation))
    &&& f.arranger@ == or_empty(text_of(a.arranger))
    &&& f.publisher@ == or_empty(text_of(a.publisher))
    &&& f.purchase_date@ == (match a.purchase_date {
        Some(d) => d.text_view(),
        None => Seq::empty(),
    })
    &&& f.license_notes@ == or_empty(text_of(a.license_notes))
    &&& f.copy_count_allowed@ == number_or_empty(
        match a.copy_count_allowed {
            Some(n) => Some(n as int),
            None => None,
        },
    )
    &&& f.active_selected == (a.status@ == "active"@)
    &&& f.archived_selected == (a.status@ == "archived"@)
    &&& f.duration_seconds@ == number_or_empty(
        match a.duration_seconds {
            Some(n) => Some(n as int),
            None => None,
        },
    )
    &&& f.difficulty@ == number_or_empty(
        match a.difficulty {
            Some(n) => Some(n as int),
            None => None,
        },
    )
    &&& shows_ratings(f.ratings@, a.difficulty_ratings)
    &&& f.difficulty_notes@ == or_empty(text_of(a.difficulty_notes))
}

/// Whether the form is that of a new arrangement: empty, and active.
pub open spec fn shows_new(f: FormFields, works: Seq<Work>) -> bool {
    &&& f.title@.len() == 0
    &&& f.works@ == work_options(works, None)
    &&& f.instrumentation@.len() == 0 && f.arranger@.len() == 0 && f.publisher@.len() == 0
    &&& f.purchase_date@.len() == 0 && f.license_notes@.len() == 0
    &&& f.copy_count_allowed@.len() == 0
    &&& f.active_selected && !f.archived_selected
    &&& f.duration_seconds@.len() == 0 && f.difficulty@.len() == 0
    &&& shows_ratings(f.ratings@, None)
    &&& f.difficulty_notes@.len() == 0
}

fn text_or_empty(t: &Option<String>) -> (r: String)
    ensures
        r@ == or_empty(text_of(*t)),
{
    match t {
        Some(t) => t.clone(),
        None => String::new(),
    }
}

fn rating_field(
    key: &'static str,
    label: &'static str,
    ratings: Option<&serde_json::Value>,
) -> (r: RatingField)
    ensures
        r.key@ == key@,
        r.label@ == label@,
        r.value@ == stored_rating(
            match ratings {
                Some(v) => Some(*v),
                None => None,
            },
            key@,
        ),
{
    let value: String = match ratings {
        Some(v) => match value_text(v, key) {
            Some(t) => t.to_owned(),
            None => String::new(),
        },
        None => String::new(),
    };
    RatingField { key, label, value }
}

fn rating_fields(ratings: &Option<serde_json::Value>) -> (r: Vec<RatingField>)
    ensures
        shows_ratings(r@, *ratings),
{
    let v: Option<&serde_json::Value> = match ratings {
        Some(v) => Some(v),
        None => None,
    };
    let mut out: Vec<RatingField> = Vec::new();
    out.push(rating_field("abrsm", "ABRSM", v));
    out.push(rating_field("aba", "ABA", v));
    out.push(rating_field("henle", "Henle", v));
    out.push(rating_field("rcm", "RCM", v));
    out.push(rating_field("trinity", "Trinity", v));
    out
}

fn work_choices(works: &Vec<Work>, selected: Option<Uuid>) -> (r: Vec<WorkOption>)
    ensures
        r@ == work_options(works@, selected),
{
    let mut out: Vec<WorkOption> = Vec::new();
    let mut i: usize = 0;
    while i < works.len()
        invariant
            i <= works.len(),
            out@ == work_options(works@, selected).take(i as int),
        decreases works.len() - i,
    {
        let w: &Work = &works[i];
        out.push(
            WorkOption {
                id: w.id,
                title: w.title.clone(),
                selected: match selected {
                    Some(id) => id == w.id,
                    None => false,
                },
            },
        );
        assert(out@ == work_options(works@, selected).take(i + 1));
        i = i + 1;
    }
    proof {
        take_all(work_options(works@, selected));
    }
    out
}

fn number_text(n: Option<i32>) -> (r: String)
    ensures
        r@ == number_or_empty(
            match n {
                Some(n) => Some(n as int),
                None => None,
            },
        ),
{
    match n {
        Some(n) => decimal(n as i64),
        None => String::new(),
    }
}

/// The fields of the form that edits an arrangement.
pub fn edit_fields(a: &Arrangement, works: &Vec<Work>) -> (r: FormFields)
    ensures
        shows_arrangement(r, *a, works@),
{
    FormFields {
        title: a.title.clone(),
        works: work_choices(works, a.work_id),
        instrumentation: text_or_empty(&a.instrumentation),
        arranger: text_or_empty(&a.arranger),
        publisher: text_or_empty(&a.publisher),
        purchase_date: match a.purchase_date {
            Some(d) => d.text(),
            None => String::new(),
        },
        license_notes: text_or_empty(&a.license_notes),
        copy_count_allowed: number_text(a.copy_count_allowed),
        active_selected: same(a.status.as_str(), "active"),
        archived_selected: same(a.status.as_str(), "archived"),
        duration_seconds: number_text(a.duration_seconds),
        difficulty: match a.difficulty {
            Some(n) => decimal(n as i64),
            None => String::new(),
        },
        ratings: rating_fields(&a.difficulty_ratings),
        difficulty_notes: text_or_empty(&a.difficulty_notes),
    }
}

/// The fields of the form that adds an arrangement.
pub fn new_fields(works: &Vec<Work>) -> (r: FormFields)
    ensures
        shows_new(r, works@),
{
    FormFields {
        title: String::new(),
        works: work_choices(works, None),
        instrumentation: String::new(),
        arranger: String::new(),
        publisher: String::new(),
        purchase_date: String::new(),
        license_notes: String::new(),
        copy_count_allowed: String::new(),
        active_selected: true,
        archived_selected: false,
        duration_seconds: String::new(),
        difficulty: String::new(),
        ratings: rating_fields(&None),
        difficulty_notes: String::new(),
    }
}

/// A rating that was entered is what the form shows once it is stored.
pub proof fn entered_ratings_are_shown(
    form: ArrangementForm,
    stored: serde_json::Value,
    key: Seq<char>,
)
    requires
        value_entries(stored) == form.ratings(),
    ensures
        stored_rating(Some(stored), key) == or_empty(form.rating_on(key)),
{
}

/// An arrangement in the list.
pub struct ArrangementRow {
    pub title: String,
    pub status: String,
    pub difficulty: String,
    pub href: String,
    pub link: &'static str,
}

/// Whether `row` shows the arrangement `a` in the list.
pub open spec fn lists_arrangement(
    row: ArrangementRow,
    a: Arrangement,
    org: Uuid,
    can_edit: bool,
) -> bool {
    &&& row.title == a.title && row.status == a.status
    &&& row.difficulty@ == (match a.difficulty {
        Some(d) => int_text(d as int),
        None => "—"@,
    })
    &&& row.href@ == arrangement_url(org, a.id)
    &&& row.link@ == (if can_edit {
        "Edit"@
    } else {
        "View"@
    })
}

/// The list of arrangements.
pub struct ArrangementsPage {
    pub can_edit: bool,
    pub rows: Vec<ArrangementRow>,
    pub works_href: String,
    pub tags_href: String,
    pub create_action: String,
    /// Only for those who may edit.
    pub create_fields: Option<FormFields>,
}

/// Whether `r` is what [`list_page`] owes its caller.
pub open spec fn list_page_outcome(
    r: Result<ArrangementsPage, Reply>,
    ctx: ConsoleCtx,
    listed: Option<&Vec<Arrangement>>,
    works: Vec<Work>,
) -> bool {
    &&& !ctx.access_of().staff() ==> refused(r, ReplyView::SectionForbidden)
    &&& ctx.access_of().staff() ==> match listed {
        None => refused(r, arr_error(500, "Could not load arrangements."@)),
        Some(rows) => {
            let org = ctx.org_of().id;
            let can_edit = ctx.access_of().edits_arrangements();
            &&& r is Ok
            &&& r->Ok_0.can_edit == can_edit
            &&& r->Ok_0.rows@.len() == rows@.len()
            &&& forall|i: int|
                0 <= i < rows@.len() ==> lists_arrangement(
                    #[trigger] r->Ok_0.rows@[i],
                    rows@[i],
                    org,
                    can_edit,
                )
            &&& r->Ok_0.works_href@ == list_url(org, "/works"@)
            &&& r->Ok_0.tags_href@ == list_url(org, "/tags"@)
            &&& r->Ok_0.create_action@ == list_url(org, "/arrangements"@)
            &&& (r->Ok_0.create_fields is Some <==> can_edit)
            &&& (r->Ok_0.create_fields matches Some(f) ==> shows_new(f, works@))
        },
    }
}

/// The list of arrangements. `listed` is `None` where they could not be listed.
pub fn list_page(ctx: &ConsoleCtx, listed: Option<&Vec<Arrangement>>, works: &Vec<Work>) -> (r:
    Result<ArrangementsPage, Reply>)
    ensures
        list_page_outcome(r, *ctx, listed, *works),
{
    if !ctx.is_staff() {
        return Err(Reply::SectionForbidden);
    }
    let arrangements: &Vec<Arrangement> = match listed {
        Some(rows) => rows,
        None => return Err(error_page(500, "Could not load arrangements.")),
    };
    let org: Uuid = ctx.org().id;
    let can_edit: bool = ctx.can_edit_arrangements();
    let mut rows: Vec<ArrangementRow> = Vec::new();
    let mut i: usize = 0;
    while i < arrangements.len()
        invariant
            i <= arrangements.len(),
            rows@.len() == i,
            forall|k: int|
                0 <= k < i ==> lists_arrangement(
                    #[trigger] rows@[k],
                    arrangements@[k],
                    org,
                    can_edit,
                ),
        decreases arrangements.len() - i,
    {
        let a: &Arrangement = &arrangements[i];
        rows.push(
            ArrangementRow {
                title: a.title.clone(),
                status: a.status.clone(),
                difficulty: match a.difficulty {
                    Some(d) => decimal(d as i64),
                    None => "—".to_owned(),
                },
                href: arrangement_path(org, a.id),
                link: if can_edit {
                    "Edit"
                } else {
                    "View"
                },
            },
        );
        i = i + 1;
    }
    Ok(
        ArrangementsPage {
            can_edit,
            rows,
            works_href: list_path(org, "/works"),
            tags_href: list_path(org, "/tags"),
            create_action: list_path(org, "/arrangements"),
            create_fields: if can_edit {
                Some(new_fields(works))
            } else {
                None
            },
        },
    )
}

/// A line of the read-only view.
pub struct Line {
    pub label: &'static str,
    pub value: String,
}

/// The title of the work `id`, if it is among `works`.
pub open spec fn work_title(works: Seq<Work>, id: Uuid) -> Option<Seq<char>>
    decreases works.len(),
{
    if works.len() == 0 {
        None
    } else if works[0].id == id {
        Some(works[0].title@)
    } else {
        work_title(works.skip(1), id)
    }
}

/// A line of the read-only view as a mathematical value.
pub open spec fn line(label: Seq<char>, value: Option<Seq<char>>) -> Seq<(Seq<char>, Seq<char>)> {
    match value {
        Some(v) => seq![(label, v)],
        None => seq![],
    }
}

/// The lines of the read-only view: those that have a value.
pub open spec fn readonly_lines(a: Arrangement, works: Seq<Work>) -> Seq<(Seq<char>, Seq<char>)> {
    line("Title"@, Some(a.title@)) + line(
        "Work"@,
        match a.work_id {
            Some(id) => work_title(works, id),
            None => None,
        },
    ) + line("Instrumentation"@, text_of(a.instrumentation)) + line(
        "Arranger"@,
        text_of(a.arranger),
    ) + line("Publisher"@, text_of(a.publisher)) + line(
        "Difficulty"@,
        match a.difficulty {
            Some(d) => Some(int_text(d as int)),
            None => None,
        },
    ) + line("Difficulty notes"@, text_of(a.difficulty_notes))
}

/// The lines as mathematical values.
pub open spec fn lines(v: Seq<Line>) -> Seq<(Seq<char>, Seq<char>)> {
    v.map_values(|l: Line| (l.label@, l.value@))
}

fn title_of_work(works: &Vec<Work>, id: Uuid) -> (r: Option<String>)
    ensures
        text_of(r) == work_title(works@, id),
{
    let mut i: usize = 0;
    assert(works@.skip(0) == works@);
    while i < works.len()
        invariant
            i <= works.len(),
            work_title(works@, id) == work_title(works@.skip(i as int), id),
        decreases works.len() - i,
    {
        if works[i].id == id {
            return Some(works[i].title.clone());
        }
        assert(works@.skip(i as int).skip(1) == works@.skip(i + 1));
        i = i + 1;
    }
    None
}

fn push_line(out: &mut Vec<Line>, label: &'static str, value: Option<String>)
    ensures
        lines(final(out)@) == lines(old(out)@) + line(label@, text_of(value)),
{
    if let Some(value) = value {
        out.push(Line { label, value });
        assert(lines(out@) == lines(old(out)@) + seq![(label@, value@)]);
    } else {
        assert(lines(out@) == lines(old(out)@) + Seq::<(Seq<char>, Seq<char>)>::empty());
    }
}

/// The read-only view of an arrangement.
pub fn arrangement_readonly(a: &Arrangement, works: &Vec<Work>) -> (r: Vec<Line>)
    ensures
        lines(r@) == readonly_lines(*a, works@),
{
    let mut out: Vec<Line> = Vec::new();
    assert(lines(out@) == Seq::<(Seq<char>, Seq<char>)>::empty());
    push_line(&mut out, "Title", Some(a.title.clone()));
    let work: Option<String> = match a.work_id {
        Some(id) => title_of_work(works, id),
        None => None,
    };
    push_line(&mut out, "Work", work);
    push_line(&mut out, "Instrumentation", a.instrumentation.clone());
    push_line(&mut out, "Arranger", a.arranger.clone());
    push_line(&mut out, "Publisher", a.publisher.clone());
    let difficulty: Option<String> = match a.difficulty {
        Some(d) => Some(decimal(d as i64)),
        None => None,
    };
    push_line(&mut out, "Difficulty", difficulty);
    push_line(&mut out, "Difficulty notes", a.difficulty_notes.clone());
    out
}

/// A tag on an arrangement.
pub struct TagChip {
    pub name: String,
    pub kind: Option<String>,
    /// Only for those who may edit.
    pub detach_action: Option<String>,
}

/// Whether `chip` shows the tag `t`.
pub open spec fn shows_chip(chip: TagChip, t: Tag, can_edit: bool, base: Seq<char>) -> bool {
    &&& chip.name == t.name
    &&& chip.kind == t.kind
    &&& (chip.detach_action is Some <==> can_edit)
    &&& (chip.detach_action matches Some(a) ==> a@ == base + "/tags/"@ + uuid_text(t.id)
        + "/detach"@)
}

/// A tag that can be put on an arrangement.
pub struct TagOption {
    pub id: Uuid,
    pub name: String,
    pub kind: Option<String>,
}

/// The tags that are not among those of an arrangement.
pub open spec fn not_among(attached: Seq<Tag>) -> spec_fn(Tag) -> bool {
    |t: Tag| !has_tag(attached, t.id)
}

/// A tag as one that can be put on an arrangement.
pub open spec fn as_option() -> spec_fn(Tag) -> TagOption {
    |t: Tag| TagOption { id: t.id, name: t.name, kind: t.kind }
}

/// The tags that are not on an arrangement yet.
pub open spec fn unattached(all: Seq<Tag>, attached: Seq<Tag>) -> Seq<TagOption> {
    all.filter(not_among(attached)).map_values(as_option())
}

fn tag_options(all: &Vec<Tag>, attached: &Vec<Tag>) -> (r: Vec<TagOption>)
    ensures
        r@ == unattached(all@, attached@),
{
    let ghost p = not_among(attached@);
    let ghost f = as_option();
    let mut out: Vec<TagOption> = Vec::new();
    let mut i: usize = 0;
    proof {
        filter_none(all@, p);
    }
    assert(out@ == all@.take(0).filter(p).map_values(f));
    while i < all.len()
        invariant
            i <= all.len(),
            p == not_among(attached@),
            f == as_option(),
            out@ == all@.take(i as int).filter(p).map_values(f),
        decreases all.len() - i,
    {
        proof {
            filter_step(all@, i as int, p);
            map_push(all@.take(i as int).filter(p), all@[i as int], f);
        }
        let t: &Tag = &all[i];
        if !contains_tag(attached, t.id) {
            out.push(TagOption { id: t.id, name: t.name.clone(), kind: t.kind.clone() });
        }
        i = i + 1;
    }
    proof {
        take_all(all@);
    }
    out
}

fn tag_chips(attached: &Vec<Tag>, can_edit: bool, base: &String) -> (r: Vec<TagChip>)
    ensures
        r@.len() == attached@.len(),
        forall|i: int|
            0 <= i < attached@.len() ==> shows_chip(
                #[trigger] r@[i],
                attached@[i],
                can_edit,
                base@,
            ),
{
    let mut out: Vec<TagChip> = Vec::new();
    let mut i: usize = 0;
    while i < attached.len()
        invariant
            i <= attached.len(),
            out@.len() == i,
            forall|k: int|
                0 <= k < i ==> shows_chip(#[trigger] out@[k], attached@[k], can_edit, base@),
        decreases attached.len() - i,
    {
        let t: &Tag = &attached[i];
        let detach_action: Option<String> = if can_edit {
            let mut a: String = base.clone();
            a.append("/tags/");
            a.append(t.id.text().as_str());
            a.append("/detach");
            Some(a)
        } else {
            None
        };
        out.push(TagChip { name: t.name.clone(), kind: t.kind.clone(), detach_action });
        i = i + 1;
    }
    out
}

/// What can be done with a row on its page.
pub enum Controls<F, L> {
    /// It is deleted and can be restored.
    Restore { action: String },
    /// It can be changed and deleted.
    Edit { action: String, delete_action: String, version: i64, fields: F },
    /// It can only be read.
    ReadOnly(L),
}

/// The page of an arrangement.
pub struct ArrangementPage {
    pub slug: String,
    pub status: String,
    pub deleted: bool,
    pub controls: Controls<FormFields, Vec<Line>>,
    pub tags: Vec<TagChip>,
    /// Only for those who may edit; empty where every tag is on it.
    pub attachable: Option<Vec<TagOption>>,
    pub attach_action: String,
    pub voices_href: String,
    pub tags_href: String,
    pub back: String,
}

/// Whether `p` is the page of the arrangement `a`.
pub open spec fn is_arrangement_page(
    p: ArrangementPage,
    a: Arrangement,
    org: Uuid,
    can_edit: bool,
    works: Seq<Work>,
    attached: Seq<Tag>,
    all_tags: Seq<Tag>,
) -> bool {
    let url = arrangement_url(org, a.id);
    &&& p.slug == a.slug && p.status == a.status
    &&& p.deleted == (a.deleted_at is Some)
    &&& match p.controls {
        Controls::Restore { action } => can_edit && a.deleted_at is Some && action@ == url
            + "/undelete"@,
        Controls::Edit { action, delete_action, version, fields } => {
            &&& can_edit && a.deleted_at is None
            &&& action@ == url
            &&& delete_action@ == url + "/delete"@
            &&& version == a.updated_at.millis
            &&& shows_arrangement(fields, a, works)
        },
        Controls::ReadOnly(l) => !can_edit && lines(l@) == readonly_lines(a, works),
    }
    &&& p.tags@.len() == attached.len()
    &&& forall|i: int|
        0 <= i < attached.len() ==> shows_chip(#[trigger] p.tags@[i], attached[i], can_edit, url)
    &&& (p.attachable is Some <==> can_edit)
    &&& (p.attachable matches Some(o) ==> o@ == unattached(all_tags, attached))
    &&& p.attach_action@ == url + "/tags"@
    &&& p.voices_href@ == voices_url(org, a.id)
    &&& p.tags_href@ == list_url(org, "/tags"@)
    &&& p.back@ == list_url(org, "/arrangements"@)
}

/// Whether `r` is what [`detail_page`] owes its caller.
pub open spec fn detail_page_outcome(
    r: Result<ArrangementPage, Reply>,
    ctx: ConsoleCtx,
    found: Lookup<Arrangement>,
    works: Vec<Work>,
    attached: Vec<Tag>,
    all_tags: Vec<Tag>,
) -> bool {
    &&& !ctx.access_of().staff() ==> refused(r, ReplyView::SectionForbidden)
    &&& ctx.access_of().staff() ==> match in_org(found, ctx.org_of().id) {
        Lookup::Missing => refused(r, arr_error(404, "Arrangement not found."@)),
        Lookup::Failed => refused(r, arr_error(500, "Could not load the arrangement."@)),
        Lookup::Found(a) => r is Ok && is_arrangement_page(
            r->Ok_0,
            a,
            ctx.org_of().id,
            ctx.access_of().edits_arrangements(),
            works@,
            attached@,
            all_tags@,
        ),
    }
}

/// The page of an arrangement, deleted or not.
pub fn detail_page(
    ctx: &ConsoleCtx,
    found: Lookup<Arrangement>,
    works: &Vec<Work>,
    attached: &Vec<Tag>,
    all_tags: &Vec<Tag>,
) -> (r: Result<ArrangementPage, Reply>)
    ensures
        detail_page_outcome(r, *ctx, found, *works, *attached, *all_tags),
{
    let org: Uuid = ctx.org().id;
    let a: Arrangement = match open_row(
        ctx.is_staff(),
        scoped_arrangement(found, org),
        Section::Arrangements,
        "Arrangement not found.",
        "Could not load the arrangement.",
    ) {
        Ok(a) => a,
        Err(reply) => return Err(reply),
    };
    let can_edit: bool = ctx.can_edit_arrangements();
    let base: String = arrangement_path(org, a.id);
    let deleted: bool = a.deleted_at.is_some();
    let controls: Controls<FormFields, Vec<Line>> = if deleted && can_edit {
        Controls::Restore { action: base.clone().concat("/undelete") }
    } else if can_edit {
        Controls::Edit {
            action: base.clone(),
            delete_action: base.clone().concat("/delete"),
            version: a.updated_at.millis,
            fields: edit_fields(&a, works),
        }
    } else {
        Controls::ReadOnly(arrangement_readonly(&a, works))
    };
    Ok(
        ArrangementPage {
            deleted,
            controls,
            tags: tag_chips(attached, can_edit, &base),
            attachable: if can_edit {
                Some(tag_options(all_tags, attached))
            } else {
                None
            },
            attach_action: base.concat("/tags"),
            voices_href: voices_path(org, a.id),
            tags_href: list_path(org, "/tags"),
            back: list_path(org, "/arrangements"),
            slug: a.slug,
            status: a.status,
        },
    )
}

/// A work in the list.
pub struct WorkRow {
    pub title: String,
    pub composer: Option<String>,
    /// Where it is saved, for those who may edit it.
    pub save_action: Option<String>,
}

/// Whether `r` is what [`works_page`] owes its caller.
pub open spec fn works_page_outcome(
    r: Result<Vec<WorkRow>, Reply>,
    ctx: ConsoleCtx,
    listed: Option<&Vec<Work>>,
) -> bool {
    &&& !ctx.access_of().staff() ==> refused(r, ReplyView::SectionForbidden)
    &&& ctx.access_of().staff() ==> match listed {
        None => refused(r, arr_error(500, "Could not load works."@)),
        Some(works) => {
            &&& r is Ok
            &&& r->Ok_0@.len() == works@.len()
            &&& forall|i: int|
                0 <= i < works@.len() ==> shows_work(
                    #[trigger] r->Ok_0@[i],
                    works@[i],
                    ctx,
                )
        },
    }
}

/// The works. `listed` is `None` where they could not be listed.
pub fn works_page(ctx: &ConsoleCtx, listed: Option<&Vec<Work>>) -> (r: Result<Vec<WorkRow>, Reply>)
    ensures
        works_page_outcome(r, *ctx, listed),
{
    if !ctx.is_staff() {
        return Err(Reply::SectionForbidden);
    }
    let works: &Vec<Work> = match listed {
        Some(works) => works,
        None => return Err(error_page(500, "Could not load works.")),
    };
    let mut rows: Vec<WorkRow> = Vec::new();
    let mut i: usize = 0;
    while i < works.len()
        invariant
            i <= works.len(),
            rows@.len() == i,
            forall|k: int| 0 <= k < i ==> shows_work(#[trigger] rows@[k], works@[k], *ctx),
        decreases works.len() - i,
    {
        let w: &Work = &works[i];
        rows.push(
            WorkRow {
                title: w.title.clone(),
                composer: w.composer.clone(),
                save_action: if w.is_editable_by(ctx.user().id, ctx.user().is_system_admin) {
                    Some(row_path(ctx.org().id, "/works", w.id))
                } else {
                    None
                },
            },
        );
        i = i + 1;
    }
    Ok(rows)
}

/// Whether `row` shows the work `w`: with a form for those who may edit it.
pub open spec fn shows_work(row: WorkRow, w: Work, ctx: ConsoleCtx) -> bool {
    &&& row.title == w.title && row.composer == w.composer
    &&& (row.save_action is Some <==> w.editable_by(
        ctx.user_of().id,
        ctx.user_of().is_system_admin,
    ))
    &&& (row.save_action matches Some(a) ==> a@ == row_url(ctx.org_of().id, "/works"@, w.id))
}

/// A voice in the list.
pub struct VoiceListRow {
    pub name: String,
    pub instrument: String,
    /// Only for those who may edit.
    pub edit_href: Option<String>,
}

/// The voices of an arrangement.
pub struct VoicesPage {
    pub title: String,
    pub can_edit: bool,
    pub rows: Vec<VoiceListRow>,
    pub create_action: String,
    /// Only for those who may edit.
    pub picker: Option<Vec<FamilyGroup>>,
    pub back: String,
}

/// Whether `row` shows the voice `v`.
pub open spec fn lists_voice(
    row: VoiceListRow,
    v: Voice,
    instruments: Seq<Instrument>,
    org: Uuid,
    arr: Uuid,
    can_edit: bool,
) -> bool {
    &&& row.name == v.name
    &&& row.instrument@ == name_of(instruments, v.instrument_id)
    &&& (row.edit_href is Some <==> can_edit)
    &&& (row.edit_href matches Some(h) ==> h@ == voice_url(org, arr, v.id))
}

/// Whether `r` is what [`voices_page`] owes its caller.
pub open spec fn voices_page_outcome(
    r: Result<VoicesPage, Reply>,
    ctx: ConsoleCtx,
    arr_id: Uuid,
    found: Lookup<Arrangement>,
    listed: Option<&Vec<Voice>>,
    instruments: Vec<Instrument>,
) -> bool {
    &&& !ctx.access_of().staff() ==> refused(r, ReplyView::SectionForbidden)
    &&& ctx.access_of().staff() ==> match in_org(found, ctx.org_of().id) {
        Lookup::Missing => refused(r, arr_error(404, "Arrangement not found."@)),
        Lookup::Failed => refused(r, arr_error(500, "Could not load voices."@)),
        Lookup::Found(a) => match listed {
            None => refused(r, arr_error(500, "Could not load voices."@)),
            Some(voices) => {
                let org = ctx.org_of().id;
                let can_edit = ctx.access_of().edits_arrangements();
                &&& r is Ok
                &&& r->Ok_0.title == a.title
                &&& r->Ok_0.can_edit == can_edit
                &&& r->Ok_0.rows@.len() == voices@.len()
                &&& forall|i: int|
                    0 <= i < voices@.len() ==> lists_voice(
                        #[trigger] r->Ok_0.rows@[i],
                        voices@[i],
                        instruments@,
                        org,
                        arr_id,
                        can_edit,
                    )
                &&& r->Ok_0.create_action@ == voices_url(org, arr_id)
                &&& (r->Ok_0.picker is Some <==> can_edit)
                &&& (r->Ok_0.picker matches Some(p) ==> is_picker(
                    p@,
                    instruments@,
                    Seq::empty(),
                ))
                &&& r->Ok_0.back@ == arrangement_url(org, arr_id)
            },
        },
    }
}

/// The voices of an arrangement. `listed` is `None` where they could not be
/// listed.
pub fn voices_page(
    ctx: &ConsoleCtx,
    arr_id: Uuid,
    found: Lookup<Arrangement>,
    listed: Option<&Vec<Voice>>,
    instruments: &Vec<Instrument>,
) -> (r: Result<VoicesPage, Reply>)
    ensures
        voices_page_outcome(r, *ctx, arr_id, found, listed, *instruments),
{
    let org: Uuid = ctx.org().id;
    let a: Arrangement = match open_row(
        ctx.is_staff(),
        scoped_arrangement(found, org),
        Section::Arrangements,
        "Arrangement not found.",
        "Could not load voices.",
    ) {
        Ok(a) => a,
        Err(reply) => return Err(reply),
    };
    let voices: &Vec<Voice> = match listed {
        Some(voices) => voices,
        None => return Err(error_page(500, "Could not load voices.")),
    };
    let can_edit: bool = ctx.can_edit_arrangements();
    let mut rows: Vec<VoiceListRow> = Vec::new();
    let mut i: usize = 0;
    while i < voices.len()
        invariant
            i <= voices.len(),
            rows@.len() == i,
            forall|k: int|
                0 <= k < i ==> lists_voice(
                    #[trigger] rows@[k],
                    voices@[k],
                    instruments@,
                    org,
                    arr_id,
                    can_edit,
                ),
        decreases voices.len() - i,
    {
        let v: &Voice = &voices[i];
        rows.push(
            VoiceListRow {
                name: v.name.clone(),
                instrument: instrument_name(instruments, v.instrument_id),
                edit_href: if can_edit {
                    Some(voice_path(org, arr_id, v.id))
                } else {
                    None
                },
            },
        );
        i = i + 1;
    }
    let none: Vec<Uuid> = Vec::new();
    Ok(
        VoicesPage {
            title: a.title,
            can_edit,
            rows,
            create_action: voices_path(org, arr_id),
            picker: if can_edit {
                Some(instrument_picker(instruments, &none))
            } else {
                None
            },
            back: arrangement_path(org, arr_id),
        },
    )
}

/// The page of a voice.
pub struct VoicePage {
    pub name: String,
    pub slug: String,
    pub deleted: bool,
    /// What can be changed is the name and the instrument; what can be read is
    /// the instrument's name.
    pub controls: Controls<Vec<FamilyGroup>, String>,
    pub back: String,
}

/// Whether `p` is the page of the voice `v`.
pub open spec fn is_voice_page(
    p: VoicePage,
    v: Voice,
    org: Uuid,
    arr: Uuid,
    can_edit: bool,
    instruments: Seq<Instrument>,
) -> bool {
    let url = voice_url(org, arr, v.id);
    &&& p.name == v.name && p.slug == v.slug
    &&& p.deleted == (v.deleted_at is Some)
    &&& match p.controls {
        Controls::Restore { action } => can_edit && v.deleted_at is Some && action@ == url
            + "/undelete"@,
        Controls::Edit { action, delete_action, version, fields } => {
            &&& can_edit && v.deleted_at is None
            &&& action@ == url
            &&& delete_action@ == url + "/delete"@
            &&& version == v.updated_at.millis
            &&& is_picker(fields@, instruments, seq![v.instrument_id])
        },
        Controls::ReadOnly(name) => !can_edit && name@ == name_of(instruments, v.instrument_id),
    }
    &&& p.back@ == voices_url(org, arr)
}

/// Whether `r` is what [`voice_detail_page`] owes its caller.
pub open spec fn voice_detail_page_outcome(
    r: Result<VoicePage, Reply>,
    ctx: ConsoleCtx,
    arr_id: Uuid,
    parent: Lookup<Arrangement>,
    found: Lookup<Voice>,
    instruments: Vec<Instrument>,
) -> bool {
    &&& !ctx.access_of().staff() ==> refused(r, ReplyView::SectionForbidden)
    &&& ctx.access_of().staff() ==> match in_arrangement(parent, found, ctx.org_of().id, arr_id) {
        Lookup::Missing => refused(r, arr_error(404, "Voice not found."@)),
        Lookup::Failed => refused(r, arr_error(500, "Could not load the voice."@)),
        Lookup::Found(v) => r is Ok && is_voice_page(
            r->Ok_0,
            v,
            ctx.org_of().id,
            arr_id,
            ctx.access_of().edits_arrangements(),
            instruments@,
        ),
    }
}

/// The page of a voice, deleted or not.
pub fn voice_detail_page(
    ctx: &ConsoleCtx,
    arr_id: Uuid,
    parent: Lookup<Arrangement>,
    found: Lookup<Voice>,
    instruments: &Vec<Instrument>,
) -> (r: Result<VoicePage, Reply>)
    ensures
        voice_detail_page_outcome(r, *ctx, arr_id, parent, found, *instruments),
{
    let org: Uuid = ctx.org().id;
    let v: Voice = match open_row(
        ctx.is_staff(),
        scoped_voice(parent, found, org, arr_id),
        Section::Arrangements,
        "Voice not found.",
        "Could not load the voice.",
    ) {
        Ok(v) => v,
        Err(reply) => return Err(reply),
    };
    let can_edit: bool = ctx.can_edit_arrangements();
    let base: String = voice_path(org, arr_id, v.id);
    let deleted: bool = v.deleted_at.is_some();
    let controls: Controls<Vec<FamilyGroup>, String> = if deleted && can_edit {
        Controls::Restore { action: base.concat("/undelete") }
    } else if can_edit {
        let mut chosen: Vec<Uuid> = Vec::new();
        chosen.push(v.instrument_id);
        assert(chosen@ == seq![v.instrument_id]);
        Controls::Edit {
            action: base.clone(),
            delete_action: base.concat("/delete"),
            version: v.updated_at.millis,
            fields: instrument_picker(instruments, &chosen),
        }
    } else {
        Controls::ReadOnly(instrument_name(instruments, v.instrument_id))
    };
    Ok(VoicePage { name: v.name, slug: v.slug, deleted, controls, back: voices_path(org, arr_id) })
}

/// Whether `form` is the form `f` submitted as it stands.
pub open spec fn submits(form: ArrangementForm, f: FormFields) -> bool {
    &&& text_of(form.title) == Some(f.title@)
    &&& text_of(form.instrumentation) == Some(f.instrumentation@)
    &&& text_of(form.arranger) == Some(f.arranger@)
    &&& text_of(form.publisher) == Some(f.publisher@)
    &&& text_of(form.purchase_date) == Some(f.purchase_date@)
    &&& text_of(form.license_notes) == Some(f.license_notes@)
    &&& text_of(form.copy_count_allowed) == Some(f.copy_count_allowed@)
    &&& text_of(form.duration_seconds) == Some(f.duration_seconds@)
    &&& text_of(form.difficulty) == Some(f.difficulty@)
    &&& text_of(form.difficulty_notes) == Some(f.difficulty_notes@)
    &&& text_of(form.status) == Some(
        if f.archived_selected {
            "archived"@
        } else {
            "active"@
        },
    )
    &&& (exists|k: int| 0 <= k < f.works@.len() && (#[trigger] f.works@[k]).selected && text_of(
        form.work_id,
    ) == Some(uuid_text(f.works@[k].id))) || (text_of(form.work_id) == Some(Seq::<char>::empty())
        && forall|k: int| 0 <= k < f.works@.len() ==> !(#[trigger] f.works@[k]).selected)
    &&& f.ratings@.len() == 5
    &&& text_of(form.rating_abrsm) == Some(f.ratings@[0].value@)
    &&& text_of(form.rating_aba) == Some(f.ratings@[1].value@)
    &&& text_of(form.rating_henle) == Some(f.ratings@[2].value@)
    &&& text_of(form.rating_rcm) == Some(f.ratings@[3].value@)
    &&& text_of(form.rating_trinity) == Some(f.ratings@[4].value@)
}

/// Whether a text, where there is one, is one that a form can have stored.
pub open spec fn neat(t: Option<String>) -> bool {
    t is Some ==> bare(t->0@)
}

/// Whether the values of `a` are such as the form stores.
pub open spec fn is_kept_by_the_form(a: Arrangement, works: Seq<Work>) -> bool {
    &&& bare(a.title@) && neat(a.instrumentation) && neat(a.arranger) && neat(a.publisher)
    &&& neat(a.license_notes) && neat(a.difficulty_notes)
    &&& a.status@ == "active"@ || a.status@ == "archived"@
    &&& a.copy_count_allowed is Some ==> a.copy_count_allowed->0 >= 0
    &&& a.duration_seconds is Some ==> a.duration_seconds->0 >= 0
    &&& a.difficulty is Some ==> 1 <= a.difficulty->0 <= 8
    &&& a.purchase_date is Some ==> read_date_view(a.purchase_date->0.text_view())
        == a.purchase_date
    &&& a.work_id is Some ==> read_uuid(uuid_text(a.work_id->0)) == a.work_id && exists|k: int|
        0 <= k < works.len() && (#[trigger] works[k]).id == a.work_id->0
    &&& a.difficulty_ratings is Some ==> forall|key: Seq<char>| #[trigger]
        value_entries(a.difficulty_ratings->0).contains_key(key) ==> {
            &&& key == "abrsm"@ || key == "aba"@ || key == "henle"@ || key == "rcm"@ || key
                == "trinity"@
            &&& value_entries(a.difficulty_ratings->0)[key] is Some && bare(
                value_entries(a.difficulty_ratings->0)[key]->0,
            )
        }
    &&& a.difficulty_ratings is Some ==> value_entries(a.difficulty_ratings->0) != no_entries()
}

proof fn lemma_text_is_kept(shown: Seq<char>, stored: Option<Seq<char>>)
    requires
        stored is Some ==> bare(stored->0),
        shown == or_empty(stored),
    ensures
        entered(Some(shown)) == stored,
{
    bare_text_is_taken_in_as_it_stands(shown);
}

/// Opening the form on a stored arrangement and saving it as it stands is
/// accepted and stores the same fields again. `abrsm_grade` is the grade that
/// the stored ABRSM rating rounds to.
pub proof fn saving_an_unchanged_form_changes_nothing(
    a: Arrangement,
    works: Seq<Work>,
    f: FormFields,
    form: ArrangementForm,
    abrsm_grade: Option<i16>,
    r: Result<Parsed, String>,
)
    requires
        is_kept_by_the_form(a, works),
        shows_arrangement(f, a, works),
        submits(form, f),
        a.difficulty is Some && stored_rating(a.difficulty_ratings, "abrsm"@).len() > 0
            ==> abrsm_grade == a.difficulty,
        form.amounts_to(r, abrsm_grade),
    ensures
        r is Ok,
        r->Ok_0.title@ == a.title@,
        r->Ok_0.work_id == a.work_id,
        text_of(r->Ok_0.instrumentation) == text_of(a.instrumentation),
        text_of(r->Ok_0.arranger) == text_of(a.arranger),
        text_of(r->Ok_0.publisher) == text_of(a.publisher),
        r->Ok_0.purchase_date == a.purchase_date,
        text_of(r->Ok_0.license_notes) == text_of(a.license_notes),
        r->Ok_0.copy_count_allowed == a.copy_count_allowed,
        r->Ok_0.status@ == a.status@,
        r->Ok_0.duration_seconds == a.duration_seconds,
        r->Ok_0.difficulty == a.difficulty,
        text_of(r->Ok_0.difficulty_notes) == text_of(a.difficulty_notes),
        r->Ok_0.difficulty_ratings is Some <==> a.difficulty_ratings is Some,
        r->Ok_0.difficulty_ratings is Some ==> value_entries(r->Ok_0.difficulty_ratings->0)
            == value_entries(a.difficulty_ratings->0),
{
    lemma_text_is_kept(f.title@, Some(a.title@));
    lemma_text_is_kept(f.instrumentation@, text_of(a.instrumentation));
    lemma_text_is_kept(f.arranger@, text_of(a.arranger));
    lemma_text_is_kept(f.publisher@, text_of(a.publisher));
    lemma_text_is_kept(f.license_notes@, text_of(a.license_notes));
    lemma_text_is_kept(f.difficulty_notes@, text_of(a.difficulty_notes));
    reveal_strlit("active");
    reveal_strlit("archived");
    assert("active"@.len() != "archived"@.len());
    assert(!is_white_space('a') && !is_white_space('e') && !is_white_space('d'));
    lemma_text_is_kept("active"@, Some("active"@));
    lemma_text_is_kept("archived"@, Some("archived"@));
    if let Some(d) = a.purchase_date {
        dates_have_bare_ends(d);
        lemma_text_is_kept(d.text_view(), Some(d.text_view()));
    } else {
        lemma_text_is_kept(f.purchase_date@, None);
    }
    lemma_number_is_kept(
        f.copy_count_allowed@,
        match a.copy_count_allowed {
            Some(n) => Some(n as int),
            None => None,
        },
    );
    lemma_number_is_kept(
        f.duration_seconds@,
        match a.duration_seconds {
            Some(n) => Some(n as int),
            None => None,
        },
    );
    lemma_number_is_kept(
        f.difficulty@,
        match a.difficulty {
            Some(n) => Some(n as int),
            None => None,
        },
    );
    lemma_work_is_kept(a, works, f, form);
    lemma_ratings_are_kept(a, works, f, form);
    assert(form.rating_on("abrsm"@) == entered(text_of(form.rating_abrsm)));
}

proof fn lemma_number_is_kept(shown: Seq<char>, stored: Option<int>)
    requires
        stored is Some ==> 0 <= stored->0 <= i32::MAX,
        shown == number_or_empty(stored),
    ensures
        stored is None ==> entered(Some(shown)) is None,
        stored is Some ==> entered(Some(shown)) is Some && read_int(
            entered(Some(shown))->0,
            i32::MIN as int,
            i32::MAX as int,
        ) == stored,
        stored is Some && stored->0 <= i16::MAX ==> read_int(
            entered(Some(shown))->0,
            i16::MIN as int,
            i16::MAX as int,
        ) == stored,
{
    if let Some(n) = stored {
        numbers_have_bare_ends(n);
        lemma_text_is_kept(shown, Some(shown));
        text_reads_back(n, i32::MIN as int, i32::MAX as int);
        if n <= i16::MAX {
            text_reads_back(n, i16::MIN as int, i16::MAX as int);
        }
    } else {
        lemma_text_is_kept(shown, None);
    }
}

proof fn lemma_work_is_kept(a: Arrangement, works: Seq<Work>, f: FormFields, form: ArrangementForm)
    requires
        is_kept_by_the_form(a, works),
        shows_arrangement(f, a, works),
        submits(form, f),
    ensures
        entered_id(text_of(form.work_id)) == a.work_id,
        entered(text_of(form.work_id)) is Some <==> a.work_id is Some,
{
    lemma_text_is_kept(Seq::empty(), None);
    if let Some(id) = a.work_id {
        identifiers_have_bare_ends(id);
        lemma_text_is_kept(uuid_text(id), Some(uuid_text(id)));
        let k = choose|k: int| 0 <= k < works.len() && (#[trigger] works[k]).id == id;
        assert(f.works@[k].selected);
    }
}

proof fn lemma_ratings_are_kept(
    a: Arrangement,
    works: Seq<Work>,
    f: FormFields,
    form: ArrangementForm,
)
    requires
        is_kept_by_the_form(a, works),
        shows_arrangement(f, a, works),
        submits(form, f),
    ensures
        a.difficulty_ratings is Some ==> form.ratings() == value_entries(a.difficulty_ratings->0),
        a.difficulty_ratings is None ==> form.ratings() == no_entries(),
        form.rating_on("abrsm"@) is Some ==> stored_rating(a.difficulty_ratings, "abrsm"@).len()
            > 0,
{
    reveal_strlit("abrsm");
    reveal_strlit("aba");
    reveal_strlit("henle");
    reveal_strlit("rcm");
    reveal_strlit("trinity");
    assert("abrsm"@[0] == 'a' && "henle"@[0] == 'h');
    assert("aba"@[0] == 'a' && "rcm"@[0] == 'r');
    assert forall|i: int| 0 <= i < 5 implies entered(Some((#[trigger] f.ratings@[i]).value@)) == (
    if a.difficulty_ratings is Some && value_entries(a.difficulty_ratings->0).contains_key(
        f.ratings@[i].key@,
    ) {
        value_entries(a.difficulty_ratings->0)[f.ratings@[i].key@]
    } else {
        None
    }) by {
        let key = f.ratings@[i].key@;
        assert(f.ratings@[i].value@ == stored_rating(a.difficulty_ratings, key));
        if a.difficulty_ratings is Some && value_entries(a.difficulty_ratings->0).contains_key(
            key,
        ) {
            lemma_text_is_kept(
                f.ratings@[i].value@,
                value_entries(a.difficulty_ratings->0)[key],
            );
        } else {
            lemma_text_is_kept(f.ratings@[i].value@, None);
        }
    }
    let typed = form.ratings();
    assert(f.ratings@[0].key@ == "abrsm"@ && f.ratings@[1].key@ == "aba"@);
    assert(f.ratings@[2].key@ == "henle"@ && f.ratings@[3].key@ == "rcm"@);
    assert(f.ratings@[4].key@ == "trinity"@);
    if let Some(v) = a.difficulty_ratings {
        assert forall|key: Seq<char>| #[trigger] typed.contains_key(key) <==> value_entries(
            v,
        ).contains_key(key) by {}
        assert(typed =~= value_entries(v));
    } else {
        assert(typed =~= no_entries());
    }
    bare_text_is_taken_in_as_it_stands(Seq::empty());
}

/// The list of arrangements shows each one in its place; those who may not edit
/// are offered to view it.
pub proof fn the_list_shows_each_arrangement(
    page: ArrangementsPage,
    ctx: ConsoleCtx,
    listed: &Vec<Arrangement>,
    works: Vec<Work>,
    i: int,
)
    requires
        list_page_outcome(Ok::<ArrangementsPage, Reply>(page), ctx, Some(listed), works),
        0 <= i < listed@.len(),
    ensures
        page.rows@.len() == listed@.len(),
        page.rows@[i].title@ == listed@[i].title@,
        page.rows@[i].status@ == listed@[i].status@,
        page.rows@[i].href@ == arrangement_url(ctx.org_of().id, listed@[i].id),
        listed@[i].difficulty matches Some(d) ==> page.rows@[i].difficulty@ == int_text(d as int),
        listed@[i].difficulty is None ==> page.rows@[i].difficulty@ == "—"@,
        page.rows@[i].link@ == (if ctx.access_of().edits_arrangements() {
            "Edit"@
        } else {
            "View"@
        }),
        page.can_edit <==> ctx.access_of().edits_arrangements(),
        page.create_fields is Some <==> ctx.access_of().edits_arrangements(),
        page.create_action@ == list_url(ctx.org_of().id, "/arrangements"@),
{
    assert(lists_arrangement(
        page.rows@[i],
        listed@[i],
        ctx.org_of().id,
        ctx.access_of().edits_arrangements(),
    ));
}

/// Whoever may edit is shown the form for the row as it is now, or the way to
/// restore it where it is deleted; everyone else can only read it. The form
/// that is shown is not stale.
pub proof fn the_page_of_an_arrangement_fits_the_caller(
    page: ArrangementPage,
    ctx: ConsoleCtx,
    a: Arrangement,
    works: Vec<Work>,
    attached: Vec<Tag>,
    all_tags: Vec<Tag>,
)
    requires
        detail_page_outcome(
            Ok::<ArrangementPage, Reply>(page),
            ctx,
            Lookup::Found(a),
            works,
            attached,
            all_tags,
        ),
    ensures
        ctx.access_of().staff() && a.organization_id == ctx.org_of().id,
        page.slug@ == a.slug@ && page.status@ == a.status@,
        page.deleted <==> a.deleted_at is Some,
        page.controls is ReadOnly <==> !ctx.access_of().edits_arrangements(),
        page.controls is Restore <==> ctx.access_of().edits_arrangements() && a.deleted_at is Some,
        page.controls matches Controls::Restore { action } ==> action@ == arrangement_url(
            ctx.org_of().id,
            a.id,
        ) + "/undelete"@,
        page.controls matches Controls::Edit { action, delete_action, version, fields } ==> {
            &&& action@ == arrangement_url(ctx.org_of().id, a.id)
            &&& delete_action@ == arrangement_url(ctx.org_of().id, a.id) + "/delete"@
            &&& version == a.updated_at.millis
            &&& submitted_version(Some(int_text(version as int))) == Some(
                a.updated_at.millis as int,
            )
            &&& fields.title@ == a.title@
        },
        page.tags@.len() == attached@.len(),
        forall|i: int|
            0 <= i < attached@.len() ==> {
                let (chip, t) = (#[trigger] page.tags@[i], attached@[i]);
                &&& chip.name@ == t.name@ && chip.kind == t.kind
                &&& chip.detach_action is Some <==> ctx.access_of().edits_arrangements()
                &&& chip.detach_action is Some ==> chip.detach_action->0@ == arrangement_url(
                    ctx.org_of().id,
                    a.id,
                ) + "/tags/"@ + uuid_text(t.id) + "/detach"@
            },
        page.attachable is Some <==> ctx.access_of().edits_arrangements(),
        page.voices_href@ == arrangement_url(ctx.org_of().id, a.id) + "/voices"@,
        page.attach_action@ == arrangement_url(ctx.org_of().id, a.id) + "/tags"@,
{
    a_form_is_stale_once_the_row_changed(a.updated_at.millis, a.updated_at.millis);
}

/// The tags that can still be put on an arrangement are those of the
/// organization that are not on it, in their order; `from` says which each is.
pub proof fn the_other_tags_can_be_attached(
    page: ArrangementPage,
    ctx: ConsoleCtx,
    a: Arrangement,
    works: Vec<Work>,
    attached: Vec<Tag>,
    all_tags: Vec<Tag>,
) -> (from: Seq<int>)
    requires
        detail_page_outcome(
            Ok::<ArrangementPage, Reply>(page),
            ctx,
            Lookup::Found(a),
            works,
            attached,
            all_tags,
        ),
        ctx.access_of().edits_arrangements(),
    ensures
        page.attachable is Some && page.attachable->0@.len() == from.len(),
        forall|k: int|
            0 <= k < from.len() ==> {
                &&& 0 <= #[trigger] from[k] < all_tags@.len()
                &&& page.attachable->0@[k].id == all_tags@[from[k]].id
                &&& page.attachable->0@[k].name@ == all_tags@[from[k]].name@
                &&& forall|j: int|
                    0 <= j < attached@.len() ==> (#[trigger] attached@[j]).id
                        != all_tags@[from[k]].id
            },
        forall|i: int|
            0 <= i < all_tags@.len() && (forall|j: int|
                0 <= j < attached@.len() ==> (#[trigger] attached@[j]).id != all_tags@[i].id)
                ==> from.contains(i),
{
    let from = kept_from(all_tags@, not_among(attached@), as_option());
    assert forall|i: int|
        0 <= i < all_tags@.len() && (forall|j: int|
            0 <= j < attached@.len() ==> (#[trigger] attached@[j]).id
                != all_tags@[i].id) implies from.contains(i) by {
        assert(not_among(attached@)(all_tags@[i]));
    }
    from
}

/// The read-only view says of an arrangement all that it has, each under its
/// own label.
pub proof fn the_read_only_view_leaves_nothing_out(a: Arrangement, works: Seq<Work>, l: Seq<Line>)
    requires
        lines(l) == readonly_lines(a, works),
    ensures
        lines(l).contains(("Title"@, a.title@)),
        a.instrumentation is Some ==> lines(l).contains(
            ("Instrumentation"@, a.instrumentation->0@),
        ),
        a.arranger is Some ==> lines(l).contains(("Arranger"@, a.arranger->0@)),
        a.publisher is Some ==> lines(l).contains(("Publisher"@, a.publisher->0@)),
        a.difficulty matches Some(d) ==> lines(l).contains(("Difficulty"@, int_text(d as int))),
        a.difficulty_notes is Some ==> lines(l).contains(
            ("Difficulty notes"@, a.difficulty_notes->0@),
        ),
        forall|k: int|
            0 <= k < works.len() && a.work_id == Some((#[trigger] works[k]).id) && (forall|j: int|
                0 <= j < k ==> (#[trigger] works[j]).id != works[k].id) ==> lines(l).contains(
                ("Work"@, works[k].title@),
            ),
{
    broadcast use vstd::seq_lib::group_seq_properties;

    assert forall|k: int|
        0 <= k < works.len() && a.work_id == Some((#[trigger] works[k]).id) && (forall|j: int|
            0 <= j < k ==> (#[trigger] works[j]).id != works[k].id) implies lines(l).contains(
        ("Work"@, works[k].title@),
    ) by {
        lemma_work_title(works, k);
    }
}

proof fn lemma_work_title(works: Seq<Work>, k: int)
    requires
        0 <= k < works.len(),
        forall|j: int| 0 <= j < k ==> (#[trigger] works[j]).id != works[k].id,
    ensures
        work_title(works, works[k].id) == Some(works[k].title@),
    decreases k,
{
    if k > 0 {
        assert(works[0].id != works[k].id);
        let rest = works.skip(1);
        assert forall|j: int| 0 <= j < k - 1 implies (#[trigger] rest[j]).id != rest[k - 1].id by {
            assert(rest[j] == works[j + 1]);
        }
        lemma_work_title(rest, k - 1);
    }
}

/// The list of works shows each by its title and composer; the way to change
/// one is shown to its creator and to system admins.
pub proof fn the_list_of_works_shows_each_work(
    rows: Vec<WorkRow>,
    ctx: ConsoleCtx,
    works: &Vec<Work>,
    i: int,
)
    requires
        works_page_outcome(Ok::<Vec<WorkRow>, Reply>(rows), ctx, Some(works)),
        0 <= i < works@.len(),
    ensures
        rows@.len() == works@.len(),
        rows@[i].title@ == works@[i].title@,
        text_of(rows@[i].composer) == text_of(works@[i].composer),
        rows@[i].save_action is Some <==> (works@[i].created_by == Some(ctx.user_of().id)
            || ctx.user_of().is_system_admin),
        rows@[i].save_action is Some ==> rows@[i].save_action->0@ == row_url(
            ctx.org_of().id,
            "/works"@,
            works@[i].id,
        ),
{
    assert(shows_work(rows@[i], works@[i], ctx));
}

/// The list of voices shows each by its name and its instrument's name; the way
/// to change one is shown to those who may.
pub proof fn the_list_of_voices_shows_each_voice(
    page: VoicesPage,
    ctx: ConsoleCtx,
    arr_id: Uuid,
    a: Arrangement,
    voices: &Vec<Voice>,
    instruments: Vec<Instrument>,
    i: int,
)
    requires
        voices_page_outcome(
            Ok::<VoicesPage, Reply>(page),
            ctx,
            arr_id,
            Lookup::Found(a),
            Some(voices),
            instruments,
        ),
        0 <= i < voices@.len(),
    ensures
        ctx.access_of().staff() && a.organization_id == ctx.org_of().id,
        page.title@ == a.title@,
        page.rows@.len() == voices@.len(),
        page.rows@[i].name@ == voices@[i].name@,
        forall|j: int| #[trigger]
            is_first_with(instruments@, voices@[i].instrument_id, j) ==> page.rows@[i].instrument@
                == instruments@[j].display_name@,
        page.rows@[i].edit_href is Some <==> ctx.access_of().edits_arrangements(),
        page.rows@[i].edit_href is Some ==> page.rows@[i].edit_href->0@ == voice_url(
            ctx.org_of().id,
            arr_id,
            voices@[i].id,
        ),
        page.can_edit <==> ctx.access_of().edits_arrangements(),
        page.picker is Some <==> ctx.access_of().edits_arrangements(),
        page.create_action@ == voices_url(ctx.org_of().id, arr_id),
        page.back@ == arrangement_url(ctx.org_of().id, arr_id),
{
    assert(lists_voice(
        page.rows@[i],
        voices@[i],
        instruments@,
        ctx.org_of().id,
        arr_id,
        ctx.access_of().edits_arrangements(),
    ));
    assert forall|j: int| #[trigger]
        is_first_with(instruments@, voices@[i].instrument_id, j) implies page.rows@[i].instrument@
        == instruments@[j].display_name@ by {
        an_instrument_goes_by_its_name(instruments@, voices@[i].instrument_id, j);
    }
}

/// Whoever may edit is shown the form for the voice as it is now, its own
/// instrument ticked, or the way to restore it where it is deleted; everyone
/// else is shown its instrument.
pub proof fn the_page_of_a_voice_fits_the_caller(
    page: VoicePage,
    ctx: ConsoleCtx,
    arr_id: Uuid,
    parent: Lookup<Arrangement>,
    v: Voice,
    instruments: Vec<Instrument>,
)
    requires
        voice_detail_page_outcome(
            Ok::<VoicePage, Reply>(page),
            ctx,
            arr_id,
            parent,
            Lookup::Found(v),
            instruments,
        ),
    ensures
        ctx.access_of().staff() && v.arrangement_id == arr_id,
        parent matches Lookup::Found(a) && a.organization_id == ctx.org_of().id,
        page.name@ == v.name@ && page.slug@ == v.slug@,
        page.deleted <==> v.deleted_at is Some,
        page.controls is ReadOnly <==> !ctx.access_of().edits_arrangements(),
        page.controls is Restore <==> ctx.access_of().edits_arrangements() && v.deleted_at is Some,
        page.controls matches Controls::Restore { action } ==> action@ == voice_url(
            ctx.org_of().id,
            arr_id,
            v.id,
        ) + "/undelete"@,
        page.controls matches Controls::Edit { action, delete_action, version, fields } ==> {
            &&& action@ == voice_url(ctx.org_of().id, arr_id, v.id)
            &&& delete_action@ == voice_url(ctx.org_of().id, arr_id, v.id) + "/delete"@
            &&& version == v.updated_at.millis
            &&& forall|g: int, k: int|
                0 <= g < fields@.len() && 0 <= k < fields@[g].options@.len() ==> ((
                #[trigger] fields@[g].options@[k]).selected <==> fields@[g].options@[k].id
                    == v.instrument_id)
        },
        page.back@ == voices_url(ctx.org_of().id, arr_id),
{
    if let Controls::Edit { action, delete_action, version, fields } = page.controls {
        chosen_instruments_are_ticked(fields@, instruments@, seq![v.instrument_id]);
        assert forall|id: Uuid| #[trigger] seq![v.instrument_id].contains(id) <==> id
            == v.instrument_id by {
            assert(seq![v.instrument_id][0] == v.instrument_id);
        }
    }
}

/// The form of a new arrangement starts out empty, and active.
pub proof fn a_new_form_starts_out_empty(f: FormFields, works: Seq<Work>)
    requires
        shows_new(f, works),
    ensures
        f.title@.len() == 0 && f.instrumentation@.len() == 0 && f.arranger@.len() == 0,
        f.publisher@.len() == 0 && f.purchase_date@.len() == 0 && f.license_notes@.len() == 0,
        f.copy_count_allowed@.len() == 0 && f.duration_seconds@.len() == 0,
        f.difficulty@.len() == 0 && f.difficulty_notes@.len() == 0,
        f.active_selected && !f.archived_selected,
        f.works@.len() == works.len(),
        forall|i: int|
            0 <= i < works.len() ==> (#[trigger] f.works@[i]).id == works[i].id
                && f.works@[i].title@ == works[i].title@ && !f.works@[i].selected,
        forall|i: int| 0 <= i < f.ratings@.len() ==> (#[trigger] f.ratings@[i]).value@.len() == 0,
{
}

/// Staff see the arrangements, unless they could not be listed; nobody else does.
pub proof fn staff_see_the_arrangements(
    r: Result<ArrangementsPage, Reply>,
    ctx: ConsoleCtx,
    listed: Option<&Vec<Arrangement>>,
    works: Vec<Work>,
)
    requires
        list_page_outcome(r, ctx, listed, works),
    ensures
        r is Ok <==> ctx.access_of().staff() && listed is Some,
        !ctx.access_of().staff() ==> r->Err_0@.status() == 403,
        ctx.access_of().staff() && listed is None ==> r->Err_0@.status() == 500,
        r is Ok ==> r->Ok_0.works_href@ == list_url(ctx.org_of().id, "/works"@)
            && r->Ok_0.tags_href@
            == list_url(ctx.org_of().id, "/tags"@),
        r is Ok && r->Ok_0.create_fields is Some ==> shows_new(r->Ok_0.create_fields->0, works@),
{
}

/// Staff see the arrangements of their organization, and nobody sees others.
pub proof fn staff_see_the_arrangements_of_their_organization(
    r: Result<ArrangementPage, Reply>,
    ctx: ConsoleCtx,
    found: Lookup<Arrangement>,
    works: Vec<Work>,
    attached: Vec<Tag>,
    all_tags: Vec<Tag>,
)
    requires
        detail_page_outcome(r, ctx, found, works, attached, all_tags),
    ensures
        r is Ok <==> ctx.access_of().staff() && (found matches Lookup::Found(a)
            && a.organization_id == ctx.org_of().id),
        !ctx.access_of().staff() ==> r->Err_0@.status() == 403,
        ctx.access_of().staff() && found is Failed ==> r->Err_0@.status() == 500,
        ctx.access_of().staff() && !(found is Failed) && r is Err ==> r->Err_0@.status() == 404,
        r is Ok ==> {
            let a = found->Found_0;
            &&& r->Ok_0.controls matches Controls::Edit { fields, .. } ==> shows_arrangement(
                fields,
                a,
                works@,
            )
            &&& r->Ok_0.controls matches Controls::ReadOnly(l) ==> lines(l@) == readonly_lines(
                a,
                works@,
            )
            &&& r->Ok_0.tags_href@ == list_url(ctx.org_of().id, "/tags"@)
            &&& r->Ok_0.back@ == list_url(ctx.org_of().id, "/arrangements"@)
        },
{
}

/// Staff see the works, unless they could not be listed; nobody else does.
pub proof fn staff_see_the_works(
    r: Result<Vec<WorkRow>, Reply>,
    ctx: ConsoleCtx,
    listed: Option<&Vec<Work>>,
)
    requires
        works_page_outcome(r, ctx, listed),
    ensures
        r is Ok <==> ctx.access_of().staff() && listed is Some,
        !ctx.access_of().staff() ==> r->Err_0@.status() == 403,
        ctx.access_of().staff() && listed is None ==> r->Err_0@.status() == 500,
{
}

/// Staff see the voices of the arrangements of their organization, unless they
/// could not be listed.
pub proof fn staff_see_the_voices_of_their_arrangements(
    r: Result<VoicesPage, Reply>,
    ctx: ConsoleCtx,
    arr_id: Uuid,
    found: Lookup<Arrangement>,
    listed: Option<&Vec<Voice>>,
    instruments: Vec<Instrument>,
)
    requires
        voices_page_outcome(r, ctx, arr_id, found, listed, instruments),
    ensures
        r is Ok <==> ctx.access_of().staff() && (found matches Lookup::Found(a)
            && a.organization_id == ctx.org_of().id) && listed is Some,
        !ctx.access_of().staff() ==> r->Err_0@.status() == 403,
        ctx.access_of().staff() && (found matches Lookup::Found(a)
            && a.organization_id == ctx.org_of().id) && listed is None
            ==> r->Err_0@.status() == 500,
        ctx.access_of().staff() && found is Missing ==> r->Err_0@.status() == 404,
        r is Ok && r->Ok_0.picker is Some ==> is_picker(
            r->Ok_0.picker->0@,
            instruments@,
            Seq::empty(),
        ),
{
}

/// Staff see the voices of the arrangements of their organization, and nobody
/// sees others.
pub proof fn staff_see_the_voices_of_their_organization(
    r: Result<VoicePage, Reply>,
    ctx: ConsoleCtx,
    arr_id: Uuid,
    parent: Lookup<Arrangement>,
    found: Lookup<Voice>,
    instruments: Vec<Instrument>,
)
    requires
        voice_detail_page_outcome(r, ctx, arr_id, parent, found, instruments),
    ensures
        r is Ok <==> ctx.access_of().staff() && (parent matches Lookup::Found(a)
            && a.organization_id == ctx.org_of().id) && (
        found matches Lookup::Found(v) && v.arrangement_id == arr_id),
        !ctx.access_of().staff() ==> r->Err_0@.status() == 403,
        r is Ok ==> (r->Ok_0.controls matches Controls::ReadOnly(name) ==> name@ == name_of(
            instruments@,
            found->Found_0.instrument_id,
        )),
        ctx.access_of().staff() && r is Err ==> r->Err_0@.status() == 404
            || r->Err_0@.status() == 500,
{
}

/// The form has a box for each of the five scales, under its name, and selects
/// the status that the arrangement has.
pub proof fn the_form_has_a_box_for_each_scale(f: FormFields, a: Arrangement, works: Seq<Work>)
    requires
        shows_arrangement(f, a, works),
    ensures
        f.ratings@.len() == 5,
        f.ratings@[0].key@ == "abrsm"@ && f.ratings@[0].label@ == "ABRSM"@,
        f.ratings@[1].key@ == "aba"@ && f.ratings@[1].label@ == "ABA"@,
        f.ratings@[2].key@ == "henle"@ && f.ratings@[2].label@ == "Henle"@,
        f.ratings@[3].key@ == "rcm"@ && f.ratings@[3].label@ == "RCM"@,
        f.ratings@[4].key@ == "trinity"@ && f.ratings@[4].label@ == "Trinity"@,
        f.active_selected <==> a.status@ == "active"@,
        f.archived_selected <==> a.status@ == "archived"@,
        f.works@.len() == works.len(),
        forall|i: int|
            0 <= i < works.len() ==> {
                &&& (#[trigger] f.works@[i]).id == works[i].id
                &&& f.works@[i].title@ == works[i].title@
                &&& f.works@[i].selected <==> a.work_id == Some(works[i].id)
            },
{
}

/// Saving a voice as its page shows it changes nothing: `g` and `k` say where
/// the ticked instrument stands.
pub proof fn saving_an_unchanged_voice_changes_nothing(
    page: VoicePage,
    ctx: ConsoleCtx,
    arr_id: Uuid,
    parent: Lookup<Arrangement>,
    v: Voice,
    instruments: Vec<Instrument>,
    g: int,
    k: int,
    form: VoiceForm,
    r: Result<VoiceFields, Reply>,
)
    requires
        voice_detail_page_outcome(
            Ok::<VoicePage, Reply>(page),
            ctx,
            arr_id,
            parent,
            Lookup::Found(v),
            instruments,
        ),
        bare(v.name@),
        text_of(form.name) == Some(page.name@),
        page.controls matches Controls::Edit { version, fields, .. } && {
            &&& 0 <= g < fields@.len() && 0 <= k < fields@[g].options@.len()
            &&& fields@[g].options@[k].selected
            &&& text_of(form.instrument_id) == Some(uuid_text(fields@[g].options@[k].id))
            &&& read_uuid(uuid_text(fields@[g].options@[k].id)) == Some(
                fields@[g].options@[k].id,
            )
            &&& text_of(form.expected_version) == Some(int_text(version as int))
        },
        plan_update_voice_outcome(r, ctx, arr_id, parent, Lookup::Found(v), form),
    ensures
        r is Ok,
        r->Ok_0.name@ == v.name@,
        r->Ok_0.instrument_id == v.instrument_id,
{
    the_page_of_a_voice_fits_the_caller(page, ctx, arr_id, parent, v, instruments);
    bare_text_is_taken_in_as_it_stands(v.name@);
    if let Controls::Edit { action, delete_action, version, fields } = page.controls {
        identifiers_have_bare_ends(fields@[g].options@[k].id);
        bare_text_is_taken_in_as_it_stands(uuid_text(fields@[g].options@[k].id));
        a_voice_is_changed_as_the_form_says(r, ctx, arr_id, parent, Lookup::Found(v), form);
    }
}

} // verus!
