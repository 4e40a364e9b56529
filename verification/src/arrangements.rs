//! The console's arrangement, work and voice screens: what they show, what a
//! submitted form leads to, and how each write ends.

use vstd::prelude::*;
use crate::arrangement_form::{was_typed, ArrangementForm, Parsed};
use crate::audit::{detail, entry, text, AuditEntry, FactView};
use crate::console::{ConsoleCtx, Section};
use crate::id::{read_uuid, Uuid};
use crate::model::{Arrangement, Lookup, Voice, Work};
use crate::number::{int_text, read_i64, read_int, text_reads_back};
use crate::reply::{
    error_at, goes_to, open_row, refused, row_opened, settle, Done, Reply, ReplyView,
};
use crate::text::{blank_to_none, entered, text_of, trimmed};
use crate::urls::{
    arrangement_path, arrangement_url, list_path, list_url, voice_path, voice_url, voices_path,
    voices_url,
};

verus! {

/// The arrangement, unless it belongs to another organization: such a one is
/// answered as if it did not exist.
pub open spec fn in_org(found: Lookup<Arrangement>, org: Uuid) -> Lookup<Arrangement> {
    match found {
        Lookup::Found(a) => if a.organization_id == org {
            found
        } else {
            Lookup::Missing
        },
        _ => found,
    }
}

/// The arrangement, unless it belongs to another organization.
pub fn scoped_arrangement(found: Lookup<Arrangement>, org: Uuid) -> (r: Lookup<Arrangement>)
    ensures
        r == in_org(found, org),
{
    match found {
        Lookup::Found(a) => {
            if a.organization_id == org {
                Lookup::Found(a)
            } else {
                Lookup::Missing
            }
        },
        Lookup::Missing => Lookup::Missing,
        Lookup::Failed => Lookup::Failed,
    }
}

/// The voice, unless it belongs to another arrangement or its arrangement to
/// another organization.
pub open spec fn in_arrangement(
    parent: Lookup<Arrangement>,
    found: Lookup<Voice>,
    org: Uuid,
    arr: Uuid,
) -> Lookup<Voice> {
    match in_org(parent, org) {
        Lookup::Failed => Lookup::Failed,
        Lookup::Missing => Lookup::Missing,
        Lookup::Found(_) => match found {
            Lookup::Found(v) => if v.arrangement_id == arr {
                found
            } else {
                Lookup::Missing
            },
            _ => found,
        },
    }
}

/// The voice, unless it belongs to another arrangement or its arrangement to
/// another organization.
pub fn scoped_voice(
    parent: Lookup<Arrangement>,
    found: Lookup<Voice>,
    org: Uuid,
    arr: Uuid,
) -> (r: Lookup<Voice>)
    ensures
        r == in_arrangement(parent, found, org, arr),
{
    match scoped_arrangement(parent, org) {
        Lookup::Failed => Lookup::Failed,
        Lookup::Missing => Lookup::Missing,
        Lookup::Found(_) => match found {
            Lookup::Found(v) => {
                if v.arrangement_id == arr {
                    Lookup::Found(v)
                } else {
                    Lookup::Missing
                }
            },
            Lookup::Missing => Lookup::Missing,
            Lookup::Failed => Lookup::Failed,
        },
    }
}

/// A row of another organization cannot be told from one that does not exist.
pub proof fn foreign_rows_look_missing(
    a: Arrangement,
    parent: Arrangement,
    v: Voice,
    org: Uuid,
    arr: Uuid,
)
    ensures
        a.organization_id != org ==> in_org(Lookup::Found(a), org) == in_org(Lookup::Missing, org),
        parent.organization_id != org || v.arrangement_id != arr ==> in_arrangement(
            Lookup::Found(parent),
            Lookup::Found(v),
            org,
            arr,
        ) == Lookup::<Voice>::Missing,
{
}

/// The version that a form was opened on, as it was submitted.
pub open spec fn submitted_version(v: Option<Seq<char>>) -> Option<int> {
    match v {
        Some(s) => read_int(s, i64::MIN as int, i64::MAX as int),
        None => None,
    }
}

/// Whether a form was opened on the row as it is now.
pub fn version_is_current(submitted: &Option<String>, updated_at: i64) -> (r: bool)
    ensures
        r == (submitted_version(text_of(*submitted)) == Some(updated_at as int)),
{
    match submitted {
        Some(s) => match read_i64(s.as_str()) {
            Some(n) => n == updated_at,
            None => false,
        },
        None => false,
    }
}

/// A form carries the version of the row it was opened on. It is taken for
/// current exactly while the row still has that version.
pub proof fn a_form_is_stale_once_the_row_changed(opened_on: i64, now: i64)
    ensures
        submitted_version(Some(int_text(opened_on as int))) == Some(now as int) <==> opened_on
            == now,
{
    text_reads_back(opened_on as int, i64::MIN as int, i64::MAX as int);
}

/// Why a new arrangement was not stored.
pub enum ArrangementError {
    DuplicateSlug,
    UnknownWork,
    Database,
}

/// An error page of the arrangements section.
pub open spec fn arr_error(status: u16, message: Seq<char>) -> ReplyView {
    error_at(Section::Arrangements, status, message)
}

/// An error page of the arrangements section.
pub fn error_page(status: u16, message: &str) -> (r: Reply)
    ensures
        r@ == arr_error(status, message@),
{
    Reply::error_page(Section::Arrangements, status, message)
}

/// The answer where no form token could be had.
pub fn form_unavailable() -> (r: Reply)
    ensures
        r@ == arr_error(500, "Could not prepare the form. Please retry."@),
{
    error_page(500, "Could not prepare the form. Please retry.")
}

/// Whether `r` is what [`plan_create`] owes its caller.
pub open spec fn plan_create_outcome(
    r: Result<Parsed, Reply>,
    ctx: ConsoleCtx,
    form: ArrangementForm,
    abrsm_grade: Option<i16>,
) -> bool {
    &&& !ctx.access_of().edits_arrangements() ==> refused(r, ReplyView::SectionForbidden)
    &&& ctx.access_of().edits_arrangements() ==> match form.complaint(abrsm_grade) {
        Some(message) => refused(r, arr_error(400, message)),
        None => r is Ok && form.says(r->Ok_0),
    }
}

/// The fields of a new arrangement, from the form.
pub fn plan_create(ctx: &ConsoleCtx, form: &ArrangementForm, abrsm_grade: Option<i16>) -> (r: Result<
    Parsed,
    Reply,
>)
    ensures
        plan_create_outcome(r, *ctx, *form, abrsm_grade),
{
    if !ctx.can_edit_arrangements() {
        return Err(Reply::SectionForbidden);
    }
    match form.parse(abrsm_grade) {
        Ok(parsed) => Ok(parsed),
        Err(message) => Err(error_page(400, message.as_str())),
    }
}

/// Whether `r` is what [`created`] owes its caller.
pub open spec fn created_outcome(
    r: Done,
    ctx: ConsoleCtx,
    request_id: Uuid,
    id: Uuid,
    result: Result<Arrangement, ArrangementError>,
) -> bool {
    match result {
        Ok(a) => r.recorded(
            entry(
                ctx.audit_context(request_id),
                "arrangement.create"@,
                "arrangement"@,
                a.id,
                seq![
                    detail("title"@, FactView::Text(a.title@)),
                    detail("slug"@, FactView::Text(a.slug@)),
                ],
            ),
            goes_to(arrangement_url(ctx.org_of().id, id)),
        ),
        Err(ArrangementError::DuplicateSlug) => r.unrecorded(
            arr_error(
                409,
                "An arrangement with a slug derived from this title already exists in this organization."@,
            ),
        ),
        Err(ArrangementError::UnknownWork) => r.unrecorded(
            arr_error(400, "The selected work no longer exists."@),
        ),
        Err(ArrangementError::Database) => r.unrecorded(
            arr_error(500, "Could not create the arrangement."@),
        ),
    }
}

/// How storing a new arrangement under `id` ended.
pub fn created(
    ctx: &ConsoleCtx,
    request_id: Uuid,
    id: Uuid,
    result: Result<Arrangement, ArrangementError>,
) -> (r: Done)
    ensures
        created_outcome(r, *ctx, request_id, id, result),
{
    match result {
        Ok(a) => Done::saved(
            AuditEntry::new(
                ctx.audit_ctx(request_id),
                "arrangement.create",
                "arrangement",
                a.id,
            ).with("title", text(a.title.as_str())).with("slug", text(a.slug.as_str())),
            arrangement_path(ctx.org().id, id),
        ),
        Err(ArrangementError::DuplicateSlug) => Done::refused(
            error_page(
                409,
                "An arrangement with a slug derived from this title already exists in this organization.",
            ),
        ),
        Err(ArrangementError::UnknownWork) => Done::refused(
            error_page(400, "The selected work no longer exists."),
        ),
        Err(ArrangementError::Database) => Done::refused(
            error_page(500, "Could not create the arrangement."),
        ),
    }
}

/// Whether `r` is what [`plan_update`] owes its caller.
pub open spec fn plan_update_outcome(
    r: Result<Parsed, Reply>,
    ctx: ConsoleCtx,
    arr_id: Uuid,
    found: Lookup<Arrangement>,
    form: ArrangementForm,
    abrsm_grade: Option<i16>,
) -> bool {
    &&& !ctx.access_of().edits_arrangements() ==> refused(r, ReplyView::SectionForbidden)
    &&& ctx.access_of().edits_arrangements() ==> match in_org(found, ctx.org_of().id) {
        Lookup::Missing => refused(r, arr_error(404, "Arrangement not found."@)),
        Lookup::Failed => refused(r, arr_error(500, "Could not load the arrangement."@)),
        Lookup::Found(a) => if submitted_version(text_of(form.expected_version)) != Some(
            a.updated_at.millis as int,
        ) {
            refused(
                r,
                ReplyView::Stale {
                    section: Section::Arrangements,
                    entity: "arrangement"@,
                    back: arrangement_url(ctx.org_of().id, arr_id),
                },
            )
        } else {
            match form.complaint(abrsm_grade) {
                Some(message) => refused(r, arr_error(400, message)),
                None => r is Ok && form.says(r->Ok_0),
            }
        },
    }
}

/// The new fields of an arrangement, from the form. The row must be the one
/// that the form was opened on, unchanged since.
pub fn plan_update(
    ctx: &ConsoleCtx,
    arr_id: Uuid,
    found: Lookup<Arrangement>,
    form: &ArrangementForm,
    abrsm_grade: Option<i16>,
) -> (r: Result<Parsed, Reply>)
    ensures
        plan_update_outcome(r, *ctx, arr_id, found, *form, abrsm_grade),
{
    let current: Arrangement = match open_row(
        ctx.can_edit_arrangements(),
        scoped_arrangement(found, ctx.org().id),
        Section::Arrangements,
        "Arrangement not found.",
        "Could not load the arrangement.",
    ) {
        Ok(a) => a,
        Err(reply) => return Err(reply),
    };
    if !version_is_current(&form.expected_version, current.updated_at.millis) {
        return Err(
            Reply::precondition_page(
                Section::Arrangements,
                "arrangement",
                arrangement_path(ctx.org().id, arr_id),
            ),
        );
    }
    plan_create(ctx, form, abrsm_grade)
}

/// Whether `r` is what [`updated`] owes its caller.
pub open spec fn updated_outcome(
    r: Done,
    ctx: ConsoleCtx,
    request_id: Uuid,
    arr_id: Uuid,
    result: Result<Option<Arrangement>, ArrangementError>,
) -> bool {
    match result {
        Ok(Some(a)) => r.recorded(
            entry(
                ctx.audit_context(request_id),
                "arrangement.update"@,
                "arrangement"@,
                a.id,
                seq![
                    detail("title"@, FactView::Text(a.title@)),
                    detail("status"@, FactView::Text(a.status@)),
                ],
            ),
            goes_to(arrangement_url(ctx.org_of().id, arr_id)),
        ),
        Ok(None) => r.unrecorded(arr_error(404, "Arrangement not found."@)),
        Err(ArrangementError::UnknownWork) => r.unrecorded(
            arr_error(400, "The selected work no longer exists."@),
        ),
        Err(_) => r.unrecorded(arr_error(500, "Could not save the arrangement."@)),
    }
}

/// How storing changed fields of an arrangement ended. `Ok(None)` where the row
/// was gone by then.
pub fn updated(
    ctx: &ConsoleCtx,
    request_id: Uuid,
    arr_id: Uuid,
    result: Result<Option<Arrangement>, ArrangementError>,
) -> (r: Done)
    ensures
        updated_outcome(r, *ctx, request_id, arr_id, result),
{
    match result {
        Ok(Some(a)) => Done::saved(
            AuditEntry::new(
                ctx.audit_ctx(request_id),
                "arrangement.update",
                "arrangement",
                a.id,
            ).with("title", text(a.title.as_str())).with("status", text(a.status.as_str())),
            arrangement_path(ctx.org().id, arr_id),
        ),
        Ok(None) => Done::refused(error_page(404, "Arrangement not found.")),
        Err(ArrangementError::UnknownWork) => Done::refused(
            error_page(400, "The selected work no longer exists."),
        ),
        Err(_) => Done::refused(error_page(500, "Could not save the arrangement.")),
    }
}

/// Whether `r` is what [`plan_delete`] owes its caller.
pub open spec fn plan_delete_outcome(
    r: Result<Arrangement, Reply>,
    ctx: ConsoleCtx,
    found: Lookup<Arrangement>,
) -> bool {
    row_opened(
        r,
        ctx.access_of().edits_arrangements(),
        in_org(found, ctx.org_of().id),
        Section::Arrangements,
        "Arrangement not found."@,
        "Could not delete the arrangement."@,
    )
}

/// Opens an arrangement to delete it.
pub fn plan_delete(ctx: &ConsoleCtx, found: Lookup<Arrangement>) -> (r: Result<Arrangement, Reply>)
    ensures
        plan_delete_outcome(r, *ctx, found),
{
    open_row(
        ctx.can_edit_arrangements(),
        scoped_arrangement(found, ctx.org().id),
        Section::Arrangements,
        "Arrangement not found.",
        "Could not delete the arrangement.",
    )
}

/// Whether `r` is what [`deleted`] owes its caller.
pub open spec fn deleted_outcome(
    r: Done,
    ctx: ConsoleCtx,
    request_id: Uuid,
    arr_id: Uuid,
    ok: bool,
) -> bool {
    &&& ok ==> r.recorded(
        entry(
            ctx.audit_context(request_id),
            "arrangement.soft_delete"@,
            "arrangement"@,
            arr_id,
            seq![],
        ),
        goes_to(arrangement_url(ctx.org_of().id, arr_id)),
    )
    &&& !ok ==> r.unrecorded(arr_error(500, "Could not delete the arrangement."@))
}

/// How deleting an arrangement ended.
pub fn deleted(ctx: &ConsoleCtx, request_id: Uuid, arr_id: Uuid, ok: bool) -> (r: Done)
    ensures
        deleted_outcome(r, *ctx, request_id, arr_id, ok),
{
    settle(
        ok,
        AuditEntry::new(
            ctx.audit_ctx(request_id),
            "arrangement.soft_delete",
            "arrangement",
            arr_id,
        ),
        arrangement_path(ctx.org().id, arr_id),
        Section::Arrangements,
        "Could not delete the arrangement.",
    )
}

/// Whether `r` is what [`plan_undelete`] owes its caller.
pub open spec fn plan_undelete_outcome(
    r: Result<Arrangement, Reply>,
    ctx: ConsoleCtx,
    found: Lookup<Arrangement>,
) -> bool {
    row_opened(
        r,
        ctx.access_of().edits_arrangements(),
        in_org(found, ctx.org_of().id),
        Section::Arrangements,
        "Arrangement not found."@,
        "Could not restore the arrangement."@,
    )
}

/// Opens an arrangement, deleted or not, to restore it.
pub fn plan_undelete(ctx: &ConsoleCtx, found: Lookup<Arrangement>) -> (r: Result<
    Arrangement,
    Reply,
>)
    ensures
        plan_undelete_outcome(r, *ctx, found),
{
    open_row(
        ctx.can_edit_arrangements(),
        scoped_arrangement(found, ctx.org().id),
        Section::Arrangements,
        "Arrangement not found.",
        "Could not restore the arrangement.",
    )
}

/// Whether `r` is what [`undeleted`] owes its caller.
pub open spec fn undeleted_outcome(
    r: Done,
    ctx: ConsoleCtx,
    request_id: Uuid,
    arr_id: Uuid,
    ok: bool,
) -> bool {
    &&& ok ==> r.recorded(
        entry(
            ctx.audit_context(request_id),
            "arrangement.undelete"@,
            "arrangement"@,
            arr_id,
            seq![],
        ),
        goes_to(arrangement_url(ctx.org_of().id, arr_id)),
    )
    &&& !ok ==> r.unrecorded(arr_error(500, "Could not restore the arrangement."@))
}

/// How restoring an arrangement ended.
pub fn undeleted(ctx: &ConsoleCtx, request_id: Uuid, arr_id: Uuid, ok: bool) -> (r: Done)
    ensures
        undeleted_outcome(r, *ctx, request_id, arr_id, ok),
{
    settle(
        ok,
        AuditEntry::new(
            ctx.audit_ctx(request_id),
            "arrangement.undelete",
            "arrangement",
            arr_id,
        ),
        arrangement_path(ctx.org().id, arr_id),
        Section::Arrangements,
        "Could not restore the arrangement.",
    )
}

/// The work form as it was submitted.
pub struct WorkForm {
    pub title: Option<String>,
    pub composer: Option<String>,
}

/// The fields of a work.
pub struct WorkFields {
    pub title: String,
    pub composer: Option<String>,
}

impl WorkForm {
    /// Whether `f` holds what the form says.
    pub open spec fn says(self, f: WorkFields) -> bool {
        entered(text_of(self.title)) == Some(f.title@) && text_of(f.composer) == entered(
            text_of(self.composer),
        )
    }
}

impl Work {
    /// A work may be edited by whoever added it and by system admins.
    pub open spec fn editable_by(self, user_id: Uuid, is_system_admin: bool) -> bool {
        is_system_admin || self.created_by == Some(user_id)
    }

    pub fn is_editable_by(&self, user_id: Uuid, is_system_admin: bool) -> (r: bool)
        ensures
            r == self.editable_by(user_id, is_system_admin),
    {
        is_system_admin || match self.created_by {
            Some(id) => id == user_id,
            None => false,
        }
    }
}

fn work_fields(form: &WorkForm) -> (r: Result<WorkFields, Reply>)
    ensures
        match entered(text_of(form.title)) {
            None => refused(r, arr_error(400, "Work title must not be empty."@)),
            Some(_) => r is Ok && form.says(r->Ok_0),
        },
{
    match blank_to_none(&form.title) {
        Some(title) => Ok(WorkFields { title, composer: blank_to_none(&form.composer) }),
        None => Err(error_page(400, "Work title must not be empty.")),
    }
}

/// Whether `r` is what [`plan_create_work`] owes its caller.
pub open spec fn plan_create_work_outcome(
    r: Result<WorkFields, Reply>,
    ctx: ConsoleCtx,
    form: WorkForm,
) -> bool {
    &&& !ctx.access_of().staff() ==> refused(r, ReplyView::SectionForbidden)
    &&& ctx.access_of().staff() ==> match entered(text_of(form.title)) {
        None => refused(r, arr_error(400, "Work title must not be empty."@)),
        Some(_) => r is Ok && form.says(r->Ok_0),
    }
}

/// The fields of a new work, from the form. Any staff may add one.
pub fn plan_create_work(ctx: &ConsoleCtx, form: &WorkForm) -> (r: Result<WorkFields, Reply>)
    ensures
        plan_create_work_outcome(r, *ctx, *form),
{
    if !ctx.is_staff() {
        return Err(Reply::SectionForbidden);
    }
    work_fields(form)
}

/// Whether `r` is what [`work_created`] owes its caller.
pub open spec fn work_created_outcome(
    r: Done,
    ctx: ConsoleCtx,
    request_id: Uuid,
    result: Option<Work>,
) -> bool {
    match result {
        Some(w) => r.recorded(
            entry(
                ctx.audit_context(request_id),
                "work.create"@,
                "work"@,
                w.id,
                seq![detail("title"@, FactView::Text(w.title@))],
            ),
            goes_to(list_url(ctx.org_of().id, "/works"@)),
        ),
        None => r.unrecorded(arr_error(500, "Could not create the work."@)),
    }
}

/// How storing a new work ended; `None` where the database failed.
pub fn work_created(ctx: &ConsoleCtx, request_id: Uuid, result: Option<Work>) -> (r: Done)
    ensures
        work_created_outcome(r, *ctx, request_id, result),
{
    match result {
        Some(w) => Done::saved(
            AuditEntry::new(ctx.audit_ctx(request_id), "work.create", "work", w.id).with(
                "title",
                text(w.title.as_str()),
            ),
            list_path(ctx.org().id, "/works"),
        ),
        None => Done::refused(error_page(500, "Could not create the work.")),
    }
}

/// Whether `r` is what [`plan_update_work`] owes its caller.
pub open spec fn plan_update_work_outcome(
    r: Result<WorkFields, Reply>,
    ctx: ConsoleCtx,
    found: Lookup<Work>,
    form: WorkForm,
) -> bool {
    &&& !ctx.access_of().staff() ==> refused(r, ReplyView::SectionForbidden)
    &&& ctx.access_of().staff() ==> match found {
        Lookup::Missing => refused(r, arr_error(404, "Work not found."@)),
        Lookup::Failed => refused(r, arr_error(500, "Could not load the work."@)),
        Lookup::Found(w) => if !w.editable_by(
            ctx.user_of().id,
            ctx.user_of().is_system_admin,
        ) {
            refused(
                r,
                arr_error(403, "Only the work's creator or a system admin may edit it."@),
            )
        } else {
            match entered(text_of(form.title)) {
                None => refused(r, arr_error(400, "Work title must not be empty."@)),
                Some(_) => r is Ok && form.says(r->Ok_0),
            }
        },
    }
}

/// The new fields of a work, from the form. Only its creator or a system admin
/// may change it.
pub fn plan_update_work(ctx: &ConsoleCtx, found: Lookup<Work>, form: &WorkForm) -> (r: Result<
    WorkFields,
    Reply,
>)
    ensures
        plan_update_work_outcome(r, *ctx, found, *form),
{
    let existing: Work = match open_row(
        ctx.is_staff(),
        found,
        Section::Arrangements,
        "Work not found.",
        "Could not load the work.",
    ) {
        Ok(w) => w,
        Err(reply) => return Err(reply),
    };
    if !existing.is_editable_by(ctx.user().id, ctx.user().is_system_admin) {
        return Err(error_page(403, "Only the work's creator or a system admin may edit it."));
    }
    work_fields(form)
}

/// Whether `r` is what [`work_updated`] owes its caller.
pub open spec fn work_updated_outcome(
    r: Done,
    ctx: ConsoleCtx,
    request_id: Uuid,
    work_id: Uuid,
    fields: WorkFields,
    ok: bool,
) -> bool {
    &&& ok ==> r.recorded(
        entry(
            ctx.audit_context(request_id),
            "work.update"@,
            "work"@,
            work_id,
            seq![detail("title"@, FactView::Text(fields.title@))],
        ),
        goes_to(list_url(ctx.org_of().id, "/works"@)),
    )
    &&& !ok ==> r.unrecorded(arr_error(500, "Could not save the work."@))
}

/// How storing the changed `title` of a work ended.
pub fn work_updated(
    ctx: &ConsoleCtx,
    request_id: Uuid,
    work_id: Uuid,
    fields: &WorkFields,
    ok: bool,
) -> (r: Done)
    ensures
        work_updated_outcome(r, *ctx, request_id, work_id, *fields, ok),
{
    settle(
        ok,
        AuditEntry::new(ctx.audit_ctx(request_id), "work.update", "work", work_id).with(
            "title",
            text(fields.title.as_str()),
        ),
        list_path(ctx.org().id, "/works"),
        Section::Arrangements,
        "Could not save the work.",
    )
}

/// The voice form as it was submitted.
pub struct VoiceForm {
    pub name: Option<String>,
    pub instrument_id: Option<String>,
    pub expected_version: Option<String>,
}

/// The fields of a voice.
pub struct VoiceFields {
    pub name: String,
    pub instrument_id: Uuid,
}

/// Why a voice was not stored.
pub enum VoiceError {
    DuplicateSlug,
    UnknownInstrument,
    Database,
}

/// The instrument that the form names.
pub open spec fn chosen_id(v: Option<Seq<char>>) -> Option<Uuid> {
    match entered(v) {
        Some(raw) => read_uuid(raw),
        None => None,
    }
}

/// The identifier chosen in a form field.
pub fn read_choice(v: &Option<String>) -> (r: Option<Uuid>)
    ensures
        r == chosen_id(text_of(*v)),
{
    match blank_to_none(v) {
        Some(raw) => Uuid::parse_str(raw.as_str()),
        None => None,
    }
}

impl VoiceForm {
    /// What a voice form leads to.
    pub open spec fn leads_to(self, r: Result<VoiceFields, Reply>) -> bool {
        match entered(text_of(self.name)) {
            None => refused(r, arr_error(400, "Voice name must not be empty."@)),
            Some(name) => match chosen_id(text_of(self.instrument_id)) {
                None => refused(r, arr_error(400, "Please choose an instrument."@)),
                Some(id) => r is Ok && r->Ok_0.name@ == name && r->Ok_0.instrument_id == id,
            },
        }
    }

    fn fields(&self) -> (r: Result<VoiceFields, Reply>)
        ensures
            self.leads_to(r),
    {
        let name: String = match blank_to_none(&self.name) {
            Some(name) => name,
            None => return Err(error_page(400, "Voice name must not be empty.")),
        };
        match read_choice(&self.instrument_id) {
            Some(instrument_id) => Ok(VoiceFields { name, instrument_id }),
            None => Err(error_page(400, "Please choose an instrument.")),
        }
    }
}

/// Whether `r` is what [`plan_create_voice`] owes its caller.
pub open spec fn plan_create_voice_outcome(
    r: Result<VoiceFields, Reply>,
    ctx: ConsoleCtx,
    parent: Lookup<Arrangement>,
    form: VoiceForm,
) -> bool {
    &&& !ctx.access_of().edits_arrangements() ==> refused(r, ReplyView::SectionForbidden)
    &&& ctx.access_of().edits_arrangements() ==> if in_org(parent, ctx.org_of().id) is Found {
        form.leads_to(r)
    } else {
        refused(r, arr_error(404, "Arrangement not found."@))
    }
}

/// The fields of a new voice, from the form. An arrangement that could not be
/// looked up counts as missing.
pub fn plan_create_voice(ctx: &ConsoleCtx, parent: Lookup<Arrangement>, form: &VoiceForm) -> (r:
    Result<VoiceFields, Reply>)
    ensures
        plan_create_voice_outcome(r, *ctx, parent, *form),
{
    if !ctx.can_edit_arrangements() {
        return Err(Reply::SectionForbidden);
    }
    match scoped_arrangement(parent, ctx.org().id) {
        Lookup::Found(_) => form.fields(),
        _ => Err(error_page(404, "Arrangement not found.")),
    }
}

/// Whether `r` is what [`voice_created`] owes its caller.
pub open spec fn voice_created_outcome(
    r: Done,
    ctx: ConsoleCtx,
    request_id: Uuid,
    arr_id: Uuid,
    result: Result<Voice, VoiceError>,
) -> bool {
    match result {
        Ok(v) => r.recorded(
            entry(
                ctx.audit_context(request_id),
                "voice.create"@,
                "voice"@,
                v.id,
                seq![
                    detail("name"@, FactView::Text(v.name@)),
                    detail("slug"@, FactView::Text(v.slug@)),
                ],
            ),
            goes_to(voices_url(ctx.org_of().id, arr_id)),
        ),
        Err(VoiceError::DuplicateSlug) => r.unrecorded(
            arr_error(
                409,
                "A voice with a slug derived from this name already exists in this arrangement."@,
            ),
        ),
        Err(VoiceError::UnknownInstrument) => r.unrecorded(
            arr_error(400, "That instrument no longer exists."@),
        ),
        Err(VoiceError::Database) => r.unrecorded(
            arr_error(500, "Could not create the voice."@),
        ),
    }
}

/// How storing a new voice ended.
pub fn voice_created(
    ctx: &ConsoleCtx,
    request_id: Uuid,
    arr_id: Uuid,
    result: Result<Voice, VoiceError>,
) -> (r: Done)
    ensures
        voice_created_outcome(r, *ctx, request_id, arr_id, result),
{
    match result {
        Ok(v) => Done::saved(
            AuditEntry::new(ctx.audit_ctx(request_id), "voice.create", "voice", v.id).with(
                "name",
                text(v.name.as_str()),
            ).with("slug", text(v.slug.as_str())),
            voices_path(ctx.org().id, arr_id),
        ),
        Err(VoiceError::DuplicateSlug) => Done::refused(
            error_page(
                409,
                "A voice with a slug derived from this name already exists in this arrangement.",
            ),
        ),
        Err(VoiceError::UnknownInstrument) => Done::refused(
            error_page(400, "That instrument no longer exists."),
        ),
        Err(VoiceError::Database) => Done::refused(error_page(500, "Could not create the voice.")),
    }
}

/// Whether `r` is what [`plan_update_voice`] owes its caller.
pub open spec fn plan_update_voice_outcome(
    r: Result<VoiceFields, Reply>,
    ctx: ConsoleCtx,
    arr_id: Uuid,
    parent: Lookup<Arrangement>,
    found: Lookup<Voice>,
    form: VoiceForm,
) -> bool {
    &&& !ctx.access_of().edits_arrangements() ==> refused(r, ReplyView::SectionForbidden)
    &&& ctx.access_of().edits_arrangements() ==> match in_arrangement(
        parent,
        found,
        ctx.org_of().id,
        arr_id,
    ) {
        Lookup::Missing => refused(r, arr_error(404, "Voice not found."@)),
        Lookup::Failed => refused(r, arr_error(500, "Could not load the voice."@)),
        Lookup::Found(v) => if submitted_version(text_of(form.expected_version)) != Some(
            v.updated_at.millis as int,
        ) {
            refused(
                r,
                ReplyView::Stale {
                    section: Section::Arrangements,
                    entity: "arrangement"@,
                    back: arrangement_url(ctx.org_of().id, arr_id),
                },
            )
        } else {
            form.leads_to(r)
        },
    }
}

/// The new fields of a voice, from the form. The row must be the one that the
/// form was opened on, unchanged since; a stale form is sent back to the
/// arrangement.
pub fn plan_update_voice(
    ctx: &ConsoleCtx,
    arr_id: Uuid,
    parent: Lookup<Arrangement>,
    found: Lookup<Voice>,
    form: &VoiceForm,
) -> (r: Result<VoiceFields, Reply>)
    ensures
        plan_update_voice_outcome(r, *ctx, arr_id, parent, found, *form),
{
    let current: Voice = match open_row(
        ctx.can_edit_arrangements(),
        scoped_voice(parent, found, ctx.org().id, arr_id),
        Section::Arrangements,
        "Voice not found.",
        "Could not load the voice.",
    ) {
        Ok(v) => v,
        Err(reply) => return Err(reply),
    };
    if !version_is_current(&form.expected_version, current.updated_at.millis) {
        return Err(
            Reply::precondition_page(
                Section::Arrangements,
                "arrangement",
                arrangement_path(ctx.org().id, arr_id),
            ),
        );
    }
    form.fields()
}

/// Whether `r` is what [`voice_updated`] owes its caller.
pub open spec fn voice_updated_outcome(
    r: Done,
    ctx: ConsoleCtx,
    request_id: Uuid,
    arr_id: Uuid,
    voice_id: Uuid,
    result: Result<Option<Voice>, VoiceError>,
) -> bool {
    match result {
        Ok(Some(v)) => r.recorded(
            entry(
                ctx.audit_context(request_id),
                "voice.update"@,
                "voice"@,
                v.id,
                seq![detail("name"@, FactView::Text(v.name@))],
            ),
            goes_to(voice_url(ctx.org_of().id, arr_id, voice_id)),
        ),
        Ok(None) => r.unrecorded(arr_error(404, "Voice not found."@)),
        Err(VoiceError::UnknownInstrument) => r.unrecorded(
            arr_error(400, "That instrument no longer exists."@),
        ),
        Err(_) => r.unrecorded(arr_error(500, "Could not save the voice."@)),
    }
}

/// How storing changed fields of a voice ended. `Ok(None)` where the row was
/// gone by then.
pub fn voice_updated(
    ctx: &ConsoleCtx,
    request_id: Uuid,
    arr_id: Uuid,
    voice_id: Uuid,
    result: Result<Option<Voice>, VoiceError>,
) -> (r: Done)
    ensures
        voice_updated_outcome(r, *ctx, request_id, arr_id, voice_id, result),
{
    match result {
        Ok(Some(v)) => Done::saved(
            AuditEntry::new(ctx.audit_ctx(request_id), "voice.update", "voice", v.id).with(
                "name",
                text(v.name.as_str()),
            ),
            voice_path(ctx.org().id, arr_id, voice_id),
        ),
        Ok(None) => Done::refused(error_page(404, "Voice not found.")),
        Err(VoiceError::UnknownInstrument) => Done::refused(
            error_page(400, "That instrument no longer exists."),
        ),
        Err(_) => Done::refused(error_page(500, "Could not save the voice.")),
    }
}

/// Whether `r` is what [`plan_voice_removal`] owes its caller.
pub open spec fn plan_voice_removal_outcome(
    r: Result<Voice, Reply>,
    ctx: ConsoleCtx,
    arr_id: Uuid,
    parent: Lookup<Arrangement>,
    found: Lookup<Voice>,
) -> bool {
    &&& !ctx.access_of().edits_arrangements() ==> refused(r, ReplyView::SectionForbidden)
    &&& ctx.access_of().edits_arrangements() ==> match in_arrangement(
        parent,
        found,
        ctx.org_of().id,
        arr_id,
    ) {
        Lookup::Found(v) => r == Ok::<Voice, Reply>(v),
        _ => refused(r, arr_error(404, "Voice not found."@)),
    }
}

/// Opens a voice to delete or restore it. A voice that could not be looked up
/// counts as missing.
pub fn plan_voice_removal(
    ctx: &ConsoleCtx,
    arr_id: Uuid,
    parent: Lookup<Arrangement>,
    found: Lookup<Voice>,
) -> (r: Result<Voice, Reply>)
    ensures
        plan_voice_removal_outcome(r, *ctx, arr_id, parent, found),
{
    if !ctx.can_edit_arrangements() {
        return Err(Reply::SectionForbidden);
    }
    match scoped_voice(parent, found, ctx.org().id, arr_id) {
        Lookup::Found(v) => Ok(v),
        _ => Err(error_page(404, "Voice not found.")),
    }
}

/// Whether `r` is what [`voice_deleted`] owes its caller.
pub open spec fn voice_deleted_outcome(
    r: Done,
    ctx: ConsoleCtx,
    request_id: Uuid,
    arr_id: Uuid,
    voice_id: Uuid,
    ok: bool,
) -> bool {
    &&& ok ==> r.recorded(
        entry(
            ctx.audit_context(request_id),
            "voice.soft_delete"@,
            "voice"@,
            voice_id,
            seq![],
        ),
        goes_to(voice_url(ctx.org_of().id, arr_id, voice_id)),
    )
    &&& !ok ==> r.unrecorded(arr_error(500, "Could not delete the voice."@))
}

/// How deleting a voice ended.
pub fn voice_deleted(
    ctx: &ConsoleCtx,
    request_id: Uuid,
    arr_id: Uuid,
    voice_id: Uuid,
    ok: bool,
) -> (r: Done)
    ensures
        voice_deleted_outcome(r, *ctx, request_id, arr_id, voice_id, ok),
{
    settle(
        ok,
        AuditEntry::new(ctx.audit_ctx(request_id), "voice.soft_delete", "voice", voice_id),
        voice_path(ctx.org().id, arr_id, voice_id),
        Section::Arrangements,
        "Could not delete the voice.",
    )
}

/// Whether `r` is what [`voice_undeleted`] owes its caller.
pub open spec fn voice_undeleted_outcome(
    r: Done,
    ctx: ConsoleCtx,
    request_id: Uuid,
    arr_id: Uuid,
    voice_id: Uuid,
    ok: bool,
) -> bool {
    &&& ok ==> r.recorded(
        entry(
            ctx.audit_context(request_id),
            "voice.undelete"@,
            "voice"@,
            voice_id,
            seq![],
        ),
        goes_to(voice_url(ctx.org_of().id, arr_id, voice_id)),
    )
    &&& !ok ==> r.unrecorded(arr_error(500, "Could not restore the voice."@))
}

/// How restoring a voice ended.
pub fn voice_undeleted(
    ctx: &ConsoleCtx,
    request_id: Uuid,
    arr_id: Uuid,
    voice_id: Uuid,
    ok: bool,
) -> (r: Done)
    ensures
        voice_undeleted_outcome(r, *ctx, request_id, arr_id, voice_id, ok),
{
    settle(
        ok,
        AuditEntry::new(ctx.audit_ctx(request_id), "voice.undelete", "voice", voice_id),
        voice_path(ctx.org().id, arr_id, voice_id),
        Section::Arrangements,
        "Could not restore the voice.",
    )
}

/// Adding an arrangement is on record, with its title and slug, exactly where it
/// took place; its page is shown next.
pub proof fn a_new_arrangement_is_on_record(
    r: Done,
    ctx: ConsoleCtx,
    request_id: Uuid,
    id: Uuid,
    result: Result<Arrangement, ArrangementError>,
)
    requires
        created_outcome(r, ctx, request_id, id, result),
    ensures
        result matches Ok(a) ==> {
            &&& r.names(
                ctx.user_of().id,
                ctx.org_of().id,
                request_id,
                "arrangement.create"@,
                a.id,
            )
            &&& r.tells("title"@, FactView::Text(a.title@))
            &&& r.tells("slug"@, FactView::Text(a.slug@))
            &&& r.moves_on_to(arrangement_url(ctx.org_of().id, id))
        },
        result is Err ==> r.fell_through(),
{
    broadcast use vstd::seq_lib::group_seq_properties;

}

/// Changing an arrangement is on record, with the title and the status that it
/// has now, exactly where it took place.
pub proof fn a_changed_arrangement_is_on_record(
    r: Done,
    ctx: ConsoleCtx,
    request_id: Uuid,
    arr_id: Uuid,
    result: Result<Option<Arrangement>, ArrangementError>,
)
    requires
        updated_outcome(r, ctx, request_id, arr_id, result),
    ensures
        result matches Ok(Some(a)) ==> {
            &&& r.names(
                ctx.user_of().id,
                ctx.org_of().id,
                request_id,
                "arrangement.update"@,
                a.id,
            )
            &&& r.tells("title"@, FactView::Text(a.title@))
            &&& r.tells("status"@, FactView::Text(a.status@))
            &&& r.moves_on_to(arrangement_url(ctx.org_of().id, arr_id))
        },
        result matches Ok(None) ==> r.fell_through(),
        result is Err ==> r.fell_through(),
{
    broadcast use vstd::seq_lib::group_seq_properties;

}

/// Deleting an arrangement is on record exactly where it took place.
pub proof fn a_deleted_arrangement_is_on_record(
    r: Done,
    ctx: ConsoleCtx,
    request_id: Uuid,
    arr_id: Uuid,
    ok: bool,
)
    requires
        deleted_outcome(r, ctx, request_id, arr_id, ok),
    ensures
        ok ==> {
            &&& r.names(
                ctx.user_of().id,
                ctx.org_of().id,
                request_id,
                "arrangement.soft_delete"@,
                arr_id,
            )
            &&& r.moves_on_to(arrangement_url(ctx.org_of().id, arr_id))
        },
        !ok ==> r.fell_through(),
{
    broadcast use vstd::seq_lib::group_seq_properties;

}

/// Restoring an arrangement is on record exactly where it took place.
pub proof fn a_restored_arrangement_is_on_record(
    r: Done,
    ctx: ConsoleCtx,
    request_id: Uuid,
    arr_id: Uuid,
    ok: bool,
)
    requires
        undeleted_outcome(r, ctx, request_id, arr_id, ok),
    ensures
        ok ==> {
            &&& r.names(
                ctx.user_of().id,
                ctx.org_of().id,
                request_id,
                "arrangement.undelete"@,
                arr_id,
            )
            &&& r.moves_on_to(arrangement_url(ctx.org_of().id, arr_id))
        },
        !ok ==> r.fell_through(),
{
    broadcast use vstd::seq_lib::group_seq_properties;

}

/// Adding a work is on record, with its title, exactly where it took place.
pub proof fn a_new_work_is_on_record(
    r: Done,
    ctx: ConsoleCtx,
    request_id: Uuid,
    result: Option<Work>,
)
    requires
        work_created_outcome(r, ctx, request_id, result),
    ensures
        result matches Some(w) ==> {
            &&& r.names(
                ctx.user_of().id,
                ctx.org_of().id,
                request_id,
                "work.create"@,
                w.id,
            )
            &&& r.tells("title"@, FactView::Text(w.title@))
            &&& r.moves_on_to(list_url(ctx.org_of().id, "/works"@))
        },
        result is None ==> r.fell_through(),
{
    broadcast use vstd::seq_lib::group_seq_properties;

}

/// Changing a work is on record, with its new title, exactly where it took place.
pub proof fn a_changed_work_is_on_record(
    r: Done,
    ctx: ConsoleCtx,
    request_id: Uuid,
    work_id: Uuid,
    fields: WorkFields,
    ok: bool,
)
    requires
        work_updated_outcome(r, ctx, request_id, work_id, fields, ok),
    ensures
        ok ==> {
            &&& r.names(
                ctx.user_of().id,
                ctx.org_of().id,
                request_id,
                "work.update"@,
                work_id,
            )
            &&& r.tells("title"@, FactView::Text(fields.title@))
            &&& r.moves_on_to(list_url(ctx.org_of().id, "/works"@))
        },
        !ok ==> r.fell_through(),
{
    broadcast use vstd::seq_lib::group_seq_properties;

}

/// Adding a voice is on record, with its name and slug, exactly where it took
/// place.
pub proof fn a_new_voice_is_on_record(
    r: Done,
    ctx: ConsoleCtx,
    request_id: Uuid,
    arr_id: Uuid,
    result: Result<Voice, VoiceError>,
)
    requires
        voice_created_outcome(r, ctx, request_id, arr_id, result),
    ensures
        result matches Ok(v) ==> {
            &&& r.names(
                ctx.user_of().id,
                ctx.org_of().id,
                request_id,
                "voice.create"@,
                v.id,
            )
            &&& r.tells("name"@, FactView::Text(v.name@))
            &&& r.tells("slug"@, FactView::Text(v.slug@))
            &&& r.moves_on_to(voices_url(ctx.org_of().id, arr_id))
        },
        result is Err ==> r.fell_through(),
{
    broadcast use vstd::seq_lib::group_seq_properties;

}

/// Changing a voice is on record, with its new name, exactly where it took place.
pub proof fn a_changed_voice_is_on_record(
    r: Done,
    ctx: ConsoleCtx,
    request_id: Uuid,
    arr_id: Uuid,
    voice_id: Uuid,
    result: Result<Option<Voice>, VoiceError>,
)
    requires
        voice_updated_outcome(r, ctx, request_id, arr_id, voice_id, result),
    ensures
        result matches Ok(Some(v)) ==> {
            &&& r.names(
                ctx.user_of().id,
                ctx.org_of().id,
                request_id,
                "voice.update"@,
                v.id,
            )
            &&& r.tells("name"@, FactView::Text(v.name@))
            &&& r.moves_on_to(voice_url(ctx.org_of().id, arr_id, voice_id))
        },
        result matches Ok(None) ==> r.fell_through(),
        result is Err ==> r.fell_through(),
{
    broadcast use vstd::seq_lib::group_seq_properties;

}

/// Deleting a voice is on record exactly where it took place.
pub proof fn a_deleted_voice_is_on_record(
    r: Done,
    ctx: ConsoleCtx,
    request_id: Uuid,
    arr_id: Uuid,
    voice_id: Uuid,
    ok: bool,
)
    requires
        voice_deleted_outcome(r, ctx, request_id, arr_id, voice_id, ok),
    ensures
        ok ==> {
            &&& r.names(
                ctx.user_of().id,
                ctx.org_of().id,
                request_id,
                "voice.soft_delete"@,
                voice_id,
            )
            &&& r.moves_on_to(voice_url(ctx.org_of().id, arr_id, voice_id))
        },
        !ok ==> r.fell_through(),
{
    broadcast use vstd::seq_lib::group_seq_properties;

}

/// Restoring a voice is on record exactly where it took place.
pub proof fn a_restored_voice_is_on_record(
    r: Done,
    ctx: ConsoleCtx,
    request_id: Uuid,
    arr_id: Uuid,
    voice_id: Uuid,
    ok: bool,
)
    requires
        voice_undeleted_outcome(r, ctx, request_id, arr_id, voice_id, ok),
    ensures
        ok ==> {
            &&& r.names(
                ctx.user_of().id,
                ctx.org_of().id,
                request_id,
                "voice.undelete"@,
                voice_id,
            )
            &&& r.moves_on_to(voice_url(ctx.org_of().id, arr_id, voice_id))
        },
        !ok ==> r.fell_through(),
{
    broadcast use vstd::seq_lib::group_seq_properties;

}

/// Those who may edit add what the form says, everyone else is turned away.
pub proof fn editors_add_what_the_form_says(
    r: Result<Parsed, Reply>,
    ctx: ConsoleCtx,
    form: ArrangementForm,
    abrsm_grade: Option<i16>,
)
    requires
        plan_create_outcome(r, ctx, form, abrsm_grade),
    ensures
        r is Ok ==> ctx.access_of().edits_arrangements() && form.amounts_to(
            Ok::<Parsed, String>(r->Ok_0),
            abrsm_grade,
        ),
        !ctx.access_of().edits_arrangements() ==> r is Err && r->Err_0@.status() == 403,
        ctx.access_of().edits_arrangements() && r is Err ==> r->Err_0@.status() == 400
            && form.complaint(abrsm_grade) is Some,
{
}

/// An edit is let through where the caller may edit, the arrangement is one of
/// their organization and still has the version that the form was opened on. What
/// is stored then is what the form says.
pub proof fn an_edit_is_held_to_the_row_it_was_made_on(
    r: Result<Parsed, Reply>,
    ctx: ConsoleCtx,
    arr_id: Uuid,
    found: Lookup<Arrangement>,
    form: ArrangementForm,
    abrsm_grade: Option<i16>,
)
    requires
        plan_update_outcome(r, ctx, arr_id, found, form, abrsm_grade),
    ensures
        r is Ok ==> {
            &&& ctx.access_of().edits_arrangements()
            &&& found matches Lookup::Found(a) && a.organization_id == ctx.org_of().id
                && form.expected_version is Some && read_int(
                form.expected_version->0@,
                i64::MIN as int,
                i64::MAX as int,
            ) == Some(a.updated_at.millis as int)
            &&& form.amounts_to(Ok::<Parsed, String>(r->Ok_0), abrsm_grade)
        },
        !ctx.access_of().edits_arrangements() ==> r is Err && r->Err_0@.status() == 403,
        ctx.access_of().edits_arrangements() ==> match found {
            Lookup::Missing => r is Err && r->Err_0@.status() == 404,
            Lookup::Failed => r is Err && r->Err_0@.status() == 500,
            Lookup::Found(a) => {
                &&& a.organization_id != ctx.org_of().id ==> r is Err && r->Err_0@.status() == 404
                &&& a.organization_id == ctx.org_of().id ==> forall|opened_on: i64|
                    form.expected_version is Some
                        && form.expected_version->0@ == #[trigger] int_text(
                        opened_on as int,
                    ) ==> if opened_on != a.updated_at.millis {
                        r is Err && r->Err_0@ == (ReplyView::Stale {
                            section: Section::Arrangements,
                            entity: "arrangement"@,
                            back: arrangement_url(ctx.org_of().id, arr_id),
                        })
                    } else {
                        r is Err ==> r->Err_0@.status() == 400
                    }
                &&& a.organization_id == ctx.org_of().id && form.expected_version is None
                    ==> r is Err
                    && r->Err_0@.status() == 412
            },
        },
{
    assert forall|opened_on: i64| read_int(
        #[trigger] int_text(opened_on as int),
        i64::MIN as int,
        i64::MAX as int,
    ) == Some(opened_on as int) by {
        text_reads_back(opened_on as int, i64::MIN as int, i64::MAX as int);
    }
}

/// Those who may edit can delete the arrangements of their organization, nobody
/// can delete others.
pub proof fn own_arrangements_can_be_deleted(
    r: Result<Arrangement, Reply>,
    ctx: ConsoleCtx,
    found: Lookup<Arrangement>,
)
    requires
        plan_delete_outcome(r, ctx, found),
    ensures
        r is Ok ==> ctx.access_of().edits_arrangements() && found == Lookup::Found(r->Ok_0)
            && r->Ok_0.organization_id == ctx.org_of().id,
        !ctx.access_of().edits_arrangements() ==> r is Err && r->Err_0@.status() == 403,
        ctx.access_of().edits_arrangements() && found is Missing ==> r is Err
            && r->Err_0@.status() == 404,
        ctx.access_of().edits_arrangements() && found is Failed ==> r is Err
            && r->Err_0@.status() == 500,
        ctx.access_of().edits_arrangements() && (found matches Lookup::Found(x)
            && !(x.organization_id == ctx.org_of().id)) ==> r is Err
            && r->Err_0@.status() == 404,
        ctx.access_of().edits_arrangements() && (found matches Lookup::Found(x)
            && x.organization_id == ctx.org_of().id) ==> r is Ok,
{
}

/// Those who may edit can restore the arrangements of their organization, nobody
/// can restore others.
pub proof fn own_arrangements_can_be_restored(
    r: Result<Arrangement, Reply>,
    ctx: ConsoleCtx,
    found: Lookup<Arrangement>,
)
    requires
        plan_undelete_outcome(r, ctx, found),
    ensures
        r is Ok ==> ctx.access_of().edits_arrangements() && found == Lookup::Found(r->Ok_0)
            && r->Ok_0.organization_id == ctx.org_of().id,
        !ctx.access_of().edits_arrangements() ==> r is Err && r->Err_0@.status() == 403,
        ctx.access_of().edits_arrangements() && found is Missing ==> r is Err
            && r->Err_0@.status() == 404,
        ctx.access_of().edits_arrangements() && found is Failed ==> r is Err
            && r->Err_0@.status() == 500,
        ctx.access_of().edits_arrangements() && (found matches Lookup::Found(x)
            && !(x.organization_id == ctx.org_of().id)) ==> r is Err
            && r->Err_0@.status() == 404,
        ctx.access_of().edits_arrangements() && (found matches Lookup::Found(x)
            && x.organization_id == ctx.org_of().id) ==> r is Ok,
{
}

/// Staff add a work with the title and the composer that they typed.
pub proof fn staff_add_works(r: Result<WorkFields, Reply>, ctx: ConsoleCtx, form: WorkForm)
    requires
        plan_create_work_outcome(r, ctx, form),
    ensures
        r is Ok ==> ctx.access_of().staff() && form.title is Some && r->Ok_0.title@ == trimmed(
            form.title->0@,
        ) && r->Ok_0.title@.len() > 0,
        r is Ok ==> was_typed(r->Ok_0.composer, form.composer),
        ctx.access_of().staff() && form.title is Some && trimmed(form.title->0@).len() > 0
            ==> r is Ok,
        ctx.access_of().staff() && r is Err ==> r->Err_0@.status() == 400,
        !ctx.access_of().staff() ==> r is Err && r->Err_0@.status() == 403,
{
}

/// A work is changed by whoever added it or by a system admin, to the title and
/// the composer that they typed.
pub proof fn works_are_changed_by_their_creators(
    r: Result<WorkFields, Reply>,
    ctx: ConsoleCtx,
    found: Lookup<Work>,
    form: WorkForm,
)
    requires
        plan_update_work_outcome(r, ctx, found, form),
    ensures
        r is Ok ==> {
            &&& ctx.access_of().staff()
            &&& found matches Lookup::Found(w) && (w.created_by == Some(ctx.user_of().id)
                || ctx.user_of().is_system_admin)
            &&& form.title is Some && r->Ok_0.title@ == trimmed(form.title->0@)
                && r->Ok_0.title@.len() > 0
            &&& was_typed(r->Ok_0.composer, form.composer)
        },
        ctx.access_of().staff() && (found matches Lookup::Found(w) && (w.created_by == Some(
            ctx.user_of().id,
        ) || ctx.user_of().is_system_admin)) && form.title is Some && trimmed(
            form.title->0@,
        ).len() > 0 ==> r is Ok,
        ctx.access_of().staff() && (found matches Lookup::Found(w) && w.created_by != Some(
            ctx.user_of().id,
        )) && !ctx.user_of().is_system_admin ==> r is Err && r->Err_0@.status() == 403,
        ctx.access_of().staff() && found is Missing ==> r is Err && r->Err_0@.status() == 404,
{
}

/// Those who may edit add a voice to an arrangement of their organization, with
/// the name that they typed and the instrument that they chose.
pub proof fn editors_add_voices_to_their_own_arrangements(
    r: Result<VoiceFields, Reply>,
    ctx: ConsoleCtx,
    parent: Lookup<Arrangement>,
    form: VoiceForm,
)
    requires
        plan_create_voice_outcome(r, ctx, parent, form),
    ensures
        r is Ok ==> ctx.access_of().edits_arrangements() && (parent matches Lookup::Found(a)
            && a.organization_id == ctx.org_of().id),
        r is Ok ==> form.name is Some && r->Ok_0.name@ == trimmed(form.name->0@)
            && r->Ok_0.name@.len() > 0
            && form.instrument_id is Some && read_uuid(trimmed(form.instrument_id->0@)) == Some(
            r->Ok_0.instrument_id,
        ),
        ctx.access_of().edits_arrangements() && (parent matches Lookup::Found(a)
            && a.organization_id
            == ctx.org_of().id) && form.name is Some && trimmed(form.name->0@).len() > 0
            && form.instrument_id is Some && trimmed(form.instrument_id->0@).len() > 0 && read_uuid(
            trimmed(form.instrument_id->0@),
        ) is Some ==> r is Ok,
        !ctx.access_of().edits_arrangements() ==> r is Err && r->Err_0@.status() == 403,
{
}

/// A voice of the arrangement is changed to the name that was typed and the
/// instrument that was chosen, at the version that the form was opened on.
pub proof fn a_voice_is_changed_as_the_form_says(
    r: Result<VoiceFields, Reply>,
    ctx: ConsoleCtx,
    arr_id: Uuid,
    parent: Lookup<Arrangement>,
    found: Lookup<Voice>,
    form: VoiceForm,
)
    requires
        plan_update_voice_outcome(r, ctx, arr_id, parent, found, form),
    ensures
        r is Ok ==> {
            &&& ctx.access_of().edits_arrangements()
            &&& parent matches Lookup::Found(a) && a.organization_id == ctx.org_of().id
            &&& found matches Lookup::Found(v) && v.arrangement_id == arr_id
                && form.expected_version is Some && read_int(
                form.expected_version->0@,
                i64::MIN as int,
                i64::MAX as int,
            ) == Some(v.updated_at.millis as int)
        },
        r is Ok ==> form.name is Some && r->Ok_0.name@ == trimmed(form.name->0@)
            && r->Ok_0.name@.len() > 0
            && form.instrument_id is Some && read_uuid(trimmed(form.instrument_id->0@)) == Some(
            r->Ok_0.instrument_id,
        ),
        ctx.access_of().edits_arrangements() && (parent matches Lookup::Found(a)
            && a.organization_id
            == ctx.org_of().id) && (found matches Lookup::Found(v) && v.arrangement_id == arr_id
            && form.expected_version is Some && form.expected_version->0@ == int_text(
            v.updated_at.millis as int,
        )) && form.name is Some && trimmed(form.name->0@).len() > 0
            && form.instrument_id is Some && trimmed(form.instrument_id->0@).len() > 0 && read_uuid(
            trimmed(form.instrument_id->0@),
        ) is Some ==> r is Ok,
        ctx.access_of().edits_arrangements() && (parent matches Lookup::Found(a)
            && a.organization_id
            == ctx.org_of().id) && (found matches Lookup::Found(v) && v.arrangement_id == arr_id)
            && form.expected_version is None ==> r is Err && r->Err_0@.status() == 412,
{
    if let Lookup::Found(v) = found {
        text_reads_back(v.updated_at.millis as int, i64::MIN as int, i64::MAX as int);
    }
}

/// Those who may edit open exactly the voices of the arrangements of their
/// organization.
pub proof fn voices_of_own_arrangements_can_be_removed(
    r: Result<Voice, Reply>,
    ctx: ConsoleCtx,
    arr_id: Uuid,
    parent: Lookup<Arrangement>,
    found: Lookup<Voice>,
)
    requires
        plan_voice_removal_outcome(r, ctx, arr_id, parent, found),
    ensures
        r is Ok ==> ctx.access_of().edits_arrangements() && (parent matches Lookup::Found(a)
            && a.organization_id == ctx.org_of().id) && found == Lookup::Found(r->Ok_0)
            && r->Ok_0.arrangement_id == arr_id,
        ctx.access_of().edits_arrangements() && (parent matches Lookup::Found(a)
            && a.organization_id
            == ctx.org_of().id) && (found matches Lookup::Found(v) && v.arrangement_id == arr_id)
            ==> r is Ok,
{
}

/// Who may not edit changes no voice, and a voice that is not one of the
/// arrangement cannot be changed by anyone.
pub proof fn no_other_voice_is_changed(
    r: Result<VoiceFields, Reply>,
    ctx: ConsoleCtx,
    arr_id: Uuid,
    parent: Lookup<Arrangement>,
    found: Lookup<Voice>,
    form: VoiceForm,
)
    requires
        plan_update_voice_outcome(r, ctx, arr_id, parent, found, form),
    ensures
        !ctx.access_of().edits_arrangements() ==> r is Err && r->Err_0@.status() == 403,
        ctx.access_of().edits_arrangements() && (found matches Lookup::Found(v)
            && v.arrangement_id != arr_id) && !(parent is Failed) ==> r is Err
            && r->Err_0@.status() == 404,
        ctx.access_of().edits_arrangements() && (parent matches Lookup::Found(a)
            && a.organization_id != ctx.org_of().id) ==> r is Err
            && r->Err_0@.status() == 404,
        ctx.access_of().edits_arrangements() && parent is Failed ==> r is Err
            && r->Err_0@.status() == 500,
        ctx.access_of().edits_arrangements() && parent is Found && found is Failed ==> r is Err,
        ctx.access_of().edits_arrangements() && r is Err ==> r->Err_0@.status() >= 400,
{
}

/// A voice cannot be added to an arrangement that is not one of the organization,
/// nor with parts of the form missing.
pub proof fn no_voice_is_added_elsewhere(
    r: Result<VoiceFields, Reply>,
    ctx: ConsoleCtx,
    parent: Lookup<Arrangement>,
    form: VoiceForm,
)
    requires
        plan_create_voice_outcome(r, ctx, parent, form),
    ensures
        ctx.access_of().edits_arrangements() && !(parent matches Lookup::Found(a)
            && a.organization_id == ctx.org_of().id) ==> r is Err
            && r->Err_0@.status() == 404,
        ctx.access_of().edits_arrangements() && (parent matches Lookup::Found(a)
            && a.organization_id == ctx.org_of().id) && r is Err
            ==> r->Err_0@.status() == 400,
{
}

/// Any other voice cannot be told from one that does not exist.
pub proof fn no_other_voice_is_removed(
    r: Result<Voice, Reply>,
    ctx: ConsoleCtx,
    arr_id: Uuid,
    parent: Lookup<Arrangement>,
    found: Lookup<Voice>,
)
    requires
        plan_voice_removal_outcome(r, ctx, arr_id, parent, found),
    ensures
        !ctx.access_of().edits_arrangements() ==> r is Err && r->Err_0@.status() == 403,
        ctx.access_of().edits_arrangements() && r is Err ==> r->Err_0@.status() == 404,
{
}

/// A work is not changed where it could not be looked up or the title is blank.
pub proof fn a_work_without_a_title_is_refused(
    r: Result<WorkFields, Reply>,
    ctx: ConsoleCtx,
    found: Lookup<Work>,
    form: WorkForm,
)
    requires
        plan_update_work_outcome(r, ctx, found, form),
    ensures
        ctx.access_of().staff() && found is Failed ==> r is Err && r->Err_0@.status() == 500,
        !ctx.access_of().staff() ==> r is Err && r->Err_0@.status() == 403,
        form.title is None || trimmed(form.title->0@).len() == 0 ==> r is Err,
{
}

} // verus!
