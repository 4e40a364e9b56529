//! The JSON interface to works, arrangements, voices and tags.

use vstd::prelude::*;
use crate::api::{
    authorize, denied, done, each_role_may_do_its_part, etag_response_status, finish_removal,
    gives, is_for, is_member, keeps_archive, looked_up, looked_up_at, lookup_error, no_content,
    not_blank, removal, require, Answer, Caller, Need, Standing,
};
use crate::arrangement_form::Parsed;
use crate::arrangements::{
    in_arrangement, in_org, scoped_arrangement, scoped_voice, ArrangementError, VoiceError,
};
use crate::audit::{
    detail, entry, opt_text, text, text_fact, within, AuditEntry, EntryView, Fact, FactView,
};
use crate::date::Date;
use crate::error::{fails, invalid, AppError, ErrorView};
use crate::form::{
    comes_first, field, field_text, first_value, the_earliest_value_counts,
};
use crate::id::{read_uuid, Uuid};
use crate::instance::DeleteError;
use crate::listing::{check_if_match, names_version, str_of};
use crate::model::{Arrangement, Lookup, Tag, Voice, Work};
use crate::tags::TagError;
use crate::search::{build_search, search_built, ArrangementSearch};
use crate::text::{text_of, trimmed};

verus! {

// Works.

/// What a list of works is narrowed to.
pub struct WorkFilter {
    pub title: Option<String>,
    pub composer: Option<String>,
}

/// Whether `r` is what [`plan_list_works`] owes its caller.
pub open spec fn plan_list_works_outcome(r: WorkFilter, filters: Vec<(String, String)>) -> bool {
    &&& text_of(r.title) == first_value(filters@, "title"@)
    &&& text_of(r.composer) == first_value(filters@, "composer"@)
}

/// What a list of works is narrowed to. Anyone who is logged in may list them.
pub fn plan_list_works(filters: &Vec<(String, String)>) -> (r: WorkFilter)
    ensures
        plan_list_works_outcome(r, *filters),
{
    WorkFilter { title: field_text(filters, "title"), composer: field_text(filters, "composer") }
}

/// Whether `r` is what [`plan_create_work`] owes its caller.
pub open spec fn plan_create_work_outcome(r: Result<(), AppError>, title: &str) -> bool {
    &&& trimmed(title@).len() > 0 ==> r is Ok
    &&& trimmed(title@).len() == 0 ==> fails(r, invalid("title"@, "title must not be empty"@))
}

/// Lets a work be created under a title that is not blank.
pub fn plan_create_work(title: &str) -> (r: Result<(), AppError>)
    ensures
        plan_create_work_outcome(r, title),
{
    not_blank(title, "title", "title must not be empty")
}

/// Whether `r` is what [`allow_create_work`] owes its caller.
pub open spec fn allow_create_work_outcome(
    r: Result<(), AppError>,
    caller: Caller,
    has_membership: Option<bool>,
) -> bool {
    &&& caller.is_system_admin || has_membership == Some(true) ==> r is Ok
    &&& !caller.is_system_admin && has_membership == Some(false) ==> fails(
        r,
        ErrorView::Forbidden,
    )
    &&& !caller.is_system_admin && has_membership is None ==> fails(r, ErrorView::Database)
}

/// Lets anyone with a membership, and system admins, create a work.
/// `has_membership` is `None` where that could not be looked up.
pub fn allow_create_work(caller: &Caller, has_membership: Option<bool>) -> (r: Result<(), AppError>)
    ensures
        allow_create_work_outcome(r, *caller, has_membership),
{
    if caller.is_system_admin {
        return Ok(());
    }
    match has_membership {
        Some(true) => Ok(()),
        Some(false) => Err(AppError::Forbidden),
        None => Err(AppError::Database),
    }
}

/// Whether `r` is what [`work_created`] owes its caller.
pub open spec fn work_created_outcome(
    r: Result<Answer<Work>, AppError>,
    caller: Caller,
    request_id: Uuid,
    result: Option<Work>,
) -> bool {
    match result {
        None => fails(r, ErrorView::Database),
        Some(w) => gives(
            r,
            201,
            w.updated_at.millis,
            Some(
                entry(
                    caller.audit_context(None, request_id),
                    "work.create"@,
                    "work"@,
                    w.id,
                    seq![
                        detail("title"@, FactView::Text(w.title@)),
                        detail("composer"@, text_fact(text_of(w.composer))),
                    ],
                ),
            ),
            w,
        ),
    }
}

/// How creating a work ended; `None` where the database failed.
pub fn work_created(caller: &Caller, request_id: Uuid, result: Option<Work>) -> (r: Result<
    Answer<Work>,
    AppError,
>)
    ensures
        work_created_outcome(r, *caller, request_id, result),
{
    match result {
        None => Err(AppError::Database),
        Some(w) => {
            let e: AuditEntry = AuditEntry::new(
                caller.audit_ctx(None, request_id),
                "work.create",
                "work",
                w.id,
            ).with("title", text(w.title.as_str())).with("composer", opt_text(&w.composer));
            etag_response_status(201, w.updated_at.millis, Some(e), w)
        },
    }
}

/// Whether `r` is what [`get_work`] owes its caller.
pub open spec fn get_work_outcome(r: Result<Answer<Work>, AppError>, found: Lookup<Work>) -> bool {
    match found {
        Lookup::Found(w) => gives(r, 200, w.updated_at.millis, None, w),
        Lookup::Missing => fails(r, ErrorView::NotFound),
        Lookup::Failed => fails(r, ErrorView::Database),
    }
}

/// A work.
pub fn get_work(found: Lookup<Work>) -> (r: Result<Answer<Work>, AppError>)
    ensures
        get_work_outcome(r, found),
{
    match require(found) {
        Ok(w) => etag_response_status(200, w.updated_at.millis, None, w),
        Err(e) => Err(e),
    }
}

/// Whether `r` is a work opened for writing: by its creator or a system admin,
/// at the version that the write was made for.
pub open spec fn work_opened(
    r: Result<Work, AppError>,
    caller: Caller,
    found: Lookup<Work>,
    if_match: Option<Seq<char>>,
) -> bool {
    match found {
        Lookup::Missing => fails(r, ErrorView::NotFound),
        Lookup::Failed => fails(r, ErrorView::Database),
        Lookup::Found(w) => if !w.editable_by(caller.user_id, caller.is_system_admin) {
            fails(r, ErrorView::Forbidden)
        } else if !names_version(if_match, w.updated_at.millis) {
            fails(r, ErrorView::PreconditionFailed)
        } else {
            r == Ok::<Work, AppError>(w)
        },
    }
}

fn open_work(caller: &Caller, found: Lookup<Work>, if_match: Option<&str>) -> (r: Result<
    Work,
    AppError,
>)
    ensures
        work_opened(r, *caller, found, str_of(if_match)),
{
    let w: Work = match require(found) {
        Ok(w) => w,
        Err(e) => return Err(e),
    };
    if !w.is_editable_by(caller.user_id, caller.is_system_admin) {
        return Err(AppError::Forbidden);
    }
    match check_if_match(if_match, w.updated_at.millis) {
        Ok(()) => Ok(w),
        Err(e) => Err(e),
    }
}

/// Whether `r` is what [`plan_update_work`] owes its caller.
pub open spec fn plan_update_work_outcome(
    r: Result<Work, AppError>,
    caller: Caller,
    found: Lookup<Work>,
    if_match: Option<&str>,
    title: &str,
) -> bool {
    exists|opened: Result<Work, AppError>| #[trigger]
        work_opened(opened, caller, found, str_of(if_match)) && match opened {
            Err(e) => r is Err && r->Err_0 == e,
            Ok(w) => if trimmed(title@).len() == 0 {
                fails(r, invalid("title"@, "title must not be empty"@))
            } else {
                r == Ok::<Work, AppError>(w)
            },
        }
}

/// Lets a work be changed to a title that is not blank.
pub fn plan_update_work(
    caller: &Caller,
    found: Lookup<Work>,
    if_match: Option<&str>,
    title: &str,
) -> (r: Result<Work, AppError>)
    ensures
        plan_update_work_outcome(r, *caller, found, if_match, title),
{
    let opened: Result<Work, AppError> = open_work(caller, found, if_match);
    assert(work_opened(opened, *caller, found, str_of(if_match)));
    match opened {
        Err(e) => Err(e),
        Ok(w) => match plan_create_work(title) {
            Ok(()) => Ok(w),
            Err(e) => Err(e),
        },
    }
}

/// Whether `r` is what [`work_updated`] owes its caller.
pub open spec fn work_updated_outcome(
    r: Result<Answer<Work>, AppError>,
    caller: Caller,
    request_id: Uuid,
    current: Work,
    result: Option<Option<Work>>,
) -> bool {
    match result {
        None => fails(r, ErrorView::Database),
        Some(None) => fails(r, ErrorView::NotFound),
        Some(Some(w)) => gives(
            r,
            200,
            w.updated_at.millis,
            Some(
                entry(
                    caller.audit_context(None, request_id),
                    "work.update"@,
                    "work"@,
                    current.id,
                    seq![
                        within("before"@, "title"@, FactView::Text(current.title@)),
                        within("before"@, "composer"@, text_fact(text_of(current.composer))),
                        within("after"@, "title"@, FactView::Text(w.title@)),
                        within("after"@, "composer"@, text_fact(text_of(w.composer))),
                    ],
                ),
            ),
            w,
        ),
    }
}

/// How changing the work `current` ended. `Some(None)` where it was gone by
/// then.
pub fn work_updated(
    caller: &Caller,
    request_id: Uuid,
    current: &Work,
    result: Option<Option<Work>>,
) -> (r: Result<Answer<Work>, AppError>)
    ensures
        work_updated_outcome(r, *caller, request_id, *current, result),
{
    match result {
        None => Err(AppError::Database),
        Some(None) => Err(AppError::NotFound),
        Some(Some(w)) => {
            let e: AuditEntry = AuditEntry::new(
                caller.audit_ctx(None, request_id),
                "work.update",
                "work",
                current.id,
            ).with_in("before", "title", text(current.title.as_str())).with_in(
                "before",
                "composer",
                opt_text(&current.composer),
            ).with_in("after", "title", text(w.title.as_str())).with_in(
                "after",
                "composer",
                opt_text(&w.composer),
            );
            etag_response_status(200, w.updated_at.millis, Some(e), w)
        },
    }
}

/// Whether `r` is what [`plan_delete_work`] owes its caller.
pub open spec fn plan_delete_work_outcome(
    r: Result<AuditEntry, AppError>,
    caller: Caller,
    request_id: Uuid,
    found: Lookup<Work>,
    if_match: Option<&str>,
) -> bool {
    exists|opened: Result<Work, AppError>| #[trigger]
        work_opened(opened, caller, found, str_of(if_match)) && match opened {
            Err(e) => r is Err && r->Err_0 == e,
            Ok(w) => r is Ok && r->Ok_0@ =~= entry(
                caller.audit_context(None, request_id),
                "work.delete"@,
                "work"@,
                w.id,
                seq![
                    detail("title"@, FactView::Text(w.title@)),
                    detail("composer"@, text_fact(text_of(w.composer))),
                ],
            ),
        }
}

/// Opens a work to delete it, with what is recorded before the row goes.
pub fn plan_delete_work(
    caller: &Caller,
    request_id: Uuid,
    found: Lookup<Work>,
    if_match: Option<&str>,
) -> (r: Result<AuditEntry, AppError>)
    ensures
        plan_delete_work_outcome(r, *caller, request_id, found, if_match),
{
    let opened: Result<Work, AppError> = open_work(caller, found, if_match);
    assert(work_opened(opened, *caller, found, str_of(if_match)));
    match opened {
        Err(e) => Err(e),
        Ok(w) => Ok(
            AuditEntry::new(
                caller.audit_ctx(None, request_id),
                "work.delete",
                "work",
                w.id,
            ).with("title", text(w.title.as_str())).with("composer", opt_text(&w.composer)),
        ),
    }
}

/// How deleting a row ended that others may refer to.
pub open spec fn deleted_unless_referenced(
    r: Result<u16, AppError>,
    result: Result<bool, DeleteError>,
    referenced: Seq<char>,
) -> bool {
    match result {
        Ok(true) => r == Ok::<u16, AppError>(204),
        Ok(false) => fails(r, ErrorView::NotFound),
        Err(DeleteError::Referenced) => fails(r, ErrorView::Conflict(referenced)),
        Err(DeleteError::Database) => fails(r, ErrorView::Database),
    }
}

/// How deleting a row ended that others may refer to.
pub fn finish_delete(result: Result<bool, DeleteError>, referenced: &str) -> (r: Result<
    u16,
    AppError,
>)
    ensures
        deleted_unless_referenced(r, result, referenced@),
{
    match result {
        Ok(true) => Ok(204),
        Ok(false) => Err(AppError::NotFound),
        Err(DeleteError::Referenced) => Err(AppError::Conflict(referenced.to_owned())),
        Err(DeleteError::Database) => Err(AppError::Database),
    }
}

/// Whether `r` is what [`work_deleted`] owes its caller.
pub open spec fn work_deleted_outcome(
    r: Result<u16, AppError>,
    result: Result<bool, DeleteError>,
) -> bool {
    deleted_unless_referenced(
        r,
        result,
        "this work is still referenced by an arrangement; remove or reassign it first"@,
    )
}

/// How deleting a work ended: the status to answer with.
pub fn work_deleted(result: Result<bool, DeleteError>) -> (r: Result<u16, AppError>)
    ensures
        work_deleted_outcome(r, result),
{
    finish_delete(
        result,
        "this work is still referenced by an arrangement; remove or reassign it first",
    )
}

// Arrangements.

/// What a caller sends of an arrangement.
pub struct ArrangementRequest {
    pub title: String,
    pub work_id: Option<Uuid>,
    pub instrumentation: Option<String>,
    pub arranger: Option<String>,
    pub publisher: Option<String>,
    pub purchase_date: Option<Date>,
    pub license_notes: Option<String>,
    pub copy_count_allowed: Option<i32>,
    pub status: Option<String>,
    pub duration_seconds: Option<i32>,
    pub difficulty: Option<i16>,
    pub difficulty_ratings: Option<serde_json::Value>,
    pub difficulty_notes: Option<String>,
}

impl ArrangementRequest {
    /// Whether `p` holds what was sent, with a status of `unsaid` where none
    /// was.
    pub open spec fn says(self, p: Parsed, unsaid: Seq<char>) -> bool {
        &&& p.title == self.title
        &&& p.work_id == self.work_id
        &&& p.instrumentation == self.instrumentation
        &&& p.arranger == self.arranger
        &&& p.publisher == self.publisher
        &&& p.purchase_date == self.purchase_date
        &&& p.license_notes == self.license_notes
        &&& p.copy_count_allowed == self.copy_count_allowed
        &&& p.status@ == (match self.status {
            Some(s) => s@,
            None => unsaid,
        })
        &&& p.duration_seconds == self.duration_seconds
        &&& p.difficulty == self.difficulty
        &&& p.difficulty_ratings == self.difficulty_ratings
        &&& p.difficulty_notes == self.difficulty_notes
    }

    fn fields(self, unsaid: &str) -> (r: Result<Parsed, AppError>)
        ensures
            trimmed(self.title@).len() == 0 ==> fails(
                r,
                invalid("title"@, "title must not be empty"@),
            ),
            trimmed(self.title@).len() > 0 ==> r is Ok && self.says(r->Ok_0, unsaid@),
    {
        match plan_create_work(self.title.as_str()) {
            Ok(()) => {},
            Err(e) => return Err(e),
        }
        Ok(
            Parsed {
                title: self.title,
                work_id: self.work_id,
                instrumentation: self.instrumentation,
                arranger: self.arranger,
                publisher: self.publisher,
                purchase_date: self.purchase_date,
                license_notes: self.license_notes,
                copy_count_allowed: self.copy_count_allowed,
                status: match self.status {
                    Some(s) => s,
                    None => unsaid.to_owned(),
                },
                duration_seconds: self.duration_seconds,
                difficulty: self.difficulty,
                difficulty_ratings: self.difficulty_ratings,
                difficulty_notes: self.difficulty_notes,
            },
        )
    }
}

/// The error that a failure to store an arrangement is answered with.
pub open spec fn arrangement_error_view(err: ArrangementError) -> ErrorView {
    match err {
        ArrangementError::DuplicateSlug => ErrorView::Conflict(
            "an arrangement with a slug derived from this title already exists in this organization"@,
        ),
        ArrangementError::UnknownWork => invalid(
            "workId"@,
            "workId does not reference a live work"@,
        ),
        ArrangementError::Database => ErrorView::Database,
    }
}

/// The error that a failure to store an arrangement is answered with.
pub fn arrangement_error_to_app_error(err: ArrangementError) -> (r: AppError)
    ensures
        r@ == arrangement_error_view(err),
{
    match err {
        ArrangementError::DuplicateSlug => AppError::Conflict(
            "an arrangement with a slug derived from this title already exists in this organization".to_owned(),
        ),
        ArrangementError::UnknownWork => AppError::invalid(
            "workId",
            "workId does not reference a live work",
        ),
        ArrangementError::Database => AppError::Database,
    }
}

/// Whether `r` is what [`plan_list_arrangements`] owes its caller.
pub open spec fn plan_list_arrangements_outcome(
    r: Result<ArrangementSearch, AppError>,
    standing: Standing,
    filters: Vec<(String, String)>,
    q: Option<&str>,
) -> bool {
    &&& denied(standing, Need::Read) matches Some(e) ==> fails(r, e)
    &&& denied(standing, Need::Read) is None ==> search_built(r, filters@, q)
}

/// Lets arrangements be listed, and says what is searched for among them.
pub fn plan_list_arrangements(
    standing: &Standing,
    filters: &Vec<(String, String)>,
    q: Option<&str>,
) -> (r: Result<ArrangementSearch, AppError>)
    ensures
        plan_list_arrangements_outcome(r, *standing, *filters, q),
{
    match authorize(standing, Need::Read) {
        Ok(()) => {},
        Err(e) => return Err(e),
    }
    build_search(filters, q)
}

/// Whether `r` is what [`plan_create_arrangement`] owes its caller.
pub open spec fn plan_create_arrangement_outcome(
    r: Result<Parsed, AppError>,
    standing: Standing,
    body: ArrangementRequest,
) -> bool {
    &&& denied(standing, Need::EditArchive) matches Some(e) ==> fails(r, e)
    &&& denied(standing, Need::EditArchive) is None ==> {
        &&& (trimmed(body.title@).len() == 0
            ==> fails(r, invalid("title"@, "title must not be empty"@)))
        &&& (trimmed(body.title@).len() > 0 ==> r is Ok && body.says(r->Ok_0, "active"@))
    }
}

/// The fields of a new arrangement. One that says no status is active.
pub fn plan_create_arrangement(
    standing: &Standing,
    body: ArrangementRequest,
) -> (r: Result<Parsed, AppError>)
    ensures
        plan_create_arrangement_outcome(r, *standing, body),
{
    match authorize(standing, Need::EditArchive) {
        Ok(()) => {},
        Err(e) => return Err(e),
    }
    body.fields("active")
}

/// Whether `r` is what [`arrangement_created`] owes its caller.
pub open spec fn arrangement_created_outcome(
    r: Result<Answer<Arrangement>, AppError>,
    caller: Caller,
    org: Uuid,
    request_id: Uuid,
    result: Result<Arrangement, ArrangementError>,
) -> bool {
    match result {
        Err(e) => fails(r, arrangement_error_view(e)),
        Ok(a) => gives(
            r,
            201,
            a.updated_at.millis,
            Some(
                entry(
                    caller.audit_context(Some(org), request_id),
                    "arrangement.create"@,
                    "arrangement"@,
                    a.id,
                    seq![
                        detail("title"@, FactView::Text(a.title@)),
                        detail("slug"@, FactView::Text(a.slug@)),
                    ],
                ),
            ),
            a,
        ),
    }
}

/// How creating an arrangement ended.
pub fn arrangement_created(
    caller: &Caller,
    org: Uuid,
    request_id: Uuid,
    result: Result<Arrangement, ArrangementError>,
) -> (r: Result<Answer<Arrangement>, AppError>)
    ensures
        arrangement_created_outcome(r, *caller, org, request_id, result),
{
    match result {
        Err(e) => Err(arrangement_error_to_app_error(e)),
        Ok(a) => {
            let e: AuditEntry = AuditEntry::new(
                caller.audit_ctx(Some(org), request_id),
                "arrangement.create",
                "arrangement",
                a.id,
            ).with("title", text(a.title.as_str())).with("slug", text(a.slug.as_str()));
            etag_response_status(201, a.updated_at.millis, Some(e), a)
        },
    }
}

/// The arrangement of an organization.
pub fn find_arrangement_scoped(found: Lookup<Arrangement>, org: Uuid) -> (r: Result<
    Arrangement,
    AppError,
>)
    ensures
        looked_up(r, in_org(found, org)),
{
    require(scoped_arrangement(found, org))
}

/// Whether `r` is what [`get_arrangement`] owes its caller.
pub open spec fn get_arrangement_outcome(
    r: Result<Answer<Arrangement>, AppError>,
    standing: Standing,
    found: Lookup<Arrangement>,
    org: Uuid,
) -> bool {
    &&& denied(standing, Need::Read) matches Some(e) ==> fails(r, e)
    &&& denied(standing, Need::Read) is None ==> (match in_org(found, org) {
        Lookup::Found(a) => gives(r, 200, a.updated_at.millis, None, a),
        Lookup::Missing => fails(r, ErrorView::NotFound),
        Lookup::Failed => fails(r, ErrorView::Database),
    })
}

/// An arrangement.
pub fn get_arrangement(
    standing: &Standing,
    found: Lookup<Arrangement>,
    org: Uuid,
) -> (r: Result<Answer<Arrangement>, AppError>)
    ensures
        get_arrangement_outcome(r, *standing, found, org),
{
    match authorize(standing, Need::Read) {
        Ok(()) => {},
        Err(e) => return Err(e),
    }
    match find_arrangement_scoped(found, org) {
        Ok(a) => etag_response_status(200, a.updated_at.millis, None, a),
        Err(e) => Err(e),
    }
}

/// The version of an arrangement.
pub open spec fn arrangement_version() -> spec_fn(Arrangement) -> i64 {
    |a: Arrangement| a.updated_at.millis
}

/// Whether `r` is what [`plan_delete_arrangement`] owes its caller.
pub open spec fn plan_delete_arrangement_outcome(
    r: Result<Arrangement, AppError>,
    standing: Standing,
    found: Lookup<Arrangement>,
    org: Uuid,
    if_match: Option<&str>,
) -> bool {
    &&& denied(standing, Need::EditArchive) matches Some(e) ==> fails(r, e)
    &&& denied(standing, Need::EditArchive) is None ==> looked_up_at(
        r,
        in_org(found, org),
        str_of(if_match),
        arrangement_version(),
    )
}

/// Opens an arrangement for a write, at the version that it was made for.
pub fn plan_delete_arrangement(
    standing: &Standing,
    found: Lookup<Arrangement>,
    org: Uuid,
    if_match: Option<&str>,
) -> (r: Result<Arrangement, AppError>)
    ensures
        plan_delete_arrangement_outcome(r, *standing, found, org, if_match),
{
    match authorize(standing, Need::EditArchive) {
        Ok(()) => {},
        Err(e) => return Err(e),
    }
    let a: Arrangement = match find_arrangement_scoped(found, org) {
        Ok(a) => a,
        Err(e) => return Err(e),
    };
    match check_if_match(if_match, a.updated_at.millis) {
        Ok(()) => Ok(a),
        Err(e) => Err(e),
    }
}

/// Whether `r` is what [`plan_update_arrangement`] owes its caller.
pub open spec fn plan_update_arrangement_outcome(
    r: Result<(Arrangement, Parsed), AppError>,
    standing: Standing,
    found: Lookup<Arrangement>,
    org: Uuid,
    if_match: Option<&str>,
    body: ArrangementRequest,
) -> bool {
    &&& denied(standing, Need::EditArchive) matches Some(e) ==> fails(r, e)
    &&& denied(standing, Need::EditArchive) is None ==> (match in_org(found, org) {
        Lookup::Missing => fails(r, ErrorView::NotFound),
        Lookup::Failed => fails(r, ErrorView::Database),
        Lookup::Found(a) => if !names_version(str_of(if_match), a.updated_at.millis) {
            fails(r, ErrorView::PreconditionFailed)
        } else if trimmed(body.title@).len() == 0 {
            fails(r, invalid("title"@, "title must not be empty"@))
        } else {
            r matches Ok((current, p)) && current == a && body.says(p, a.status@)
        },
    })
}

/// The new fields of an arrangement, with the row as it was. One that says no
/// status keeps the one it has.
pub fn plan_update_arrangement(
    standing: &Standing,
    found: Lookup<Arrangement>,
    org: Uuid,
    if_match: Option<&str>,
    body: ArrangementRequest,
) -> (r: Result<(Arrangement, Parsed), AppError>)
    ensures
        plan_update_arrangement_outcome(r, *standing, found, org, if_match, body),
{
    match authorize(standing, Need::EditArchive) {
        Ok(()) => {},
        Err(e) => return Err(e),
    }
    let current: Arrangement = match plan_delete_arrangement(standing, found, org, if_match) {
        Ok(a) => a,
        Err(e) => return Err(e),
    };
    match body.fields(current.status.as_str()) {
        Ok(p) => Ok((current, p)),
        Err(e) => Err(e),
    }
}

/// Whether `r` is what [`arrangement_updated`] owes its caller.
pub open spec fn arrangement_updated_outcome(
    r: Result<Answer<Arrangement>, AppError>,
    caller: Caller,
    org: Uuid,
    request_id: Uuid,
    current: Arrangement,
    result: Result<Option<Arrangement>, ArrangementError>,
) -> bool {
    match result {
        Err(e) => fails(r, arrangement_error_view(e)),
        Ok(None) => fails(r, ErrorView::NotFound),
        Ok(Some(a)) => gives(
            r,
            200,
            a.updated_at.millis,
            Some(
                entry(
                    caller.audit_context(Some(org), request_id),
                    "arrangement.update"@,
                    "arrangement"@,
                    current.id,
                    seq![
                        within("before"@, "title"@, FactView::Text(current.title@)),
                        within("before"@, "status"@, FactView::Text(current.status@)),
                        within("after"@, "title"@, FactView::Text(a.title@)),
                        within("after"@, "status"@, FactView::Text(a.status@)),
                    ],
                ),
            ),
            a,
        ),
    }
}

/// How changing the arrangement `current` ended. `Ok(None)` where it was gone
/// by then.
pub fn arrangement_updated(
    caller: &Caller,
    org: Uuid,
    request_id: Uuid,
    current: &Arrangement,
    result: Result<Option<Arrangement>, ArrangementError>,
) -> (r: Result<Answer<Arrangement>, AppError>)
    ensures
        arrangement_updated_outcome(r, *caller, org, request_id, *current, result),
{
    match result {
        Err(e) => Err(arrangement_error_to_app_error(e)),
        Ok(None) => Err(AppError::NotFound),
        Ok(Some(a)) => {
            let e: AuditEntry = AuditEntry::new(
                caller.audit_ctx(Some(org), request_id),
                "arrangement.update",
                "arrangement",
                current.id,
            ).with_in("before", "title", text(current.title.as_str())).with_in(
                "before",
                "status",
                text(current.status.as_str()),
            ).with_in("after", "title", text(a.title.as_str())).with_in(
                "after",
                "status",
                text(a.status.as_str()),
            );
            etag_response_status(200, a.updated_at.millis, Some(e), a)
        },
    }
}

/// What is recorded of an arrangement that is taken away or brought back.
pub open spec fn arrangement_entry(
    caller: Caller,
    org: Uuid,
    request_id: Uuid,
    action: Seq<char>,
    a: Arrangement,
) -> EntryView {
    entry(
        caller.audit_context(Some(org), request_id),
        action,
        "arrangement"@,
        a.id,
        seq![
            detail("title"@, FactView::Text(a.title@)),
            detail("slug"@, FactView::Text(a.slug@)),
        ],
    )
}

fn arrangement_record(
    caller: &Caller,
    org: Uuid,
    request_id: Uuid,
    action: &str,
    a: &Arrangement,
) -> (r: AuditEntry)
    ensures
        r@ =~= arrangement_entry(*caller, org, request_id, action@, *a),
{
    AuditEntry::new(caller.audit_ctx(Some(org), request_id), action, "arrangement", a.id).with(
        "title",
        text(a.title.as_str()),
    ).with("slug", text(a.slug.as_str()))
}

/// Whether `r` is what [`arrangement_deleted`] owes its caller.
pub open spec fn arrangement_deleted_outcome(
    r: Result<Answer<()>, AppError>,
    caller: Caller,
    org: Uuid,
    request_id: Uuid,
    current: Arrangement,
    result: Option<bool>,
) -> bool {
    removal(
        r,
        result,
        arrangement_entry(caller, org, request_id, "arrangement.soft_delete"@, current),
    )
}

/// How deleting the arrangement `current` ended.
pub fn arrangement_deleted(
    caller: &Caller,
    org: Uuid,
    request_id: Uuid,
    current: &Arrangement,
    result: Option<bool>,
) -> (r: Result<Answer<()>, AppError>)
    ensures
        arrangement_deleted_outcome(r, *caller, org, request_id, *current, result),
{
    finish_removal(
        result,
        arrangement_record(caller, org, request_id, "arrangement.soft_delete", current),
    )
}

/// Whether `r` is what [`plan_undelete_arrangement`] owes its caller.
pub open spec fn plan_undelete_arrangement_outcome(
    r: Result<Arrangement, AppError>,
    standing: Standing,
    found: Lookup<Arrangement>,
    org: Uuid,
) -> bool {
    &&& denied(standing, Need::EditArchive) matches Some(e) ==> fails(r, e)
    &&& denied(standing, Need::EditArchive) is None ==> looked_up(r, in_org(found, org))
}

/// Opens an arrangement, deleted or not, to restore it.
pub fn plan_undelete_arrangement(
    standing: &Standing,
    found: Lookup<Arrangement>,
    org: Uuid,
) -> (r: Result<Arrangement, AppError>)
    ensures
        plan_undelete_arrangement_outcome(r, *standing, found, org),
{
    match authorize(standing, Need::EditArchive) {
        Ok(()) => {},
        Err(e) => return Err(e),
    }
    find_arrangement_scoped(found, org)
}

/// Whether `r` is what [`arrangement_undeleted`] owes its caller.
pub open spec fn arrangement_undeleted_outcome(
    r: Result<Answer<()>, AppError>,
    caller: Caller,
    org: Uuid,
    request_id: Uuid,
    current: Arrangement,
    result: Option<bool>,
) -> bool {
    removal(
        r,
        result,
        arrangement_entry(caller, org, request_id, "arrangement.undelete"@, current),
    )
}

/// How restoring the arrangement `current` ended.
pub fn arrangement_undeleted(
    caller: &Caller,
    org: Uuid,
    request_id: Uuid,
    current: &Arrangement,
    result: Option<bool>,
) -> (r: Result<Answer<()>, AppError>)
    ensures
        arrangement_undeleted_outcome(r, *caller, org, request_id, *current, result),
{
    finish_removal(
        result,
        arrangement_record(caller, org, request_id, "arrangement.undelete", current),
    )
}

// Voices.

/// What a caller sends of a voice.
pub struct VoiceRequest {
    pub name: String,
    pub instrument_id: Uuid,
}

/// The error that a failure to store a voice is answered with.
pub open spec fn voice_error_view(err: VoiceError) -> ErrorView {
    match err {
        VoiceError::DuplicateSlug => ErrorView::Conflict(
            "a voice with a slug derived from this name already exists in this arrangement"@,
        ),
        VoiceError::UnknownInstrument => invalid(
            "instrumentId"@,
            "instrumentId does not reference a live instrument"@,
        ),
        VoiceError::Database => ErrorView::Database,
    }
}

/// The error that a failure to store a voice is answered with.
pub fn voice_error_to_app_error(err: VoiceError) -> (r: AppError)
    ensures
        r@ == voice_error_view(err),
{
    match err {
        VoiceError::DuplicateSlug => AppError::Conflict(
            "a voice with a slug derived from this name already exists in this arrangement".to_owned(),
        ),
        VoiceError::UnknownInstrument => AppError::invalid(
            "instrumentId",
            "instrumentId does not reference a live instrument",
        ),
        VoiceError::Database => AppError::Database,
    }
}

/// The instrument that a list of voices is narrowed to.
pub open spec fn chosen_instrument(filters: Seq<(String, String)>) -> Option<Uuid> {
    match first_value(filters, "instrumentId"@) {
        None => None,
        Some(raw) => read_uuid(raw),
    }
}

/// The error where that does not read as one.
pub open spec fn voice_filter_error(filters: Seq<(String, String)>) -> Option<ErrorView> {
    match first_value(filters, "instrumentId"@) {
        Some(raw) => if read_uuid(raw) is None {
            Some(invalid("filter[instrumentId]"@, "instrumentId must be a valid UUID"@))
        } else {
            None
        },
        None => None,
    }
}

/// Whether `r` is what [`voice_filter`] owes its caller.
pub open spec fn voice_filter_outcome(
    r: Result<Option<Uuid>, AppError>,
    filters: Vec<(String, String)>,
) -> bool {
    match voice_filter_error(filters@) {
        Some(e) => fails(r, e),
        None => r == Ok::<Option<Uuid>, AppError>(chosen_instrument(filters@)),
    }
}

/// The instrument that a list of voices is narrowed to.
pub fn voice_filter(filters: &Vec<(String, String)>) -> (r: Result<Option<Uuid>, AppError>)
    ensures
        voice_filter_outcome(r, *filters),
{
    match field(filters, "instrumentId") {
        None => Ok(None),
        Some(raw) => match Uuid::parse_str(raw) {
            Some(id) => Ok(Some(id)),
            None => Err(
                AppError::invalid("filter[instrumentId]", "instrumentId must be a valid UUID"),
            ),
        },
    }
}

/// Whether `r` is what [`plan_create_voice`] owes its caller.
pub open spec fn plan_create_voice_outcome(
    r: Result<(), AppError>,
    standing: Standing,
    parent: Lookup<Arrangement>,
    org: Uuid,
    body: VoiceRequest,
) -> bool {
    &&& denied(standing, Need::EditArchive) matches Some(e) ==> fails(r, e)
    &&& denied(standing, Need::EditArchive) is None ==> (match in_org(parent, org) {
        Lookup::Missing => fails(r, ErrorView::NotFound),
        Lookup::Failed => fails(r, ErrorView::Database),
        Lookup::Found(_) => if trimmed(body.name@).len() == 0 {
            fails(r, invalid("name"@, "name must not be empty"@))
        } else {
            r is Ok
        },
    })
}

/// Lets a voice be added to an arrangement of the organization.
pub fn plan_create_voice(
    standing: &Standing,
    parent: Lookup<Arrangement>,
    org: Uuid,
    body: &VoiceRequest,
) -> (r: Result<(), AppError>)
    ensures
        plan_create_voice_outcome(r, *standing, parent, org, *body),
{
    match authorize(standing, Need::EditArchive) {
        Ok(()) => {},
        Err(e) => return Err(e),
    }
    match find_arrangement_scoped(parent, org) {
        Ok(_) => not_blank(body.name.as_str(), "name", "name must not be empty"),
        Err(e) => Err(e),
    }
}

/// Whether `r` is what [`voice_created`] owes its caller.
pub open spec fn voice_created_outcome(
    r: Result<Answer<Voice>, AppError>,
    caller: Caller,
    org: Uuid,
    request_id: Uuid,
    arr: Uuid,
    result: Result<Voice, VoiceError>,
) -> bool {
    match result {
        Err(e) => fails(r, voice_error_view(e)),
        Ok(v) => gives(
            r,
            201,
            v.updated_at.millis,
            Some(
                entry(
                    caller.audit_context(Some(org), request_id),
                    "voice.create"@,
                    "voice"@,
                    v.id,
                    seq![
                        detail("name"@, FactView::Text(v.name@)),
                        detail("slug"@, FactView::Text(v.slug@)),
                        detail("arrangementId"@, FactView::Id(arr)),
                    ],
                ),
            ),
            v,
        ),
    }
}

/// How adding a voice ended.
pub fn voice_created(
    caller: &Caller,
    org: Uuid,
    request_id: Uuid,
    arr: Uuid,
    result: Result<Voice, VoiceError>,
) -> (r: Result<Answer<Voice>, AppError>)
    ensures
        voice_created_outcome(r, *caller, org, request_id, arr, result),
{
    match result {
        Err(e) => Err(voice_error_to_app_error(e)),
        Ok(v) => {
            let e: AuditEntry = AuditEntry::new(
                caller.audit_ctx(Some(org), request_id),
                "voice.create",
                "voice",
                v.id,
            ).with("name", text(v.name.as_str())).with("slug", text(v.slug.as_str())).with(
                "arrangementId",
                Fact::Id(arr),
            );
            etag_response_status(201, v.updated_at.millis, Some(e), v)
        },
    }
}

/// The voice of an arrangement of the organization.
pub fn find_voice_scoped(
    parent: Lookup<Arrangement>,
    found: Lookup<Voice>,
    org: Uuid,
    arr: Uuid,
) -> (r: Result<Voice, AppError>)
    ensures
        looked_up(r, in_arrangement(parent, found, org, arr)),
{
    require(scoped_voice(parent, found, org, arr))
}

/// Whether `r` is what [`get_voice`] owes its caller.
pub open spec fn get_voice_outcome(
    r: Result<Answer<Voice>, AppError>,
    standing: Standing,
    parent: Lookup<Arrangement>,
    found: Lookup<Voice>,
    org: Uuid,
    arr: Uuid,
) -> bool {
    &&& denied(standing, Need::Read) matches Some(e) ==> fails(r, e)
    &&& denied(standing, Need::Read) is None ==> (match in_arrangement(parent, found, org, arr) {
        Lookup::Found(v) => gives(r, 200, v.updated_at.millis, None, v),
        Lookup::Missing => fails(r, ErrorView::NotFound),
        Lookup::Failed => fails(r, ErrorView::Database),
    })
}

/// A voice.
pub fn get_voice(
    standing: &Standing,
    parent: Lookup<Arrangement>,
    found: Lookup<Voice>,
    org: Uuid,
    arr: Uuid,
) -> (r: Result<Answer<Voice>, AppError>)
    ensures
        get_voice_outcome(r, *standing, parent, found, org, arr),
{
    match authorize(standing, Need::Read) {
        Ok(()) => {},
        Err(e) => return Err(e),
    }
    match find_voice_scoped(parent, found, org, arr) {
        Ok(v) => etag_response_status(200, v.updated_at.millis, None, v),
        Err(e) => Err(e),
    }
}

/// The version of a voice.
pub open spec fn voice_version() -> spec_fn(Voice) -> i64 {
    |v: Voice| v.updated_at.millis
}

/// Whether `r` is what [`plan_delete_voice`] owes its caller.
pub open spec fn plan_delete_voice_outcome(
    r: Result<Voice, AppError>,
    standing: Standing,
    parent: Lookup<Arrangement>,
    found: Lookup<Voice>,
    org: Uuid,
    arr: Uuid,
    if_match: Option<&str>,
) -> bool {
    &&& denied(standing, Need::EditArchive) matches Some(e) ==> fails(r, e)
    &&& denied(standing, Need::EditArchive) is None ==> looked_up_at(
        r,
        in_arrangement(parent, found, org, arr),
        str_of(if_match),
        voice_version(),
    )
}

/// Opens a voice for a write, at the version that it was made for.
pub fn plan_delete_voice(
    standing: &Standing,
    parent: Lookup<Arrangement>,
    found: Lookup<Voice>,
    org: Uuid,
    arr: Uuid,
    if_match: Option<&str>,
) -> (r: Result<Voice, AppError>)
    ensures
        plan_delete_voice_outcome(r, *standing, parent, found, org, arr, if_match),
{
    match authorize(standing, Need::EditArchive) {
        Ok(()) => {},
        Err(e) => return Err(e),
    }
    let v: Voice = match find_voice_scoped(parent, found, org, arr) {
        Ok(v) => v,
        Err(e) => return Err(e),
    };
    match check_if_match(if_match, v.updated_at.millis) {
        Ok(()) => Ok(v),
        Err(e) => Err(e),
    }
}

/// Whether `r` is what [`plan_update_voice`] owes its caller.
pub open spec fn plan_update_voice_outcome(
    r: Result<Voice, AppError>,
    standing: Standing,
    parent: Lookup<Arrangement>,
    found: Lookup<Voice>,
    org: Uuid,
    arr: Uuid,
    if_match: Option<&str>,
    body: VoiceRequest,
) -> bool {
    &&& denied(standing, Need::EditArchive) matches Some(e) ==> fails(r, e)
    &&& denied(standing, Need::EditArchive) is None
        ==> (match in_arrangement(parent, found, org, arr) {
        Lookup::Missing => fails(r, ErrorView::NotFound),
        Lookup::Failed => fails(r, ErrorView::Database),
        Lookup::Found(v) => if !names_version(str_of(if_match), v.updated_at.millis) {
            fails(r, ErrorView::PreconditionFailed)
        } else if trimmed(body.name@).len() == 0 {
            fails(r, invalid("name"@, "name must not be empty"@))
        } else {
            r == Ok::<Voice, AppError>(v)
        },
    })
}

/// Opens a voice to change it.
pub fn plan_update_voice(
    standing: &Standing,
    parent: Lookup<Arrangement>,
    found: Lookup<Voice>,
    org: Uuid,
    arr: Uuid,
    if_match: Option<&str>,
    body: &VoiceRequest,
) -> (r: Result<Voice, AppError>)
    ensures
        plan_update_voice_outcome(r, *standing, parent, found, org, arr, if_match, *body),
{
    match authorize(standing, Need::EditArchive) {
        Ok(()) => {},
        Err(e) => return Err(e),
    }
    let v: Voice = match plan_delete_voice(standing, parent, found, org, arr, if_match) {
        Ok(v) => v,
        Err(e) => return Err(e),
    };
    match not_blank(body.name.as_str(), "name", "name must not be empty") {
        Ok(()) => Ok(v),
        Err(e) => Err(e),
    }
}

/// Whether `r` is what [`voice_updated`] owes its caller.
pub open spec fn voice_updated_outcome(
    r: Result<Answer<Voice>, AppError>,
    caller: Caller,
    org: Uuid,
    request_id: Uuid,
    current: Voice,
    result: Result<Option<Voice>, VoiceError>,
) -> bool {
    match result {
        Err(e) => fails(r, voice_error_view(e)),
        Ok(None) => fails(r, ErrorView::NotFound),
        Ok(Some(v)) => gives(
            r,
            200,
            v.updated_at.millis,
            Some(
                entry(
                    caller.audit_context(Some(org), request_id),
                    "voice.update"@,
                    "voice"@,
                    current.id,
                    seq![
                        within("before"@, "name"@, FactView::Text(current.name@)),
                        within(
                            "before"@,
                            "instrumentId"@,
                            FactView::Id(current.instrument_id),
                        ),
                        within("after"@, "name"@, FactView::Text(v.name@)),
                        within("after"@, "instrumentId"@, FactView::Id(v.instrument_id)),
                    ],
                ),
            ),
            v,
        ),
    }
}

/// How changing the voice `current` ended. `Ok(None)` where it was gone by
/// then.
pub fn voice_updated(
    caller: &Caller,
    org: Uuid,
    request_id: Uuid,
    current: &Voice,
    result: Result<Option<Voice>, VoiceError>,
) -> (r: Result<Answer<Voice>, AppError>)
    ensures
        voice_updated_outcome(r, *caller, org, request_id, *current, result),
{
    match result {
        Err(e) => Err(voice_error_to_app_error(e)),
        Ok(None) => Err(AppError::NotFound),
        Ok(Some(v)) => {
            let e: AuditEntry = AuditEntry::new(
                caller.audit_ctx(Some(org), request_id),
                "voice.update",
                "voice",
                current.id,
            ).with_in("before", "name", text(current.name.as_str())).with_in(
                "before",
                "instrumentId",
                Fact::Id(current.instrument_id),
            ).with_in("after", "name", text(v.name.as_str())).with_in(
                "after",
                "instrumentId",
                Fact::Id(v.instrument_id),
            );
            etag_response_status(200, v.updated_at.millis, Some(e), v)
        },
    }
}

/// What is recorded of a voice that is taken away or brought back.
pub open spec fn voice_entry(
    caller: Caller,
    org: Uuid,
    request_id: Uuid,
    action: Seq<char>,
    v: Voice,
) -> EntryView {
    entry(
        caller.audit_context(Some(org), request_id),
        action,
        "voice"@,
        v.id,
        seq![
            detail("name"@, FactView::Text(v.name@)),
            detail("slug"@, FactView::Text(v.slug@)),
        ],
    )
}

fn voice_record(caller: &Caller, org: Uuid, request_id: Uuid, action: &str, v: &Voice) -> (r:
    AuditEntry)
    ensures
        r@ =~= voice_entry(*caller, org, request_id, action@, *v),
{
    AuditEntry::new(caller.audit_ctx(Some(org), request_id), action, "voice", v.id).with(
        "name",
        text(v.name.as_str()),
    ).with("slug", text(v.slug.as_str()))
}

/// Whether `r` is what [`voice_deleted`] owes its caller.
pub open spec fn voice_deleted_outcome(
    r: Result<Answer<()>, AppError>,
    caller: Caller,
    org: Uuid,
    request_id: Uuid,
    current: Voice,
    result: Option<bool>,
) -> bool {
    removal(r, result, voice_entry(caller, org, request_id, "voice.soft_delete"@, current))
}

/// How deleting the voice `current` ended.
pub fn voice_deleted(
    caller: &Caller,
    org: Uuid,
    request_id: Uuid,
    current: &Voice,
    result: Option<bool>,
) -> (r: Result<Answer<()>, AppError>)
    ensures
        voice_deleted_outcome(r, *caller, org, request_id, *current, result),
{
    finish_removal(result, voice_record(caller, org, request_id, "voice.soft_delete", current))
}

/// Whether `r` is what [`plan_undelete_voice`] owes its caller.
pub open spec fn plan_undelete_voice_outcome(
    r: Result<Voice, AppError>,
    standing: Standing,
    parent: Lookup<Arrangement>,
    found: Lookup<Voice>,
    org: Uuid,
    arr: Uuid,
) -> bool {
    &&& denied(standing, Need::EditArchive) matches Some(e) ==> fails(r, e)
    &&& denied(standing, Need::EditArchive) is None ==> looked_up(
        r,
        in_arrangement(parent, found, org, arr),
    )
}

/// Opens a voice, deleted or not, to restore it.
pub fn plan_undelete_voice(
    standing: &Standing,
    parent: Lookup<Arrangement>,
    found: Lookup<Voice>,
    org: Uuid,
    arr: Uuid,
) -> (r: Result<Voice, AppError>)
    ensures
        plan_undelete_voice_outcome(r, *standing, parent, found, org, arr),
{
    match authorize(standing, Need::EditArchive) {
        Ok(()) => {},
        Err(e) => return Err(e),
    }
    find_voice_scoped(parent, found, org, arr)
}

/// Whether `r` is what [`voice_undeleted`] owes its caller.
pub open spec fn voice_undeleted_outcome(
    r: Result<Answer<()>, AppError>,
    caller: Caller,
    org: Uuid,
    request_id: Uuid,
    current: Voice,
    result: Option<bool>,
) -> bool {
    removal(r, result, voice_entry(caller, org, request_id, "voice.undelete"@, current))
}

/// How restoring the voice `current` ended.
pub fn voice_undeleted(
    caller: &Caller,
    org: Uuid,
    request_id: Uuid,
    current: &Voice,
    result: Option<bool>,
) -> (r: Result<Answer<()>, AppError>)
    ensures
        voice_undeleted_outcome(r, *caller, org, request_id, *current, result),
{
    finish_removal(result, voice_record(caller, org, request_id, "voice.undelete", current))
}

// Tags.

/// What a caller sends of a tag.
pub struct TagRequest {
    pub name: String,
    pub kind: Option<String>,
}

/// The error that a failure to store a tag is answered with.
pub open spec fn tag_error_view(err: TagError) -> ErrorView {
    match err {
        TagError::Duplicate => ErrorView::Conflict(
            "a tag with this name and kind already exists in this organization"@,
        ),
        TagError::Database => ErrorView::Database,
    }
}

/// The error that a failure to store a tag is answered with.
pub fn tag_error_to_app_error(err: TagError) -> (r: AppError)
    ensures
        r@ == tag_error_view(err),
{
    match err {
        TagError::Duplicate => AppError::Conflict(
            "a tag with this name and kind already exists in this organization".to_owned(),
        ),
        TagError::Database => AppError::Database,
    }
}

/// The tag, unless it belongs to another organization.
pub open spec fn tag_in_org(found: Lookup<Tag>, org: Uuid) -> Lookup<Tag> {
    match found {
        Lookup::Found(t) => if t.organization_id == org {
            found
        } else {
            Lookup::Missing
        },
        _ => found,
    }
}

/// The tag of an organization.
pub fn find_tag_scoped(found: Lookup<Tag>, org: Uuid) -> (r: Result<Tag, AppError>)
    ensures
        looked_up(r, tag_in_org(found, org)),
{
    match found {
        Lookup::Found(t) => {
            if t.organization_id == org {
                Ok(t)
            } else {
                Err(AppError::NotFound)
            }
        },
        Lookup::Missing => Err(AppError::NotFound),
        Lookup::Failed => Err(AppError::Database),
    }
}

/// Whether `r` is what [`plan_list_tags`] owes its caller.
pub open spec fn plan_list_tags_outcome(
    r: Result<Option<String>, AppError>,
    standing: Standing,
    filters: Vec<(String, String)>,
) -> bool {
    &&& denied(standing, Need::Read) matches Some(e) ==> fails(r, e)
    &&& denied(standing, Need::Read) is None ==> r is Ok && text_of(r->Ok_0) == first_value(
        filters@,
        "kind"@,
    )
}

/// Lets tags be listed, and says which kind they are narrowed to.
pub fn plan_list_tags(standing: &Standing, filters: &Vec<(String, String)>) -> (r: Result<Option<String>, AppError>)
    ensures
        plan_list_tags_outcome(r, *standing, *filters),
{
    match authorize(standing, Need::Read) {
        Ok(()) => {},
        Err(e) => return Err(e),
    }
    Ok(field_text(filters, "kind"))
}

/// Whether `r` is what [`plan_create_tag`] owes its caller.
pub open spec fn plan_create_tag_outcome(
    r: Result<(), AppError>,
    standing: Standing,
    body: TagRequest,
) -> bool {
    &&& denied(standing, Need::EditArchive) matches Some(e) ==> fails(r, e)
    &&& denied(standing, Need::EditArchive) is None ==> {
        &&& (trimmed(body.name@).len() > 0 ==> r is Ok)
        &&& (trimmed(body.name@).len() == 0
            ==> fails(r, invalid("name"@, "name must not be empty"@)))
    }
}

/// Lets a tag be created under a name that is not blank.
pub fn plan_create_tag(standing: &Standing, body: &TagRequest) -> (r: Result<(), AppError>)
    ensures
        plan_create_tag_outcome(r, *standing, *body),
{
    match authorize(standing, Need::EditArchive) {
        Ok(()) => {},
        Err(e) => return Err(e),
    }
    not_blank(body.name.as_str(), "name", "name must not be empty")
}

/// What is recorded of a tag.
pub open spec fn tag_entry(
    caller: Caller,
    org: Uuid,
    request_id: Uuid,
    action: Seq<char>,
    t: Tag,
) -> EntryView {
    entry(
        caller.audit_context(Some(org), request_id),
        action,
        "tag"@,
        t.id,
        seq![
            detail("name"@, FactView::Text(t.name@)),
            detail("kind"@, text_fact(text_of(t.kind))),
        ],
    )
}

fn tag_record(caller: &Caller, org: Uuid, request_id: Uuid, action: &str, t: &Tag) -> (r: AuditEntry)
    ensures
        r@ =~= tag_entry(*caller, org, request_id, action@, *t),
{
    AuditEntry::new(caller.audit_ctx(Some(org), request_id), action, "tag", t.id).with(
        "name",
        text(t.name.as_str()),
    ).with("kind", opt_text(&t.kind))
}

/// Whether `r` is what [`tag_created`] owes its caller.
pub open spec fn tag_created_outcome(
    r: Result<Answer<Tag>, AppError>,
    caller: Caller,
    org: Uuid,
    request_id: Uuid,
    result: Result<Tag, TagError>,
) -> bool {
    match result {
        Err(e) => fails(r, tag_error_view(e)),
        Ok(t) => gives(
            r,
            201,
            t.updated_at.millis,
            Some(tag_entry(caller, org, request_id, "tag.create"@, t)),
            t,
        ),
    }
}

/// How creating a tag ended.
pub fn tag_created(caller: &Caller, org: Uuid, request_id: Uuid, result: Result<Tag, TagError>) -> (r:
    Result<Answer<Tag>, AppError>)
    ensures
        tag_created_outcome(r, *caller, org, request_id, result),
{
    match result {
        Err(e) => Err(tag_error_to_app_error(e)),
        Ok(t) => {
            let e: AuditEntry = tag_record(caller, org, request_id, "tag.create", &t);
            etag_response_status(201, t.updated_at.millis, Some(e), t)
        },
    }
}

/// Whether `r` is what [`get_tag`] owes its caller.
pub open spec fn get_tag_outcome(
    r: Result<Answer<Tag>, AppError>,
    standing: Standing,
    found: Lookup<Tag>,
    org: Uuid,
) -> bool {
    &&& denied(standing, Need::Read) matches Some(e) ==> fails(r, e)
    &&& denied(standing, Need::Read) is None ==> (match tag_in_org(found, org) {
        Lookup::Found(t) => gives(r, 200, t.updated_at.millis, None, t),
        Lookup::Missing => fails(r, ErrorView::NotFound),
        Lookup::Failed => fails(r, ErrorView::Database),
    })
}

/// A tag.
pub fn get_tag(
    standing: &Standing,
    found: Lookup<Tag>,
    org: Uuid,
) -> (r: Result<Answer<Tag>, AppError>)
    ensures
        get_tag_outcome(r, *standing, found, org),
{
    match authorize(standing, Need::Read) {
        Ok(()) => {},
        Err(e) => return Err(e),
    }
    match find_tag_scoped(found, org) {
        Ok(t) => etag_response_status(200, t.updated_at.millis, None, t),
        Err(e) => Err(e),
    }
}

/// The version of a tag.
pub open spec fn tag_version() -> spec_fn(Tag) -> i64 {
    |t: Tag| t.updated_at.millis
}

/// Whether `r` is what [`plan_delete_tag`] owes its caller.
pub open spec fn plan_delete_tag_outcome(
    r: Result<Tag, AppError>,
    standing: Standing,
    found: Lookup<Tag>,
    org: Uuid,
    if_match: Option<&str>,
) -> bool {
    &&& denied(standing, Need::EditArchive) matches Some(e) ==> fails(r, e)
    &&& denied(standing, Need::EditArchive) is None ==> looked_up_at(
        r,
        tag_in_org(found, org),
        str_of(if_match),
        tag_version(),
    )
}

/// Opens a tag for a write, at the version that it was made for.
pub fn plan_delete_tag(
    standing: &Standing,
    found: Lookup<Tag>,
    org: Uuid,
    if_match: Option<&str>,
) -> (r: Result<Tag, AppError>)
    ensures
        plan_delete_tag_outcome(r, *standing, found, org, if_match),
{
    match authorize(standing, Need::EditArchive) {
        Ok(()) => {},
        Err(e) => return Err(e),
    }
    let t: Tag = match find_tag_scoped(found, org) {
        Ok(t) => t,
        Err(e) => return Err(e),
    };
    match check_if_match(if_match, t.updated_at.millis) {
        Ok(()) => Ok(t),
        Err(e) => Err(e),
    }
}

/// Whether `r` is what [`plan_update_tag`] owes its caller.
pub open spec fn plan_update_tag_outcome(
    r: Result<Tag, AppError>,
    standing: Standing,
    found: Lookup<Tag>,
    org: Uuid,
    if_match: Option<&str>,
    body: TagRequest,
) -> bool {
    &&& denied(standing, Need::EditArchive) matches Some(e) ==> fails(r, e)
    &&& denied(standing, Need::EditArchive) is None ==> (match tag_in_org(found, org) {
        Lookup::Missing => fails(r, ErrorView::NotFound),
        Lookup::Failed => fails(r, ErrorView::Database),
        Lookup::Found(t) => if !names_version(str_of(if_match), t.updated_at.millis) {
            fails(r, ErrorView::PreconditionFailed)
        } else if trimmed(body.name@).len() == 0 {
            fails(r, invalid("name"@, "name must not be empty"@))
        } else {
            r == Ok::<Tag, AppError>(t)
        },
    })
}

/// Opens a tag to change it.
pub fn plan_update_tag(
    standing: &Standing,
    found: Lookup<Tag>,
    org: Uuid,
    if_match: Option<&str>,
    body: &TagRequest,
) -> (r: Result<Tag, AppError>)
    ensures
        plan_update_tag_outcome(r, *standing, found, org, if_match, *body),
{
    match authorize(standing, Need::EditArchive) {
        Ok(()) => {},
        Err(e) => return Err(e),
    }
    let t: Tag = match plan_delete_tag(standing, found, org, if_match) {
        Ok(t) => t,
        Err(e) => return Err(e),
    };
    match plan_create_tag(standing, body) {
        Ok(()) => Ok(t),
        Err(e) => Err(e),
    }
}

/// Whether `r` is what [`tag_updated`] owes its caller.
pub open spec fn tag_updated_outcome(
    r: Result<Answer<Tag>, AppError>,
    caller: Caller,
    org: Uuid,
    request_id: Uuid,
    current: Tag,
    result: Result<Option<Tag>, TagError>,
) -> bool {
    match result {
        Err(e) => fails(r, tag_error_view(e)),
        Ok(None) => fails(r, ErrorView::NotFound),
        Ok(Some(t)) => gives(
            r,
            200,
            t.updated_at.millis,
            Some(
                entry(
                    caller.audit_context(Some(org), request_id),
                    "tag.update"@,
                    "tag"@,
                    current.id,
                    seq![
                        within("before"@, "name"@, FactView::Text(current.name@)),
                        within("before"@, "kind"@, text_fact(text_of(current.kind))),
                        within("after"@, "name"@, FactView::Text(t.name@)),
                        within("after"@, "kind"@, text_fact(text_of(t.kind))),
                    ],
                ),
            ),
            t,
        ),
    }
}

/// How changing the tag `current` ended. `Ok(None)` where it was gone by then.
pub fn tag_updated(
    caller: &Caller,
    org: Uuid,
    request_id: Uuid,
    current: &Tag,
    result: Result<Option<Tag>, TagError>,
) -> (r: Result<Answer<Tag>, AppError>)
    ensures
        tag_updated_outcome(r, *caller, org, request_id, *current, result),
{
    match result {
        Err(e) => Err(tag_error_to_app_error(e)),
        Ok(None) => Err(AppError::NotFound),
        Ok(Some(t)) => {
            let e: AuditEntry = AuditEntry::new(
                caller.audit_ctx(Some(org), request_id),
                "tag.update",
                "tag",
                current.id,
            ).with_in("before", "name", text(current.name.as_str())).with_in(
                "before",
                "kind",
                opt_text(&current.kind),
            ).with_in("after", "name", text(t.name.as_str())).with_in(
                "after",
                "kind",
                opt_text(&t.kind),
            );
            etag_response_status(200, t.updated_at.millis, Some(e), t)
        },
    }
}

/// Whether `r` is what [`tag_deleted`] owes its caller.
pub open spec fn tag_deleted_outcome(
    r: Result<Answer<()>, AppError>,
    caller: Caller,
    org: Uuid,
    request_id: Uuid,
    current: Tag,
    result: Option<bool>,
) -> bool {
    removal(r, result, tag_entry(caller, org, request_id, "tag.soft_delete"@, current))
}

/// How deleting the tag `current` ended.
pub fn tag_deleted(
    caller: &Caller,
    org: Uuid,
    request_id: Uuid,
    current: &Tag,
    result: Option<bool>,
) -> (r: Result<Answer<()>, AppError>)
    ensures
        tag_deleted_outcome(r, *caller, org, request_id, *current, result),
{
    finish_removal(result, tag_record(caller, org, request_id, "tag.soft_delete", current))
}

/// Whether `r` is what [`plan_undelete_tag`] owes its caller.
pub open spec fn plan_undelete_tag_outcome(
    r: Result<Tag, AppError>,
    standing: Standing,
    found: Lookup<Tag>,
    org: Uuid,
) -> bool {
    &&& denied(standing, Need::EditArchive) matches Some(e) ==> fails(r, e)
    &&& denied(standing, Need::EditArchive) is None ==> looked_up(r, tag_in_org(found, org))
}

/// Opens a tag, deleted or not, to restore it.
pub fn plan_undelete_tag(
    standing: &Standing,
    found: Lookup<Tag>,
    org: Uuid,
) -> (r: Result<Tag, AppError>)
    ensures
        plan_undelete_tag_outcome(r, *standing, found, org),
{
    match authorize(standing, Need::EditArchive) {
        Ok(()) => {},
        Err(e) => return Err(e),
    }
    find_tag_scoped(found, org)
}

/// Whether `r` is what [`tag_undeleted`] owes its caller.
pub open spec fn tag_undeleted_outcome(
    r: Result<Answer<()>, AppError>,
    caller: Caller,
    org: Uuid,
    request_id: Uuid,
    current: Tag,
    result: Option<bool>,
) -> bool {
    removal(r, result, tag_entry(caller, org, request_id, "tag.undelete"@, current))
}

/// How restoring the tag `current` ended.
pub fn tag_undeleted(
    caller: &Caller,
    org: Uuid,
    request_id: Uuid,
    current: &Tag,
    result: Option<bool>,
) -> (r: Result<Answer<()>, AppError>)
    ensures
        tag_undeleted_outcome(r, *caller, org, request_id, *current, result),
{
    finish_removal(result, tag_record(caller, org, request_id, "tag.undelete", current))
}

/// Whether `r` is what [`plan_attach_tag`] owes its caller.
pub open spec fn plan_attach_tag_outcome(
    r: Result<(), AppError>,
    standing: Standing,
    arrangement: Lookup<Arrangement>,
    tag: Lookup<Tag>,
    org: Uuid,
) -> bool {
    &&& denied(standing, Need::EditArchive) matches Some(e) ==> fails(r, e)
    &&& denied(standing, Need::EditArchive) is None ==> (match in_org(arrangement, org) {
        Lookup::Missing => fails(r, ErrorView::NotFound),
        Lookup::Failed => fails(r, ErrorView::Database),
        Lookup::Found(_) => match tag_in_org(tag, org) {
            Lookup::Missing => fails(r, ErrorView::NotFound),
            Lookup::Failed => fails(r, ErrorView::Database),
            Lookup::Found(_) => r is Ok,
        },
    })
}

/// Lets a tag be put on an arrangement: both must be the organization's.
pub fn plan_attach_tag(
    standing: &Standing,
    arrangement: Lookup<Arrangement>,
    tag: Lookup<Tag>,
    org: Uuid,
) -> (r: Result<(), AppError>)
    ensures
        plan_attach_tag_outcome(r, *standing, arrangement, tag, org),
{
    match authorize(standing, Need::EditArchive) {
        Ok(()) => {},
        Err(e) => return Err(e),
    }
    match find_arrangement_scoped(arrangement, org) {
        Ok(_) => match find_tag_scoped(tag, org) {
            Ok(_) => Ok(()),
            Err(e) => Err(e),
        },
        Err(e) => Err(e),
    }
}

/// Whether `r` is what [`tag_attached`] owes its caller.
pub open spec fn tag_attached_outcome(
    r: Result<Answer<()>, AppError>,
    caller: Caller,
    org: Uuid,
    request_id: Uuid,
    id: Uuid,
    arr: Uuid,
    tag: Uuid,
    result: Result<(), TagError>,
) -> bool {
    match result {
        Err(TagError::Duplicate) => fails(
            r,
            ErrorView::Conflict("this tag is already attached to this arrangement"@),
        ),
        Err(TagError::Database) => fails(r, ErrorView::Database),
        Ok(()) => done(
            r,
            201,
            entry(
                caller.audit_context(Some(org), request_id),
                "arrangement_tag.create"@,
                "arrangement_tag"@,
                id,
                seq![
                    detail("arrangementId"@, FactView::Id(arr)),
                    detail("tagId"@, FactView::Id(tag)),
                ],
            ),
        ),
    }
}

/// How putting a tag on an arrangement ended, under the identifier `id`.
pub fn tag_attached(
    caller: &Caller,
    org: Uuid,
    request_id: Uuid,
    id: Uuid,
    arr: Uuid,
    tag: Uuid,
    result: Result<(), TagError>,
) -> (r: Result<Answer<()>, AppError>)
    ensures
        tag_attached_outcome(r, *caller, org, request_id, id, arr, tag, result),
{
    match result {
        Err(TagError::Duplicate) => Err(
            AppError::Conflict("this tag is already attached to this arrangement".to_owned()),
        ),
        Err(TagError::Database) => Err(AppError::Database),
        Ok(()) => no_content(
            201,
            AuditEntry::new(
                caller.audit_ctx(Some(org), request_id),
                "arrangement_tag.create",
                "arrangement_tag",
                id,
            ).with("arrangementId", Fact::Id(arr)).with("tagId", Fact::Id(tag)),
        ),
    }
}

/// Whether `r` is what [`plan_list_below`] owes its caller.
pub open spec fn plan_list_below_outcome(
    r: Result<(), AppError>,
    standing: Standing,
    arrangement: Lookup<Arrangement>,
    org: Uuid,
) -> bool {
    &&& denied(standing, Need::Read) matches Some(e) ==> fails(r, e)
    &&& denied(standing, Need::Read) is None ==> match lookup_error(in_org(arrangement, org)) {
        Some(e) => fails(r, e),
        None => r is Ok,
    }
}

/// Lets what belongs to an arrangement of the organization, its voices or its
/// tags, be listed.
pub fn plan_list_below(
    standing: &Standing,
    arrangement: Lookup<Arrangement>,
    org: Uuid,
) -> (r: Result<(), AppError>)
    ensures
        plan_list_below_outcome(r, *standing, arrangement, org),
{
    match authorize(standing, Need::Read) {
        Ok(()) => {},
        Err(e) => return Err(e),
    }
    match find_arrangement_scoped(arrangement, org) {
        Ok(_) => Ok(()),
        Err(e) => Err(e),
    }
}

/// Whether `r` is what [`plan_detach_tag`] owes its caller.
pub open spec fn plan_detach_tag_outcome(
    r: Result<(), AppError>,
    standing: Standing,
    arrangement: Lookup<Arrangement>,
    org: Uuid,
) -> bool {
    &&& denied(standing, Need::EditArchive) matches Some(e) ==> fails(r, e)
    &&& denied(standing, Need::EditArchive) is None ==> match lookup_error(
        in_org(arrangement, org),
    ) {
        Some(e) => fails(r, e),
        None => r is Ok,
    }
}

/// Lets a tag be taken off an arrangement of the organization.
pub fn plan_detach_tag(
    standing: &Standing,
    arrangement: Lookup<Arrangement>,
    org: Uuid,
) -> (r: Result<(), AppError>)
    ensures
        plan_detach_tag_outcome(r, *standing, arrangement, org),
{
    match authorize(standing, Need::EditArchive) {
        Ok(()) => {},
        Err(e) => return Err(e),
    }
    match find_arrangement_scoped(arrangement, org) {
        Ok(_) => Ok(()),
        Err(e) => Err(e),
    }
}

/// Whether `r` is what [`tag_detached`] owes its caller.
pub open spec fn tag_detached_outcome(
    r: Result<Answer<()>, AppError>,
    caller: Caller,
    org: Uuid,
    request_id: Uuid,
    arr: Uuid,
    tag: Uuid,
    result: Option<bool>,
) -> bool {
    removal(
        r,
        result,
        (EntryView {
            context: caller.audit_context(Some(org), request_id),
            action: "arrangement_tag.delete"@,
            entity: "arrangement_tag"@,
            entity_id: None,
            details: seq![
                detail("arrangementId"@, FactView::Id(arr)),
                detail("tagId"@, FactView::Id(tag)),
            ],
        }),
    )
}

/// How taking a tag off an arrangement ended.
pub fn tag_detached(
    caller: &Caller,
    org: Uuid,
    request_id: Uuid,
    arr: Uuid,
    tag: Uuid,
    result: Option<bool>,
) -> (r: Result<Answer<()>, AppError>)
    ensures
        tag_detached_outcome(r, *caller, org, request_id, arr, tag, result),
{
    finish_removal(
        result,
        AuditEntry::new_about(
            caller.audit_ctx(Some(org), request_id),
            "arrangement_tag.delete",
            "arrangement_tag",
            None,
        ).with("arrangementId", Fact::Id(arr)).with("tagId", Fact::Id(tag)),
    )
}

/// Creating a work is answered with it and its tag, and is on record with its
/// title and composer.
pub proof fn the_interface_records_a_new_work(
    r: Result<Answer<Work>, AppError>,
    caller: Caller,
    request_id: Uuid,
    result: Option<Work>,
)
    requires
        work_created_outcome(r, caller, request_id, result),
    ensures
        result matches Some(w) ==> r is Ok && {
            &&& r->Ok_0.status == 201
            &&& r->Ok_0.names(
                caller.user_id,
                None,
                request_id,
                "work.create"@,
                w.id,
            )
            &&& r->Ok_0.tells("title"@, FactView::Text(w.title@))
            &&& r->Ok_0.body == w
            &&& r->Ok_0.is_tagged(w.updated_at)
        },
        result is None ==> r is Err && r->Err_0@.status() == 500,
        result is Some && result->0.composer is Some ==> r->Ok_0.tells(
            "composer"@,
            FactView::Text(result->0.composer->0@),
        ),
        result is Some && result->0.composer is None
            ==> r->Ok_0.tells("composer"@, FactView::Nothing),
{
    broadcast use vstd::seq_lib::group_seq_properties;

}

/// A work is read by anyone who is logged in, as it is and with its tag.
pub proof fn anyone_reads_a_work(r: Result<Answer<Work>, AppError>, found: Lookup<Work>)
    requires
        get_work_outcome(r, found),
    ensures
        r is Ok ==> found == Lookup::Found(r->Ok_0.body),
        r is Ok ==> r->Ok_0.status == 200 && r->Ok_0.is_tagged(r->Ok_0.body.updated_at)
            && r->Ok_0.audit is None,
        (found matches Lookup::Found(x)) ==> r is Ok,
        found is Missing ==> r is Err && (r->Err_0@.status() == 404 || r->Err_0@.status() == 500),
{
}

/// A work is changed by its creator or a system admin, at the version that the
/// change was made for, to a title that is not blank.
pub proof fn a_work_is_opened_by_its_creator(
    r: Result<Work, AppError>,
    caller: Caller,
    found: Lookup<Work>,
    if_match: Option<&str>,
    title: &str,
)
    requires
        plan_update_work_outcome(r, caller, found, if_match, title),
    ensures
        r is Ok ==> found == Lookup::Found(r->Ok_0) && (caller.is_system_admin || r->Ok_0.created_by
            == Some(caller.user_id)) && is_for(if_match, r->Ok_0.updated_at)
                && trimmed(title@).len() > 0,
        (found matches Lookup::Found(w) && (caller.is_system_admin || w.created_by == Some(
            caller.user_id,
        )) && is_for(if_match, w.updated_at)) && trimmed(title@).len() > 0 ==> r is Ok,
        (found matches Lookup::Found(w) && !caller.is_system_admin && w.created_by != Some(
            caller.user_id,
        )) ==> r is Err && r->Err_0@.status() == 403,
{
}

/// A work is deleted by its creator or a system admin, at the version that the
/// request was made for; it is on record with its title and composer.
pub proof fn a_deleted_work_is_recorded_before_it_goes(
    r: Result<AuditEntry, AppError>,
    caller: Caller,
    request_id: Uuid,
    found: Lookup<Work>,
    if_match: Option<&str>,
)
    requires
        plan_delete_work_outcome(r, caller, request_id, found, if_match),
    ensures
        r is Ok ==> (found matches Lookup::Found(w) && (caller.is_system_admin
            || w.created_by == Some(
            caller.user_id,
        )) && is_for(if_match, w.updated_at) && r->Ok_0.names(
            caller.user_id,
            None,
            request_id,
            "work.delete"@,
            w.id,
        ) && r->Ok_0.tells("title"@, FactView::Text(w.title@))),
        (found matches Lookup::Found(w) && (caller.is_system_admin || w.created_by == Some(
            caller.user_id,
        )) && is_for(if_match, w.updated_at)) ==> r is Ok,
        (found matches Lookup::Found(w) && !caller.is_system_admin && w.created_by != Some(
            caller.user_id,
        )) ==> r is Err && r->Err_0@.status() == 403,
{
    broadcast use vstd::seq_lib::group_seq_properties;

}

/// Changing a work is answered with it and its tag, and is on record with what it
/// was and what it is now.
pub proof fn the_interface_records_a_changed_work(
    r: Result<Answer<Work>, AppError>,
    caller: Caller,
    request_id: Uuid,
    current: Work,
    result: Option<Option<Work>>,
)
    requires
        work_updated_outcome(r, caller, request_id, current, result),
    ensures
        result matches Some(Some(w)) ==> r is Ok && {
            &&& r->Ok_0.status == 200
            &&& r->Ok_0.names(
                caller.user_id,
                None,
                request_id,
                "work.update"@,
                current.id,
            )
            &&& r->Ok_0.tells_in("before"@, "title"@, FactView::Text(current.title@))
            &&& r->Ok_0.tells_in("after"@, "title"@, FactView::Text(w.title@))
            &&& r->Ok_0.body == w
            &&& r->Ok_0.is_tagged(w.updated_at)
        },
        result is None || result->0 is None ==> r is Err,
        result is Some && result->0 is Some && current.composer is Some ==> r->Ok_0.tells_in(
            "before"@, "composer"@,
            FactView::Text(current.composer->0@),
        ),
        result is Some && result->0 is Some && current.composer is None
            ==> r->Ok_0.tells_in("before"@, "composer"@, FactView::Nothing),
        result is Some && result->0 is Some && result->0->0.composer is Some ==> r->Ok_0.tells_in(
            "after"@, "composer"@,
            FactView::Text(result->0->0.composer->0@),
        ),
        result is Some && result->0 is Some && result->0->0.composer is None
            ==> r->Ok_0.tells_in("after"@, "composer"@, FactView::Nothing),
{
    broadcast use vstd::seq_lib::group_seq_properties;

}

/// A work that arrangements refer to stays, and the caller is told so.
pub proof fn a_work_in_use_is_not_deleted(
    r: Result<u16, AppError>,
    result: Result<bool, DeleteError>,
)
    requires
        work_deleted_outcome(r, result),
    ensures
        r is Ok <==> result == Ok::<bool, DeleteError>(true),
        r is Ok ==> r->Ok_0 == 204,
        result matches Err(DeleteError::Referenced) ==> r->Err_0@.status() == 409,
        result == Ok::<bool, DeleteError>(false) ==> r->Err_0@.status() == 404,
{
}

/// Whoever is a member of some organization creates works, and so do system
/// admins.
pub proof fn members_create_works(
    r: Result<(), AppError>,
    caller: Caller,
    has_membership: Option<bool>,
)
    requires
        allow_create_work_outcome(r, caller, has_membership),
    ensures
        r is Ok <==> caller.is_system_admin || has_membership == Some(true),
        has_membership == Some(false) && r is Err ==> r->Err_0@.status() == 403,
{
    match has_membership {
        Some(true) => {},
        Some(false) => {},
        None => {},
    }
}

/// A list of works is narrowed to the title and the composer that were asked for.
pub proof fn works_are_narrowed_as_asked(r: WorkFilter, filters: Vec<(String, String)>)
    requires
        plan_list_works_outcome(r, filters),
    ensures
        forall|i: int| #[trigger]
            comes_first(filters@, "title"@, i) ==> text_of(r.title) == Some(filters@[i].1@),
        forall|i: int| #[trigger]
            comes_first(filters@, "composer"@, i) ==> text_of(r.composer) == Some(filters@[i].1@),
        filters@.len() == 0 ==> r.title is None && r.composer is None,
{
    the_earliest_value_counts(filters@, "title"@);
    the_earliest_value_counts(filters@, "composer"@);
}

/// Members search the archive of their organization for what they ask for.
pub proof fn members_search_the_archive(
    r: Result<ArrangementSearch, AppError>,
    standing: Standing,
    filters: Vec<(String, String)>,
    q: Option<&str>,
)
    requires
        plan_list_arrangements_outcome(r, standing, filters, q),
    ensures
        is_member(standing) ==> search_built(r, filters@, q),
        !is_member(standing) ==> r is Err && (r->Err_0@.status() == 403
            || r->Err_0@.status() == 500),
{
    each_role_may_do_its_part(standing);
}

/// Whether the fields of an arrangement are those that were sent, each in its
/// place.
pub open spec fn is_as_sent(p: Parsed, body: ArrangementRequest) -> bool {
    &&& p.title@ == body.title@ && p.work_id == body.work_id
    &&& text_of(p.instrumentation) == text_of(body.instrumentation)
    &&& text_of(p.arranger) == text_of(body.arranger)
    &&& text_of(p.publisher) == text_of(body.publisher)
    &&& text_of(p.license_notes) == text_of(body.license_notes)
    &&& text_of(p.difficulty_notes) == text_of(body.difficulty_notes)
    &&& p.purchase_date == body.purchase_date
    &&& p.copy_count_allowed == body.copy_count_allowed
    &&& p.duration_seconds == body.duration_seconds
    &&& p.difficulty == body.difficulty
    &&& p.difficulty_ratings == body.difficulty_ratings
    &&& body.status is Some ==> p.status@ == body.status->0@
}

/// An arrangement is stored as it was sent, field by field; it is active where
/// nothing was said of its status.
pub proof fn an_arrangement_is_stored_as_it_was_sent(
    r: Result<Parsed, AppError>,
    standing: Standing,
    body: ArrangementRequest,
)
    requires
        plan_create_arrangement_outcome(r, standing, body),
    ensures
        r is Ok <==> keeps_archive(standing) && trimmed(body.title@).len() > 0,
        r is Ok ==> is_as_sent(r->Ok_0, body),
        r is Ok && body.status is None ==> r->Ok_0.status@ == "active"@,
        keeps_archive(standing) && r is Err ==> r->Err_0@.status() == 400,
        !keeps_archive(standing) ==> r->Err_0@.status() == 403 || r->Err_0@.status() == 500,
{
    each_role_may_do_its_part(standing);
}

/// An arrangement of the organization is changed to what was sent, field by
/// field, at the version that the change was made for; it keeps its status where
/// nothing was said of it.
pub proof fn an_arrangement_is_changed_to_what_was_sent(
    r: Result<(Arrangement, Parsed), AppError>,
    standing: Standing,
    found: Lookup<Arrangement>,
    org: Uuid,
    if_match: Option<&str>,
    body: ArrangementRequest,
)
    requires
        plan_update_arrangement_outcome(r, standing, found, org, if_match, body),
    ensures
        r is Ok ==> {
            let (current, p) = r->Ok_0;
            &&& keeps_archive(standing)
            &&& found == Lookup::Found(current) && current.organization_id == org
            &&& is_for(if_match, current.updated_at)
            &&& is_as_sent(p, body)
            &&& body.status is None ==> p.status@ == current.status@
        },
        keeps_archive(standing) && (found matches Lookup::Found(a) && a.organization_id == org
            && is_for(
            if_match,
            a.updated_at,
        )) && trimmed(body.title@).len() > 0 ==> r is Ok,
        keeps_archive(standing) && (found matches Lookup::Found(a) && a.organization_id == org
            && !is_for(
            if_match,
            a.updated_at,
        )) ==> r is Err && r->Err_0@.status() == 412,
        keeps_archive(standing) && (found matches Lookup::Found(a) && a.organization_id != org)
            ==> r is Err
            && r->Err_0@.status() == 404,
{
    each_role_may_do_its_part(standing);
}

/// Creating an arrangement is answered with it and its tag, and is on record with
/// its title and slug.
pub proof fn the_interface_records_a_new_arrangement(
    r: Result<Answer<Arrangement>, AppError>,
    caller: Caller,
    org: Uuid,
    request_id: Uuid,
    result: Result<Arrangement, ArrangementError>,
)
    requires
        arrangement_created_outcome(r, caller, org, request_id, result),
    ensures
        result matches Ok(a) ==> r is Ok && {
            &&& r->Ok_0.status == 201
            &&& r->Ok_0.names(
                caller.user_id,
                Some(org),
                request_id,
                "arrangement.create"@,
                a.id,
            )
            &&& r->Ok_0.tells("title"@, FactView::Text(a.title@))
            &&& r->Ok_0.tells("slug"@, FactView::Text(a.slug@))
            &&& r->Ok_0.body == a
            &&& r->Ok_0.is_tagged(a.updated_at)
        },
        result is Err ==> r is Err,
{
    broadcast use vstd::seq_lib::group_seq_properties;

}

/// Changing an arrangement is answered with it and its tag, and is on record with
/// what it was and what it is now.
pub proof fn the_interface_records_a_changed_arrangement(
    r: Result<Answer<Arrangement>, AppError>,
    caller: Caller,
    org: Uuid,
    request_id: Uuid,
    current: Arrangement,
    result: Result<Option<Arrangement>, ArrangementError>,
)
    requires
        arrangement_updated_outcome(r, caller, org, request_id, current, result),
    ensures
        result matches Ok(Some(a)) ==> r is Ok && {
            &&& r->Ok_0.status == 200
            &&& r->Ok_0.names(
                caller.user_id,
                Some(org),
                request_id,
                "arrangement.update"@,
                current.id,
            )
            &&& r->Ok_0.tells_in("before"@, "title"@, FactView::Text(current.title@))
            &&& r->Ok_0.tells_in("before"@, "status"@, FactView::Text(current.status@))
            &&& r->Ok_0.tells_in("after"@, "title"@, FactView::Text(a.title@))
            &&& r->Ok_0.tells_in("after"@, "status"@, FactView::Text(a.status@))
            &&& r->Ok_0.body == a
            &&& r->Ok_0.is_tagged(a.updated_at)
        },
        result is Err || result->Ok_0 is None ==> r is Err,
{
    broadcast use vstd::seq_lib::group_seq_properties;

}

/// Members read the arrangements of their organization, as they are and with
/// their tag, and no others.
pub proof fn members_read_an_arrangement(
    r: Result<Answer<Arrangement>, AppError>,
    standing: Standing,
    found: Lookup<Arrangement>,
    org: Uuid,
)
    requires
        get_arrangement_outcome(r, standing, found, org),
    ensures
        r is Ok ==> is_member(standing) && found == Lookup::Found(r->Ok_0.body)
            && r->Ok_0.body.organization_id == org,
        r is Ok ==> r->Ok_0.status == 200 && r->Ok_0.is_tagged(r->Ok_0.body.updated_at)
            && r->Ok_0.audit is None,
        is_member(standing) && (found matches Lookup::Found(x) && x.organization_id == org)
            ==> r is Ok,
        is_member(standing) && found is Missing ==> r is Err && (r->Err_0@.status() == 404
            || r->Err_0@.status() == 500),
        is_member(standing) && (found matches Lookup::Found(x) && !(x.organization_id == org))
            ==> r is Err,
        !is_member(standing) ==> r is Err && (r->Err_0@.status() == 403
            || r->Err_0@.status() == 500),
{
    each_role_may_do_its_part(standing);
}

/// Who keeps the archive opens the arrangements of the organization, at the
/// version that the request was made for.
pub proof fn an_arrangement_is_opened_for_deletion(
    r: Result<Arrangement, AppError>,
    standing: Standing,
    found: Lookup<Arrangement>,
    org: Uuid,
    if_match: Option<&str>,
)
    requires
        plan_delete_arrangement_outcome(r, standing, found, org, if_match),
    ensures
        r is Ok ==> keeps_archive(standing) && found == Lookup::Found(r->Ok_0)
            && r->Ok_0.organization_id == org && is_for(if_match, r->Ok_0.updated_at),
        keeps_archive(standing) && (found matches Lookup::Found(x) && x.organization_id == org
            && is_for(if_match, x.updated_at)) ==> r is Ok,
        !keeps_archive(standing) ==> r is Err && (r->Err_0@.status() == 403
            || r->Err_0@.status() == 500),
        keeps_archive(standing) && (found matches Lookup::Found(x) && x.organization_id == org
            && !is_for(if_match, x.updated_at)) ==> r is Err
            && r->Err_0@.status() == 412,
{
    each_role_may_do_its_part(standing);
}

/// Who keeps the archive restores the arrangements of the organization.
pub proof fn an_arrangement_is_opened_for_restoring(
    r: Result<Arrangement, AppError>,
    standing: Standing,
    found: Lookup<Arrangement>,
    org: Uuid,
)
    requires
        plan_undelete_arrangement_outcome(r, standing, found, org),
    ensures
        r is Ok ==> keeps_archive(standing) && found == Lookup::Found(r->Ok_0)
            && r->Ok_0.organization_id == org,
        keeps_archive(standing) && (found matches Lookup::Found(x) && x.organization_id == org)
            ==> r is Ok,
        !keeps_archive(standing) ==> r is Err && (r->Err_0@.status() == 403
            || r->Err_0@.status() == 500),
{
    each_role_may_do_its_part(standing);
}

/// Deleting an arrangement is on record exactly where it took place.
pub proof fn the_interface_records_a_deleted_arrangement(
    r: Result<Answer<()>, AppError>,
    caller: Caller,
    org: Uuid,
    request_id: Uuid,
    current: Arrangement,
    result: Option<bool>,
)
    requires
        arrangement_deleted_outcome(r, caller, org, request_id, current, result),
    ensures
        result == Some(true) ==> r is Ok && {
            &&& r->Ok_0.status == 204
            &&& r->Ok_0.names(
                caller.user_id,
                Some(org),
                request_id,
                "arrangement.soft_delete"@,
                current.id,
            )
            &&& r->Ok_0.tells("title"@, FactView::Text(current.title@))
            &&& r->Ok_0.tells("slug"@, FactView::Text(current.slug@))
            &&& r->Ok_0.etag is None
        },
        r is Ok <==> result == Some(true),
        result == Some(false) ==> r->Err_0@.status() == 404,
        result is None ==> r->Err_0@.status() == 500,
{
    broadcast use vstd::seq_lib::group_seq_properties;

}

/// Restoring an arrangement is on record exactly where it took place.
pub proof fn the_interface_records_a_restored_arrangement(
    r: Result<Answer<()>, AppError>,
    caller: Caller,
    org: Uuid,
    request_id: Uuid,
    current: Arrangement,
    result: Option<bool>,
)
    requires
        arrangement_undeleted_outcome(r, caller, org, request_id, current, result),
    ensures
        result == Some(true) ==> r is Ok && {
            &&& r->Ok_0.status == 204
            &&& r->Ok_0.names(
                caller.user_id,
                Some(org),
                request_id,
                "arrangement.undelete"@,
                current.id,
            )
            &&& r->Ok_0.tells("title"@, FactView::Text(current.title@))
            &&& r->Ok_0.tells("slug"@, FactView::Text(current.slug@))
            &&& r->Ok_0.etag is None
        },
        r is Ok <==> result == Some(true),
        result == Some(false) ==> r->Err_0@.status() == 404,
        result is None ==> r->Err_0@.status() == 500,
{
    broadcast use vstd::seq_lib::group_seq_properties;

}

/// Who keeps the archive adds voices to the arrangements of the organization,
/// under names that are not blank.
pub proof fn a_voice_is_added_to_an_own_arrangement(
    r: Result<(), AppError>,
    standing: Standing,
    parent: Lookup<Arrangement>,
    org: Uuid,
    body: VoiceRequest,
)
    requires
        plan_create_voice_outcome(r, standing, parent, org, body),
    ensures
        r is Ok <==> keeps_archive(standing) && (parent matches Lookup::Found(a)
            && a.organization_id == org) && trimmed(
            body.name@,
        ).len() > 0,
{
    each_role_may_do_its_part(standing);
}

/// Creating a voice is answered with it and its tag, and is on record with its
/// name, its slug and its arrangement.
pub proof fn the_interface_records_a_new_voice(
    r: Result<Answer<Voice>, AppError>,
    caller: Caller,
    org: Uuid,
    request_id: Uuid,
    arr: Uuid,
    result: Result<Voice, VoiceError>,
)
    requires
        voice_created_outcome(r, caller, org, request_id, arr, result),
    ensures
        result matches Ok(v) ==> r is Ok && {
            &&& r->Ok_0.status == 201
            &&& r->Ok_0.names(
                caller.user_id,
                Some(org),
                request_id,
                "voice.create"@,
                v.id,
            )
            &&& r->Ok_0.tells("name"@, FactView::Text(v.name@))
            &&& r->Ok_0.tells("slug"@, FactView::Text(v.slug@))
            &&& r->Ok_0.tells("arrangementId"@, FactView::Id(arr))
            &&& r->Ok_0.body == v
            &&& r->Ok_0.is_tagged(v.updated_at)
        },
        result is Err ==> r is Err,
{
    broadcast use vstd::seq_lib::group_seq_properties;

}

/// Changing a voice is answered with it and its tag, and is on record with what
/// it was and what it is now.
pub proof fn the_interface_records_a_changed_voice(
    r: Result<Answer<Voice>, AppError>,
    caller: Caller,
    org: Uuid,
    request_id: Uuid,
    current: Voice,
    result: Result<Option<Voice>, VoiceError>,
)
    requires
        voice_updated_outcome(r, caller, org, request_id, current, result),
    ensures
        result matches Ok(Some(v)) ==> r is Ok && {
            &&& r->Ok_0.status == 200
            &&& r->Ok_0.names(
                caller.user_id,
                Some(org),
                request_id,
                "voice.update"@,
                current.id,
            )
            &&& r->Ok_0.tells_in("before"@, "name"@, FactView::Text(current.name@))
            &&& r->Ok_0.tells_in("before"@, "instrumentId"@, FactView::Id(current.instrument_id))
            &&& r->Ok_0.tells_in("after"@, "name"@, FactView::Text(v.name@))
            &&& r->Ok_0.tells_in("after"@, "instrumentId"@, FactView::Id(v.instrument_id))
            &&& r->Ok_0.body == v
            &&& r->Ok_0.is_tagged(v.updated_at)
        },
        result is Err || result->Ok_0 is None ==> r is Err,
{
    broadcast use vstd::seq_lib::group_seq_properties;

}

/// Members read the voices of the arrangements of their organization, and no
/// others.
pub proof fn members_read_a_voice(
    r: Result<Answer<Voice>, AppError>,
    standing: Standing,
    parent: Lookup<Arrangement>,
    found: Lookup<Voice>,
    org: Uuid,
    arr: Uuid,
)
    requires
        get_voice_outcome(r, standing, parent, found, org, arr),
    ensures
        r is Ok ==> is_member(standing) && found == Lookup::Found(r->Ok_0.body)
            && r->Ok_0.body.arrangement_id == arr && (parent matches Lookup::Found(a)
            && a.organization_id == org),
        r is Ok ==> r->Ok_0.status == 200 && r->Ok_0.is_tagged(r->Ok_0.body.updated_at)
            && r->Ok_0.audit is None,
        is_member(standing) && (found matches Lookup::Found(x) && x.arrangement_id == arr
            && (parent matches Lookup::Found(a) && a.organization_id == org)) ==> r is Ok,
        is_member(standing) && found is Missing ==> r is Err && (r->Err_0@.status() == 404
            || r->Err_0@.status() == 500),
        is_member(standing) && (found matches Lookup::Found(x) && !(x.arrangement_id == arr))
            ==> r is Err,
        !is_member(standing) ==> r is Err && (r->Err_0@.status() == 403
            || r->Err_0@.status() == 500),
{
    each_role_may_do_its_part(standing);
}

/// Who keeps the archive opens the voices of the arrangements of the
/// organization, at the version that the request was made for.
pub proof fn a_voice_is_opened_for_deletion(
    r: Result<Voice, AppError>,
    standing: Standing,
    parent: Lookup<Arrangement>,
    found: Lookup<Voice>,
    org: Uuid,
    arr: Uuid,
    if_match: Option<&str>,
)
    requires
        plan_delete_voice_outcome(r, standing, parent, found, org, arr, if_match),
    ensures
        r is Ok ==> keeps_archive(standing) && found == Lookup::Found(r->Ok_0)
            && r->Ok_0.arrangement_id == arr && (parent matches Lookup::Found(a)
            && a.organization_id == org) && is_for(if_match, r->Ok_0.updated_at),
        keeps_archive(standing) && (found matches Lookup::Found(x) && x.arrangement_id == arr
            && (parent matches Lookup::Found(a) && a.organization_id == org)
            && is_for(if_match, x.updated_at)) ==> r is Ok,
        !keeps_archive(standing) ==> r is Err && (r->Err_0@.status() == 403
            || r->Err_0@.status() == 500),
        keeps_archive(standing) && (found matches Lookup::Found(x) && x.arrangement_id == arr
            && (parent matches Lookup::Found(a) && a.organization_id == org)
            && !is_for(if_match, x.updated_at)) ==> r is Err
            && r->Err_0@.status() == 412,
{
    each_role_may_do_its_part(standing);
}

/// Who keeps the archive restores the voices of the arrangements of the
/// organization.
pub proof fn a_voice_is_opened_for_restoring(
    r: Result<Voice, AppError>,
    standing: Standing,
    parent: Lookup<Arrangement>,
    found: Lookup<Voice>,
    org: Uuid,
    arr: Uuid,
)
    requires
        plan_undelete_voice_outcome(r, standing, parent, found, org, arr),
    ensures
        r is Ok ==> keeps_archive(standing) && found == Lookup::Found(r->Ok_0)
            && r->Ok_0.arrangement_id == arr && (parent matches Lookup::Found(a)
            && a.organization_id == org),
        keeps_archive(standing) && (found matches Lookup::Found(x) && x.arrangement_id == arr
            && (parent matches Lookup::Found(a) && a.organization_id == org)) ==> r is Ok,
        !keeps_archive(standing) ==> r is Err && (r->Err_0@.status() == 403
            || r->Err_0@.status() == 500),
{
    each_role_may_do_its_part(standing);
}

/// Who keeps the archive changes the voices of the arrangements of the
/// organization, at the version that the change was made for, to names that are
/// not blank.
pub proof fn a_voice_is_opened_for_a_change(
    r: Result<Voice, AppError>,
    standing: Standing,
    parent: Lookup<Arrangement>,
    found: Lookup<Voice>,
    org: Uuid,
    arr: Uuid,
    if_match: Option<&str>,
    body: VoiceRequest,
)
    requires
        plan_update_voice_outcome(r, standing, parent, found, org, arr, if_match, body),
    ensures
        r is Ok ==> keeps_archive(standing) && found == Lookup::Found(r->Ok_0)
            && r->Ok_0.arrangement_id == arr && (parent matches Lookup::Found(a)
            && a.organization_id == org) && is_for(if_match, r->Ok_0.updated_at)
            && trimmed(body.name@).len() > 0,
        keeps_archive(standing) && (found matches Lookup::Found(x) && x.arrangement_id == arr
            && (parent matches Lookup::Found(a) && a.organization_id == org)
            && is_for(if_match, x.updated_at)) && trimmed(body.name@).len() > 0 ==> r is Ok,
        !keeps_archive(standing) ==> r is Err && (r->Err_0@.status() == 403
            || r->Err_0@.status() == 500),
        keeps_archive(standing) && (found matches Lookup::Found(x) && x.arrangement_id == arr
            && (parent matches Lookup::Found(a) && a.organization_id == org)
            && !is_for(if_match, x.updated_at)) ==> r is Err
            && r->Err_0@.status() == 412,
{
    each_role_may_do_its_part(standing);
}

/// Deleting a voice is on record exactly where it took place.
pub proof fn the_interface_records_a_deleted_voice(
    r: Result<Answer<()>, AppError>,
    caller: Caller,
    org: Uuid,
    request_id: Uuid,
    current: Voice,
    result: Option<bool>,
)
    requires
        voice_deleted_outcome(r, caller, org, request_id, current, result),
    ensures
        result == Some(true) ==> r is Ok && {
            &&& r->Ok_0.status == 204
            &&& r->Ok_0.names(
                caller.user_id,
                Some(org),
                request_id,
                "voice.soft_delete"@,
                current.id,
            )
            &&& r->Ok_0.tells("name"@, FactView::Text(current.name@))
            &&& r->Ok_0.tells("slug"@, FactView::Text(current.slug@))
            &&& r->Ok_0.etag is None
        },
        r is Ok <==> result == Some(true),
        result == Some(false) ==> r->Err_0@.status() == 404,
        result is None ==> r->Err_0@.status() == 500,
{
    broadcast use vstd::seq_lib::group_seq_properties;

}

/// Restoring a voice is on record exactly where it took place.
pub proof fn the_interface_records_a_restored_voice(
    r: Result<Answer<()>, AppError>,
    caller: Caller,
    org: Uuid,
    request_id: Uuid,
    current: Voice,
    result: Option<bool>,
)
    requires
        voice_undeleted_outcome(r, caller, org, request_id, current, result),
    ensures
        result == Some(true) ==> r is Ok && {
            &&& r->Ok_0.status == 204
            &&& r->Ok_0.names(
                caller.user_id,
                Some(org),
                request_id,
                "voice.undelete"@,
                current.id,
            )
            &&& r->Ok_0.tells("name"@, FactView::Text(current.name@))
            &&& r->Ok_0.tells("slug"@, FactView::Text(current.slug@))
            &&& r->Ok_0.etag is None
        },
        r is Ok <==> result == Some(true),
        result == Some(false) ==> r->Err_0@.status() == 404,
        result is None ==> r->Err_0@.status() == 500,
{
    broadcast use vstd::seq_lib::group_seq_properties;

}

/// A list of voices is narrowed to the instrument that was asked for.
pub proof fn voices_are_narrowed_to_an_instrument(
    r: Result<Option<Uuid>, AppError>,
    filters: Vec<(String, String)>,
)
    requires
        voice_filter_outcome(r, filters),
    ensures
        forall|i: int| #[trigger]
            comes_first(filters@, "instrumentId"@, i) ==> match read_uuid(filters@[i].1@) {
                Some(id) => r == Ok::<Option<Uuid>, AppError>(Some(id)),
                None => r is Err && r->Err_0@.status() == 400,
            },
        filters@.len() == 0 ==> r == Ok::<Option<Uuid>, AppError>(None),
{
    the_earliest_value_counts(filters@, "instrumentId"@);
}

/// Members list the tags of their organization, narrowed to the kind that was
/// asked for.
pub proof fn tags_are_narrowed_to_a_kind(
    r: Result<Option<String>, AppError>,
    standing: Standing,
    filters: Vec<(String, String)>,
)
    requires
        plan_list_tags_outcome(r, standing, filters),
    ensures
        r is Ok <==> is_member(standing),
        forall|i: int| #[trigger]
            comes_first(filters@, "kind"@, i) && r is Ok
                ==> text_of(r->Ok_0) == Some(filters@[i].1@),
        filters@.len() == 0 && r is Ok ==> r->Ok_0 is None,
{
    each_role_may_do_its_part(standing);
    the_earliest_value_counts(filters@, "kind"@);
}

/// Who keeps the archive creates tags under names that are not blank.
pub proof fn a_tag_is_created_under_a_name(
    r: Result<(), AppError>,
    standing: Standing,
    body: TagRequest,
)
    requires
        plan_create_tag_outcome(r, standing, body),
    ensures
        r is Ok <==> keeps_archive(standing) && trimmed(body.name@).len() > 0,
{
    each_role_may_do_its_part(standing);
}

/// Creating a tag is answered with it and its tag, and is on record with its name
/// and kind.
pub proof fn the_interface_records_a_new_tag(
    r: Result<Answer<Tag>, AppError>,
    caller: Caller,
    org: Uuid,
    request_id: Uuid,
    result: Result<Tag, TagError>,
)
    requires
        tag_created_outcome(r, caller, org, request_id, result),
    ensures
        result matches Ok(t) ==> r is Ok && {
            &&& r->Ok_0.status == 201
            &&& r->Ok_0.names(
                caller.user_id,
                Some(org),
                request_id,
                "tag.create"@,
                t.id,
            )
            &&& r->Ok_0.tells("name"@, FactView::Text(t.name@))
            &&& r->Ok_0.body == t
            &&& r->Ok_0.is_tagged(t.updated_at)
        },
        result is Err ==> r is Err,
        result is Ok && result->Ok_0.kind is Some ==> r->Ok_0.tells(
            "kind"@,
            FactView::Text(result->Ok_0.kind->0@),
        ),
        result is Ok && result->Ok_0.kind is None ==> r->Ok_0.tells("kind"@, FactView::Nothing),
{
    broadcast use vstd::seq_lib::group_seq_properties;

}

/// Changing a tag is answered with it and its tag, and is on record with what it
/// was and what it is now.
pub proof fn the_interface_records_a_changed_tag(
    r: Result<Answer<Tag>, AppError>,
    caller: Caller,
    org: Uuid,
    request_id: Uuid,
    current: Tag,
    result: Result<Option<Tag>, TagError>,
)
    requires
        tag_updated_outcome(r, caller, org, request_id, current, result),
    ensures
        result matches Ok(Some(t)) ==> r is Ok && {
            &&& r->Ok_0.status == 200
            &&& r->Ok_0.names(
                caller.user_id,
                Some(org),
                request_id,
                "tag.update"@,
                current.id,
            )
            &&& r->Ok_0.tells_in("before"@, "name"@, FactView::Text(current.name@))
            &&& r->Ok_0.tells_in("after"@, "name"@, FactView::Text(t.name@))
            &&& r->Ok_0.body == t
            &&& r->Ok_0.is_tagged(t.updated_at)
        },
        result is Err || result->Ok_0 is None ==> r is Err,
        result is Ok && result->Ok_0 is Some && current.kind is Some ==> r->Ok_0.tells_in(
            "before"@, "kind"@,
            FactView::Text(current.kind->0@),
        ),
        result is Ok && result->Ok_0 is Some && current.kind is None
            ==> r->Ok_0.tells_in("before"@, "kind"@, FactView::Nothing),
        result is Ok && result->Ok_0 is Some && result->Ok_0->0.kind is Some ==> r->Ok_0.tells_in(
            "after"@, "kind"@,
            FactView::Text(result->Ok_0->0.kind->0@),
        ),
        result is Ok && result->Ok_0 is Some && result->Ok_0->0.kind is None
            ==> r->Ok_0.tells_in("after"@, "kind"@, FactView::Nothing),
{
    broadcast use vstd::seq_lib::group_seq_properties;

}

/// Members read the tags of their organization, and no others.
pub proof fn members_read_a_tag(
    r: Result<Answer<Tag>, AppError>,
    standing: Standing,
    found: Lookup<Tag>,
    org: Uuid,
)
    requires
        get_tag_outcome(r, standing, found, org),
    ensures
        r is Ok ==> is_member(standing) && found == Lookup::Found(r->Ok_0.body)
            && r->Ok_0.body.organization_id == org,
        r is Ok ==> r->Ok_0.status == 200 && r->Ok_0.is_tagged(r->Ok_0.body.updated_at)
            && r->Ok_0.audit is None,
        is_member(standing) && (found matches Lookup::Found(x) && x.organization_id == org)
            ==> r is Ok,
        is_member(standing) && found is Missing ==> r is Err && (r->Err_0@.status() == 404
            || r->Err_0@.status() == 500),
        is_member(standing) && (found matches Lookup::Found(x) && !(x.organization_id == org))
            ==> r is Err,
        !is_member(standing) ==> r is Err && (r->Err_0@.status() == 403
            || r->Err_0@.status() == 500),
{
    each_role_may_do_its_part(standing);
}

/// Who keeps the archive opens the tags of the organization, at the version that
/// the request was made for.
pub proof fn a_tag_is_opened_for_deletion(
    r: Result<Tag, AppError>,
    standing: Standing,
    found: Lookup<Tag>,
    org: Uuid,
    if_match: Option<&str>,
)
    requires
        plan_delete_tag_outcome(r, standing, found, org, if_match),
    ensures
        r is Ok ==> keeps_archive(standing) && found == Lookup::Found(r->Ok_0)
            && r->Ok_0.organization_id == org && is_for(if_match, r->Ok_0.updated_at),
        keeps_archive(standing) && (found matches Lookup::Found(x) && x.organization_id == org
            && is_for(if_match, x.updated_at)) ==> r is Ok,
        !keeps_archive(standing) ==> r is Err && (r->Err_0@.status() == 403
            || r->Err_0@.status() == 500),
        keeps_archive(standing) && (found matches Lookup::Found(x) && x.organization_id == org
            && !is_for(if_match, x.updated_at)) ==> r is Err
            && r->Err_0@.status() == 412,
{
    each_role_may_do_its_part(standing);
}

/// Who keeps the archive restores the tags of the organization.
pub proof fn a_tag_is_opened_for_restoring(
    r: Result<Tag, AppError>,
    standing: Standing,
    found: Lookup<Tag>,
    org: Uuid,
)
    requires
        plan_undelete_tag_outcome(r, standing, found, org),
    ensures
        r is Ok ==> keeps_archive(standing) && found == Lookup::Found(r->Ok_0)
            && r->Ok_0.organization_id == org,
        keeps_archive(standing) && (found matches Lookup::Found(x) && x.organization_id == org)
            ==> r is Ok,
        !keeps_archive(standing) ==> r is Err && (r->Err_0@.status() == 403
            || r->Err_0@.status() == 500),
{
    each_role_may_do_its_part(standing);
}

/// Who keeps the archive changes the tags of the organization, at the version
/// that the change was made for, to names that are not blank.
pub proof fn a_tag_is_opened_for_a_change(
    r: Result<Tag, AppError>,
    standing: Standing,
    found: Lookup<Tag>,
    org: Uuid,
    if_match: Option<&str>,
    body: TagRequest,
)
    requires
        plan_update_tag_outcome(r, standing, found, org, if_match, body),
    ensures
        r is Ok ==> keeps_archive(standing) && found == Lookup::Found(r->Ok_0)
            && r->Ok_0.organization_id == org && is_for(if_match, r->Ok_0.updated_at)
            && trimmed(body.name@).len() > 0,
        keeps_archive(standing) && (found matches Lookup::Found(x) && x.organization_id == org
            && is_for(if_match, x.updated_at)) && trimmed(body.name@).len() > 0 ==> r is Ok,
        !keeps_archive(standing) ==> r is Err && (r->Err_0@.status() == 403
            || r->Err_0@.status() == 500),
        keeps_archive(standing) && (found matches Lookup::Found(x) && x.organization_id == org
            && !is_for(if_match, x.updated_at)) ==> r is Err
            && r->Err_0@.status() == 412,
{
    each_role_may_do_its_part(standing);
}

/// Deleting a tag is on record exactly where it took place.
pub proof fn the_interface_records_a_deleted_tag(
    r: Result<Answer<()>, AppError>,
    caller: Caller,
    org: Uuid,
    request_id: Uuid,
    current: Tag,
    result: Option<bool>,
)
    requires
        tag_deleted_outcome(r, caller, org, request_id, current, result),
    ensures
        result == Some(true) ==> r is Ok && {
            &&& r->Ok_0.status == 204
            &&& r->Ok_0.names(
                caller.user_id,
                Some(org),
                request_id,
                "tag.soft_delete"@,
                current.id,
            )
            &&& r->Ok_0.tells("name"@, FactView::Text(current.name@))
            &&& r->Ok_0.etag is None
        },
        r is Ok <==> result == Some(true),
        result == Some(false) ==> r->Err_0@.status() == 404,
        result is None ==> r->Err_0@.status() == 500,
{
    broadcast use vstd::seq_lib::group_seq_properties;

}

/// Restoring a tag is on record exactly where it took place.
pub proof fn the_interface_records_a_restored_tag(
    r: Result<Answer<()>, AppError>,
    caller: Caller,
    org: Uuid,
    request_id: Uuid,
    current: Tag,
    result: Option<bool>,
)
    requires
        tag_undeleted_outcome(r, caller, org, request_id, current, result),
    ensures
        result == Some(true) ==> r is Ok && {
            &&& r->Ok_0.status == 204
            &&& r->Ok_0.names(
                caller.user_id,
                Some(org),
                request_id,
                "tag.undelete"@,
                current.id,
            )
            &&& r->Ok_0.tells("name"@, FactView::Text(current.name@))
            &&& r->Ok_0.etag is None
        },
        r is Ok <==> result == Some(true),
        result == Some(false) ==> r->Err_0@.status() == 404,
        result is None ==> r->Err_0@.status() == 500,
{
    broadcast use vstd::seq_lib::group_seq_properties;

}

/// Who keeps the archive puts tags of the organization on arrangements of the
/// organization.
pub proof fn own_tags_go_on_own_arrangements(
    r: Result<(), AppError>,
    standing: Standing,
    arrangement: Lookup<Arrangement>,
    tag: Lookup<Tag>,
    org: Uuid,
)
    requires
        plan_attach_tag_outcome(r, standing, arrangement, tag, org),
    ensures
        r is Ok <==> keeps_archive(standing) && (arrangement matches Lookup::Found(a)
            && a.organization_id == org) && (tag matches Lookup::Found(t)
                && t.organization_id == org),
{
    each_role_may_do_its_part(standing);
}

/// Putting a tag on an arrangement is on record, with both, exactly where it took
/// place.
pub proof fn the_interface_records_an_attached_tag(
    r: Result<Answer<()>, AppError>,
    caller: Caller,
    org: Uuid,
    request_id: Uuid,
    id: Uuid,
    arr: Uuid,
    tag: Uuid,
    result: Result<(), TagError>,
)
    requires
        tag_attached_outcome(r, caller, org, request_id, id, arr, tag, result),
    ensures
        result is Ok ==> r is Ok && {
            &&& r->Ok_0.status == 201
            &&& r->Ok_0.names(
                caller.user_id,
                Some(org),
                request_id,
                "arrangement_tag.create"@,
                id,
            )
            &&& r->Ok_0.tells("arrangementId"@, FactView::Id(arr))
            &&& r->Ok_0.tells("tagId"@, FactView::Id(tag))
            &&& r->Ok_0.etag is None
        },
        result is Err ==> r is Err,
        result matches Err(TagError::Duplicate) ==> r->Err_0@.status() == 409,
{
    broadcast use vstd::seq_lib::group_seq_properties;

}

/// Who keeps the archive takes tags off the arrangements of the organization.
pub proof fn tags_are_detached_from_own_arrangements(
    r: Result<(), AppError>,
    standing: Standing,
    arrangement: Lookup<Arrangement>,
    org: Uuid,
)
    requires
        plan_detach_tag_outcome(r, standing, arrangement, org),
    ensures
        r is Ok <==> keeps_archive(standing) && (arrangement matches Lookup::Found(a)
            && a.organization_id == org),
{
    each_role_may_do_its_part(standing);
}

/// Members list what belongs to the arrangements of their organization.
pub proof fn members_list_what_an_arrangement_has(
    r: Result<(), AppError>,
    standing: Standing,
    arrangement: Lookup<Arrangement>,
    org: Uuid,
)
    requires
        plan_list_below_outcome(r, standing, arrangement, org),
    ensures
        r is Ok <==> is_member(standing) && (arrangement matches Lookup::Found(a)
            && a.organization_id == org),
{
    each_role_may_do_its_part(standing);
}

/// Taking a tag off an arrangement is on record, with both, exactly where it took
/// place.
pub proof fn the_interface_records_a_detached_tag(
    r: Result<Answer<()>, AppError>,
    caller: Caller,
    org: Uuid,
    request_id: Uuid,
    arr: Uuid,
    tag: Uuid,
    result: Option<bool>,
)
    requires
        tag_detached_outcome(r, caller, org, request_id, arr, tag, result),
    ensures
        r is Ok <==> result == Some(true),
        r is Ok ==> r->Ok_0.tells("arrangementId"@, FactView::Id(arr)) && r->Ok_0.tells(
            "tagId"@,
            FactView::Id(tag),
        ),
        r is Ok ==> (r->Ok_0.audit matches Some(e) && e.action@ == "arrangement_tag.delete"@
            && e.context.actor_user_id == Some(caller.user_id) && e.context.org_id == Some(org)
            && e.context.request_id == Some(request_id)),
{
    broadcast use vstd::seq_lib::group_seq_properties;

}

/// A clash with another row is a conflict, a reference to nothing is the
/// caller's mistake, and a failing database is an error of ours.
pub proof fn refused_rows_are_answered_in_kind(
    arrangement: ArrangementError,
    voice: VoiceError,
    tag: TagError,
)
    ensures
        arrangement_error_view(arrangement).status() == (match arrangement {
            ArrangementError::DuplicateSlug => 409u16,
            ArrangementError::UnknownWork => 400u16,
            ArrangementError::Database => 500u16,
        }),
        voice_error_view(voice).status() == (match voice {
            VoiceError::DuplicateSlug => 409u16,
            VoiceError::UnknownInstrument => 400u16,
            VoiceError::Database => 500u16,
        }),
        tag_error_view(tag).status() == (match tag {
            TagError::Duplicate => 409u16,
            TagError::Database => 500u16,
        }),
{
}

/// A work needs a title that is not blank.
pub proof fn a_work_needs_a_title(r: Result<(), AppError>, title: &str)
    requires
        plan_create_work_outcome(r, title),
    ensures
        r is Ok <==> trimmed(title@).len() > 0,
        r is Err ==> r->Err_0@.status() == 400,
{
}

/// What does not exist is told from what could not be looked up.
pub proof fn get_work_tells_absence_from_failure(
    r: Result<Answer<Work>, AppError>,
    found: Lookup<Work>,
)
    requires
        get_work_outcome(r, found),
    ensures
        found is Missing ==> r is Err && r->Err_0@.status() == 404,
        found is Failed ==> r is Err && r->Err_0@.status() == 500,
{
}

/// What does not exist is told from what could not be looked up.
pub proof fn plan_update_work_tells_absence_from_failure(
    r: Result<Work, AppError>,
    caller: Caller,
    found: Lookup<Work>,
    if_match: Option<&str>,
    title: &str,
)
    requires
        plan_update_work_outcome(r, caller, found, if_match, title),
    ensures
        found is Missing ==> r is Err && r->Err_0@.status() == 404,
        found is Failed ==> r is Err && r->Err_0@.status() == 500,
{
}

/// What does not exist is told from what could not be looked up.
pub proof fn plan_delete_work_tells_absence_from_failure(
    r: Result<AuditEntry, AppError>,
    caller: Caller,
    request_id: Uuid,
    found: Lookup<Work>,
    if_match: Option<&str>,
)
    requires
        plan_delete_work_outcome(r, caller, request_id, found, if_match),
    ensures
        found is Missing ==> r is Err && r->Err_0@.status() == 404,
        found is Failed ==> r is Err && r->Err_0@.status() == 500,
{
}

/// What does not exist is told from what could not be looked up.
pub proof fn get_arrangement_tells_absence_from_failure(
    r: Result<Answer<Arrangement>, AppError>,
    standing: Standing,
    found: Lookup<Arrangement>,
    org: Uuid,
)
    requires
        get_arrangement_outcome(r, standing, found, org),
    ensures
        is_member(standing) && found is Missing ==> r is Err && r->Err_0@.status() == 404,
        is_member(standing) && found is Failed ==> r is Err && r->Err_0@.status() == 500,
{
    each_role_may_do_its_part(standing);
}

/// What does not exist is told from what could not be looked up.
pub proof fn plan_delete_arrangement_tells_absence_from_failure(
    r: Result<Arrangement, AppError>,
    standing: Standing,
    found: Lookup<Arrangement>,
    org: Uuid,
    if_match: Option<&str>,
)
    requires
        plan_delete_arrangement_outcome(r, standing, found, org, if_match),
    ensures
        keeps_archive(standing) && found is Missing ==> r is Err && r->Err_0@.status() == 404,
        keeps_archive(standing) && found is Failed ==> r is Err && r->Err_0@.status() == 500,
{
    each_role_may_do_its_part(standing);
}

/// What does not exist is told from what could not be looked up.
pub proof fn plan_undelete_arrangement_tells_absence_from_failure(
    r: Result<Arrangement, AppError>,
    standing: Standing,
    found: Lookup<Arrangement>,
    org: Uuid,
)
    requires
        plan_undelete_arrangement_outcome(r, standing, found, org),
    ensures
        keeps_archive(standing) && found is Missing ==> r is Err && r->Err_0@.status() == 404,
        keeps_archive(standing) && found is Failed ==> r is Err && r->Err_0@.status() == 500,
{
    each_role_may_do_its_part(standing);
}

/// What does not exist is told from what could not be looked up.
pub proof fn plan_update_arrangement_tells_absence_from_failure(
    r: Result<(Arrangement, Parsed), AppError>,
    standing: Standing,
    found: Lookup<Arrangement>,
    org: Uuid,
    if_match: Option<&str>,
    body: ArrangementRequest,
)
    requires
        plan_update_arrangement_outcome(r, standing, found, org, if_match, body),
    ensures
        keeps_archive(standing) && found is Missing ==> r is Err && r->Err_0@.status() == 404,
        keeps_archive(standing) && found is Failed ==> r is Err && r->Err_0@.status() == 500,
{
    each_role_may_do_its_part(standing);
}

/// What does not exist is told from what could not be looked up.
pub proof fn get_voice_tells_absence_from_failure(
    r: Result<Answer<Voice>, AppError>,
    standing: Standing,
    parent: Lookup<Arrangement>,
    found: Lookup<Voice>,
    org: Uuid,
    arr: Uuid,
)
    requires
        get_voice_outcome(r, standing, parent, found, org, arr),
    ensures
        is_member(standing) && (parent matches Lookup::Found(a) && a.organization_id == org)
            && found is Missing ==> r is Err && r->Err_0@.status() == 404,
        is_member(standing) && (parent matches Lookup::Found(a) && a.organization_id == org)
            && found is Failed ==> r is Err && r->Err_0@.status() == 500,
{
    each_role_may_do_its_part(standing);
}

/// What does not exist is told from what could not be looked up.
pub proof fn plan_delete_voice_tells_absence_from_failure(
    r: Result<Voice, AppError>,
    standing: Standing,
    parent: Lookup<Arrangement>,
    found: Lookup<Voice>,
    org: Uuid,
    arr: Uuid,
    if_match: Option<&str>,
)
    requires
        plan_delete_voice_outcome(r, standing, parent, found, org, arr, if_match),
    ensures
        keeps_archive(standing) && (parent matches Lookup::Found(a) && a.organization_id == org)
            && found is Missing ==> r is Err && r->Err_0@.status() == 404,
        keeps_archive(standing) && (parent matches Lookup::Found(a) && a.organization_id == org)
            && found is Failed ==> r is Err && r->Err_0@.status() == 500,
{
    each_role_may_do_its_part(standing);
}

/// What does not exist is told from what could not be looked up.
pub proof fn plan_undelete_voice_tells_absence_from_failure(
    r: Result<Voice, AppError>,
    standing: Standing,
    parent: Lookup<Arrangement>,
    found: Lookup<Voice>,
    org: Uuid,
    arr: Uuid,
)
    requires
        plan_undelete_voice_outcome(r, standing, parent, found, org, arr),
    ensures
        keeps_archive(standing) && (parent matches Lookup::Found(a) && a.organization_id == org)
            && found is Missing ==> r is Err && r->Err_0@.status() == 404,
        keeps_archive(standing) && (parent matches Lookup::Found(a) && a.organization_id == org)
            && found is Failed ==> r is Err && r->Err_0@.status() == 500,
{
    each_role_may_do_its_part(standing);
}

/// What does not exist is told from what could not be looked up.
pub proof fn plan_update_voice_tells_absence_from_failure(
    r: Result<Voice, AppError>,
    standing: Standing,
    parent: Lookup<Arrangement>,
    found: Lookup<Voice>,
    org: Uuid,
    arr: Uuid,
    if_match: Option<&str>,
    body: VoiceRequest,
)
    requires
        plan_update_voice_outcome(r, standing, parent, found, org, arr, if_match, body),
    ensures
        keeps_archive(standing) && (parent matches Lookup::Found(a) && a.organization_id == org)
            && found is Missing ==> r is Err && r->Err_0@.status() == 404,
        keeps_archive(standing) && (parent matches Lookup::Found(a) && a.organization_id == org)
            && found is Failed ==> r is Err && r->Err_0@.status() == 500,
{
    each_role_may_do_its_part(standing);
}

/// What does not exist is told from what could not be looked up.
pub proof fn get_tag_tells_absence_from_failure(
    r: Result<Answer<Tag>, AppError>,
    standing: Standing,
    found: Lookup<Tag>,
    org: Uuid,
)
    requires
        get_tag_outcome(r, standing, found, org),
    ensures
        is_member(standing) && found is Missing ==> r is Err && r->Err_0@.status() == 404,
        is_member(standing) && found is Failed ==> r is Err && r->Err_0@.status() == 500,
{
    each_role_may_do_its_part(standing);
}

/// What does not exist is told from what could not be looked up.
pub proof fn plan_delete_tag_tells_absence_from_failure(
    r: Result<Tag, AppError>,
    standing: Standing,
    found: Lookup<Tag>,
    org: Uuid,
    if_match: Option<&str>,
)
    requires
        plan_delete_tag_outcome(r, standing, found, org, if_match),
    ensures
        keeps_archive(standing) && found is Missing ==> r is Err && r->Err_0@.status() == 404,
        keeps_archive(standing) && found is Failed ==> r is Err && r->Err_0@.status() == 500,
{
    each_role_may_do_its_part(standing);
}

/// What does not exist is told from what could not be looked up.
pub proof fn plan_undelete_tag_tells_absence_from_failure(
    r: Result<Tag, AppError>,
    standing: Standing,
    found: Lookup<Tag>,
    org: Uuid,
)
    requires
        plan_undelete_tag_outcome(r, standing, found, org),
    ensures
        keeps_archive(standing) && found is Missing ==> r is Err && r->Err_0@.status() == 404,
        keeps_archive(standing) && found is Failed ==> r is Err && r->Err_0@.status() == 500,
{
    each_role_may_do_its_part(standing);
}

/// What does not exist is told from what could not be looked up.
pub proof fn plan_update_tag_tells_absence_from_failure(
    r: Result<Tag, AppError>,
    standing: Standing,
    found: Lookup<Tag>,
    org: Uuid,
    if_match: Option<&str>,
    body: TagRequest,
)
    requires
        plan_update_tag_outcome(r, standing, found, org, if_match, body),
    ensures
        keeps_archive(standing) && found is Missing ==> r is Err && r->Err_0@.status() == 404,
        keeps_archive(standing) && found is Failed ==> r is Err && r->Err_0@.status() == 500,
{
    each_role_may_do_its_part(standing);
}

/// What was refused is answered by the error that fits, and what was gone by then
/// as missing.
pub proof fn arrangement_created_answers_a_refusal_in_kind(
    r: Result<Answer<Arrangement>, AppError>,
    caller: Caller,
    org: Uuid,
    request_id: Uuid,
    result: Result<Arrangement, ArrangementError>,
)
    requires
        arrangement_created_outcome(r, caller, org, request_id, result),
    ensures
        result matches Err(e) ==> r is Err && r->Err_0@ == arrangement_error_view(e),
{
}

/// What was refused is answered by the error that fits, and what was gone by then
/// as missing.
pub proof fn arrangement_updated_answers_a_refusal_in_kind(
    r: Result<Answer<Arrangement>, AppError>,
    caller: Caller,
    org: Uuid,
    request_id: Uuid,
    current: Arrangement,
    result: Result<Option<Arrangement>, ArrangementError>,
)
    requires
        arrangement_updated_outcome(r, caller, org, request_id, current, result),
    ensures
        result matches Err(e) ==> r is Err && r->Err_0@ == arrangement_error_view(e),
        result is Ok && result->Ok_0 is None ==> r is Err && r->Err_0@.status() == 404,
{
}

/// What was refused is answered by the error that fits, and what was gone by then
/// as missing.
pub proof fn voice_created_answers_a_refusal_in_kind(
    r: Result<Answer<Voice>, AppError>,
    caller: Caller,
    org: Uuid,
    request_id: Uuid,
    arr: Uuid,
    result: Result<Voice, VoiceError>,
)
    requires
        voice_created_outcome(r, caller, org, request_id, arr, result),
    ensures
        result matches Err(e) ==> r is Err && r->Err_0@ == voice_error_view(e),
{
}

/// What was refused is answered by the error that fits, and what was gone by then
/// as missing.
pub proof fn voice_updated_answers_a_refusal_in_kind(
    r: Result<Answer<Voice>, AppError>,
    caller: Caller,
    org: Uuid,
    request_id: Uuid,
    current: Voice,
    result: Result<Option<Voice>, VoiceError>,
)
    requires
        voice_updated_outcome(r, caller, org, request_id, current, result),
    ensures
        result matches Err(e) ==> r is Err && r->Err_0@ == voice_error_view(e),
        result is Ok && result->Ok_0 is None ==> r is Err && r->Err_0@.status() == 404,
{
}

/// What was refused is answered by the error that fits, and what was gone by then
/// as missing.
pub proof fn tag_created_answers_a_refusal_in_kind(
    r: Result<Answer<Tag>, AppError>,
    caller: Caller,
    org: Uuid,
    request_id: Uuid,
    result: Result<Tag, TagError>,
)
    requires
        tag_created_outcome(r, caller, org, request_id, result),
    ensures
        result matches Err(e) ==> r is Err && r->Err_0@ == tag_error_view(e),
{
}

/// What was refused is answered by the error that fits, and what was gone by then
/// as missing.
pub proof fn tag_updated_answers_a_refusal_in_kind(
    r: Result<Answer<Tag>, AppError>,
    caller: Caller,
    org: Uuid,
    request_id: Uuid,
    current: Tag,
    result: Result<Option<Tag>, TagError>,
)
    requires
        tag_updated_outcome(r, caller, org, request_id, current, result),
    ensures
        result matches Err(e) ==> r is Err && r->Err_0@ == tag_error_view(e),
        result is Ok && result->Ok_0 is None ==> r is Err && r->Err_0@.status() == 404,
{
}

/// What was refused is answered by the error that fits, and what was gone by then
/// as missing.
pub proof fn work_updated_answers_a_refusal_in_kind(
    r: Result<Answer<Work>, AppError>,
    caller: Caller,
    request_id: Uuid,
    current: Work,
    result: Option<Option<Work>>,
)
    requires
        work_updated_outcome(r, caller, request_id, current, result),
    ensures
        result is None ==> r is Err && r->Err_0@.status() == 500,
        result is Some && result->0 is None ==> r is Err && r->Err_0@.status() == 404,
{
}

} // verus!
