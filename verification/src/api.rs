//! What the JSON interface's operations have in common: who calls, what is
//! looked up, which version a write is held to, and how it is answered.

use vstd::prelude::*;
use crate::audit::{AuditContext, AuditEntry, DetailView, EntryView, FactView};
use crate::console::Access;
use crate::error::{fails, invalid, AppError, ErrorView};
use crate::id::Uuid;
use crate::listing::{etag, etag_for, names_version};
use crate::model::{Lookup, Time};
use crate::number::int_text;
use crate::role::Role;
use crate::text::{trim, trimmed};

verus! {

/// Who calls the interface.
#[derive(Clone, Copy, Debug, PartialEq, Eq, Structural)]
pub struct Caller {
    pub user_id: Uuid,
    pub is_system_admin: bool,
}

impl Caller {
    /// Under whose name, where and under which request a write is recorded.
    pub open spec fn audit_context(self, org: Option<Uuid>, request_id: Uuid) -> AuditContext {
        AuditContext {
            actor_user_id: Some(self.user_id),
            org_id: org,
            request_id: Some(request_id),
        }
    }

    pub fn audit_ctx(&self, org: Option<Uuid>, request_id: Uuid) -> (r: AuditContext)
        ensures
            r == self.audit_context(org, request_id),
    {
        AuditContext {
            actor_user_id: Some(self.user_id),
            org_id: org,
            request_id: Some(request_id),
        }
    }
}

/// What an operation within an organization needs.
#[derive(Clone, Copy, Debug, PartialEq, Eq, Structural)]
pub enum Need {
    /// Any member may read.
    Read,
    /// Arrangements, voices, tags and files are changed by owners and
    /// archivists.
    EditArchive,
    /// Collections and parts are changed by owners, archivists and conductors.
    BuildCollections,
    /// Members are managed by owners.
    ManageMembers,
}

impl Need {
    /// Whether a role is enough.
    pub open spec fn met_by(self, role: Role) -> bool {
        match self {
            Need::Read => true,
            Need::EditArchive => role.edits_arrangements(),
            Need::BuildCollections => role.builds_collections(),
            Need::ManageMembers => role.manages_members(),
        }
    }

    /// Whether a role is enough.
    pub fn is_met_by(self, role: Role) -> (r: bool)
        ensures
            r == self.met_by(role),
    {
        match self {
            Need::Read => true,
            Need::EditArchive => role.can_edit_arrangements(),
            Need::BuildCollections => role.can_build_collections(),
            Need::ManageMembers => role.can_manage_members(),
        }
    }
}

/// Who calls, and as what in the organization that the call is about.
pub struct Standing {
    pub caller: Caller,
    /// Missing where the caller is no member.
    pub role: Lookup<Role>,
}

/// Why a caller may not do what they ask for, if they may not. System admins
/// may do everything.
pub open spec fn denied(standing: Standing, need: Need) -> Option<ErrorView> {
    if standing.caller.is_system_admin {
        None
    } else {
        match standing.role {
            Lookup::Found(role) => if need.met_by(role) {
                None
            } else {
                Some(ErrorView::Forbidden)
            },
            Lookup::Missing => Some(ErrorView::Forbidden),
            Lookup::Failed => Some(ErrorView::Database),
        }
    }
}

/// Whether `r` is what [`authorize`] owes its caller.
pub open spec fn authorize_outcome(
    r: Result<(), AppError>,
    standing: Standing,
    need: Need,
) -> bool {
    match denied(standing, need) {
        None => r is Ok,
        Some(e) => fails(r, e),
    }
}

/// Lets a caller go on who may do what they ask for.
pub fn authorize(standing: &Standing, need: Need) -> (r: Result<(), AppError>)
    ensures
        authorize_outcome(r, *standing, need),
{
    if standing.caller.is_system_admin {
        return Ok(());
    }
    match &standing.role {
        Lookup::Found(role) => {
            if need.is_met_by(*role) {
                Ok(())
            } else {
                Err(AppError::Forbidden)
            }
        },
        Lookup::Missing => Err(AppError::Forbidden),
        Lookup::Failed => Err(AppError::Database),
    }
}

/// This interface lets someone change exactly what the console lets them
/// change.
pub proof fn both_interfaces_grant_the_same(standing: Standing, access: Access)
    requires
        access.is_system_admin == standing.caller.is_system_admin,
        access.role == (match standing.role {
            Lookup::Found(role) => Some(role),
            _ => None,
        }),
    ensures
        denied(standing, Need::EditArchive) is None <==> access.edits_arrangements(),
        denied(standing, Need::BuildCollections) is None <==> access.builds_collections(),
        denied(standing, Need::ManageMembers) is None <==> access.manages_members(),
{
}

/// Whether `r` is what [`require_system_admin`] owes its caller.
pub open spec fn require_system_admin_outcome(r: Result<(), AppError>, caller: Caller) -> bool {
    &&& caller.is_system_admin ==> r is Ok
    &&& !caller.is_system_admin ==> fails(r, ErrorView::Forbidden)
}

/// Lets system admins go on, and nobody else.
pub fn require_system_admin(caller: &Caller) -> (r: Result<(), AppError>)
    ensures
        require_system_admin_outcome(r, *caller),
{
    if caller.is_system_admin {
        Ok(())
    } else {
        Err(AppError::Forbidden)
    }
}

/// What is sent back: a status, the row's entity tag, what is recorded, and a
/// body.
pub struct Answer<T> {
    pub status: u16,
    pub etag: Option<String>,
    pub audit: Option<AuditEntry>,
    pub body: T,
}

/// Whether `r` answers with a row and its entity tag.
pub open spec fn gives<T>(
    r: Result<Answer<T>, AppError>,
    status: u16,
    updated_at: i64,
    audit: Option<EntryView>,
    body: T,
) -> bool {
    &&& r is Ok
    &&& r->Ok_0.status == status
    &&& r->Ok_0.etag is Some && r->Ok_0.etag->0@ == etag(updated_at)
    &&& match audit {
        Some(e) => r->Ok_0.audit is Some && r->Ok_0.audit->0@ =~= e,
        None => r->Ok_0.audit is None,
    }
    &&& r->Ok_0.body == body
}

/// Whether `r` answers without a body, the write recorded as `e`.
pub open spec fn done(r: Result<Answer<()>, AppError>, status: u16, e: EntryView) -> bool {
    &&& r is Ok
    &&& r->Ok_0.status == status
    &&& r->Ok_0.etag is None
    &&& r->Ok_0.audit is Some && r->Ok_0.audit->0@ =~= e
}

/// A row with its entity tag.
pub fn etag_response_status<T>(
    status: u16,
    updated_at: i64,
    audit: Option<AuditEntry>,
    body: T,
) -> (r: Result<Answer<T>, AppError>)
    ensures
        gives(
            r,
            status,
            updated_at,
            match audit {
                Some(e) => Some(e@),
                None => None,
            },
            body,
        ),
{
    Ok(Answer { status, etag: Some(etag_for(updated_at)), audit, body })
}

/// Whether `r` answers with a row and no entity tag.
pub open spec fn gives_untagged<T>(
    r: Result<Answer<T>, AppError>,
    status: u16,
    audit: EntryView,
    body: T,
) -> bool {
    &&& r is Ok
    &&& r->Ok_0.status == status
    &&& r->Ok_0.etag is None
    &&& r->Ok_0.audit is Some && r->Ok_0.audit->0@ =~= audit
    &&& r->Ok_0.body == body
}

/// A row without its entity tag.
pub fn plain_response<T>(status: u16, audit: AuditEntry, body: T) -> (r: Result<
    Answer<T>,
    AppError,
>)
    ensures
        gives_untagged(r, status, audit@, body),
{
    Ok(Answer { status, etag: None, audit: Some(audit), body })
}

/// An answer without a body.
pub fn no_content(status: u16, audit: AuditEntry) -> (r: Result<Answer<()>, AppError>)
    ensures
        done(r, status, audit@),
{
    Ok(Answer { status, etag: None, audit: Some(audit), body: () })
}

/// The error that a lookup amounts to, if it is one.
pub open spec fn lookup_error<T>(found: Lookup<T>) -> Option<ErrorView> {
    match found {
        Lookup::Found(_) => None,
        Lookup::Missing => Some(ErrorView::NotFound),
        Lookup::Failed => Some(ErrorView::Database),
    }
}

/// Whether `r` is the row that was looked up, or the error that there is none.
pub open spec fn looked_up<T>(r: Result<T, AppError>, found: Lookup<T>) -> bool {
    match found {
        Lookup::Found(row) => r == Ok::<T, AppError>(row),
        Lookup::Missing => fails(r, ErrorView::NotFound),
        Lookup::Failed => fails(r, ErrorView::Database),
    }
}

/// The row that was looked up.
pub fn require<T>(found: Lookup<T>) -> (r: Result<T, AppError>)
    ensures
        looked_up(r, found),
{
    match found {
        Lookup::Found(row) => Ok(row),
        Lookup::Missing => Err(AppError::NotFound),
        Lookup::Failed => Err(AppError::Database),
    }
}

/// Whether `r` is the row that was looked up, at the version that the write was
/// made for.
pub open spec fn looked_up_at<T>(
    r: Result<T, AppError>,
    found: Lookup<T>,
    if_match: Option<Seq<char>>,
    version: spec_fn(T) -> i64,
) -> bool {
    match found {
        Lookup::Found(row) => if names_version(if_match, version(row)) {
            r == Ok::<T, AppError>(row)
        } else {
            fails(r, ErrorView::PreconditionFailed)
        },
        Lookup::Missing => fails(r, ErrorView::NotFound),
        Lookup::Failed => fails(r, ErrorView::Database),
    }
}

/// Whether `r` is what [`not_blank`] owes its caller.
pub open spec fn not_blank_outcome(
    r: Result<(), AppError>,
    value: &str,
    field: &str,
    message: &str,
) -> bool {
    &&& trimmed(value@).len() > 0 ==> r is Ok
    &&& trimmed(value@).len() == 0 ==> fails(r, invalid(field@, message@))
}

/// Lets a text pass that is not blank; otherwise complains about its field.
pub fn not_blank(value: &str, field: &str, message: &str) -> (r: Result<(), AppError>)
    ensures
        not_blank_outcome(r, value, field, message),
{
    if trim(value).is_empty() {
        Err(AppError::invalid(field, message))
    } else {
        Ok(())
    }
}

/// How taking a row away or bringing it back ended, recorded as `e`: `None`
/// where the database failed, `Some(false)` where there was nothing to do.
pub open spec fn removal(r: Result<Answer<()>, AppError>, result: Option<bool>, e: EntryView) -> bool {
    match result {
        None => fails(r, ErrorView::Database),
        Some(false) => fails(r, ErrorView::NotFound),
        Some(true) => done(r, 204, e),
    }
}

/// Ends an operation that took a row away or brought it back.
pub fn finish_removal(result: Option<bool>, e: AuditEntry) -> (r: Result<Answer<()>, AppError>)
    ensures
        removal(r, result, e@),
{
    match result {
        None => Err(AppError::Database),
        Some(false) => Err(AppError::NotFound),
        Some(true) => no_content(204, e),
    }
}

/// What was taken away or brought back is recorded, and what is recorded took
/// place.
pub proof fn removals_are_recorded(
    r: Result<Answer<()>, AppError>,
    result: Option<bool>,
    e: EntryView,
)
    requires
        removal(r, result, e),
    ensures
        r is Ok <==> result == Some(true),
        r is Ok ==> r->Ok_0.audit is Some && r->Ok_0.audit->0@ =~= e,
{
}

/// A write that is held to a version and names none, or another than the
/// current one, is refused and changes nothing.
pub proof fn stale_writes_are_refused<T>(
    r: Result<T, AppError>,
    row: T,
    if_match: Option<Seq<char>>,
    version: spec_fn(T) -> i64,
)
    requires
        looked_up_at(r, Lookup::Found(row), if_match, version),
        !names_version(if_match, version(row)),
    ensures
        r is Err,
        r->Err_0@.status() == 412,
{
}

impl<T> Answer<T> {
    /// Whether the write is on record as one of `actor`.
    pub open spec fn names(
        self,
        actor: Uuid,
        org: Option<Uuid>,
        request: Uuid,
        action: Seq<char>,
        row: Uuid,
    ) -> bool {
        self.audit is Some && self.audit->0.names(actor, org, request, action, row)
    }

    /// Whether the record of the write says `fact` under `key`.
    pub open spec fn tells(self, key: Seq<char>, fact: FactView) -> bool {
        self.audit is Some && self.audit->0.tells(key, fact)
    }

    /// Whether the record of the write says `fact` under `key`, in the object
    /// `group`.
    pub open spec fn tells_in(self, group: Seq<char>, key: Seq<char>, fact: FactView) -> bool {
        self.audit is Some && self.audit->0@.details.contains(
            DetailView { group: Some(group), key, value: fact },
        )
    }

    /// Whether the answer carries the tag of the version `updated_at`.
    pub open spec fn is_tagged(self, updated_at: Time) -> bool {
        self.etag is Some && self.etag->0@ == seq!['"'] + int_text(updated_at.millis as int)
            + seq!['"']
    }
}

/// Whether the caller may read what the organization has: as a member in any
/// role, or as a system admin.
pub open spec fn is_member(standing: Standing) -> bool {
    standing.caller.is_system_admin || standing.role is Found
}

/// Whether the caller has one of three roles, or administers the system.
pub open spec fn stands_as(standing: Standing, a: Role, b: Role, c: Role) -> bool {
    standing.caller.is_system_admin || (standing.role matches Lookup::Found(role) && (role == a
        || role == b || role == c))
}

/// Whether the caller keeps the archive: as owner or archivist.
pub open spec fn keeps_archive(standing: Standing) -> bool {
    stands_as(standing, Role::Owner, Role::Archivist, Role::Archivist)
}

/// Whether the caller keeps collections: as owner, archivist or conductor.
pub open spec fn keeps_collections(standing: Standing) -> bool {
    stands_as(standing, Role::Owner, Role::Archivist, Role::Conductor)
}

/// Whether the caller keeps the roster: as owner.
pub open spec fn keeps_roster(standing: Standing) -> bool {
    stands_as(standing, Role::Owner, Role::Owner, Role::Owner)
}

/// Members read; owners and archivists change the archive; they and conductors
/// change collections; owners change members. System admins may do all of it.
/// Who may not is told so, unless their role could not be looked up.
pub proof fn each_role_may_do_its_part(standing: Standing)
    ensures
        denied(standing, Need::Read) is None <==> is_member(standing),
        denied(standing, Need::EditArchive) is None <==> keeps_archive(standing),
        denied(standing, Need::BuildCollections) is None <==> keeps_collections(standing),
        denied(standing, Need::ManageMembers) is None <==> keeps_roster(standing),
        forall|need: Need|
            (#[trigger] denied(standing, need)) is Some ==> denied(standing, need)->0.status() == (
            if standing.role is Failed {
                500u16
            } else {
                403u16
            }),
{
}

/// Whether a precondition names the version `updated_at`: by its tag, or by the
/// time alone.
pub open spec fn is_for(if_match: Option<&str>, updated_at: Time) -> bool {
    if_match is Some && (if_match->0@ == seq!['"'] + int_text(updated_at.millis as int) + seq!['"']
        || if_match->0@ == int_text(updated_at.millis as int))
}

/// A row that was looked up is given as it is; a missing one is not found, and a
/// failing database is reported as such.
pub proof fn what_was_looked_up_is_given<T>(r: Result<T, AppError>, found: Lookup<T>)
    requires
        looked_up(r, found),
    ensures
        r is Ok <==> found is Found,
        r is Ok ==> found == Lookup::Found(r->Ok_0),
        found is Missing ==> r->Err_0@.status() == 404,
        found is Failed ==> r->Err_0@.status() == 500,
{
}

/// Under whose name, where and under which request a write is recorded.
pub proof fn calls_are_recorded_under_the_caller(
    caller: Caller,
    org: Option<Uuid>,
    request_id: Uuid,
)
    ensures
        caller.audit_context(org, request_id).actor_user_id == Some(caller.user_id),
        caller.audit_context(org, request_id).org_id == org,
        caller.audit_context(org, request_id).request_id == Some(request_id),
{
}

/// System admins go on, and nobody else does.
pub proof fn system_admins_alone_may(r: Result<(), AppError>, caller: Caller)
    requires
        require_system_admin_outcome(r, caller),
    ensures
        r is Ok <==> caller.is_system_admin,
        r is Err ==> r->Err_0@.status() == 403,
{
}

/// A text that is blank is complained about under its own field.
pub proof fn a_blank_text_is_complained_about(
    r: Result<(), AppError>,
    value: &str,
    field: &str,
    message: &str,
)
    requires
        not_blank_outcome(r, value, field, message),
    ensures
        r is Ok <==> trimmed(value@).len() > 0,
        r is Err ==> (r->Err_0@ matches ErrorView::Validation(v) && v.len() == 1 && v[0] == (
            field@,
            message@,
        )),
{
}

/// Who may do what they ask for goes on, and nobody else does.
pub proof fn who_may_goes_on(r: Result<(), AppError>, standing: Standing, need: Need)
    requires
        authorize_outcome(r, standing, need),
    ensures
        need == Need::Read ==> (r is Ok <==> is_member(standing)),
        need == Need::EditArchive ==> (r is Ok <==> keeps_archive(standing)),
        need == Need::BuildCollections ==> (r is Ok <==> keeps_collections(standing)),
        need == Need::ManageMembers ==> (r is Ok <==> keeps_roster(standing)),
        r is Err ==> r->Err_0@.status() == 403 || r->Err_0@.status() == 500,
{
    each_role_may_do_its_part(standing);
}

} // verus!
