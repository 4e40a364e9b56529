//! The JSON interface to organizations, users and memberships.

use vstd::prelude::*;
use crate::api::{
    authorize, denied, each_role_may_do_its_part, etag_response_status, finish_removal, gives,
    is_for, is_member, keeps_roster, looked_up, looked_up_at, no_content, not_blank, removal,
    require, require_system_admin, Answer, Caller, Need, Standing,
};
use crate::api_archive::finish_delete;
use crate::audit::{
    detail, entry, ids, text, within, AuditEntry, EntryView, Fact, FactView,
};
use crate::error::{
    complain, fails, field_errors, invalid, AppError, ErrorView, FieldError,
};
use crate::id::Uuid;
use crate::instance::{DeleteError, OrganizationError, UserError};
use crate::listing::{check_if_match, names_version, str_of};
use crate::lists::copy_ids;
use crate::members::{
    membership_action, membership_in_org, named_role, read_role, scoped_membership, update_action,
    MembershipError, MembershipFields,
};
use crate::model::{Lookup, Membership, Organization, User};
use crate::role::{role_names_are_distinct, Role};
use crate::form::{comes_first, field_text, first_value, the_earliest_value_counts};
use crate::text::{text_of, trim, trimmed};

verus! {

/// Whether `r` is what [`plan_list_orgs`] owes its caller.
pub open spec fn plan_list_orgs_outcome(r: Option<String>, filters: Vec<(String, String)>) -> bool {
    text_of(r) == first_value(filters@, "name"@)
}

/// The name that a list of organizations is narrowed to. Anyone who is logged
/// in may list them.
pub fn plan_list_orgs(filters: &Vec<(String, String)>) -> (r: Option<String>)
    ensures
        plan_list_orgs_outcome(r, *filters),
{
    field_text(filters, "name")
}

/// Whether `r` is what [`plan_create_org`] owes its caller.
pub open spec fn plan_create_org_outcome(
    r: Result<(), AppError>,
    caller: Caller,
    name: &str,
) -> bool {
    &&& !caller.is_system_admin ==> fails(r, ErrorView::Forbidden)
    &&& caller.is_system_admin && trimmed(name@).len() == 0 ==> fails(
        r,
        invalid("name"@, "name must not be empty"@),
    )
    &&& caller.is_system_admin && trimmed(name@).len() > 0 ==> r is Ok
}

/// Lets a system admin create an organization under a name that is not blank.
pub fn plan_create_org(caller: &Caller, name: &str) -> (r: Result<(), AppError>)
    ensures
        plan_create_org_outcome(r, *caller, name),
{
    match require_system_admin(caller) {
        Ok(()) => not_blank(name, "name", "name must not be empty"),
        Err(e) => Err(e),
    }
}

/// Whether `r` is what [`org_created`] owes its caller.
pub open spec fn org_created_outcome(
    r: Result<Answer<Organization>, AppError>,
    caller: Caller,
    request_id: Uuid,
    result: Result<Organization, OrganizationError>,
) -> bool {
    match result {
        Err(OrganizationError::DuplicateSlug) => fails(
            r,
            ErrorView::Conflict(
                "an organization with a slug derived from this name already exists"@,
            ),
        ),
        Err(OrganizationError::Database) => fails(r, ErrorView::Database),
        Ok(o) => gives(
            r,
            201,
            o.updated_at.millis,
            Some(org_entry(caller, request_id, "organization.create"@, o)),
            o,
        ),
    }
}

/// How creating an organization ended.
pub fn org_created(
    caller: &Caller,
    request_id: Uuid,
    result: Result<Organization, OrganizationError>,
) -> (r: Result<Answer<Organization>, AppError>)
    ensures
        org_created_outcome(r, *caller, request_id, result),
{
    match result {
        Err(OrganizationError::DuplicateSlug) => Err(
            AppError::Conflict(
                "an organization with a slug derived from this name already exists".to_owned(),
            ),
        ),
        Err(OrganizationError::Database) => Err(AppError::Database),
        Ok(o) => {
            let e: AuditEntry = org_record(caller, request_id, "organization.create", &o);
            etag_response_status(201, o.updated_at.millis, Some(e), o)
        },
    }
}

/// What is recorded of an organization that comes or goes.
pub open spec fn org_entry(
    caller: Caller,
    request_id: Uuid,
    action: Seq<char>,
    o: Organization,
) -> EntryView {
    entry(
        caller.audit_context(Some(o.id), request_id),
        action,
        "organization"@,
        o.id,
        seq![
            detail("name"@, FactView::Text(o.name@)),
            detail("slug"@, FactView::Text(o.slug@)),
        ],
    )
}

fn org_record(caller: &Caller, request_id: Uuid, action: &str, o: &Organization) -> (r: AuditEntry)
    ensures
        r@ =~= org_entry(*caller, request_id, action@, *o),
{
    AuditEntry::new(caller.audit_ctx(Some(o.id), request_id), action, "organization", o.id).with(
        "name",
        text(o.name.as_str()),
    ).with("slug", text(o.slug.as_str()))
}

/// Whether `r` is what [`get_org`] owes its caller.
pub open spec fn get_org_outcome(
    r: Result<Answer<Organization>, AppError>,
    found: Lookup<Organization>,
) -> bool {
    match found {
        Lookup::Found(o) => gives(r, 200, o.updated_at.millis, None, o),
        Lookup::Missing => fails(r, ErrorView::NotFound),
        Lookup::Failed => fails(r, ErrorView::Database),
    }
}

/// An organization. Anyone who is logged in may read it.
pub fn get_org(found: Lookup<Organization>) -> (r: Result<Answer<Organization>, AppError>)
    ensures
        get_org_outcome(r, found),
{
    match require(found) {
        Ok(o) => etag_response_status(200, o.updated_at.millis, None, o),
        Err(e) => Err(e),
    }
}

/// The version of an organization.
pub open spec fn org_version() -> spec_fn(Organization) -> i64 {
    |o: Organization| o.updated_at.millis
}

/// Whether `r` is what [`plan_update_org`] owes its caller.
pub open spec fn plan_update_org_outcome(
    r: Result<Organization, AppError>,
    caller: Caller,
    found: Lookup<Organization>,
    if_match: Option<&str>,
) -> bool {
    &&& !caller.is_system_admin ==> fails(r, ErrorView::Forbidden)
    &&& caller.is_system_admin ==> looked_up_at(r, found, str_of(if_match), org_version())
}

/// Opens an organization for a system admin's write, at the version that it was
/// made for.
pub fn plan_update_org(caller: &Caller, found: Lookup<Organization>, if_match: Option<&str>) -> (r:
    Result<Organization, AppError>)
    ensures
        plan_update_org_outcome(r, *caller, found, if_match),
{
    match require_system_admin(caller) {
        Ok(()) => {},
        Err(e) => return Err(e),
    }
    let o: Organization = match require(found) {
        Ok(o) => o,
        Err(e) => return Err(e),
    };
    match check_if_match(if_match, o.updated_at.millis) {
        Ok(()) => Ok(o),
        Err(e) => Err(e),
    }
}

/// Whether `r` is what [`org_updated`] owes its caller.
pub open spec fn org_updated_outcome(
    r: Result<Answer<Organization>, AppError>,
    caller: Caller,
    request_id: Uuid,
    current: Organization,
    result: Option<Option<Organization>>,
) -> bool {
    match result {
        None => fails(r, ErrorView::Database),
        Some(None) => fails(r, ErrorView::NotFound),
        Some(Some(o)) => gives(
            r,
            200,
            o.updated_at.millis,
            Some(
                entry(
                    caller.audit_context(Some(current.id), request_id),
                    "organization.update"@,
                    "organization"@,
                    current.id,
                    seq![
                        within("before"@, "name"@, FactView::Text(current.name@)),
                        within("after"@, "name"@, FactView::Text(o.name@)),
                    ],
                ),
            ),
            o,
        ),
    }
}

/// How renaming the organization `current` ended. `Some(None)` where it was
/// gone by then.
pub fn org_updated(
    caller: &Caller,
    request_id: Uuid,
    current: &Organization,
    result: Option<Option<Organization>>,
) -> (r: Result<Answer<Organization>, AppError>)
    ensures
        org_updated_outcome(r, *caller, request_id, *current, result),
{
    match result {
        None => Err(AppError::Database),
        Some(None) => Err(AppError::NotFound),
        Some(Some(o)) => {
            let e: AuditEntry = AuditEntry::new(
                caller.audit_ctx(Some(current.id), request_id),
                "organization.update",
                "organization",
                current.id,
            ).with_in("before", "name", text(current.name.as_str())).with_in(
                "after",
                "name",
                text(o.name.as_str()),
            );
            etag_response_status(200, o.updated_at.millis, Some(e), o)
        },
    }
}

/// Whether `r` is what [`plan_delete_org`] owes its caller.
pub open spec fn plan_delete_org_outcome(
    r: Result<AuditEntry, AppError>,
    caller: Caller,
    request_id: Uuid,
    found: Lookup<Organization>,
    if_match: Option<&str>,
) -> bool {
    &&& !caller.is_system_admin ==> fails(r, ErrorView::Forbidden)
    &&& caller.is_system_admin ==> match found {
        Lookup::Missing => fails(r, ErrorView::NotFound),
        Lookup::Failed => fails(r, ErrorView::Database),
        Lookup::Found(o) => if !names_version(str_of(if_match), o.updated_at.millis) {
            fails(r, ErrorView::PreconditionFailed)
        } else {
            r is Ok && r->Ok_0@ =~= org_entry(
                caller,
                request_id,
                "organization.delete"@,
                o,
            )
        },
    }
}

/// Opens an organization to delete it, with what is recorded before it goes.
pub fn plan_delete_org(
    caller: &Caller,
    request_id: Uuid,
    found: Lookup<Organization>,
    if_match: Option<&str>,
) -> (r: Result<AuditEntry, AppError>)
    ensures
        plan_delete_org_outcome(r, *caller, request_id, found, if_match),
{
    match plan_update_org(caller, found, if_match) {
        Ok(o) => Ok(org_record(caller, request_id, "organization.delete", &o)),
        Err(e) => Err(e),
    }
}

/// Whether `r` is what [`org_deleted`] owes its caller.
pub open spec fn org_deleted_outcome(r: Result<u16, AppError>, result: Option<bool>) -> bool {
    match result {
        Some(true) => r == Ok::<u16, AppError>(204),
        Some(false) => fails(r, ErrorView::NotFound),
        None => fails(r, ErrorView::Database),
    }
}

/// How deleting an organization ended: the status to answer with.
pub fn org_deleted(result: Option<bool>) -> (r: Result<u16, AppError>)
    ensures
        org_deleted_outcome(r, result),
{
    match result {
        Some(true) => Ok(204),
        Some(false) => Err(AppError::NotFound),
        None => Err(AppError::Database),
    }
}

/// Whether `r` is what [`plan_list_users`] owes its caller.
pub open spec fn plan_list_users_outcome(
    r: Result<Option<String>, AppError>,
    caller: Caller,
    filters: Vec<(String, String)>,
) -> bool {
    &&& !caller.is_system_admin ==> fails(r, ErrorView::Forbidden)
    &&& caller.is_system_admin ==> r is Ok && text_of(r->Ok_0) == first_value(
        filters@,
        "username"@,
    )
}

/// Lets a system admin list users, and says which username they are narrowed to.
pub fn plan_list_users(caller: &Caller, filters: &Vec<(String, String)>) -> (r: Result<
    Option<String>,
    AppError,
>)
    ensures
        plan_list_users_outcome(r, *caller, *filters),
{
    match require_system_admin(caller) {
        Ok(()) => Ok(field_text(filters, "username")),
        Err(e) => Err(e),
    }
}

/// The complaints about a new user.
pub open spec fn user_complaints(username: Seq<char>, password: Seq<char>) -> Seq<
    (Seq<char>, Seq<char>),
> {
    (if trimmed(username).len() == 0 {
        seq![("username"@, "username must not be empty"@)]
    } else {
        seq![]
    }) + (if password.len() == 0 {
        seq![("password"@, "password must not be empty"@)]
    } else {
        seq![]
    })
}

/// Whether `r` is what [`plan_create_user`] owes its caller.
pub open spec fn plan_create_user_outcome(
    r: Result<(), AppError>,
    caller: Caller,
    username: &str,
    password: &str,
) -> bool {
    &&& !caller.is_system_admin ==> fails(r, ErrorView::Forbidden)
    &&& caller.is_system_admin ==> if user_complaints(username@, password@).len() == 0 {
        r is Ok
    } else {
        fails(r, ErrorView::Validation(user_complaints(username@, password@)))
    }
}

/// Lets a system admin create a user with a name and a password. Everything
/// that is missing is complained about at once.
pub fn plan_create_user(caller: &Caller, username: &str, password: &str) -> (r: Result<(), AppError>)
    ensures
        plan_create_user_outcome(r, *caller, username, password),
{
    match require_system_admin(caller) {
        Ok(()) => {},
        Err(e) => return Err(e),
    }
    let mut v: Vec<FieldError> = Vec::new();
    assert(field_errors(v@) == Seq::<(Seq<char>, Seq<char>)>::empty());
    if trim(username).is_empty() {
        complain(&mut v, "username", "username must not be empty");
    }
    if password.is_empty() {
        complain(&mut v, "password", "password must not be empty");
    }
    assert(field_errors(v@) == user_complaints(username@, password@));
    assert(v@.len() == field_errors(v@).len());
    if v.is_empty() {
        Ok(())
    } else {
        Err(AppError::Validation(v))
    }
}

/// The error where a password could not be hashed.
pub fn hash_failure() -> (r: AppError)
    ensures
        r@ == ErrorView::Internal("failed to hash password"@),
{
    AppError::Internal("failed to hash password".to_owned())
}

/// What was asked for, where nothing said means no.
pub fn said_yes(asked: Option<bool>) -> (r: bool)
    ensures
        r == (asked == Some(true)),
{
    match asked {
        Some(b) => b,
        None => false,
    }
}

/// Whether `r` is what [`user_created`] owes its caller.
pub open spec fn user_created_outcome(
    r: Result<Answer<User>, AppError>,
    caller: Caller,
    request_id: Uuid,
    result: Result<User, UserError>,
) -> bool {
    match result {
        Err(UserError::DuplicateUsername) => fails(
            r,
            ErrorView::Conflict("a user with this username already exists"@),
        ),
        Err(UserError::Database) => fails(r, ErrorView::Database),
        Ok(u) => gives(
            r,
            201,
            u.updated_at.millis,
            Some(
                entry(
                    caller.audit_context(None, request_id),
                    "user.create"@,
                    "user"@,
                    u.id,
                    seq![
                        detail("username"@, FactView::Text(u.username@)),
                        detail("slug"@, FactView::Text(u.slug@)),
                        detail("isSystemAdmin"@, FactView::Flag(u.is_system_admin)),
                    ],
                ),
            ),
            u,
        ),
    }
}

/// How creating a user ended.
pub fn user_created(caller: &Caller, request_id: Uuid, result: Result<User, UserError>) -> (r: Result<
    Answer<User>,
    AppError,
>)
    ensures
        user_created_outcome(r, *caller, request_id, result),
{
    match result {
        Err(UserError::DuplicateUsername) => Err(
            AppError::Conflict("a user with this username already exists".to_owned()),
        ),
        Err(UserError::Database) => Err(AppError::Database),
        Ok(u) => {
            let e: AuditEntry = AuditEntry::new(
                caller.audit_ctx(None, request_id),
                "user.create",
                "user",
                u.id,
            ).with("username", text(u.username.as_str())).with("slug", text(u.slug.as_str())).with(
                "isSystemAdmin",
                Fact::Flag(u.is_system_admin),
            );
            etag_response_status(201, u.updated_at.millis, Some(e), u)
        },
    }
}

/// Whether `r` is what [`get_user`] owes its caller.
pub open spec fn get_user_outcome(
    r: Result<Answer<User>, AppError>,
    caller: Caller,
    found: Lookup<User>,
) -> bool {
    &&& !caller.is_system_admin ==> fails(r, ErrorView::Forbidden)
    &&& caller.is_system_admin ==> match found {
        Lookup::Found(u) => gives(r, 200, u.updated_at.millis, None, u),
        Lookup::Missing => fails(r, ErrorView::NotFound),
        Lookup::Failed => fails(r, ErrorView::Database),
    }
}

/// A user. Only system admins may read one.
pub fn get_user(caller: &Caller, found: Lookup<User>) -> (r: Result<Answer<User>, AppError>)
    ensures
        get_user_outcome(r, *caller, found),
{
    match require_system_admin(caller) {
        Ok(()) => {},
        Err(e) => return Err(e),
    }
    match require(found) {
        Ok(u) => etag_response_status(200, u.updated_at.millis, None, u),
        Err(e) => Err(e),
    }
}

/// The version of a user.
pub open spec fn user_version() -> spec_fn(User) -> i64 {
    |u: User| u.updated_at.millis
}

/// Whether `r` is what [`plan_delete_user`] owes its caller.
pub open spec fn plan_delete_user_outcome(
    r: Result<User, AppError>,
    caller: Caller,
    found: Lookup<User>,
    if_match: Option<&str>,
) -> bool {
    &&& !caller.is_system_admin ==> fails(r, ErrorView::Forbidden)
    &&& caller.is_system_admin ==> looked_up_at(r, found, str_of(if_match), user_version())
}

/// Opens a user to delete them, at the version that the write was made for.
pub fn plan_delete_user(caller: &Caller, found: Lookup<User>, if_match: Option<&str>) -> (r: Result<
    User,
    AppError,
>)
    ensures
        plan_delete_user_outcome(r, *caller, found, if_match),
{
    match require_system_admin(caller) {
        Ok(()) => {},
        Err(e) => return Err(e),
    }
    let u: User = match require(found) {
        Ok(u) => u,
        Err(e) => return Err(e),
    };
    match check_if_match(if_match, u.updated_at.millis) {
        Ok(()) => Ok(u),
        Err(e) => Err(e),
    }
}

/// Whether `r` is what [`user_deleted`] owes its caller.
pub open spec fn user_deleted_outcome(
    r: Result<Answer<()>, AppError>,
    caller: Caller,
    request_id: Uuid,
    current: User,
    result: Result<bool, DeleteError>,
) -> bool {
    match result {
        Err(DeleteError::Referenced) => fails(
            r,
            ErrorView::Conflict(
                "this user is still referenced by a membership, part assignment, or annotation; reassign or remove those first"@,
            ),
        ),
        Err(DeleteError::Database) => fails(r, ErrorView::Database),
        Ok(changed) => removal(
            r,
            Some(changed),
            entry(
                caller.audit_context(None, request_id),
                "user.delete"@,
                "user"@,
                current.id,
                seq![
                    detail("username"@, FactView::Text(current.username@)),
                    detail("slug"@, FactView::Text(current.slug@)),
                ],
            ),
        ),
    }
}

/// How deleting the user `current` ended.
pub fn user_deleted(
    caller: &Caller,
    request_id: Uuid,
    current: &User,
    result: Result<bool, DeleteError>,
) -> (r: Result<Answer<()>, AppError>)
    ensures
        user_deleted_outcome(r, *caller, request_id, *current, result),
{
    match finish_delete(
        result,
        "this user is still referenced by a membership, part assignment, or annotation; reassign or remove those first",
    ) {
        Err(e) => Err(e),
        Ok(status) => no_content(
            status,
            AuditEntry::new(
                caller.audit_ctx(None, request_id),
                "user.delete",
                "user",
                current.id,
            ).with("username", text(current.username.as_str())).with(
                "slug",
                text(current.slug.as_str()),
            ),
        ),
    }
}

/// The error that a failure to store a membership is answered with.
pub open spec fn membership_error_view(err: MembershipError) -> ErrorView {
    match err {
        MembershipError::Database => ErrorView::Database,
        MembershipError::Duplicate => ErrorView::Conflict(
            "this user is already a member of this organization"@,
        ),
        MembershipError::UnknownInstrument => invalid(
            "instrumentIds"@,
            "one or more instrument ids do not reference a live instrument"@,
        ),
        MembershipError::PrincipalNotSubset => invalid(
            "principalInstrumentIds"@,
            "principalInstrumentIds must be a subset of instrumentIds"@,
        ),
        MembershipError::LastOwner => ErrorView::Conflict(
            "organization must keep at least one owner; demote or remove a different owner first"@,
        ),
    }
}

/// The error that a failure to store a membership is answered with.
pub fn membership_error_to_app_error(err: MembershipError) -> (r: AppError)
    ensures
        r@ == membership_error_view(err),
{
    match err {
        MembershipError::Database => AppError::Database,
        MembershipError::Duplicate => AppError::Conflict(
            "this user is already a member of this organization".to_owned(),
        ),
        MembershipError::UnknownInstrument => AppError::invalid(
            "instrumentIds",
            "one or more instrument ids do not reference a live instrument",
        ),
        MembershipError::PrincipalNotSubset => AppError::invalid(
            "principalInstrumentIds",
            "principalInstrumentIds must be a subset of instrumentIds",
        ),
        MembershipError::LastOwner => AppError::Conflict(
            "organization must keep at least one owner; demote or remove a different owner first".to_owned(),
        ),
    }
}

/// The error for a role that does not exist.
pub open spec fn no_such_role() -> ErrorView {
    invalid("role"@, "role must be one of: owner, archivist, conductor, musician"@)
}

/// Whether `r` is what [`parse_role_or_validation_error`] owes its caller.
pub open spec fn parse_role_or_validation_error_outcome(
    r: Result<Role, AppError>,
    raw: &str,
) -> bool {
    match named_role(Some(raw@)) {
        Some(role) => r == Ok::<Role, AppError>(role),
        None => fails(r, no_such_role()),
    }
}

/// The role of that name.
pub fn parse_role_or_validation_error(raw: &str) -> (r: Result<Role, AppError>)
    ensures
        parse_role_or_validation_error_outcome(r, raw),
{
    match read_role(Some(raw)) {
        Some(role) => Ok(role),
        None => Err(
            AppError::invalid(
                "role",
                "role must be one of: owner, archivist, conductor, musician",
            ),
        ),
    }
}

/// What a caller sends of a membership.
pub struct MemberRequest {
    pub role: String,
    pub instrument_ids: Option<Vec<Uuid>>,
    pub is_principal: Option<bool>,
    pub principal_instrument_ids: Option<Vec<Uuid>>,
}

/// The identifiers that were sent, or else `unsaid`.
pub open spec fn ids_or(sent: Option<Vec<Uuid>>, unsaid: Seq<Uuid>) -> Seq<Uuid> {
    match sent {
        Some(v) => v@,
        None => unsaid,
    }
}

/// Whether `r` is what [`plan_list_members`] owes its caller.
pub open spec fn plan_list_members_outcome(
    r: Result<Option<String>, AppError>,
    standing: Standing,
    filters: Vec<(String, String)>,
) -> bool {
    &&& denied(standing, Need::Read) matches Some(e) ==> fails(r, e)
    &&& denied(standing, Need::Read) is None ==> r is Ok && text_of(r->Ok_0) == first_value(
        filters@,
        "role"@,
    )
}

/// Lets members be listed, and says which role they are narrowed to.
pub fn plan_list_members(standing: &Standing, filters: &Vec<(String, String)>) -> (r: Result<Option<String>, AppError>)
    ensures
        plan_list_members_outcome(r, *standing, *filters),
{
    match authorize(standing, Need::Read) {
        Ok(()) => {},
        Err(e) => return Err(e),
    }
    Ok(field_text(filters, "role"))
}

/// Whether `r` is what [`plan_create_member`] owes its caller.
pub open spec fn plan_create_member_outcome(
    r: Result<MembershipFields, AppError>,
    standing: Standing,
    body: MemberRequest,
) -> bool {
    &&& denied(standing, Need::ManageMembers) matches Some(e) ==> fails(r, e)
    &&& denied(standing, Need::ManageMembers) is None ==> (match named_role(Some(body.role@)) {
        None => fails(r, no_such_role()),
        Some(role) => r matches Ok(f) && {
            &&& f.role == role
            &&& f.instrument_ids@ == ids_or(body.instrument_ids, Seq::empty())
            &&& f.is_principal == (body.is_principal == Some(true))
            &&& f.principal_instrument_ids@ == ids_or(
                body.principal_instrument_ids,
                Seq::empty(),
            )
        },
    })
}

/// The fields of a new membership. What is not said is none.
pub fn plan_create_member(
    standing: &Standing,
    body: MemberRequest,
) -> (r: Result<MembershipFields, AppError>)
    ensures
        plan_create_member_outcome(r, *standing, body),
{
    match authorize(standing, Need::ManageMembers) {
        Ok(()) => {},
        Err(e) => return Err(e),
    }
    let role: Role = match parse_role_or_validation_error(body.role.as_str()) {
        Ok(role) => role,
        Err(e) => return Err(e),
    };
    Ok(
        MembershipFields {
            role,
            instrument_ids: match body.instrument_ids {
                Some(v) => v,
                None => Vec::new(),
            },
            is_principal: said_yes(body.is_principal),
            principal_instrument_ids: match body.principal_instrument_ids {
                Some(v) => v,
                None => Vec::new(),
            },
        },
    )
}

/// Whether `r` is what [`member_created`] owes its caller.
pub open spec fn member_created_outcome(
    r: Result<Answer<Membership>, AppError>,
    caller: Caller,
    org: Uuid,
    request_id: Uuid,
    result: Result<Membership, MembershipError>,
) -> bool {
    match result {
        Err(e) => fails(r, membership_error_view(e)),
        Ok(m) => gives(
            r,
            201,
            m.updated_at.millis,
            Some(
                entry(
                    caller.audit_context(Some(org), request_id),
                    "membership.create"@,
                    "membership"@,
                    m.id,
                    seq![
                        detail("userId"@, FactView::Id(m.user_id)),
                        detail("role"@, FactView::Text(m.role.name())),
                        detail("instrumentIds"@, FactView::Ids(m.instrument_ids@)),
                        detail("isPrincipal"@, FactView::Flag(m.is_principal)),
                        detail(
                            "principalInstrumentIds"@,
                            FactView::Ids(m.principal_instrument_ids@),
                        ),
                    ],
                ),
            ),
            m,
        ),
    }
}

/// How adding a member ended.
pub fn member_created(
    caller: &Caller,
    org: Uuid,
    request_id: Uuid,
    result: Result<Membership, MembershipError>,
) -> (r: Result<Answer<Membership>, AppError>)
    ensures
        member_created_outcome(r, *caller, org, request_id, result),
{
    match result {
        Err(e) => Err(membership_error_to_app_error(e)),
        Ok(m) => {
            let e: AuditEntry = AuditEntry::new(
                caller.audit_ctx(Some(org), request_id),
                "membership.create",
                "membership",
                m.id,
            ).with("userId", Fact::Id(m.user_id)).with("role", text(m.role.as_str())).with(
                "instrumentIds",
                ids(&m.instrument_ids),
            ).with("isPrincipal", Fact::Flag(m.is_principal)).with(
                "principalInstrumentIds",
                ids(&m.principal_instrument_ids),
            );
            etag_response_status(201, m.updated_at.millis, Some(e), m)
        },
    }
}

/// The membership of an organization.
pub fn find_member_scoped(found: Lookup<Membership>, org: Uuid) -> (r: Result<Membership, AppError>)
    ensures
        looked_up(r, membership_in_org(found, org)),
{
    require(scoped_membership(found, org))
}

/// Whether `r` is what [`get_member`] owes its caller.
pub open spec fn get_member_outcome(
    r: Result<Answer<Membership>, AppError>,
    standing: Standing,
    found: Lookup<Membership>,
    org: Uuid,
) -> bool {
    &&& denied(standing, Need::Read) matches Some(e) ==> fails(r, e)
    &&& denied(standing, Need::Read) is None ==> (match membership_in_org(found, org) {
        Lookup::Found(m) => gives(r, 200, m.updated_at.millis, None, m),
        Lookup::Missing => fails(r, ErrorView::NotFound),
        Lookup::Failed => fails(r, ErrorView::Database),
    })
}

/// A membership.
pub fn get_member(
    standing: &Standing,
    found: Lookup<Membership>,
    org: Uuid,
) -> (r: Result<Answer<Membership>, AppError>)
    ensures
        get_member_outcome(r, *standing, found, org),
{
    match authorize(standing, Need::Read) {
        Ok(()) => {},
        Err(e) => return Err(e),
    }
    match find_member_scoped(found, org) {
        Ok(m) => etag_response_status(200, m.updated_at.millis, None, m),
        Err(e) => Err(e),
    }
}

/// The version of a membership.
pub open spec fn member_version() -> spec_fn(Membership) -> i64 {
    |m: Membership| m.updated_at.millis
}

/// Whether `r` is what [`plan_delete_member`] owes its caller.
pub open spec fn plan_delete_member_outcome(
    r: Result<Membership, AppError>,
    standing: Standing,
    found: Lookup<Membership>,
    org: Uuid,
    if_match: Option<&str>,
) -> bool {
    &&& denied(standing, Need::ManageMembers) matches Some(e) ==> fails(r, e)
    &&& denied(standing, Need::ManageMembers) is None ==> looked_up_at(
        r,
        membership_in_org(found, org),
        str_of(if_match),
        member_version(),
    )
}

/// Opens a membership for a write, at the version that it was made for.
pub fn plan_delete_member(
    standing: &Standing,
    found: Lookup<Membership>,
    org: Uuid,
    if_match: Option<&str>,
) -> (r: Result<Membership, AppError>)
    ensures
        plan_delete_member_outcome(r, *standing, found, org, if_match),
{
    match authorize(standing, Need::ManageMembers) {
        Ok(()) => {},
        Err(e) => return Err(e),
    }
    let m: Membership = match find_member_scoped(found, org) {
        Ok(m) => m,
        Err(e) => return Err(e),
    };
    match check_if_match(if_match, m.updated_at.millis) {
        Ok(()) => Ok(m),
        Err(e) => Err(e),
    }
}

/// Whether `r` is what [`plan_update_member`] owes its caller.
pub open spec fn plan_update_member_outcome(
    r: Result<(Membership, MembershipFields), AppError>,
    standing: Standing,
    found: Lookup<Membership>,
    org: Uuid,
    if_match: Option<&str>,
    body: MemberRequest,
) -> bool {
    &&& denied(standing, Need::ManageMembers) matches Some(e) ==> fails(r, e)
    &&& denied(standing, Need::ManageMembers) is None ==> (match membership_in_org(found, org) {
        Lookup::Missing => fails(r, ErrorView::NotFound),
        Lookup::Failed => fails(r, ErrorView::Database),
        Lookup::Found(m) => if !names_version(str_of(if_match), m.updated_at.millis) {
            fails(r, ErrorView::PreconditionFailed)
        } else {
            match named_role(Some(body.role@)) {
                None => fails(r, no_such_role()),
                Some(role) => r matches Ok((current, f)) && {
                    &&& current == m
                    &&& f.role == role
                    &&& f.instrument_ids@ == ids_or(body.instrument_ids, m.instrument_ids@)
                    &&& f.is_principal == (match body.is_principal {
                        Some(b) => b,
                        None => m.is_principal,
                    })
                    &&& f.principal_instrument_ids@ == ids_or(
                        body.principal_instrument_ids,
                        m.principal_instrument_ids@,
                    )
                },
            }
        },
    })
}

/// The new fields of a membership, with the row as it was. What is not said
/// stays as it is.
pub fn plan_update_member(
    standing: &Standing,
    found: Lookup<Membership>,
    org: Uuid,
    if_match: Option<&str>,
    body: MemberRequest,
) -> (r: Result<(Membership, MembershipFields), AppError>)
    ensures
        plan_update_member_outcome(r, *standing, found, org, if_match, body),
{
    match authorize(standing, Need::ManageMembers) {
        Ok(()) => {},
        Err(e) => return Err(e),
    }
    let current: Membership = match plan_delete_member(standing, found, org, if_match) {
        Ok(m) => m,
        Err(e) => return Err(e),
    };
    let role: Role = match parse_role_or_validation_error(body.role.as_str()) {
        Ok(role) => role,
        Err(e) => return Err(e),
    };
    let fields: MembershipFields = MembershipFields {
        role,
        instrument_ids: match body.instrument_ids {
            Some(v) => v,
            None => copy_ids(&current.instrument_ids),
        },
        is_principal: match body.is_principal {
            Some(b) => b,
            None => current.is_principal,
        },
        principal_instrument_ids: match body.principal_instrument_ids {
            Some(v) => v,
            None => copy_ids(&current.principal_instrument_ids),
        },
    };
    Ok((current, fields))
}

/// Whether `r` is what [`member_updated`] owes its caller.
pub open spec fn member_updated_outcome(
    r: Result<Answer<Membership>, AppError>,
    caller: Caller,
    org: Uuid,
    request_id: Uuid,
    current: Membership,
    result: Result<Option<Membership>, MembershipError>,
) -> bool {
    match result {
        Err(e) => fails(r, membership_error_view(e)),
        Ok(None) => fails(r, ErrorView::NotFound),
        Ok(Some(m)) => gives(
            r,
            200,
            m.updated_at.millis,
            Some(
                entry(
                    caller.audit_context(Some(org), request_id),
                    membership_action(
                        current.role,
                        current.is_principal,
                        m.role,
                        m.is_principal,
                    ),
                    "membership"@,
                    current.id,
                    seq![
                        within("before"@, "role"@, FactView::Text(current.role.name())),
                        within(
                            "before"@,
                            "instrumentIds"@,
                            FactView::Ids(current.instrument_ids@),
                        ),
                        within("before"@, "isPrincipal"@, FactView::Flag(current.is_principal)),
                        within(
                            "before"@,
                            "principalInstrumentIds"@,
                            FactView::Ids(current.principal_instrument_ids@),
                        ),
                        within("after"@, "role"@, FactView::Text(m.role.name())),
                        within("after"@, "instrumentIds"@, FactView::Ids(m.instrument_ids@)),
                        within("after"@, "isPrincipal"@, FactView::Flag(m.is_principal)),
                        within(
                            "after"@,
                            "principalInstrumentIds"@,
                            FactView::Ids(m.principal_instrument_ids@),
                        ),
                    ],
                ),
            ),
            m,
        ),
    }
}

/// How changing the membership `current` ended. `Ok(None)` where it was gone by
/// then.
pub fn member_updated(
    caller: &Caller,
    org: Uuid,
    request_id: Uuid,
    current: &Membership,
    result: Result<Option<Membership>, MembershipError>,
) -> (r: Result<Answer<Membership>, AppError>)
    ensures
        member_updated_outcome(r, *caller, org, request_id, *current, result),
{
    match result {
        Err(e) => Err(membership_error_to_app_error(e)),
        Ok(None) => Err(AppError::NotFound),
        Ok(Some(m)) => {
            let e: AuditEntry = AuditEntry::new(
                caller.audit_ctx(Some(org), request_id),
                update_action(current.role, current.is_principal, m.role, m.is_principal),
                "membership",
                current.id,
            ).with_in("before", "role", text(current.role.as_str())).with_in(
                "before",
                "instrumentIds",
                ids(&current.instrument_ids),
            ).with_in("before", "isPrincipal", Fact::Flag(current.is_principal)).with_in(
                "before",
                "principalInstrumentIds",
                ids(&current.principal_instrument_ids),
            ).with_in("after", "role", text(m.role.as_str())).with_in(
                "after",
                "instrumentIds",
                ids(&m.instrument_ids),
            ).with_in("after", "isPrincipal", Fact::Flag(m.is_principal)).with_in(
                "after",
                "principalInstrumentIds",
                ids(&m.principal_instrument_ids),
            );
            etag_response_status(200, m.updated_at.millis, Some(e), m)
        },
    }
}

/// Whether `r` is what [`member_deleted`] owes its caller.
pub open spec fn member_deleted_outcome(
    r: Result<Answer<()>, AppError>,
    caller: Caller,
    org: Uuid,
    request_id: Uuid,
    current: Membership,
    result: Result<(), MembershipError>,
) -> bool {
    match result {
        Err(e) => fails(r, membership_error_view(e)),
        Ok(()) => removal(
            r,
            Some(true),
            entry(
                caller.audit_context(Some(org), request_id),
                "membership.delete"@,
                "membership"@,
                current.id,
                seq![
                    detail("userId"@, FactView::Id(current.user_id)),
                    detail("role"@, FactView::Text(current.role.name())),
                ],
            ),
        ),
    }
}

/// How removing the member `current` ended; the database does not say whether
/// the row was still there.
pub fn member_deleted(
    caller: &Caller,
    org: Uuid,
    request_id: Uuid,
    current: &Membership,
    result: Result<(), MembershipError>,
) -> (r: Result<Answer<()>, AppError>)
    ensures
        member_deleted_outcome(r, *caller, org, request_id, *current, result),
{
    match result {
        Err(e) => Err(membership_error_to_app_error(e)),
        Ok(()) => finish_removal(
            Some(true),
            AuditEntry::new(
                caller.audit_ctx(Some(org), request_id),
                "membership.delete",
                "membership",
                current.id,
            ).with("userId", Fact::Id(current.user_id)).with("role", text(current.role.as_str())),
        ),
    }
}

/// System admins create organizations under names that are not blank.
pub proof fn the_interface_lets_admins_create_organizations(
    r: Result<(), AppError>,
    caller: Caller,
    name: &str,
)
    requires
        plan_create_org_outcome(r, caller, name),
    ensures
        r is Ok <==> caller.is_system_admin && trimmed(name@).len() > 0,
        !caller.is_system_admin ==> r->Err_0@.status() == 403,
        caller.is_system_admin && r is Err ==> r->Err_0@.status() == 400,
{
}

/// Creating an organization is answered with it and its tag, and is on record
/// with its name and slug.
pub proof fn the_interface_records_a_new_organization(
    r: Result<Answer<Organization>, AppError>,
    caller: Caller,
    request_id: Uuid,
    result: Result<Organization, OrganizationError>,
)
    requires
        org_created_outcome(r, caller, request_id, result),
    ensures
        result matches Ok(o) ==> r is Ok && {
            &&& r->Ok_0.status == 201
            &&& r->Ok_0.names(
                caller.user_id,
                Some(o.id),
                request_id,
                "organization.create"@,
                o.id,
            )
            &&& r->Ok_0.tells("name"@, FactView::Text(o.name@))
            &&& r->Ok_0.tells("slug"@, FactView::Text(o.slug@))
            &&& r->Ok_0.body == o
            &&& r->Ok_0.is_tagged(o.updated_at)
        },
        result is Err ==> r is Err,
        result matches Err(OrganizationError::DuplicateSlug) ==> r->Err_0@.status() == 409,
{
    broadcast use vstd::seq_lib::group_seq_properties;

}

/// An organization is read as it is and with its tag.
pub proof fn an_organization_is_read_as_it_is(
    r: Result<Answer<Organization>, AppError>,
    found: Lookup<Organization>,
)
    requires
        get_org_outcome(r, found),
    ensures
        r is Ok ==> found == Lookup::Found(r->Ok_0.body),
        r is Ok ==> r->Ok_0.status == 200 && r->Ok_0.is_tagged(r->Ok_0.body.updated_at)
            && r->Ok_0.audit is None,
        (found matches Lookup::Found(x)) ==> r is Ok,
        found is Missing ==> r is Err && (r->Err_0@.status() == 404 || r->Err_0@.status() == 500),
{
}

/// System admins change organizations, at the version that the change was made
/// for.
pub proof fn admins_rename_organizations(
    r: Result<Organization, AppError>,
    caller: Caller,
    found: Lookup<Organization>,
    if_match: Option<&str>,
)
    requires
        plan_update_org_outcome(r, caller, found, if_match),
    ensures
        r is Ok ==> caller.is_system_admin && found == Lookup::Found(r->Ok_0)
            && is_for(if_match, r->Ok_0.updated_at),
        caller.is_system_admin && (found matches Lookup::Found(o) && is_for(if_match, o.updated_at))
            ==> r is Ok,
        caller.is_system_admin && (found matches Lookup::Found(o)
            && !is_for(if_match, o.updated_at)) ==> r is Err
            && r->Err_0@.status() == 412,
        !caller.is_system_admin ==> r is Err && r->Err_0@.status() == 403,
{
}

/// Renaming an organization is answered with it and its tag, and is on record
/// with both names.
pub proof fn the_interface_records_a_renamed_organization(
    r: Result<Answer<Organization>, AppError>,
    caller: Caller,
    request_id: Uuid,
    current: Organization,
    result: Option<Option<Organization>>,
)
    requires
        org_updated_outcome(r, caller, request_id, current, result),
    ensures
        result matches Some(Some(o)) ==> r is Ok && {
            &&& r->Ok_0.status == 200
            &&& r->Ok_0.names(
                caller.user_id,
                Some(current.id),
                request_id,
                "organization.update"@,
                current.id,
            )
            &&& r->Ok_0.tells_in("before"@, "name"@, FactView::Text(current.name@))
            &&& r->Ok_0.tells_in("after"@, "name"@, FactView::Text(o.name@))
            &&& r->Ok_0.body == o
            &&& r->Ok_0.is_tagged(o.updated_at)
        },
        result is None || result->0 is None ==> r is Err,
{
    broadcast use vstd::seq_lib::group_seq_properties;

}

/// System admins delete organizations, at the version that the request was made
/// for; it is on record with the name and the slug.
pub proof fn a_deleted_organization_is_recorded_before_it_goes(
    r: Result<AuditEntry, AppError>,
    caller: Caller,
    request_id: Uuid,
    found: Lookup<Organization>,
    if_match: Option<&str>,
)
    requires
        plan_delete_org_outcome(r, caller, request_id, found, if_match),
    ensures
        r is Ok ==> caller.is_system_admin && (found matches Lookup::Found(o)
            && is_for(if_match, o.updated_at)
            && r->Ok_0.names(caller.user_id, Some(o.id), request_id, "organization.delete"@, o.id)
            && r->Ok_0.tells("name"@, FactView::Text(o.name@)) && r->Ok_0.tells(
            "slug"@,
            FactView::Text(o.slug@),
        )),
        caller.is_system_admin && (found matches Lookup::Found(o) && is_for(if_match, o.updated_at))
            ==> r is Ok,
        !caller.is_system_admin ==> r is Err && r->Err_0@.status() == 403,
{
    broadcast use vstd::seq_lib::group_seq_properties;

}

/// Deleting an organization succeeds exactly where it took place.
pub proof fn a_gone_organization_is_reported(r: Result<u16, AppError>, result: Option<bool>)
    requires
        org_deleted_outcome(r, result),
    ensures
        r is Ok <==> result == Some(true),
        r is Ok ==> r->Ok_0 == 204,
        result == Some(false) ==> r->Err_0@.status() == 404,
{
}

/// System admins list users, narrowed to the name that was asked for.
pub proof fn admins_list_users(
    r: Result<Option<String>, AppError>,
    caller: Caller,
    filters: Vec<(String, String)>,
)
    requires
        plan_list_users_outcome(r, caller, filters),
    ensures
        r is Ok <==> caller.is_system_admin,
        forall|i: int| #[trigger]
            comes_first(filters@, "username"@, i) && r is Ok ==> text_of(r->Ok_0) == Some(
                filters@[i].1@,
            ),
        filters@.len() == 0 && r is Ok ==> r->Ok_0 is None,
{
    the_earliest_value_counts(filters@, "username"@);
}

/// A list of organizations is narrowed to the name that was asked for.
pub proof fn organizations_are_narrowed_to_a_name(r: Option<String>, filters: Vec<(String, String)>)
    requires
        plan_list_orgs_outcome(r, filters),
    ensures
        forall|i: int| #[trigger]
            comes_first(filters@, "name"@, i) ==> text_of(r) == Some(filters@[i].1@),
        filters@.len() == 0 ==> r is None,
{
    the_earliest_value_counts(filters@, "name"@);
}

/// Members list the members of their organization, narrowed to the role that was
/// asked for.
pub proof fn members_are_narrowed_to_a_role(
    r: Result<Option<String>, AppError>,
    standing: Standing,
    filters: Vec<(String, String)>,
)
    requires
        plan_list_members_outcome(r, standing, filters),
    ensures
        r is Ok <==> is_member(standing),
        forall|i: int| #[trigger]
            comes_first(filters@, "role"@, i) && r is Ok
                ==> text_of(r->Ok_0) == Some(filters@[i].1@),
        filters@.len() == 0 && r is Ok ==> r->Ok_0 is None,
{
    each_role_may_do_its_part(standing);
    the_earliest_value_counts(filters@, "role"@);
}

/// System admins create users with a name that is not blank and a password; each
/// of the two that is missing is complained about.
pub proof fn a_user_needs_a_name_and_a_password(
    r: Result<(), AppError>,
    caller: Caller,
    username: &str,
    password: &str,
)
    requires
        plan_create_user_outcome(r, caller, username, password),
    ensures
        r is Ok <==> caller.is_system_admin && trimmed(username@).len() > 0 && password@.len() > 0,
        !caller.is_system_admin ==> r->Err_0@.status() == 403,
        caller.is_system_admin && r is Err ==> (r->Err_0@ matches ErrorView::Validation(v)
            && (v.contains(
            ("username"@, "username must not be empty"@),
        ) <==> trimmed(username@).len() == 0) && (v.contains(
            ("password"@, "password must not be empty"@),
        ) <==> password@.len() == 0)),
{
    reveal_strlit("username");
    reveal_strlit("password");
    assert("username"@[0] != "password"@[0]);
    let v = user_complaints(username@, password@);
    if trimmed(username@).len() == 0 {
        assert(v[0] == ("username"@, "username must not be empty"@));
    }
    if password@.len() == 0 {
        assert(v.last() == ("password"@, "password must not be empty"@));
    }
}

/// Creating a user is answered with them and their tag, and is on record with
/// their name, their slug and whether they administer the system.
pub proof fn the_interface_records_a_new_user(
    r: Result<Answer<User>, AppError>,
    caller: Caller,
    request_id: Uuid,
    result: Result<User, UserError>,
)
    requires
        user_created_outcome(r, caller, request_id, result),
    ensures
        result matches Ok(u) ==> r is Ok && {
            &&& r->Ok_0.status == 201
            &&& r->Ok_0.names(
                caller.user_id,
                None,
                request_id,
                "user.create"@,
                u.id,
            )
            &&& r->Ok_0.tells("username"@, FactView::Text(u.username@))
            &&& r->Ok_0.tells("slug"@, FactView::Text(u.slug@))
            &&& r->Ok_0.tells("isSystemAdmin"@, FactView::Flag(u.is_system_admin))
            &&& r->Ok_0.body == u
            &&& r->Ok_0.is_tagged(u.updated_at)
        },
        result is Err ==> r is Err,
        result matches Err(UserError::DuplicateUsername) ==> r->Err_0@.status() == 409,
{
    broadcast use vstd::seq_lib::group_seq_properties;

}

/// System admins read users, as they are and with their tag, and nobody else does.
pub proof fn admins_read_a_user(
    r: Result<Answer<User>, AppError>,
    caller: Caller,
    found: Lookup<User>,
)
    requires
        get_user_outcome(r, caller, found),
    ensures
        r is Ok ==> caller.is_system_admin && found == Lookup::Found(r->Ok_0.body),
        r is Ok ==> r->Ok_0.status == 200 && r->Ok_0.is_tagged(r->Ok_0.body.updated_at)
            && r->Ok_0.audit is None,
        caller.is_system_admin && (found matches Lookup::Found(x)) ==> r is Ok,
        caller.is_system_admin && found is Missing ==> r is Err && (r->Err_0@.status() == 404
            || r->Err_0@.status() == 500),
        !caller.is_system_admin ==> r is Err && (r->Err_0@.status() == 403
            || r->Err_0@.status() == 500),
{
}

/// System admins delete users, at the version that the request was made for.
pub proof fn admins_delete_users(
    r: Result<User, AppError>,
    caller: Caller,
    found: Lookup<User>,
    if_match: Option<&str>,
)
    requires
        plan_delete_user_outcome(r, caller, found, if_match),
    ensures
        r is Ok ==> caller.is_system_admin && found == Lookup::Found(r->Ok_0)
            && is_for(if_match, r->Ok_0.updated_at),
        caller.is_system_admin && (found matches Lookup::Found(u) && is_for(if_match, u.updated_at))
            ==> r is Ok,
        caller.is_system_admin && (found matches Lookup::Found(u)
            && !is_for(if_match, u.updated_at)) ==> r is Err
            && r->Err_0@.status() == 412,
        !caller.is_system_admin ==> r is Err && r->Err_0@.status() == 403,
{
}

/// Deleting a user is on record, with the name and the slug they had, exactly
/// where it took place; one who is still referred to stays.
pub proof fn the_interface_records_a_deleted_user(
    r: Result<Answer<()>, AppError>,
    caller: Caller,
    request_id: Uuid,
    current: User,
    result: Result<bool, DeleteError>,
)
    requires
        user_deleted_outcome(r, caller, request_id, current, result),
    ensures
        result == Ok::<bool, DeleteError>(true) ==> r is Ok && {
            &&& r->Ok_0.status == 204
            &&& r->Ok_0.names(
                caller.user_id,
                None,
                request_id,
                "user.delete"@,
                current.id,
            )
            &&& r->Ok_0.tells("username"@, FactView::Text(current.username@))
            &&& r->Ok_0.tells("slug"@, FactView::Text(current.slug@))
            &&& r->Ok_0.etag is None
        },
        r is Ok <==> result == Ok::<bool, DeleteError>(true),
        result == Ok::<bool, DeleteError>(false) ==> r->Err_0@.status() == 404,
        result matches Err(DeleteError::Referenced) ==> r->Err_0@.status() == 409,
{
    broadcast use vstd::seq_lib::group_seq_properties;

}

/// Owners add members in the role, with the instruments and in the standing that
/// were sent; what was not said counts as nothing.
pub proof fn a_member_is_added_as_was_sent(
    r: Result<MembershipFields, AppError>,
    standing: Standing,
    body: MemberRequest,
)
    requires
        plan_create_member_outcome(r, standing, body),
    ensures
        r is Ok ==> keeps_roster(standing),
        r is Ok ==> r->Ok_0.role.name() == body.role@,
        forall|role: Role|
            keeps_roster(standing) && body.role@ == #[trigger] role.name() ==> r is Ok,
        r is Ok && body.instrument_ids is Some
            ==> r->Ok_0.instrument_ids@ == body.instrument_ids->0@,
        r is Ok && body.instrument_ids is None ==> r->Ok_0.instrument_ids@.len() == 0,
        r is Ok && body.principal_instrument_ids is Some ==> r->Ok_0.principal_instrument_ids@
            == body.principal_instrument_ids->0@,
        r is Ok && body.principal_instrument_ids is None
            ==> r->Ok_0.principal_instrument_ids@.len() == 0,
        r is Ok ==> (r->Ok_0.is_principal <==> body.is_principal == Some(true)),
        !keeps_roster(standing) ==> r is Err && (r->Err_0@.status() == 403
            || r->Err_0@.status() == 500),
{
    each_role_may_do_its_part(standing);
    assert forall|a: Role, b: Role| #[trigger] a.name() == #[trigger] b.name() implies a == b by {
        role_names_are_distinct(a, b);
    }
}

/// Owners change members of the organization to the role, the instruments and the
/// standing that were sent, at the version that the change was made for; what was
/// not said stays.
pub proof fn a_member_is_changed_as_was_sent(
    r: Result<(Membership, MembershipFields), AppError>,
    standing: Standing,
    found: Lookup<Membership>,
    org: Uuid,
    if_match: Option<&str>,
    body: MemberRequest,
)
    requires
        plan_update_member_outcome(r, standing, found, org, if_match, body),
    ensures
        r is Ok ==> {
            let (m, f) = r->Ok_0;
            &&& keeps_roster(standing)
            &&& found == Lookup::Found(m) && m.organization_id == org
            &&& is_for(if_match, m.updated_at)
            &&& f.role.name() == body.role@
            &&& body.instrument_ids is Some ==> f.instrument_ids@ == body.instrument_ids->0@
            &&& body.instrument_ids is None ==> f.instrument_ids@ == m.instrument_ids@
            &&& body.is_principal is Some ==> f.is_principal == body.is_principal->0
            &&& body.is_principal is None ==> f.is_principal == m.is_principal
            &&& body.principal_instrument_ids is Some ==> f.principal_instrument_ids@
                == body.principal_instrument_ids->0@
            &&& body.principal_instrument_ids is None ==> f.principal_instrument_ids@
                == m.principal_instrument_ids@
        },
        forall|role: Role|
            keeps_roster(standing) && (found matches Lookup::Found(m) && m.organization_id == org
                && is_for(if_match, m.updated_at)) && body.role@ == #[trigger] role.name()
                ==> r is Ok,
        keeps_roster(standing) && (found matches Lookup::Found(m) && m.organization_id == org
            && !is_for(
            if_match,
            m.updated_at,
        )) ==> r is Err && r->Err_0@.status() == 412,
        keeps_roster(standing) && (found matches Lookup::Found(m) && m.organization_id != org)
            ==> r is Err
            && r->Err_0@.status() == 404,
{
    each_role_may_do_its_part(standing);
    assert forall|a: Role, b: Role| #[trigger] a.name() == #[trigger] b.name() implies a == b by {
        role_names_are_distinct(a, b);
    }
}

/// Adding a member is answered with the membership and its tag, and is on record
/// with all that it says.
pub proof fn the_interface_records_a_new_member(
    r: Result<Answer<Membership>, AppError>,
    caller: Caller,
    org: Uuid,
    request_id: Uuid,
    result: Result<Membership, MembershipError>,
)
    requires
        member_created_outcome(r, caller, org, request_id, result),
    ensures
        result matches Ok(m) ==> r is Ok && {
            &&& r->Ok_0.status == 201
            &&& r->Ok_0.names(
                caller.user_id,
                Some(org),
                request_id,
                "membership.create"@,
                m.id,
            )
            &&& r->Ok_0.tells("userId"@, FactView::Id(m.user_id))
            &&& r->Ok_0.tells("role"@, FactView::Text(m.role.name()))
            &&& r->Ok_0.tells("instrumentIds"@, FactView::Ids(m.instrument_ids@))
            &&& r->Ok_0.tells("isPrincipal"@, FactView::Flag(m.is_principal))
            &&& r->Ok_0.tells("principalInstrumentIds"@, FactView::Ids(m.principal_instrument_ids@))
            &&& r->Ok_0.body == m
            &&& r->Ok_0.is_tagged(m.updated_at)
        },
        result is Err ==> r is Err,
        result matches Err(MembershipError::Duplicate) ==> r->Err_0@.status() == 409,
{
    broadcast use vstd::seq_lib::group_seq_properties;

}

/// Changing a member is answered with the membership and its tag, and is on
/// record with all that it said and all that it says now. A change of role goes by
/// that name, and one of the principal flag alone by its own.
pub proof fn the_interface_records_a_changed_member(
    r: Result<Answer<Membership>, AppError>,
    caller: Caller,
    org: Uuid,
    request_id: Uuid,
    current: Membership,
    result: Result<Option<Membership>, MembershipError>,
)
    requires
        member_updated_outcome(r, caller, org, request_id, current, result),
    ensures
        result matches Ok(Some(m)) ==> r is Ok && {
            &&& r->Ok_0.status == 200
            &&& r->Ok_0.names(
                caller.user_id,
                Some(org),
                request_id,
                if m.role != current.role {
                    "membership.role_change"@
                } else if m.is_principal != current.is_principal {
                    "membership.principal_change"@
                } else {
                    "membership.update"@
                },
                current.id,
            )
            &&& r->Ok_0.tells_in("before"@, "role"@, FactView::Text(current.role.name()))
            &&& r->Ok_0.tells_in("before"@, "instrumentIds"@, FactView::Ids(current.instrument_ids@))
            &&& r->Ok_0.tells_in("before"@, "isPrincipal"@, FactView::Flag(current.is_principal))
            &&& r->Ok_0.tells_in("before"@, "principalInstrumentIds"@, FactView::Ids(current.principal_instrument_ids@))
            &&& r->Ok_0.tells_in("after"@, "role"@, FactView::Text(m.role.name()))
            &&& r->Ok_0.tells_in("after"@, "instrumentIds"@, FactView::Ids(m.instrument_ids@))
            &&& r->Ok_0.tells_in("after"@, "isPrincipal"@, FactView::Flag(m.is_principal))
            &&& r->Ok_0.tells_in("after"@, "principalInstrumentIds"@, FactView::Ids(m.principal_instrument_ids@))
            &&& r->Ok_0.body == m
            &&& r->Ok_0.is_tagged(m.updated_at)
        },
        result is Err || result->Ok_0 is None ==> r is Err,
        result matches Err(MembershipError::LastOwner) ==> r->Err_0@.status() == 409,
{
    broadcast use vstd::seq_lib::group_seq_properties;

}

/// Members read the memberships of their organization, and no others.
pub proof fn members_read_a_member(
    r: Result<Answer<Membership>, AppError>,
    standing: Standing,
    found: Lookup<Membership>,
    org: Uuid,
)
    requires
        get_member_outcome(r, standing, found, org),
    ensures
        r is Ok ==> is_member(standing) && found == Lookup::Found(r->Ok_0.body)
            && r->Ok_0.body.organization_id == org,
        r is Ok ==> r->Ok_0.status == 200 && r->Ok_0.is_tagged(r->Ok_0.body.updated_at)
            && r->Ok_0.audit is None,
        is_member(standing) && (found matches Lookup::Found(x) && x.organization_id == org)
            ==> r is Ok,
        is_member(standing) && found is Missing ==> r is Err && (r->Err_0@.status() == 404
            || r->Err_0@.status() == 500),
        is_member(standing) && (found matches Lookup::Found(x) && !(x.organization_id == org))
            ==> r is Err,
        !is_member(standing) ==> r is Err && (r->Err_0@.status() == 403
            || r->Err_0@.status() == 500),
{
    each_role_may_do_its_part(standing);
}

/// Owners remove members of the organization, at the version that the request was
/// made for.
pub proof fn a_member_is_opened_for_removal(
    r: Result<Membership, AppError>,
    standing: Standing,
    found: Lookup<Membership>,
    org: Uuid,
    if_match: Option<&str>,
)
    requires
        plan_delete_member_outcome(r, standing, found, org, if_match),
    ensures
        r is Ok ==> keeps_roster(standing) && found == Lookup::Found(r->Ok_0)
            && r->Ok_0.organization_id == org && is_for(if_match, r->Ok_0.updated_at),
        keeps_roster(standing) && (found matches Lookup::Found(x) && x.organization_id == org
            && is_for(if_match, x.updated_at)) ==> r is Ok,
        !keeps_roster(standing) ==> r is Err && (r->Err_0@.status() == 403
            || r->Err_0@.status() == 500),
        keeps_roster(standing) && (found matches Lookup::Found(x) && x.organization_id == org
            && !is_for(if_match, x.updated_at)) ==> r is Err
            && r->Err_0@.status() == 412,
{
    each_role_may_do_its_part(standing);
}

/// Removing a member is on record, with the account and the role they had,
/// exactly where it took place; the last owner stays.
pub proof fn the_interface_records_a_removed_member(
    r: Result<Answer<()>, AppError>,
    caller: Caller,
    org: Uuid,
    request_id: Uuid,
    current: Membership,
    result: Result<(), MembershipError>,
)
    requires
        member_deleted_outcome(r, caller, org, request_id, current, result),
    ensures
        result is Ok ==> r is Ok && {
            &&& r->Ok_0.status == 204
            &&& r->Ok_0.names(
                caller.user_id,
                Some(org),
                request_id,
                "membership.delete"@,
                current.id,
            )
            &&& r->Ok_0.tells("userId"@, FactView::Id(current.user_id))
            &&& r->Ok_0.tells("role"@, FactView::Text(current.role.name()))
            &&& r->Ok_0.etag is None
        },
        r is Ok <==> result is Ok,
        result matches Err(MembershipError::LastOwner) ==> r->Err_0@.status() == 409,
{
    broadcast use vstd::seq_lib::group_seq_properties;

}

/// A second membership and the loss of the last owner are conflicts, a wrong
/// choice of instruments is the caller's mistake, and a failing database is an
/// error of ours.
pub proof fn refused_memberships_are_answered_in_kind(err: MembershipError)
    ensures
        membership_error_view(err).status() == (match err {
            MembershipError::Duplicate => 409u16,
            MembershipError::LastOwner => 409u16,
            MembershipError::UnknownInstrument => 400u16,
            MembershipError::PrincipalNotSubset => 400u16,
            MembershipError::Database => 500u16,
        }),
{
}

/// A role is read by its own name, and anything else is no role.
pub proof fn a_role_goes_by_its_name(r: Result<Role, AppError>, raw: &str)
    requires
        parse_role_or_validation_error_outcome(r, raw),
    ensures
        forall|role: Role| raw@ == #[trigger] role.name() ==> r == Ok::<Role, AppError>(role),
        r is Ok ==> r->Ok_0.name() == raw@,
        r is Err ==> r->Err_0@.status() == 400,
{
    assert forall|a: Role, b: Role| #[trigger] a.name() == #[trigger] b.name() implies a == b by {
        role_names_are_distinct(a, b);
    }
}

/// What does not exist is told from what could not be looked up.
pub proof fn get_org_tells_absence_from_failure(
    r: Result<Answer<Organization>, AppError>,
    found: Lookup<Organization>,
)
    requires
        get_org_outcome(r, found),
    ensures
        found is Missing ==> r is Err && r->Err_0@.status() == 404,
        found is Failed ==> r is Err && r->Err_0@.status() == 500,
{
}

/// What does not exist is told from what could not be looked up.
pub proof fn plan_update_org_tells_absence_from_failure(
    r: Result<Organization, AppError>,
    caller: Caller,
    found: Lookup<Organization>,
    if_match: Option<&str>,
)
    requires
        plan_update_org_outcome(r, caller, found, if_match),
    ensures
        caller.is_system_admin && found is Missing ==> r is Err && r->Err_0@.status() == 404,
        caller.is_system_admin && found is Failed ==> r is Err && r->Err_0@.status() == 500,
{
}

/// What does not exist is told from what could not be looked up.
pub proof fn plan_delete_org_tells_absence_from_failure(
    r: Result<AuditEntry, AppError>,
    caller: Caller,
    request_id: Uuid,
    found: Lookup<Organization>,
    if_match: Option<&str>,
)
    requires
        plan_delete_org_outcome(r, caller, request_id, found, if_match),
    ensures
        caller.is_system_admin && found is Missing ==> r is Err && r->Err_0@.status() == 404,
        caller.is_system_admin && found is Failed ==> r is Err && r->Err_0@.status() == 500,
{
}

/// What does not exist is told from what could not be looked up.
pub proof fn get_user_tells_absence_from_failure(
    r: Result<Answer<User>, AppError>,
    caller: Caller,
    found: Lookup<User>,
)
    requires
        get_user_outcome(r, caller, found),
    ensures
        caller.is_system_admin && found is Missing ==> r is Err && r->Err_0@.status() == 404,
        caller.is_system_admin && found is Failed ==> r is Err && r->Err_0@.status() == 500,
{
}

/// What does not exist is told from what could not be looked up.
pub proof fn plan_delete_user_tells_absence_from_failure(
    r: Result<User, AppError>,
    caller: Caller,
    found: Lookup<User>,
    if_match: Option<&str>,
)
    requires
        plan_delete_user_outcome(r, caller, found, if_match),
    ensures
        caller.is_system_admin && found is Missing ==> r is Err && r->Err_0@.status() == 404,
        caller.is_system_admin && found is Failed ==> r is Err && r->Err_0@.status() == 500,
{
}

/// What does not exist is told from what could not be looked up.
pub proof fn get_member_tells_absence_from_failure(
    r: Result<Answer<Membership>, AppError>,
    standing: Standing,
    found: Lookup<Membership>,
    org: Uuid,
)
    requires
        get_member_outcome(r, standing, found, org),
    ensures
        is_member(standing) && found is Missing ==> r is Err && r->Err_0@.status() == 404,
        is_member(standing) && found is Failed ==> r is Err && r->Err_0@.status() == 500,
{
    each_role_may_do_its_part(standing);
}

/// What does not exist is told from what could not be looked up.
pub proof fn plan_delete_member_tells_absence_from_failure(
    r: Result<Membership, AppError>,
    standing: Standing,
    found: Lookup<Membership>,
    org: Uuid,
    if_match: Option<&str>,
)
    requires
        plan_delete_member_outcome(r, standing, found, org, if_match),
    ensures
        keeps_roster(standing) && found is Missing ==> r is Err && r->Err_0@.status() == 404,
        keeps_roster(standing) && found is Failed ==> r is Err && r->Err_0@.status() == 500,
{
    each_role_may_do_its_part(standing);
}

/// What does not exist is told from what could not be looked up.
pub proof fn plan_update_member_tells_absence_from_failure(
    r: Result<(Membership, MembershipFields), AppError>,
    standing: Standing,
    found: Lookup<Membership>,
    org: Uuid,
    if_match: Option<&str>,
    body: MemberRequest,
)
    requires
        plan_update_member_outcome(r, standing, found, org, if_match, body),
    ensures
        keeps_roster(standing) && found is Missing ==> r is Err && r->Err_0@.status() == 404,
        keeps_roster(standing) && found is Failed ==> r is Err && r->Err_0@.status() == 500,
{
    each_role_may_do_its_part(standing);
}

/// What was refused is answered by the error that fits, and what was gone by then
/// as missing.
pub proof fn member_created_answers_a_refusal_in_kind(
    r: Result<Answer<Membership>, AppError>,
    caller: Caller,
    org: Uuid,
    request_id: Uuid,
    result: Result<Membership, MembershipError>,
)
    requires
        member_created_outcome(r, caller, org, request_id, result),
    ensures
        result matches Err(e) ==> r is Err && r->Err_0@ == membership_error_view(e),
{
}

/// What was refused is answered by the error that fits, and what was gone by then
/// as missing.
pub proof fn member_updated_answers_a_refusal_in_kind(
    r: Result<Answer<Membership>, AppError>,
    caller: Caller,
    org: Uuid,
    request_id: Uuid,
    current: Membership,
    result: Result<Option<Membership>, MembershipError>,
)
    requires
        member_updated_outcome(r, caller, org, request_id, current, result),
    ensures
        result matches Err(e) ==> r is Err && r->Err_0@ == membership_error_view(e),
        result is Ok && result->Ok_0 is None ==> r is Err && r->Err_0@.status() == 404,
{
}

/// What was refused is answered by the error that fits, and what was gone by then
/// as missing.
pub proof fn member_deleted_answers_a_refusal_in_kind(
    r: Result<Answer<()>, AppError>,
    caller: Caller,
    org: Uuid,
    request_id: Uuid,
    current: Membership,
    result: Result<(), MembershipError>,
)
    requires
        member_deleted_outcome(r, caller, org, request_id, current, result),
    ensures
        result matches Err(e) ==> r is Err && r->Err_0@ == membership_error_view(e),
{
}

/// What was refused is answered by the error that fits, and what was gone by then
/// as missing.
pub proof fn org_updated_answers_a_refusal_in_kind(
    r: Result<Answer<Organization>, AppError>,
    caller: Caller,
    request_id: Uuid,
    current: Organization,
    result: Option<Option<Organization>>,
)
    requires
        org_updated_outcome(r, caller, request_id, current, result),
    ensures
        result is None ==> r is Err && r->Err_0@.status() == 500,
        result is Some && result->0 is None ==> r is Err && r->Err_0@.status() == 404,
{
}

} // verus!
