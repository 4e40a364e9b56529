//! The console's member screens: who is in an organization, in which role, with
//! which instruments.

use vstd::prelude::*;
use crate::audit::{detail, entry, text, AuditEntry, Fact, FactView};
use crate::console::{ConsoleCtx, Section};
use crate::form::{
    all_ids, all_values, collected_values_were_submitted, comes_first, field, first_value, first_value_was_submitted, multi,
    parse_ids, the_earliest_value_counts,
};
use crate::id::{read_uuid, uuid_text, Uuid};
use crate::instruments::{
    an_instrument_goes_by_its_name, chosen_instruments_are_ticked, is_first_with, instrument_name, instrument_picker, is_picker, name_of, FamilyGroup,
};
use crate::listing::{check_if_match, etag, names_version, str_of};
use crate::model::{Instrument, Lookup, Membership, User};
use crate::number::int_text;
use crate::reply::{
    error_at, goes_to, refused, require_found, row_found, Done, Reply, ReplyView,
};
use crate::role::{role_names_are_distinct, Role};
use crate::text::{blank_to_none, entered, text_of, trimmed};
use crate::urls::{list_path, list_url, row_path, row_url};

verus! {

/// An error page of the members section.
pub open spec fn mem_error(status: u16, message: Seq<char>) -> ReplyView {
    error_at(Section::Members, status, message)
}

/// An error page of the members section.
pub fn error_page(status: u16, message: &str) -> (r: Reply)
    ensures
        r@ == mem_error(status, message@),
{
    Reply::error_page(Section::Members, status, message)
}

/// The membership, unless it belongs to another organization.
pub open spec fn membership_in_org(found: Lookup<Membership>, org: Uuid) -> Lookup<Membership> {
    match found {
        Lookup::Found(m) => if m.organization_id == org {
            found
        } else {
            Lookup::Missing
        },
        _ => found,
    }
}

/// The membership, unless it belongs to another organization.
pub fn scoped_membership(found: Lookup<Membership>, org: Uuid) -> (r: Lookup<Membership>)
    ensures
        r == membership_in_org(found, org),
{
    match found {
        Lookup::Found(m) => {
            if m.organization_id == org {
                Lookup::Found(m)
            } else {
                Lookup::Missing
            }
        },
        Lookup::Missing => Lookup::Missing,
        Lookup::Failed => Lookup::Failed,
    }
}

/// Whether `r` is what comes of opening a member.
pub open spec fn member_opened(
    r: Result<Membership, Reply>,
    ctx: ConsoleCtx,
    found: Lookup<Membership>,
) -> bool {
    if !ctx.access_of().manages_members() {
        refused(r, ReplyView::SectionForbidden)
    } else {
        row_found(
            r,
            membership_in_org(found, ctx.org_of().id),
            Section::Members,
            "Member not found."@,
        )
    }
}

/// Opens a member of the organization.
pub fn open_member(ctx: &ConsoleCtx, found: Lookup<Membership>) -> (r: Result<Membership, Reply>)
    ensures
        member_opened(r, *ctx, found),
{
    if !ctx.can_manage_members() {
        return Err(Reply::SectionForbidden);
    }
    require_found(
        scoped_membership(found, ctx.org().id),
        Section::Members,
        "Member not found.",
    )
}

/// The role that a form names, if it names one.
pub open spec fn named_role(raw: Option<Seq<char>>) -> Option<Role> {
    match raw {
        Some(t) => if t == Role::Owner.name() {
            Some(Role::Owner)
        } else if t == Role::Archivist.name() {
            Some(Role::Archivist)
        } else if t == Role::Conductor.name() {
            Some(Role::Conductor)
        } else if t == Role::Musician.name() {
            Some(Role::Musician)
        } else {
            None
        },
        None => None,
    }
}

/// The role that a form names, if it names one.
pub fn read_role(raw: Option<&str>) -> (r: Option<Role>)
    ensures
        r == named_role(str_of(raw)),
{
    match raw {
        Some(t) => {
            let role: Option<Role> = Role::parse(t);
            proof {
                if role is Some {
                    role_names_are_distinct(role->0, Role::Owner);
                    role_names_are_distinct(role->0, Role::Archivist);
                    role_names_are_distinct(role->0, Role::Conductor);
                    role_names_are_distinct(role->0, Role::Musician);
                } else {
                    assert(t@ != Role::Owner.name());
                    assert(t@ != Role::Archivist.name());
                    assert(t@ != Role::Conductor.name());
                    assert(t@ != Role::Musician.name());
                }
            }
            role
        },
        None => None,
    }
}

/// A role as a choice.
pub struct RoleOption {
    pub value: &'static str,
    pub selected: bool,
}

/// Whether `r` is what [`role_select`] owes its caller.
pub open spec fn role_select_outcome(r: Vec<RoleOption>, current: Role) -> bool {
    &&& r@.len() == 4
    &&& r@[0].value@ == Role::Owner.name() && r@[0].selected == (current == Role::Owner)
    &&& r@[1].value@ == Role::Archivist.name() && r@[1].selected == (current == Role::Archivist)
    &&& r@[2].value@ == Role::Conductor.name() && r@[2].selected == (current == Role::Conductor)
    &&& r@[3].value@ == Role::Musician.name() && r@[3].selected == (current == Role::Musician)
}

/// The choice of a role, `current` selected.
pub fn role_select(current: Role) -> (r: Vec<RoleOption>)
    ensures
        role_select_outcome(r, current),
{
    let mut out: Vec<RoleOption> = Vec::new();
    out.push(RoleOption { value: Role::Owner.as_str(), selected: current == Role::Owner });
    out.push(RoleOption { value: Role::Archivist.as_str(), selected: current == Role::Archivist });
    out.push(RoleOption { value: Role::Conductor.as_str(), selected: current == Role::Conductor });
    out.push(RoleOption { value: Role::Musician.as_str(), selected: current == Role::Musician });
    out
}

/// The name that a member is shown by: their identifier, where their account
/// could not be had.
pub open spec fn shown_username(user: Option<User>, id: Uuid) -> Seq<char> {
    match user {
        Some(u) => u.username@,
        None => uuid_text(id),
    }
}

/// The name that a member is shown by.
pub fn username_of(user: &Option<User>, id: Uuid) -> (r: String)
    ensures
        r@ == shown_username(*user, id),
{
    match user {
        Some(u) => u.username.clone(),
        None => id.text(),
    }
}

/// A member in the list.
pub struct MemberRow {
    pub username: String,
    pub role: &'static str,
    pub instruments: Vec<String>,
    pub is_principal: bool,
    pub edit_href: String,
    pub remove_action: String,
}

/// Whether `row` shows the member `m`.
pub open spec fn shows_member(
    row: MemberRow,
    m: Membership,
    user: Option<User>,
    instruments: Seq<Instrument>,
    org: Uuid,
) -> bool {
    &&& row.username@ == shown_username(user, m.user_id)
    &&& row.role@ == m.role.name()
    &&& row.instruments@.len() == m.instrument_ids@.len()
    &&& forall|i: int|
        0 <= i < m.instrument_ids@.len() ==> (#[trigger] row.instruments@[i])@ == name_of(
            instruments,
            m.instrument_ids@[i],
        )
    &&& row.is_principal == m.is_principal
    &&& row.edit_href@ == row_url(org, "/members"@, m.id)
    &&& row.remove_action@ == row_url(org, "/members"@, m.id) + "/delete"@
}

fn member_row(
    m: &Membership,
    user: &Option<User>,
    instruments: &Vec<Instrument>,
    org: Uuid,
) -> (r: MemberRow)
    ensures
        shows_member(r, *m, *user, instruments@, org),
{
    let mut names: Vec<String> = Vec::new();
    let mut i: usize = 0;
    while i < m.instrument_ids.len()
        invariant
            i <= m.instrument_ids.len(),
            names@.len() == i,
            forall|k: int|
                0 <= k < i ==> (#[trigger] names@[k])@ == name_of(
                    instruments@,
                    m.instrument_ids@[k],
                ),
        decreases m.instrument_ids.len() - i,
    {
        names.push(instrument_name(instruments, m.instrument_ids[i]));
        i = i + 1;
    }
    MemberRow {
        username: username_of(user, m.user_id),
        role: m.role.as_str(),
        instruments: names,
        is_principal: m.is_principal,
        edit_href: row_path(org, "/members", m.id),
        remove_action: row_path(org, "/members", m.id).concat("/delete"),
    }
}

/// Whether `r` is what [`members_page`] owes its caller.
pub open spec fn members_page_outcome(
    r: Result<Vec<MemberRow>, Reply>,
    ctx: ConsoleCtx,
    listed: Option<&Vec<(Membership, Option<User>)>>,
    instruments: Vec<Instrument>,
) -> bool {
    &&& !ctx.access_of().manages_members() ==> refused(r, ReplyView::SectionForbidden)
    &&& ctx.access_of().manages_members() ==> match listed {
        None => refused(r, mem_error(500, "Could not load members."@)),
        Some(ms) => {
            &&& r is Ok
            &&& r->Ok_0@.len() == ms@.len()
            &&& forall|i: int|
                0 <= i < ms@.len() ==> shows_member(
                    #[trigger] r->Ok_0@[i],
                    ms@[i].0,
                    ms@[i].1,
                    instruments@,
                    ctx.org_of().id,
                )
        },
    }
}

/// The list of members. `listed` is `None` where they could not be listed; each
/// comes with their account, where that could be had.
pub fn members_page(
    ctx: &ConsoleCtx,
    listed: Option<&Vec<(Membership, Option<User>)>>,
    instruments: &Vec<Instrument>,
) -> (r: Result<Vec<MemberRow>, Reply>)
    ensures
        members_page_outcome(r, *ctx, listed, *instruments),
{
    if !ctx.can_manage_members() {
        return Err(Reply::SectionForbidden);
    }
    let ms: &Vec<(Membership, Option<User>)> = match listed {
        Some(ms) => ms,
        None => return Err(error_page(500, "Could not load members.")),
    };
    let org: Uuid = ctx.org().id;
    let mut rows: Vec<MemberRow> = Vec::new();
    let mut i: usize = 0;
    while i < ms.len()
        invariant
            i <= ms.len(),
            rows@.len() == i,
            forall|k: int|
                0 <= k < i ==> shows_member(
                    #[trigger] rows@[k],
                    ms@[k].0,
                    ms@[k].1,
                    instruments@,
                    org,
                ),
        decreases ms.len() - i,
    {
        rows.push(member_row(&ms[i].0, &ms[i].1, instruments, org));
        i = i + 1;
    }
    Ok(rows)
}

/// The form that adds a member, as it was submitted.
pub struct AddMemberForm {
    pub username: Option<String>,
    pub role: Option<String>,
}

/// Whether `r` is what [`plan_add_member`] owes its caller.
pub open spec fn plan_add_member_outcome(
    r: Result<(String, Role), Reply>,
    ctx: ConsoleCtx,
    form: AddMemberForm,
) -> bool {
    &&& !ctx.access_of().manages_members() ==> refused(r, ReplyView::SectionForbidden)
    &&& ctx.access_of().manages_members() ==> match entered(text_of(form.username)) {
        None => refused(r, mem_error(400, "Username must not be empty."@)),
        Some(name) => match named_role(text_of(form.role)) {
            None => refused(r, mem_error(400, "Please choose a valid role."@)),
            Some(role) => r matches Ok((n, ro)) && n@ == name && ro == role,
        },
    }
}

/// The username and the role of a new member, from the form.
pub fn plan_add_member(ctx: &ConsoleCtx, form: &AddMemberForm) -> (r: Result<(String, Role), Reply>)
    ensures
        plan_add_member_outcome(r, *ctx, *form),
{
    if !ctx.can_manage_members() {
        return Err(Reply::SectionForbidden);
    }
    let username: String = match blank_to_none(&form.username) {
        Some(username) => username,
        None => return Err(error_page(400, "Username must not be empty.")),
    };
    let raw: Option<&str> = match &form.role {
        Some(role) => Some(role.as_str()),
        None => None,
    };
    match read_role(raw) {
        Some(role) => Ok((username, role)),
        None => Err(error_page(400, "Please choose a valid role.")),
    }
}

/// Whether `r` is what [`require_account`] owes its caller.
pub open spec fn require_account_outcome(
    r: Result<User, Reply>,
    username: String,
    found: Lookup<User>,
) -> bool {
    match found {
        Lookup::Found(u) => r == Ok::<User, Reply>(u),
        Lookup::Missing => refused(
            r,
            mem_error(404, "No user with username \""@ + username@ + "\"."@),
        ),
        Lookup::Failed => refused(r, mem_error(500, "Could not look up that user."@)),
    }
}

/// The account of a new member.
pub fn require_account(username: &String, found: Lookup<User>) -> (r: Result<User, Reply>)
    ensures
        require_account_outcome(r, *username, found),
{
    match found {
        Lookup::Found(u) => Ok(u),
        Lookup::Missing => {
            let mut m: String = "No user with username \"".to_owned();
            m.append(username.as_str());
            m.append("\".");
            Err(error_page(404, m.as_str()))
        },
        Lookup::Failed => Err(error_page(500, "Could not look up that user.")),
    }
}

/// Why a membership was not stored.
pub enum MembershipError {
    Duplicate,
    UnknownInstrument,
    PrincipalNotSubset,
    LastOwner,
    Database,
}

/// Whether `r` is what [`member_added`] owes its caller.
pub open spec fn member_added_outcome(
    r: Done,
    ctx: ConsoleCtx,
    request_id: Uuid,
    username: String,
    user_id: Uuid,
    role: Role,
    result: Result<Uuid, MembershipError>,
) -> bool {
    match result {
        Ok(id) => r.recorded(
            entry(
                ctx.audit_context(request_id),
                "membership.create"@,
                "membership"@,
                id,
                seq![
                    detail("userId"@, FactView::Id(user_id)),
                    detail("role"@, FactView::Text(role.name())),
                ],
            ),
            goes_to(list_url(ctx.org_of().id, "/members"@)),
        ),
        Err(MembershipError::Duplicate) => r.unrecorded(
            mem_error(
                409,
                "\""@ + username@ + "\" is already a member of this organization."@,
            ),
        ),
        Err(_) => r.unrecorded(mem_error(500, "Could not add the member."@)),
    }
}

/// How adding a member ended.
pub fn member_added(
    ctx: &ConsoleCtx,
    request_id: Uuid,
    username: &String,
    user_id: Uuid,
    role: Role,
    result: Result<Uuid, MembershipError>,
) -> (r: Done)
    ensures
        member_added_outcome(r, *ctx, request_id, *username, user_id, role, result),
{
    match result {
        Ok(id) => Done::saved(
            AuditEntry::new(ctx.audit_ctx(request_id), "membership.create", "membership", id).with(
                "userId",
                Fact::Id(user_id),
            ).with("role", text(role.as_str())),
            list_path(ctx.org().id, "/members"),
        ),
        Err(MembershipError::Duplicate) => {
            let mut m: String = "\"".to_owned();
            m.append(username.as_str());
            m.append("\" is already a member of this organization.");
            Done::refused(error_page(409, m.as_str()))
        },
        Err(_) => Done::refused(error_page(500, "Could not add the member.")),
    }
}

/// The screen that edits a member.
pub struct MemberEditPage {
    pub username: String,
    pub save_action: String,
    pub version: i64,
    pub roles: Vec<RoleOption>,
    pub instruments: Vec<FamilyGroup>,
    pub is_principal: bool,
    pub principal_instruments: Vec<FamilyGroup>,
    pub back: String,
}

/// Whether `r` is what [`member_edit_page`] owes its caller.
pub open spec fn member_edit_page_outcome(
    r: MemberEditPage,
    ctx: ConsoleCtx,
    m: Membership,
    user: Option<User>,
    instruments: Vec<Instrument>,
) -> bool {
    &&& r.username@ == shown_username(user, m.user_id)
    &&& r.save_action@ == row_url(ctx.org_of().id, "/members"@, m.id)
    &&& r.version == m.updated_at.millis
    &&& r.roles@.len() == 4
    &&& forall|i: int|
        0 <= i < 4 ==> (#[trigger] r.roles@[i]).selected == (r.roles@[i].value@
            == m.role.name())
    &&& r.roles@[0].value@ == "owner"@ && r.roles@[1].value@ == "archivist"@
    &&& r.roles@[2].value@ == "conductor"@ && r.roles@[3].value@ == "musician"@
    &&& is_picker(r.instruments@, instruments@, m.instrument_ids@)
    &&& r.is_principal == m.is_principal
    &&& is_picker(r.principal_instruments@, instruments@, m.principal_instrument_ids@)
    &&& r.back@ == list_url(ctx.org_of().id, "/members"@)
}

/// The screen that edits a member.
pub fn member_edit_page(
    ctx: &ConsoleCtx,
    m: &Membership,
    user: &Option<User>,
    instruments: &Vec<Instrument>,
) -> (r: MemberEditPage)
    ensures
        member_edit_page_outcome(r, *ctx, *m, *user, *instruments),
{
    proof {
        role_names_are_distinct(m.role, Role::Owner);
        role_names_are_distinct(m.role, Role::Archivist);
        role_names_are_distinct(m.role, Role::Conductor);
        role_names_are_distinct(m.role, Role::Musician);
    }
    MemberEditPage {
        username: username_of(user, m.user_id),
        save_action: row_path(ctx.org().id, "/members", m.id),
        version: m.updated_at.millis,
        roles: role_select(m.role),
        instruments: instrument_picker(instruments, &m.instrument_ids),
        is_principal: m.is_principal,
        principal_instruments: instrument_picker(instruments, &m.principal_instrument_ids),
        back: list_path(ctx.org().id, "/members"),
    }
}

/// The fields of a membership.
pub struct MembershipFields {
    pub role: Role,
    pub instrument_ids: Vec<Uuid>,
    pub is_principal: bool,
    pub principal_instrument_ids: Vec<Uuid>,
}

/// What a member form leads to, once the row is opened and current.
pub open spec fn member_form(
    pairs: Seq<(String, String)>,
    r: Result<(Membership, MembershipFields), Reply>,
    current: Membership,
) -> bool {
    match named_role(first_value(pairs, "role"@)) {
        None => refused(r, mem_error(400, "Please choose a valid role."@)),
        Some(role) => match all_ids(all_values(pairs, "instrument_ids"@)) {
            None => refused(r, mem_error(400, "Invalid instrument selection."@)),
            Some(plays) => match all_ids(all_values(pairs, "principal_instrument_ids"@)) {
                None => refused(r, mem_error(400, "Invalid principal-instrument selection."@)),
                Some(leads) => r matches Ok((m, f)) && {
                    &&& m == current
                    &&& f.role == role
                    &&& f.instrument_ids@ == plays
                    &&& f.is_principal == (first_value(pairs, "is_principal"@) is Some)
                    &&& f.principal_instrument_ids@ == leads
                },
            },
        },
    }
}

/// Whether `r` is what [`plan_update_member`] owes its caller.
pub open spec fn plan_update_member_outcome(
    r: Result<(Membership, MembershipFields), Reply>,
    ctx: ConsoleCtx,
    membership_id: Uuid,
    found: Lookup<Membership>,
    pairs: Vec<(String, String)>,
) -> bool {
    match membership_in_org(found, ctx.org_of().id) {
        Lookup::Found(m) if ctx.access_of().manages_members() => if !names_version(
            first_value(pairs@, "expected_version"@),
            m.updated_at.millis,
        ) {
            refused(
                r,
                ReplyView::Stale {
                    section: Section::Members,
                    entity: "member"@,
                    back: row_url(ctx.org_of().id, "/members"@, membership_id),
                },
            )
        } else {
            member_form(pairs@, r, m)
        },
        _ => r is Err && member_opened(Err::<Membership, Reply>(r->Err_0), ctx, found),
    }
}

/// The new fields of a member, from the form, with the row as it was. The row
/// must be the one that the form was opened on, unchanged since.
pub fn plan_update_member(
    ctx: &ConsoleCtx,
    membership_id: Uuid,
    found: Lookup<Membership>,
    pairs: &Vec<(String, String)>,
) -> (r: Result<(Membership, MembershipFields), Reply>)
    ensures
        plan_update_member_outcome(r, *ctx, membership_id, found, *pairs),
{
    let current: Membership = match open_member(ctx, found) {
        Ok(m) => m,
        Err(reply) => return Err(reply),
    };
    if check_if_match(field(pairs, "expected_version"), current.updated_at.millis).is_err() {
        return Err(
            Reply::precondition_page(
                Section::Members,
                "member",
                row_path(ctx.org().id, "/members", membership_id),
            ),
        );
    }
    let role: Role = match read_role(field(pairs, "role")) {
        Some(role) => role,
        None => return Err(error_page(400, "Please choose a valid role.")),
    };
    let instrument_ids: Vec<Uuid> = match parse_ids(&multi(pairs, "instrument_ids")) {
        Some(ids) => ids,
        None => return Err(error_page(400, "Invalid instrument selection.")),
    };
    let is_principal: bool = field(pairs, "is_principal").is_some();
    let principal_instrument_ids: Vec<Uuid> = match parse_ids(
        &multi(pairs, "principal_instrument_ids"),
    ) {
        Some(ids) => ids,
        None => return Err(error_page(400, "Invalid principal-instrument selection.")),
    };
    Ok(
        (
            current,
            MembershipFields { role, instrument_ids, is_principal, principal_instrument_ids },
        ),
    )
}

/// What a change of a membership is recorded as: a change of role and a change
/// of the principal flag have names of their own.
pub open spec fn membership_action(
    was_role: Role,
    was_principal: bool,
    role: Role,
    is_principal: bool,
) -> Seq<char> {
    if role != was_role {
        "membership.role_change"@
    } else if is_principal != was_principal {
        "membership.principal_change"@
    } else {
        "membership.update"@
    }
}

/// What a change of a membership is recorded as.
pub fn update_action(was_role: Role, was_principal: bool, role: Role, is_principal: bool) -> (r:
    &'static str)
    ensures
        r@ == membership_action(was_role, was_principal, role, is_principal),
{
    if role != was_role {
        "membership.role_change"
    } else if is_principal != was_principal {
        "membership.principal_change"
    } else {
        "membership.update"
    }
}

/// Whether `r` is what [`member_updated`] owes its caller.
pub open spec fn member_updated_outcome(
    r: Done,
    ctx: ConsoleCtx,
    request_id: Uuid,
    membership_id: Uuid,
    current: Membership,
    fields: MembershipFields,
    result: Result<(), MembershipError>,
) -> bool {
    match result {
        Ok(()) => r.recorded(
            entry(
                ctx.audit_context(request_id),
                membership_action(
                    current.role,
                    current.is_principal,
                    fields.role,
                    fields.is_principal,
                ),
                "membership"@,
                membership_id,
                seq![
                    detail("role"@, FactView::Text(fields.role.name())),
                    detail("previousRole"@, FactView::Text(current.role.name())),
                    detail("isPrincipal"@, FactView::Flag(fields.is_principal)),
                    detail("previousIsPrincipal"@, FactView::Flag(current.is_principal)),
                ],
            ),
            goes_to(list_url(ctx.org_of().id, "/members"@)),
        ),
        Err(MembershipError::LastOwner) => r.unrecorded(
            mem_error(409, "This organization must keep at least one owner."@),
        ),
        Err(MembershipError::PrincipalNotSubset) => r.unrecorded(
            mem_error(
                400,
                "Principal instruments must be a subset of the member's instruments."@,
            ),
        ),
        Err(MembershipError::UnknownInstrument) => r.unrecorded(
            mem_error(400, "One or more instruments no longer exist."@),
        ),
        Err(_) => r.unrecorded(mem_error(500, "Could not save the member."@)),
    }
}

/// How storing changed fields of a member ended.
pub fn member_updated(
    ctx: &ConsoleCtx,
    request_id: Uuid,
    membership_id: Uuid,
    current: &Membership,
    fields: &MembershipFields,
    result: Result<(), MembershipError>,
) -> (r: Done)
    ensures
        member_updated_outcome(r, *ctx, request_id, membership_id, *current, *fields, result),
{
    match result {
        Ok(()) => Done::saved(
            AuditEntry::new(
                ctx.audit_ctx(request_id),
                update_action(
                    current.role,
                    current.is_principal,
                    fields.role,
                    fields.is_principal,
                ),
                "membership",
                membership_id,
            ).with("role", text(fields.role.as_str())).with(
                "previousRole",
                text(current.role.as_str()),
            ).with("isPrincipal", Fact::Flag(fields.is_principal)).with(
                "previousIsPrincipal",
                Fact::Flag(current.is_principal),
            ),
            list_path(ctx.org().id, "/members"),
        ),
        Err(MembershipError::LastOwner) => Done::refused(
            error_page(409, "This organization must keep at least one owner."),
        ),
        Err(MembershipError::PrincipalNotSubset) => Done::refused(
            error_page(400, "Principal instruments must be a subset of the member's instruments."),
        ),
        Err(MembershipError::UnknownInstrument) => Done::refused(
            error_page(400, "One or more instruments no longer exist."),
        ),
        Err(_) => Done::refused(error_page(500, "Could not save the member.")),
    }
}

/// Whether `r` is what [`member_removed`] owes its caller.
pub open spec fn member_removed_outcome(
    r: Done,
    ctx: ConsoleCtx,
    request_id: Uuid,
    membership_id: Uuid,
    result: Result<bool, MembershipError>,
) -> bool {
    match result {
        Ok(true) => r.recorded(
            entry(
                ctx.audit_context(request_id),
                "membership.delete"@,
                "membership"@,
                membership_id,
                seq![],
            ),
            goes_to(list_url(ctx.org_of().id, "/members"@)),
        ),
        Ok(false) => r.unrecorded(goes_to(list_url(ctx.org_of().id, "/members"@))),
        Err(MembershipError::LastOwner) => r.unrecorded(
            mem_error(409, "This organization must keep at least one owner."@),
        ),
        Err(_) => r.unrecorded(mem_error(500, "Could not remove the member."@)),
    }
}

/// How removing a member ended. `Ok(false)` where they were gone already:
/// nothing happened then, and nothing is recorded.
pub fn member_removed(
    ctx: &ConsoleCtx,
    request_id: Uuid,
    membership_id: Uuid,
    result: Result<bool, MembershipError>,
) -> (r: Done)
    ensures
        member_removed_outcome(r, *ctx, request_id, membership_id, result),
{
    match result {
        Ok(true) => Done::saved(
            AuditEntry::new(
                ctx.audit_ctx(request_id),
                "membership.delete",
                "membership",
                membership_id,
            ),
            list_path(ctx.org().id, "/members"),
        ),
        Ok(false) => Done::refused(Reply::Redirect { to: list_path(ctx.org().id, "/members") }),
        Err(MembershipError::LastOwner) => Done::refused(
            error_page(409, "This organization must keep at least one owner."),
        ),
        Err(_) => Done::refused(error_page(500, "Could not remove the member.")),
    }
}

/// Adding a member is on record, with the account and the role, exactly where it
/// took place.
pub proof fn a_new_member_is_on_record(
    r: Done,
    ctx: ConsoleCtx,
    request_id: Uuid,
    username: String,
    user_id: Uuid,
    role: Role,
    result: Result<Uuid, MembershipError>,
)
    requires
        member_added_outcome(r, ctx, request_id, username, user_id, role, result),
    ensures
        result matches Ok(id) ==> {
            &&& r.names(
                ctx.user_of().id,
                ctx.org_of().id,
                request_id,
                "membership.create"@,
                id,
            )
            &&& r.tells("userId"@, FactView::Id(user_id))
            &&& r.tells("role"@, FactView::Text(role.name()))
            &&& r.moves_on_to(list_url(ctx.org_of().id, "/members"@))
        },
        result is Err ==> r.fell_through(),
{
    broadcast use vstd::seq_lib::group_seq_properties;

}

/// Removing a member is on record exactly where it took place.
pub proof fn a_removed_member_is_on_record(
    r: Done,
    ctx: ConsoleCtx,
    request_id: Uuid,
    membership_id: Uuid,
    result: Result<bool, MembershipError>,
)
    requires
        member_removed_outcome(r, ctx, request_id, membership_id, result),
    ensures
        result == Ok::<bool, MembershipError>(true) ==> {
            &&& r.names(
                ctx.user_of().id,
                ctx.org_of().id,
                request_id,
                "membership.delete"@,
                membership_id,
            )
            &&& r.moves_on_to(list_url(ctx.org_of().id, "/members"@))
        },
        result != Ok::<bool, MembershipError>(true) ==> r.audit is None,
        result is Err ==> r.fell_through(),
{
    broadcast use vstd::seq_lib::group_seq_properties;

}

/// Changing a member is on record, with what they were and what they are now,
/// exactly where it took place. A change of role goes by that name, and one of
/// the principal flag alone by its own.
pub proof fn a_changed_member_is_on_record(
    r: Done,
    ctx: ConsoleCtx,
    request_id: Uuid,
    membership_id: Uuid,
    current: Membership,
    fields: MembershipFields,
    result: Result<(), MembershipError>,
)
    requires
        member_updated_outcome(r, ctx, request_id, membership_id, current, fields, result),
    ensures
        result is Ok ==> {
            &&& r.names(
                ctx.user_of().id,
                ctx.org_of().id,
                request_id,
                if fields.role != current.role {
                    "membership.role_change"@
                } else if fields.is_principal != current.is_principal {
                    "membership.principal_change"@
                } else {
                    "membership.update"@
                },
                membership_id,
            )
            &&& r.tells("role"@, FactView::Text(fields.role.name()))
            &&& r.tells("previousRole"@, FactView::Text(current.role.name()))
            &&& r.tells("isPrincipal"@, FactView::Flag(fields.is_principal))
            &&& r.tells("previousIsPrincipal"@, FactView::Flag(current.is_principal))
            &&& r.moves_on_to(list_url(ctx.org_of().id, "/members"@))
        },
        result is Err ==> r.fell_through(),
{
    broadcast use vstd::seq_lib::group_seq_properties;

}

/// Those who manage members add the account that they named in the role that they
/// chose.
pub proof fn a_member_is_added_as_the_form_says(
    r: Result<(String, Role), Reply>,
    ctx: ConsoleCtx,
    form: AddMemberForm,
)
    requires
        plan_add_member_outcome(r, ctx, form),
    ensures
        r is Ok ==> ctx.access_of().manages_members(),
        r matches Ok((name, role)) ==> form.username is Some && name@ == trimmed(form.username->0@)
            && name@.len() > 0 && form.role is Some && form.role->0@ == role.name(),
        forall|role: Role|
            ctx.access_of().manages_members() && form.username is Some
                && trimmed(form.username->0@).len()
                > 0 && form.role is Some && form.role->0@ == #[trigger] role.name() ==> (
            r matches Ok((_, chosen)) && chosen == role),
        !ctx.access_of().manages_members() ==> r is Err && r->Err_0@.status() == 403,
        ctx.access_of().manages_members() && r is Err ==> r->Err_0@.status() == 400,
{
    assert forall|a: Role, b: Role| #[trigger] a.name() == #[trigger] b.name() implies a == b by {
        role_names_are_distinct(a, b);
    }
}

/// The members screen shows each member by their account's name, with their own
/// role, instruments and standing, and with actions on their own membership.
pub proof fn the_members_screen_shows_each_member(
    rows: Vec<MemberRow>,
    ctx: ConsoleCtx,
    listed: &Vec<(Membership, Option<User>)>,
    instruments: Vec<Instrument>,
    i: int,
)
    requires
        members_page_outcome(Ok::<Vec<MemberRow>, Reply>(rows), ctx, Some(listed), instruments),
        0 <= i < listed@.len(),
    ensures
        ctx.access_of().manages_members(),
        rows@.len() == listed@.len(),
        ({
            let (row, (m, user)) = (rows@[i], listed@[i]);
            &&& user is Some ==> row.username@ == user->0.username@
            &&& user is None ==> row.username@ == uuid_text(m.user_id)
            &&& row.role@ == m.role.name()
            &&& row.is_principal == m.is_principal
            &&& row.edit_href@ == row_url(ctx.org_of().id, "/members"@, m.id)
            &&& row.remove_action@ == row_url(ctx.org_of().id, "/members"@, m.id) + "/delete"@
            &&& row.instruments@.len() == m.instrument_ids@.len()
            &&& forall|k: int, j: int|
                0 <= k < m.instrument_ids@.len() && #[trigger] is_first_with(
                    instruments@,
                    m.instrument_ids@[k],
                    j,
                ) ==> (#[trigger] row.instruments@[k])@ == instruments@[j].display_name@
        }),
{
    let (row, (m, user)) = (rows@[i], listed@[i]);
    assert(shows_member(rows@[i], listed@[i].0, listed@[i].1, instruments@, ctx.org_of().id));
    assert forall|k: int, j: int|
        0 <= k < m.instrument_ids@.len() && #[trigger] is_first_with(
            instruments@,
            m.instrument_ids@[k],
            j,
        ) implies (#[trigger] row.instruments@[k])@ == instruments@[j].display_name@ by {
        an_instrument_goes_by_its_name(instruments@, m.instrument_ids@[k], j);
    }
}

/// A member's form is taken as it was filled in: the role that was chosen, the
/// instruments ticked under each heading, and whether the box for principals
/// was ticked. It is taken at the version that it was opened on.
pub proof fn a_member_is_changed_as_the_form_says(
    m: Membership,
    fields: MembershipFields,
    ctx: ConsoleCtx,
    membership_id: Uuid,
    found: Lookup<Membership>,
    pairs: Vec<(String, String)>,
)
    requires
        plan_update_member_outcome(
            Ok::<(Membership, MembershipFields), Reply>((m, fields)),
            ctx,
            membership_id,
            found,
            pairs,
        ),
    ensures
        ctx.access_of().manages_members(),
        found == Lookup::Found(m) && m.organization_id == ctx.org_of().id,
        forall|i: int| #[trigger]
            comes_first(pairs@, "role"@, i) ==> pairs@[i].1@ == fields.role.name(),
        exists|i: int| #[trigger] comes_first(pairs@, "role"@, i),
        forall|i: int| #[trigger]
            comes_first(pairs@, "expected_version"@, i) ==> pairs@[i].1@ == int_text(
                m.updated_at.millis as int,
            ) || pairs@[i].1@ == etag(m.updated_at.millis),
        exists|i: int| #[trigger] comes_first(pairs@, "expected_version"@, i),
        fields.is_principal <==> exists|i: int|
            0 <= i < pairs@.len() && (#[trigger] pairs@[i]).0@ == "is_principal"@,
        fields.instrument_ids@.len() == all_values(pairs@, "instrument_ids"@).len(),
        forall|k: int|
            0 <= k < fields.instrument_ids@.len() ==> read_uuid(
                #[trigger] all_values(pairs@, "instrument_ids"@)[k],
            ) == Some(fields.instrument_ids@[k]),
        fields.principal_instrument_ids@.len() == all_values(
            pairs@,
            "principal_instrument_ids"@,
        ).len(),
        forall|k: int|
            0 <= k < fields.principal_instrument_ids@.len() ==> read_uuid(
                #[trigger] all_values(pairs@, "principal_instrument_ids"@)[k],
            ) == Some(fields.principal_instrument_ids@[k]),
{
    the_earliest_value_counts(pairs@, "role"@);
    the_earliest_value_counts(pairs@, "expected_version"@);
    the_earliest_value_counts(pairs@, "is_principal"@);
    first_value_was_submitted(pairs@, "is_principal"@);
    if first_value(pairs@, "is_principal"@) is Some {
        let i = choose|i: int| #[trigger] comes_first(pairs@, "is_principal"@, i);
        assert(pairs@[i].0@ == "is_principal"@);
    }
}

/// Whoever may not manage members, and whoever names a version that is not the
/// current one, changes nobody.
pub proof fn members_are_not_changed_otherwise(
    r: Result<(Membership, MembershipFields), Reply>,
    ctx: ConsoleCtx,
    membership_id: Uuid,
    found: Lookup<Membership>,
    pairs: Vec<(String, String)>,
)
    requires
        plan_update_member_outcome(r, ctx, membership_id, found, pairs),
    ensures
        !ctx.access_of().manages_members() ==> r is Err && r->Err_0@.status() == 403,
        ctx.access_of().manages_members() && (found matches Lookup::Found(m) && m.organization_id
            != ctx.org_of().id) ==> r is Err && r->Err_0@.status() == 404,
        ctx.access_of().manages_members() && (found matches Lookup::Found(m) && m.organization_id
            == ctx.org_of().id && (forall|i: int| #[trigger]
            comes_first(pairs@, "expected_version"@, i) ==> pairs@[i].1@ != int_text(
                m.updated_at.millis as int,
            ) && pairs@[i].1@ != etag(m.updated_at.millis))) ==> r is Err && r->Err_0@.status()
            == 412,
{
    the_earliest_value_counts(pairs@, "expected_version"@);
}

/// The form that edits a member shows what is stored: the role is selected, the
/// instruments are ticked, and the version is the current one.
pub proof fn the_member_form_shows_what_is_stored(
    page: MemberEditPage,
    ctx: ConsoleCtx,
    m: Membership,
    user: Option<User>,
    instruments: Vec<Instrument>,
)
    requires
        member_edit_page_outcome(page, ctx, m, user, instruments),
    ensures
        user is Some ==> page.username@ == user->0.username@,
        page.version == m.updated_at.millis,
        page.is_principal == m.is_principal,
        page.save_action@ == row_url(ctx.org_of().id, "/members"@, m.id),
        page.back@ == list_url(ctx.org_of().id, "/members"@),
        page.roles@.len() == 4,
        forall|i: int|
            0 <= i < 4 ==> ((#[trigger] page.roles@[i]).selected <==> page.roles@[i].value@
                == m.role.name()),
        exists|i: int| 0 <= i < 4 && (#[trigger] page.roles@[i]).selected,
        forall|g: int, k: int|
            0 <= g < page.instruments@.len() && 0 <= k < page.instruments@[g].options@.len() ==> (
            (#[trigger] page.instruments@[g].options@[k]).selected <==> m.instrument_ids@.contains(
                page.instruments@[g].options@[k].id,
            )),
        forall|g: int, k: int|
            0 <= g < page.principal_instruments@.len() && 0 <= k
                < page.principal_instruments@[g].options@.len() ==> ((
            #[trigger] page.principal_instruments@[g].options@[k]).selected
                <==> m.principal_instrument_ids@.contains(
                page.principal_instruments@[g].options@[k].id,
            )),
{
    assert(page.roles@[0].selected || page.roles@[1].selected || page.roles@[2].selected
        || page.roles@[3].selected);
    chosen_instruments_are_ticked(page.instruments@, instruments@, m.instrument_ids@);
    chosen_instruments_are_ticked(
        page.principal_instruments@,
        instruments@,
        m.principal_instrument_ids@,
    );
}

/// All four roles can be chosen, and the current one is selected.
pub proof fn the_current_role_is_selected(r: Vec<RoleOption>, current: Role)
    requires
        role_select_outcome(r, current),
    ensures
        r@.len() == 4,
        r@[0].value@ == "owner"@ && r@[1].value@ == "archivist"@ && r@[2].value@ == "conductor"@
            && r@[3].value@ == "musician"@,
        forall|i: int| 0 <= i < 4 ==> ((#[trigger] r@[i]).selected
            <==> r@[i].value@ == current.name()),
{
    role_names_are_distinct(current, Role::Owner);
    role_names_are_distinct(current, Role::Archivist);
    role_names_are_distinct(current, Role::Conductor);
    role_names_are_distinct(current, Role::Musician);
}

/// Those who manage members see them, unless they could not be listed.
pub proof fn those_who_manage_members_see_them(
    r: Result<Vec<MemberRow>, Reply>,
    ctx: ConsoleCtx,
    listed: Option<&Vec<(Membership, Option<User>)>>,
    instruments: Vec<Instrument>,
)
    requires
        members_page_outcome(r, ctx, listed, instruments),
    ensures
        r is Ok <==> ctx.access_of().manages_members() && listed is Some,
        !ctx.access_of().manages_members() ==> r->Err_0@.status() == 403,
        ctx.access_of().manages_members() && listed is None ==> r->Err_0@.status() == 500,
{
}

/// Only who has an account can be added.
pub proof fn a_member_needs_an_account(
    r: Result<User, Reply>,
    username: String,
    found: Lookup<User>,
)
    requires
        require_account_outcome(r, username, found),
    ensures
        r is Ok <==> found is Found,
        r is Ok ==> found == Lookup::Found(r->Ok_0),
        found is Missing ==> r->Err_0@.status() == 404,
        found is Failed ==> r->Err_0@.status() == 500,
{
}

/// A form that is current and filled in properly is accepted.
pub proof fn a_proper_member_form_is_accepted(
    r: Result<(Membership, MembershipFields), Reply>,
    ctx: ConsoleCtx,
    membership_id: Uuid,
    m: Membership,
    pairs: Vec<(String, String)>,
    i: int,
    j: int,
    role: Role,
)
    requires
        plan_update_member_outcome(r, ctx, membership_id, Lookup::Found(m), pairs),
        ctx.access_of().manages_members(),
        m.organization_id == ctx.org_of().id,
        comes_first(pairs@, "expected_version"@, i),
        pairs@[i].1@ == int_text(m.updated_at.millis as int),
        comes_first(pairs@, "role"@, j),
        pairs@[j].1@ == role.name(),
        forall|k: int|
            0 <= k < pairs@.len() && (#[trigger] pairs@[k]).1@.len() > 0 && (pairs@[k].0@
                == "instrument_ids"@ || pairs@[k].0@ == "principal_instrument_ids"@) ==> read_uuid(
                pairs@[k].1@,
            ) is Some,
    ensures
        r is Ok,
{
    the_earliest_value_counts(pairs@, "expected_version"@);
    the_earliest_value_counts(pairs@, "role"@);
    let plays = collected_values_were_submitted(pairs@, "instrument_ids"@);
    let leads = collected_values_were_submitted(pairs@, "principal_instrument_ids"@);
    let a = all_values(pairs@, "instrument_ids"@);
    let b = all_values(pairs@, "principal_instrument_ids"@);
    assert forall|k: int| 0 <= k < a.len() implies read_uuid(#[trigger] a[k]) is Some by {
        assert(0 <= plays[k] < pairs@.len());
        assert(pairs@[plays[k]].1@ == a[k]);
    }
    assert forall|k: int| 0 <= k < b.len() implies read_uuid(#[trigger] b[k]) is Some by {
        assert(0 <= leads[k] < pairs@.len());
        assert(pairs@[leads[k]].1@ == b[k]);
    }
}

/// Those who manage members open the members of their organization, and no
/// others.
pub proof fn members_are_opened_where_they_belong(
    r: Result<Membership, Reply>,
    ctx: ConsoleCtx,
    found: Lookup<Membership>,
)
    requires
        member_opened(r, ctx, found),
    ensures
        r is Ok <==> ctx.access_of().manages_members() && (found matches Lookup::Found(m)
            && m.organization_id == ctx.org_of().id),
        r is Ok ==> found == Lookup::Found(r->Ok_0),
        !ctx.access_of().manages_members() ==> r->Err_0@.status() == 403,
        ctx.access_of().manages_members() && found is Failed ==> r->Err_0@.status() == 500,
        ctx.access_of().manages_members() && found is Missing ==> r->Err_0@.status() == 404,
{
}

} // verus!
