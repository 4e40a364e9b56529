//! The pages outside any organization's console: logging in, the list of
//! workspaces, and the administration of organizations and users.

use vstd::prelude::*;
use crate::api::{authorize, denied, Need, Standing};
use crate::audit::{detail, entry, text, AuditContext, AuditEntry, EntryView, Fact, FactView};
use crate::console::{can_enter, enters, org_path, org_url};
use crate::error::{AppError, ErrorView};
use crate::id::{uuid_text, Uuid};
use crate::lists::{filter_none, filter_step, kept_from, map_push, take_all};
use crate::members::{shown_username, username_of};
use crate::model::{Lookup, Membership, Organization, User};
use crate::order::{
    in_order, in_order_is_an_ordered_rearrangement, is_ordered, is_weak_order, put_in_order,
    put_in_order_at, text_less, text_lt, text_lt_is_irreflexive, text_lt_is_total,
    text_lt_is_transitive,
};
use crate::role::Role;
use crate::text::{escaped, html_escape, same, text_of, trim, trimmed};

verus! {

/// What is sent back outside any console.
#[derive(Debug)]
pub enum Plain {
    Redirect { to: String },
    /// A small piece of HTML with a message.
    Fragment { status: u16, message: String },
    /// A status alone.
    Status(u16),
}

/// A [`Plain`] as a mathematical value.
#[verifier::ext_equal]
pub enum PlainView {
    Redirect { to: Seq<char> },
    Fragment { status: u16, message: Seq<char> },
    Status(u16),
}

impl View for Plain {
    type V = PlainView;

    open spec fn view(&self) -> PlainView {
        match *self {
            Plain::Redirect { to } => PlainView::Redirect { to: to@ },
            Plain::Fragment { status, message } => PlainView::Fragment { status, message: message@ },
            Plain::Status(status) => PlainView::Status(status),
        }
    }
}

/// Whether `r` is the reply `v` in place of a result.
pub open spec fn turned_away<T>(r: Result<T, Plain>, v: PlainView) -> bool {
    r is Err && r->Err_0@ == v
}

/// A message with a status.
pub open spec fn fragment(status: u16, message: Seq<char>) -> PlainView {
    PlainView::Fragment { status, message }
}

/// A message with a status.
pub fn error_fragment(status: u16, message: &str) -> (r: Plain)
    ensures
        r@ == fragment(status, message@),
{
    Plain::Fragment { status, message: message.to_owned() }
}

fn redirect(to: &str) -> (r: Plain)
    ensures
        r@ == (PlainView::Redirect { to: to@ }),
{
    Plain::Redirect { to: to.to_owned() }
}

/// The status of the message that an error is answered with here.
pub open spec fn fragment_status_of(e: ErrorView) -> u16 {
    match e {
        ErrorView::NotFound => 404,
        ErrorView::Forbidden => 403,
        ErrorView::Unauthorized => 401,
        ErrorView::Conflict(_) => 409,
        ErrorView::Validation(_) => 400,
        ErrorView::PreconditionFailed => 412,
        _ => 500,
    }
}

/// The message that an error is answered with here.
pub fn app_error_fragment(err: &AppError, message: &str) -> (r: Plain)
    ensures
        r@ == fragment(fragment_status_of(err@), message@),
{
    let status: u16 = match err {
        AppError::NotFound => 404,
        AppError::Forbidden => 403,
        AppError::Unauthorized => 401,
        AppError::Conflict(_) => 409,
        AppError::Validation(_) => 400,
        AppError::PreconditionFailed => 412,
        _ => 500,
    };
    error_fragment(status, message)
}

/// Lets system admins go on, and nobody else.
pub fn require_system_admin(user: &User) -> (r: Result<(), AppError>)
    ensures
        user.is_system_admin ==> r is Ok,
        !user.is_system_admin ==> crate::error::fails(r, ErrorView::Forbidden),
{
    if user.is_system_admin {
        Ok(())
    } else {
        Err(AppError::Forbidden)
    }
}

/// How a login ended.
pub enum LoginOutcome {
    LoggedIn,
    InvalidCredentials,
    Failed,
}

/// Whether `r` is what [`login_reply`] owes its caller.
pub open spec fn login_reply_outcome(r: Plain, outcome: LoginOutcome) -> bool {
    r@ == (match outcome {
        LoginOutcome::LoggedIn => PlainView::Redirect { to: "/admin"@ },
        LoginOutcome::InvalidCredentials => fragment(401, "Invalid username or password."@),
        LoginOutcome::Failed => PlainView::Status(500),
    })
}

/// The answer to a login.
pub fn login_reply(outcome: LoginOutcome) -> (r: Plain)
    ensures
        login_reply_outcome(r, outcome),
{
    match outcome {
        LoginOutcome::LoggedIn => redirect("/admin"),
        LoginOutcome::InvalidCredentials => error_fragment(401, "Invalid username or password."),
        LoginOutcome::Failed => Plain::Status(500),
    }
}

/// Whether `r` is what [`logout_reply`] owes its caller.
pub open spec fn logout_reply_outcome(r: (Plain, Option<&'static str>), ok: bool) -> bool {
    &&& ok ==> r.0@ == (PlainView::Redirect { to: "/admin/login"@ }) && r.1 is Some && r.1->0@
        == "lied_csrf=; Path=/; Max-Age=0"@
    &&& !ok ==> r.0@ == PlainView::Status(500) && r.1 is None
}

/// The answer to a logout, and the cookie that is cleared with it.
pub fn logout_reply(ok: bool) -> (r: (Plain, Option<&'static str>))
    ensures
        logout_reply_outcome(r, ok),
{
    if ok {
        (redirect("/admin/login"), Some("lied_csrf=; Path=/; Max-Age=0"))
    } else {
        (Plain::Status(500), None)
    }
}

/// The login form up to where the token stands.
pub const LOGIN_FORM_HEAD: &'static str = "<h1>Lied admin login</h1>\n<form method=\"post\" action=\"/admin/login\">\n  <input type=\"hidden\" name=\"csrf_token\" value=\"";

/// The login form from where the token ends.
pub const LOGIN_FORM_TAIL: &'static str = "\" />\n  <label>Username <input type=\"text\" name=\"username\" /></label>\n  <label>Password <input type=\"password\" name=\"password\" /></label>\n  <button type=\"submit\">Log in</button>\n</form>";

/// Whether `r` is what [`login_page`] owes its caller.
pub open spec fn login_page_outcome(r: String, token: &str) -> bool {
    r@ == LOGIN_FORM_HEAD@ + escaped(token@) + LOGIN_FORM_TAIL@
}

/// The login form with its token.
pub fn login_page(token: &str) -> (r: String)
    ensures
        login_page_outcome(r, token),
{
    let mut out: String = LOGIN_FORM_HEAD.to_owned();
    out.append(html_escape(token).as_str());
    out.append(LOGIN_FORM_TAIL);
    out
}

/// A user's membership with its organization's name.
pub struct UserOrg {
    pub organization_id: Uuid,
    pub organization_name: String,
    pub role: Role,
    pub is_principal: bool,
}

/// A workspace in the list.
pub struct WorkspaceRow {
    pub id: Uuid,
    pub name: String,
    pub role_label: String,
}

/// A [`WorkspaceRow`] as a mathematical value.
#[verifier::ext_equal]
pub struct RowView {
    pub id: Uuid,
    pub name: Seq<char>,
    pub role_label: Seq<char>,
}

impl View for WorkspaceRow {
    type V = RowView;

    open spec fn view(&self) -> RowView {
        RowView { id: self.id, name: self.name@, role_label: self.role_label@ }
    }
}

/// The rows as mathematical values.
pub open spec fn rows_of(rows: Seq<WorkspaceRow>) -> Seq<RowView> {
    rows.map_values(|r: WorkspaceRow| r@)
}

/// A member's standing in the list.
pub open spec fn label_of(m: UserOrg) -> Seq<char> {
    if m.is_principal {
        m.role.name() + " (principal)"@
    } else {
        m.role.name()
    }
}

/// A member's standing in the list.
pub fn membership_label(m: &UserOrg) -> (r: String)
    ensures
        r@ == label_of(*m),
{
    let mut out: String = m.role.as_str().to_owned();
    if m.is_principal {
        out.append(" (principal)");
    }
    out
}

/// A member's row in the list.
pub open spec fn member_row(m: UserOrg) -> RowView {
    RowView { id: m.organization_id, name: m.organization_name@, role_label: label_of(m) }
}

/// The order of the list.
pub open spec fn by_name() -> spec_fn(RowView, RowView) -> bool {
    |a: RowView, b: RowView| text_lt(a.name, b.name)
}

/// The memberships whose workspace may be entered.
pub open spec fn may_be_entered() -> spec_fn(UserOrg) -> bool {
    |m: UserOrg| enters(m.role, m.is_principal)
}

/// Memberships as rows in the list.
pub open spec fn as_member_row() -> spec_fn(UserOrg) -> RowView {
    |m: UserOrg| member_row(m)
}

/// The workspaces of a member: those they may enter, by name.
pub open spec fn member_workspaces(memberships: Seq<UserOrg>) -> Seq<RowView> {
    in_order(memberships.filter(may_be_entered()).map_values(as_member_row()), by_name())
}

/// The order by name is an order.
pub proof fn by_name_is_an_order()
    ensures
        is_weak_order(by_name()),
{
    let lt = by_name();
    assert forall|a: RowView, b: RowView| #[trigger] lt(a, b) implies !lt(b, a) by {
        if lt(b, a) {
            text_lt_is_transitive(a.name, b.name, a.name);
            text_lt_is_irreflexive(a.name);
        }
    }
    assert forall|a: RowView, b: RowView, c: RowView| #[trigger]
        lt(a, b) && !lt(c, b) implies #[trigger] lt(a, c) by {
        text_lt_is_total(b.name, c.name);
        if text_lt(b.name, c.name) {
            text_lt_is_transitive(a.name, b.name, c.name);
        }
    }
}

/// The list shows a member exactly the workspaces they may enter, by name.
pub proof fn member_workspaces_are_ordered(memberships: Seq<UserOrg>)
    ensures
        is_ordered(member_workspaces(memberships), by_name()),
        member_workspaces(memberships).to_multiset() == memberships.filter(
            may_be_entered(),
        ).map_values(as_member_row()).to_multiset(),
{
    by_name_is_an_order();
    in_order_is_an_ordered_rearrangement(
        memberships.filter(may_be_entered()).map_values(as_member_row()),
        by_name(),
    );
}

/// Puts a row where it belongs among rows in order.
fn put_row(rows: &mut Vec<WorkspaceRow>, row: WorkspaceRow)
    ensures
        rows_of(final(rows)@) == put_in_order(rows_of(old(rows)@), row@, by_name()),
{
    let ghost before = rows_of(rows@);
    let mut k: usize = rows.len();
    while k > 0 && text_less(row.name.as_str(), rows[k - 1].name.as_str())
        invariant
            *rows == *old(rows),
            before == rows_of(rows@),
            k <= rows.len(),
            forall|i: int| k <= i < before.len()
                ==> text_lt(row.name@, (#[trigger] before[i]).name),
        decreases k,
    {
        assert(before[k - 1] == rows@[k - 1]@);
        k = k - 1;
    }
    proof {
        if k > 0 {
            assert(before[k - 1] == rows@[k - 1]@);
        }
        assert forall|i: int| k <= i < before.len() implies by_name()(row@, #[trigger] before[i]) by {}
        put_in_order_at(before, row@, by_name(), k as int);
    }
    rows.insert(k, row);
    assert(rows_of(rows@) == before.insert(k as int, row@));
}

/// The workspaces of a member: those they may enter, by name. The list never
/// shows one that would turn them away.
pub fn list_member_workspaces(memberships: &Vec<UserOrg>) -> (r: Vec<WorkspaceRow>)
    ensures
        rows_of(r@) == member_workspaces(memberships@),
{
    let ghost p = may_be_entered();
    let ghost f = as_member_row();
    let mut out: Vec<WorkspaceRow> = Vec::new();
    let mut i: usize = 0;
    proof {
        filter_none(memberships@, p);
        assert(memberships@.take(0).filter(p).map_values(f) == Seq::<RowView>::empty());
        assert(rows_of(out@) == Seq::<RowView>::empty());
    }
    while i < memberships.len()
        invariant
            i <= memberships.len(),
            p == may_be_entered(),
            f == as_member_row(),
            rows_of(out@) == in_order(
                memberships@.take(i as int).filter(p).map_values(f),
                by_name(),
            ),
        decreases memberships.len() - i,
    {
        let m: &UserOrg = &memberships[i];
        proof {
            filter_step(memberships@, i as int, p);
            let kept = memberships@.take(i as int).filter(p);
            map_push(kept, *m, f);
            assert(kept.map_values(f).push(member_row(*m)).drop_last() == kept.map_values(f));
        }
        if can_enter(m.role, m.is_principal) {
            put_row(
                &mut out,
                WorkspaceRow {
                    id: m.organization_id,
                    name: m.organization_name.clone(),
                    role_label: membership_label(m),
                },
            );
        }
        i = i + 1;
    }
    proof {
        take_all(memberships@);
    }
    out
}

/// A system admin's standing in an organization: their membership where they
/// have one, never a made-up role.
pub open spec fn admin_label(memberships: Seq<UserOrg>, org: Uuid) -> Seq<char>
    decreases memberships.len(),
{
    if memberships.len() == 0 {
        "system admin"@
    } else if memberships[0].organization_id == org {
        label_of(memberships[0])
    } else {
        admin_label(memberships.skip(1), org)
    }
}

/// A system admin's row in the list.
pub open spec fn admin_row(memberships: Seq<UserOrg>, o: Organization) -> RowView {
    RowView { id: o.id, name: o.name@, role_label: admin_label(memberships, o.id) }
}

/// A system admin's rows in the list.
pub open spec fn admin_rows(memberships: Seq<UserOrg>, orgs: Seq<Organization>) -> Seq<RowView> {
    orgs.map_values(|o: Organization| admin_row(memberships, o))
}

fn label_in(memberships: &Vec<UserOrg>, org: Uuid) -> (r: String)
    ensures
        r@ == admin_label(memberships@, org),
{
    let mut i: usize = 0;
    assert(memberships@.skip(0) == memberships@);
    while i < memberships.len()
        invariant
            i <= memberships.len(),
            admin_label(memberships@, org) == admin_label(memberships@.skip(i as int), org),
        decreases memberships.len() - i,
    {
        if memberships[i].organization_id == org {
            return membership_label(&memberships[i]);
        }
        assert(memberships@.skip(i as int).skip(1) == memberships@.skip(i + 1));
        i = i + 1;
    }
    "system admin".to_owned()
}

/// Whether the list `after` is the list `before` with a page of organizations
/// added, and `r` the place to go on from.
pub open spec fn organizations_added(
    r: Option<usize>,
    before: Seq<WorkspaceRow>,
    after: Seq<WorkspaceRow>,
    page: Seq<Organization>,
    total: i64,
    memberships: Seq<UserOrg>,
) -> bool {
    &&& rows_of(after) == rows_of(before) + admin_rows(memberships, page)
    &&& r == (if page.len() == 0 || after.len() >= total {
        None
    } else {
        Some(after.len() as usize)
    })
}

/// Adds a page of organizations to a system admin's list. Gives the place to go
/// on from, `None` where the list is complete.
pub fn absorb_organizations(
    rows: &mut Vec<WorkspaceRow>,
    page: &Vec<Organization>,
    total: i64,
    memberships: &Vec<UserOrg>,
) -> (r: Option<usize>)
    ensures
        organizations_added(r, old(rows)@, final(rows)@, page@, total, memberships@),
{
    let mut i: usize = 0;
    let ghost all = admin_rows(memberships@, page@);
    assert(all.take(0) == Seq::<RowView>::empty());
    while i < page.len()
        invariant
            i <= page.len(),
            all == admin_rows(memberships@, page@),
            rows_of(rows@) == rows_of(old(rows)@) + all.take(i as int),
        decreases page.len() - i,
    {
        let o: &Organization = &page[i];
        let ghost sofar = rows_of(rows@);
        rows.push(
            WorkspaceRow {
                id: o.id,
                name: o.name.clone(),
                role_label: label_in(memberships, o.id),
            },
        );
        proof {
            assert(rows_of(rows@) == sofar.push(all[i as int]));
            assert(rows_of(rows@) == rows_of(old(rows)@) + all.take(i + 1));
        }
        i = i + 1;
    }
    proof {
        take_all(all);
    }
    if page.len() == 0 || rows.len() as i128 >= total as i128 {
        None
    } else {
        Some(rows.len())
    }
}

/// Going through the pages leaves no organization out: with the rows of the
/// first `from` organizations and the page that follows them, the list has the
/// rows of all up to the end of that page; and it goes on from there until it
/// has as many as there are.
pub proof fn paging_lists_every_organization(
    memberships: Seq<UserOrg>,
    orgs: Seq<Organization>,
    from: int,
    to: int,
)
    requires
        0 <= from <= to <= orgs.len(),
    ensures
        admin_rows(memberships, orgs.take(from)) + admin_rows(memberships, orgs.subrange(from, to))
            == admin_rows(memberships, orgs.take(to)),
        admin_rows(memberships, orgs.take(to)).len() >= orgs.len() ==> admin_rows(
            memberships,
            orgs.take(to),
        ) == admin_rows(memberships, orgs),
{
    assert(admin_rows(memberships, orgs.take(from)) + admin_rows(
        memberships,
        orgs.subrange(from, to),
    ) == admin_rows(memberships, orgs.take(to)));
    if to == orgs.len() {
        take_all(orgs);
    }
}

/// Whether `r` is what [`workspace_href`] owes its caller.
pub open spec fn workspace_href_outcome(r: String, id: Uuid) -> bool {
    r@ == org_url(id) + "/console"@
}

/// The way into a workspace.
pub fn workspace_href(id: Uuid) -> (r: String)
    ensures
        workspace_href_outcome(r, id),
{
    org_path(id).concat("/console")
}

/// How a write ended: what is recorded of it, and the answer.
pub struct PlainDone {
    pub audit: Option<AuditEntry>,
    pub reply: Plain,
}

impl PlainDone {
    /// The write took place: it was recorded as `e` and answered by `v`.
    pub open spec fn recorded(self, e: EntryView, v: PlainView) -> bool {
        self.audit is Some && self.audit->0@ =~= e && self.reply@ == v
    }

    /// Nothing was written, nothing was recorded, and the answer was `v`.
    pub open spec fn unrecorded(self, v: PlainView) -> bool {
        self.audit is None && self.reply@ == v
    }
}

impl PlainDone {
    /// Whether the write is on record as one of `actor`.
    pub open spec fn names(
        self,
        actor: Uuid,
        org: Option<Uuid>,
        request: Uuid,
        action: Seq<char>,
        row: Uuid,
    ) -> bool {
        self.audit is Some && self.audit->0.names(actor, org, request, action, row)
    }

    /// Whether the record of the write says `fact` under `key`.
    pub open spec fn tells(self, key: Seq<char>, fact: FactView) -> bool {
        self.audit is Some && self.audit->0.tells(key, fact)
    }

    /// Whether the answer is the way to `to`.
    pub open spec fn moves_on_to(self, to: Seq<char>) -> bool {
        self.reply matches Plain::Redirect { to: t } && t@ == to
    }

    /// Whether nothing was recorded and the answer is an error.
    pub open spec fn fell_through(self) -> bool {
        self.audit is None && (self.reply matches Plain::Fragment { status, .. } && status >= 400)
    }
}

fn saved(e: AuditEntry, to: &str) -> (r: PlainDone)
    ensures
        r.recorded(e@, PlainView::Redirect { to: to@ }),
{
    PlainDone { audit: Some(e), reply: redirect(to) }
}

fn unsaved(status: u16, message: &str) -> (r: PlainDone)
    ensures
        r.unrecorded(fragment(status, message@)),
{
    PlainDone { audit: None, reply: error_fragment(status, message) }
}

/// Under whose name, where and under which request an administrator's write is
/// recorded.
pub open spec fn admin_context(actor: User, org: Option<Uuid>, request_id: Uuid) -> AuditContext {
    AuditContext { actor_user_id: Some(actor.id), org_id: org, request_id: Some(request_id) }
}

fn context(actor: &User, org: Option<Uuid>, request_id: Uuid) -> (r: AuditContext)
    ensures
        r == admin_context(*actor, org, request_id),
{
    AuditContext { actor_user_id: Some(actor.id), org_id: org, request_id: Some(request_id) }
}

/// What system admins are told who are none.
pub open spec fn not_admin() -> PlainView {
    fragment(403, "forbidden"@)
}

/// Whether `r` is what [`admin_only`] owes its caller.
pub open spec fn admin_only_outcome(r: Result<(), Plain>, actor: User) -> bool {
    &&& actor.is_system_admin ==> r is Ok
    &&& !actor.is_system_admin ==> turned_away(r, not_admin())
}

/// Lets system admins go on; answers anyone else.
pub fn admin_only(actor: &User) -> (r: Result<(), Plain>)
    ensures
        admin_only_outcome(r, *actor),
{
    match require_system_admin(actor) {
        Ok(()) => Ok(()),
        Err(e) => Err(app_error_fragment(&e, "forbidden")),
    }
}

/// Whether `r` is what [`plan_create_org`] owes its caller.
pub open spec fn plan_create_org_outcome(r: Result<(), Plain>, actor: User, name: &str) -> bool {
    &&& !actor.is_system_admin ==> turned_away(r, not_admin())
    &&& actor.is_system_admin && trimmed(name@).len() == 0 ==> turned_away(
        r,
        fragment(400, "Name must not be empty."@),
    )
    &&& actor.is_system_admin && trimmed(name@).len() > 0 ==> r is Ok
}

/// Lets a new organization be created under the name in the form.
pub fn plan_create_org(actor: &User, name: &str) -> (r: Result<(), Plain>)
    ensures
        plan_create_org_outcome(r, *actor, name),
{
    match admin_only(actor) {
        Ok(()) => {},
        Err(reply) => return Err(reply),
    }
    if trim(name).is_empty() {
        return Err(error_fragment(400, "Name must not be empty."));
    }
    Ok(())
}

/// Why an organization was not stored.
pub enum OrganizationError {
    DuplicateSlug,
    Database,
}

/// Whether `r` is what [`org_created`] owes its caller.
pub open spec fn org_created_outcome(
    r: PlainDone,
    actor: User,
    request_id: Uuid,
    result: Result<Organization, OrganizationError>,
) -> bool {
    match result {
        Ok(o) => r.recorded(
            entry(
                admin_context(actor, Some(o.id), request_id),
                "organization.create"@,
                "organization"@,
                o.id,
                seq![
                    detail("name"@, FactView::Text(o.name@)),
                    detail("slug"@, FactView::Text(o.slug@)),
                ],
            ),
            PlainView::Redirect { to: "/admin/orgs"@ },
        ),
        Err(OrganizationError::DuplicateSlug) => r.unrecorded(
            fragment(409, "An organization with this name already exists."@),
        ),
        Err(OrganizationError::Database) => r.unrecorded(
            fragment(500, "failed to create organization"@),
        ),
    }
}

/// How creating an organization ended.
pub fn org_created(
    actor: &User,
    request_id: Uuid,
    result: Result<Organization, OrganizationError>,
) -> (r: PlainDone)
    ensures
        org_created_outcome(r, *actor, request_id, result),
{
    match result {
        Ok(o) => saved(
            AuditEntry::new(
                context(actor, Some(o.id), request_id),
                "organization.create",
                "organization",
                o.id,
            ).with("name", text(o.name.as_str())).with("slug", text(o.slug.as_str())),
            "/admin/orgs",
        ),
        Err(OrganizationError::DuplicateSlug) => unsaved(
            409,
            "An organization with this name already exists.",
        ),
        Err(OrganizationError::Database) => unsaved(500, "failed to create organization"),
    }
}

/// Whether `r` is what [`require_organization`] owes its caller.
pub open spec fn require_organization_outcome(
    r: Result<Organization, Plain>,
    found: Lookup<Organization>,
) -> bool {
    match found {
        Lookup::Found(o) => r == Ok::<Organization, Plain>(o),
        Lookup::Missing => turned_away(r, fragment(404, "Organization not found."@)),
        Lookup::Failed => turned_away(r, fragment(500, "lookup failed"@)),
    }
}

/// The organization to delete or to show.
pub fn require_organization(found: Lookup<Organization>) -> (r: Result<Organization, Plain>)
    ensures
        require_organization_outcome(r, found),
{
    match found {
        Lookup::Found(o) => Ok(o),
        Lookup::Missing => Err(error_fragment(404, "Organization not found.")),
        Lookup::Failed => Err(error_fragment(500, "lookup failed")),
    }
}

/// Whether `r` is what [`plan_org_detail`] owes its caller.
pub open spec fn plan_org_detail_outcome(
    r: Result<Organization, Plain>,
    standing: Standing,
    found: Lookup<Organization>,
    message: &str,
) -> bool {
    match denied(standing, Need::Read) {
        Some(e) => turned_away(r, fragment(fragment_status_of(e), message@)),
        None => match found {
            Lookup::Found(o) => r == Ok::<Organization, Plain>(o),
            Lookup::Missing => turned_away(r, fragment(404, "Organization not found."@)),
            Lookup::Failed => turned_away(r, fragment(500, "lookup failed"@)),
        },
    }
}

/// Lets members of an organization, and system admins, see it with its roster.
/// `message` is what those are told who may not.
pub fn plan_org_detail(standing: &Standing, found: Lookup<Organization>, message: &str) -> (r: Result<
    Organization,
    Plain,
>)
    ensures
        plan_org_detail_outcome(r, *standing, found, message),
{
    match authorize(standing, Need::Read) {
        Ok(()) => require_organization(found),
        Err(e) => Err(app_error_fragment(&e, message)),
    }
}

/// Whether `r` is what [`listed_orgs`] owes its caller.
pub open spec fn listed_orgs_outcome(
    r: Result<Vec<Organization>, Plain>,
    actor: User,
    listed: Option<Vec<Organization>>,
) -> bool {
    &&& !actor.is_system_admin ==> turned_away(r, not_admin())
    &&& actor.is_system_admin ==> match listed {
        Some(rows) => r == Ok::<Vec<Organization>, Plain>(rows),
        None => turned_away(r, fragment(500, "failed to load organizations"@)),
    }
}

/// The organizations that a system admin is shown; `None` where they could not
/// be listed.
pub fn listed_orgs(actor: &User, listed: Option<Vec<Organization>>) -> (r: Result<
    Vec<Organization>,
    Plain,
>)
    ensures
        listed_orgs_outcome(r, *actor, listed),
{
    match admin_only(actor) {
        Ok(()) => {},
        Err(reply) => return Err(reply),
    }
    match listed {
        Some(rows) => Ok(rows),
        None => Err(error_fragment(500, "failed to load organizations")),
    }
}

/// Whether `r` is what [`listed_users`] owes its caller.
pub open spec fn listed_users_outcome(
    r: Result<Vec<User>, Plain>,
    actor: User,
    listed: Option<Vec<User>>,
) -> bool {
    &&& !actor.is_system_admin ==> turned_away(r, not_admin())
    &&& actor.is_system_admin ==> match listed {
        Some(rows) => r == Ok::<Vec<User>, Plain>(rows),
        None => turned_away(r, fragment(500, "failed to load users"@)),
    }
}

/// The users that a system admin is shown; `None` where they could not be
/// listed.
pub fn listed_users(actor: &User, listed: Option<Vec<User>>) -> (r: Result<Vec<User>, Plain>)
    ensures
        listed_users_outcome(r, *actor, listed),
{
    match admin_only(actor) {
        Ok(()) => {},
        Err(reply) => return Err(reply),
    }
    match listed {
        Some(rows) => Ok(rows),
        None => Err(error_fragment(500, "failed to load users")),
    }
}

/// Whether `r` is what [`org_deleted`] owes its caller.
pub open spec fn org_deleted_outcome(
    r: PlainDone,
    actor: User,
    request_id: Uuid,
    current: Organization,
    result: Option<bool>,
) -> bool {
    match result {
        Some(true) => r.recorded(
            entry(
                admin_context(actor, Some(current.id), request_id),
                "organization.delete"@,
                "organization"@,
                current.id,
                seq![
                    detail("name"@, FactView::Text(current.name@)),
                    detail("slug"@, FactView::Text(current.slug@)),
                ],
            ),
            PlainView::Redirect { to: "/admin/orgs"@ },
        ),
        Some(false) => r.unrecorded(fragment(404, "Organization not found."@)),
        None => r.unrecorded(fragment(500, "failed to delete organization"@)),
    }
}

/// How deleting the organization `current` ended; `None` where the database
/// failed.
pub fn org_deleted(
    actor: &User,
    request_id: Uuid,
    current: &Organization,
    result: Option<bool>,
) -> (r: PlainDone)
    ensures
        org_deleted_outcome(r, *actor, request_id, *current, result),
{
    match result {
        Some(true) => saved(
            AuditEntry::new(
                context(actor, Some(current.id), request_id),
                "organization.delete",
                "organization",
                current.id,
            ).with("name", text(current.name.as_str())).with("slug", text(current.slug.as_str())),
            "/admin/orgs",
        ),
        Some(false) => unsaved(404, "Organization not found."),
        None => unsaved(500, "failed to delete organization"),
    }
}

/// A member on the roster.
pub struct RosterRow {
    pub username: String,
    pub role: &'static str,
    pub is_principal: bool,
}

/// Whether `row` shows the member `m`.
pub open spec fn shows_on_roster(row: RosterRow, m: Membership, user: Option<User>) -> bool {
    &&& row.username@ == shown_username(user, m.user_id)
    &&& row.role@ == m.role.name()
    &&& row.is_principal == m.is_principal
}

/// Whether `r` is what [`roster`] owes its caller.
pub open spec fn roster_outcome(
    r: Result<Vec<RosterRow>, Plain>,
    members: Option<&Vec<(Membership, Option<User>)>>,
) -> bool {
    match members {
        None => turned_away(r, fragment(500, "failed to load members"@)),
        Some(ms) => r is Ok && r->Ok_0@.len() == ms@.len() && forall|i: int|
            0 <= i < ms@.len() ==> shows_on_roster(
                #[trigger] r->Ok_0@[i],
                ms@[i].0,
                ms@[i].1,
            ),
    }
}

/// The roster of an organization; `None` where the members could not be listed.
pub fn roster(members: Option<&Vec<(Membership, Option<User>)>>) -> (r: Result<
    Vec<RosterRow>,
    Plain,
>)
    ensures
        roster_outcome(r, members),
{
    let ms: &Vec<(Membership, Option<User>)> = match members {
        Some(ms) => ms,
        None => return Err(error_fragment(500, "failed to load members")),
    };
    let mut out: Vec<RosterRow> = Vec::new();
    let mut i: usize = 0;
    while i < ms.len()
        invariant
            i <= ms.len(),
            out@.len() == i,
            forall|k: int|
                0 <= k < i ==> shows_on_roster(#[trigger] out@[k], ms@[k].0, ms@[k].1),
        decreases ms.len() - i,
    {
        let m: &Membership = &ms[i].0;
        out.push(
            RosterRow {
                username: username_of(&ms[i].1, m.user_id),
                role: m.role.as_str(),
                is_principal: m.is_principal,
            },
        );
        i = i + 1;
    }
    Ok(out)
}

/// The form that creates a user, as it was submitted.
pub struct CreateUserForm {
    pub username: String,
    pub display_name: String,
    pub email: Option<String>,
    pub password: String,
    pub is_system_admin: Option<String>,
}

/// What is stored of a new user besides the password.
pub struct NewUser {
    pub email: Option<String>,
    pub is_system_admin: bool,
}

/// Whether `r` is what [`plan_create_user`] owes its caller.
pub open spec fn plan_create_user_outcome(
    r: Result<NewUser, Plain>,
    actor: User,
    form: CreateUserForm,
) -> bool {
    &&& !actor.is_system_admin ==> turned_away(r, not_admin())
    &&& actor.is_system_admin && (trimmed(form.username@).len() == 0 || form.password@.len()
        == 0) ==> turned_away(r, fragment(400, "Username and password are required."@))
    &&& actor.is_system_admin && trimmed(form.username@).len() > 0 && form.password@.len() > 0
        ==> {
        &&& r is Ok
        &&& r->Ok_0.email == (match form.email {
            Some(e) => if trimmed(e@).len() == 0 {
                None
            } else {
                Some(e)
            },
            None => None,
        })
        &&& r->Ok_0.is_system_admin == (text_of(form.is_system_admin) == Some("true"@))
    }
}

/// What is stored of a new user, from the form. A blank address is none.
pub fn plan_create_user(actor: &User, form: &CreateUserForm) -> (r: Result<NewUser, Plain>)
    ensures
        plan_create_user_outcome(r, *actor, *form),
{
    match admin_only(actor) {
        Ok(()) => {},
        Err(reply) => return Err(reply),
    }
    if trim(form.username.as_str()).is_empty() || form.password.as_str().is_empty() {
        return Err(error_fragment(400, "Username and password are required."));
    }
    let email: Option<String> = match &form.email {
        Some(e) => {
            if trim(e.as_str()).is_empty() {
                None
            } else {
                Some(e.clone())
            }
        },
        None => None,
    };
    let is_system_admin: bool = match &form.is_system_admin {
        Some(v) => same(v.as_str(), "true"),
        None => false,
    };
    Ok(NewUser { email, is_system_admin })
}

/// Why a user was not stored.
pub enum UserError {
    DuplicateUsername,
    Database,
}

/// Whether `r` is what [`user_created`] owes its caller.
pub open spec fn user_created_outcome(
    r: PlainDone,
    actor: User,
    request_id: Uuid,
    result: Result<User, UserError>,
) -> bool {
    match result {
        Ok(u) => r.recorded(
            entry(
                admin_context(actor, None, request_id),
                "user.create"@,
                "user"@,
                u.id,
                seq![
                    detail("username"@, FactView::Text(u.username@)),
                    detail("isSystemAdmin"@, FactView::Flag(u.is_system_admin)),
                ],
            ),
            PlainView::Redirect { to: "/admin/users"@ },
        ),
        Err(UserError::DuplicateUsername) => r.unrecorded(
            fragment(409, "This username already exists."@),
        ),
        Err(UserError::Database) => r.unrecorded(fragment(500, "failed to create user"@)),
    }
}

/// How creating a user ended. A password that could not be hashed counts as a
/// failure of the database.
pub fn user_created(actor: &User, request_id: Uuid, result: Result<User, UserError>) -> (r:
    PlainDone)
    ensures
        user_created_outcome(r, *actor, request_id, result),
{
    match result {
        Ok(u) => saved(
            AuditEntry::new(context(actor, None, request_id), "user.create", "user", u.id).with(
                "username",
                text(u.username.as_str()),
            ).with("isSystemAdmin", Fact::Flag(u.is_system_admin)),
            "/admin/users",
        ),
        Err(UserError::DuplicateUsername) => unsaved(409, "This username already exists."),
        Err(UserError::Database) => unsaved(500, "failed to create user"),
    }
}

/// Whether `r` is what [`require_user`] owes its caller.
pub open spec fn require_user_outcome(r: Result<User, Plain>, found: Lookup<User>) -> bool {
    match found {
        Lookup::Found(u) => r == Ok::<User, Plain>(u),
        Lookup::Missing => turned_away(r, fragment(404, "User not found."@)),
        Lookup::Failed => turned_away(r, fragment(500, "lookup failed"@)),
    }
}

/// The user to delete.
pub fn require_user(found: Lookup<User>) -> (r: Result<User, Plain>)
    ensures
        require_user_outcome(r, found),
{
    match found {
        Lookup::Found(u) => Ok(u),
        Lookup::Missing => Err(error_fragment(404, "User not found.")),
        Lookup::Failed => Err(error_fragment(500, "lookup failed")),
    }
}

/// Why a row was not deleted.
pub enum DeleteError {
    /// Other rows still refer to it.
    Referenced,
    Database,
}

/// Whether `r` is what [`user_deleted`] owes its caller.
pub open spec fn user_deleted_outcome(
    r: PlainDone,
    actor: User,
    request_id: Uuid,
    current: User,
    result: Result<bool, DeleteError>,
) -> bool {
    match result {
        Ok(true) => r.recorded(
            entry(
                admin_context(actor, None, request_id),
                "user.delete"@,
                "user"@,
                current.id,
                seq![detail("username"@, FactView::Text(current.username@))],
            ),
            PlainView::Redirect { to: "/admin/users"@ },
        ),
        Ok(false) => r.unrecorded(fragment(404, "User not found."@)),
        Err(DeleteError::Referenced) => r.unrecorded(
            fragment(
                409,
                "This user is still referenced by a membership, part assignment, or annotation."@,
            ),
        ),
        Err(DeleteError::Database) => r.unrecorded(fragment(500, "failed to delete user"@)),
    }
}

/// How deleting the user `current` ended.
pub fn user_deleted(
    actor: &User,
    request_id: Uuid,
    current: &User,
    result: Result<bool, DeleteError>,
) -> (r: PlainDone)
    ensures
        user_deleted_outcome(r, *actor, request_id, *current, result),
{
    match result {
        Ok(true) => saved(
            AuditEntry::new(
                context(actor, None, request_id),
                "user.delete",
                "user",
                current.id,
            ).with("username", text(current.username.as_str())),
            "/admin/users",
        ),
        Ok(false) => unsaved(404, "User not found."),
        Err(DeleteError::Referenced) => unsaved(
            409,
            "This user is still referenced by a membership, part assignment, or annotation.",
        ),
        Err(DeleteError::Database) => unsaved(500, "failed to delete user"),
    }
}

/// Creating an organization is on record, with its name and slug, exactly where
/// it took place.
pub proof fn a_new_organization_is_on_record(
    r: PlainDone,
    actor: User,
    request_id: Uuid,
    result: Result<Organization, OrganizationError>,
)
    requires
        org_created_outcome(r, actor, request_id, result),
    ensures
        result matches Ok(o) ==> {
            &&& r.names(
                actor.id,
                Some(o.id),
                request_id,
                "organization.create"@,
                o.id,
            )
            &&& r.tells("name"@, FactView::Text(o.name@))
            &&& r.tells("slug"@, FactView::Text(o.slug@))
            &&& r.moves_on_to("/admin/orgs"@)
        },
        result is Err ==> r.fell_through(),
{
    broadcast use vstd::seq_lib::group_seq_properties;

}

/// Deleting an organization is on record, with the name and the slug it had,
/// exactly where it took place.
pub proof fn a_deleted_organization_is_on_record(
    r: PlainDone,
    actor: User,
    request_id: Uuid,
    current: Organization,
    result: Option<bool>,
)
    requires
        org_deleted_outcome(r, actor, request_id, current, result),
    ensures
        result == Some(true) ==> {
            &&& r.names(
                actor.id,
                Some(current.id),
                request_id,
                "organization.delete"@,
                current.id,
            )
            &&& r.tells("name"@, FactView::Text(current.name@))
            &&& r.tells("slug"@, FactView::Text(current.slug@))
            &&& r.moves_on_to("/admin/orgs"@)
        },
        result != Some(true) ==> r.fell_through(),
{
    broadcast use vstd::seq_lib::group_seq_properties;

}

/// Creating a user is on record, with their name and whether they administer the
/// system, exactly where it took place.
pub proof fn a_new_user_is_on_record(
    r: PlainDone,
    actor: User,
    request_id: Uuid,
    result: Result<User, UserError>,
)
    requires
        user_created_outcome(r, actor, request_id, result),
    ensures
        result matches Ok(u) ==> {
            &&& r.names(
                actor.id,
                None,
                request_id,
                "user.create"@,
                u.id,
            )
            &&& r.tells("username"@, FactView::Text(u.username@))
            &&& r.tells("isSystemAdmin"@, FactView::Flag(u.is_system_admin))
            &&& r.moves_on_to("/admin/users"@)
        },
        result is Err ==> r.fell_through(),
{
    broadcast use vstd::seq_lib::group_seq_properties;

}

/// Deleting a user is on record, with the name they had, exactly where it took
/// place.
pub proof fn a_deleted_user_is_on_record(
    r: PlainDone,
    actor: User,
    request_id: Uuid,
    current: User,
    result: Result<bool, DeleteError>,
)
    requires
        user_deleted_outcome(r, actor, request_id, current, result),
    ensures
        result == Ok::<bool, DeleteError>(true) ==> {
            &&& r.names(
                actor.id,
                None,
                request_id,
                "user.delete"@,
                current.id,
            )
            &&& r.tells("username"@, FactView::Text(current.username@))
            &&& r.moves_on_to("/admin/users"@)
        },
        result != Ok::<bool, DeleteError>(true) ==> r.fell_through(),
{
    broadcast use vstd::seq_lib::group_seq_properties;

}

/// System admins create organizations under any name that is not blank.
pub proof fn system_admins_create_organizations(r: Result<(), Plain>, actor: User, name: &str)
    requires
        plan_create_org_outcome(r, actor, name),
    ensures
        r is Ok <==> actor.is_system_admin && trimmed(name@).len() > 0,
        !actor.is_system_admin ==> (r->Err_0@ matches PlainView::Fragment { status, .. }
            && status == 403),
        actor.is_system_admin && r is Err ==> (r->Err_0@ matches PlainView::Fragment { status, .. }
            && status == 400),
{
}

/// System admins create a user with the address that was typed, unless it is
/// blank; the user administers the system exactly where the box was ticked.
pub proof fn a_user_is_created_as_the_form_says(
    r: Result<NewUser, Plain>,
    actor: User,
    form: CreateUserForm,
)
    requires
        plan_create_user_outcome(r, actor, form),
    ensures
        r is Ok <==> actor.is_system_admin && trimmed(form.username@).len() > 0
            && form.password@.len()
            > 0,
        r is Ok ==> (r->Ok_0.email is Some <==> form.email is Some
            && trimmed(form.email->0@).len() > 0),
        r is Ok && r->Ok_0.email is Some ==> r->Ok_0.email->0@ == form.email->0@,
        r is Ok ==> (r->Ok_0.is_system_admin <==> form.is_system_admin is Some
            && form.is_system_admin->0@ == "true"@),
        !actor.is_system_admin ==> (r->Err_0@ matches PlainView::Fragment { status, .. }
            && status == 403),
{
}

/// Every member of an organization sees it, and so do system admins; nobody else
/// is told whether it exists.
pub proof fn members_see_their_organization(
    r: Result<Organization, Plain>,
    standing: Standing,
    found: Lookup<Organization>,
    message: &str,
)
    requires
        plan_org_detail_outcome(r, standing, found, message),
    ensures
        r is Ok ==> (standing.caller.is_system_admin || standing.role is Found) && found
            == Lookup::Found(r->Ok_0),
        (standing.caller.is_system_admin || standing.role is Found) && found is Found ==> r is Ok,
        !standing.caller.is_system_admin && standing.role is Missing ==> r is Err && r->Err_0@ == (
        PlainView::Fragment { status: 403, message: message@ }),
        !standing.caller.is_system_admin && standing.role is Failed ==> r is Err && r->Err_0@ == (
        PlainView::Fragment { status: 500, message: message@ }),
{
}

/// The roster shows each member by their account's name, with their own role and
/// standing.
pub proof fn the_roster_shows_each_member(
    r: Result<Vec<RosterRow>, Plain>,
    members: Option<&Vec<(Membership, Option<User>)>>,
)
    requires
        roster_outcome(r, members),
    ensures
        members is None ==> r is Err,
        members is Some ==> r is Ok && r->Ok_0@.len() == members->0@.len(),
        members is Some ==> forall|i: int|
            0 <= i < members->0@.len() ==> {
                let (row, (m, user)) = (#[trigger] r->Ok_0@[i], members->0@[i]);
                &&& user is Some ==> row.username@ == user->0.username@
                &&& user is None ==> row.username@ == uuid_text(m.user_id)
                &&& row.role@ == m.role.name()
                &&& row.is_principal == m.is_principal
            },
{
    if members is Some {
        assert forall|i: int| 0 <= i < members->0@.len() implies shows_on_roster(
            #[trigger] r->Ok_0@[i],
            members->0@[i].0,
            members->0@[i].1,
        ) by {}
    }
}

/// System admins see the organizations that were listed, and nobody else does.
pub proof fn system_admins_see_all_organizations(
    r: Result<Vec<Organization>, Plain>,
    actor: User,
    listed: Option<Vec<Organization>>,
)
    requires
        listed_orgs_outcome(r, actor, listed),
    ensures
        r is Ok <==> actor.is_system_admin && listed is Some,
        r is Ok ==> r->Ok_0@ == listed->0@,
{
}

/// System admins see the users that were listed, and nobody else does.
pub proof fn system_admins_see_all_users(
    r: Result<Vec<User>, Plain>,
    actor: User,
    listed: Option<Vec<User>>,
)
    requires
        listed_users_outcome(r, actor, listed),
    ensures
        r is Ok <==> actor.is_system_admin && listed is Some,
        r is Ok ==> r->Ok_0@ == listed->0@,
{
}

/// Only who is logged in is led to the workspaces.
pub proof fn only_a_login_leads_inside(r: Plain, outcome: LoginOutcome)
    requires
        login_reply_outcome(r, outcome),
    ensures
        outcome is LoggedIn <==> r@ == (PlainView::Redirect { to: "/admin"@ }),
        outcome is InvalidCredentials ==> (r@ matches PlainView::Fragment { status, .. } && status
            == 401),
        outcome is Failed ==> r@ == PlainView::Status(500),
{
}

/// The list of workspaces shows a member each organization that they may enter,
/// with its name and their own standing there, and no other.
pub proof fn a_member_sees_the_workspaces_they_may_enter(
    rows: Seq<WorkspaceRow>,
    memberships: Seq<UserOrg>,
)
    requires
        rows_of(rows) == member_workspaces(memberships),
    ensures
        forall|k: int|
            0 <= k < memberships.len() && ((#[trigger] memberships[k]).role != Role::Musician
                || memberships[k].is_principal) ==> exists|i: int|
                0 <= i < rows.len() && is_row_of(#[trigger] rows[i], memberships[k]),
        forall|i: int|
            0 <= i < rows.len() ==> is_entered_by_one_of(#[trigger] rows[i], memberships),
        forall|i: int, j: int|
            0 <= i < j < rows.len() ==> !text_lt(
                (#[trigger] rows[j]).name@,
                (#[trigger] rows[i]).name@,
            ),
{
    let p = may_be_entered();
    let f = as_member_row();
    let kept = memberships.filter(p).map_values(f);
    let shown = member_workspaces(memberships);
    by_name_is_an_order();
    in_order_is_an_ordered_rearrangement(kept, by_name());
    kept.to_multiset_ensures();
    shown.to_multiset_ensures();
    let from = kept_from(memberships, p, f);
    assert(shown.len() == rows.len());
    assert forall|k: int|
        0 <= k < memberships.len() && ((#[trigger] memberships[k]).role != Role::Musician
            || memberships[k].is_principal) implies exists|i: int|
        0 <= i < rows.len() && is_row_of(#[trigger] rows[i], memberships[k]) by {
        assert(p(memberships[k]));
        let n = choose|n: int| 0 <= n < from.len() && from[n] == k;
        let x = f(memberships[k]);
        assert(kept[n] == x);
        assert(kept.contains(x));
        assert(kept.to_multiset().count(x) > 0);
        assert(shown.to_multiset().count(x) > 0);
        assert(shown.contains(x));
        let i = choose|i: int| 0 <= i < shown.len() && shown[i] == x;
        assert(rows_of(rows)[i] == rows[i]@);
        assert(is_row_of(rows[i], memberships[k]));
    }
    assert forall|i: int| 0 <= i < rows.len() implies is_entered_by_one_of(
        #[trigger] rows[i],
        memberships,
    ) by {
        let x = shown[i];
        assert(rows_of(rows)[i] == rows[i]@);
        assert(shown.contains(x));
        assert(shown.to_multiset().count(x) > 0);
        assert(kept.to_multiset().count(x) > 0);
        assert(kept.contains(x));
        let n = choose|n: int| 0 <= n < kept.len() && kept[n] == x;
        assert(0 <= from[n] < memberships.len());
        assert(p(memberships[from[n]]));
        assert(is_entered_as(rows[i], memberships, from[n]));
    }
    assert forall|i: int, j: int| 0 <= i < j < rows.len() implies !text_lt(
        (#[trigger] rows[j]).name@,
        (#[trigger] rows[i]).name@,
    ) by {
        assert(rows_of(rows)[i] == rows[i]@ && rows_of(rows)[j] == rows[j]@);
        assert(!by_name()(shown[j], shown[i]));
    }
}

/// Whether `row` is the workspace of the membership `m`.
pub open spec fn is_row_of(row: WorkspaceRow, m: UserOrg) -> bool {
    &&& row.id == m.organization_id
    &&& row.name@ == m.organization_name@
    &&& m.is_principal ==> row.role_label@ == m.role.name() + " (principal)"@
    &&& !m.is_principal ==> row.role_label@ == m.role.name()
}

/// Whether `row` is the workspace of the membership at `k`, who may enter it:
/// as staff, or as a principal.
pub open spec fn is_entered_as(row: WorkspaceRow, memberships: Seq<UserOrg>, k: int) -> bool {
    &&& 0 <= k < memberships.len()
    &&& is_row_of(row, memberships[k])
    &&& memberships[k].role != Role::Musician || memberships[k].is_principal
}

/// Whether `row` is the workspace of one of the memberships that may enter.
pub open spec fn is_entered_by_one_of(row: WorkspaceRow, memberships: Seq<UserOrg>) -> bool {
    exists|k: int| #[trigger] is_entered_as(row, memberships, k)
}

/// A system admin sees every organization, by its name and with the way into
/// it; their standing there is their own membership's, where they have one.
pub proof fn a_system_admin_sees_every_workspace(
    r: Option<usize>,
    before: Seq<WorkspaceRow>,
    after: Seq<WorkspaceRow>,
    page: Seq<Organization>,
    total: i64,
    memberships: Seq<UserOrg>,
)
    requires
        organizations_added(r, before, after, page, total, memberships),
    ensures
        r is None <==> page.len() == 0 || before.len() + page.len() >= total,
        r is Some && after.len() <= usize::MAX ==> r->0 == before.len() + page.len(),
        after.len() == before.len() + page.len(),
        forall|i: int| 0 <= i < before.len() ==> (#[trigger] after[i])@ == before[i]@,
        forall|k: int|
            0 <= k < page.len() ==> {
                let row = after[before.len() + k];
                &&& row.id == (#[trigger] page[k]).id
                &&& row.name@ == page[k].name@
                &&& (forall|j: int|
                    0 <= j < memberships.len() ==> (#[trigger] memberships[j]).organization_id
                        != page[k].id) ==> row.role_label@ == "system admin"@
                &&& forall|j: int|
                    0 <= j < memberships.len() && (#[trigger] memberships[j]).organization_id
                        == page[k].id && (forall|i: int|
                        0 <= i < j ==> (#[trigger] memberships[i]).organization_id != page[k].id)
                        ==> row.role_label@ == (if memberships[j].is_principal {
                        memberships[j].role.name() + " (principal)"@
                    } else {
                        memberships[j].role.name()
                    })
            },
{
    assert(rows_of(after).len() == after.len());
    assert forall|i: int| 0 <= i < before.len() implies (#[trigger] after[i])@ == before[i]@ by {
        assert(rows_of(after)[i] == rows_of(before)[i]);
    }
    assert forall|k: int| 0 <= k < page.len() implies {
        let row = after[before.len() + k];
        &&& row.id == (#[trigger] page[k]).id
        &&& row.name@ == page[k].name@
        &&& row.role_label@ == admin_label(memberships, page[k].id)
    } by {
        assert(rows_of(after)[before.len() + k] == admin_rows(memberships, page)[k]);
    }
    assert forall|org: Uuid| #[trigger] labels_are_right(memberships, org) by {
        lemma_admin_label(memberships, org);
    }
    assert forall|k: int| 0 <= k < page.len() implies labels_are_right(
        memberships,
        (#[trigger] page[k]).id,
    ) by {}
}

spec fn labels_are_right(memberships: Seq<UserOrg>, org: Uuid) -> bool {
    &&& (forall|j: int|
        0 <= j < memberships.len() ==> (#[trigger] memberships[j]).organization_id != org)
        ==> admin_label(memberships, org) == "system admin"@
    &&& forall|j: int|
        0 <= j < memberships.len() && (#[trigger] memberships[j]).organization_id == org && (
        forall|i: int| 0 <= i < j ==> (#[trigger] memberships[i]).organization_id != org)
            ==> admin_label(memberships, org) == (if memberships[j].is_principal {
            memberships[j].role.name() + " (principal)"@
        } else {
            memberships[j].role.name()
        })
}

proof fn lemma_admin_label(memberships: Seq<UserOrg>, org: Uuid)
    ensures
        labels_are_right(memberships, org),
    decreases memberships.len(),
{
    if memberships.len() > 0 {
        let rest = memberships.skip(1);
        lemma_admin_label(rest, org);
        if forall|j: int|
            0 <= j < memberships.len() ==> (#[trigger] memberships[j]).organization_id != org {
            assert(memberships[0].organization_id != org);
            assert forall|j: int| 0 <= j < rest.len() implies (#[trigger] rest[j]).organization_id
                != org by {
                assert(rest[j] == memberships[j + 1]);
            }
        }
        assert forall|j: int|
            0 <= j < memberships.len() && (#[trigger] memberships[j]).organization_id == org && (
            forall|i: int|
                0 <= i < j ==> (#[trigger] memberships[i]).organization_id != org) implies
            admin_label(memberships, org) == (if memberships[j].is_principal {
            memberships[j].role.name() + " (principal)"@
        } else {
            memberships[j].role.name()
        }) by {
            if j > 0 {
                assert(memberships[0].organization_id != org);
                assert(rest[j - 1] == memberships[j]);
                assert forall|i: int| 0 <= i < j - 1 implies (
                #[trigger] rest[i]).organization_id != org by {
                    assert(rest[i] == memberships[i + 1]);
                }
            }
        }
    }
}

/// Who has logged out is led to the login, and the token's cookie is cleared.
pub proof fn a_logout_leads_to_the_login(r: (Plain, Option<&'static str>), ok: bool)
    requires
        logout_reply_outcome(r, ok),
    ensures
        ok <==> r.0@ == (PlainView::Redirect { to: "/admin/login"@ }),
        ok <==> r.1 is Some,
        ok ==> r.1->0@ == "lied_csrf=; Path=/; Max-Age=0"@,
        !ok ==> r.0@ == PlainView::Status(500),
{
}

/// System admins go on, and nobody else does.
pub proof fn system_admins_alone_go_on(r: Result<(), Plain>, actor: User)
    requires
        admin_only_outcome(r, actor),
    ensures
        r is Ok <==> actor.is_system_admin,
        r is Err ==> (r->Err_0@ matches PlainView::Fragment { status, .. } && status == 403),
{
}

/// An organization that is gone is told from a lookup that failed.
pub proof fn an_organization_is_told_from_a_failure(
    r: Result<Organization, Plain>,
    found: Lookup<Organization>,
)
    requires
        require_organization_outcome(r, found),
    ensures
        r is Ok <==> found is Found,
        r is Ok ==> found == Lookup::Found(r->Ok_0),
        found is Missing ==> (r->Err_0@ matches PlainView::Fragment { status, .. }
            && status == 404),
        found is Failed ==> (r->Err_0@ matches PlainView::Fragment { status, .. } && status == 500),
{
}

/// A user who is gone is told from a lookup that failed.
pub proof fn a_user_is_told_from_a_failure(r: Result<User, Plain>, found: Lookup<User>)
    requires
        require_user_outcome(r, found),
    ensures
        r is Ok <==> found is Found,
        r is Ok ==> found == Lookup::Found(r->Ok_0),
        found is Missing ==> (r->Err_0@ matches PlainView::Fragment { status, .. }
            && status == 404),
        found is Failed ==> (r->Err_0@ matches PlainView::Fragment { status, .. } && status == 500),
{
}

/// Members are told where their organization is gone, or could not be looked up.
pub proof fn a_missing_organization_is_told_to_members(
    r: Result<Organization, Plain>,
    standing: Standing,
    found: Lookup<Organization>,
    message: &str,
)
    requires
        plan_org_detail_outcome(r, standing, found, message),
    ensures
        (standing.caller.is_system_admin || standing.role is Found) && found is Missing ==> r is Err
            && (
        r->Err_0@ matches PlainView::Fragment { status, .. } && status == 404),
        (standing.caller.is_system_admin || standing.role is Found) && found is Failed ==> r is Err
            && (
        r->Err_0@ matches PlainView::Fragment { status, .. } && status == 500),
{
}

} // verus!
