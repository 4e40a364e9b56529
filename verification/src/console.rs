//! The per-organization console: who may enter it, which sections they see,
//! and how a request to it is answered when something stands in its way.

use vstd::prelude::*;
use crate::audit::AuditContext;
use crate::error::{AppError, ErrorView};
use crate::id::{uuid_text, Uuid};
use crate::lists::{filter_none, filter_step, kept_from};
use crate::model::{Lookup, Membership, Organization, User};
use crate::reply::{refused, Reply, ReplyView};
use crate::role::Role;

verus! {

/// The facts that a console request is judged by.
#[derive(Debug, Clone, Copy, PartialEq, Eq, Structural)]
pub struct Access {
    /// The caller's role in the organization; `None` for a system admin who is
    /// let in without a membership.
    pub role: Option<Role>,
    pub is_principal: bool,
    pub is_system_admin: bool,
}

/// Whether a member may enter the console: staff always, a musician only as a
/// principal.
pub open spec fn enters(role: Role, is_principal: bool) -> bool {
    role.staff() || is_principal
}

impl Access {
    pub open spec fn staff(self) -> bool {
        self.is_system_admin || (self.role is Some && self.role->0.staff())
    }

    pub open spec fn edits_arrangements(self) -> bool {
        self.is_system_admin || (self.role is Some && self.role->0.edits_arrangements())
    }

    pub open spec fn builds_collections(self) -> bool {
        self.is_system_admin || (self.role is Some && self.role->0.builds_collections())
    }

    pub open spec fn manages_members(self) -> bool {
        self.is_system_admin || (self.role is Some && self.role->0.manages_members())
    }

    pub open spec fn authors_global_annotations(self) -> bool {
        self.is_system_admin || (self.role is Some && self.role->0.authors_global_annotations())
    }

    pub open spec fn views_coverage(self) -> bool {
        self.staff() || self.is_principal
    }

    /// Whether a member with this role may enter the console at all.
    pub fn may_enter(role: Role, is_principal: bool) -> (r: bool)
        ensures
            r == enters(role, is_principal),
    {
        match role {
            Role::Owner | Role::Archivist | Role::Conductor => true,
            Role::Musician => is_principal,
        }
    }

    /// Whether the caller may do what `cap` grants to roles. A system admin may
    /// do everything.
    pub fn role_can<F: Fn(Role) -> bool>(&self, cap: F) -> (r: bool)
        requires
            forall|role: Role| #[trigger] call_requires(cap, (role,)),
        ensures
            self.is_system_admin ==> r,
            !self.is_system_admin && self.role is None ==> !r,
            !self.is_system_admin && self.role is Some ==> call_ensures(cap, (self.role->0,), r),
    {
        if self.is_system_admin {
            return true;
        }
        match self.role {
            Some(role) => cap(role),
            None => false,
        }
    }

    pub fn is_staff(&self) -> (r: bool)
        ensures
            r == self.staff(),
    {
        self.role_can(|role: Role| -> (b: bool)
            ensures b == role.staff()
            { role.is_staff() })
    }

    pub fn can_edit_arrangements(&self) -> (r: bool)
        ensures
            r == self.edits_arrangements(),
    {
        self.role_can(|role: Role| -> (b: bool)
            ensures b == role.edits_arrangements()
            { role.can_edit_arrangements() })
    }

    pub fn can_build_collections(&self) -> (r: bool)
        ensures
            r == self.builds_collections(),
    {
        self.role_can(|role: Role| -> (b: bool)
            ensures b == role.builds_collections()
            { role.can_build_collections() })
    }

    pub fn can_manage_members(&self) -> (r: bool)
        ensures
            r == self.manages_members(),
    {
        self.role_can(|role: Role| -> (b: bool)
            ensures b == role.manages_members()
            { role.can_manage_members() })
    }

    pub fn can_author_global_annotations(&self) -> (r: bool)
        ensures
            r == self.authors_global_annotations(),
    {
        self.role_can(|role: Role| -> (b: bool)
            ensures b == role.authors_global_annotations()
            { role.can_author_global_annotations() })
    }

    /// Coverage is the one section that a principal who is not staff may see.
    pub fn can_view_coverage(&self) -> (r: bool)
        ensures
            r == self.views_coverage(),
    {
        self.is_staff() || self.is_principal
    }

    /// The sections that the caller may see, in display order.
    pub fn visible_sections(&self) -> (r: Vec<Section>)
        ensures
            r@ == all_sections().filter(visible_for(*self)),
    {
        let all: [Section; 7] = [
            Section::Home,
            Section::Arrangements,
            Section::Collections,
            Section::Coverage,
            Section::Annotations,
            Section::Search,
            Section::Members,
        ];
        let mut out: Vec<Section> = Vec::new();
        let ghost visible = visible_for(*self);
        assert(all@ == all_sections());
        let mut i: usize = 0;
        proof {
            filter_none(all_sections(), visible);
        }
        while i < 7
            invariant
                i <= 7,
                all@ == all_sections(),
                visible == visible_for(*self),
                out@ == all_sections().take(i as int).filter(visible),
            decreases 7 - i,
        {
            proof {
                filter_step(all_sections(), i as int, visible);
            }
            if all[i].is_visible_to(self) {
                out.push(all[i]);
            }
            i = i + 1;
        }
        assert(all_sections().take(7) == all_sections());
        out
    }
}

/// A section of the console.
#[derive(Debug, Clone, Copy, PartialEq, Eq, Structural)]
pub enum Section {
    Home,
    Arrangements,
    Collections,
    Coverage,
    Annotations,
    Search,
    Members,
}

/// Every section, in display order.
pub open spec fn all_sections() -> Seq<Section> {
    seq![
        Section::Home,
        Section::Arrangements,
        Section::Collections,
        Section::Coverage,
        Section::Annotations,
        Section::Search,
        Section::Members,
    ]
}

/// The sections that a caller may see.
pub open spec fn visible_for(access: Access) -> spec_fn(Section) -> bool {
    |s: Section| s.visible_to(access)
}

/// The sections but for the landing page.
pub open spec fn but_home() -> spec_fn(Section) -> bool {
    |s: Section| s != Section::Home
}

impl Section {
    /// The section's name in the navigation.
    pub open spec fn label_view(self) -> Seq<char> {
        match self {
            Section::Home => "Home"@,
            Section::Arrangements => "Arrangements"@,
            Section::Collections => "Collections"@,
            Section::Coverage => "Coverage"@,
            Section::Annotations => "Global annotations"@,
            Section::Search => "Search"@,
            Section::Members => "Members"@,
        }
    }

    /// The section's part of a URL.
    pub open spec fn segment_view(self) -> Seq<char> {
        match self {
            Section::Home => "console"@,
            Section::Arrangements => "arrangements"@,
            Section::Collections => "collections"@,
            Section::Coverage => "coverage"@,
            Section::Annotations => "annotations"@,
            Section::Search => "search"@,
            Section::Members => "members"@,
        }
    }

    /// Whether a caller sees the section in the navigation, and may open it.
    pub open spec fn visible_to(self, access: Access) -> bool {
        match self {
            Section::Home => true,
            Section::Arrangements => access.staff(),
            Section::Search => access.staff(),
            Section::Collections => access.builds_collections(),
            Section::Coverage => access.views_coverage(),
            Section::Annotations => access.authors_global_annotations(),
            Section::Members => access.manages_members(),
        }
    }

    /// Whether a caller may look at the section but not change it.
    pub open spec fn read_only_for(self, access: Access) -> bool {
        match self {
            Section::Arrangements => !access.edits_arrangements(),
            Section::Coverage => true,
            _ => false,
        }
    }

    pub fn label(self) -> (r: &'static str)
        ensures
            r@ == self.label_view(),
    {
        match self {
            Section::Home => "Home",
            Section::Arrangements => "Arrangements",
            Section::Collections => "Collections",
            Section::Coverage => "Coverage",
            Section::Annotations => "Global annotations",
            Section::Search => "Search",
            Section::Members => "Members",
        }
    }

    pub fn segment(self) -> (r: &'static str)
        ensures
            r@ == self.segment_view(),
    {
        match self {
            Section::Home => "console",
            Section::Arrangements => "arrangements",
            Section::Collections => "collections",
            Section::Coverage => "coverage",
            Section::Annotations => "annotations",
            Section::Search => "search",
            Section::Members => "members",
        }
    }

    /// The section's URL within an organization.
    pub fn path(self, org_id: Uuid) -> (r: String)
        ensures
            r@ == org_url(org_id) + "/"@ + self.segment_view(),
    {
        let mut out: String = org_path(org_id);
        out.append("/");
        out.append(self.segment());
        out
    }

    /// The ticket that brings the section's screen, while it has none.
    pub fn follow_up(self) -> (r: Option<&'static str>)
        ensures
            match self {
                Section::Home => r is None,
                Section::Arrangements => r is Some && r->0@ == "#31 / #32"@,
                Section::Collections => r is Some && r->0@ == "#33"@,
                Section::Coverage => r is Some && r->0@ == "#35"@,
                Section::Annotations => r is Some && r->0@ == "#36"@,
                Section::Search => r is Some && r->0@ == "#34"@,
                Section::Members => r is None,
            },
    {
        match self {
            Section::Home => None,
            Section::Arrangements => Some("#31 / #32"),
            Section::Collections => Some("#33"),
            Section::Coverage => Some("#35"),
            Section::Annotations => Some("#36"),
            Section::Search => Some("#34"),
            Section::Members => None,
        }
    }

    /// Whether `access` may see this section, and so open it.
    pub fn is_visible_to(self, access: &Access) -> (r: bool)
        ensures
            r == self.visible_to(*access),
    {
        match self {
            Section::Home => true,
            Section::Arrangements | Section::Search => access.is_staff(),
            Section::Collections => access.can_build_collections(),
            Section::Coverage => access.can_view_coverage(),
            Section::Annotations => access.can_author_global_annotations(),
            Section::Members => access.can_manage_members(),
        }
    }

    /// Whether this section is read-only for `access`.
    pub fn is_read_only_for(self, access: &Access) -> (r: bool)
        ensures
            r == self.read_only_for(*access),
    {
        match self {
            Section::Arrangements => !access.can_edit_arrangements(),
            Section::Coverage => true,
            _ => false,
        }
    }
}

/// The URL below which an organization's console lies.
pub open spec fn org_url(org_id: Uuid) -> Seq<char> {
    "/admin/orgs/"@ + uuid_text(org_id)
}

/// The URL below which an organization's console lies.
pub fn org_path(org_id: Uuid) -> (r: String)
    ensures
        r@ == org_url(org_id),
{
    let mut out: String = "/admin/orgs/".to_owned();
    out.append(org_id.text().as_str());
    out
}

/// A console request that was let in: the user, the organization they are
/// working in, and their access there.
pub struct ConsoleCtx {
    user: User,
    org: Organization,
    access: Access,
}

/// What a caller's access to an organization is, or why they have none.
pub open spec fn access_in(
    is_system_admin: bool,
    org: Lookup<Organization>,
    membership: Lookup<Membership>,
) -> Result<Access, ErrorView> {
    if is_system_admin {
        match org {
            Lookup::Found(_) => Ok(
                Access { role: None, is_principal: false, is_system_admin: true },
            ),
            Lookup::Missing => Err(ErrorView::NotFound),
            Lookup::Failed => Err(ErrorView::Database),
        }
    } else if org is Failed || membership is Failed {
        Err(ErrorView::Database)
    } else if org is Missing {
        Err(ErrorView::NotFound)
    } else {
        match membership {
            Lookup::Found(m) => if enters(m.role, m.is_principal) {
                Ok(
                    Access {
                        role: Some(m.role),
                        is_principal: m.is_principal,
                        is_system_admin: false,
                    },
                )
            } else {
                Err(ErrorView::Forbidden)
            },
            _ => Err(ErrorView::Forbidden),
        }
    }
}

/// Whether `r` is what comes of a user asking to be let in.
pub open spec fn is_let_in(
    r: Result<ConsoleCtx, AppError>,
    user: User,
    org: Lookup<Organization>,
    membership: Lookup<Membership>,
) -> bool {
    match r {
        Ok(ctx) => {
            &&& access_in(user.is_system_admin, org, membership) == Ok::<Access, ErrorView>(
                ctx.access_of(),
            )
            &&& ctx.user_of() == user
            &&& org == Lookup::Found(ctx.org_of())
        },
        Err(e) => access_in(user.is_system_admin, org, membership) == Err::<Access, ErrorView>(e@),
    }
}

/// Whether a member may enter: as anything but a plain musician.
pub open spec fn is_more_than_musician(membership: Lookup<Membership>) -> bool {
    membership matches Lookup::Found(m) && (m.role != Role::Musician || m.is_principal)
}

/// Whoever is let in works in the organization that they asked for, under their
/// own name and in their own role: a system admin in any organization, anyone
/// else as staff of it or as a principal.
pub proof fn whoever_is_let_in_works_as_themselves(
    r: Result<ConsoleCtx, AppError>,
    user: User,
    org: Lookup<Organization>,
    membership: Lookup<Membership>,
)
    requires
        is_let_in(r, user, org, membership),
    ensures
        r is Ok <==> org is Found && (user.is_system_admin || is_more_than_musician(membership)),
        r matches Ok(ctx) ==> {
            &&& ctx.user_of() == user
            &&& org == Lookup::Found(ctx.org_of())
            &&& ctx.access_of().is_system_admin == user.is_system_admin
            &&& !user.is_system_admin ==> (membership matches Lookup::Found(m)
                && ctx.access_of().role == Some(m.role) && ctx.access_of().is_principal
                == m.is_principal)
        },
        user.is_system_admin && org is Missing ==> r->Err_0@.status() == 404,
        !user.is_system_admin && org is Found && membership is Missing
            ==> r->Err_0@.status() == 403,
        org is Failed ==> r is Err && r->Err_0@.status() == 500,
{
}

/// A caller's standing, as shown beside the organization's name.
pub open spec fn standing_of(access: Access) -> Seq<char> {
    if access.is_system_admin {
        "system admin"@
    } else {
        match access.role {
            Some(role) => role.name(),
            None => Seq::empty(),
        }
    }
}

/// A system admin is shown as one, and everyone else in their own role.
pub proof fn everyone_is_shown_in_their_own_role(access: Access, role: Role)
    ensures
        access.is_system_admin ==> standing_of(access) == "system admin"@,
        !access.is_system_admin && access.role == Some(role) ==> standing_of(access) == role.name(),
{
}

impl ConsoleCtx {
    pub closed spec fn user_of(self) -> User {
        self.user
    }

    pub closed spec fn org_of(self) -> Organization {
        self.org
    }

    pub closed spec fn access_of(self) -> Access {
        self.access
    }

    /// Lets `user` into an organization's console. A system admin enters any
    /// organization that exists and needs no membership; anyone else is judged
    /// by theirs.
    pub fn load(user: User, org: Lookup<Organization>, membership: Lookup<Membership>) -> (r: Result<
        ConsoleCtx,
        AppError,
    >)
        ensures
            is_let_in(r, user, org, membership),
    {
        if user.is_system_admin {
            return match org {
                Lookup::Found(org) => Ok(
                    ConsoleCtx {
                        user,
                        org,
                        access: Access { role: None, is_principal: false, is_system_admin: true },
                    },
                ),
                Lookup::Missing => Err(AppError::NotFound),
                Lookup::Failed => Err(AppError::Database),
            };
        }
        match (org, membership) {
            (Lookup::Failed, _) => Err(AppError::Database),
            (_, Lookup::Failed) => Err(AppError::Database),
            (Lookup::Missing, _) => Err(AppError::NotFound),
            (Lookup::Found(_), Lookup::Missing) => Err(AppError::Forbidden),
            (Lookup::Found(org), Lookup::Found(m)) => {
                if !Access::may_enter(m.role, m.is_principal) {
                    return Err(AppError::Forbidden);
                }
                Ok(
                    ConsoleCtx {
                        user,
                        org,
                        access: Access {
                            role: Some(m.role),
                            is_principal: m.is_principal,
                            is_system_admin: false,
                        },
                    },
                )
            },
        }
    }

    pub fn is_staff(&self) -> (r: bool)
        ensures
            r == self.access_of().staff(),
    {
        self.access.is_staff()
    }

    pub fn can_edit_arrangements(&self) -> (r: bool)
        ensures
            r == self.access_of().edits_arrangements(),
    {
        self.access.can_edit_arrangements()
    }

    pub fn can_build_collections(&self) -> (r: bool)
        ensures
            r == self.access_of().builds_collections(),
    {
        self.access.can_build_collections()
    }

    pub fn can_manage_members(&self) -> (r: bool)
        ensures
            r == self.access_of().manages_members(),
    {
        self.access.can_manage_members()
    }

    pub fn can_author_global_annotations(&self) -> (r: bool)
        ensures
            r == self.access_of().authors_global_annotations(),
    {
        self.access.can_author_global_annotations()
    }

    pub fn can_view_coverage(&self) -> (r: bool)
        ensures
            r == self.access_of().views_coverage(),
    {
        self.access.can_view_coverage()
    }

    /// The caller's standing, as shown beside the organization's name.
    pub fn role_label(&self) -> (r: String)
        ensures
            r@ == standing_of(self.access_of()),
    {
        if self.access.is_system_admin {
            "system admin".to_owned()
        } else {
            match self.access.role {
                Some(role) => role.as_str().to_owned(),
                None => String::new(),
            }
        }
    }

    /// The organization that this request works in.
    pub fn org(&self) -> (r: &Organization)
        ensures
            *r == self.org_of(),
    {
        &self.org
    }

    /// The user who is logged in.
    pub fn user(&self) -> (r: &User)
        ensures
            *r == self.user_of(),
    {
        &self.user
    }

    /// The caller's access.
    pub fn access(&self) -> (r: &Access)
        ensures
            *r == self.access_of(),
    {
        &self.access
    }

    /// Under whose name, where and under which request a write is recorded.
    pub open spec fn audit_context(self, request_id: Uuid) -> AuditContext {
        AuditContext {
            actor_user_id: Some(self.user_of().id),
            org_id: Some(self.org_of().id),
            request_id: Some(request_id),
        }
    }

    pub fn audit_ctx(&self, request_id: Uuid) -> (r: AuditContext)
        ensures
            r == self.audit_context(request_id),
    {
        AuditContext {
            actor_user_id: Some(self.user.id),
            org_id: Some(self.org.id),
            request_id: Some(request_id),
        }
    }
}

/// Whether a member with this role may enter the console.
pub fn can_enter(role: Role, is_principal: bool) -> (r: bool)
    ensures
        r == enters(role, is_principal),
{
    Access::may_enter(role, is_principal)
}

/// How a request is answered that was not let into a console.
pub open spec fn load_error_view(e: ErrorView) -> ReplyView {
    match e {
        ErrorView::NotFound => ReplyView::Denied {
            status: 404,
            heading: "Not found"@,
            message: "That organization does not exist."@,
        },
        ErrorView::Forbidden => ReplyView::Denied {
            status: 403,
            heading: "No access"@,
            message: "You do not have access to this organization's console."@,
        },
        _ => ReplyView::Denied {
            status: 500,
            heading: "Error"@,
            message: "Something went wrong loading this workspace."@,
        },
    }
}

/// A page outside any console, with a link back to the workspaces.
pub fn deny_response(status: u16, heading: &str, message: &str) -> (r: Reply)
    ensures
        r@ == (ReplyView::Denied { status, heading: heading@, message: message@ }),
{
    Reply::Denied { status, heading: heading.to_owned(), message: message.to_owned() }
}

/// Answers a request that [`ConsoleCtx::load`] did not let in.
pub fn load_error_response(err: &AppError) -> (r: Reply)
    ensures
        r@ == load_error_view(err@),
{
    match err {
        AppError::NotFound => deny_response(404, "Not found", "That organization does not exist."),
        AppError::Forbidden => deny_response(
            403,
            "No access",
            "You do not have access to this organization's console.",
        ),
        _ => deny_response(500, "Error", "Something went wrong loading this workspace."),
    }
}

/// Whether `r` is what [`require_login`] owes its caller.
pub open spec fn require_login_outcome(r: Result<User, Reply>, session: Option<User>) -> bool {
    match session {
        Some(user) => r == Ok::<User, Reply>(user),
        None => refused(r, ReplyView::Redirect { to: "/admin/login"@ }),
    }
}

/// The user of a session, or the way to the login page where there is none.
pub fn require_login(session: Option<User>) -> (r: Result<User, Reply>)
    ensures
        require_login_outcome(r, session),
{
    match session {
        Some(user) => Ok(user),
        None => Err(Reply::Redirect { to: "/admin/login".to_owned() }),
    }
}

/// Whether `r` is what [`enter`] owes its caller.
pub open spec fn enter_outcome(
    r: Result<ConsoleCtx, Reply>,
    session: Option<User>,
    org: Lookup<Organization>,
    membership: Lookup<Membership>,
) -> bool {
    match session {
        None => refused(r, ReplyView::Redirect { to: "/admin/login"@ }),
        Some(user) => match access_in(user.is_system_admin, org, membership) {
            Ok(access) => r is Ok && r->Ok_0.access_of() == access && r->Ok_0.user_of() == user
                && org == Lookup::Found(r->Ok_0.org_of()),
            Err(e) => refused(r, load_error_view(e)),
        },
    }
}

/// Lets a session into an organization's console, or answers it.
pub fn enter(
    session: Option<User>,
    org: Lookup<Organization>,
    membership: Lookup<Membership>,
) -> (r: Result<ConsoleCtx, Reply>)
    ensures
        enter_outcome(r, session, org, membership),
{
    let user: User = match require_login(session) {
        Ok(user) => user,
        Err(reply) => return Err(reply),
    };
    match ConsoleCtx::load(user, org, membership) {
        Ok(ctx) => Ok(ctx),
        Err(e) => Err(load_error_response(&e)),
    }
}

/// Whether `r` is what [`open_section`] owes its caller.
pub open spec fn open_section_outcome(
    r: Result<bool, Reply>,
    ctx: ConsoleCtx,
    section: Section,
) -> bool {
    match r {
        Ok(read_only) => section.visible_to(ctx.access_of()) && read_only
            == section.read_only_for(ctx.access_of()),
        Err(e) => !section.visible_to(ctx.access_of()) && e@ == ReplyView::SectionForbidden,
    }
}

/// Opens a section: those the navigation shows it to may, all others may not.
pub fn open_section(ctx: &ConsoleCtx, section: Section) -> (r: Result<bool, Reply>)
    ensures
        open_section_outcome(r, *ctx, section),
{
    if section.is_visible_to(&ctx.access) {
        Ok(section.is_read_only_for(&ctx.access))
    } else {
        Err(Reply::SectionForbidden)
    }
}

/// Whether these are the sections that the landing page offers.
pub open spec fn are_offered(offered: Seq<Section>, access: Access) -> bool {
    offered == all_sections().filter(visible_for(access)).filter(but_home())
}

/// The sections that the console's landing page offers: all that the caller
/// may see, but for the landing page itself.
pub fn home_sections(ctx: &ConsoleCtx) -> (r: Vec<Section>)
    ensures
        are_offered(r@, ctx.access_of()),
{
    let visible: Vec<Section> = ctx.access.visible_sections();
    let ghost not_home = but_home();
    let mut out: Vec<Section> = Vec::new();
    let mut i: usize = 0;
    proof {
        filter_none(visible@, not_home);
    }
    while i < visible.len()
        invariant
            i <= visible.len(),
            not_home == but_home(),
            out@ == visible@.take(i as int).filter(not_home),
        decreases visible.len() - i,
    {
        proof {
            filter_step(visible@, i as int, not_home);
        }
        if visible[i] != Section::Home {
            out.push(visible[i]);
        }
        i = i + 1;
    }
    assert(visible@.take(visible@.len() as int) == visible@);
    out
}

/// The title of a console page.
pub fn page_title(ctx: &ConsoleCtx, active: Section) -> (r: String)
    ensures
        r@ == ctx.org_of().name@ + " — "@ + active.label_view(),
{
    let mut out: String = ctx.org.name.clone();
    out.append(" — ");
    out.append(active.label());
    out
}

/// The landing page that lists workspaces and the console itself agree on who
/// may enter: a member whose organization exists is let in exactly where
/// [`can_enter`] says so.
pub proof fn listing_and_entry_agree(org: Organization, membership: Membership)
    ensures
        access_in(false, Lookup::Found(org), Lookup::Found(membership)) is Ok <==> enters(
            membership.role,
            membership.is_principal,
        ),
{
}

/// A system admin sees and may do all that an owner does.
pub proof fn system_admin_is_owner_equivalent(admin: Access, owner: Access)
    requires
        admin.is_system_admin,
        owner.role == Some(Role::Owner),
    ensures
        admin.staff() == owner.staff(),
        admin.edits_arrangements() == owner.edits_arrangements(),
        admin.builds_collections() == owner.builds_collections(),
        admin.manages_members() == owner.manages_members(),
        admin.authors_global_annotations() == owner.authors_global_annotations(),
        admin.views_coverage() == owner.views_coverage(),
        forall|s: Section| #[trigger] s.visible_to(admin) == s.visible_to(owner),
{
}

/// Whoever is let in as a principal and no staff sees the landing page and
/// coverage, and nothing else.
pub proof fn principal_sees_only_coverage(access: Access, section: Section)
    requires
        access.role == Some(Role::Musician),
        access.is_principal,
        !access.is_system_admin,
    ensures
        section.visible_to(access) <==> section == Section::Home || section == Section::Coverage,
        section.visible_to(access) && section != Section::Home ==> section.read_only_for(access),
{
}

/// Everyone who is let in sees the landing page and coverage.
pub proof fn whoever_enters_sees_coverage(
    is_system_admin: bool,
    org: Lookup<Organization>,
    membership: Lookup<Membership>,
)
    requires
        access_in(is_system_admin, org, membership) is Ok,
    ensures
        Section::Home.visible_to(access_in(is_system_admin, org, membership)->Ok_0),
        Section::Coverage.visible_to(access_in(is_system_admin, org, membership)->Ok_0),
{
}

/// A session is let into the console that it asks for, as its own user; without
/// one the way leads to the login.
pub proof fn a_session_is_let_in_as_its_user(
    r: Result<ConsoleCtx, Reply>,
    session: Option<User>,
    org: Lookup<Organization>,
    membership: Lookup<Membership>,
)
    requires
        enter_outcome(r, session, org, membership),
    ensures
        session is None ==> r is Err && r->Err_0@ == (ReplyView::Redirect { to: "/admin/login"@ }),
        session matches Some(user) ==> (r is Ok <==> org is Found && (user.is_system_admin
            || is_more_than_musician(membership))),
        r matches Ok(ctx) ==> {
            &&& session == Some(ctx.user_of())
            &&& org == Lookup::Found(ctx.org_of())
            &&& ctx.access_of().is_system_admin == ctx.user_of().is_system_admin
            &&& !ctx.user_of().is_system_admin ==> (membership matches Lookup::Found(m)
                && ctx.access_of().role == Some(m.role) && ctx.access_of().is_principal
                == m.is_principal)
        },
        session is Some && r is Err ==> r->Err_0@ is Denied && r->Err_0@.status() >= 400,
{
}

/// A section is opened exactly to those it is meant for, and for reading only
/// where they may not change it.
pub proof fn a_section_is_opened_to_those_it_is_for(
    r: Result<bool, Reply>,
    ctx: ConsoleCtx,
    section: Section,
)
    requires
        open_section_outcome(r, ctx, section),
    ensures
        !section_is_for(section, ctx.access_of()) ==> r is Err && r->Err_0@.status() == 403,
        section_is_for(section, ctx.access_of()) ==> r is Ok,
        r is Ok && section == Section::Coverage ==> r->Ok_0,
        r is Ok && section == Section::Arrangements ==> (r->Ok_0 <==> !has_role(
            ctx.access_of(),
            Role::Owner,
            Role::Archivist,
            Role::Owner,
        )),
        r is Ok && section != Section::Coverage && section != Section::Arrangements ==> !r->Ok_0,
{
}

/// Whether someone has one of three roles, or administers the system.
pub open spec fn has_role(access: Access, a: Role, b: Role, c: Role) -> bool {
    access.is_system_admin || access.role == Some(a) || access.role == Some(b) || access.role
        == Some(c)
}

/// Whom a section is meant for.
pub open spec fn section_is_for(section: Section, access: Access) -> bool {
    let staff = has_role(access, Role::Owner, Role::Archivist, Role::Conductor);
    match section {
        Section::Home => true,
        Section::Arrangements => staff,
        Section::Search => staff,
        Section::Collections => staff,
        Section::Coverage => staff || access.is_principal,
        Section::Annotations => has_role(access, Role::Owner, Role::Conductor, Role::Owner),
        Section::Members => has_role(access, Role::Owner, Role::Owner, Role::Owner),
    }
}

/// Owners, archivists and conductors are staff and build collections; owners and
/// archivists edit arrangements; owners and conductors write annotations for
/// all; owners manage members. A system admin may do all of it.
pub proof fn each_role_may_do_its_own(access: Access)
    ensures
        access.staff() <==> has_role(access, Role::Owner, Role::Archivist, Role::Conductor),
        access.builds_collections() <==> has_role(
            access,
            Role::Owner,
            Role::Archivist,
            Role::Conductor,
        ),
        access.edits_arrangements() <==> has_role(
            access,
            Role::Owner,
            Role::Archivist,
            Role::Owner,
        ),
        access.authors_global_annotations() <==> has_role(
            access,
            Role::Owner,
            Role::Conductor,
            Role::Owner,
        ),
        access.manages_members() <==> has_role(access, Role::Owner, Role::Owner, Role::Owner),
        access.views_coverage() <==> has_role(
            access,
            Role::Owner,
            Role::Archivist,
            Role::Conductor,
        ) || access.is_principal,
        forall|section: Section| #[trigger]
            section.visible_to(access) <==> section_is_for(section, access),
{
}

/// What is written in the console is recorded under the user who is logged in,
/// the organization that they work in and the request that they made.
pub proof fn writes_are_recorded_under_the_caller(ctx: ConsoleCtx, request_id: Uuid)
    ensures
        ctx.audit_context(request_id).actor_user_id == Some(ctx.user_of().id),
        ctx.audit_context(request_id).org_id == Some(ctx.org_of().id),
        ctx.audit_context(request_id).request_id == Some(request_id),
{
}

/// A session speaks for its own user, and without one the way leads to the login.
pub proof fn a_session_speaks_for_its_user(r: Result<User, Reply>, session: Option<User>)
    requires
        require_login_outcome(r, session),
    ensures
        r is Ok <==> session is Some,
        r is Ok ==> session == Some(r->Ok_0),
        session is None ==> r->Err_0@ == (ReplyView::Redirect { to: "/admin/login"@ }),
{
}

/// Who is not let in is told whether the organization does not exist, is not open
/// to them, or could not be looked up.
pub proof fn who_is_kept_out_is_told_why(
    r: Result<ConsoleCtx, Reply>,
    session: Option<User>,
    org: Lookup<Organization>,
    membership: Lookup<Membership>,
)
    requires
        enter_outcome(r, session, org, membership),
    ensures
        session is Some && session->0.is_system_admin && org is Missing
            ==> r->Err_0@.status() == 404,
        session is Some && org is Failed ==> r->Err_0@.status() == 500,
        session is Some && !session->0.is_system_admin && org is Found && membership is Missing
            ==> r->Err_0@.status() == 403,
        session is Some && !session->0.is_system_admin && org is Found && (membership matches
            Lookup::Found(m) && m.role == Role::Musician && !m.is_principal) ==> r->Err_0@.status()
            == 403,
{
}

/// Each section has a name and a place of its own below its organization.
pub proof fn each_section_has_its_place(section: Section, org_id: Uuid)
    ensures
        org_url(org_id) == "/admin/orgs/"@ + uuid_text(org_id),
        section == Section::Home ==> section.segment_view() == "console"@ && section.label_view()
            == "Home"@,
        section == Section::Arrangements ==> section.segment_view() == "arrangements"@
            && section.label_view() == "Arrangements"@,
        section == Section::Collections ==> section.segment_view() == "collections"@
            && section.label_view() == "Collections"@,
        section == Section::Coverage ==> section.segment_view() == "coverage"@
            && section.label_view() == "Coverage"@,
        section == Section::Annotations ==> section.segment_view() == "annotations"@
            && section.label_view() == "Global annotations"@,
        section == Section::Search ==> section.segment_view() == "search"@ && section.label_view()
            == "Search"@,
        section == Section::Members ==> section.segment_view() == "members"@
            && section.label_view() == "Members"@,
{
}

/// The landing page offers each section that is meant for the caller, in the
/// order of the navigation and without itself.
pub proof fn the_landing_page_offers_what_is_meant_for_the_caller(
    offered: Seq<Section>,
    access: Access,
    section: Section,
)
    requires
        are_offered(offered, access),
    ensures
        offered.contains(section) <==> section_is_for(section, access) && section != Section::Home,
{
    broadcast use vstd::seq_lib::group_seq_properties;

    let all = all_sections();
    let seen = all.filter(visible_for(access));
    assert(all[0] == Section::Home && all[1] == Section::Arrangements && all[2]
        == Section::Collections && all[3] == Section::Coverage && all[4] == Section::Annotations
        && all[5] == Section::Search && all[6] == Section::Members);
    assert(all.contains(section));
    each_role_may_do_its_own(access);
    if section.visible_to(access) {
        assert(visible_for(access)(section));
        assert(seen.contains(section));
        if section != Section::Home {
            assert(but_home()(section));
            assert(offered.contains(section));
        }
    }
    if offered.contains(section) {
        let k = choose|k: int| 0 <= k < offered.len() && offered[k] == section;
        let id = |s: Section| s;
        let from = kept_from(seen, but_home(), id);
        assert(offered.map_values(id)[k] == offered[k]);
        assert(but_home()(seen[from[k]]) && seen[from[k]] == section);
        let first = kept_from(all, visible_for(access), id);
        assert(seen.map_values(id)[from[k]] == seen[from[k]]);
        assert(visible_for(access)(all[first[from[k]]]));
    }
}

} // verus!
