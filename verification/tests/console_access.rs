//! Who may enter the console, and what they see there.

use lied::console::{
    can_enter, deny_response, enter, home_sections, load_error_response, open_section, page_title,
    require_login, Access, ConsoleCtx, Section,
};
use lied::error::AppError;
use lied::id::Uuid;
use lied::model::{Lookup, Membership, Organization, Time, User};
use lied::reply::Reply;
use lied::role::Role;

fn at(millis: i64) -> Time {
    Time { millis, nanos: 0 }
}

fn access(role: Option<Role>, is_principal: bool, is_system_admin: bool) -> Access {
    Access {
        role,
        is_principal,
        is_system_admin,
    }
}

fn member(role: Role) -> Access {
    access(Some(role), false, false)
}

fn user(bits: u128, is_system_admin: bool) -> User {
    User {
        id: Uuid { bits },
        username: "ada".to_string(),
        slug: "ada".to_string(),
        display_name: "Ada".to_string(),
        email: None,
        is_system_admin,
        created_at: at(1),
        updated_at: at(2),
    }
}

fn org() -> Organization {
    Organization {
        id: Uuid { bits: 7 },
        name: "City Band".to_string(),
        slug: "city-band".to_string(),
        created_at: at(1),
        updated_at: at(2),
    }
}

fn membership(role: Role, is_principal: bool) -> Membership {
    Membership {
        id: Uuid { bits: 70 },
        user_id: Uuid { bits: 1 },
        organization_id: Uuid { bits: 7 },
        role,
        instrument_ids: vec![],
        is_principal,
        principal_instrument_ids: vec![],
        created_at: at(1),
        updated_at: at(2),
    }
}

#[test]
fn may_enter_matches_the_carve_out() {
    assert!(Access::may_enter(Role::Owner, false));
    assert!(Access::may_enter(Role::Archivist, false));
    assert!(Access::may_enter(Role::Conductor, false));
    // The carve-out: a plain musician cannot enter, a principal can.
    assert!(!Access::may_enter(Role::Musician, false));
    assert!(Access::may_enter(Role::Musician, true));
}

#[test]
fn owner_has_every_capability() {
    let a = member(Role::Owner);
    assert!(a.is_staff());
    assert!(a.can_edit_arrangements());
    assert!(a.can_build_collections());
    assert!(a.can_manage_members());
    assert!(a.can_author_global_annotations());
    assert!(a.can_view_coverage());
}

#[test]
fn archivist_edits_content_but_not_members_or_annotations() {
    let a = member(Role::Archivist);
    assert!(a.is_staff());
    assert!(a.can_edit_arrangements());
    assert!(a.can_build_collections());
    assert!(!a.can_manage_members());
    assert!(!a.can_author_global_annotations());
    assert!(a.can_view_coverage());
}

#[test]
fn conductor_plans_and_annotates_but_cannot_edit_arrangements_or_members() {
    let a = member(Role::Conductor);
    assert!(a.is_staff());
    assert!(!a.can_edit_arrangements());
    assert!(a.can_build_collections());
    assert!(!a.can_manage_members());
    assert!(a.can_author_global_annotations());
    assert!(a.can_view_coverage());
}

#[test]
fn principal_sees_only_coverage() {
    let a = access(Some(Role::Musician), true, false);
    assert!(!a.is_staff());
    assert!(!a.can_edit_arrangements());
    assert!(!a.can_build_collections());
    assert!(!a.can_manage_members());
    assert!(!a.can_author_global_annotations());
    assert!(a.can_view_coverage());
    assert_eq!(a.visible_sections(), vec![Section::Home, Section::Coverage]);
}

#[test]
fn system_admin_is_owner_equivalent() {
    let a = access(None, false, true);
    assert!(a.is_staff());
    assert!(a.can_edit_arrangements());
    assert!(a.can_manage_members());
    assert!(a.can_author_global_annotations());
    assert!(a.can_view_coverage());
}

#[test]
fn visible_sections_reflect_the_matrix() {
    assert_eq!(
        member(Role::Owner).visible_sections(),
        vec![
            Section::Home,
            Section::Arrangements,
            Section::Collections,
            Section::Coverage,
            Section::Annotations,
            Section::Search,
            Section::Members,
        ]
    );
    // Archivist: everything staff except global annotations and members.
    assert_eq!(
        member(Role::Archivist).visible_sections(),
        vec![
            Section::Home,
            Section::Arrangements,
            Section::Collections,
            Section::Coverage,
            Section::Search,
        ]
    );
    // Conductor: staff sections including annotations.
    assert_eq!(
        member(Role::Conductor).visible_sections(),
        vec![
            Section::Home,
            Section::Arrangements,
            Section::Collections,
            Section::Coverage,
            Section::Annotations,
            Section::Search,
        ]
    );
}

#[test]
fn role_names_read_back() {
    for role in [Role::Owner, Role::Archivist, Role::Conductor, Role::Musician] {
        assert_eq!(Role::parse(role.as_str()), Some(role));
    }
    assert_eq!(Role::parse("Owner"), None);
    assert_eq!(Role::parse(""), None);
}

#[test]
fn loading_a_console_needs_the_organization_and_a_way_in() {
    let ctx = ConsoleCtx::load(
        user(1, false),
        Lookup::Found(org()),
        Lookup::Found(membership(Role::Owner, false)),
    )
    .ok()
    .unwrap();
    assert_eq!(ctx.org().name, "City Band");
    assert_eq!(ctx.user().username, "ada");
    assert!(ctx.can_manage_members());

    let missing = ConsoleCtx::load(user(1, true), Lookup::Missing, Lookup::Missing);
    assert!(matches!(missing, Err(AppError::NotFound)));
    let broken = ConsoleCtx::load(user(1, true), Lookup::Failed, Lookup::Missing);
    assert!(matches!(broken, Err(AppError::Database)));
    let plain = ConsoleCtx::load(
        user(1, false),
        Lookup::Found(org()),
        Lookup::Found(membership(Role::Musician, false)),
    );
    assert!(matches!(plain, Err(AppError::Forbidden)));
    let stranger = ConsoleCtx::load(user(1, false), Lookup::Found(org()), Lookup::Missing);
    assert!(stranger.is_err());
    let admin = ConsoleCtx::load(user(1, true), Lookup::Found(org()), Lookup::Missing);
    assert!(admin.ok().unwrap().is_staff());
}

#[test]
fn can_enter_is_the_carve_out() {
    assert!(can_enter(Role::Musician, true));
    assert!(!can_enter(Role::Musician, false));
}

#[test]
fn anonymous_visitors_are_sent_to_the_login() {
    match require_login(None) {
        Err(Reply::Redirect { to }) => assert_eq!(to, "/admin/login"),
        _ => panic!("no redirect"),
    }
    assert!(require_login(Some(user(1, false))).is_ok());
    let entered = enter(
        Some(user(1, false)),
        Lookup::Found(org()),
        Lookup::Found(membership(Role::Conductor, false)),
    );
    assert!(entered.is_ok());
    let refused = enter(
        Some(user(1, false)),
        Lookup::Found(org()),
        Lookup::Found(membership(Role::Musician, false)),
    );
    assert_eq!(refused.err().unwrap().status(), 403);
}

#[test]
fn denials_carry_their_status() {
    assert_eq!(deny_response(404, "Not found", "gone").status(), 404);
    assert_eq!(load_error_response(&AppError::NotFound).status(), 404);
    assert_eq!(load_error_response(&AppError::Forbidden).status(), 403);
    assert_eq!(load_error_response(&AppError::Database).status(), 500);
}

#[test]
fn sections_open_only_for_those_who_see_them() {
    let principal = ConsoleCtx::load(
        user(1, false),
        Lookup::Found(org()),
        Lookup::Found(membership(Role::Musician, true)),
    )
    .ok()
    .unwrap();
    assert!(open_section(&principal, Section::Coverage).is_ok());
    assert_eq!(
        open_section(&principal, Section::Members).err().unwrap().status(),
        403
    );
    assert!(home_sections(&principal).contains(&Section::Coverage));
    assert!(!home_sections(&principal).contains(&Section::Members));
    assert!(page_title(&principal, Section::Coverage).contains("City Band"));
}

#[test]
fn section_paths_lie_under_the_organization() {
    let id = Uuid { bits: 7 };
    let base = format!("/admin/orgs/{}", id.text());
    assert!(Section::Coverage.path(id).starts_with(&base));
    assert!(Section::Coverage.path(id).ends_with("/coverage"));
    assert_eq!(Section::Members.segment(), "members");
}

#[test]
fn errors_never_look_like_a_success() {
    let errors = [
        (AppError::Validation(vec![]), 400),
        (AppError::Unauthorized, 401),
        (AppError::Forbidden, 403),
        (AppError::NotFound, 404),
        (AppError::Conflict("x".to_string()), 409),
        (AppError::PreconditionFailed, 412),
        (AppError::PayloadTooLarge("x".to_string()), 413),
        (AppError::UnsupportedMediaType("x".to_string()), 415),
        (AppError::RangeNotSatisfiable("x".to_string()), 416),
        (AppError::Database, 500),
        (AppError::Internal("x".to_string()), 500),
    ];
    for (error, status) in errors {
        assert_eq!(error.status(), status);
        assert!(error.status() >= 400);
    }
}

#[test]
fn whoever_enters_sees_coverage_and_the_list_agrees_with_the_door() {
    for role in [Role::Owner, Role::Archivist, Role::Conductor, Role::Musician] {
        for is_principal in [false, true] {
            let entered = ConsoleCtx::load(
                user(1, false),
                Lookup::Found(org()),
                Lookup::Found(membership(role, is_principal)),
            );
            assert_eq!(entered.is_ok(), can_enter(role, is_principal));
            if let Ok(ctx) = entered {
                assert!(ctx.can_view_coverage());
            }
        }
    }
}

#[test]
fn roles_are_labelled() {
    let label = |is_system_admin: bool, m: Lookup<Membership>| {
        ConsoleCtx::load(user(1, is_system_admin), Lookup::Found(org()), m)
            .ok()
            .unwrap()
            .role_label()
    };
    assert_eq!(label(false, Lookup::Found(membership(Role::Conductor, false))), "conductor");
    assert_eq!(label(true, Lookup::Missing), "system admin");
}
