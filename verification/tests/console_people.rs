//! The console's members and files, and the pages outside any console.

use lied::api_auth::{
    app_password_created, app_password_revoked, dav_account, generation_failure, healthz,
    judge_password, password_to_check, proof_of_identity, readyz, require_identity, switched,
    token_minted, AppPasswordError, PasswordCheck, Proof,
};
use lied::api::{Caller, Standing};
use lied::audit::Fact;
use lied::console::ConsoleCtx;
use lied::console_files::{
    enter_target, file_deleted, file_undeleted, files_page, malformed_body, no_file,
    plan_file_write, plan_upload, replaced, upload_error_page, uploaded, RestoreError, Target,
};
use lied::error::AppError;
use lied::files::{upload_error_to_app_error, Stored, UploadError};
use lied::id::Uuid;
use lied::instance::{
    absorb_organizations, admin_only, app_error_fragment, list_member_workspaces, listed_orgs,
    listed_users, login_page, login_reply, logout_reply, org_created, org_deleted,
    plan_create_org, plan_create_user, plan_org_detail, require_organization, require_user, roster, user_created, user_deleted, workspace_href,
    CreateUserForm, DeleteError, LoginOutcome, OrganizationError, Plain, UserError, UserOrg,
    WorkspaceRow,
};
use lied::members::{
    member_added, member_edit_page, member_removed, member_updated, members_page, plan_add_member,
    plan_update_member, read_role, require_account, role_select, update_action, username_of,
    AddMemberForm, MembershipError, MembershipFields,
};
use lied::model::{Arrangement, File, Instrument, Lookup, Membership, Organization, Time, User, Voice};
use lied::reply::{Done, Reply};
use lied::role::Role;

fn at(millis: i64) -> Time {
    Time { millis, nanos: 0 }
}

const ORG: Uuid = Uuid { bits: 7 };
const REQUEST: Uuid = Uuid { bits: 99 };

fn user(bits: u128, name: &str, is_system_admin: bool) -> User {
    User {
        id: Uuid { bits },
        username: name.to_string(),
        slug: name.to_string(),
        display_name: name.to_string(),
        email: None,
        is_system_admin,
        created_at: at(1),
        updated_at: at(2),
    }
}

fn org(bits: u128, name: &str) -> Organization {
    Organization {
        id: Uuid { bits },
        name: name.to_string(),
        slug: name.to_lowercase(),
        created_at: at(1),
        updated_at: at(2),
    }
}

fn membership(bits: u128, org: Uuid, role: Role) -> Membership {
    Membership {
        id: Uuid { bits },
        user_id: Uuid { bits: 1 },
        organization_id: org,
        role,
        instrument_ids: vec![Uuid { bits: 41 }],
        is_principal: false,
        principal_instrument_ids: vec![],
        created_at: at(1),
        updated_at: at(800),
    }
}

fn ctx_as(role: Role) -> ConsoleCtx {
    ConsoleCtx::load(
        user(1, "ada", false),
        Lookup::Found(org(7, "City Band")),
        Lookup::Found(membership(70, ORG, role)),
    )
    .ok()
    .unwrap()
}

fn pairs(items: &[(&str, &str)]) -> Vec<(String, String)> {
    items
        .iter()
        .map(|(k, v)| (k.to_string(), v.to_string()))
        .collect()
}

fn error_of(reply: &Reply) -> (u16, String) {
    match reply {
        Reply::Error { status, message, .. } => (*status, message.clone()),
        _ => panic!("no error page"),
    }
}

fn action_of(done: &Done) -> String {
    done.audit.as_ref().unwrap().action.clone()
}

fn fragment_of(reply: &Plain) -> (u16, String) {
    match reply {
        Plain::Fragment { status, message } => (*status, message.clone()),
        _ => panic!("no message"),
    }
}

#[test]
fn members_are_added_by_owners() {
    let ctx = ctx_as(Role::Owner);
    let form = |name: &str, role: &str| AddMemberForm {
        username: Some(name.to_string()),
        role: Some(role.to_string()),
    };
    assert_eq!(
        plan_add_member(&ctx, &form(" bea ", "conductor")).ok(),
        Some(("bea".to_string(), Role::Conductor))
    );
    assert_eq!(
        error_of(&plan_add_member(&ctx, &form(" ", "owner")).err().unwrap()).1,
        "Username must not be empty."
    );
    assert_eq!(
        error_of(&plan_add_member(&ctx, &form("bea", "king")).err().unwrap()).1,
        "Please choose a valid role."
    );
    assert!(matches!(
        plan_add_member(&ctx_as(Role::Archivist), &form("bea", "owner")),
        Err(Reply::SectionForbidden)
    ));
    let name = "bea".to_string();
    assert_eq!(
        error_of(&require_account(&name, Lookup::Missing).err().unwrap()),
        (404, "No user with username \"bea\".".to_string())
    );
    assert!(require_account(&name, Lookup::Found(user(2, "bea", false))).is_ok());
    let end = |result| {
        member_added(&ctx, REQUEST, &name, Uuid { bits: 2 }, Role::Conductor, result)
    };
    assert_eq!(action_of(&end(Ok(Uuid { bits: 71 }))), "membership.create");
    assert_eq!(
        error_of(&end(Err(MembershipError::Duplicate)).reply),
        (409, "\"bea\" is already a member of this organization.".to_string())
    );
    assert_eq!(end(Err(MembershipError::Database)).reply.status(), 500);
}

#[test]
fn members_are_changed_at_their_version() {
    let ctx = ctx_as(Role::Owner);
    let id = Uuid { bits: 71 };
    let found = || Lookup::Found(membership(71, ORG, Role::Musician));
    let instrument = Uuid { bits: 41 };
    let p = pairs(&[
        ("role", "archivist"),
        ("instrument_ids", &instrument.text()),
        ("is_principal", "on"),
        ("expected_version", "800"),
    ]);
    let (current, fields) = plan_update_member(&ctx, id, found(), &p).ok().unwrap();
    assert_eq!(current.role, Role::Musician);
    assert_eq!(fields.role, Role::Archivist);
    assert_eq!(fields.instrument_ids, vec![instrument]);
    assert!(fields.is_principal);
    assert!(fields.principal_instrument_ids.is_empty());
    let stale = pairs(&[("role", "archivist"), ("expected_version", "799")]);
    assert_eq!(plan_update_member(&ctx, id, found(), &stale).err().unwrap().status(), 412);
    let bad = pairs(&[
        ("role", "archivist"),
        ("instrument_ids", "x"),
        ("expected_version", "800"),
    ]);
    assert_eq!(
        error_of(&plan_update_member(&ctx, id, found(), &bad).err().unwrap()).1,
        "Invalid instrument selection."
    );
    let foreign = Lookup::Found(membership(71, Uuid { bits: 8 }, Role::Musician));
    assert_eq!(plan_update_member(&ctx, id, foreign, &p).err().unwrap().status(), 404);

    assert_eq!(
        update_action(Role::Musician, false, Role::Owner, true),
        "membership.role_change"
    );
    assert_eq!(
        update_action(Role::Musician, false, Role::Musician, true),
        "membership.principal_change"
    );
    assert_eq!(
        update_action(Role::Musician, true, Role::Musician, true),
        "membership.update"
    );
    let fields = MembershipFields {
        role: Role::Owner,
        instrument_ids: vec![],
        is_principal: false,
        principal_instrument_ids: vec![],
    };
    let end = |result| member_updated(&ctx, REQUEST, id, &current, &fields, result);
    assert_eq!(action_of(&end(Ok(()))), "membership.role_change");
    for (error, status) in [
        (MembershipError::LastOwner, 409),
        (MembershipError::PrincipalNotSubset, 400),
        (MembershipError::UnknownInstrument, 400),
        (MembershipError::Duplicate, 500),
        (MembershipError::Database, 500),
    ] {
        assert_eq!(end(Err(error)).reply.status(), status);
    }
    assert_eq!(action_of(&member_removed(&ctx, REQUEST, id, Ok(true))), "membership.delete");
    assert_eq!(
        member_removed(&ctx, REQUEST, id, Err(MembershipError::LastOwner)).reply.status(),
        409
    );
}

#[test]
fn the_member_screens_show_names_and_instruments() {
    let ctx = ctx_as(Role::Owner);
    let instruments = vec![Instrument {
        id: Uuid { bits: 41 },
        display_name: "Flute".to_string(),
        family: "woodwind".to_string(),
        transposition: None,
    }];
    let listed = vec![
        (membership(71, ORG, Role::Musician), Some(user(1, "ada", false))),
        (membership(72, ORG, Role::Owner), None),
    ];
    let rows = members_page(&ctx, Some(&listed), &instruments).ok().unwrap();
    assert_eq!(rows[0].username, "ada");
    assert_eq!(rows[0].instruments, vec!["Flute".to_string()]);
    assert_eq!(rows[1].role, "owner");
    assert_eq!(rows[1].username, username_of(&None, Uuid { bits: 1 }));
    assert_eq!(members_page(&ctx, None, &instruments).err().unwrap().status(), 500);
    let page = member_edit_page(&ctx, &listed[0].0, &listed[0].1, &instruments);
    assert_eq!(page.version, 800);
    assert!(page.instruments[0].options[0].selected);
    assert!(!page.principal_instruments[0].options[0].selected);
    let roles = role_select(Role::Conductor);
    let selected: Vec<&str> = roles.iter().filter(|r| r.selected).map(|r| r.value).collect();
    assert_eq!(selected, vec!["conductor"]);
    assert_eq!(read_role(Some("archivist")), Some(Role::Archivist));
    assert_eq!(read_role(None), None);
}

fn arrangement(org: Uuid) -> Arrangement {
    Arrangement {
        id: Uuid { bits: 11 },
        organization_id: org,
        slug: "bolero".to_string(),
        title: "Bolero".to_string(),
        work_id: None,
        instrumentation: None,
        arranger: None,
        publisher: None,
        purchase_date: None,
        license_notes: None,
        copy_count_allowed: None,
        status: "active".to_string(),
        duration_seconds: None,
        difficulty: None,
        difficulty_ratings: None,
        difficulty_notes: None,
        created_at: at(1),
        updated_at: at(2),
        deleted_at: None,
    }
}

fn file(bits: u128) -> File {
    File {
        id: Uuid { bits },
        arrangement_id: Uuid { bits: 11 },
        voice_id: None,
        name: "score".to_string(),
        format: "pdf".to_string(),
        mime_type: "application/pdf".to_string(),
        derived_from_file_id: None,
        conversion_quality: None,
        created_at: at(0),
        updated_at: at(900),
        deleted_at: Some(at(60_000)),
    }
}

fn target() -> Target {
    Target { org_id: ORG, arr_id: Uuid { bits: 11 }, voice_id: None }
}

#[test]
fn files_live_under_an_arrangement_or_a_voice() {
    let ctx = ctx_as(Role::Conductor);
    let arr = Uuid { bits: 11 };
    assert!(enter_target(&ctx, arr, None, Lookup::Found(arrangement(ORG)), Lookup::Missing).is_ok());
    assert_eq!(
        enter_target(
            &ctx,
            arr,
            None,
            Lookup::Found(arrangement(Uuid { bits: 8 })),
            Lookup::Missing
        )
        .err()
        .unwrap()
        .status(),
        404
    );
    let voice = |arrangement: u128| Voice {
        id: Uuid { bits: 31 },
        arrangement_id: Uuid { bits: arrangement },
        name: "Flute".to_string(),
        slug: "flute".to_string(),
        instrument_id: Uuid { bits: 41 },
        created_at: at(1),
        updated_at: at(2),
        deleted_at: None,
    };
    let of_voice = enter_target(
        &ctx,
        arr,
        Some(Uuid { bits: 31 }),
        Lookup::Found(arrangement(ORG)),
        Lookup::Found(voice(11)),
    )
    .ok()
    .unwrap();
    assert!(of_voice.base_url().ends_with("/files"));
    assert!(of_voice.download_url(Uuid { bits: 5 }).contains("/voices/"));
    assert!(!target().download_url(Uuid { bits: 5 }).contains("/voices/"));
    assert_eq!(
        enter_target(
            &ctx,
            arr,
            Some(Uuid { bits: 31 }),
            Lookup::Found(arrangement(ORG)),
            Lookup::Found(voice(12))
        )
        .err()
        .unwrap()
        .status(),
        404
    );
}

#[test]
fn files_are_added_by_editors() {
    let arr = Uuid { bits: 11 };
    let own = || Lookup::Found(arrangement(ORG));
    assert_eq!(
        plan_upload(&ctx_as(Role::Archivist), arr, None, own(), Lookup::Missing).ok(),
        Some(target())
    );
    assert!(matches!(
        plan_upload(&ctx_as(Role::Conductor), arr, None, own(), Lookup::Missing),
        Err(Reply::SectionForbidden)
    ));
    assert_eq!(
        plan_upload(&ctx_as(Role::Conductor), arr, None, Lookup::Missing, Lookup::Missing)
            .err()
            .unwrap()
            .status(),
        404
    );
}

#[test]
fn the_file_screen_shows_sizes_and_actions() {
    let files = vec![file(5), file(6)];
    let sizes = vec![(Uuid { bits: 5 }, 1536)];
    let page = files_page(
        &ctx_as(Role::Archivist),
        &target(),
        "tok",
        Some((&files, 3)),
        &files,
        2,
        &sizes,
    )
    .ok()
    .unwrap();
    assert_eq!(page.heading, "Score files");
    assert_eq!(page.rows[0].size, "1.5 KB");
    assert_eq!(page.rows[1].size, "?");
    assert_eq!(page.rows[0].quality, "source");
    assert_eq!(page.rows[0].uploaded.as_deref(), Some("1970-01-01 00:00"));
    assert!(page.rows[0].replace_action.as_ref().unwrap().ends_with("/replace?csrf=tok"));
    assert_eq!(page.deleted[0].deleted.as_deref(), Some("1970-01-01 00:01"));
    assert!(page.truncated.is_some());
    assert!(page.deleted_truncated.is_none());
    let page = files_page(
        &ctx_as(Role::Conductor),
        &target(),
        "tok",
        Some((&files, 2)),
        &vec![],
        0,
        &sizes,
    )
    .ok()
    .unwrap();
    assert!(page.rows[0].replace_action.is_none());
    assert!(page.upload_action.is_none());
}

#[test]
fn uploads_end_in_a_record_or_a_message() {
    let ctx = ctx_as(Role::Owner);
    let stored = || Stored { file: file(5), key: "city/bolero/score.pdf".to_string(), bytes: 10 };
    let done = uploaded(&ctx, REQUEST, &target(), Ok(stored()));
    assert_eq!(action_of(&done), "file.create");
    let entry = done.audit.unwrap();
    assert!(entry
        .details
        .iter()
        .any(|d| d.key == "bytes" && matches!(d.value, Fact::Number(10))));
    assert_eq!(
        action_of(&replaced(&ctx, REQUEST, &target(), &file(5), Ok(stored()))),
        "file.replace"
    );
    let failures = || {
        vec![
            UploadError::UnsupportedMime("text/plain".to_string()),
            UploadError::StoredMimeUnknown("x/y".to_string()),
            UploadError::EmptyName,
            UploadError::FormatMismatch { expected: "pdf (.pdf)".to_string() },
            UploadError::Duplicate,
            UploadError::NotFound,
            UploadError::ReplaceTargetGone,
            UploadError::TooLarge { limit: 1024 },
            UploadError::Db,
            UploadError::Storage("reset".to_string()),
        ]
    };
    // The console and the JSON interface answer with the same status.
    for (here, there) in failures().into_iter().zip(failures()) {
        assert_eq!(
            upload_error_page(here).status(),
            upload_error_to_app_error(there).status()
        );
    }
    assert_eq!(
        error_of(&upload_error_page(UploadError::TooLarge { limit: 1024 })).1,
        "That file is too large (limit 1024 bytes)."
    );
    assert_eq!(malformed_body().status(), 400);
    assert_eq!(no_file().status(), 400);
    assert!(plan_file_write(&ctx, &target(), Lookup::Found(file(5))).is_ok());
    let elsewhere = File { arrangement_id: Uuid { bits: 12 }, ..file(5) };
    assert_eq!(
        plan_file_write(&ctx, &target(), Lookup::Found(elsewhere)).err().unwrap().status(),
        404
    );
    let id = Uuid { bits: 5 };
    assert_eq!(
        action_of(&file_deleted(&ctx, REQUEST, &target(), id, Some(true))),
        "file.soft_delete"
    );
    assert_eq!(file_deleted(&ctx, REQUEST, &target(), id, None).reply.status(), 500);
    assert_eq!(
        action_of(&file_undeleted(&ctx, REQUEST, &target(), id, Ok(true))),
        "file.undelete"
    );
    for (error, status) in [
        (RestoreError::Duplicate, 409),
        (RestoreError::Superseded, 409),
        (RestoreError::Database, 500),
    ] {
        let done = file_undeleted(&ctx, REQUEST, &target(), id, Err(error));
        assert_eq!(done.reply.status(), status);
    }
}

#[test]
fn logging_in_and_out_is_answered() {
    assert!(matches!(
        login_reply(LoginOutcome::LoggedIn),
        Plain::Redirect { to } if to == "/admin"
    ));
    assert_eq!(
        fragment_of(&login_reply(LoginOutcome::InvalidCredentials)),
        (401, "Invalid username or password.".to_string())
    );
    assert!(matches!(login_reply(LoginOutcome::Failed), Plain::Status(500)));
    let (reply, cookie) = logout_reply(true);
    assert!(matches!(reply, Plain::Redirect { to } if to == "/admin/login"));
    assert_eq!(cookie, Some("lied_csrf=; Path=/; Max-Age=0"));
    assert!(matches!(logout_reply(false), (Plain::Status(500), None)));
    let page = login_page("a\"b");
    assert!(page.contains("value=\"a&quot;b\""));
    assert!(page.starts_with("<h1>Lied admin login</h1>"));
}

fn belongs(org: u128, name: &str, role: Role, is_principal: bool) -> UserOrg {
    UserOrg {
        organization_id: Uuid { bits: org },
        organization_name: name.to_string(),
        role,
        is_principal,
    }
}

#[test]
fn members_see_the_workspaces_they_may_enter_by_name() {
    let rows = list_member_workspaces(&vec![
        belongs(1, "Wind", Role::Conductor, false),
        belongs(2, "Brass", Role::Musician, false),
        belongs(3, "Choir", Role::Musician, true),
        belongs(4, "Band", Role::Owner, false),
    ]);
    let shown: Vec<(&str, &str)> =
        rows.iter().map(|r| (r.name.as_str(), r.role_label.as_str())).collect();
    assert_eq!(
        shown,
        vec![("Band", "owner"), ("Choir", "musician (principal)"), ("Wind", "conductor")]
    );
    assert!(workspace_href(Uuid { bits: 4 }).ends_with("/console"));
}

#[test]
fn system_admins_see_every_workspace() {
    let all: Vec<Organization> =
        (0..5).map(|i| org(10 + i, &format!("Org {i}"))).collect();
    let mine = vec![belongs(11, "Org 1", Role::Archivist, false)];
    let mut rows: Vec<WorkspaceRow> = vec![];
    let mut from = 0;
    let mut pages = 0;
    loop {
        let page: Vec<Organization> =
            (from..(from + 2).min(5)).map(|i| org(10 + i as u128, &format!("Org {i}"))).collect();
        pages += 1;
        match absorb_organizations(&mut rows, &page, all.len() as i64, &mine) {
            Some(next) => from = next,
            None => break,
        }
    }
    assert_eq!(pages, 3);
    assert_eq!(rows.len(), 5);
    assert_eq!(rows[0].role_label, "system admin");
    assert_eq!(rows[1].role_label, "archivist");
}

#[test]
fn an_organization_is_shown_to_its_members() {
    let standing = |is_system_admin: bool, role: Lookup<Role>| Standing {
        caller: Caller { user_id: Uuid { bits: 1 }, is_system_admin },
        role,
    };
    let shown = |standing: &Standing, found: Lookup<Organization>| {
        match plan_org_detail(standing, found, "forbidden") {
            Ok(o) => (200, o.name),
            Err(reply) => fragment_of(&reply),
        }
    };
    let found = || Lookup::Found(org(7, "Band"));
    let musician = standing(false, Lookup::Found(Role::Musician));
    assert_eq!(shown(&musician, found()), (200, "Band".to_string()));
    let admin = standing(true, Lookup::Missing);
    assert_eq!(shown(&admin, found()), (200, "Band".to_string()));
    let missing = (404, "Organization not found.".to_string());
    assert_eq!(shown(&admin, Lookup::Missing), missing);
    assert_eq!(shown(&musician, Lookup::Failed), (500, "lookup failed".to_string()));
    let stranger = standing(false, Lookup::Missing);
    assert_eq!(shown(&stranger, found()), (403, "forbidden".to_string()));
    assert_eq!(shown(&stranger, Lookup::Missing), (403, "forbidden".to_string()));
    assert_eq!(shown(&standing(false, Lookup::Failed), found()).0, 500);
}

#[test]
fn the_directory_is_shown_to_system_admins() {
    let admin = user(1, "ada", true);
    let plain = user(2, "bea", false);
    let orgs = listed_orgs(&admin, Some(vec![org(7, "Band")])).ok().unwrap();
    assert_eq!(orgs.len(), 1);
    let users = listed_users(&admin, Some(vec![user(1, "ada", true)])).ok().unwrap();
    assert_eq!(users[0].username, "ada");
    assert_eq!(
        fragment_of(&listed_orgs(&admin, None).err().unwrap()),
        (500, "failed to load organizations".to_string())
    );
    assert_eq!(
        fragment_of(&listed_users(&admin, None).err().unwrap()),
        (500, "failed to load users".to_string())
    );
    assert_eq!(fragment_of(&listed_orgs(&plain, None).err().unwrap()).0, 403);
    assert_eq!(fragment_of(&listed_users(&plain, Some(vec![])).err().unwrap()).0, 403);
}

#[test]
fn organizations_and_users_are_kept_by_system_admins() {
    let admin = user(1, "root", true);
    let plain = user(2, "bea", false);
    assert!(admin_only(&admin).is_ok());
    assert_eq!(fragment_of(&admin_only(&plain).err().unwrap()).0, 403);
    assert!(plan_create_org(&admin, "Band").is_ok());
    assert_eq!(fragment_of(&plan_create_org(&admin, " ").err().unwrap()).0, 400);
    let done = org_created(&admin, REQUEST, Ok(org(7, "Band")));
    assert_eq!(done.audit.unwrap().action, "organization.create");
    let done = org_created(&admin, REQUEST, Err(OrganizationError::DuplicateSlug));
    assert_eq!(fragment_of(&done.reply).0, 409);
    let done = org_created(&admin, REQUEST, Err(OrganizationError::Database));
    assert_eq!(fragment_of(&done.reply).0, 500);
    assert!(require_organization(Lookup::Found(org(7, "Band"))).is_ok());
    assert_eq!(fragment_of(&require_organization(Lookup::Missing).err().unwrap()).0, 404);
    let done = org_deleted(&admin, REQUEST, &org(7, "Band"), Some(true));
    assert_eq!(done.audit.unwrap().action, "organization.delete");
    let form = |name: &str, password: &str| CreateUserForm {
        username: name.to_string(),
        display_name: "Bea".to_string(),
        email: Some(" ".to_string()),
        password: password.to_string(),
        is_system_admin: Some("true".to_string()),
    };
    let new = plan_create_user(&admin, &form("bea", "pw")).ok().unwrap();
    assert_eq!(new.email, None);
    assert!(new.is_system_admin);
    assert_eq!(fragment_of(&plan_create_user(&admin, &form("bea", "")).err().unwrap()).0, 400);
    assert_eq!(fragment_of(&plan_create_user(&plain, &form("x", "pw")).err().unwrap()).0, 403);
    let done = user_created(&admin, REQUEST, Ok(user(2, "bea", false)));
    assert_eq!(done.audit.unwrap().action, "user.create");
    let done = user_created(&admin, REQUEST, Err(UserError::DuplicateUsername));
    assert_eq!(fragment_of(&done.reply).0, 409);
    assert!(require_user(Lookup::Found(user(2, "bea", false))).is_ok());
    let done = user_deleted(&admin, REQUEST, &plain, Ok(true));
    assert_eq!(done.audit.unwrap().action, "user.delete");
    let done = user_deleted(&admin, REQUEST, &plain, Ok(false));
    assert_eq!(fragment_of(&done.reply).0, 404);
    let done = user_deleted(&admin, REQUEST, &plain, Err(DeleteError::Referenced));
    assert_eq!(fragment_of(&done.reply).0, 409);
    let rows = roster(Some(&vec![(membership(71, ORG, Role::Owner), Some(admin))])).ok().unwrap();
    assert_eq!((rows[0].username.as_str(), rows[0].role), ("root", "owner"));
    assert_eq!(fragment_of(&roster(None).err().unwrap()).0, 500);
    assert_eq!(
        fragment_of(&app_error_fragment(&AppError::PreconditionFailed, "stale")).0,
        412
    );
}

#[test]
fn tokens_are_minted_for_whoever_proves_who_they_are() {
    let id = Uuid { bits: 1 };
    assert!(matches!(proof_of_identity(Some(id), true, true), Proof::Session(i) if i == id));
    assert!(matches!(proof_of_identity(None, true, true), Proof::Password));
    assert!(matches!(proof_of_identity(None, true, false), Proof::Nothing));
    assert_eq!(password_to_check(Some(true)), PasswordCheck::Stored);
    assert_eq!(password_to_check(Some(false)), PasswordCheck::StandIn);
    assert_eq!(password_to_check(None), PasswordCheck::StandIn);
    let (who, record) = judge_password(REQUEST, "ada", Some(id), PasswordCheck::Stored, true);
    assert_eq!(who, Some(id));
    assert!(record.is_none());
    for (check, matches_password) in [
        (PasswordCheck::Stored, false),
        (PasswordCheck::StandIn, true),
        (PasswordCheck::StandIn, false),
    ] {
        let (who, record) = judge_password(REQUEST, "ada", Some(id), check, matches_password);
        assert_eq!(who, None);
        let record = record.unwrap();
        assert_eq!(record.action, "auth.login_failed");
        assert_eq!(record.entity_id, Some(id));
        assert_eq!(record.details[1].key, "via");
    }
    assert!(matches!(require_identity(None), Err(AppError::Unauthorized)));
    let record = token_minted(REQUEST, id, Some(ORG), Some("j")).ok().unwrap();
    assert_eq!(record.action, "auth.token_minted");
    assert_eq!(record.context.org_id, Some(ORG));
    assert_eq!(token_minted(REQUEST, id, None, None).err().unwrap().status(), 500);
}

#[test]
fn app_passwords_are_recorded_without_their_secret() {
    let caller = Caller { user_id: Uuid { bits: 1 }, is_system_admin: false };
    let id = Uuid { bits: 91 };
    let record =
        app_password_created(&caller, None, REQUEST, id, "laptop", Ok("abc".to_string()))
            .ok()
            .unwrap();
    assert_eq!(record.action, "auth.app_password_created");
    let keys: Vec<&str> = record.details.iter().map(|d| d.key.as_str()).collect();
    assert_eq!(keys, vec!["name", "prefix"]);
    let taken = app_password_created(
        &caller,
        None,
        REQUEST,
        id,
        "laptop",
        Err(AppPasswordError::DuplicateName),
    );
    assert_eq!(taken.err().unwrap().status(), 412);
    assert_eq!(
        app_password_revoked(&caller, None, REQUEST, id, Some(true)).ok().unwrap().status,
        204
    );
    assert_eq!(
        app_password_revoked(&caller, None, REQUEST, id, Some(false)).err().unwrap().status(),
        404
    );
    assert_eq!(generation_failure().status(), 500);
}

#[test]
fn healthz_returns_200() {
    assert_eq!(healthz(), 200);
}

#[test]
fn probes_and_switches() {
    assert_eq!(readyz(true, true), (200, "ready"));
    assert_eq!(readyz(true, false), (503, "not ready"));
    assert_eq!(readyz(false, true), (503, "not ready"));
    assert_eq!(switched(true), 200);
    assert_eq!(switched(false), 404);
    assert_eq!(
        dav_account(true, Lookup::Found("ada".to_string())),
        Ok("ada".to_string())
    );
    assert_eq!(dav_account(true, Lookup::Missing), Err(401));
    assert_eq!(dav_account(true, Lookup::Failed), Err(500));
    assert_eq!(dav_account(false, Lookup::Missing), Err(500));
}
