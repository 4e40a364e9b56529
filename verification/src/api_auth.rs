//! Bearer tokens, app passwords, and the probes that tell whether the server is
//! up.

use vstd::prelude::*;
use crate::api::{finish_removal, removal, Answer, Caller};
use crate::audit::{
    detail, entry, text, AuditContext, AuditEntry, EntryView, FactView,
};
use crate::error::{fails, AppError, ErrorView};
use crate::id::Uuid;
use crate::model::Lookup;

verus! {

/// How a caller proves who they are when asking for a token.
pub enum Proof {
    /// By the session they already have.
    Session(Uuid),
    /// By username and password.
    Password,
    /// Not at all.
    Nothing,
}

/// Whether `r` is what [`proof_of_identity`] owes its caller.
pub open spec fn proof_of_identity_outcome(
    r: Proof,
    session: Option<Uuid>,
    has_username: bool,
    has_password: bool,
) -> bool {
    r == (match session {
        Some(id) => Proof::Session(id),
        None => if has_username && has_password {
            Proof::Password
        } else {
            Proof::Nothing
        },
    })
}

/// What a request for a token goes by: the session where there is one, else the
/// username and the password where both were sent.
pub fn proof_of_identity(session: Option<Uuid>, has_username: bool, has_password: bool) -> (r: Proof)
    ensures
        proof_of_identity_outcome(r, session, has_username, has_password),
{
    match session {
        Some(id) => Proof::Session(id),
        None => {
            if has_username && has_password {
                Proof::Password
            } else {
                Proof::Nothing
            }
        },
    }
}

/// Which password is checked: the account's, or, so that the time taken does
/// not tell whether there is such an account, a stand-in.
#[derive(Clone, Copy, Debug, PartialEq, Eq, Structural)]
pub enum PasswordCheck {
    Stored,
    StandIn,
}

/// Whether `r` is what [`password_to_check`] owes its caller.
pub open spec fn password_to_check_outcome(
    r: PasswordCheck,
    account_has_password: Option<bool>,
) -> bool {
    r == (if account_has_password == Some(true) {
        PasswordCheck::Stored
    } else {
        PasswordCheck::StandIn
    })
}

/// Which password is checked for the account that was found.
pub fn password_to_check(account_has_password: Option<bool>) -> (r: PasswordCheck)
    ensures
        password_to_check_outcome(r, account_has_password),
{
    match account_has_password {
        Some(true) => PasswordCheck::Stored,
        _ => PasswordCheck::StandIn,
    }
}

/// Whether `r` is what [`judge_password`] owes its caller.
pub open spec fn judge_password_outcome(
    r: (Option<Uuid>, Option<AuditEntry>),
    request_id: Uuid,
    username: &str,
    account: Option<Uuid>,
    check: PasswordCheck,
    matches_password: bool,
) -> bool {
    &&& check == PasswordCheck::Stored && matches_password ==> r.0 == account && r.1 is None
    &&& !(check == PasswordCheck::Stored && matches_password) ==> {
        &&& r.0 is None
        &&& r.1 is Some
        &&& r.1->0@ =~= (EntryView {
            context: AuditContext {
                actor_user_id: account,
                org_id: None,
                request_id: Some(request_id),
            },
            action: "auth.login_failed"@,
            entity: "user"@,
            entity_id: account,
            details: seq![
                detail("username"@, FactView::Text(username@)),
                detail("via"@, FactView::Text("token_mint"@)),
            ],
        })
    }
}

/// Who a password proves the caller to be, and what is recorded where it does
/// not. `account` is the user of that name, `None` where there is none.
pub fn judge_password(
    request_id: Uuid,
    username: &str,
    account: Option<Uuid>,
    check: PasswordCheck,
    matches_password: bool,
) -> (r: (Option<Uuid>, Option<AuditEntry>))
    ensures
        judge_password_outcome(r, request_id, username, account, check, matches_password),
{
    if check == PasswordCheck::Stored && matches_password {
        return (account, None);
    }
    let e: AuditEntry = AuditEntry::new_about(
        AuditContext { actor_user_id: account, org_id: None, request_id: Some(request_id) },
        "auth.login_failed",
        "user",
        account,
    ).with("username", text(username)).with("via", text("token_mint"));
    (None, Some(e))
}

/// Whether `r` is what [`require_identity`] owes its caller.
pub open spec fn require_identity_outcome(r: Result<Uuid, AppError>, user: Option<Uuid>) -> bool {
    match user {
        Some(id) => r == Ok::<Uuid, AppError>(id),
        None => fails(r, ErrorView::Unauthorized),
    }
}

/// The user that a token is minted for.
pub fn require_identity(user: Option<Uuid>) -> (r: Result<Uuid, AppError>)
    ensures
        require_identity_outcome(r, user),
{
    match user {
        Some(id) => Ok(id),
        None => Err(AppError::Unauthorized),
    }
}

/// Whether `r` is what [`token_minted`] owes its caller.
pub open spec fn token_minted_outcome(
    r: Result<AuditEntry, AppError>,
    request_id: Uuid,
    user_id: Uuid,
    org: Option<Uuid>,
    jti: Option<&str>,
) -> bool {
    match jti {
        None => fails(r, ErrorView::Internal("failed to mint bearer token"@)),
        Some(jti) => r is Ok && r->Ok_0@ =~= entry(
            AuditContext {
                actor_user_id: Some(user_id),
                org_id: org,
                request_id: Some(request_id),
            },
            "auth.token_minted"@,
            "user"@,
            user_id,
            seq![detail("jti"@, FactView::Text(jti@))],
        ),
    }
}

/// How minting a token ended: what is recorded of it, under the token's
/// identifier `jti`; `None` where it could not be minted.
pub fn token_minted(
    request_id: Uuid,
    user_id: Uuid,
    org: Option<Uuid>,
    jti: Option<&str>,
) -> (r: Result<AuditEntry, AppError>)
    ensures
        token_minted_outcome(r, request_id, user_id, org, jti),
{
    match jti {
        None => Err(AppError::Internal("failed to mint bearer token".to_owned())),
        Some(jti) => Ok(
            AuditEntry::new(
                AuditContext {
                    actor_user_id: Some(user_id),
                    org_id: org,
                    request_id: Some(request_id),
                },
                "auth.token_minted",
                "user",
                user_id,
            ).with("jti", text(jti)),
        ),
    }
}

/// Why an app password was not stored.
pub enum AppPasswordError {
    DuplicateName,
    Database,
}

/// The error where no app password could be made.
pub fn generation_failure() -> (r: AppError)
    ensures
        r@ == ErrorView::Internal("failed to generate app password"@),
{
    AppError::Internal("failed to generate app password".to_owned())
}

/// Whether `r` is what [`app_password_created`] owes its caller.
pub open spec fn app_password_created_outcome(
    r: Result<AuditEntry, AppError>,
    caller: Caller,
    org: Option<Uuid>,
    request_id: Uuid,
    id: Uuid,
    name: &str,
    result: Result<String, AppPasswordError>,
) -> bool {
    match result {
        Err(AppPasswordError::DuplicateName) => fails(r, ErrorView::PreconditionFailed),
        Err(AppPasswordError::Database) => fails(r, ErrorView::Database),
        Ok(prefix) => r is Ok && r->Ok_0@ =~= entry(
            caller.audit_context(org, request_id),
            "auth.app_password_created"@,
            "app_password"@,
            id,
            seq![
                detail("name"@, FactView::Text(name@)),
                detail("prefix"@, FactView::Text(prefix@)),
            ],
        ),
    }
}

/// How storing an app password ended: what is recorded of it. `result` is the
/// prefix that it is told apart by; neither the password nor its hash is
/// recorded.
pub fn app_password_created(
    caller: &Caller,
    org: Option<Uuid>,
    request_id: Uuid,
    id: Uuid,
    name: &str,
    result: Result<String, AppPasswordError>,
) -> (r: Result<AuditEntry, AppError>)
    ensures
        app_password_created_outcome(r, *caller, org, request_id, id, name, result),
{
    match result {
        Err(AppPasswordError::DuplicateName) => Err(AppError::PreconditionFailed),
        Err(AppPasswordError::Database) => Err(AppError::Database),
        Ok(prefix) => Ok(
            AuditEntry::new(
                caller.audit_ctx(org, request_id),
                "auth.app_password_created",
                "app_password",
                id,
            ).with("name", text(name)).with("prefix", text(prefix.as_str())),
        ),
    }
}

/// Whether `r` is what [`app_password_revoked`] owes its caller.
pub open spec fn app_password_revoked_outcome(
    r: Result<Answer<()>, AppError>,
    caller: Caller,
    org: Option<Uuid>,
    request_id: Uuid,
    id: Uuid,
    result: Option<bool>,
) -> bool {
    removal(
        r,
        result,
        entry(
            caller.audit_context(org, request_id),
            "auth.app_password_revoked"@,
            "app_password"@,
            id,
            seq![],
        ),
    )
}

/// How revoking an app password ended.
pub fn app_password_revoked(
    caller: &Caller,
    org: Option<Uuid>,
    request_id: Uuid,
    id: Uuid,
    result: Option<bool>,
) -> (r: Result<Answer<()>, AppError>)
    ensures
        app_password_revoked_outcome(r, *caller, org, request_id, id, result),
{
    finish_removal(
        result,
        AuditEntry::new(
            caller.audit_ctx(org, request_id),
            "auth.app_password_revoked",
            "app_password",
            id,
        ),
    )
}

/// Whether the process is up: always, where this is reached.
pub fn healthz() -> (r: u16)
    ensures
        r == 200,
{
    200
}

/// Whether `r` is what [`readyz`] owes its caller.
pub open spec fn readyz_outcome(r: (u16, &'static str), db_ok: bool, s3_ok: bool) -> bool {
    &&& db_ok && s3_ok ==> r.0 == 200 && r.1@ == "ready"@
    &&& !(db_ok && s3_ok) ==> r.0 == 503 && r.1@ == "not ready"@
}

/// Whether traffic can be sent here: only while both the database and the
/// object store answer.
pub fn readyz(db_ok: bool, s3_ok: bool) -> (r: (u16, &'static str))
    ensures
        readyz_outcome(r, db_ok, s3_ok),
{
    if db_ok && s3_ok {
        (200, "ready")
    } else {
        (503, "not ready")
    }
}

/// Whether `r` is what [`switched`] owes its caller.
pub open spec fn switched_outcome(r: u16, enabled: bool) -> bool {
    r == (if enabled {
        200u16
    } else {
        404u16
    })
}

/// The status of a page that can be switched off.
pub fn switched(enabled: bool) -> (r: u16)
    ensures
        switched_outcome(r, enabled),
{
    if enabled {
        200
    } else {
        404
    }
}

/// The challenge that a file client without a valid app password is answered
/// with.
pub const BASIC_CHALLENGE: &'static str = "Basic realm=\"Lied WebDAV\"";

/// Whether `r` is what [`dav_account`] owes its caller.
pub open spec fn dav_account_outcome(
    r: Result<String, u16>,
    identified: bool,
    slug: Lookup<String>,
) -> bool {
    r == (if !identified {
        Err::<String, u16>(500u16)
    } else {
        match slug {
            Lookup::Found(s) => Ok::<String, u16>(s),
            Lookup::Missing => Err::<String, u16>(401u16),
            Lookup::Failed => Err::<String, u16>(500u16),
        }
    })
}

/// The folder name of the account that a file client works under, or the status
/// it is refused with. `identified` says whether the request carries an account
/// at all: where it does not, the server is wired wrongly.
pub fn dav_account(identified: bool, slug: Lookup<String>) -> (r: Result<String, u16>)
    ensures
        dav_account_outcome(r, identified, slug),
{
    if !identified {
        return Err(500);
    }
    match slug {
        Lookup::Found(s) => Ok(s),
        Lookup::Missing => Err(401),
        Lookup::Failed => Err(500),
    }
}

/// A password proves who someone is only where it is the account's own and it
/// matches; a failure is on record with the name that was tried, and a success
/// is not. Without an account nobody is let in.
pub proof fn only_a_matching_password_proves_identity(
    r: (Option<Uuid>, Option<AuditEntry>),
    request_id: Uuid,
    username: &str,
    account: Option<Uuid>,
    has_password: Option<bool>,
    check: PasswordCheck,
    matches_password: bool,
)
    requires
        account is None ==> has_password is None,
        password_to_check_outcome(check, has_password),
        judge_password_outcome(r, request_id, username, account, check, matches_password),
    ensures
        r.0 is Some ==> r.0 == account && has_password == Some(true) && matches_password,
        account is Some && has_password == Some(true) && matches_password ==> r.0 == account
            && r.1 is None,
        r.1 is Some <==> !(has_password == Some(true) && matches_password),
        r.1 matches Some(e) ==> {
            &&& e.action@ == "auth.login_failed"@
            &&& e.entity_id == account && e.context.actor_user_id == account
            &&& e.context.request_id == Some(request_id)
            &&& e.tells("username"@, FactView::Text(username@))
            &&& e.tells("via"@, FactView::Text("token_mint"@))
        },
{
    broadcast use vstd::seq_lib::group_seq_properties;

}

/// A session speaks for its user; without one, a username and a password
/// together are looked at, and nothing else is.
pub proof fn a_session_comes_before_a_password(
    r: Proof,
    session: Option<Uuid>,
    has_username: bool,
    has_password: bool,
)
    requires
        proof_of_identity_outcome(r, session, has_username, has_password),
    ensures
        r matches Proof::Session(id) ==> session == Some(id),
        session is Some ==> r is Session,
        r is Password <==> session is None && has_username && has_password,
{
}

/// A minted token is on record under the user that it speaks for and the
/// organization that it is good for.
pub proof fn a_minted_token_is_on_record(
    r: Result<AuditEntry, AppError>,
    request_id: Uuid,
    user_id: Uuid,
    org: Option<Uuid>,
    jti: Option<&str>,
)
    requires
        token_minted_outcome(r, request_id, user_id, org, jti),
    ensures
        r is Ok <==> jti is Some,
        r is Ok ==> r->Ok_0.names(user_id, org, request_id, "auth.token_minted"@, user_id)
            && r->Ok_0.tells("jti"@, FactView::Text(jti->0@)),
        r is Err ==> r->Err_0@.status() == 500,
{
    broadcast use vstd::seq_lib::group_seq_properties;

}

/// A new app password is on record under its name and prefix alone; a revoked
/// one is on record too.
pub proof fn app_passwords_are_on_record(
    made: Result<AuditEntry, AppError>,
    revoked: Result<Answer<()>, AppError>,
    caller: Caller,
    org: Option<Uuid>,
    request_id: Uuid,
    id: Uuid,
    name: &str,
    result: Result<String, AppPasswordError>,
    gone: Option<bool>,
)
    requires
        app_password_created_outcome(made, caller, org, request_id, id, name, result),
        app_password_revoked_outcome(revoked, caller, org, request_id, id, gone),
    ensures
        made is Ok <==> result is Ok,
        made is Ok ==> {
            &&& made->Ok_0.names(
                caller.user_id,
                org,
                request_id,
                "auth.app_password_created"@,
                id,
            )
            &&& made->Ok_0.tells("name"@, FactView::Text(name@))
            &&& made->Ok_0.tells("prefix"@, FactView::Text(result->Ok_0@))
            &&& made->Ok_0.details@.len() == 2
        },
        result matches Err(AppPasswordError::DuplicateName) ==> made->Err_0@.status() == 412,
        result matches Err(AppPasswordError::Database) ==> made->Err_0@.status() == 500,
        revoked is Ok <==> gone == Some(true),
        revoked is Ok ==> revoked->Ok_0.audit is Some && revoked->Ok_0.audit->0.names(
            caller.user_id,
            org,
            request_id,
            "auth.app_password_revoked"@,
            id,
        ),
        gone == Some(false) ==> revoked->Err_0@.status() == 404,
{
    broadcast use vstd::seq_lib::group_seq_properties;

    if made is Ok {
        assert(made->Ok_0@.details.len() == 2);
    }
}

/// A file client works under the folder of its own account, and under none
/// where the account is unknown.
pub proof fn a_file_client_works_in_its_own_folder(
    r: Result<String, u16>,
    identified: bool,
    slug: Lookup<String>,
)
    requires
        dav_account_outcome(r, identified, slug),
    ensures
        r is Ok <==> identified && slug is Found,
        r matches Ok(folder) ==> slug == Lookup::Found(folder),
        identified && slug is Missing ==> r == Err::<String, u16>(401u16),
{
}

/// A token is minted for the one who was identified, and for nobody else.
pub proof fn a_token_is_minted_for_the_one_identified(r: Result<Uuid, AppError>, user: Option<Uuid>)
    requires
        require_identity_outcome(r, user),
    ensures
        r is Ok <==> user is Some,
        r is Ok ==> user == Some(r->Ok_0),
        r is Err ==> r->Err_0@.status() == 401,
{
}

/// Traffic is taken exactly while the database and the object store both answer.
pub proof fn traffic_is_taken_while_both_stores_answer(
    r: (u16, &'static str),
    db_ok: bool,
    s3_ok: bool,
)
    requires
        readyz_outcome(r, db_ok, s3_ok),
    ensures
        r.0 == 200 <==> db_ok && s3_ok,
        r.0 == 503 <==> !(db_ok && s3_ok),
{
}

/// A page that is switched off cannot be told from one that does not exist.
pub proof fn what_is_switched_off_is_missing(r: u16, enabled: bool)
    requires
        switched_outcome(r, enabled),
    ensures
        r == 200 <==> enabled,
        r == 404 <==> !enabled,
{
}

} // verus!
