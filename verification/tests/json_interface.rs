//! The JSON interface: who may do what, which version a write is held to, and
//! how each operation ends.

use lied::api::{authorize, require_system_admin, Answer, Caller, Need, Standing};
use lied::api_archive::{
    allow_create_work, arrangement_created, arrangement_deleted, arrangement_undeleted,
    arrangement_updated, get_arrangement, get_tag, get_voice, get_work, plan_attach_tag,
    plan_create_arrangement, plan_create_tag, plan_create_voice, plan_create_work,
    plan_delete_arrangement, plan_delete_tag, plan_delete_voice, plan_delete_work, plan_detach_tag,
    plan_list_arrangements, plan_list_below, plan_list_tags, plan_list_works,
    plan_undelete_arrangement, plan_undelete_tag,
    plan_undelete_voice, plan_update_arrangement, plan_update_tag, plan_update_voice,
    plan_update_work, tag_attached, tag_created, tag_deleted, tag_detached, tag_undeleted,
    tag_updated, voice_created, voice_deleted, voice_filter, voice_undeleted, voice_updated, work_created,
    work_deleted, work_updated, ArrangementRequest, TagRequest, VoiceRequest,
};
use lied::api_collections::{
    assignment_deleted, assignment_updated, collection_created, collection_deleted,
    collection_undeleted, collection_updated, get_assignment, get_collection, get_item, item_added,
    item_deleted, item_undeleted, item_updated, items_reordered, plan_add_item, plan_assign_voice,
    plan_assignment_write, plan_create_collection, plan_delete_collection, plan_delete_item,
    plan_list_assignments, plan_list_collections, plan_list_items, plan_reorder, plan_undelete_collection,
    plan_undelete_item, plan_update_collection, plan_update_item, require_own_arrangement,
    voice_assigned, CollectionRequest, PartAssignmentError,
};
use lied::api_files::{
    download_headers, file_deleted, locate, malformed_body, no_file_part, plan_download,
    plan_file_write, plan_list_files, plan_upload, replaced, uploaded,
};
use lied::api_orgs::{
    get_member, get_org, get_user, hash_failure, member_created, member_deleted, member_updated,
    org_created, org_deleted, org_updated, parse_role_or_validation_error, plan_create_member,
    plan_create_org, plan_create_user, plan_delete_member, plan_delete_org, plan_delete_user,
    plan_list_members, plan_list_orgs, plan_list_users, plan_update_member, plan_update_org,
    user_created, user_deleted, MemberRequest,
};
use lied::arrangements::{ArrangementError, VoiceError};
use lied::collections::{CollectionError, ItemError};
use lied::error::AppError;
use lied::files::{Stored, UploadError};
use lied::id::Uuid;
use lied::instance::{DeleteError, OrganizationError, UserError};
use lied::members::MembershipError;
use lied::model::{Arrangement, Collection, CollectionItem, File, Lookup, Membership, Organization, PartAssignment, Tag, Time, User, Voice, Work};
use lied::role::Role;
use lied::tags::TagError;

fn at(millis: i64) -> Time {
    Time { millis, nanos: 0 }
}

const ORG: Uuid = Uuid { bits: 7 };
const OTHER: Uuid = Uuid { bits: 8 };
const ARR: Uuid = Uuid { bits: 11 };
const COLLECTION: Uuid = Uuid { bits: 60 };
const REQUEST: Uuid = Uuid { bits: 99 };

fn caller() -> Caller {
    Caller { user_id: Uuid { bits: 1 }, is_system_admin: false }
}

fn admin() -> Caller {
    Caller { user_id: Uuid { bits: 2 }, is_system_admin: true }
}

fn as_role(role: Role) -> Standing {
    Standing { caller: caller(), role: Lookup::Found(role) }
}

fn stranger() -> Standing {
    Standing { caller: caller(), role: Lookup::Missing }
}

fn status<T>(r: Result<T, AppError>) -> u16 {
    match r {
        Ok(_) => 200,
        Err(e) => e.status(),
    }
}

fn end<T>(r: Result<Answer<T>, AppError>) -> (u16, Option<String>, Option<String>) {
    match r {
        Ok(a) => (a.status, a.etag, a.audit.map(|e| e.action)),
        Err(e) => (e.status(), None, None),
    }
}

fn tagged(status: u16, etag: &str, action: &str) -> (u16, Option<String>, Option<String>) {
    (status, Some(etag.to_string()), Some(action.to_string()))
}

fn untagged(status: u16, action: &str) -> (u16, Option<String>, Option<String>) {
    (status, None, Some(action.to_string()))
}

fn read(etag: &str) -> (u16, Option<String>, Option<String>) {
    (200, Some(etag.to_string()), None)
}

fn refused(status: u16) -> (u16, Option<String>, Option<String>) {
    (status, None, None)
}

fn first_error<T>(r: Result<T, AppError>) -> (String, String) {
    match r {
        Err(AppError::Validation(v)) => (v[0].field.clone(), v[0].message.clone()),
        _ => panic!("no complaint"),
    }
}

fn arrangement(org: Uuid) -> Arrangement {
    Arrangement {
        id: ARR,
        organization_id: org,
        slug: "bolero".to_string(),
        title: "Bolero".to_string(),
        work_id: None,
        instrumentation: None,
        arranger: None,
        publisher: None,
        purchase_date: None,
        license_notes: None,
        copy_count_allowed: None,
        status: "active".to_string(),
        duration_seconds: None,
        difficulty: None,
        difficulty_ratings: None,
        difficulty_notes: None,
        created_at: at(1),
        updated_at: at(500),
        deleted_at: None,
    }
}

fn body(title: &str) -> ArrangementRequest {
    ArrangementRequest {
        title: title.to_string(),
        work_id: None,
        instrumentation: None,
        arranger: Some(" Ravel ".to_string()),
        publisher: None,
        purchase_date: None,
        license_notes: None,
        copy_count_allowed: None,
        status: None,
        duration_seconds: Some(900),
        difficulty: None,
        difficulty_ratings: None,
        difficulty_notes: None,
    }
}

#[test]
fn roles_decide_what_is_allowed() {
    let needs = [Need::Read, Need::EditArchive, Need::BuildCollections, Need::ManageMembers];
    let allowed = |role: Role| -> Vec<bool> {
        needs.iter().map(|n| authorize(&as_role(role), *n).is_ok()).collect()
    };
    assert_eq!(allowed(Role::Owner), vec![true, true, true, true]);
    assert_eq!(allowed(Role::Archivist), vec![true, true, true, false]);
    assert_eq!(allowed(Role::Conductor), vec![true, false, true, false]);
    assert_eq!(allowed(Role::Musician), vec![true, false, false, false]);
    for need in needs {
        assert_eq!(status(authorize(&stranger(), need)), 403);
        let broken = Standing { caller: caller(), role: Lookup::Failed };
        assert_eq!(status(authorize(&broken, need)), 500);
        let all = Standing { caller: admin(), role: Lookup::Missing };
        assert!(authorize(&all, need).is_ok());
    }
    assert!(require_system_admin(&admin()).is_ok());
    assert_eq!(status(require_system_admin(&caller())), 403);
}

#[test]
fn works_are_open_to_members_and_kept_by_their_creator() {
    let work = |created_by: Option<Uuid>| Work {
        id: Uuid { bits: 20 },
        title: "Bolero".to_string(),
        composer: None,
        created_by,
        created_at: at(1),
        updated_at: at(40),
    };
    assert!(plan_create_work("Bolero").is_ok());
    assert_eq!(
        first_error(plan_create_work(" ")),
        ("title".to_string(), "title must not be empty".to_string())
    );
    assert!(allow_create_work(&caller(), Some(true)).is_ok());
    assert_eq!(status(allow_create_work(&caller(), Some(false))), 403);
    assert_eq!(status(allow_create_work(&caller(), None)), 500);
    assert!(allow_create_work(&admin(), None).is_ok());
    assert_eq!(
        end(work_created(&caller(), REQUEST, Some(work(None)))),
        tagged(201, "\"40\"", "work.create")
    );
    assert_eq!(end(work_created(&caller(), REQUEST, None)), refused(500));
    assert_eq!(end(get_work(Lookup::Found(work(None)))), read("\"40\""));
    assert_eq!(end(get_work(Lookup::Missing)), refused(404));
    let mine = || Lookup::Found(work(Some(Uuid { bits: 1 })));
    assert!(plan_update_work(&caller(), mine(), Some("\"40\""), "B").is_ok());
    assert_eq!(status(plan_update_work(&caller(), mine(), Some("\"41\""), "B")), 412);
    assert_eq!(status(plan_update_work(&caller(), mine(), None, "B")), 412);
    assert_eq!(status(plan_update_work(&caller(), mine(), Some("\"40\""), " ")), 400);
    assert_eq!(
        status(plan_update_work(&caller(), Lookup::Found(work(None)), Some("\"40\""), "B")),
        403
    );
    assert_eq!(
        end(work_updated(&caller(), REQUEST, &work(None), Some(Some(work(None))))),
        tagged(200, "\"40\"", "work.update")
    );
    assert_eq!(end(work_updated(&caller(), REQUEST, &work(None), Some(None))), refused(404));
    let record = plan_delete_work(&admin(), REQUEST, mine(), Some("\"40\"")).ok().unwrap();
    assert_eq!(record.action, "work.delete");
    assert_eq!(work_deleted(Ok(true)).ok(), Some(204));
    assert_eq!(status(work_deleted(Ok(false))), 404);
    assert_eq!(status(work_deleted(Err(DeleteError::Referenced))), 409);
}

#[test]
fn arrangements_of_other_organizations_look_missing_here_too() {
    let s = as_role(Role::Owner);
    assert_eq!(
        end(get_arrangement(&s, Lookup::Found(arrangement(ORG)), ORG)),
        read("\"500\"")
    );
    assert_eq!(
        end(get_arrangement(&s, Lookup::Found(arrangement(OTHER)), ORG)),
        end(get_arrangement(&s, Lookup::Missing, ORG))
    );
    assert_eq!(end(get_arrangement(&s, Lookup::Failed, ORG)), refused(500));
    assert_eq!(
        end(get_arrangement(&stranger(), Lookup::Found(arrangement(ORG)), ORG)),
        refused(403)
    );
    let deleted = plan_delete_arrangement(&s, Lookup::Found(arrangement(OTHER)), ORG, Some("500"));
    assert_eq!(status(deleted), 404);
    let restored = plan_undelete_arrangement(&s, Lookup::Found(arrangement(OTHER)), ORG);
    assert_eq!(status(restored), 404);
}

#[test]
fn arrangements_are_changed_by_editors_at_their_version() {
    let s = as_role(Role::Archivist);
    let found = || Lookup::Found(arrangement(ORG));
    let fields = plan_create_arrangement(&s, body("Bolero")).ok().unwrap();
    assert_eq!(fields.status, "active");
    assert_eq!(fields.duration_seconds, Some(900));
    assert_eq!(status(plan_create_arrangement(&s, body(" "))), 400);
    assert_eq!(status(plan_create_arrangement(&as_role(Role::Conductor), body("B"))), 403);
    assert!(plan_update_arrangement(&s, found(), ORG, Some("\"500\""), body("B")).is_ok());
    assert_eq!(
        status(plan_update_arrangement(&s, found(), ORG, Some("\"501\""), body("B"))),
        412
    );
    assert_eq!(status(plan_update_arrangement(&s, found(), ORG, None, body("B"))), 412);
    assert!(plan_delete_arrangement(&s, found(), ORG, Some("\"500\"")).is_ok());
    assert!(plan_undelete_arrangement(&s, found(), ORG).is_ok());
    let current = arrangement(ORG);
    let c = caller();
    assert_eq!(
        end(arrangement_created(&c, ORG, REQUEST, Ok(arrangement(ORG)))),
        tagged(201, "\"500\"", "arrangement.create")
    );
    assert_eq!(
        end(arrangement_created(&c, ORG, REQUEST, Err(ArrangementError::DuplicateSlug))),
        refused(409)
    );
    assert_eq!(
        end(arrangement_created(&c, ORG, REQUEST, Err(ArrangementError::UnknownWork))),
        refused(400)
    );
    assert_eq!(
        end(arrangement_updated(&c, ORG, REQUEST, &current, Ok(Some(arrangement(ORG))))),
        tagged(200, "\"500\"", "arrangement.update")
    );
    assert_eq!(end(arrangement_updated(&c, ORG, REQUEST, &current, Ok(None))), refused(404));
    assert_eq!(
        end(arrangement_deleted(&c, ORG, REQUEST, &current, Some(true))),
        untagged(204, "arrangement.soft_delete")
    );
    assert_eq!(
        end(arrangement_undeleted(&c, ORG, REQUEST, &current, Some(false))),
        refused(404)
    );
}

#[test]
fn voices_are_reached_through_their_arrangement() {
    let s = as_role(Role::Owner);
    let parent = || Lookup::Found(arrangement(ORG));
    let voice = |arr: Uuid| Voice {
        id: Uuid { bits: 31 },
        arrangement_id: arr,
        name: "Flute".to_string(),
        slug: "flute".to_string(),
        instrument_id: Uuid { bits: 41 },
        created_at: at(1),
        updated_at: at(600),
        deleted_at: None,
    };
    let b = VoiceRequest { name: "Flute".to_string(), instrument_id: Uuid { bits: 41 } };
    let nameless = VoiceRequest { name: "".to_string(), instrument_id: Uuid { bits: 41 } };
    assert!(plan_create_voice(&s, parent(), ORG, &b).is_ok());
    assert_eq!(status(plan_create_voice(&s, parent(), ORG, &nameless)), 400);
    assert_eq!(status(plan_create_voice(&s, parent(), OTHER, &b)), 404);
    assert_eq!(
        end(get_voice(&s, parent(), Lookup::Found(voice(ARR)), ORG, ARR)),
        read("\"600\"")
    );
    assert_eq!(
        end(get_voice(&s, parent(), Lookup::Found(voice(COLLECTION)), ORG, ARR)),
        refused(404)
    );
    let found = || Lookup::Found(voice(ARR));
    assert!(plan_update_voice(&s, parent(), found(), ORG, ARR, Some("\"600\""), &b).is_ok());
    assert_eq!(
        status(plan_update_voice(&s, parent(), found(), ORG, ARR, Some("\"1\""), &b)),
        412
    );
    assert!(plan_delete_voice(&s, parent(), found(), ORG, ARR, Some("\"600\"")).is_ok());
    assert!(plan_undelete_voice(&s, parent(), found(), ORG, ARR).is_ok());
    let c = caller();
    assert_eq!(
        end(voice_created(&c, ORG, REQUEST, ARR, Ok(voice(ARR)))),
        tagged(201, "\"600\"", "voice.create")
    );
    assert_eq!(
        end(voice_created(&c, ORG, REQUEST, ARR, Err(VoiceError::UnknownInstrument))),
        refused(400)
    );
    assert_eq!(
        end(voice_created(&c, ORG, REQUEST, ARR, Err(VoiceError::DuplicateSlug))),
        refused(409)
    );
    let current = voice(ARR);
    assert_eq!(
        end(voice_updated(&c, ORG, REQUEST, &current, Ok(Some(voice(ARR))))),
        tagged(200, "\"600\"", "voice.update")
    );
    assert_eq!(
        end(voice_deleted(&c, ORG, REQUEST, &current, Some(true))),
        untagged(204, "voice.soft_delete")
    );
    assert_eq!(
        end(voice_undeleted(&c, ORG, REQUEST, &current, Some(true))),
        untagged(204, "voice.undelete")
    );
    let m = as_role(Role::Musician);
    let filter = |v: &str| vec![("instrumentId".to_string(), v.to_string())];
    let id = Uuid { bits: 41 };
    assert!(plan_list_below(&m, parent(), ORG).is_ok());
    assert_eq!(status(plan_list_below(&m, Lookup::Found(arrangement(OTHER)), ORG)), 404);
    assert_eq!(status(plan_list_below(&stranger(), parent(), ORG)), 403);
    assert_eq!(voice_filter(&filter(&id.text())).ok(), Some(Some(id)));
    assert_eq!(voice_filter(&vec![]).ok(), Some(None));
    assert_eq!(first_error(voice_filter(&filter("x"))).0, "filter[instrumentId]");
}

#[test]
fn tags_are_kept_within_their_organization() {
    let s = as_role(Role::Archivist);
    let tag = |org: Uuid| Tag {
        id: Uuid { bits: 51 },
        organization_id: org,
        name: "festive".to_string(),
        kind: None,
        created_at: at(1),
        updated_at: at(70),
        deleted_at: None,
    };
    let b = TagRequest { name: "festive".to_string(), kind: None };
    let c = caller();
    assert!(plan_create_tag(&s, &b).is_ok());
    assert_eq!(
        status(plan_create_tag(&s, &TagRequest { name: " ".to_string(), kind: None })),
        400
    );
    assert_eq!(
        end(tag_created(&c, ORG, REQUEST, Ok(tag(ORG)))),
        tagged(201, "\"70\"", "tag.create")
    );
    assert_eq!(end(tag_created(&c, ORG, REQUEST, Err(TagError::Duplicate))), refused(409));
    assert_eq!(end(get_tag(&s, Lookup::Found(tag(ORG)), ORG)), read("\"70\""));
    assert_eq!(end(get_tag(&s, Lookup::Found(tag(OTHER)), ORG)), refused(404));
    assert!(plan_update_tag(&s, Lookup::Found(tag(ORG)), ORG, Some("\"70\""), &b).is_ok());
    assert_eq!(
        status(plan_update_tag(&s, Lookup::Found(tag(ORG)), ORG, Some("\"71\""), &b)),
        412
    );
    assert!(plan_delete_tag(&s, Lookup::Found(tag(ORG)), ORG, Some("\"70\"")).is_ok());
    assert_eq!(status(plan_undelete_tag(&s, Lookup::Found(tag(OTHER)), ORG)), 404);
    let current = tag(ORG);
    assert_eq!(
        end(tag_updated(&c, ORG, REQUEST, &current, Ok(Some(tag(ORG))))),
        tagged(200, "\"70\"", "tag.update")
    );
    assert_eq!(
        end(tag_deleted(&c, ORG, REQUEST, &current, Some(true))),
        untagged(204, "tag.soft_delete")
    );
    assert_eq!(
        end(tag_undeleted(&c, ORG, REQUEST, &current, Some(true))),
        untagged(204, "tag.undelete")
    );
    let own = || Lookup::Found(arrangement(ORG));
    assert!(plan_attach_tag(&s, own(), Lookup::Found(tag(ORG)), ORG).is_ok());
    assert_eq!(status(plan_attach_tag(&s, own(), Lookup::Found(tag(OTHER)), ORG)), 404);
    assert!(plan_detach_tag(&s, own(), ORG).is_ok());
    assert!(plan_list_below(&as_role(Role::Musician), own(), ORG).is_ok());
    let join = Uuid { bits: 52 };
    assert_eq!(
        end(tag_attached(&c, ORG, REQUEST, join, ARR, Uuid { bits: 51 }, Ok(()))),
        untagged(201, "arrangement_tag.create")
    );
    assert_eq!(
        end(tag_attached(
            &c,
            ORG,
            REQUEST,
            join,
            ARR,
            Uuid { bits: 51 },
            Err(TagError::Duplicate)
        )),
        refused(409)
    );
    assert_eq!(
        end(tag_detached(&c, ORG, REQUEST, ARR, Uuid { bits: 51 }, Some(true))),
        untagged(204, "arrangement_tag.delete")
    );
}

fn collection(org: Uuid) -> Collection {
    Collection {
        id: COLLECTION,
        organization_id: org,
        name: "Spring".to_string(),
        slug: "spring".to_string(),
        collection_type: "program".to_string(),
        created_at: at(1),
        updated_at: at(300),
        deleted_at: None,
    }
}

fn item(collection: Uuid) -> CollectionItem {
    CollectionItem {
        id: Uuid { bits: 61 },
        collection_id: collection,
        arrangement_id: ARR,
        index: 4,
        created_at: at(1),
        updated_at: at(400),
        deleted_at: None,
    }
}

#[test]
fn collections_are_built_by_conductors_too() {
    let s = as_role(Role::Conductor);
    let c = caller();
    let found = || Lookup::Found(collection(ORG));
    let b = |name: &str, kind: &str| CollectionRequest {
        name: name.to_string(),
        collection_type: kind.to_string(),
    };
    assert!(plan_create_collection(&s, &b("Spring", "standing")).is_ok());
    assert_eq!(
        status(plan_create_collection(&as_role(Role::Musician), &b("Spring", "standing"))),
        403
    );
    assert_eq!(first_error(plan_create_collection(&s, &b(" ", "program"))).0, "name");
    assert_eq!(
        first_error(plan_create_collection(&s, &b("Spring", "tour"))),
        ("type".to_string(), "type must be `program` or `standing`".to_string())
    );
    assert_eq!(
        end(get_collection(&as_role(Role::Musician), found(), ORG)),
        read("\"300\"")
    );
    assert!(plan_update_collection(&s, found(), ORG, Some("300"), &b("S", "program")).is_ok());
    assert_eq!(status(plan_delete_collection(&s, found(), ORG, Some("301"))), 412);
    assert!(plan_undelete_collection(&s, found(), ORG).is_ok());
    assert!(plan_list_items(&as_role(Role::Musician), found(), ORG).is_ok());
    assert_eq!(status(plan_reorder(&s, Lookup::Found(collection(OTHER)), ORG)), 404);
    let current = collection(ORG);
    assert_eq!(
        end(collection_created(&c, ORG, REQUEST, Ok(collection(ORG)))),
        tagged(201, "\"300\"", "collection.create")
    );
    assert_eq!(
        end(collection_created(&c, ORG, REQUEST, Err(CollectionError::DuplicateSlug))),
        refused(409)
    );
    assert_eq!(
        end(collection_updated(&c, ORG, REQUEST, &current, Ok(Some(collection(ORG))))),
        tagged(200, "\"300\"", "collection.update")
    );
    assert_eq!(
        end(collection_deleted(&c, ORG, REQUEST, &current, Some(true))),
        untagged(204, "collection.soft_delete")
    );
    assert_eq!(
        end(collection_undeleted(&c, ORG, REQUEST, &current, Ok(false))),
        refused(404)
    );
    let order = vec![Uuid { bits: 61 }];
    assert_eq!(
        end(items_reordered(&c, ORG, REQUEST, COLLECTION, &order, Ok(()))),
        untagged(204, "collection.reorder")
    );
    assert_eq!(
        status(items_reordered(
            &c,
            ORG,
            REQUEST,
            COLLECTION,
            &order,
            Err(ItemError::InvalidReorder)
        )),
        409
    );
}

#[test]
fn pieces_have_a_number_within_bounds() {
    let s = as_role(Role::Owner);
    let c = caller();
    let parent = || Lookup::Found(collection(ORG));
    let found = || Lookup::Found(item(COLLECTION));
    assert!(plan_add_item(&s, parent(), ORG, 1).is_ok());
    for index in [0, -1, 1_000_000] {
        assert_eq!(
            first_error(plan_add_item(&s, parent(), ORG, index)).1,
            "index must be between 1 and 999999"
        );
    }
    assert!(require_own_arrangement(Lookup::Found(arrangement(ORG)), ORG).is_ok());
    assert_eq!(status(require_own_arrangement(Lookup::Found(arrangement(OTHER)), ORG)), 404);
    assert_eq!(end(get_item(&s, parent(), found(), ORG, COLLECTION)), read("\"400\""));
    assert_eq!(
        end(get_item(&s, parent(), Lookup::Found(item(ARR)), ORG, COLLECTION)),
        refused(404)
    );
    assert!(plan_update_item(&s, parent(), found(), ORG, COLLECTION, Some("400"), 9).is_ok());
    assert_eq!(
        status(plan_update_item(&s, parent(), found(), ORG, COLLECTION, Some("400"), 0)),
        400
    );
    assert_eq!(
        status(plan_delete_item(&s, parent(), found(), ORG, COLLECTION, None)),
        412
    );
    assert!(plan_undelete_item(&s, parent(), found(), ORG, COLLECTION).is_ok());
    assert_eq!(
        end(item_added(&c, ORG, REQUEST, COLLECTION, ARR, 4, Ok(item(COLLECTION)))),
        tagged(201, "\"400\"", "collection_item.create")
    );
    assert_eq!(
        end(item_added(&c, ORG, REQUEST, COLLECTION, ARR, 4, Err(ItemError::DuplicateIndex))),
        refused(409)
    );
    let current = item(COLLECTION);
    assert_eq!(
        end(item_updated(&c, ORG, REQUEST, &current, Ok(Some(item(COLLECTION))))),
        tagged(200, "\"400\"", "collection_item.update")
    );
    assert_eq!(
        end(item_deleted(&c, ORG, REQUEST, COLLECTION, &current, Some(true))),
        untagged(204, "collection_item.soft_delete")
    );
    assert_eq!(
        end(item_undeleted(&c, ORG, REQUEST, COLLECTION, &current, Ok(true))),
        untagged(204, "collection_item.undelete")
    );
}

#[test]
fn assignments_are_reached_only_through_their_organization() {
    let s = as_role(Role::Conductor);
    let c = caller();
    let piece = Uuid { bits: 61 };
    let assignment = |item: Uuid| PartAssignment {
        id: Uuid { bits: 81 },
        collection_item_id: item,
        voice_id: Uuid { bits: 31 },
        user_id: Uuid { bits: 2 },
        notified_at: None,
        acknowledged_at: Some(at(3)),
        created_at: at(1),
        updated_at: at(700),
    };
    let parent = || Lookup::Found(collection(ORG));
    let item_found = || Lookup::Found(item(COLLECTION));
    let found = || Lookup::Found(assignment(piece));
    assert!(plan_list_assignments(
        &as_role(Role::Musician),
        parent(),
        item_found(),
        ORG,
        COLLECTION
    )
    .is_ok());
    assert!(plan_assign_voice(&s, parent(), item_found(), ORG, COLLECTION).is_ok());
    assert_eq!(
        status(plan_assign_voice(
            &as_role(Role::Musician),
            parent(),
            item_found(),
            ORG,
            COLLECTION
        )),
        403
    );
    assert_eq!(
        end(get_assignment(&s, parent(), item_found(), found(), ORG, COLLECTION, piece)),
        read("\"700\"")
    );
    let detours = [
        get_assignment(
            &s,
            Lookup::Found(collection(OTHER)),
            item_found(),
            found(),
            ORG,
            COLLECTION,
            piece,
        ),
        get_assignment(&s, parent(), Lookup::Found(item(ARR)), found(), ORG, COLLECTION, piece),
        get_assignment(
            &s,
            parent(),
            item_found(),
            Lookup::Found(assignment(ARR)),
            ORG,
            COLLECTION,
            piece,
        ),
    ];
    for detour in detours {
        assert_eq!(end(detour), refused(404));
    }
    assert_eq!(
        status(plan_assignment_write(
            &s,
            parent(),
            item_found(),
            found(),
            ORG,
            COLLECTION,
            piece,
            Some("\"701\"")
        )),
        412
    );
    assert_eq!(
        end(voice_assigned(&c, ORG, REQUEST, piece, Ok(assignment(piece)))),
        tagged(201, "\"700\"", "part_assignment.create")
    );
    for (error, expected) in [
        (PartAssignmentError::Duplicate, 409),
        (PartAssignmentError::VoiceNotInArrangement, 400),
        (PartAssignmentError::UnknownReference, 400),
        (PartAssignmentError::Database, 500),
    ] {
        assert_eq!(
            end(voice_assigned(&c, ORG, REQUEST, piece, Err(error))),
            refused(expected)
        );
    }
    let current = assignment(piece);
    assert_eq!(
        end(assignment_updated(&c, ORG, REQUEST, &current, Some(Some(assignment(piece))))),
        tagged(200, "\"700\"", "part_assignment.update_state")
    );
    assert_eq!(
        end(assignment_deleted(&c, ORG, REQUEST, piece, &current, Some(true))),
        untagged(204, "part_assignment.delete")
    );
}

fn file(voice_id: Option<Uuid>) -> File {
    File {
        id: Uuid { bits: 5 },
        arrangement_id: ARR,
        voice_id,
        name: "score".to_string(),
        format: "pdf".to_string(),
        mime_type: "application/pdf".to_string(),
        derived_from_file_id: None,
        conversion_quality: None,
        created_at: at(1),
        updated_at: at(900),
        deleted_at: None,
    }
}

#[test]
fn files_are_written_by_editors_and_read_by_members() {
    let s = as_role(Role::Archivist);
    let m = as_role(Role::Musician);
    let c = caller();
    let own = || Lookup::Found(arrangement(ORG));
    let found = || Lookup::Found(file(None));
    assert!(plan_list_files(&m, ORG, ARR, None, own(), Lookup::Missing).is_ok());
    assert_eq!(status(plan_upload(&m, ORG, ARR, None, own(), Lookup::Missing)), 403);
    assert!(plan_upload(&s, ORG, ARR, None, own(), Lookup::Missing).is_ok());
    let voice = Some(Uuid { bits: 31 });
    assert_eq!(status(plan_upload(&s, ORG, ARR, voice, own(), Lookup::Missing)), 404);
    assert!(plan_download(&m, ORG, ARR, None, own(), found()).is_ok());
    assert_eq!(status(plan_download(&m, ORG, ARR, voice, own(), found())), 404);
    assert!(plan_file_write(&s, ORG, ARR, None, own(), found(), Some("\"900\"")).is_ok());
    assert_eq!(
        status(plan_file_write(&s, ORG, ARR, None, own(), found(), Some("\"901\""))),
        412
    );
    assert_eq!(status(plan_file_write(&s, ORG, ARR, None, own(), found(), None)), 412);
    let stored = || Stored { file: file(None), key: "k".to_string(), bytes: 10 };
    assert_eq!(
        end(uploaded(&c, ORG, REQUEST, Ok(stored()))),
        untagged(201, "file.create")
    );
    assert_eq!(
        end(uploaded(&c, ORG, REQUEST, Err(UploadError::TooLarge { limit: 1 }))),
        refused(413)
    );
    assert_eq!(
        end(replaced(&c, ORG, REQUEST, &file(None), Ok(stored()))),
        untagged(200, "file.replace")
    );
    assert_eq!(
        end(file_deleted(&c, ORG, REQUEST, &file(None), Some(true))),
        untagged(204, "file.soft_delete")
    );
    assert_eq!(malformed_body().status(), 400);
    assert_eq!(no_file_part().status(), 400);
    let whole = download_headers(&file(None), Some(10), None);
    assert_eq!(
        (whole.status, whole.etag.as_str(), whole.accept_ranges),
        (200, "\"900\"", "bytes")
    );
    let part = download_headers(&file(None), Some(5), Some("bytes 0-4/10".to_string()));
    assert_eq!((part.status, part.content_length), (206, Some(5)));
    assert_eq!(
        locate(Lookup::Found(()), Some("k".to_string())).ok().as_deref(),
        Some("k")
    );
    assert_eq!(status(locate(Lookup::Found(()), None)), 500);
    assert_eq!(status(locate(Lookup::Missing, None)), 404);
}

fn org() -> Organization {
    Organization {
        id: ORG,
        name: "City Band".to_string(),
        slug: "city-band".to_string(),
        created_at: at(1),
        updated_at: at(20),
    }
}

fn user() -> User {
    User {
        id: Uuid { bits: 3 },
        username: "bea".to_string(),
        slug: "bea".to_string(),
        display_name: "Bea".to_string(),
        email: None,
        is_system_admin: false,
        created_at: at(1),
        updated_at: at(30),
    }
}

#[test]
fn organizations_are_kept_by_system_admins_here_too() {
    assert!(plan_create_org(&admin(), "Band").is_ok());
    assert_eq!(status(plan_create_org(&caller(), "Band")), 403);
    assert_eq!(status(plan_create_org(&admin(), " ")), 400);
    assert_eq!(
        end(org_created(&admin(), REQUEST, Ok(org()))),
        tagged(201, "\"20\"", "organization.create")
    );
    assert_eq!(
        end(org_created(&admin(), REQUEST, Err(OrganizationError::DuplicateSlug))),
        refused(409)
    );
    assert_eq!(end(get_org(Lookup::Found(org()))), read("\"20\""));
    assert!(plan_update_org(&admin(), Lookup::Found(org()), Some("\"20\"")).is_ok());
    assert_eq!(status(plan_update_org(&admin(), Lookup::Found(org()), Some("\"21\""))), 412);
    assert_eq!(status(plan_update_org(&caller(), Lookup::Found(org()), Some("\"20\""))), 403);
    assert_eq!(
        end(org_updated(&admin(), REQUEST, &org(), Some(Some(org())))),
        tagged(200, "\"20\"", "organization.update")
    );
    let record = plan_delete_org(&admin(), REQUEST, Lookup::Found(org()), Some("\"20\""));
    assert_eq!(record.ok().unwrap().action, "organization.delete");
    assert_eq!(org_deleted(Some(true)).ok(), Some(204));
    assert_eq!(status(org_deleted(Some(false))), 404);
    assert_eq!(status(org_deleted(None)), 500);
}

#[test]
fn users_need_a_name_and_a_password() {
    assert!(plan_create_user(&admin(), "bea", "pw").is_ok());
    assert_eq!(status(plan_create_user(&caller(), "bea", "pw")), 403);
    match plan_create_user(&admin(), " ", "") {
        Err(AppError::Validation(v)) => {
            let fields: Vec<&str> = v.iter().map(|e| e.field.as_str()).collect();
            assert_eq!(fields, vec!["username", "password"]);
        }
        _ => panic!("accepted"),
    }
    assert_eq!(hash_failure().status(), 500);
    assert_eq!(
        end(user_created(&admin(), REQUEST, Ok(user()))),
        tagged(201, "\"30\"", "user.create")
    );
    assert_eq!(
        end(user_created(&admin(), REQUEST, Err(UserError::DuplicateUsername))),
        refused(409)
    );
    assert_eq!(end(get_user(&admin(), Lookup::Found(user()))), read("\"30\""));
    assert_eq!(end(get_user(&caller(), Lookup::Found(user()))), refused(403));
    assert!(plan_delete_user(&admin(), Lookup::Found(user()), Some("\"30\"")).is_ok());
    assert_eq!(
        end(user_deleted(&admin(), REQUEST, &user(), Ok(true))),
        untagged(204, "user.delete")
    );
    assert_eq!(
        end(user_deleted(&admin(), REQUEST, &user(), Err(DeleteError::Referenced))),
        refused(409)
    );
}

#[test]
fn memberships_keep_what_is_not_said() {
    let s = as_role(Role::Owner);
    let c = caller();
    let instrument = Uuid { bits: 41 };
    let membership = |org: Uuid| Membership {
        id: Uuid { bits: 71 },
        user_id: Uuid { bits: 3 },
        organization_id: org,
        role: Role::Musician,
        instrument_ids: vec![instrument],
        is_principal: true,
        principal_instrument_ids: vec![instrument],
        created_at: at(1),
        updated_at: at(800),
    };
    let b = |role: &str| MemberRequest {
        role: role.to_string(),
        instrument_ids: None,
        is_principal: None,
        principal_instrument_ids: None,
    };
    let fields = plan_create_member(&s, b("conductor")).ok().unwrap();
    assert_eq!(fields.role, Role::Conductor);
    assert!(fields.instrument_ids.is_empty());
    assert!(!fields.is_principal);
    assert_eq!(status(plan_create_member(&as_role(Role::Archivist), b("conductor"))), 403);
    assert_eq!(
        first_error(parse_role_or_validation_error("king")),
        (
            "role".to_string(),
            "role must be one of: owner, archivist, conductor, musician".to_string()
        )
    );
    let found = || Lookup::Found(membership(ORG));
    let (current, fields) =
        plan_update_member(&s, found(), ORG, Some("\"800\""), b("musician")).ok().unwrap();
    assert_eq!(fields.instrument_ids, vec![instrument]);
    assert_eq!(fields.principal_instrument_ids, vec![instrument]);
    assert!(fields.is_principal);
    assert_eq!(
        status(plan_update_member(&s, found(), ORG, Some("\"801\""), b("musician"))),
        412
    );
    assert_eq!(
        status(plan_update_member(&s, Lookup::Found(membership(OTHER)), ORG, None, b("owner"))),
        404
    );
    assert_eq!(
        end(get_member(&as_role(Role::Musician), found(), ORG)),
        read("\"800\"")
    );
    assert!(plan_delete_member(&s, found(), ORG, Some("\"800\"")).is_ok());
    assert_eq!(
        end(member_created(&c, ORG, REQUEST, Ok(membership(ORG)))),
        tagged(201, "\"800\"", "membership.create")
    );
    let promoted = Membership { role: Role::Owner, ..membership(ORG) };
    assert_eq!(
        end(member_updated(&c, ORG, REQUEST, &current, Ok(Some(promoted)))),
        tagged(200, "\"800\"", "membership.role_change")
    );
    assert_eq!(
        end(member_deleted(&c, ORG, REQUEST, &current, Ok(()))),
        untagged(204, "membership.delete")
    );
    for (error, expected) in [
        (MembershipError::Duplicate, 409),
        (MembershipError::UnknownInstrument, 400),
        (MembershipError::PrincipalNotSubset, 400),
        (MembershipError::LastOwner, 409),
        (MembershipError::Database, 500),
    ] {
        assert_eq!(
            end(member_created(&c, ORG, REQUEST, Err(error))),
            refused(expected)
        );
    }
}

#[test]
fn lists_are_narrowed_by_their_own_filters() {
    let filters: Vec<(String, String)> = [
        ("title", "bol"),
        ("composer", "ravel"),
        ("kind", "mood"),
        ("type", "standing"),
        ("role", "owner"),
        ("name", "band"),
        ("username", "bea"),
        ("name", "second"),
    ]
    .iter()
    .map(|(k, v)| (k.to_string(), v.to_string()))
    .collect();
    let m = as_role(Role::Musician);
    let works = plan_list_works(&filters);
    assert_eq!(works.title.as_deref(), Some("bol"));
    assert_eq!(works.composer.as_deref(), Some("ravel"));
    assert_eq!(plan_list_works(&vec![]).title, None);
    assert_eq!(plan_list_tags(&m, &filters).ok().flatten().as_deref(), Some("mood"));
    assert_eq!(
        plan_list_collections(&m, &filters).ok().flatten().as_deref(),
        Some("standing")
    );
    assert_eq!(plan_list_members(&m, &filters).ok().flatten().as_deref(), Some("owner"));
    assert_eq!(plan_list_orgs(&filters).as_deref(), Some("band"));
    assert_eq!(
        plan_list_users(&admin(), &filters).ok().flatten().as_deref(),
        Some("bea")
    );
    assert_eq!(status(plan_list_users(&caller(), &filters)), 403);
    assert_eq!(status(plan_list_tags(&stranger(), &filters)), 403);
    assert_eq!(status(plan_list_collections(&stranger(), &filters)), 403);
    assert_eq!(status(plan_list_members(&stranger(), &filters)), 403);
    assert!(plan_list_arrangements(&m, &vec![], Some("bolero")).is_ok());
    assert_eq!(status(plan_list_arrangements(&stranger(), &vec![], None)), 403);
    let bad = vec![("difficultyMin".to_string(), "x".to_string())];
    assert_eq!(status(plan_list_arrangements(&m, &bad, None)), 400);
}
