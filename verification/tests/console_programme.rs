//! The console's collections, parts and coverage.

use lied::assignments::{
    allow_assignment, assignments_page, assignments_url, part_assigned, part_unassigned,
    plan_assign, plan_assignee, require_assignee, require_assignment, scoped_assignment,
    stamp_times, state_marked, PartError, Stamp, StateStamp,
};
use lied::collection_screens::{collection_detail_page, collections_page, truncation, type_select};
use lied::collections::{
    collection_created, collection_deleted, collection_undeleted, collection_updated, detail_url,
    enter_collection, is_valid_index, is_valid_type, item_added, item_deleted, item_undeleted,
    next_index, parse_type, plan_add_item, plan_append, plan_create_collection, plan_item_index,
    plan_reorder, plan_update_collection, reordered, CollectionError, CollectionFields,
    CollectionForm, ItemError,
};
use lied::audit::Fact;
use lied::console::ConsoleCtx;
use lied::coverage::{
    collection_coverage, dashboard, enter, is_section_view, open_collection, tally, Conflict,
    CoverageReport, CoverageScope, EmptyNote, ItemCoverage, Player, Required, Tally, VoiceCoverage,
};
use lied::error::AppError;
use lied::id::Uuid;
use lied::model::{Arrangement, Collection, CollectionItem, ItemView, Lookup, MatrixRow, Membership, Organization, PartAssignment, Time, User};
use lied::reorder::arrow_value;
use lied::reply::{Done, Reply};
use lied::role::Role;

fn at(millis: i64) -> Time {
    Time { millis, nanos: 0 }
}

const ORG: Uuid = Uuid { bits: 7 };
const COLLECTION: Uuid = Uuid { bits: 60 };
const REQUEST: Uuid = Uuid { bits: 99 };

fn user() -> User {
    User {
        id: Uuid { bits: 1 },
        username: "ada".to_string(),
        slug: "ada".to_string(),
        display_name: "Ada".to_string(),
        email: None,
        is_system_admin: false,
        created_at: at(1),
        updated_at: at(2),
    }
}

fn ctx_as(role: Role) -> ConsoleCtx {
    let org = Organization {
        id: ORG,
        name: "City Band".to_string(),
        slug: "city-band".to_string(),
        created_at: at(1),
        updated_at: at(2),
    };
    let membership = Membership {
        id: Uuid { bits: 70 },
        user_id: Uuid { bits: 1 },
        organization_id: ORG,
        role,
        instrument_ids: vec![],
        is_principal: true,
        principal_instrument_ids: vec![],
        created_at: at(1),
        updated_at: at(2),
    };
    ConsoleCtx::load(user(), Lookup::Found(org), Lookup::Found(membership))
        .ok()
        .unwrap()
}

fn collection(bits: u128, org: Uuid) -> Collection {
    Collection {
        id: Uuid { bits },
        organization_id: org,
        name: "Spring concert".to_string(),
        slug: "spring-concert".to_string(),
        collection_type: "program".to_string(),
        created_at: at(1),
        updated_at: at(300),
        deleted_at: None,
    }
}

fn arrangement(bits: u128) -> Arrangement {
    Arrangement {
        id: Uuid { bits },
        organization_id: ORG,
        slug: "bolero".to_string(),
        title: "Bolero".to_string(),
        work_id: None,
        instrumentation: None,
        arranger: None,
        publisher: None,
        purchase_date: None,
        license_notes: None,
        copy_count_allowed: None,
        status: "active".to_string(),
        duration_seconds: None,
        difficulty: None,
        difficulty_ratings: None,
        difficulty_notes: None,
        created_at: at(1),
        updated_at: at(2),
        deleted_at: None,
    }
}

fn item(bits: u128, arrangement: u128, index: i32) -> CollectionItem {
    CollectionItem {
        id: Uuid { bits },
        collection_id: COLLECTION,
        arrangement_id: Uuid { bits: arrangement },
        index,
        created_at: at(1),
        updated_at: at(400),
        deleted_at: None,
    }
}

fn view(bits: u128, arrangement: u128, index: i32) -> ItemView {
    ItemView {
        item: item(bits, arrangement, index),
        arrangement_title: "Bolero".to_string(),
        arrangement_slug: "bolero".to_string(),
        arrangement_removed: false,
    }
}

fn pairs(items: &[(&str, &str)]) -> Vec<(String, String)> {
    items
        .iter()
        .map(|(k, v)| (k.to_string(), v.to_string()))
        .collect()
}

fn error_of(reply: &Reply) -> (u16, String) {
    match reply {
        Reply::Error { status, message, .. } => (*status, message.clone()),
        _ => panic!("no error page"),
    }
}

fn action_of(done: &Done) -> String {
    done.audit.as_ref().unwrap().action.clone()
}

fn form(name: &str, kind: Option<&str>, version: Option<&str>) -> CollectionForm {
    CollectionForm {
        name: Some(name.to_string()),
        collection_type: kind.map(|k| k.to_string()),
        expected_version: version.map(|v| v.to_string()),
    }
}

#[test]
fn collections_have_a_name_and_a_type() {
    let ctx = ctx_as(Role::Conductor);
    let fields = plan_create_collection(&ctx, &form(" Spring ", Some("program"), None)).ok().unwrap();
    assert_eq!(fields.name, "Spring");
    assert_eq!(fields.collection_type, "program");
    assert_eq!(
        error_of(&plan_create_collection(&ctx, &form(" ", Some("program"), None)).err().unwrap()),
        (400, "Collection name must not be empty.".to_string())
    );
    assert_eq!(
        plan_create_collection(&ctx, &form("x", Some("tour"), None)).err().unwrap().status(),
        400
    );
    assert!(is_valid_type("standing"));
    assert!(!is_valid_type("Program"));
    assert_eq!(parse_type(&Some(" standing ".to_string())).as_deref(), Some("standing"));
    assert_eq!(parse_type(&None), None);
    assert!(matches!(
        plan_create_collection(&ctx_as(Role::Musician), &form("x", Some("program"), None)),
        Err(Reply::SectionForbidden)
    ));
}

#[test]
fn collections_of_other_organizations_look_missing() {
    let ctx = ctx_as(Role::Owner);
    assert!(enter_collection(&ctx, Lookup::Found(collection(60, ORG))).is_ok());
    let foreign = enter_collection(&ctx, Lookup::Found(collection(60, Uuid { bits: 8 })))
        .err()
        .unwrap();
    let missing = enter_collection(&ctx, Lookup::Missing).err().unwrap();
    assert_eq!(error_of(&foreign), error_of(&missing));
    assert_eq!(missing.status(), 404);
}

#[test]
fn a_collection_is_saved_only_at_its_version() {
    let ctx = ctx_as(Role::Owner);
    let found = || Lookup::Found(collection(60, ORG));
    assert!(plan_update_collection(
        &ctx,
        COLLECTION,
        found(),
        &form("x", Some("program"), Some("300"))
    )
    .is_ok());
    let stale = plan_update_collection(
        &ctx,
        COLLECTION,
        found(),
        &form("x", Some("program"), Some("299")),
    )
    .err()
    .unwrap();
    assert_eq!(stale.status(), 412);
    let fields = CollectionFields {
        name: "x".to_string(),
        collection_type: "program".to_string(),
    };
    assert_eq!(
        action_of(&collection_updated(&ctx, REQUEST, COLLECTION, &fields, Ok(true))),
        "collection.update"
    );
    assert_eq!(
        collection_updated(&ctx, REQUEST, COLLECTION, &fields, Ok(false)).reply.status(),
        404
    );
    assert_eq!(
        collection_updated(
            &ctx,
            REQUEST,
            COLLECTION,
            &fields,
            Err(CollectionError::DuplicateSlug)
        )
        .reply
        .status(),
        409
    );
    assert_eq!(
        action_of(&collection_created(&ctx, REQUEST, Ok(collection(60, ORG)))),
        "collection.create"
    );
    assert_eq!(
        collection_created(&ctx, REQUEST, Err(CollectionError::Database)).reply.status(),
        500
    );
    assert_eq!(
        action_of(&collection_deleted(&ctx, REQUEST, COLLECTION, Some(true))),
        "collection.soft_delete"
    );
    assert_eq!(collection_deleted(&ctx, REQUEST, COLLECTION, None).reply.status(), 500);
    assert_eq!(
        action_of(&collection_undeleted(&ctx, REQUEST, COLLECTION, Ok(()))),
        "collection.undelete"
    );
    assert_eq!(
        collection_undeleted(&ctx, REQUEST, COLLECTION, Err(CollectionError::DuplicateSlug))
            .reply
            .status(),
        409
    );
}

#[test]
fn pieces_are_added_at_a_number_or_at_the_end() {
    let ctx = ctx_as(Role::Owner);
    let found = || Lookup::Found(collection(60, ORG));
    let arr = Uuid { bits: 11 };
    let p = pairs(&[("arrangement_id", &arr.text()), ("index", " 4 ")]);
    assert_eq!(plan_add_item(&ctx, found(), &p).ok(), Some(arr));
    assert_eq!(
        error_of(&plan_add_item(&ctx, found(), &pairs(&[])).err().unwrap()),
        (400, "Choose an arrangement.".to_string())
    );
    assert_eq!(
        plan_item_index(&ctx, Lookup::Found(arrangement(11)), &p).ok(),
        Some(Some(4))
    );
    assert_eq!(
        plan_item_index(&ctx, Lookup::Found(arrangement(11)), &pairs(&[("index", " ")])).ok(),
        Some(None)
    );
    for raw in ["0", "1000000", "x", "-1"] {
        let refused = plan_item_index(
            &ctx,
            Lookup::Found(arrangement(11)),
            &pairs(&[("index", raw)]),
        )
        .err()
        .unwrap();
        assert_eq!(
            error_of(&refused).1,
            "The piece number must be a whole number between 1 and 999999."
        );
    }
    assert!(is_valid_index(1) && is_valid_index(999_999));
    assert!(!is_valid_index(0) && !is_valid_index(1_000_000));
    let items = vec![view(61, 11, 3), view(62, 12, 9), view(63, 13, 5)];
    assert_eq!(next_index(&items), 10);
    assert_eq!(next_index(&vec![]), 1);
    assert_eq!(plan_append(Some(&items)).ok(), Some(10));
    assert_eq!(plan_append(None).err().unwrap().status(), 500);
    let full = vec![view(61, 11, i32::MAX)];
    assert_eq!(next_index(&full), 2_147_483_648);
    let done = item_added(&ctx, REQUEST, COLLECTION, arr, 4, Ok(Uuid { bits: 61 }));
    assert_eq!(action_of(&done), "collection_item.create");
    for (error, status) in [
        (ItemError::DuplicateIndex, 409),
        (ItemError::UnknownReference, 404),
        (ItemError::InvalidReorder, 500),
        (ItemError::Database, 500),
    ] {
        let done = item_added(&ctx, REQUEST, COLLECTION, arr, 4, Err(error));
        assert_eq!(done.reply.status(), status);
    }
}

#[test]
fn a_submitted_order_is_moved_and_saved() {
    let ctx = ctx_as(Role::Owner);
    let found = || Lookup::Found(collection(60, ORG));
    let (a, b) = (Uuid { bits: 61 }, Uuid { bits: 62 });
    let p = pairs(&[
        ("order", &a.text()),
        ("order", &b.text()),
        ("move", &arrow_value(true, b)),
    ]);
    assert_eq!(plan_reorder(&ctx, found(), &p).ok(), Some(vec![b, a]));
    let plain = pairs(&[("order", &a.text()), ("order", &b.text())]);
    assert_eq!(plan_reorder(&ctx, found(), &plain).ok(), Some(vec![a, b]));
    assert_eq!(
        plan_reorder(&ctx, found(), &pairs(&[("order", "x")])).err().unwrap().status(),
        400
    );
    assert_eq!(plan_reorder(&ctx, found(), &pairs(&[])).err().unwrap().status(), 400);
    let off = pairs(&[("order", &a.text()), ("move", &arrow_value(true, a))]);
    assert!(plan_reorder(&ctx, found(), &off).is_err());
    let done = reordered(&ctx, REQUEST, COLLECTION, &vec![b, a], Ok(()));
    assert_eq!(action_of(&done), "collection_item.reorder");
    assert_eq!(
        reordered(&ctx, REQUEST, COLLECTION, &vec![b, a], Err(ItemError::InvalidReorder))
            .reply
            .status(),
        409
    );
    assert_eq!(
        reordered(&ctx, REQUEST, COLLECTION, &vec![b, a], Err(ItemError::Database))
            .reply
            .status(),
        500
    );
    assert_eq!(
        action_of(&item_deleted(&ctx, REQUEST, COLLECTION, a, true)),
        "collection_item.soft_delete"
    );
    assert_eq!(
        action_of(&item_undeleted(&ctx, REQUEST, COLLECTION, a, Ok(()))),
        "collection_item.undelete"
    );
    assert_eq!(
        item_undeleted(&ctx, REQUEST, COLLECTION, a, Err(ItemError::DuplicateIndex))
            .reply
            .status(),
        409
    );
}

#[test]
fn the_collection_screen_offers_only_what_works() {
    let items = vec![view(61, 11, 1), view(62, 12, 2), view(63, 13, 3)];
    let page = collection_detail_page(
        &ctx_as(Role::Owner),
        Lookup::Found(collection(60, ORG)),
        Some(&items),
        &vec![],
        0,
        &vec![arrangement(11), arrangement(14)],
    )
    .ok()
    .unwrap();
    let arrows: Vec<(bool, bool)> =
        page.pieces.iter().map(|p| (p.up.is_some(), p.down.is_some())).collect();
    assert_eq!(arrows, vec![(false, true), (true, true), (true, false)]);
    let candidates: Vec<Uuid> = page.candidates.iter().map(|c| c.id).collect();
    assert_eq!(candidates, vec![Uuid { bits: 14 }]);
    assert_eq!(page.next_index, 4);
    assert_eq!(page.max_index, 999_999);
    assert_eq!(page.version, 300);
    assert!(page.types[0].selected);
    // Both a live and a removed piece may belong to a removed arrangement: the
    // live one is told by its slug, the removed one by its title.
    let gone = |bits: u128| ItemView { arrangement_removed: true, ..view(bits, 15, 4) };
    let page = collection_detail_page(
        &ctx_as(Role::Owner),
        Lookup::Found(collection(60, ORG)),
        Some(&vec![gone(64)]),
        &vec![gone(65)],
        2,
        &vec![],
    )
    .ok()
    .unwrap();
    assert_eq!(page.pieces[0].label, "bolero");
    assert_eq!(page.removed[0].title, "Bolero");
    assert!(page.removed[0].restore_action.ends_with("/undelete"));
    assert!(page.removed_truncated.is_some());
    let list = collections_page(
        &ctx_as(Role::Owner),
        Some((&vec![collection(60, ORG)], 5)),
        &vec![],
        0,
    )
    .ok()
    .unwrap();
    assert_eq!(list.rows[0].href, detail_url(ORG, COLLECTION));
    let note = list.truncated.unwrap();
    assert_eq!((note.shown, note.total), (1, 5));
    assert!(list.deleted_truncated.is_none());
    assert!(truncation(3, 3).is_none());
    let options = type_select(Some("standing"));
    assert_eq!((options[0].selected, options[1].selected), (false, true));
}

fn assignment(item: u128) -> PartAssignment {
    PartAssignment {
        id: Uuid { bits: 81 },
        collection_item_id: Uuid { bits: item },
        voice_id: Uuid { bits: 31 },
        user_id: Uuid { bits: 2 },
        notified_at: None,
        acknowledged_at: None,
        created_at: at(1),
        updated_at: at(700),
    }
}

#[test]
fn parts_are_handed_out_step_by_step() {
    let ctx = ctx_as(Role::Owner);
    let found = || Lookup::Found(collection(60, ORG));
    let piece = || Lookup::Found(item(61, 11, 1));
    let voice = Uuid { bits: 31 };
    let p = pairs(&[
        ("voice_id", &voice.text()),
        ("username", " ada "),
        ("expected_version", "700"),
    ]);
    let (i, v) = plan_assign(&ctx, COLLECTION, found(), piece(), &p).ok().unwrap();
    assert_eq!((i.id, v), (Uuid { bits: 61 }, voice));
    assert_eq!(
        error_of(&plan_assign(&ctx, COLLECTION, found(), piece(), &pairs(&[])).err().unwrap()),
        (400, "Choose a voice to assign.".to_string())
    );
    assert_eq!(
        plan_assign(&ctx, COLLECTION, found(), Lookup::Missing, &p).err().unwrap().status(),
        404
    );
    assert_eq!(
        plan_assignee(Lookup::Found(arrangement(11)), &p).ok().as_deref(),
        Some("ada")
    );
    assert_eq!(plan_assignee(Lookup::Missing, &p).err().unwrap().status(), 409);
    assert_eq!(
        plan_assignee(Lookup::Found(arrangement(11)), &pairs(&[])).err().unwrap().status(),
        400
    );
    assert!(require_assignee(Lookup::Found(user())).is_ok());
    assert_eq!(require_assignee(Lookup::Missing).err().unwrap().status(), 404);
    let back = || "/back".to_string();
    assert!(allow_assignment(Lookup::Missing, &pairs(&[]), back()).is_ok());
    assert!(allow_assignment(Lookup::Found(assignment(61)), &p, back()).is_ok());
    assert_eq!(
        allow_assignment(Lookup::Found(assignment(61)), &pairs(&[]), back())
            .err()
            .unwrap()
            .status(),
        412
    );
    assert_eq!(
        allow_assignment(Lookup::Failed, &p, back()).err().unwrap().status(),
        500
    );
    let end = |result| {
        part_assigned(
            &ctx,
            REQUEST,
            COLLECTION,
            Uuid { bits: 61 },
            voice,
            Uuid { bits: 1 },
            result,
        )
    };
    assert_eq!(action_of(&end(Ok((Uuid { bits: 81 }, true)))), "part_assignment.create");
    assert_eq!(action_of(&end(Ok((Uuid { bits: 81 }, false)))), "part_assignment.reassign");
    assert_eq!(end(Err(PartError::VoiceNotInArrangement)).reply.status(), 404);
    assert_eq!(end(Err(PartError::UnknownReference)).reply.status(), 404);
    assert_eq!(end(Err(PartError::Database)).reply.status(), 500);
}

#[test]
fn assignments_of_other_pieces_look_missing() {
    let piece = Uuid { bits: 61 };
    assert!(matches!(
        scoped_assignment(Lookup::Found(assignment(61)), piece),
        Lookup::Found(_)
    ));
    assert!(matches!(
        scoped_assignment(Lookup::Found(assignment(62)), piece),
        Lookup::Missing
    ));
    assert_eq!(
        error_of(&require_assignment(Lookup::Found(assignment(62)), piece).err().unwrap()),
        (404, "Assignment not found.".to_string())
    );
}

#[test]
fn acknowledging_is_recorded_apart_from_notifying() {
    // A stamp keeps what lies beyond the millisecond.
    let now = Time { millis: 5, nanos: 123_456 };
    assert_eq!(stamp_times(StateStamp::Notified, now), (Some(now), None));
    assert_eq!(stamp_times(StateStamp::Acknowledged, now), (None, Some(now)));
    let ctx = ctx_as(Role::Owner);
    let (piece, id) = (Uuid { bits: 61 }, Uuid { bits: 81 });
    let done = state_marked(&ctx, REQUEST, COLLECTION, piece, id, (Some(now), None), true);
    assert_eq!(action_of(&done), "part_assignment.update_state");
    let entry = done.audit.unwrap();
    assert!(matches!(entry.details[0].value, Fact::Time(t) if t == now));
    assert!(matches!(entry.details[1].value, Fact::Nothing));
    let done = state_marked(&ctx, REQUEST, COLLECTION, piece, id, (Some(now), None), false);
    assert_eq!(done.reply.status(), 500);
    let done = part_unassigned(&ctx, REQUEST, COLLECTION, piece, id, true);
    assert_eq!(action_of(&done), "part_assignment.delete");
}

#[test]
fn the_parts_screen_shows_every_voice() {
    let row = |id: Option<u128>, notified: Option<Time>| MatrixRow {
        voice_id: Uuid { bits: 31 },
        voice_name: "Flute 1".to_string(),
        assignment_id: id.map(|bits| Uuid { bits }),
        assignee_username: id.map(|_| "ada".to_string()),
        assignee_display_name: None,
        notified_at: notified,
        acknowledged_at: None,
        assignment_updated_at: id.map(|_| at(700)),
    };
    let matrix = vec![row(Some(81), Some(at(0))), row(None, None)];
    let a = arrangement(11);
    let page = assignments_page(
        &ctx_as(Role::Owner),
        &collection(60, ORG),
        &item(61, 11, 4),
        Some(&a),
        Some(&matrix),
    )
    .ok()
    .unwrap();
    assert_eq!(page.title, "Bolero");
    assert_eq!(page.index, 4);
    assert_eq!(page.base, assignments_url(ORG, COLLECTION, Uuid { bits: 61 }));
    let first = &page.rows[0];
    assert_eq!(first.assignee, Some(("ada".to_string(), "ada".to_string())));
    assert!(matches!(&first.notified, Stamp::At(Some(t)) if t == "1970-01-01 00:00"));
    assert!(matches!(&first.acknowledged, Stamp::Button(_)));
    let assign = first.assign.as_ref().unwrap();
    assert_eq!((assign.label, assign.expected_version), ("Reassign", Some(700)));
    let second = &page.rows[1];
    assert!(matches!(second.notified, Stamp::Dash));
    assert_eq!(second.assign.as_ref().unwrap().label, "Assign");
    assert!(second.unassign_action.is_none());
    let page = assignments_page(
        &ctx_as(Role::Owner),
        &collection(60, ORG),
        &item(61, 11, 4),
        None,
        Some(&matrix),
    )
    .ok()
    .unwrap();
    assert_eq!(page.title, "[removed]");
    assert!(page.rows[0].assign.is_none());
    assert!(page.rows[0].unassign_action.is_some());
}

fn report(collection: u128, required: u32, covered: u32) -> CoverageReport {
    CoverageReport {
        collection_id: Uuid { bits: collection },
        items: vec![],
        required,
        covered,
        players: covered,
        players_acknowledged: 0,
    }
}

#[test]
fn the_dashboard_puts_the_worst_first() {
    let collections: Vec<Collection> =
        [60, 61, 62, 63, 64].iter().map(|b| collection(*b, ORG)).collect();
    let reports = vec![
        report(60, 4, 2),
        report(61, 0, 0),
        report(62, 3, 1),
        report(63, 8, 4),
    ];
    let rows = dashboard(Some(&collections), Some(&reports)).ok().unwrap();
    let order: Vec<u128> = rows.iter().map(|r| r.id.bits).collect();
    // A third before a half; equal shares as listed; what requires nothing last.
    assert_eq!(order, vec![62, 60, 63, 61, 64]);
    assert_eq!(rows[3].tally, Tally::NothingRequired);
    assert_eq!(dashboard(None, Some(&reports)).err().unwrap().status(), 500);
    assert_eq!(dashboard(Some(&collections), None).err().unwrap().status(), 500);
}

fn piece(required: u32, voices: Vec<VoiceCoverage>) -> ItemCoverage {
    ItemCoverage {
        item_id: Uuid { bits: 61 },
        index: 2,
        arrangement_title: "Bolero".to_string(),
        arrangement_slug: "bolero".to_string(),
        arrangement_removed: false,
        required,
        covered: 1,
        players: 2,
        players_acknowledged: 1,
        conflicts: vec![Conflict {
            display_name: "Ada".to_string(),
            username: "ada".to_string(),
            voice_names: vec!["Flute 1".to_string(), "Piccolo".to_string()],
        }],
        voices,
    }
}

#[test]
fn coverage_is_tallied() {
    let r = CoverageReport {
        collection_id: COLLECTION,
        items: vec![piece(3, vec![]), piece(2, vec![])],
        required: 5,
        covered: 3,
        players: 4,
        players_acknowledged: 2,
    };
    assert_eq!(
        tally(&r),
        Tally::Counted {
            covered: 3,
            required: 5,
            gaps: 2,
            players_acknowledged: 2,
            players: 4,
            conflicts: 2,
        }
    );
    assert_eq!(tally(&report(60, 0, 0)), Tally::NothingRequired);
}

#[test]
fn coverage_scopes_decide_what_is_required() {
    assert!(matches!(
        enter(Ok(CoverageScope::FullProgram)),
        Ok(Required::EveryVoice)
    ));
    let section = enter(Ok(CoverageScope::Section(vec![Uuid { bits: 41 }]))).ok().unwrap();
    assert!(is_section_view(&section));
    assert!(matches!(
        enter(Err(AppError::Forbidden)),
        Err(Reply::SectionForbidden)
    ));
    assert_eq!(enter(Err(AppError::Database)).err().unwrap().status(), 500);
}

#[test]
fn a_collections_coverage_names_gaps_and_conflicts() {
    let ctx = ctx_as(Role::Conductor);
    let c = open_collection(&ctx, Lookup::Found(collection(60, ORG))).ok().unwrap();
    assert_eq!(open_collection(&ctx, Lookup::Missing).err().unwrap().status(), 404);
    let voices = vec![VoiceCoverage {
        voice_name: "Flute 1".to_string(),
        players: vec![
            Player {
                display_name: "Ada".to_string(),
                notified_at: Some(at(1)),
                acknowledged_at: Some(at(2)),
            },
            Player { display_name: "Bea".to_string(), notified_at: None, acknowledged_at: None },
        ],
    }];
    assert_eq!(voices[0].acknowledged(), 1);
    let r = CoverageReport {
        collection_id: COLLECTION,
        items: vec![piece(1, voices), piece(0, vec![])],
        required: 1,
        covered: 1,
        players: 2,
        players_acknowledged: 1,
    };
    let page = collection_coverage(&ctx, &c, &Required::EveryVoice, Some(&r)).ok().unwrap();
    assert!(!page.section_view);
    let first = &page.pieces[0];
    assert_eq!(first.voices[0].acknowledged, 1);
    assert!(!first.voices[0].players[0].not_yet_notified);
    assert!(first.voices[0].players[1].not_yet_notified);
    assert_eq!(
        first.conflicts[0],
        "⚠ Ada (ada) is on Flute 1 and Piccolo — one player cannot cover both at the same time."
    );
    assert!(first.empty_note.is_none());
    assert_eq!(page.pieces[1].empty_note, Some(EmptyNote::NoVoices));
    let section = Required::Instruments(vec![]);
    let page = collection_coverage(&ctx, &c, &section, Some(&r)).ok().unwrap();
    assert_eq!(page.pieces[1].empty_note, Some(EmptyNote::NothingForSection));
    assert_eq!(
        collection_coverage(&ctx, &c, &section, None).err().unwrap().status(),
        500
    );
}
