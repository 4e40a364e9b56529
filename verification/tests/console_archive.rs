//! The console's arrangement, work, voice, tag and instrument screens.

use lied::arrangement_form::ArrangementForm;
use lied::arrangement_screens::{
    arrangement_readonly, detail_page, edit_fields, list_page, new_fields, voice_detail_page,
    voices_page, works_page, Controls,
};
use lied::arrangements::{
    created, deleted, form_unavailable, plan_create, plan_create_voice, plan_create_work,
    plan_delete, plan_undelete, plan_update, plan_update_voice, plan_update_work,
    plan_voice_removal, undeleted, updated, version_is_current, voice_created, voice_deleted,
    voice_undeleted, voice_updated, work_created, work_updated, ArrangementError, VoiceError,
    VoiceForm, WorkFields, WorkForm,
};
use lied::audit::Fact;
use lied::console::ConsoleCtx;
use lied::id::Uuid;
use lied::instruments::{instrument_name, instrument_picker, ordered_families};
use lied::model::{Arrangement, Instrument, Lookup, Membership, Organization, Tag, Time, User, Voice, Work};
use lied::reply::{Done, Reply};
use lied::role::Role;
use lied::tags::{
    blank, plan_attach_tag, plan_create_tag, plan_delete_tag, plan_detach_tag, plan_undelete_tag,
    plan_update_tag, require_own_tag, tag_attached, tag_belongs_to_org, tag_created, tag_deleted,
    tag_detached, tag_undeleted, tag_updated, tags_page, TagError, TagFields, TagForm,
};

fn at(millis: i64) -> Time {
    Time { millis, nanos: 0 }
}

const ORG: Uuid = Uuid { bits: 7 };
const REQUEST: Uuid = Uuid { bits: 99 };

fn base() -> String {
    format!("/admin/orgs/{}", ORG.text())
}

fn ctx_as(role: Role) -> ConsoleCtx {
    let user = User {
        id: Uuid { bits: 1 },
        username: "ada".to_string(),
        slug: "ada".to_string(),
        display_name: "Ada".to_string(),
        email: None,
        is_system_admin: false,
        created_at: at(1),
        updated_at: at(2),
    };
    let org = Organization {
        id: ORG,
        name: "City Band".to_string(),
        slug: "city-band".to_string(),
        created_at: at(1),
        updated_at: at(2),
    };
    let membership = Membership {
        id: Uuid { bits: 70 },
        user_id: Uuid { bits: 1 },
        organization_id: ORG,
        role,
        instrument_ids: vec![],
        is_principal: true,
        principal_instrument_ids: vec![],
        created_at: at(1),
        updated_at: at(2),
    };
    ConsoleCtx::load(user, Lookup::Found(org), Lookup::Found(membership))
        .ok()
        .unwrap()
}

fn arrangement(bits: u128, org: Uuid) -> Arrangement {
    Arrangement {
        id: Uuid { bits },
        organization_id: org,
        slug: "bolero".to_string(),
        title: "Bolero".to_string(),
        work_id: Some(Uuid { bits: 20 }),
        instrumentation: None,
        arranger: Some("Ravel".to_string()),
        publisher: None,
        purchase_date: None,
        license_notes: None,
        copy_count_allowed: Some(3),
        status: "active".to_string(),
        duration_seconds: Some(900),
        difficulty: Some(6),
        difficulty_ratings: None,
        difficulty_notes: None,
        created_at: at(10),
        updated_at: at(500),
        deleted_at: None,
    }
}

fn work(created_by: Option<Uuid>) -> Work {
    Work {
        id: Uuid { bits: 20 },
        title: "Bolero".to_string(),
        composer: Some("Ravel".to_string()),
        created_by,
        created_at: at(1),
        updated_at: at(2),
    }
}

fn voice(arr: u128) -> Voice {
    Voice {
        id: Uuid { bits: 31 },
        arrangement_id: Uuid { bits: arr },
        name: "Flute 1".to_string(),
        slug: "flute-1".to_string(),
        instrument_id: Uuid { bits: 41 },
        created_at: at(1),
        updated_at: at(600),
        deleted_at: None,
    }
}

fn instrument(bits: u128, name: &str, family: &str) -> Instrument {
    Instrument {
        id: Uuid { bits },
        display_name: name.to_string(),
        family: family.to_string(),
        transposition: None,
    }
}

fn tag(bits: u128, org: Uuid) -> Tag {
    Tag {
        id: Uuid { bits },
        organization_id: org,
        name: "festive".to_string(),
        kind: Some("mood".to_string()),
        created_at: at(1),
        updated_at: at(2),
        deleted_at: None,
    }
}

fn form(version: Option<&str>) -> ArrangementForm {
    ArrangementForm {
        title: Some("Bolero".to_string()),
        expected_version: version.map(|v| v.to_string()),
        ..Default::default()
    }
}

fn error_of(reply: &Reply) -> (u16, String) {
    match reply {
        Reply::Error { status, message, .. } => (*status, message.clone()),
        _ => panic!("no error page"),
    }
}

fn target_of(done: &Done) -> String {
    match &done.reply {
        Reply::Redirect { to } => to.clone(),
        _ => panic!("no redirect"),
    }
}

fn action_of(done: &Done) -> String {
    done.audit.as_ref().unwrap().action.clone()
}

#[test]
fn only_editors_create_arrangements() {
    assert!(plan_create(&ctx_as(Role::Archivist), &form(None), None).is_ok());
    let refused = plan_create(&ctx_as(Role::Conductor), &form(None), None).err().unwrap();
    assert!(matches!(refused, Reply::SectionForbidden));
    let blank = ArrangementForm::default();
    let refused = plan_create(&ctx_as(Role::Owner), &blank, None).err().unwrap();
    assert_eq!(error_of(&refused).0, 400);
}

#[test]
fn a_created_arrangement_is_recorded_and_shown() {
    let ctx = ctx_as(Role::Owner);
    let done = created(&ctx, REQUEST, Uuid { bits: 11 }, Ok(arrangement(11, ORG)));
    assert_eq!(target_of(&done), format!("{}/arrangements/{}", base(), Uuid { bits: 11 }.text()));
    let entry = done.audit.unwrap();
    assert_eq!(entry.action, "arrangement.create");
    assert_eq!(entry.entity, "arrangement");
    assert_eq!(entry.entity_id, Some(Uuid { bits: 11 }));
    assert_eq!(entry.context.actor_user_id, Some(Uuid { bits: 1 }));
    assert_eq!(entry.context.org_id, Some(ORG));
    assert_eq!(entry.context.request_id, Some(REQUEST));
    assert_eq!(entry.details.len(), 2);
    assert_eq!(entry.details[0].key, "title");
    assert!(matches!(&entry.details[0].value, Fact::Text(t) if t == "Bolero"));
    for (error, status) in [
        (ArrangementError::DuplicateSlug, 409),
        (ArrangementError::UnknownWork, 400),
        (ArrangementError::Database, 500),
    ] {
        let done = created(&ctx, REQUEST, Uuid { bits: 11 }, Err(error));
        assert!(done.audit.is_none());
        assert_eq!(done.reply.status(), status);
    }
}

#[test]
fn a_stale_form_is_turned_away() {
    let ctx = ctx_as(Role::Owner);
    let id = Uuid { bits: 11 };
    let found = || Lookup::Found(arrangement(11, ORG));
    assert!(plan_update(&ctx, id, found(), &form(Some("500")), None).is_ok());
    for version in [Some("499"), Some("x"), None] {
        let refused = plan_update(&ctx, id, found(), &form(version), None).err().unwrap();
        assert_eq!(refused.status(), 412);
    }
    assert!(version_is_current(&Some("500".to_string()), 500));
    assert!(!version_is_current(&Some("500 ".to_string()), 500));
    assert!(!version_is_current(&None, 500));
}

#[test]
fn rows_of_other_organizations_look_missing() {
    let ctx = ctx_as(Role::Owner);
    let id = Uuid { bits: 11 };
    let foreign = plan_update(
        &ctx,
        id,
        Lookup::Found(arrangement(11, Uuid { bits: 8 })),
        &form(Some("500")),
        None,
    )
    .err()
    .unwrap();
    let missing = plan_update(&ctx, id, Lookup::Missing, &form(Some("500")), None)
        .err()
        .unwrap();
    assert_eq!(error_of(&foreign), error_of(&missing));
    assert_eq!(error_of(&missing), (404, "Arrangement not found.".to_string()));
    let failed = plan_delete(&ctx, Lookup::Failed).err().unwrap();
    assert_eq!(error_of(&failed), (500, "Could not delete the arrangement.".to_string()));
    let failed = plan_undelete(&ctx, Lookup::Failed).err().unwrap();
    assert_eq!(error_of(&failed), (500, "Could not restore the arrangement.".to_string()));
}

#[test]
fn saved_deleted_and_restored_arrangements_are_recorded() {
    let ctx = ctx_as(Role::Owner);
    let id = Uuid { bits: 11 };
    let done = updated(&ctx, REQUEST, id, Ok(Some(arrangement(11, ORG))));
    assert_eq!(action_of(&done), "arrangement.update");
    assert_eq!(updated(&ctx, REQUEST, id, Ok(None)).reply.status(), 404);
    assert_eq!(
        updated(&ctx, REQUEST, id, Err(ArrangementError::UnknownWork)).reply.status(),
        400
    );
    assert_eq!(
        updated(&ctx, REQUEST, id, Err(ArrangementError::Database)).reply.status(),
        500
    );
    assert_eq!(action_of(&deleted(&ctx, REQUEST, id, true)), "arrangement.soft_delete");
    assert_eq!(deleted(&ctx, REQUEST, id, false).reply.status(), 500);
    assert_eq!(action_of(&undeleted(&ctx, REQUEST, id, true)), "arrangement.undelete");
    assert_eq!(undeleted(&ctx, REQUEST, id, false).reply.status(), 500);
    assert_eq!(form_unavailable().status(), 500);
}

#[test]
fn works_are_edited_by_their_creator() {
    let ctx = ctx_as(Role::Conductor);
    let f = WorkForm { title: Some(" Bolero ".to_string()), composer: Some(" ".to_string()) };
    let fields = plan_create_work(&ctx, &f).ok().unwrap();
    assert_eq!(fields.title, "Bolero");
    assert_eq!(fields.composer, None);
    let mine = work(Some(Uuid { bits: 1 }));
    assert!(plan_update_work(&ctx, Lookup::Found(mine), &f).is_ok());
    let other = plan_update_work(&ctx, Lookup::Found(work(Some(Uuid { bits: 2 }))), &f)
        .err()
        .unwrap();
    assert_eq!(other.status(), 403);
    let nobody = plan_update_work(&ctx, Lookup::Found(work(None)), &f).err().unwrap();
    assert_eq!(nobody.status(), 403);
    assert_eq!(plan_update_work(&ctx, Lookup::Missing, &f).err().unwrap().status(), 404);
    let untitled = WorkForm { title: Some(" ".to_string()), composer: None };
    assert_eq!(plan_create_work(&ctx, &untitled).err().unwrap().status(), 400);
    assert!(work(None).is_editable_by(Uuid { bits: 2 }, true));
    let done = work_created(&ctx, REQUEST, Some(work(None)));
    assert_eq!(action_of(&done), "work.create");
    assert_eq!(target_of(&done), format!("{}/works", base()));
    assert_eq!(work_created(&ctx, REQUEST, None).reply.status(), 500);
    let fields = WorkFields { title: "B".to_string(), composer: None };
    assert_eq!(
        action_of(&work_updated(&ctx, REQUEST, Uuid { bits: 20 }, &fields, true)),
        "work.update"
    );
    assert_eq!(
        work_updated(&ctx, REQUEST, Uuid { bits: 20 }, &fields, false).reply.status(),
        500
    );
}

#[test]
fn voices_belong_to_their_arrangement() {
    let ctx = ctx_as(Role::Owner);
    let arr = Uuid { bits: 11 };
    let parent = || Lookup::Found(arrangement(11, ORG));
    let f = VoiceForm {
        name: Some("Flute".to_string()),
        instrument_id: Some(Uuid { bits: 41 }.text()),
        expected_version: Some("600".to_string()),
    };
    let fields = plan_create_voice(&ctx, parent(), &f).ok().unwrap();
    assert_eq!((fields.name.as_str(), fields.instrument_id), ("Flute", Uuid { bits: 41 }));
    let voice_id = Uuid { bits: 31 };
    assert!(plan_update_voice(&ctx, arr, parent(), Lookup::Found(voice(11)), &f).is_ok());
    let elsewhere = plan_update_voice(&ctx, arr, parent(), Lookup::Found(voice(12)), &f)
        .err()
        .unwrap();
    assert_eq!(error_of(&elsewhere), (404, "Voice not found.".to_string()));
    let stale = VoiceForm {
        name: Some("Flute".to_string()),
        instrument_id: Some(Uuid { bits: 41 }.text()),
        expected_version: Some("601".to_string()),
    };
    match plan_update_voice(&ctx, arr, parent(), Lookup::Found(voice(11)), &stale) {
        Err(Reply::Stale { entity, back, .. }) => {
            assert_eq!(entity, "arrangement");
            assert_eq!(back, format!("{}/arrangements/{}", base(), arr.text()));
        }
        _ => panic!("not stale"),
    }
    let no_instrument = VoiceForm {
        name: Some("Flute".to_string()),
        instrument_id: None,
        expected_version: None,
    };
    assert_eq!(
        error_of(&plan_create_voice(&ctx, parent(), &no_instrument).err().unwrap()),
        (400, "Please choose an instrument.".to_string())
    );
    assert!(plan_voice_removal(&ctx, arr, parent(), Lookup::Found(voice(11))).is_ok());
    assert_eq!(action_of(&voice_created(&ctx, REQUEST, arr, Ok(voice(11)))), "voice.create");
    assert_eq!(
        voice_created(&ctx, REQUEST, arr, Err(VoiceError::DuplicateSlug)).reply.status(),
        409
    );
    assert_eq!(
        voice_created(&ctx, REQUEST, arr, Err(VoiceError::UnknownInstrument)).reply.status(),
        400
    );
    assert_eq!(
        voice_created(&ctx, REQUEST, arr, Err(VoiceError::Database)).reply.status(),
        500
    );
    assert_eq!(
        action_of(&voice_updated(&ctx, REQUEST, arr, voice_id, Ok(Some(voice(11))))),
        "voice.update"
    );
    assert_eq!(voice_updated(&ctx, REQUEST, arr, voice_id, Ok(None)).reply.status(), 404);
    assert_eq!(
        action_of(&voice_deleted(&ctx, REQUEST, arr, voice_id, true)),
        "voice.soft_delete"
    );
    assert_eq!(
        action_of(&voice_undeleted(&ctx, REQUEST, arr, voice_id, true)),
        "voice.undelete"
    );
}

#[test]
fn the_arrangement_list_offers_editing_to_editors() {
    let rows = vec![arrangement(11, ORG)];
    let page = list_page(&ctx_as(Role::Owner), Some(&rows), &vec![work(None)]).ok().unwrap();
    assert!(page.can_edit);
    assert_eq!(page.rows.len(), 1);
    assert_eq!(page.rows[0].title, "Bolero");
    assert_eq!(page.rows[0].difficulty, "6");
    assert!(page.create_fields.is_some());
    let page = list_page(&ctx_as(Role::Conductor), Some(&rows), &vec![]).ok().unwrap();
    assert!(!page.can_edit);
    assert!(page.create_fields.is_none());
    assert!(matches!(
        list_page(&ctx_as(Role::Musician), Some(&rows), &vec![]),
        Err(Reply::SectionForbidden)
    ));
    assert_eq!(list_page(&ctx_as(Role::Owner), None, &vec![]).err().unwrap().status(), 500);
}

#[test]
fn the_detail_screen_follows_the_state_of_the_arrangement() {
    let tags = vec![tag(51, ORG), tag(52, ORG)];
    let attached = vec![tag(51, ORG)];
    let page = detail_page(
        &ctx_as(Role::Owner),
        Lookup::Found(arrangement(11, ORG)),
        &vec![work(None)],
        &attached,
        &tags,
    )
    .ok()
    .unwrap();
    assert!(!page.deleted);
    match page.controls {
        Controls::Edit { version, fields, .. } => {
            assert_eq!(version, 500);
            assert_eq!(fields.title, "Bolero");
            assert!(fields.active_selected);
            assert!(fields.works[0].selected);
        }
        _ => panic!("not editable"),
    }
    assert_eq!(page.tags.len(), 1);
    assert!(page.tags[0].detach_action.is_some());
    assert!(page.attachable.is_some());

    let gone = Arrangement { deleted_at: Some(at(9)), ..arrangement(11, ORG) };
    let page = detail_page(&ctx_as(Role::Owner), Lookup::Found(gone), &vec![], &vec![], &vec![])
        .ok()
        .unwrap();
    assert!(page.deleted);
    assert!(matches!(page.controls, Controls::Restore { .. }));

    let page = detail_page(
        &ctx_as(Role::Conductor),
        Lookup::Found(arrangement(11, ORG)),
        &vec![work(None)],
        &attached,
        &tags,
    )
    .ok()
    .unwrap();
    assert!(matches!(page.controls, Controls::ReadOnly(_)));
    assert!(page.tags[0].detach_action.is_none());
    assert!(page.attachable.is_none());
}

#[test]
fn form_fields_show_what_is_stored() {
    let mut ratings = serde_json::Map::new();
    ratings.insert("henle".to_string(), serde_json::Value::from("5"));
    let a = Arrangement {
        difficulty_ratings: Some(serde_json::Value::Object(ratings)),
        ..arrangement(11, ORG)
    };
    let fields = edit_fields(&a, &vec![work(None)]);
    assert_eq!(fields.arranger, "Ravel");
    assert_eq!(fields.copy_count_allowed, "3");
    assert_eq!(fields.duration_seconds, "900");
    let henle = fields.ratings.iter().find(|r| r.key == "henle").unwrap();
    assert_eq!(henle.value, "5");
    let rcm = fields.ratings.iter().find(|r| r.key == "rcm").unwrap();
    assert_eq!(rcm.value, "");
    let empty = new_fields(&vec![work(None)]);
    assert_eq!(empty.title, "");
    assert!(!empty.works[0].selected);
    let lines = arrangement_readonly(&a, &vec![work(None)]);
    assert!(lines.iter().any(|l| l.value == "Bolero"));
}

#[test]
fn work_and_voice_screens_offer_what_is_allowed() {
    let works = vec![work(Some(Uuid { bits: 1 })), work(Some(Uuid { bits: 2 }))];
    let rows = works_page(&ctx_as(Role::Conductor), Some(&works)).ok().unwrap();
    assert!(rows[0].save_action.is_some());
    assert!(rows[1].save_action.is_none());
    assert_eq!(works_page(&ctx_as(Role::Owner), None).err().unwrap().status(), 500);

    let instruments = vec![instrument(41, "Flute", "woodwind")];
    let arr = Uuid { bits: 11 };
    let page = voices_page(
        &ctx_as(Role::Owner),
        arr,
        Lookup::Found(arrangement(11, ORG)),
        Some(&vec![voice(11)]),
        &instruments,
    )
    .ok()
    .unwrap();
    assert_eq!(page.rows[0].name, "Flute 1");
    assert_eq!(page.rows[0].instrument, "Flute");
    assert!(page.rows[0].edit_href.is_some());
    let page = voice_detail_page(
        &ctx_as(Role::Owner),
        arr,
        Lookup::Found(arrangement(11, ORG)),
        Lookup::Found(voice(11)),
        &instruments,
    )
    .ok()
    .unwrap();
    match page.controls {
        Controls::Edit { version, fields, .. } => {
            assert_eq!(version, 600);
            assert!(fields[0].options[0].selected);
        }
        _ => panic!("not editable"),
    }
}

#[test]
fn families_come_in_score_order() {
    let instruments = vec![
        instrument(1, "Theremin", "electronic"),
        instrument(2, "Violin", "strings"),
        instrument(3, "Horn", "brass"),
        instrument(4, "Flute", "woodwind"),
        instrument(5, "Bassoon", "woodwind"),
        instrument(6, "Didgeridoo", "drone"),
        instrument(7, "Piano", "keyboard"),
    ];
    assert_eq!(
        ordered_families(&instruments),
        vec!["woodwind", "brass", "strings", "keyboard", "drone", "electronic"]
    );
    let picker = instrument_picker(&instruments, &vec![Uuid { bits: 5 }]);
    assert_eq!(picker[0].family, "woodwind");
    let shown: Vec<(&str, bool)> = picker[0]
        .options
        .iter()
        .map(|o| (o.display_name.as_str(), o.selected))
        .collect();
    assert_eq!(shown, vec![("Flute", false), ("Bassoon", true)]);
    let offered: usize = picker.iter().map(|g| g.options.len()).sum();
    assert_eq!(offered, instruments.len());
    assert_eq!(instrument_name(&instruments, Uuid { bits: 3 }), "Horn");
    assert_eq!(
        instrument_name(&instruments, Uuid { bits: 77 }),
        Uuid { bits: 77 }.text()
    );
}

#[test]
fn tags_are_kept_by_editors() {
    let ctx = ctx_as(Role::Archivist);
    let f = TagForm { name: Some(" festive ".to_string()), kind: Some("".to_string()) };
    let fields = plan_create_tag(&ctx, &f).ok().unwrap();
    assert_eq!(fields.name, "festive");
    assert_eq!(fields.kind, None);
    assert_eq!(blank(&Some(" a ".to_string())).as_deref(), Some("a"));
    let nameless = TagForm { name: None, kind: None };
    assert_eq!(
        error_of(&plan_create_tag(&ctx, &nameless).err().unwrap()),
        (400, "Tag name must not be empty.".to_string())
    );
    assert!(matches!(
        plan_create_tag(&ctx_as(Role::Conductor), &f),
        Err(Reply::SectionForbidden)
    ));
    let mine = Lookup::Found(tag(51, ORG));
    let foreign = Lookup::Found(tag(51, Uuid { bits: 8 }));
    assert!(tag_belongs_to_org(&mine, ORG));
    assert!(!tag_belongs_to_org(&foreign, ORG));
    assert!(!tag_belongs_to_org(&Lookup::Failed, ORG));
    assert!(plan_update_tag(&ctx, &mine, &f).is_ok());
    assert_eq!(plan_update_tag(&ctx, &foreign, &f).err().unwrap().status(), 404);
    assert_eq!(plan_delete_tag(&ctx, &foreign).err().unwrap().status(), 404);
    assert!(plan_undelete_tag(&ctx, Uuid { bits: 51 }, Some(&vec![tag(51, ORG)])).is_ok());
    assert_eq!(
        plan_undelete_tag(&ctx, Uuid { bits: 52 }, Some(&vec![tag(51, ORG)]))
            .err()
            .unwrap()
            .status(),
        404
    );
    assert_eq!(action_of(&tag_created(&ctx, REQUEST, Ok(tag(51, ORG)))), "tag.create");
    assert_eq!(tag_created(&ctx, REQUEST, Err(TagError::Duplicate)).reply.status(), 409);
    assert_eq!(tag_created(&ctx, REQUEST, Err(TagError::Database)).reply.status(), 500);
    let fields = TagFields { name: "x".to_string(), kind: None };
    let id = Uuid { bits: 51 };
    assert_eq!(action_of(&tag_updated(&ctx, REQUEST, id, &fields, Ok(()))), "tag.update");
    assert_eq!(
        tag_updated(&ctx, REQUEST, id, &fields, Err(TagError::Duplicate)).reply.status(),
        409
    );
    assert_eq!(action_of(&tag_deleted(&ctx, REQUEST, id)), "tag.soft_delete");
    assert_eq!(action_of(&tag_undeleted(&ctx, REQUEST, id)), "tag.undelete");
}

#[test]
fn tags_are_attached_and_detached() {
    let ctx = ctx_as(Role::Owner);
    let own = || Lookup::Found(arrangement(11, ORG));
    let id = Uuid { bits: 51 };
    assert_eq!(plan_attach_tag(&ctx, own(), &Some(id.text())).ok(), Some(id));
    assert_eq!(plan_attach_tag(&ctx, own(), &None).err().unwrap().status(), 400);
    assert_eq!(
        plan_attach_tag(&ctx, Lookup::Missing, &Some(id.text())).err().unwrap().status(),
        404
    );
    assert!(require_own_tag(&ctx, &Lookup::Found(tag(51, ORG))).is_ok());
    assert_eq!(
        require_own_tag(&ctx, &Lookup::Found(tag(51, Uuid { bits: 8 }))).err().unwrap().status(),
        400
    );
    let arr = Uuid { bits: 11 };
    assert_eq!(
        action_of(&tag_attached(&ctx, REQUEST, arr, id, Ok(()))),
        "arrangement_tag.create"
    );
    // Attaching a tag twice is no failure, and nothing new is recorded.
    let again = tag_attached(&ctx, REQUEST, arr, id, Err(TagError::Duplicate));
    assert!(again.audit.is_none());
    assert!(matches!(again.reply, Reply::Redirect { .. }));
    assert_eq!(
        tag_attached(&ctx, REQUEST, arr, id, Err(TagError::Database)).reply.status(),
        500
    );
    assert!(plan_detach_tag(&ctx, own()).is_ok());
    assert_eq!(
        action_of(&tag_detached(&ctx, REQUEST, arr, id)),
        "arrangement_tag.delete"
    );
    let page = tags_page(&ctx, Some(&vec![tag(51, ORG)]), &vec![]).ok().unwrap();
    assert_eq!(page.rows[0].name, "festive");
    assert_eq!(page.rows[0].save_action, format!("{}/tags/{}", base(), id.text()));
    assert_eq!(tags_page(&ctx, None, &vec![]).err().unwrap().status(), 500);
}
