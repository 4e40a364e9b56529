//! Searching the archive, leniently and strictly.

use lied::console::ConsoleCtx;
use lied::id::Uuid;
use lied::model::{Arrangement, Instrument, Lookup, Membership, Organization, Tag, Time, User};
use lied::error::AppError;
use lied::role::Role;
use lied::search::{
    build_search, choose_sort, clock, open_search, parse_id, parse_number, plan_search,
    search_page, settle_order, SearchForm, SearchOrder,
};

fn at(millis: i64) -> Time {
    Time { millis, nanos: 0 }
}

fn pairs(items: &[(&str, &str)]) -> Vec<(String, String)> {
    items
        .iter()
        .map(|(k, v)| (k.to_string(), v.to_string()))
        .collect()
}

fn form(items: &[(&str, &str)]) -> SearchForm {
    SearchForm::from_pairs(&pairs(items))
}

fn ctx_as(role: Role, is_principal: bool) -> ConsoleCtx {
    let user = User {
        id: Uuid { bits: 1 },
        username: "ada".to_string(),
        slug: "ada".to_string(),
        display_name: "Ada".to_string(),
        email: None,
        is_system_admin: false,
        created_at: at(1),
        updated_at: at(2),
    };
    let org = Organization {
        id: Uuid { bits: 7 },
        name: "City Band".to_string(),
        slug: "city-band".to_string(),
        created_at: at(1),
        updated_at: at(2),
    };
    let membership = Membership {
        id: Uuid { bits: 70 },
        user_id: Uuid { bits: 1 },
        organization_id: Uuid { bits: 7 },
        role,
        instrument_ids: vec![],
        is_principal,
        principal_instrument_ids: vec![],
        created_at: at(1),
        updated_at: at(2),
    };
    ConsoleCtx::load(user, Lookup::Found(org), Lookup::Found(membership))
        .ok()
        .unwrap()
}

#[test]
fn a_form_is_read_off_the_query() {
    let tag = Uuid::now_v7();
    let other = Uuid::now_v7();
    let f = form(&[
        ("q", " bolero "),
        ("tag", &tag.text()),
        ("tag", ""),
        ("tag", &other.text()),
        ("duration_max_minutes", "15"),
        ("difficulty_min", " 3 "),
    ]);
    assert!(!f.is_empty());
    let (search, complaints) = plan_search(&f);
    assert!(complaints.is_empty());
    assert_eq!(search.q.as_deref(), Some("bolero"));
    assert_eq!(search.tag_ids, vec![tag, other]);
    assert_eq!(search.duration_max_seconds, Some(900));
    assert_eq!(search.duration_min_seconds, None);
    assert_eq!(search.difficulty_min, Some(3));
    assert_eq!(search.difficulty_max, None);
    assert_eq!(search.status, None);
    assert!(form(&[("q", "  "), ("sort", "title")]).is_empty());
}

#[test]
fn nothing_is_ignored_in_silence() {
    let f = form(&[
        ("tag", "nope"),
        ("duration_max_minutes", "long"),
        ("difficulty_min", "40000"),
        ("difficulty_max", "x"),
        ("instrument_id", "flute"),
    ]);
    let (search, complaints) = plan_search(&f);
    assert!(search.tag_ids.is_empty());
    let said: Vec<(&str, &str)> =
        complaints.iter().map(|c| (c.field, c.message.as_str())).collect();
    assert_eq!(
        said,
        vec![
            ("Tags", "'nope' is not a valid id — that filter was ignored."),
            (
                "Longest",
                "'long' is not a whole number of minutes — that filter was ignored."
            ),
            (
                "Difficulty from",
                "'40000' is not a whole number — that filter was ignored."
            ),
            ("Difficulty to", "'x' is not a whole number — that filter was ignored."),
            ("Instrument", "'flute' is not a valid id — that filter was ignored."),
        ]
    );
}

#[test]
fn minutes_saturate() {
    for (raw, seconds) in [
        ("35791394", 2_147_483_640),
        ("35791395", i32::MAX),
        ("2147483647", i32::MAX),
        ("-2147483648", i32::MIN),
        ("-1", -60),
    ] {
        let (search, _) = plan_search(&form(&[("duration_max_minutes", raw)]));
        assert_eq!(search.duration_max_seconds, Some(seconds));
    }
}

#[test]
fn boxes_are_read_one_by_one() {
    let mut complaints = vec![];
    assert_eq!(parse_number(" 5 ", 1, 8, "D", "a grade", &mut complaints), Some(5));
    assert_eq!(parse_number("", 1, 8, "D", "a grade", &mut complaints), None);
    assert!(complaints.is_empty());
    assert_eq!(parse_number("9", 1, 8, "D", "a grade", &mut complaints), None);
    assert_eq!(complaints.len(), 1);
    let id = Uuid::now_v7();
    assert_eq!(parse_id(&format!(" {} ", id.text()), "I", &mut complaints), Some(id));
    assert_eq!(parse_id("", "I", &mut complaints), None);
    assert_eq!(complaints.len(), 2);
}

#[test]
fn a_search_wants_its_best_match_first() {
    assert_eq!(choose_sort("", true).as_deref(), Some("relevance"));
    assert_eq!(choose_sort("", false), None);
    assert_eq!(choose_sort("title", true).as_deref(), Some("title"));
}

#[test]
fn an_unknown_order_falls_back_to_the_title() {
    assert!(matches!(settle_order(None), SearchOrder::TitleAscending));
    match settle_order(Some(("a.difficulty".to_string(), false))) {
        SearchOrder::Resolved { column, ascending } => {
            assert_eq!((column.as_str(), ascending), ("a.difficulty", false));
        }
        SearchOrder::TitleAscending => panic!("the order was not kept"),
    }
}

#[test]
fn staff_may_search_for_whatever_they_typed() {
    let f = form(&[("q", "bolero"), ("difficulty_min", "x"), ("tag", "nope")]);
    let plan = open_search(&ctx_as(Role::Archivist, false), &f).ok().unwrap();
    assert_eq!(plan.search.q.as_deref(), Some("bolero"));
    assert_eq!(plan.search.difficulty_min, None);
    assert!(plan.search.tag_ids.is_empty());
    assert_eq!(plan.sort.as_deref(), Some("relevance"));
    let odd = form(&[("q", "bolero"), ("sort", "sideways")]);
    let plan = open_search(&ctx_as(Role::Archivist, false), &odd).ok().unwrap();
    assert_eq!(plan.sort.as_deref(), Some("sideways"));
    let page = search_page(
        &ctx_as(Role::Archivist, false),
        &f,
        &vec![],
        &vec![],
        Some((&vec![], 0)),
    )
    .ok()
    .unwrap();
    let named: Vec<&str> = page.complaints.iter().map(|c| c.field).collect();
    assert_eq!(named, vec!["Tags", "Difficulty from"]);
    assert_eq!(
        open_search(&ctx_as(Role::Musician, true), &f).err().unwrap().status(),
        403
    );
}

#[test]
fn durations_are_shown_as_minutes_and_seconds() {
    for s in [0, 5, 59, 60, 61, 845, 3600, i32::MAX, -5, -60, -61, -65, i32::MIN] {
        assert_eq!(clock(s), format!("{}:{:02}", s / 60, s % 60), "{s}");
    }
}

fn arrangement() -> Arrangement {
    Arrangement {
        id: Uuid { bits: 11 },
        organization_id: Uuid { bits: 7 },
        slug: "bolero".to_string(),
        title: "Bolero".to_string(),
        work_id: None,
        instrumentation: None,
        arranger: None,
        publisher: None,
        purchase_date: None,
        license_notes: None,
        copy_count_allowed: None,
        status: "active".to_string(),
        duration_seconds: Some(845),
        difficulty: None,
        difficulty_ratings: None,
        difficulty_notes: None,
        created_at: at(1),
        updated_at: at(2),
        deleted_at: None,
    }
}

#[test]
fn the_search_screen_shows_results_and_what_was_chosen() {
    let tags = vec![Tag {
        id: Uuid { bits: 51 },
        organization_id: Uuid { bits: 7 },
        name: "festive".to_string(),
        kind: None,
        created_at: at(1),
        updated_at: at(2),
        deleted_at: None,
    }];
    let instruments = vec![Instrument {
        id: Uuid { bits: 41 },
        display_name: "Flute".to_string(),
        family: "woodwind".to_string(),
        transposition: None,
    }];
    let f = form(&[("tag", &Uuid { bits: 51 }.text())]);
    let found = vec![arrangement()];
    let page = search_page(
        &ctx_as(Role::Conductor, false),
        &f,
        &tags,
        &instruments,
        Some((&found, 3)),
    )
    .ok()
    .unwrap();
    assert_eq!(page.heading, "Results");
    assert!(!page.has_query);
    assert!(page.tags[0].selected);
    assert!(!page.instruments[0].selected);
    assert_eq!(page.rows[0].duration, "14:05");
    assert_eq!(page.rows[0].difficulty, "—");
    assert_eq!(page.total, 3);
    assert!(page.complaints.is_empty());
    assert!(page.truncated.is_some());
    let page = search_page(
        &ctx_as(Role::Owner, false),
        &form(&[]),
        &tags,
        &instruments,
        Some((&found, 1)),
    )
    .ok()
    .unwrap();
    assert_eq!(page.heading, "All arrangements");
    assert!(page.truncated.is_none());
    assert_eq!(
        search_page(&ctx_as(Role::Owner, false), &f, &tags, &instruments, None)
            .err()
            .unwrap()
            .status(),
        500
    );
    assert_eq!(
        search_page(&ctx_as(Role::Musician, true), &f, &tags, &instruments, None)
            .err()
            .unwrap()
            .status(),
        403
    );
}

#[test]
fn filters_are_read_or_refused() {
    let a = Uuid::now_v7();
    let b = Uuid::now_v7();
    let filters = pairs(&[
        ("tag", &format!("{}, ,{}", a.text(), b.text())),
        ("difficultyMin", "2"),
        ("durationMaxSeconds", "900"),
        ("status", "active"),
        ("instrumentId", &a.text()),
    ]);
    let search = build_search(&filters, Some("bolero")).ok().unwrap();
    assert_eq!(search.tag_ids, vec![a, b]);
    assert_eq!(search.difficulty_min, Some(2));
    assert_eq!(search.duration_max_seconds, Some(900));
    assert_eq!(search.status.as_deref(), Some("active"));
    assert_eq!(search.instrument_id, Some(a));
    assert_eq!(search.q.as_deref(), Some("bolero"));
    assert_eq!(build_search(&pairs(&[]), Some("")).ok().unwrap().q, None);
    for (field, value) in [
        ("tag", "x"),
        ("difficultyMin", "x"),
        ("difficultyMax", "99999"),
        ("durationMinSeconds", "1.5"),
        ("durationMaxSeconds", " 1"),
        ("instrumentId", "flute"),
    ] {
        match build_search(&pairs(&[(field, value)]), None) {
            Err(AppError::Validation(errors)) => {
                assert_eq!(errors.len(), 1);
                assert_eq!(errors[0].field, format!("filter[{field}]"));
                assert!(errors[0].message.ends_with(&format!("got '{value}'")));
            }
            _ => panic!("{field} was not refused"),
        }
    }
}
