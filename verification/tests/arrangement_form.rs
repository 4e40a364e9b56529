//! Reading the arrangement form.

use lied::arrangement_form::{ArrangementForm, Parsed};
use lied::date::Date;
use lied::id::Uuid;

/// The grade that a form's ABRSM rating rounds to.
fn grade(form: &ArrangementForm) -> Option<i16> {
    form.rating_abrsm
        .as_deref()
        .and_then(|raw| raw.trim().parse::<f64>().ok())
        .map(|value| value.round() as i16)
}

fn parse(form: &ArrangementForm) -> Result<Parsed, String> {
    form.parse(grade(form))
}

fn with_title() -> ArrangementForm {
    ArrangementForm {
        title: Some("Bolero".to_string()),
        ..Default::default()
    }
}

#[test]
fn parse_requires_a_non_blank_title() {
    let f = ArrangementForm {
        title: Some("   ".to_string()),
        ..Default::default()
    };
    assert!(parse(&f).is_err());
}

#[test]
fn status_defaults_to_active_and_rejects_unknown() {
    assert_eq!(parse(&with_title()).ok().unwrap().status, "active");
    let f = ArrangementForm {
        status: Some("retired".to_string()),
        ..with_title()
    };
    assert!(parse(&f).is_err());
}

#[test]
fn difficulty_must_be_1_to_8() {
    for (raw, ok) in [
        ("1", true),
        ("8", true),
        ("0", false),
        ("9", false),
        ("x", false),
    ] {
        let f = ArrangementForm {
            difficulty: Some(raw.to_string()),
            ..with_title()
        };
        assert_eq!(parse(&f).is_ok(), ok, "difficulty {raw}");
    }
}

#[test]
fn abrsm_rating_must_agree_with_difficulty() {
    let agree = ArrangementForm {
        difficulty: Some("6".to_string()),
        rating_abrsm: Some("6".to_string()),
        ..with_title()
    };
    assert!(parse(&agree).is_ok());

    let disagree = ArrangementForm {
        difficulty: Some("6".to_string()),
        rating_abrsm: Some("5".to_string()),
        ..with_title()
    };
    assert!(parse(&disagree).is_err());

    // A non-integer ABRSM rounds to the nearest grade before comparison.
    let rounds = ArrangementForm {
        difficulty: Some("6".to_string()),
        rating_abrsm: Some("5.8".to_string()),
        ..with_title()
    };
    assert!(parse(&rounds).is_ok());
}

#[test]
fn other_scale_ratings_assemble_into_a_json_object() {
    let f = ArrangementForm {
        rating_henle: Some("5".to_string()),
        rating_rcm: Some("8".to_string()),
        ..with_title()
    };
    let parsed = parse(&f).ok().unwrap();
    let ratings = parsed.difficulty_ratings.expect("ratings present");
    assert_eq!(ratings.get("henle").and_then(|v| v.as_str()), Some("5"));
    assert_eq!(ratings.get("rcm").and_then(|v| v.as_str()), Some("8"));
    assert!(ratings.get("abrsm").is_none());
}

#[test]
fn no_ratings_yield_none() {
    assert!(parse(&with_title()).ok().unwrap().difficulty_ratings.is_none());
}

#[test]
fn invalid_date_and_negative_numbers_are_rejected() {
    let bad_date = ArrangementForm {
        purchase_date: Some("nope".to_string()),
        ..with_title()
    };
    assert!(parse(&bad_date).is_err());

    let negative = ArrangementForm {
        duration_seconds: Some("-5".to_string()),
        ..with_title()
    };
    assert!(parse(&negative).is_err());
}

#[test]
fn every_field_of_a_full_form_is_read() {
    let work = Uuid::now_v7();
    let f = ArrangementForm {
        title: Some("  Bolero ".to_string()),
        work_id: Some(work.text()),
        instrumentation: Some("full orchestra".to_string()),
        arranger: Some("   ".to_string()),
        publisher: Some(" Durand".to_string()),
        purchase_date: Some("2024-02-29".to_string()),
        license_notes: Some("hire".to_string()),
        copy_count_allowed: Some("12".to_string()),
        status: Some("archived".to_string()),
        duration_seconds: Some("900".to_string()),
        difficulty: Some("7".to_string()),
        rating_abrsm: Some("7".to_string()),
        rating_aba: Some("4".to_string()),
        rating_henle: None,
        rating_rcm: Some(" ".to_string()),
        rating_trinity: Some("8".to_string()),
        difficulty_notes: Some("high horn".to_string()),
        expected_version: Some("17".to_string()),
    };
    let p = parse(&f).ok().unwrap();
    assert_eq!(p.title, "Bolero");
    assert_eq!(p.work_id, Some(work));
    assert_eq!(p.instrumentation.as_deref(), Some("full orchestra"));
    assert_eq!(p.arranger, None);
    assert_eq!(p.publisher.as_deref(), Some("Durand"));
    assert_eq!(
        p.purchase_date,
        Some(Date { year: 2024, month: 2, day: 29 })
    );
    assert_eq!(p.license_notes.as_deref(), Some("hire"));
    assert_eq!(p.copy_count_allowed, Some(12));
    assert_eq!(p.status, "archived");
    assert_eq!(p.duration_seconds, Some(900));
    assert_eq!(p.difficulty, Some(7));
    assert_eq!(p.difficulty_notes.as_deref(), Some("high horn"));
    let ratings = p.difficulty_ratings.unwrap();
    let object = ratings.as_object().unwrap();
    assert_eq!(object.len(), 3);
    assert_eq!(object["abrsm"], "7");
    assert_eq!(object["aba"], "4");
    assert_eq!(object["trinity"], "8");
}

#[test]
fn a_bad_work_or_number_is_complained_about() {
    let cases = [
        ArrangementForm {
            work_id: Some("not-an-id".to_string()),
            ..with_title()
        },
        ArrangementForm {
            copy_count_allowed: Some("2147483648".to_string()),
            ..with_title()
        },
        ArrangementForm {
            duration_seconds: Some("1.5".to_string()),
            ..with_title()
        },
        ArrangementForm {
            purchase_date: Some("2023-02-29".to_string()),
            ..with_title()
        },
    ];
    for (i, f) in cases.iter().enumerate() {
        assert!(parse(f).is_err(), "case {i}");
    }
    let zero = ArrangementForm {
        duration_seconds: Some("0".to_string()),
        copy_count_allowed: Some("+3".to_string()),
        ..with_title()
    };
    let p = parse(&zero).ok().unwrap();
    assert_eq!(p.duration_seconds, Some(0));
    assert_eq!(p.copy_count_allowed, Some(3));
}

#[test]
fn a_rating_of_a_form_is_trimmed_and_blank_is_none() {
    let f = ArrangementForm {
        rating_henle: Some(" 5 ".to_string()),
        rating_rcm: Some("  ".to_string()),
        ..with_title()
    };
    assert_eq!(f.rating("henle").as_deref(), Some("5"));
    assert_eq!(f.rating("rcm"), None);
    assert_eq!(f.rating("abrsm"), None);
    assert_eq!(f.rating("unknown"), None);
}
