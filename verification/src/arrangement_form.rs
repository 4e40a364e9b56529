//! The arrangement form: what a submitted form says, or the first thing that
//! is wrong with it.

use vstd::prelude::*;
use crate::date::{read_date, read_date_view, Date};
use crate::id::{read_uuid, Uuid};
use crate::json::{
    new_object, no_entries, object_entries, object_is_empty, object_text, object_value, put_text, value_entries,
};
use crate::number::{decimal, int_text, read_i16, read_i32, read_int, text_reads_back};
use crate::text::{blank_to_none, entered, same, text_of, trimmed};

verus! {

/// The arrangement form as it was submitted.
pub struct ArrangementForm {
    pub title: Option<String>,
    pub work_id: Option<String>,
    pub instrumentation: Option<String>,
    pub arranger: Option<String>,
    pub publisher: Option<String>,
    pub purchase_date: Option<String>,
    pub license_notes: Option<String>,
    pub copy_count_allowed: Option<String>,
    pub status: Option<String>,
    pub duration_seconds: Option<String>,
    pub difficulty: Option<String>,
    pub rating_abrsm: Option<String>,
    pub rating_aba: Option<String>,
    pub rating_henle: Option<String>,
    pub rating_rcm: Option<String>,
    pub rating_trinity: Option<String>,
    pub difficulty_notes: Option<String>,
    pub expected_version: Option<String>,
}

impl Default for ArrangementForm {
    /// The form with no field submitted.
    fn default() -> (r: ArrangementForm)
        ensures
            r.title is None && r.work_id is None && r.instrumentation is None && r.arranger is None,
            r.publisher is None && r.purchase_date is None && r.license_notes is None,
            r.copy_count_allowed is None && r.status is None && r.duration_seconds is None,
            r.difficulty is None && r.rating_abrsm is None && r.rating_aba is None,
            r.rating_henle is None && r.rating_rcm is None && r.rating_trinity is None,
            r.difficulty_notes is None && r.expected_version is None,
    {
        ArrangementForm {
            title: None,
            work_id: None,
            instrumentation: None,
            arranger: None,
            publisher: None,
            purchase_date: None,
            license_notes: None,
            copy_count_allowed: None,
            status: None,
            duration_seconds: None,
            difficulty: None,
            rating_abrsm: None,
            rating_aba: None,
            rating_henle: None,
            rating_rcm: None,
            rating_trinity: None,
            difficulty_notes: None,
            expected_version: None,
        }
    }
}

/// Validated arrangement fields.
pub struct Parsed {
    pub title: String,
    pub work_id: Option<Uuid>,
    pub instrumentation: Option<String>,
    pub arranger: Option<String>,
    pub publisher: Option<String>,
    pub purchase_date: Option<Date>,
    pub license_notes: Option<String>,
    pub copy_count_allowed: Option<i32>,
    pub status: String,
    pub duration_seconds: Option<i32>,
    pub difficulty: Option<i16>,
    pub difficulty_ratings: Option<serde_json::Value>,
    pub difficulty_notes: Option<String>,
}

/// What a form field that holds an identifier says.
pub open spec fn entered_id(value: Option<Seq<char>>) -> Option<Uuid> {
    match entered(value) {
        Some(raw) => read_uuid(raw),
        None => None,
    }
}

/// What a form field that holds a date says.
pub open spec fn entered_date(value: Option<Seq<char>>) -> Option<Date> {
    match entered(value) {
        Some(raw) => read_date_view(raw),
        None => None,
    }
}

/// What a form field that holds a whole number says.
pub open spec fn entered_i32(value: Option<Seq<char>>) -> Option<int> {
    match entered(value) {
        Some(raw) => read_int(raw, i32::MIN as int, i32::MAX as int),
        None => None,
    }
}

/// What a form field that holds a small whole number says.
pub open spec fn entered_i16(value: Option<Seq<char>>) -> Option<int> {
    match entered(value) {
        Some(raw) => read_int(raw, i16::MIN as int, i16::MAX as int),
        None => None,
    }
}

/// The status that a form asks for: `active` unless it names one.
pub open spec fn entered_status(value: Option<Seq<char>>) -> Seq<char> {
    match entered(value) {
        Some(raw) => raw,
        None => "active"@,
    }
}

impl ArrangementForm {
    /// The rating that the form gives on the scale `key`.
    pub open spec fn rating_on(self, key: Seq<char>) -> Option<Seq<char>> {
        if key == "abrsm"@ {
            entered(text_of(self.rating_abrsm))
        } else if key == "aba"@ {
            entered(text_of(self.rating_aba))
        } else if key == "henle"@ {
            entered(text_of(self.rating_henle))
        } else if key == "rcm"@ {
            entered(text_of(self.rating_rcm))
        } else if key == "trinity"@ {
            entered(text_of(self.rating_trinity))
        } else {
            None
        }
    }

    /// Every scale that the form rates the arrangement on, with the rating.
    pub open spec fn ratings(self) -> Map<Seq<char>, Option<Seq<char>>> {
        Map::new(|key: Seq<char>| self.rating_on(key) is Some, |key: Seq<char>| self.rating_on(key))
    }

    /// The first thing that is wrong with the form, in the words shown to the
    /// user. `abrsm_grade` is the whole grade that the ABRSM rating rounds to,
    /// `None` where the rating is not a number.
    pub open spec fn complaint(self, abrsm_grade: Option<i16>) -> Option<Seq<char>> {
        let copies = entered_i32(text_of(self.copy_count_allowed));
        let status = entered_status(text_of(self.status));
        let duration = entered_i32(text_of(self.duration_seconds));
        let difficulty = entered_i16(text_of(self.difficulty));
        if entered(text_of(self.title)) is None {
            Some("Title must not be empty."@)
        } else if entered(text_of(self.work_id)) is Some
            && entered_id(text_of(self.work_id)) is None {
            Some("Invalid work selection."@)
        } else if entered(text_of(self.purchase_date)) is Some && entered_date(
            text_of(self.purchase_date),
        ) is None {
            Some("Purchase date must be a valid date (YYYY-MM-DD)."@)
        } else if entered(text_of(self.copy_count_allowed)) is Some && copies is None {
            Some("Copy count must be a whole number."@)
        } else if copies is Some && copies->0 < 0 {
            Some("Copy count must not be negative."@)
        } else if status != "active"@ && status != "archived"@ {
            Some("Status must be either active or archived."@)
        } else if entered(text_of(self.duration_seconds)) is Some && duration is None {
            Some("Duration must be a whole number of seconds."@)
        } else if duration is Some && duration->0 < 0 {
            Some("Duration must not be negative."@)
        } else if entered(text_of(self.difficulty)) is Some && difficulty is None {
            Some("Difficulty must be a whole number 1–8."@)
        } else if difficulty is Some && !(1 <= difficulty->0 <= 8) {
            Some("Difficulty must be between 1 and 8 (ABRSM)."@)
        } else if difficulty is Some && self.rating_on("abrsm"@) is Some && abrsm_grade is None {
            Some("ABRSM rating must be a number."@)
        } else if difficulty is Some && self.rating_on("abrsm"@) is Some && abrsm_grade->0
            != difficulty->0 {
            Some(
                "The ABRSM rating ("@ + self.rating_on("abrsm"@)->0
                    + ") must agree with the difficulty ("@ + int_text(difficulty->0) + ")."@,
            )
        } else {
            None
        }
    }

    /// Whether `p` holds what the form says, field by field.
    pub open spec fn says(self, p: Parsed) -> bool {
        &&& entered(text_of(self.title)) == Some(p.title@)
        &&& p.work_id == entered_id(text_of(self.work_id))
        &&& text_of(p.instrumentation) == entered(text_of(self.instrumentation))
        &&& text_of(p.arranger) == entered(text_of(self.arranger))
        &&& text_of(p.publisher) == entered(text_of(self.publisher))
        &&& p.purchase_date == entered_date(text_of(self.purchase_date))
        &&& text_of(p.license_notes) == entered(text_of(self.license_notes))
        &&& match p.copy_count_allowed {
            Some(n) => entered_i32(text_of(self.copy_count_allowed)) == Some(n as int),
            None => entered(text_of(self.copy_count_allowed)) is None,
        }
        &&& p.status@ == entered_status(text_of(self.status))
        &&& match p.duration_seconds {
            Some(n) => entered_i32(text_of(self.duration_seconds)) == Some(n as int),
            None => entered(text_of(self.duration_seconds)) is None,
        }
        &&& match p.difficulty {
            Some(n) => entered_i16(text_of(self.difficulty)) == Some(n as int),
            None => entered(text_of(self.difficulty)) is None,
        }
        &&& match p.difficulty_ratings {
            Some(v) => value_entries(v) == self.ratings() && self.ratings() != no_entries(),
            None => self.ratings() == no_entries(),
        }
        &&& text_of(p.difficulty_notes) == entered(text_of(self.difficulty_notes))
    }

    /// Whether `r` is what the form amounts to: its fields, or the first thing
    /// that is wrong with it.
    pub open spec fn amounts_to(self, r: Result<Parsed, String>, abrsm_grade: Option<i16>) -> bool {
        match r {
            Err(message) => self.complaint(abrsm_grade) == Some(message@),
            Ok(p) => self.complaint(abrsm_grade) is None && self.says(p),
        }
    }

    /// The rating that the form gives on the scale `key`.
    pub fn rating(&self, key: &str) -> (r: Option<String>)
        ensures
            text_of(r) == self.rating_on(key@),
    {
        if same(key, "abrsm") {
            blank_to_none(&self.rating_abrsm)
        } else if same(key, "aba") {
            blank_to_none(&self.rating_aba)
        } else if same(key, "henle") {
            blank_to_none(&self.rating_henle)
        } else if same(key, "rcm") {
            blank_to_none(&self.rating_rcm)
        } else if same(key, "trinity") {
            blank_to_none(&self.rating_trinity)
        } else {
            None
        }
    }

    /// Adds the rating on the scale `key`, if there is one.
    fn put_rating(&self, m: &mut serde_json::Map<String, serde_json::Value>, key: &str)
        ensures
            object_entries(*final(m)) == (if self.rating_on(key@) is Some {
                object_entries(*old(m)).insert(key@, self.rating_on(key@))
            } else {
                object_entries(*old(m))
            }),
    {
        if let Some(value) = self.rating(key) {
            put_text(m, key, value.as_str());
        }
    }

    /// Validates the form, or gives a message for the first problem found.
    /// `abrsm_grade` is the whole grade that the ABRSM rating rounds to, `None`
    /// where the rating is not a number; it matters only where the form gives
    /// both that rating and a difficulty.
    pub fn parse(&self, abrsm_grade: Option<i16>) -> (r: Result<Parsed, String>)
        ensures
            self.amounts_to(r, abrsm_grade),
    {
        let title: String = match blank_to_none(&self.title) {
            Some(title) => title,
            None => return Err("Title must not be empty.".to_owned()),
        };
        let work_id: Option<Uuid> = match blank_to_none(&self.work_id) {
            Some(raw) => match Uuid::parse_str(raw.as_str()) {
                Some(id) => Some(id),
                None => return Err("Invalid work selection.".to_owned()),
            },
            None => None,
        };
        let purchase_date: Option<Date> = match blank_to_none(&self.purchase_date) {
            Some(raw) => match read_date(raw.as_str()) {
                Some(d) => Some(d),
                None => return Err(
                    "Purchase date must be a valid date (YYYY-MM-DD).".to_owned(),
                ),
            },
            None => None,
        };
        let copy_count_allowed: Option<i32> = match blank_to_none(&self.copy_count_allowed) {
            Some(raw) => match read_i32(raw.as_str()) {
                Some(n) => {
                    if n < 0 {
                        return Err("Copy count must not be negative.".to_owned());
                    }
                    Some(n)
                },
                None => return Err("Copy count must be a whole number.".to_owned()),
            },
            None => None,
        };
        let status: String = match blank_to_none(&self.status) {
            Some(status) => status,
            None => "active".to_owned(),
        };
        if !same(status.as_str(), "active") && !same(status.as_str(), "archived") {
            return Err("Status must be either active or archived.".to_owned());
        }
        let duration_seconds: Option<i32> = match blank_to_none(&self.duration_seconds) {
            Some(raw) => match read_i32(raw.as_str()) {
                Some(n) => {
                    if n < 0 {
                        return Err("Duration must not be negative.".to_owned());
                    }
                    Some(n)
                },
                None => return Err("Duration must be a whole number of seconds.".to_owned()),
            },
            None => None,
        };
        let difficulty: Option<i16> = match blank_to_none(&self.difficulty) {
            Some(raw) => match read_i16(raw.as_str()) {
                Some(n) => {
                    if n < 1 || n > 8 {
                        return Err("Difficulty must be between 1 and 8 (ABRSM).".to_owned());
                    }
                    Some(n)
                },
                None => return Err("Difficulty must be a whole number 1–8.".to_owned()),
            },
            None => None,
        };

        let mut ratings: serde_json::Map<String, serde_json::Value> = new_object();
        self.put_rating(&mut ratings, "abrsm");
        self.put_rating(&mut ratings, "aba");
        self.put_rating(&mut ratings, "henle");
        self.put_rating(&mut ratings, "rcm");
        self.put_rating(&mut ratings, "trinity");
        proof {
            reveal_strlit("abrsm");
            reveal_strlit("aba");
            reveal_strlit("henle");
            reveal_strlit("rcm");
            reveal_strlit("trinity");
            assert(object_entries(ratings) == self.ratings());
        }

        if let Some(diff) = difficulty {
            if let Some(abrsm) = object_text(&ratings, "abrsm") {
                match abrsm_grade {
                    None => return Err("ABRSM rating must be a number.".to_owned()),
                    Some(grade) => {
                        if grade != diff {
                            let mut message: String = "The ABRSM rating (".to_owned();
                            message.append(abrsm);
                            message.append(") must agree with the difficulty (");
                            message.append(decimal(diff as i64).as_str());
                            message.append(").");
                            return Err(message);
                        }
                    },
                }
            }
        }
        let difficulty_ratings: Option<serde_json::Value> = if object_is_empty(&ratings) {
            None
        } else {
            Some(object_value(ratings))
        };

        Ok(
            Parsed {
                title,
                work_id,
                instrumentation: blank_to_none(&self.instrumentation),
                arranger: blank_to_none(&self.arranger),
                publisher: blank_to_none(&self.publisher),
                purchase_date,
                license_notes: blank_to_none(&self.license_notes),
                copy_count_allowed,
                status,
                duration_seconds,
                difficulty,
                difficulty_ratings,
                difficulty_notes: blank_to_none(&self.difficulty_notes),
            },
        )
    }
}

/// Whether `got` is what was typed into a text box: the text without the white
/// space around it, and nothing where that leaves nothing.
pub open spec fn was_typed(got: Option<String>, typed: Option<String>) -> bool {
    &&& typed is None ==> got is None
    &&& typed is Some && trimmed(typed->0@).len() == 0 ==> got is None
    &&& typed is Some && trimmed(typed->0@).len() > 0 ==> got is Some && got->0@ == trimmed(
        typed->0@,
    )
}

/// Whether `got` is the number that was typed into a box.
pub open spec fn number_was_typed(got: Option<int>, typed: Option<String>) -> bool {
    &&& got is Some <==> typed is Some && trimmed(typed->0@).len() > 0
    &&& got matches Some(n) ==> read_int(trimmed(typed->0@), n, n) == Some(n)
    &&& forall|n: int|
        i16::MIN <= n <= i16::MAX && typed is Some && trimmed(typed->0@) == #[trigger] int_text(n)
            ==> got == Some(n)
}

/// What was typed into the form is what it amounts to, box by box; no box is
/// taken for another and none is lost.
pub proof fn what_was_typed_is_stored(form: ArrangementForm, p: Parsed, abrsm_grade: Option<i16>)
    requires
        form.amounts_to(Ok::<Parsed, String>(p), abrsm_grade),
    ensures
        form.title is Some && p.title@ == trimmed(form.title->0@) && p.title@.len() > 0,
        was_typed(p.instrumentation, form.instrumentation),
        was_typed(p.arranger, form.arranger),
        was_typed(p.publisher, form.publisher),
        was_typed(p.license_notes, form.license_notes),
        was_typed(p.difficulty_notes, form.difficulty_notes),
        p.status@ == "active"@ || p.status@ == "archived"@,
        form.status is Some && trimmed(form.status->0@).len() > 0 ==> p.status@ == trimmed(
            form.status->0@,
        ),
        form.status is None || trimmed(form.status->0@).len() == 0 ==> p.status@ == "active"@,
        number_was_typed(
            match p.copy_count_allowed {
                Some(n) => Some(n as int),
                None => None,
            },
            form.copy_count_allowed,
        ),
        number_was_typed(
            match p.duration_seconds {
                Some(n) => Some(n as int),
                None => None,
            },
            form.duration_seconds,
        ),
        number_was_typed(
            match p.difficulty {
                Some(n) => Some(n as int),
                None => None,
            },
            form.difficulty,
        ),
        p.copy_count_allowed matches Some(n) ==> n >= 0,
        p.duration_seconds matches Some(n) ==> n >= 0,
        p.difficulty matches Some(n) ==> 1 <= n <= 8,
        p.work_id is Some <==> form.work_id is Some && trimmed(form.work_id->0@).len() > 0,
        p.work_id is Some ==> p.work_id == read_uuid(trimmed(form.work_id->0@)),
        p.purchase_date is Some <==> form.purchase_date is Some && trimmed(
            form.purchase_date->0@,
        ).len() > 0,
        p.purchase_date is Some ==> p.purchase_date == read_date_view(
            trimmed(form.purchase_date->0@),
        ),
{
    assert forall|n: int| i16::MIN <= n <= i16::MAX implies read_int(
        #[trigger] int_text(n),
        i32::MIN as int,
        i32::MAX as int,
    ) == Some(n) && read_int(int_text(n), i16::MIN as int, i16::MAX as int) == Some(n) by {
        text_reads_back(n, i32::MIN as int, i32::MAX as int);
        text_reads_back(n, i16::MIN as int, i16::MAX as int);
    }
}

/// Whether `stored` holds under `key` the rating that was typed, and nothing
/// where none was.
pub open spec fn rating_was_typed(
    stored: Option<serde_json::Value>,
    key: Seq<char>,
    typed: Option<String>,
) -> bool {
    if typed is Some && trimmed(typed->0@).len() > 0 {
        stored is Some && value_entries(stored->0).contains_key(key) && value_entries(
            stored->0,
        )[key] == Some(trimmed(typed->0@))
    } else {
        stored is Some ==> !value_entries(stored->0).contains_key(key)
    }
}

/// Each rating is stored under the name of its scale, and nothing is stored
/// where none was typed.
pub proof fn each_rating_is_stored_under_its_scale(
    form: ArrangementForm,
    p: Parsed,
    abrsm_grade: Option<i16>,
)
    requires
        form.amounts_to(Ok::<Parsed, String>(p), abrsm_grade),
    ensures
        rating_was_typed(p.difficulty_ratings, "abrsm"@, form.rating_abrsm),
        rating_was_typed(p.difficulty_ratings, "aba"@, form.rating_aba),
        rating_was_typed(p.difficulty_ratings, "henle"@, form.rating_henle),
        rating_was_typed(p.difficulty_ratings, "rcm"@, form.rating_rcm),
        rating_was_typed(p.difficulty_ratings, "trinity"@, form.rating_trinity),
        p.difficulty is Some && form.rating_abrsm is Some && trimmed(form.rating_abrsm->0@).len()
            > 0 ==> abrsm_grade == p.difficulty,
{
    reveal_strlit("abrsm");
    reveal_strlit("aba");
    reveal_strlit("henle");
    reveal_strlit("rcm");
    reveal_strlit("trinity");
    assert("abrsm"@.len() == 5 && "aba"@.len() == 3 && "henle"@.len() == 5 && "rcm"@.len() == 3
        && "trinity"@.len() == 7);
    assert("abrsm"@[0] == 'a' && "henle"@[0] == 'h');
    assert("aba"@[0] == 'a' && "rcm"@[0] == 'r');
    assert forall|key: Seq<char>| #[trigger] form.ratings().contains_key(key) implies
        form.ratings() != no_entries() by {
        assert(!no_entries().contains_key(key));
    }
    assert(form.ratings().contains_key("abrsm"@) <==> form.rating_on("abrsm"@) is Some);
    assert(form.ratings().contains_key("aba"@) <==> form.rating_on("aba"@) is Some);
    assert(form.ratings().contains_key("henle"@) <==> form.rating_on("henle"@) is Some);
    assert(form.ratings().contains_key("rcm"@) <==> form.rating_on("rcm"@) is Some);
    assert(form.ratings().contains_key("trinity"@) <==> form.rating_on("trinity"@) is Some);
}

} // verus!
