//! Handing the voices of a piece to players.

use vstd::prelude::*;
use crate::audit::{
    detail, entry, opt_time, time_fact, AuditEntry, Fact, FactView,
};
use crate::collections::{
    col_error, collection_url, detail_url, enter_item, error_page, item_opened, read_submitted_id,
    read_submitted_text, submitted_id, submitted_text,
};
use crate::console::{ConsoleCtx, Section};
use crate::date::{minute_of, minute_text};
use crate::form::{comes_first, field, first_value, the_earliest_value_counts};
use crate::id::{read_uuid, uuid_text, Uuid};
use crate::listing::{a_tag_names_one_version, check_if_match, names_version};
use crate::model::{
    Arrangement, Collection, CollectionItem, Lookup, MatrixRow, PartAssignment, Time, User,
};
use crate::reply::{goes_to, refused, require_found, row_found, settle, Done, Reply, ReplyView};
use crate::number::int_text;
use crate::text::{text_of, trimmed};
use crate::urls::{action_path, action_url};

verus! {

/// The assignment, unless it belongs to another piece.
pub open spec fn assignment_of_item(found: Lookup<PartAssignment>, item: Uuid) -> Lookup<
    PartAssignment,
> {
    match found {
        Lookup::Found(a) => if a.collection_item_id == item {
            found
        } else {
            Lookup::Missing
        },
        _ => found,
    }
}

/// The assignment, unless it belongs to another piece.
pub fn scoped_assignment(found: Lookup<PartAssignment>, item: Uuid) -> (r: Lookup<PartAssignment>)
    ensures
        r == assignment_of_item(found, item),
{
    match found {
        Lookup::Found(a) => {
            if a.collection_item_id == item {
                Lookup::Found(a)
            } else {
                Lookup::Missing
            }
        },
        Lookup::Missing => Lookup::Missing,
        Lookup::Failed => Lookup::Failed,
    }
}

/// The screen of a piece's parts.
pub open spec fn parts_url(org: Uuid, collection: Uuid, item: Uuid) -> Seq<char> {
    collection_url(org, collection) + "/items/"@ + uuid_text(item) + "/assignments"@
}

/// The screen of a piece's parts.
pub fn assignments_url(org: Uuid, collection: Uuid, item: Uuid) -> (r: String)
    ensures
        r@ == parts_url(org, collection, item),
{
    let mut out: String = detail_url(org, collection);
    out.append("/items/");
    out.append(item.text().as_str());
    out.append("/assignments");
    out
}

/// Whether `r` is what [`plan_assign`] owes its caller.
pub open spec fn plan_assign_outcome(
    r: Result<(CollectionItem, Uuid), Reply>,
    ctx: ConsoleCtx,
    collection_id: Uuid,
    found: Lookup<Collection>,
    item: Lookup<CollectionItem>,
    pairs: Vec<(String, String)>,
) -> bool {
    exists|opened: Result<(Collection, CollectionItem), Reply>|
        #[trigger] item_opened(opened, ctx, collection_id, found, item) && match opened {
            Err(reply) => r is Err && r->Err_0 == reply,
            Ok((_, i)) => match submitted_id(pairs@, "voice_id"@) {
                Some(voice) => r == Ok::<(CollectionItem, Uuid), Reply>((i, voice)),
                None => refused(r, col_error(400, "Choose a voice to assign."@)),
            },
        }
}

/// The voice to assign, from the form.
pub fn plan_assign(
    ctx: &ConsoleCtx,
    collection_id: Uuid,
    found: Lookup<Collection>,
    item: Lookup<CollectionItem>,
    pairs: &Vec<(String, String)>,
) -> (r: Result<(CollectionItem, Uuid), Reply>)
    ensures
        plan_assign_outcome(r, *ctx, collection_id, found, item, *pairs),
{
    let opened: Result<(Collection, CollectionItem), Reply> = enter_item(
        ctx,
        collection_id,
        found,
        item,
    );
    assert(item_opened(opened, *ctx, collection_id, found, item));
    match opened {
        Err(reply) => Err(reply),
        Ok((_, i)) => match read_submitted_id(pairs, "voice_id") {
            Some(voice) => Ok((i, voice)),
            None => Err(error_page(400, "Choose a voice to assign.")),
        },
    }
}

/// Whether `r` is what [`plan_assignee`] owes its caller.
pub open spec fn plan_assignee_outcome(
    r: Result<String, Reply>,
    arrangement: Lookup<Arrangement>,
    pairs: Vec<(String, String)>,
) -> bool {
    match arrangement {
        Lookup::Missing => refused(
            r,
            col_error(
                409,
                "This piece's arrangement was removed from the catalog — restore it before assigning parts."@,
            ),
        ),
        Lookup::Failed => refused(
            r,
            col_error(500, "Could not check this piece's arrangement."@),
        ),
        Lookup::Found(_) => match submitted_text(pairs@, "username"@) {
            Some(name) => r is Ok && r->Ok_0@ == name,
            None => refused(
                r,
                col_error(400, "Enter the username of the person taking this part."@),
            ),
        },
    }
}

/// The username of the player, from the form. No part is handed out of an
/// arrangement that was removed: its files are hidden.
pub fn plan_assignee(arrangement: Lookup<Arrangement>, pairs: &Vec<(String, String)>) -> (r: Result<
    String,
    Reply,
>)
    ensures
        plan_assignee_outcome(r, arrangement, *pairs),
{
    match arrangement {
        Lookup::Missing => Err(
            error_page(
                409,
                "This piece's arrangement was removed from the catalog — restore it before assigning parts.",
            ),
        ),
        Lookup::Failed => Err(error_page(500, "Could not check this piece's arrangement.")),
        Lookup::Found(_) => match read_submitted_text(pairs, "username") {
            Some(name) => Ok(name.to_owned()),
            None => Err(error_page(400, "Enter the username of the person taking this part.")),
        },
    }
}

/// Whether `r` is what [`require_assignee`] owes its caller.
pub open spec fn require_assignee_outcome(r: Result<User, Reply>, found: Lookup<User>) -> bool {
    match found {
        Lookup::Found(u) => r == Ok::<User, Reply>(u),
        Lookup::Missing => refused(
            r,
            col_error(
                404,
                "No user with that username. They need an account before they can be assigned a part."@,
            ),
        ),
        Lookup::Failed => refused(r, col_error(500, "Could not look up that user."@)),
    }
}

/// The player, who needs an account but no membership.
pub fn require_assignee(found: Lookup<User>) -> (r: Result<User, Reply>)
    ensures
        require_assignee_outcome(r, found),
{
    match found {
        Lookup::Found(u) => Ok(u),
        Lookup::Missing => Err(
            error_page(
                404,
                "No user with that username. They need an account before they can be assigned a part.",
            ),
        ),
        Lookup::Failed => Err(error_page(500, "Could not look up that user.")),
    }
}

/// Whether `r` is what [`allow_assignment`] owes its caller.
pub open spec fn allow_assignment_outcome(
    r: Result<(), Reply>,
    existing: Lookup<PartAssignment>,
    pairs: Vec<(String, String)>,
    back: String,
) -> bool {
    match existing {
        Lookup::Missing => r is Ok,
        Lookup::Failed => refused(r, col_error(500, "Could not check the current assignee."@)),
        Lookup::Found(a) => if names_version(
            first_value(pairs@, "expected_version"@),
            a.updated_at.millis,
        ) {
            r is Ok
        } else {
            refused(
                r,
                ReplyView::Stale {
                    section: Section::Collections,
                    entity: "assignment"@,
                    back: back@,
                },
            )
        },
    }
}

/// Lets a part be handed out, `existing` being whoever has it now. Someone else
/// is replaced only by a form that was opened on that very assignment.
pub fn allow_assignment(
    existing: Lookup<PartAssignment>,
    pairs: &Vec<(String, String)>,
    back: String,
) -> (r: Result<(), Reply>)
    ensures
        allow_assignment_outcome(r, existing, *pairs, back),
{
    match existing {
        Lookup::Missing => Ok(()),
        Lookup::Failed => Err(error_page(500, "Could not check the current assignee.")),
        Lookup::Found(a) => {
            let named: Option<&str> = field(pairs, "expected_version");
            match check_if_match(named, a.updated_at.millis) {
                Ok(()) => Ok(()),
                Err(_) => Err(Reply::precondition_page(Section::Collections, "assignment", back)),
            }
        },
    }
}

/// Why a part was not handed out.
pub enum PartError {
    VoiceNotInArrangement,
    UnknownReference,
    Database,
}

/// Whether `r` is what [`part_assigned`] owes its caller.
pub open spec fn part_assigned_outcome(
    r: Done,
    ctx: ConsoleCtx,
    request_id: Uuid,
    collection_id: Uuid,
    item_id: Uuid,
    voice_id: Uuid,
    user_id: Uuid,
    result: Result<(Uuid, bool), PartError>,
) -> bool {
    match result {
        Ok((id, was_insert)) => r.recorded(
            entry(
                ctx.audit_context(request_id),
                if was_insert {
                    "part_assignment.create"@
                } else {
                    "part_assignment.reassign"@
                },
                "part_assignment"@,
                id,
                seq![
                    detail("collectionItemId"@, FactView::Id(item_id)),
                    detail("voiceId"@, FactView::Id(voice_id)),
                    detail("userId"@, FactView::Id(user_id)),
                ],
            ),
            goes_to(parts_url(ctx.org_of().id, collection_id, item_id)),
        ),
        Err(PartError::VoiceNotInArrangement) => r.unrecorded(
            col_error(404, "That voice does not belong to this piece's arrangement."@),
        ),
        Err(PartError::UnknownReference) => r.unrecorded(
            col_error(404, "The piece, voice, or user no longer exists."@),
        ),
        Err(PartError::Database) => r.unrecorded(
            col_error(500, "Could not assign the part."@),
        ),
    }
}

/// How handing out a part ended: under which identifier, and whether the voice
/// had no player before.
pub fn part_assigned(
    ctx: &ConsoleCtx,
    request_id: Uuid,
    collection_id: Uuid,
    item_id: Uuid,
    voice_id: Uuid,
    user_id: Uuid,
    result: Result<(Uuid, bool), PartError>,
) -> (r: Done)
    ensures
        part_assigned_outcome(
            r,
            *ctx,
            request_id,
            collection_id,
            item_id,
            voice_id,
            user_id,
            result,
        ),
{
    match result {
        Ok((id, was_insert)) => Done::saved(
            AuditEntry::new(
                ctx.audit_ctx(request_id),
                if was_insert {
                    "part_assignment.create"
                } else {
                    "part_assignment.reassign"
                },
                "part_assignment",
                id,
            ).with("collectionItemId", Fact::Id(item_id)).with("voiceId", Fact::Id(voice_id)).with(
                "userId",
                Fact::Id(user_id),
            ),
            assignments_url(ctx.org().id, collection_id, item_id),
        ),
        Err(PartError::VoiceNotInArrangement) => Done::refused(
            error_page(404, "That voice does not belong to this piece's arrangement."),
        ),
        Err(PartError::UnknownReference) => Done::refused(
            error_page(404, "The piece, voice, or user no longer exists."),
        ),
        Err(PartError::Database) => Done::refused(error_page(500, "Could not assign the part.")),
    }
}

/// Whether `r` is what [`require_assignment`] owes its caller.
pub open spec fn require_assignment_outcome(
    r: Result<PartAssignment, Reply>,
    found: Lookup<PartAssignment>,
    item_id: Uuid,
) -> bool {
    row_found(
        r,
        assignment_of_item(found, item_id),
        Section::Collections,
        "Assignment not found."@,
    )
}

/// Opens an assignment of a piece.
pub fn require_assignment(found: Lookup<PartAssignment>, item_id: Uuid) -> (r: Result<
    PartAssignment,
    Reply,
>)
    ensures
        require_assignment_outcome(r, found, item_id),
{
    require_found(
        scoped_assignment(found, item_id),
        Section::Collections,
        "Assignment not found.",
    )
}

/// Whether `r` is what [`part_unassigned`] owes its caller.
pub open spec fn part_unassigned_outcome(
    r: Done,
    ctx: ConsoleCtx,
    request_id: Uuid,
    collection_id: Uuid,
    item_id: Uuid,
    assignment_id: Uuid,
    ok: bool,
) -> bool {
    &&& ok ==> r.recorded(
        entry(
            ctx.audit_context(request_id),
            "part_assignment.delete"@,
            "part_assignment"@,
            assignment_id,
            seq![detail("collectionItemId"@, FactView::Id(item_id))],
        ),
        goes_to(parts_url(ctx.org_of().id, collection_id, item_id)),
    )
    &&& !ok ==> r.unrecorded(col_error(500, "Could not unassign the part."@))
}

/// How taking a part back ended.
pub fn part_unassigned(
    ctx: &ConsoleCtx,
    request_id: Uuid,
    collection_id: Uuid,
    item_id: Uuid,
    assignment_id: Uuid,
    ok: bool,
) -> (r: Done)
    ensures
        part_unassigned_outcome(r, *ctx, request_id, collection_id, item_id, assignment_id, ok),
{
    settle(
        ok,
        AuditEntry::new(
            ctx.audit_ctx(request_id),
            "part_assignment.delete",
            "part_assignment",
            assignment_id,
        ).with("collectionItemId", Fact::Id(item_id)),
        assignments_url(ctx.org().id, collection_id, item_id),
        Section::Collections,
        "Could not unassign the part.",
    )
}

/// Which of the two times a button records.
#[derive(Clone, Copy, Debug, PartialEq, Eq, Structural)]
pub enum StateStamp {
    Notified,
    Acknowledged,
}

/// Whether `r` is what [`stamp_times`] owes its caller.
pub open spec fn stamp_times_outcome(
    r: (Option<Time>, Option<Time>),
    stamp: StateStamp,
    now: Time,
) -> bool {
    r == (match stamp {
        StateStamp::Notified => (Some(now), None::<Time>),
        StateStamp::Acknowledged => (None::<Time>, Some(now)),
    })
}

/// The times to store for a button pressed at `now`: the one it records, and
/// nothing for the other, which stays as it is.
pub fn stamp_times(stamp: StateStamp, now: Time) -> (r: (Option<Time>, Option<Time>))
    ensures
        stamp_times_outcome(r, stamp, now),
{
    match stamp {
        StateStamp::Notified => (Some(now), None),
        StateStamp::Acknowledged => (None, Some(now)),
    }
}

/// Whether `r` is what [`state_marked`] owes its caller.
pub open spec fn state_marked_outcome(
    r: Done,
    ctx: ConsoleCtx,
    request_id: Uuid,
    collection_id: Uuid,
    item_id: Uuid,
    assignment_id: Uuid,
    times: (Option<Time>, Option<Time>),
    ok: bool,
) -> bool {
    &&& ok ==> r.recorded(
        entry(
            ctx.audit_context(request_id),
            "part_assignment.update_state"@,
            "part_assignment"@,
            assignment_id,
            seq![
                detail("notifiedAt"@, time_fact(times.0)),
                detail("acknowledgedAt"@, time_fact(times.1)),
            ],
        ),
        goes_to(parts_url(ctx.org_of().id, collection_id, item_id)),
    )
    &&& !ok ==> r.unrecorded(col_error(500, "Could not record that."@))
}

/// How recording that a player was told, or has answered, ended.
pub fn state_marked(
    ctx: &ConsoleCtx,
    request_id: Uuid,
    collection_id: Uuid,
    item_id: Uuid,
    assignment_id: Uuid,
    times: (Option<Time>, Option<Time>),
    ok: bool,
) -> (r: Done)
    ensures
        state_marked_outcome(r, *ctx, request_id, collection_id, item_id, assignment_id, times, ok),
{
    settle(
        ok,
        AuditEntry::new(
            ctx.audit_ctx(request_id),
            "part_assignment.update_state",
            "part_assignment",
            assignment_id,
        ).with("notifiedAt", opt_time(times.0)).with("acknowledgedAt", opt_time(times.1)),
        assignments_url(ctx.org().id, collection_id, item_id),
        Section::Collections,
        "Could not record that.",
    )
}

/// What a row shows of one of the two times.
pub enum Stamp {
    /// It was recorded; the time to the minute, if the calendar has it.
    At(Option<String>),
    /// It can be recorded, by this action.
    Button(String),
    /// Nobody has the part.
    Dash,
}

/// Whether `s` is what a row shows of a time, `segment` being the action's.
pub open spec fn shows_stamp(
    s: Stamp,
    at: Option<Time>,
    assignment: Option<Uuid>,
    base: Seq<char>,
    segment: Seq<char>,
) -> bool {
    match at {
        Some(t) => s matches Stamp::At(shown) && text_of(shown) == minute_of(t.millis),
        None => match assignment {
            Some(id) => s matches Stamp::Button(action) && action@ == action_url(base, id, segment),
            None => s is Dash,
        },
    }
}

fn stamp(at: Option<Time>, assignment: Option<Uuid>, base: &String, segment: &str) -> (r: Stamp)
    ensures
        shows_stamp(r, at, assignment, base@, segment@),
{
    match at {
        Some(t) => Stamp::At(minute_text(t.millis)),
        None => match assignment {
            Some(id) => Stamp::Button(action_path(base, id, segment)),
            None => Stamp::Dash,
        },
    }
}

/// The form that hands a voice out.
pub struct AssignForm {
    pub voice_id: Uuid,
    /// The version of the assignment that it would replace.
    pub expected_version: Option<i64>,
    pub label: &'static str,
}

/// One voice on the screen of a piece's parts.
pub struct PartRow {
    pub voice_name: String,
    /// The player's shown name and username.
    pub assignee: Option<(String, String)>,
    pub notified: Stamp,
    pub acknowledged: Stamp,
    pub assign: Option<AssignForm>,
    pub unassign_action: Option<String>,
}

/// Whether `p` shows the voice `m`. Parts of a removed arrangement can only be
/// taken back.
pub open spec fn shows_part(p: PartRow, m: MatrixRow, removed: bool, base: Seq<char>) -> bool {
    &&& p.voice_name == m.voice_name
    &&& match m.assignee_username {
        Some(username) => p.assignee matches Some((shown, name)) && name == username && shown == (
        match m.assignee_display_name {
            Some(display) => display,
            None => username,
        }),
        None => p.assignee is None,
    }
    &&& shows_stamp(p.notified, m.notified_at, m.assignment_id, base, "/notified"@)
    &&& shows_stamp(p.acknowledged, m.acknowledged_at, m.assignment_id, base, "/acknowledged"@)
    &&& removed ==> p.assign is None
    &&& !removed ==> (p.assign matches Some(f) && f.voice_id == m.voice_id && f.expected_version
        == (match m.assignment_updated_at {
        Some(t) => Some(t.millis),
        None => None,
    }) && f.label@ == (if m.assignment_id is Some {
        "Reassign"@
    } else {
        "Assign"@
    }))
    &&& match m.assignment_id {
        Some(id) => p.unassign_action is Some && p.unassign_action->0@ == action_url(
            base,
            id,
            "/unassign"@,
        ),
        None => p.unassign_action is None,
    }
}

fn part_row(m: &MatrixRow, removed: bool, base: &String) -> (r: PartRow)
    ensures
        shows_part(r, *m, removed, base@),
{
    PartRow {
        voice_name: m.voice_name.clone(),
        assignee: match &m.assignee_username {
            Some(username) => Some(
                (
                    match &m.assignee_display_name {
                        Some(display) => display.clone(),
                        None => username.clone(),
                    },
                    username.clone(),
                ),
            ),
            None => None,
        },
        notified: stamp(m.notified_at, m.assignment_id, base, "/notified"),
        acknowledged: stamp(m.acknowledged_at, m.assignment_id, base, "/acknowledged"),
        assign: if removed {
            None
        } else {
            Some(
                AssignForm {
                    voice_id: m.voice_id,
                    expected_version: match m.assignment_updated_at {
                        Some(t) => Some(t.millis),
                        None => None,
                    },
                    label: if m.assignment_id.is_some() {
                        "Reassign"
                    } else {
                        "Assign"
                    },
                },
            )
        },
        unassign_action: match m.assignment_id {
            Some(id) => Some(action_path(base, id, "/unassign")),
            None => None,
        },
    }
}

/// The screen of a piece's parts.
pub struct PartsPage {
    pub title: String,
    pub index: i32,
    pub collection_name: String,
    pub arrangement_removed: bool,
    pub base: String,
    pub rows: Vec<PartRow>,
    pub back: String,
}

/// Whether `r` is what [`assignments_page`] owes its caller.
pub open spec fn assignments_page_outcome(
    r: Result<PartsPage, Reply>,
    ctx: ConsoleCtx,
    c: Collection,
    item: CollectionItem,
    arrangement: Option<&Arrangement>,
    matrix: Option<&Vec<MatrixRow>>,
) -> bool {
    match matrix {
        None => refused(r, col_error(500, "Could not load the parts for this piece."@)),
        Some(m) => {
            &&& r is Ok
            &&& r->Ok_0.title@ == (match arrangement {
                Some(a) => a.title@,
                None => "[removed]"@,
            })
            &&& r->Ok_0.index == item.index
            &&& r->Ok_0.collection_name == c.name
            &&& r->Ok_0.arrangement_removed == (arrangement is None)
            &&& r->Ok_0.base@ == parts_url(ctx.org_of().id, c.id, item.id)
            &&& r->Ok_0.back@ == collection_url(ctx.org_of().id, c.id)
            &&& r->Ok_0.rows@.len() == m@.len()
            &&& forall|i: int|
                0 <= i < m@.len() ==> shows_part(
                    #[trigger] r->Ok_0.rows@[i],
                    m@[i],
                    arrangement is None,
                    parts_url(ctx.org_of().id, c.id, item.id),
                )
        },
    }
}

/// The screen of a piece's parts: every voice of its arrangement, with whoever
/// plays it. `arrangement` is the live arrangement, `matrix` is `None` where
/// the voices could not be listed.
pub fn assignments_page(
    ctx: &ConsoleCtx,
    c: &Collection,
    item: &CollectionItem,
    arrangement: Option<&Arrangement>,
    matrix: Option<&Vec<MatrixRow>>,
) -> (r: Result<PartsPage, Reply>)
    ensures
        assignments_page_outcome(r, *ctx, *c, *item, arrangement, matrix),
{
    let m: &Vec<MatrixRow> = match matrix {
        Some(m) => m,
        None => return Err(error_page(500, "Could not load the parts for this piece.")),
    };
    let removed: bool = arrangement.is_none();
    let base: String = assignments_url(ctx.org().id, c.id, item.id);
    let mut rows: Vec<PartRow> = Vec::new();
    let mut i: usize = 0;
    while i < m.len()
        invariant
            i <= m.len(),
            rows@.len() == i,
            forall|k: int| 0 <= k < i ==> shows_part(#[trigger] rows@[k], m@[k], removed, base@),
        decreases m.len() - i,
    {
        rows.push(part_row(&m[i], removed, &base));
        i = i + 1;
    }
    Ok(
        PartsPage {
            title: match arrangement {
                Some(a) => a.title.clone(),
                None => "[removed]".to_owned(),
            },
            index: item.index,
            collection_name: c.name.clone(),
            arrangement_removed: removed,
            base,
            rows,
            back: detail_url(ctx.org().id, c.id),
        },
    )
}

/// Handing out a part is on record, with the piece, the voice and the player,
/// exactly where it took place; the parts of the piece are shown next.
pub proof fn a_handed_out_part_is_on_record(
    r: Done,
    ctx: ConsoleCtx,
    request_id: Uuid,
    collection_id: Uuid,
    item_id: Uuid,
    voice_id: Uuid,
    user_id: Uuid,
    result: Result<(Uuid, bool), PartError>,
)
    requires
        part_assigned_outcome(
            r,
            ctx,
            request_id,
            collection_id,
            item_id,
            voice_id,
            user_id,
            result,
        ),
    ensures
        result is Err ==> r.fell_through(),
        forall|id: Uuid, fresh: bool| result == Ok::<(Uuid, bool), PartError>((id, fresh)) ==> {
            &&& r.names(
                ctx.user_of().id,
                ctx.org_of().id,
                request_id,
                if fresh {
                    "part_assignment.create"@
                } else {
                    "part_assignment.reassign"@
                },
                id,
            )
            &&& r.tells("collectionItemId"@, FactView::Id(item_id))
            &&& r.tells("voiceId"@, FactView::Id(voice_id))
            &&& r.tells("userId"@, FactView::Id(user_id))
            &&& r.moves_on_to(parts_url(ctx.org_of().id, collection_id, item_id))
        },
{
    broadcast use vstd::seq_lib::group_seq_properties;

}

/// Taking a part back, and recording that a player was told or has answered, is
/// on record exactly where it took place.
pub proof fn changes_to_a_part_are_on_record(
    taken_back: Done,
    marked: Done,
    ctx: ConsoleCtx,
    request_id: Uuid,
    collection_id: Uuid,
    item_id: Uuid,
    assignment_id: Uuid,
    times: (Option<Time>, Option<Time>),
    ok: bool,
)
    requires
        part_unassigned_outcome(
            taken_back,
            ctx,
            request_id,
            collection_id,
            item_id,
            assignment_id,
            ok,
        ),
        state_marked_outcome(
            marked,
            ctx,
            request_id,
            collection_id,
            item_id,
            assignment_id,
            times,
            ok,
        ),
    ensures
        !ok ==> taken_back.fell_through() && marked.fell_through(),
        ok ==> {
            &&& taken_back.names(
                ctx.user_of().id,
                ctx.org_of().id,
                request_id,
                "part_assignment.delete"@,
                assignment_id,
            )
            &&& taken_back.tells("collectionItemId"@, FactView::Id(item_id))
            &&& taken_back.moves_on_to(parts_url(ctx.org_of().id, collection_id, item_id))
            &&& marked.names(
                ctx.user_of().id,
                ctx.org_of().id,
                request_id,
                "part_assignment.update_state"@,
                assignment_id,
            )
            &&& marked.moves_on_to(parts_url(ctx.org_of().id, collection_id, item_id))
        },
        ok && times.0 is Some ==> marked.tells("notifiedAt"@, FactView::Time(times.0->0)),
        ok && times.0 is None ==> marked.tells("notifiedAt"@, FactView::Nothing),
        ok && times.1 is Some ==> marked.tells("acknowledgedAt"@, FactView::Time(times.1->0)),
        ok && times.1 is None ==> marked.tells("acknowledgedAt"@, FactView::Nothing),
{
    broadcast use vstd::seq_lib::group_seq_properties;

}

/// A button records the time it was pressed at where it stands, and says
/// nothing of the other time.
pub proof fn a_button_records_its_own_time(
    told: (Option<Time>, Option<Time>),
    answered: (Option<Time>, Option<Time>),
    now: Time,
)
    requires
        stamp_times_outcome(told, StateStamp::Notified, now),
        stamp_times_outcome(answered, StateStamp::Acknowledged, now),
    ensures
        told.0 == Some(now) && told.1 is None,
        answered.1 == Some(now) && answered.0 is None,
{
}

/// A row shows a time exactly where one is recorded, and then that time to the
/// minute; else a button for whoever has the part, and nothing where nobody
/// has.
pub open spec fn stands_for(
    s: Stamp,
    recorded: Option<Time>,
    assignment: Option<Uuid>,
    base: Seq<char>,
    segment: Seq<char>,
) -> bool {
    &&& s is At <==> recorded is Some
    &&& forall|t: Time, shown: Option<String>|
        recorded == Some(t) && s == Stamp::At(shown) ==> text_of(shown) == minute_of(t.millis)
    &&& s is Button <==> recorded is None && assignment is Some
    &&& forall|id: Uuid, action: String|
        assignment == Some(id) && s == Stamp::Button(action) ==> action@ == base + "/"@ + uuid_text(
            id,
        ) + segment
}

/// The parts screen shows every voice in its row: by its name, with whoever
/// plays it, with what is recorded of that assignment, and with the way to hand
/// the voice out and to take it back.
pub proof fn the_parts_screen_shows_what_is_recorded(
    page: PartsPage,
    ctx: ConsoleCtx,
    c: Collection,
    item: CollectionItem,
    arrangement: Option<&Arrangement>,
    matrix: &Vec<MatrixRow>,
    i: int,
)
    requires
        assignments_page_outcome(
            Ok::<PartsPage, Reply>(page),
            ctx,
            c,
            item,
            arrangement,
            Some(matrix),
        ),
        0 <= i < matrix@.len(),
    ensures
        page.rows@.len() == matrix@.len(),
        page.base@ == parts_url(ctx.org_of().id, c.id, item.id),
        page.index == item.index && page.collection_name@ == c.name@,
        page.arrangement_removed <==> arrangement is None,
        arrangement matches Some(a) ==> page.title@ == a.title@,
        page.back@ == collection_url(ctx.org_of().id, c.id),
        ({
            let (row, m) = (page.rows@[i], matrix@[i]);
            &&& row.voice_name@ == m.voice_name@
            &&& stands_for(row.notified, m.notified_at, m.assignment_id, page.base@, "/notified"@)
            &&& stands_for(
                row.acknowledged,
                m.acknowledged_at,
                m.assignment_id,
                page.base@,
                "/acknowledged"@,
            )
            &&& row.assignee is Some <==> m.assignee_username is Some
            &&& row.assignee matches Some((_, name)) ==> name@ == m.assignee_username->0@
            &&& row.assignee matches Some((shown, name)) ==> shown@ == (
            if m.assignee_display_name is Some {
                m.assignee_display_name->0@
            } else {
                name@
            })
            &&& row.unassign_action is Some <==> m.assignment_id is Some
            &&& forall|id: Uuid|
                m.assignment_id == Some(id) ==> row.unassign_action->0@ == page.base@ + "/"@
                    + #[trigger] uuid_text(id) + "/unassign"@
            &&& row.assign is Some <==> arrangement is Some
            &&& row.assign is Some ==> row.assign->0.voice_id == m.voice_id
            &&& row.assign is Some && m.assignment_id is Some ==> row.assign->0.label@
                == "Reassign"@
            &&& row.assign is Some && m.assignment_id is None ==> row.assign->0.label@ == "Assign"@
        }),
{
    assert(shows_part(
        page.rows@[i],
        matrix@[i],
        arrangement is None,
        parts_url(ctx.org_of().id, c.id, item.id),
    ));
}

/// A part that someone has is handed on by the form that the parts screen shows
/// beside it, as long as the assignment has not changed since; the form of a
/// screen that is out of date is sent back.
pub proof fn a_part_is_handed_on_from_a_screen_that_is_up_to_date(
    p: PartRow,
    m: MatrixRow,
    base: Seq<char>,
    pairs: Vec<(String, String)>,
    a: PartAssignment,
    back: String,
    r: Result<(), Reply>,
)
    requires
        shows_part(p, m, false, base),
        m.assignment_updated_at is Some,
        first_value(pairs@, "expected_version"@) == Some(
            int_text(p.assign->0.expected_version->0 as int),
        ),
        allow_assignment_outcome(r, Lookup::Found(a), pairs, back),
    ensures
        r is Ok <==> a.updated_at.millis == m.assignment_updated_at->0.millis,
        r is Err ==> r->Err_0@.status() == 412,
        r matches Err(Reply::Stale { back: to, .. }) ==> to@ == back@,
{
    let shown = p.assign->0.expected_version->0;
    a_tag_names_one_version(shown, a.updated_at.millis);
}

/// A voice that nobody has is handed out freely.
pub proof fn a_free_part_is_handed_out(
    pairs: Vec<(String, String)>,
    back: String,
    r: Result<(), Reply>,
)
    requires
        allow_assignment_outcome(r, Lookup::Missing, pairs, back),
    ensures
        r is Ok,
{
}

/// Handing out takes the voice and the player that the form names; parts of a
/// removed arrangement are not handed out.
pub proof fn a_part_goes_to_whom_the_form_names(
    ctx: ConsoleCtx,
    collection_id: Uuid,
    c: Collection,
    item: CollectionItem,
    pairs: Vec<(String, String)>,
    i: int,
    j: int,
    planned: Result<(CollectionItem, Uuid), Reply>,
    arrangement: Lookup<Arrangement>,
    named: Result<String, Reply>,
)
    requires
        ctx.access_of().builds_collections(),
        c.organization_id == ctx.org_of().id,
        item.collection_id == collection_id,
        comes_first(pairs@, "voice_id"@, i),
        comes_first(pairs@, "username"@, j),
        plan_assign_outcome(
            planned,
            ctx,
            collection_id,
            Lookup::Found(c),
            Lookup::Found(item),
            pairs,
        ),
        plan_assignee_outcome(named, arrangement, pairs),
    ensures
        read_uuid(pairs@[i].1@) matches Some(voice) ==> planned == Ok::<
            (CollectionItem, Uuid),
            Reply,
        >((item, voice)),
        read_uuid(pairs@[i].1@) is None ==> planned is Err && planned->Err_0@.status() == 400,
        arrangement is Missing ==> named is Err && named->Err_0@.status() == 409,
        arrangement is Found && trimmed(pairs@[j].1@).len() > 0 ==> named is Ok && named->Ok_0@
            == trimmed(pairs@[j].1@),
        trimmed(pairs@[j].1@).len() == 0 ==> named is Err,
{
    the_earliest_value_counts(pairs@, "voice_id"@);
    the_earliest_value_counts(pairs@, "username"@);
}

/// The parts are shown where they could be listed.
pub proof fn the_parts_are_shown_where_they_could_be_listed(
    r: Result<PartsPage, Reply>,
    ctx: ConsoleCtx,
    c: Collection,
    item: CollectionItem,
    arrangement: Option<&Arrangement>,
    matrix: Option<&Vec<MatrixRow>>,
)
    requires
        assignments_page_outcome(r, ctx, c, item, arrangement, matrix),
    ensures
        r is Ok <==> matrix is Some,
        r is Err ==> r->Err_0@.status() == 500,
        r is Ok && arrangement is None ==> r->Ok_0.title@ == "[removed]"@,
{
}

/// Only who has an account can be handed a part.
pub proof fn a_player_needs_an_account(r: Result<User, Reply>, found: Lookup<User>)
    requires
        require_assignee_outcome(r, found),
    ensures
        r is Ok <==> found is Found,
        r is Ok ==> found == Lookup::Found(r->Ok_0),
        found is Missing ==> r->Err_0@.status() == 404,
        found is Failed ==> r->Err_0@.status() == 500,
{
}

/// No part is handed out where the arrangement could not be looked up.
pub proof fn no_part_is_handed_out_unchecked(
    r: Result<String, Reply>,
    arrangement: Lookup<Arrangement>,
    pairs: Vec<(String, String)>,
)
    requires
        plan_assignee_outcome(r, arrangement, pairs),
    ensures
        arrangement is Failed ==> r is Err && r->Err_0@.status() == 500,
        r is Ok ==> arrangement is Found,
{
}

/// Nobody is replaced where the current player could not be looked up.
pub proof fn nobody_is_replaced_unchecked(
    r: Result<(), Reply>,
    existing: Lookup<PartAssignment>,
    pairs: Vec<(String, String)>,
    back: String,
)
    requires
        allow_assignment_outcome(r, existing, pairs, back),
    ensures
        existing is Failed ==> r is Err && r->Err_0@.status() == 500,
        existing is Found && first_value(pairs@, "expected_version"@) is None ==> r is Err
            && r->Err_0@.status() == 412,
{
}

/// An assignment is opened exactly where it belongs to the piece.
pub proof fn assignments_are_opened_where_they_belong(
    r: Result<PartAssignment, Reply>,
    found: Lookup<PartAssignment>,
    item_id: Uuid,
)
    requires
        require_assignment_outcome(r, found, item_id),
    ensures
        r is Ok <==> (found matches Lookup::Found(a) && a.collection_item_id == item_id),
        r is Ok ==> found == Lookup::Found(r->Ok_0),
        found is Failed ==> r->Err_0@.status() == 500,
        r is Err && !(found is Failed) ==> r->Err_0@.status() == 404,
{
}

/// The URL of a piece's parts names the organization, the collection and the
/// piece.
pub proof fn the_url_of_the_parts_names_the_piece(org: Uuid, collection: Uuid, item: Uuid)
    ensures
        parts_url(org, collection, item) == "/admin/orgs/"@ + uuid_text(org) + "/collections"@
            + "/"@ + uuid_text(collection) + "/items/"@ + uuid_text(item) + "/assignments"@,
{
}

} // verus!
