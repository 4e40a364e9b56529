//! The console's tag screens, and tags on arrangements.

use vstd::prelude::*;
use crate::arrangement_form::was_typed;
use crate::arrangements::{
    arr_error, chosen_id, error_page, in_org, read_choice, scoped_arrangement,
};
use crate::audit::{
    detail, entry, opt_text, text, text_fact, AuditEntry, Fact, FactView,
};
use crate::console::ConsoleCtx;
use crate::id::{read_uuid, Uuid};
use crate::model::{Arrangement, Lookup, Tag};
use crate::reply::{goes_to, refused, Done, Reply, ReplyView};
use crate::text::{
    bare, bare_text_is_taken_in_as_it_stands, blank_to_none, entered, text_of, trimmed,
};
use crate::urls::{arrangement_path, arrangement_url, list_path, list_url, row_path, row_url};

verus! {

/// Trims a form value and treats the empty text as absent.
pub fn blank(value: &Option<String>) -> (r: Option<String>)
    ensures
        text_of(r) == entered(text_of(*value)),
{
    blank_to_none(value)
}

/// Whether a live tag of the organization was found.
pub open spec fn is_own_tag(found: Lookup<Tag>, org: Uuid) -> bool {
    found matches Lookup::Found(t) && t.organization_id == org
}

/// Whether a live tag of the organization was found. A tag of another one, and
/// one that could not be looked up, are not.
pub fn tag_belongs_to_org(found: &Lookup<Tag>, org: Uuid) -> (r: bool)
    ensures
        r == is_own_tag(*found, org),
{
    match found {
        Lookup::Found(t) => t.organization_id == org,
        Lookup::Missing => false,
        Lookup::Failed => false,
    }
}

/// A tag in the list.
pub struct TagRow {
    pub name: String,
    pub kind: String,
    pub save_action: String,
    pub delete_action: String,
    pub restore_action: String,
}

/// Whether `row` shows the tag `t`.
pub open spec fn shows_tag(row: TagRow, t: Tag, org: Uuid) -> bool {
    &&& row.name == t.name
    &&& row.kind@ == (match t.kind {
        Some(k) => k@,
        None => Seq::empty(),
    })
    &&& row.save_action@ == row_url(org, "/tags"@, t.id)
    &&& row.delete_action@ == row_url(org, "/tags"@, t.id) + "/delete"@
    &&& row.restore_action@ == row_url(org, "/tags"@, t.id) + "/undelete"@
}

/// Whether `rows` shows the tags `ts`, in their order.
pub open spec fn shows_tags(rows: Seq<TagRow>, ts: Seq<Tag>, org: Uuid) -> bool {
    &&& rows.len() == ts.len()
    &&& forall|i: int| 0 <= i < ts.len() ==> shows_tag(#[trigger] rows[i], ts[i], org)
}

fn tag_rows(ts: &Vec<Tag>, org: Uuid) -> (r: Vec<TagRow>)
    ensures
        shows_tags(r@, ts@, org),
{
    let mut out: Vec<TagRow> = Vec::new();
    let mut i: usize = 0;
    while i < ts.len()
        invariant
            i <= ts.len(),
            out@.len() == i,
            forall|k: int| 0 <= k < i ==> shows_tag(#[trigger] out@[k], ts@[k], org),
        decreases ts.len() - i,
    {
        let t: &Tag = &ts[i];
        out.push(
            TagRow {
                name: t.name.clone(),
                kind: match &t.kind {
                    Some(k) => k.clone(),
                    None => String::new(),
                },
                save_action: row_path(org, "/tags", t.id),
                delete_action: row_path(org, "/tags", t.id).concat("/delete"),
                restore_action: row_path(org, "/tags", t.id).concat("/undelete"),
            },
        );
        i = i + 1;
    }
    out
}

/// The list of tags.
pub struct TagsPage {
    pub can_edit: bool,
    pub rows: Vec<TagRow>,
    pub create_action: String,
    /// Shown only to those who can restore them.
    pub deleted: Vec<TagRow>,
    pub back: String,
}

/// Whether `r` is what [`tags_page`] owes its caller.
pub open spec fn tags_page_outcome(
    r: Result<TagsPage, Reply>,
    ctx: ConsoleCtx,
    listed: Option<&Vec<Tag>>,
    deleted: Vec<Tag>,
) -> bool {
    &&& !ctx.access_of().staff() ==> refused(r, ReplyView::SectionForbidden)
    &&& ctx.access_of().staff() ==> match listed {
        None => refused(r, arr_error(500, "Could not load tags."@)),
        Some(tags) => {
            let org = ctx.org_of().id;
            &&& r is Ok
            &&& r->Ok_0.can_edit == ctx.access_of().edits_arrangements()
            &&& shows_tags(r->Ok_0.rows@, tags@, org)
            &&& r->Ok_0.create_action@ == list_url(org, "/tags"@)
            &&& ctx.access_of().edits_arrangements() ==> shows_tags(
                r->Ok_0.deleted@,
                deleted@,
                org,
            )
            &&& !ctx.access_of().edits_arrangements() ==> r->Ok_0.deleted@.len() == 0
            &&& r->Ok_0.back@ == list_url(org, "/arrangements"@)
        },
    }
}

/// The list of tags. `listed` is `None` where they could not be listed.
pub fn tags_page(ctx: &ConsoleCtx, listed: Option<&Vec<Tag>>, deleted: &Vec<Tag>) -> (r: Result<
    TagsPage,
    Reply,
>)
    ensures
        tags_page_outcome(r, *ctx, listed, *deleted),
{
    if !ctx.is_staff() {
        return Err(Reply::SectionForbidden);
    }
    let tags: &Vec<Tag> = match listed {
        Some(tags) => tags,
        None => return Err(error_page(500, "Could not load tags.")),
    };
    let can_edit: bool = ctx.can_edit_arrangements();
    let org: Uuid = ctx.org().id;
    Ok(
        TagsPage {
            can_edit,
            rows: tag_rows(tags, org),
            create_action: list_path(org, "/tags"),
            deleted: if can_edit {
                tag_rows(deleted, org)
            } else {
                Vec::new()
            },
            back: list_path(org, "/arrangements"),
        },
    )
}

/// The tag form as it was submitted.
pub struct TagForm {
    pub name: Option<String>,
    pub kind: Option<String>,
}

/// The fields of a tag.
pub struct TagFields {
    pub name: String,
    pub kind: Option<String>,
}

/// Why a tag was not stored.
pub enum TagError {
    Duplicate,
    Database,
}

impl TagForm {
    /// What a tag form leads to.
    pub open spec fn leads_to(self, r: Result<TagFields, Reply>) -> bool {
        match entered(text_of(self.name)) {
            None => refused(r, arr_error(400, "Tag name must not be empty."@)),
            Some(name) => r is Ok && r->Ok_0.name@ == name && text_of(r->Ok_0.kind) == entered(
                text_of(self.kind),
            ),
        }
    }

    fn fields(&self) -> (r: Result<TagFields, Reply>)
        ensures
            self.leads_to(r),
    {
        match blank(&self.name) {
            Some(name) => Ok(TagFields { name, kind: blank(&self.kind) }),
            None => Err(error_page(400, "Tag name must not be empty.")),
        }
    }
}

/// Whether `r` is what [`plan_create_tag`] owes its caller.
pub open spec fn plan_create_tag_outcome(
    r: Result<TagFields, Reply>,
    ctx: ConsoleCtx,
    form: TagForm,
) -> bool {
    &&& !ctx.access_of().edits_arrangements() ==> refused(r, ReplyView::SectionForbidden)
    &&& ctx.access_of().edits_arrangements() ==> form.leads_to(r)
}

/// The fields of a new tag, from the form.
pub fn plan_create_tag(ctx: &ConsoleCtx, form: &TagForm) -> (r: Result<TagFields, Reply>)
    ensures
        plan_create_tag_outcome(r, *ctx, *form),
{
    if !ctx.can_edit_arrangements() {
        return Err(Reply::SectionForbidden);
    }
    form.fields()
}

/// Whether `r` is what [`tag_created`] owes its caller.
pub open spec fn tag_created_outcome(
    r: Done,
    ctx: ConsoleCtx,
    request_id: Uuid,
    result: Result<Tag, TagError>,
) -> bool {
    match result {
        Ok(t) => r.recorded(
            entry(
                ctx.audit_context(request_id),
                "tag.create"@,
                "tag"@,
                t.id,
                seq![
                    detail("name"@, FactView::Text(t.name@)),
                    detail("kind"@, text_fact(text_of(t.kind))),
                ],
            ),
            goes_to(list_url(ctx.org_of().id, "/tags"@)),
        ),
        Err(TagError::Duplicate) => r.unrecorded(
            arr_error(
                409,
                "A tag with this name and kind already exists in this organization."@,
            ),
        ),
        Err(TagError::Database) => r.unrecorded(arr_error(500, "Could not create the tag."@)),
    }
}

/// How storing a new tag ended.
pub fn tag_created(ctx: &ConsoleCtx, request_id: Uuid, result: Result<Tag, TagError>) -> (r: Done)
    ensures
        tag_created_outcome(r, *ctx, request_id, result),
{
    match result {
        Ok(t) => Done::saved(
            AuditEntry::new(ctx.audit_ctx(request_id), "tag.create", "tag", t.id).with(
                "name",
                text(t.name.as_str()),
            ).with("kind", opt_text(&t.kind)),
            list_path(ctx.org().id, "/tags"),
        ),
        Err(TagError::Duplicate) => Done::refused(
            error_page(409, "A tag with this name and kind already exists in this organization."),
        ),
        Err(TagError::Database) => Done::refused(error_page(500, "Could not create the tag.")),
    }
}

/// Whether `r` is what [`plan_update_tag`] owes its caller.
pub open spec fn plan_update_tag_outcome(
    r: Result<TagFields, Reply>,
    ctx: ConsoleCtx,
    found: Lookup<Tag>,
    form: TagForm,
) -> bool {
    &&& !ctx.access_of().edits_arrangements() ==> refused(r, ReplyView::SectionForbidden)
    &&& ctx.access_of().edits_arrangements() ==> if is_own_tag(found, ctx.org_of().id) {
        form.leads_to(r)
    } else {
        refused(r, arr_error(404, "Tag not found."@))
    }
}

/// The new fields of a tag, from the form.
pub fn plan_update_tag(ctx: &ConsoleCtx, found: &Lookup<Tag>, form: &TagForm) -> (r: Result<
    TagFields,
    Reply,
>)
    ensures
        plan_update_tag_outcome(r, *ctx, *found, *form),
{
    match plan_delete_tag(ctx, found) {
        Ok(()) => form.fields(),
        Err(reply) => Err(reply),
    }
}

/// Whether `r` is what [`tag_updated`] owes its caller.
pub open spec fn tag_updated_outcome(
    r: Done,
    ctx: ConsoleCtx,
    request_id: Uuid,
    tag_id: Uuid,
    fields: TagFields,
    result: Result<(), TagError>,
) -> bool {
    match result {
        Ok(()) => r.recorded(
            entry(
                ctx.audit_context(request_id),
                "tag.update"@,
                "tag"@,
                tag_id,
                seq![
                    detail("name"@, FactView::Text(fields.name@)),
                    detail("kind"@, text_fact(text_of(fields.kind))),
                ],
            ),
            goes_to(list_url(ctx.org_of().id, "/tags"@)),
        ),
        Err(TagError::Duplicate) => r.unrecorded(
            arr_error(
                409,
                "A tag with this name and kind already exists in this organization."@,
            ),
        ),
        Err(TagError::Database) => r.unrecorded(arr_error(500, "Could not save the tag."@)),
    }
}

/// How storing changed fields of a tag ended.
pub fn tag_updated(
    ctx: &ConsoleCtx,
    request_id: Uuid,
    tag_id: Uuid,
    fields: &TagFields,
    result: Result<(), TagError>,
) -> (r: Done)
    ensures
        tag_updated_outcome(r, *ctx, request_id, tag_id, *fields, result),
{
    match result {
        Ok(()) => Done::saved(
            AuditEntry::new(ctx.audit_ctx(request_id), "tag.update", "tag", tag_id).with(
                "name",
                text(fields.name.as_str()),
            ).with("kind", opt_text(&fields.kind)),
            list_path(ctx.org().id, "/tags"),
        ),
        Err(TagError::Duplicate) => Done::refused(
            error_page(409, "A tag with this name and kind already exists in this organization."),
        ),
        Err(TagError::Database) => Done::refused(error_page(500, "Could not save the tag.")),
    }
}

/// Whether `r` is what [`plan_delete_tag`] owes its caller.
pub open spec fn plan_delete_tag_outcome(
    r: Result<(), Reply>,
    ctx: ConsoleCtx,
    found: Lookup<Tag>,
) -> bool {
    &&& !ctx.access_of().edits_arrangements() ==> refused(r, ReplyView::SectionForbidden)
    &&& ctx.access_of().edits_arrangements() ==> if is_own_tag(found, ctx.org_of().id) {
        r is Ok
    } else {
        refused(r, arr_error(404, "Tag not found."@))
    }
}

/// Lets a live tag of the organization be deleted.
pub fn plan_delete_tag(ctx: &ConsoleCtx, found: &Lookup<Tag>) -> (r: Result<(), Reply>)
    ensures
        plan_delete_tag_outcome(r, *ctx, *found),
{
    if !ctx.can_edit_arrangements() {
        return Err(Reply::SectionForbidden);
    }
    if tag_belongs_to_org(found, ctx.org().id) {
        Ok(())
    } else {
        Err(error_page(404, "Tag not found."))
    }
}

/// Whether `r` is what [`tag_deleted`] owes its caller.
pub open spec fn tag_deleted_outcome(
    r: Done,
    ctx: ConsoleCtx,
    request_id: Uuid,
    tag_id: Uuid,
) -> bool {
    r.recorded(
        entry(
            ctx.audit_context(request_id),
            "tag.soft_delete"@,
            "tag"@,
            tag_id,
            seq![],
        ),
        goes_to(list_url(ctx.org_of().id, "/tags"@)),
    )
}

/// What is recorded of a deleted tag, and the answer.
pub fn tag_deleted(ctx: &ConsoleCtx, request_id: Uuid, tag_id: Uuid) -> (r: Done)
    ensures
        tag_deleted_outcome(r, *ctx, request_id, tag_id),
{
    Done::saved(
        AuditEntry::new(ctx.audit_ctx(request_id), "tag.soft_delete", "tag", tag_id),
        list_path(ctx.org().id, "/tags"),
    )
}

/// Whether `id` is among the tags `ts`.
pub open spec fn has_tag(ts: Seq<Tag>, id: Uuid) -> bool {
    exists|i: int| 0 <= i < ts.len() && (#[trigger] ts[i]).id == id
}

/// Whether `id` is among the tags `ts`.
pub fn contains_tag(ts: &Vec<Tag>, id: Uuid) -> (r: bool)
    ensures
        r == has_tag(ts@, id),
{
    let mut i: usize = 0;
    while i < ts.len()
        invariant
            i <= ts.len(),
            forall|k: int| 0 <= k < i ==> (#[trigger] ts@[k]).id != id,
        decreases ts.len() - i,
    {
        if ts[i].id == id {
            return true;
        }
        i = i + 1;
    }
    false
}

/// Whether `r` is what [`plan_undelete_tag`] owes its caller.
pub open spec fn plan_undelete_tag_outcome(
    r: Result<(), Reply>,
    ctx: ConsoleCtx,
    tag_id: Uuid,
    deleted: Option<&Vec<Tag>>,
) -> bool {
    &&& !ctx.access_of().edits_arrangements() ==> refused(r, ReplyView::SectionForbidden)
    &&& ctx.access_of().edits_arrangements() ==> if deleted is Some && has_tag(
        deleted->0@,
        tag_id,
    ) {
        r is Ok
    } else {
        refused(r, arr_error(404, "Tag not found."@))
    }
}

/// Lets a tag be restored that is among the organization's deleted ones;
/// `deleted` is `None` where those could not be listed.
pub fn plan_undelete_tag(ctx: &ConsoleCtx, tag_id: Uuid, deleted: Option<&Vec<Tag>>) -> (r: Result<
    (),
    Reply,
>)
    ensures
        plan_undelete_tag_outcome(r, *ctx, tag_id, deleted),
{
    if !ctx.can_edit_arrangements() {
        return Err(Reply::SectionForbidden);
    }
    if let Some(ts) = deleted {
        if contains_tag(ts, tag_id) {
            return Ok(());
        }
    }
    Err(error_page(404, "Tag not found."))
}

/// Whether `r` is what [`tag_undeleted`] owes its caller.
pub open spec fn tag_undeleted_outcome(
    r: Done,
    ctx: ConsoleCtx,
    request_id: Uuid,
    tag_id: Uuid,
) -> bool {
    r.recorded(
        entry(ctx.audit_context(request_id), "tag.undelete"@, "tag"@, tag_id, seq![]),
        goes_to(list_url(ctx.org_of().id, "/tags"@)),
    )
}

/// What is recorded of a restored tag, and the answer.
pub fn tag_undeleted(ctx: &ConsoleCtx, request_id: Uuid, tag_id: Uuid) -> (r: Done)
    ensures
        tag_undeleted_outcome(r, *ctx, request_id, tag_id),
{
    Done::saved(
        AuditEntry::new(ctx.audit_ctx(request_id), "tag.undelete", "tag", tag_id),
        list_path(ctx.org().id, "/tags"),
    )
}

/// Whether `r` is what [`plan_attach_tag`] owes its caller.
pub open spec fn plan_attach_tag_outcome(
    r: Result<Uuid, Reply>,
    ctx: ConsoleCtx,
    arrangement: Lookup<Arrangement>,
    tag_id: Option<String>,
) -> bool {
    &&& !ctx.access_of().edits_arrangements() ==> refused(r, ReplyView::SectionForbidden)
    &&& ctx.access_of().edits_arrangements() ==> if in_org(arrangement, ctx.org_of().id) is Found {
        match chosen_id(text_of(tag_id)) {
            Some(id) => r == Ok::<Uuid, Reply>(id),
            None => refused(r, arr_error(400, "Please choose a tag."@)),
        }
    } else {
        refused(r, arr_error(404, "Arrangement not found."@))
    }
}

/// The tag to put on an arrangement, from the form field.
pub fn plan_attach_tag(
    ctx: &ConsoleCtx,
    arrangement: Lookup<Arrangement>,
    tag_id: &Option<String>,
) -> (r: Result<Uuid, Reply>)
    ensures
        plan_attach_tag_outcome(r, *ctx, arrangement, *tag_id),
{
    match plan_detach_tag(ctx, arrangement) {
        Ok(()) => {},
        Err(reply) => return Err(reply),
    }
    match read_choice(tag_id) {
        Some(id) => Ok(id),
        None => Err(error_page(400, "Please choose a tag.")),
    }
}

/// Whether `r` is what [`require_own_tag`] owes its caller.
pub open spec fn require_own_tag_outcome(
    r: Result<(), Reply>,
    ctx: ConsoleCtx,
    found: Lookup<Tag>,
) -> bool {
    &&& is_own_tag(found, ctx.org_of().id) ==> r is Ok
    &&& !is_own_tag(found, ctx.org_of().id) ==> refused(
        r,
        arr_error(400, "That tag does not exist in this organization."@),
    )
}

/// Lets a tag be attached that the organization has.
pub fn require_own_tag(ctx: &ConsoleCtx, found: &Lookup<Tag>) -> (r: Result<(), Reply>)
    ensures
        require_own_tag_outcome(r, *ctx, *found),
{
    if tag_belongs_to_org(found, ctx.org().id) {
        Ok(())
    } else {
        Err(error_page(400, "That tag does not exist in this organization."))
    }
}

/// Whether `r` is what [`tag_attached`] owes its caller.
pub open spec fn tag_attached_outcome(
    r: Done,
    ctx: ConsoleCtx,
    request_id: Uuid,
    arr_id: Uuid,
    tag_id: Uuid,
    result: Result<(), TagError>,
) -> bool {
    match result {
        Ok(()) => r.recorded(
            entry(
                ctx.audit_context(request_id),
                "arrangement_tag.create"@,
                "arrangement_tag"@,
                arr_id,
                seq![
                    detail("arrangementId"@, FactView::Id(arr_id)),
                    detail("tagId"@, FactView::Id(tag_id)),
                ],
            ),
            goes_to(arrangement_url(ctx.org_of().id, arr_id)),
        ),
        Err(TagError::Duplicate) => r.unrecorded(
            goes_to(arrangement_url(ctx.org_of().id, arr_id)),
        ),
        Err(TagError::Database) => r.unrecorded(arr_error(500, "Could not attach the tag."@)),
    }
}

/// How putting a tag on an arrangement ended. One that is on it already is
/// fine, and nothing is recorded then.
pub fn tag_attached(
    ctx: &ConsoleCtx,
    request_id: Uuid,
    arr_id: Uuid,
    tag_id: Uuid,
    result: Result<(), TagError>,
) -> (r: Done)
    ensures
        tag_attached_outcome(r, *ctx, request_id, arr_id, tag_id, result),
{
    match result {
        Ok(()) => Done::saved(
            AuditEntry::new(
                ctx.audit_ctx(request_id),
                "arrangement_tag.create",
                "arrangement_tag",
                arr_id,
            ).with("arrangementId", Fact::Id(arr_id)).with("tagId", Fact::Id(tag_id)),
            arrangement_path(ctx.org().id, arr_id),
        ),
        Err(TagError::Duplicate) => Done::refused(
            Reply::Redirect { to: arrangement_path(ctx.org().id, arr_id) },
        ),
        Err(TagError::Database) => Done::refused(error_page(500, "Could not attach the tag.")),
    }
}

/// Whether `r` is what [`plan_detach_tag`] owes its caller.
pub open spec fn plan_detach_tag_outcome(
    r: Result<(), Reply>,
    ctx: ConsoleCtx,
    arrangement: Lookup<Arrangement>,
) -> bool {
    &&& !ctx.access_of().edits_arrangements() ==> refused(r, ReplyView::SectionForbidden)
    &&& ctx.access_of().edits_arrangements() ==> if in_org(arrangement, ctx.org_of().id) is Found {
        r is Ok
    } else {
        refused(r, arr_error(404, "Arrangement not found."@))
    }
}

/// Lets a tag be taken off an arrangement of the organization.
pub fn plan_detach_tag(ctx: &ConsoleCtx, arrangement: Lookup<Arrangement>) -> (r: Result<(), Reply>)
    ensures
        plan_detach_tag_outcome(r, *ctx, arrangement),
{
    if !ctx.can_edit_arrangements() {
        return Err(Reply::SectionForbidden);
    }
    match scoped_arrangement(arrangement, ctx.org().id) {
        Lookup::Found(_) => Ok(()),
        _ => Err(error_page(404, "Arrangement not found.")),
    }
}

/// Whether `r` is what [`tag_detached`] owes its caller.
pub open spec fn tag_detached_outcome(
    r: Done,
    ctx: ConsoleCtx,
    request_id: Uuid,
    arr_id: Uuid,
    tag_id: Uuid,
) -> bool {
    r.recorded(
        entry(
            ctx.audit_context(request_id),
            "arrangement_tag.delete"@,
            "arrangement_tag"@,
            arr_id,
            seq![
                detail("arrangementId"@, FactView::Id(arr_id)),
                detail("tagId"@, FactView::Id(tag_id)),
            ],
        ),
        goes_to(arrangement_url(ctx.org_of().id, arr_id)),
    )
}

/// What is recorded of a tag that was taken off, and the answer.
pub fn tag_detached(ctx: &ConsoleCtx, request_id: Uuid, arr_id: Uuid, tag_id: Uuid) -> (r: Done)
    ensures
        tag_detached_outcome(r, *ctx, request_id, arr_id, tag_id),
{
    Done::saved(
        AuditEntry::new(
            ctx.audit_ctx(request_id),
            "arrangement_tag.delete",
            "arrangement_tag",
            arr_id,
        ).with("arrangementId", Fact::Id(arr_id)).with("tagId", Fact::Id(tag_id)),
        arrangement_path(ctx.org().id, arr_id),
    )
}

/// Adding a tag is on record, with its name and kind, exactly where it took place.
pub proof fn a_new_tag_is_on_record(
    r: Done,
    ctx: ConsoleCtx,
    request_id: Uuid,
    result: Result<Tag, TagError>,
)
    requires
        tag_created_outcome(r, ctx, request_id, result),
    ensures
        result matches Ok(t) ==> {
            &&& r.names(
                ctx.user_of().id,
                ctx.org_of().id,
                request_id,
                "tag.create"@,
                t.id,
            )
            &&& r.tells("name"@, FactView::Text(t.name@))
            &&& r.moves_on_to(list_url(ctx.org_of().id, "/tags"@))
        },
        result matches Ok(t) && t.kind is Some
            ==> r.tells("kind"@, FactView::Text(result->Ok_0.kind->0@)),
        result matches Ok(t) && t.kind is None ==> r.tells("kind"@, FactView::Nothing),
        result is Err ==> r.fell_through(),
{
    broadcast use vstd::seq_lib::group_seq_properties;

}

/// Changing a tag is on record, with its new name and kind, exactly where it took
/// place.
pub proof fn a_changed_tag_is_on_record(
    r: Done,
    ctx: ConsoleCtx,
    request_id: Uuid,
    tag_id: Uuid,
    fields: TagFields,
    result: Result<(), TagError>,
)
    requires
        tag_updated_outcome(r, ctx, request_id, tag_id, fields, result),
    ensures
        result is Ok ==> {
            &&& r.names(
                ctx.user_of().id,
                ctx.org_of().id,
                request_id,
                "tag.update"@,
                tag_id,
            )
            &&& r.tells("name"@, FactView::Text(fields.name@))
            &&& r.moves_on_to(list_url(ctx.org_of().id, "/tags"@))
        },
        result is Ok && fields.kind is Some ==> r.tells(
            "kind"@,
            FactView::Text(fields.kind->0@),
        ),
        result is Ok && fields.kind is None ==> r.tells("kind"@, FactView::Nothing),
        result is Err ==> r.fell_through(),
{
    broadcast use vstd::seq_lib::group_seq_properties;

}

/// Deleting a tag is on record.
pub proof fn a_deleted_tag_is_on_record(r: Done, ctx: ConsoleCtx, request_id: Uuid, tag_id: Uuid)
    requires
        tag_deleted_outcome(r, ctx, request_id, tag_id),
    ensures
        r.names(
            ctx.user_of().id,
            ctx.org_of().id,
            request_id,
            "tag.soft_delete"@,
            tag_id,
        ),
        r.moves_on_to(list_url(ctx.org_of().id, "/tags"@)),
{
    broadcast use vstd::seq_lib::group_seq_properties;

}

/// Restoring a tag is on record.
pub proof fn a_restored_tag_is_on_record(r: Done, ctx: ConsoleCtx, request_id: Uuid, tag_id: Uuid)
    requires
        tag_undeleted_outcome(r, ctx, request_id, tag_id),
    ensures
        r.names(
            ctx.user_of().id,
            ctx.org_of().id,
            request_id,
            "tag.undelete"@,
            tag_id,
        ),
        r.moves_on_to(list_url(ctx.org_of().id, "/tags"@)),
{
    broadcast use vstd::seq_lib::group_seq_properties;

}

/// Putting a tag on an arrangement is on record, with both, exactly where it took
/// place; that it was there already is no error.
pub proof fn an_attached_tag_is_on_record(
    r: Done,
    ctx: ConsoleCtx,
    request_id: Uuid,
    arr_id: Uuid,
    tag_id: Uuid,
    result: Result<(), TagError>,
)
    requires
        tag_attached_outcome(r, ctx, request_id, arr_id, tag_id, result),
    ensures
        result is Ok ==> {
            &&& r.names(
                ctx.user_of().id,
                ctx.org_of().id,
                request_id,
                "arrangement_tag.create"@,
                arr_id,
            )
            &&& r.tells("arrangementId"@, FactView::Id(arr_id))
            &&& r.tells("tagId"@, FactView::Id(tag_id))
            &&& r.moves_on_to(arrangement_url(ctx.org_of().id, arr_id))
        },
        result is Err ==> r.audit is None,
        result matches Err(TagError::Duplicate) ==> r.moves_on_to(
            arrangement_url(ctx.org_of().id, arr_id),
        ),
        result matches Err(TagError::Database) ==> r.fell_through(),
{
    broadcast use vstd::seq_lib::group_seq_properties;

}

/// Taking a tag off an arrangement is on record, with both.
pub proof fn a_detached_tag_is_on_record(
    r: Done,
    ctx: ConsoleCtx,
    request_id: Uuid,
    arr_id: Uuid,
    tag_id: Uuid,
)
    requires
        tag_detached_outcome(r, ctx, request_id, arr_id, tag_id),
    ensures
        r.names(
            ctx.user_of().id,
            ctx.org_of().id,
            request_id,
            "arrangement_tag.delete"@,
            arr_id,
        ),
        r.tells("arrangementId"@, FactView::Id(arr_id)),
        r.tells("tagId"@, FactView::Id(tag_id)),
        r.moves_on_to(arrangement_url(ctx.org_of().id, arr_id)),
{
    broadcast use vstd::seq_lib::group_seq_properties;

}

/// A tag gets the name and the kind that were typed.
pub proof fn a_tag_is_what_the_form_says(form: TagForm, r: Result<TagFields, Reply>)
    requires
        form.leads_to(r),
    ensures
        r is Ok <==> form.name is Some && trimmed(form.name->0@).len() > 0,
        r is Ok ==> r->Ok_0.name@ == trimmed(form.name->0@),
        r is Ok ==> was_typed(r->Ok_0.kind, form.kind),
        r is Err ==> r->Err_0@.status() == 400,
{
}

/// Those who may edit change the tags of their organization to what the form
/// says, and no others.
pub proof fn own_tags_are_changed(
    r: Result<TagFields, Reply>,
    ctx: ConsoleCtx,
    found: Lookup<Tag>,
    form: TagForm,
)
    requires
        plan_update_tag_outcome(r, ctx, found, form),
    ensures
        r is Ok ==> ctx.access_of().edits_arrangements() && (found matches Lookup::Found(t)
            && t.organization_id
            == ctx.org_of().id) && form.leads_to(r),
        !ctx.access_of().edits_arrangements() ==> r is Err && r->Err_0@.status() == 403,
        ctx.access_of().edits_arrangements() && !(found matches Lookup::Found(t)
            && t.organization_id
            == ctx.org_of().id) ==> r is Err && r->Err_0@.status() == 404,
        ctx.access_of().edits_arrangements() && (found matches Lookup::Found(t) && t.organization_id
            == ctx.org_of().id) ==> form.leads_to(r),
{
}

/// Those who may edit delete the tags of their organization, and no others.
pub proof fn own_tags_are_deleted(r: Result<(), Reply>, ctx: ConsoleCtx, found: Lookup<Tag>)
    requires
        plan_delete_tag_outcome(r, ctx, found),
    ensures
        r is Ok <==> ctx.access_of().edits_arrangements() && (found matches Lookup::Found(t)
            && t.organization_id
            == ctx.org_of().id),
        !ctx.access_of().edits_arrangements() ==> r->Err_0@.status() == 403,
        ctx.access_of().edits_arrangements() && r is Err ==> r->Err_0@.status() == 404,
{
}

/// Those who may edit restore the tags that were deleted, and no others.
pub proof fn deleted_tags_are_restored(
    r: Result<(), Reply>,
    ctx: ConsoleCtx,
    tag_id: Uuid,
    deleted: Option<&Vec<Tag>>,
)
    requires
        plan_undelete_tag_outcome(r, ctx, tag_id, deleted),
    ensures
        r is Ok <==> ctx.access_of().edits_arrangements() && deleted is Some && exists|i: int|
            0 <= i < deleted->0@.len() && (#[trigger] deleted->0@[i]).id == tag_id,
        !ctx.access_of().edits_arrangements() ==> r->Err_0@.status() == 403,
        ctx.access_of().edits_arrangements() && r is Err ==> r->Err_0@.status() == 404,
{
}

/// Those who may edit put the tag that they chose on an arrangement of their
/// organization.
pub proof fn the_chosen_tag_is_attached(
    r: Result<Uuid, Reply>,
    ctx: ConsoleCtx,
    arrangement: Lookup<Arrangement>,
    tag_id: Option<String>,
)
    requires
        plan_attach_tag_outcome(r, ctx, arrangement, tag_id),
    ensures
        r is Ok ==> ctx.access_of().edits_arrangements() && (arrangement matches Lookup::Found(a)
            && a.organization_id == ctx.org_of().id),
        r is Ok ==> tag_id is Some && read_uuid(trimmed(tag_id->0@)) == Some(r->Ok_0),
        ctx.access_of().edits_arrangements() && (arrangement matches Lookup::Found(a)
            && a.organization_id
            == ctx.org_of().id) && tag_id is Some && trimmed(tag_id->0@).len() > 0 && read_uuid(
            trimmed(tag_id->0@),
        ) is Some ==> r is Ok,
        !ctx.access_of().edits_arrangements() ==> r is Err && r->Err_0@.status() == 403,
{
}

/// Only a tag of the organization itself can be put on an arrangement.
pub proof fn no_foreign_tag_is_attached(r: Result<(), Reply>, ctx: ConsoleCtx, found: Lookup<Tag>)
    requires
        require_own_tag_outcome(r, ctx, found),
    ensures
        r is Ok <==> (found matches Lookup::Found(t) && t.organization_id == ctx.org_of().id),
        r is Err ==> r->Err_0@.status() == 400,
{
}

/// Those who may edit take tags off the arrangements of their organization.
pub proof fn tags_come_off_own_arrangements(
    r: Result<(), Reply>,
    ctx: ConsoleCtx,
    arrangement: Lookup<Arrangement>,
)
    requires
        plan_detach_tag_outcome(r, ctx, arrangement),
    ensures
        r is Ok <==> ctx.access_of().edits_arrangements() && (arrangement matches Lookup::Found(a)
            && a.organization_id == ctx.org_of().id),
{
}

/// The tag screen shows each tag by its name and kind, with actions of its own;
/// deleted tags are shown to those who can restore them.
pub proof fn the_tag_screen_shows_each_tag(
    page: TagsPage,
    ctx: ConsoleCtx,
    listed: &Vec<Tag>,
    deleted: Vec<Tag>,
)
    requires
        tags_page_outcome(Ok::<TagsPage, Reply>(page), ctx, Some(listed), deleted),
    ensures
        page.can_edit <==> ctx.access_of().edits_arrangements(),
        page.rows@.len() == listed@.len(),
        page.deleted@.len() == (if ctx.access_of().edits_arrangements() {
            deleted@.len()
        } else {
            0
        }),
        forall|i: int|
            0 <= i < listed@.len() ==> {
                let (row, t) = (#[trigger] page.rows@[i], listed@[i]);
                &&& row.name@ == t.name@
                &&& t.kind is Some ==> row.kind@ == t.kind->0@
                &&& t.kind is None ==> row.kind@.len() == 0
                &&& row.save_action@ == row_url(ctx.org_of().id, "/tags"@, t.id)
                &&& row.delete_action@ == row_url(ctx.org_of().id, "/tags"@, t.id) + "/delete"@
            },
        forall|i: int|
            0 <= i < page.deleted@.len() ==> {
                let (row, t) = (#[trigger] page.deleted@[i], deleted@[i]);
                &&& row.name@ == t.name@
                &&& row.restore_action@ == row_url(ctx.org_of().id, "/tags"@, t.id) + "/undelete"@
            },
        page.create_action@ == list_url(ctx.org_of().id, "/tags"@),
{
    assert forall|i: int| 0 <= i < listed@.len() implies shows_tag(
        #[trigger] page.rows@[i],
        listed@[i],
        ctx.org_of().id,
    ) by {}
}

/// Saving a tag as it is shown changes nothing.
pub proof fn saving_an_unchanged_tag_changes_nothing(
    row: TagRow,
    t: Tag,
    org: Uuid,
    form: TagForm,
    r: Result<TagFields, Reply>,
)
    requires
        shows_tag(row, t, org),
        bare(t.name@),
        t.kind is Some ==> bare(t.kind->0@),
        text_of(form.name) == Some(row.name@),
        text_of(form.kind) == Some(row.kind@),
        form.leads_to(r),
    ensures
        r is Ok && r->Ok_0.name@ == t.name@,
        text_of(r->Ok_0.kind) == text_of(t.kind),
{
    bare_text_is_taken_in_as_it_stands(t.name@);
    bare_text_is_taken_in_as_it_stands(row.kind@);
}

/// Staff see the tags, unless they could not be listed; nobody else does.
pub proof fn staff_see_the_tags(
    r: Result<TagsPage, Reply>,
    ctx: ConsoleCtx,
    listed: Option<&Vec<Tag>>,
    deleted: Vec<Tag>,
)
    requires
        tags_page_outcome(r, ctx, listed, deleted),
    ensures
        r is Ok <==> ctx.access_of().staff() && listed is Some,
        !ctx.access_of().staff() ==> r->Err_0@.status() == 403,
        ctx.access_of().staff() && listed is None ==> r->Err_0@.status() == 500,
        r is Ok ==> r->Ok_0.back@ == list_url(ctx.org_of().id, "/arrangements"@),
{
}

/// Those who may edit add what the form says, everyone else is turned away.
pub proof fn editors_add_tags(r: Result<TagFields, Reply>, ctx: ConsoleCtx, form: TagForm)
    requires
        plan_create_tag_outcome(r, ctx, form),
    ensures
        ctx.access_of().edits_arrangements() ==> form.leads_to(r),
        !ctx.access_of().edits_arrangements() ==> r is Err && r->Err_0@.status() == 403,
{
}

} // verus!
