//! The console's collection screens: programs, standing collections and the
//! pieces in them.

use vstd::prelude::*;
use crate::arrangements::{in_org, scoped_arrangement};
use crate::audit::{detail, entry, ids, text, AuditEntry, Fact, FactView};
use crate::console::{ConsoleCtx, Section};
use crate::form::{
    all_ids, all_values, collected_values_were_submitted, comes_first, field, first_value, multi,
    parse_ids, the_earliest_value_counts,
};
use crate::id::{read_uuid, Uuid};
use crate::listing::{check_if_match, etag, names_version};
use crate::lists::take_all;
use crate::model::{Arrangement, Collection, CollectionItem, ItemView, Lookup};
use crate::number::{decimal, int_text, read_i32, read_int, text_reads_back};
use crate::reorder::{a_move_keeps_the_pieces, apply_move, is_moved, move_of, swapped};
use crate::reply::{
    error_at, goes_to, refused, require_found, row_found, settle, Done, Reply, ReplyView,
};
use crate::text::{
    bare_text_is_taken_in_as_it_stands, blank_to_none, entered, is_white_space, same, text_of, trim,
    trimmed,
};
use crate::urls::{list_path, list_url, row_path, row_url};

verus! {

/// The highest piece number.
pub const MAX_INDEX: i32 = 999_999;

/// The kinds of collection.
pub open spec fn is_collection_type(t: Seq<char>) -> bool {
    t == "program"@ || t == "standing"@
}

/// Whether `value` is a kind of collection.
pub fn is_valid_type(value: &str) -> (r: bool)
    ensures
        r == is_collection_type(value@),
{
    same(value, "program") || same(value, "standing")
}

/// Whether `n` can number a piece.
pub fn is_valid_index(n: i32) -> (r: bool)
    ensures
        r == (1 <= n <= MAX_INDEX),
{
    1 <= n && n <= MAX_INDEX
}

/// The kind of collection that a form names.
pub open spec fn entered_type(raw: Option<Seq<char>>) -> Option<Seq<char>> {
    match entered(raw) {
        Some(t) => if is_collection_type(t) {
            Some(t)
        } else {
            None
        },
        None => None,
    }
}

/// The kind of collection that a form names.
pub fn parse_type(raw: &Option<String>) -> (r: Option<String>)
    ensures
        text_of(r) == entered_type(text_of(*raw)),
{
    match blank_to_none(raw) {
        Some(value) => {
            if is_valid_type(value.as_str()) {
                Some(value)
            } else {
                None
            }
        },
        None => None,
    }
}

/// The collection, unless it belongs to another organization.
pub open spec fn collection_in_org(found: Lookup<Collection>, org: Uuid) -> Lookup<Collection> {
    match found {
        Lookup::Found(c) => if c.organization_id == org {
            found
        } else {
            Lookup::Missing
        },
        _ => found,
    }
}

/// The collection, unless it belongs to another organization.
pub fn scoped_collection(found: Lookup<Collection>, org: Uuid) -> (r: Lookup<Collection>)
    ensures
        r == collection_in_org(found, org),
{
    match found {
        Lookup::Found(c) => {
            if c.organization_id == org {
                Lookup::Found(c)
            } else {
                Lookup::Missing
            }
        },
        Lookup::Missing => Lookup::Missing,
        Lookup::Failed => Lookup::Failed,
    }
}

/// The piece, unless it belongs to another collection.
pub open spec fn item_in_collection(found: Lookup<CollectionItem>, collection: Uuid) -> Lookup<
    CollectionItem,
> {
    match found {
        Lookup::Found(i) => if i.collection_id == collection {
            found
        } else {
            Lookup::Missing
        },
        _ => found,
    }
}

/// The piece, unless it belongs to another collection.
pub fn scoped_item(found: Lookup<CollectionItem>, collection: Uuid) -> (r: Lookup<CollectionItem>)
    ensures
        r == item_in_collection(found, collection),
{
    match found {
        Lookup::Found(i) => {
            if i.collection_id == collection {
                Lookup::Found(i)
            } else {
                Lookup::Missing
            }
        },
        Lookup::Missing => Lookup::Missing,
        Lookup::Failed => Lookup::Failed,
    }
}

/// A collection of another organization, and a piece of another collection,
/// cannot be told from ones that do not exist.
pub proof fn foreign_collections_look_missing(
    c: Collection,
    i: CollectionItem,
    org: Uuid,
    collection: Uuid,
)
    ensures
        c.organization_id != org ==> collection_in_org(Lookup::Found(c), org) == Lookup::<
            Collection,
        >::Missing,
        i.collection_id != collection ==> item_in_collection(Lookup::Found(i), collection)
            == Lookup::<CollectionItem>::Missing,
{
}

/// An error page of the collections section.
pub open spec fn col_error(status: u16, message: Seq<char>) -> ReplyView {
    error_at(Section::Collections, status, message)
}

/// An error page of the collections section.
pub fn error_page(status: u16, message: &str) -> (r: Reply)
    ensures
        r@ == col_error(status, message@),
{
    Reply::error_page(Section::Collections, status, message)
}

/// The page of a collection.
pub open spec fn collection_url(org: Uuid, collection: Uuid) -> Seq<char> {
    row_url(org, "/collections"@, collection)
}

/// The page of a collection.
pub fn detail_url(org: Uuid, collection: Uuid) -> (r: String)
    ensures
        r@ == collection_url(org, collection),
{
    row_path(org, "/collections", collection)
}

/// Whether `r` is what comes of opening a collection: those who build
/// collections may, where it belongs to their organization.
pub open spec fn collection_opened(
    r: Result<Collection, Reply>,
    ctx: ConsoleCtx,
    found: Lookup<Collection>,
) -> bool {
    if !ctx.access_of().builds_collections() {
        refused(r, ReplyView::SectionForbidden)
    } else {
        row_found(
            r,
            collection_in_org(found, ctx.org_of().id),
            Section::Collections,
            "Collection not found."@,
        )
    }
}

/// Opens a collection. There is no read-only tier: who may see it may edit it.
pub fn enter_collection(ctx: &ConsoleCtx, found: Lookup<Collection>) -> (r: Result<
    Collection,
    Reply,
>)
    ensures
        collection_opened(r, *ctx, found),
{
    if !ctx.can_build_collections() {
        return Err(Reply::SectionForbidden);
    }
    require_found(
        scoped_collection(found, ctx.org().id),
        Section::Collections,
        "Collection not found.",
    )
}

/// The collection form as it was submitted.
pub struct CollectionForm {
    pub name: Option<String>,
    pub collection_type: Option<String>,
    pub expected_version: Option<String>,
}

/// The fields of a collection.
pub struct CollectionFields {
    pub name: String,
    pub collection_type: String,
}

/// Why a collection was not stored.
pub enum CollectionError {
    DuplicateSlug,
    Database,
}

impl CollectionForm {
    /// What a collection form leads to.
    pub open spec fn leads_to(self, r: Result<CollectionFields, Reply>) -> bool {
        match entered(text_of(self.name)) {
            None => refused(r, col_error(400, "Collection name must not be empty."@)),
            Some(name) => match entered_type(text_of(self.collection_type)) {
                None => refused(
                    r,
                    col_error(400, "Choose a collection type: program or standing."@),
                ),
                Some(t) => r is Ok && r->Ok_0.name@ == name && r->Ok_0.collection_type@ == t,
            },
        }
    }

    fn fields(&self) -> (r: Result<CollectionFields, Reply>)
        ensures
            self.leads_to(r),
    {
        let name: String = match blank_to_none(&self.name) {
            Some(name) => name,
            None => return Err(error_page(400, "Collection name must not be empty.")),
        };
        match parse_type(&self.collection_type) {
            Some(collection_type) => Ok(CollectionFields { name, collection_type }),
            None => Err(error_page(400, "Choose a collection type: program or standing.")),
        }
    }
}

/// Whether `r` is what [`plan_create_collection`] owes its caller.
pub open spec fn plan_create_collection_outcome(
    r: Result<CollectionFields, Reply>,
    ctx: ConsoleCtx,
    form: CollectionForm,
) -> bool {
    &&& !ctx.access_of().builds_collections() ==> refused(r, ReplyView::SectionForbidden)
    &&& ctx.access_of().builds_collections() ==> form.leads_to(r)
}

/// The fields of a new collection, from the form.
pub fn plan_create_collection(ctx: &ConsoleCtx, form: &CollectionForm) -> (r: Result<
    CollectionFields,
    Reply,
>)
    ensures
        plan_create_collection_outcome(r, *ctx, *form),
{
    if !ctx.can_build_collections() {
        return Err(Reply::SectionForbidden);
    }
    form.fields()
}

/// Whether `r` is what [`collection_created`] owes its caller.
pub open spec fn collection_created_outcome(
    r: Done,
    ctx: ConsoleCtx,
    request_id: Uuid,
    result: Result<Collection, CollectionError>,
) -> bool {
    match result {
        Ok(c) => r.recorded(
            entry(
                ctx.audit_context(request_id),
                "collection.create"@,
                "collection"@,
                c.id,
                seq![
                    detail("name"@, FactView::Text(c.name@)),
                    detail("slug"@, FactView::Text(c.slug@)),
                    detail("type"@, FactView::Text(c.collection_type@)),
                ],
            ),
            goes_to(collection_url(ctx.org_of().id, c.id)),
        ),
        Err(CollectionError::DuplicateSlug) => r.unrecorded(
            col_error(
                409,
                "A collection with this slug already exists in this organization."@,
            ),
        ),
        Err(CollectionError::Database) => r.unrecorded(
            col_error(500, "Could not create the collection."@),
        ),
    }
}

/// How storing a new collection ended.
pub fn collection_created(
    ctx: &ConsoleCtx,
    request_id: Uuid,
    result: Result<Collection, CollectionError>,
) -> (r: Done)
    ensures
        collection_created_outcome(r, *ctx, request_id, result),
{
    match result {
        Ok(c) => Done::saved(
            AuditEntry::new(
                ctx.audit_ctx(request_id),
                "collection.create",
                "collection",
                c.id,
            ).with("name", text(c.name.as_str())).with("slug", text(c.slug.as_str())).with(
                "type",
                text(c.collection_type.as_str()),
            ),
            detail_url(ctx.org().id, c.id),
        ),
        Err(CollectionError::DuplicateSlug) => Done::refused(
            error_page(409, "A collection with this slug already exists in this organization."),
        ),
        Err(CollectionError::Database) => Done::refused(
            error_page(500, "Could not create the collection."),
        ),
    }
}

/// The version that a form field names.
pub fn version_named(field: &Option<String>, updated_at: i64) -> (r: bool)
    ensures
        r == names_version(text_of(*field), updated_at),
{
    let named: Option<&str> = match field {
        Some(s) => Some(s.as_str()),
        None => None,
    };
    check_if_match(named, updated_at).is_ok()
}

/// Whether `r` is what [`plan_update_collection`] owes its caller.
pub open spec fn plan_update_collection_outcome(
    r: Result<CollectionFields, Reply>,
    ctx: ConsoleCtx,
    collection_id: Uuid,
    found: Lookup<Collection>,
    form: CollectionForm,
) -> bool {
    match collection_in_org(found, ctx.org_of().id) {
        Lookup::Found(c) if ctx.access_of().builds_collections() => if !names_version(
            text_of(form.expected_version),
            c.updated_at.millis,
        ) {
            refused(
                r,
                ReplyView::Stale {
                    section: Section::Collections,
                    entity: "collection"@,
                    back: collection_url(ctx.org_of().id, collection_id),
                },
            )
        } else {
            form.leads_to(r)
        },
        _ => r is Err && collection_opened(
            Err::<Collection, Reply>(r->Err_0),
            ctx,
            found,
        ),
    }
}

/// The new fields of a collection, from the form. The row must be the one that
/// the form was opened on, unchanged since.
pub fn plan_update_collection(
    ctx: &ConsoleCtx,
    collection_id: Uuid,
    found: Lookup<Collection>,
    form: &CollectionForm,
) -> (r: Result<CollectionFields, Reply>)
    ensures
        plan_update_collection_outcome(r, *ctx, collection_id, found, *form),
{
    let current: Collection = match enter_collection(ctx, found) {
        Ok(c) => c,
        Err(reply) => return Err(reply),
    };
    if !version_named(&form.expected_version, current.updated_at.millis) {
        return Err(
            Reply::precondition_page(
                Section::Collections,
                "collection",
                detail_url(ctx.org().id, collection_id),
            ),
        );
    }
    form.fields()
}

/// Whether `r` is what [`collection_updated`] owes its caller.
pub open spec fn collection_updated_outcome(
    r: Done,
    ctx: ConsoleCtx,
    request_id: Uuid,
    collection_id: Uuid,
    fields: CollectionFields,
    result: Result<bool, CollectionError>,
) -> bool {
    match result {
        Ok(true) => r.recorded(
            entry(
                ctx.audit_context(request_id),
                "collection.update"@,
                "collection"@,
                collection_id,
                seq![
                    detail("name"@, FactView::Text(fields.name@)),
                    detail("type"@, FactView::Text(fields.collection_type@)),
                ],
            ),
            goes_to(collection_url(ctx.org_of().id, collection_id)),
        ),
        Ok(false) => r.unrecorded(col_error(404, "Collection not found."@)),
        Err(CollectionError::DuplicateSlug) => r.unrecorded(
            col_error(
                409,
                "A collection with this slug already exists in this organization."@,
            ),
        ),
        Err(CollectionError::Database) => r.unrecorded(
            col_error(500, "Could not save the collection."@),
        ),
    }
}

/// How storing changed fields of a collection ended. `Ok(false)` where the row
/// was gone by then.
pub fn collection_updated(
    ctx: &ConsoleCtx,
    request_id: Uuid,
    collection_id: Uuid,
    fields: &CollectionFields,
    result: Result<bool, CollectionError>,
) -> (r: Done)
    ensures
        collection_updated_outcome(r, *ctx, request_id, collection_id, *fields, result),
{
    match result {
        Ok(true) => Done::saved(
            AuditEntry::new(
                ctx.audit_ctx(request_id),
                "collection.update",
                "collection",
                collection_id,
            ).with("name", text(fields.name.as_str())).with(
                "type",
                text(fields.collection_type.as_str()),
            ),
            detail_url(ctx.org().id, collection_id),
        ),
        Ok(false) => Done::refused(error_page(404, "Collection not found.")),
        Err(CollectionError::DuplicateSlug) => Done::refused(
            error_page(409, "A collection with this slug already exists in this organization."),
        ),
        Err(CollectionError::Database) => Done::refused(
            error_page(500, "Could not save the collection."),
        ),
    }
}

/// Whether `r` is what [`collection_deleted`] owes its caller.
pub open spec fn collection_deleted_outcome(
    r: Done,
    ctx: ConsoleCtx,
    request_id: Uuid,
    collection_id: Uuid,
    result: Option<bool>,
) -> bool {
    match result {
        Some(true) => r.recorded(
            entry(
                ctx.audit_context(request_id),
                "collection.soft_delete"@,
                "collection"@,
                collection_id,
                seq![],
            ),
            goes_to(list_url(ctx.org_of().id, "/collections"@)),
        ),
        Some(false) => r.unrecorded(goes_to(list_url(ctx.org_of().id, "/collections"@))),
        None => r.unrecorded(col_error(500, "Could not delete the collection."@)),
    }
}

/// How deleting a collection ended. `Some(false)` where it was deleted already:
/// nothing happened then, and nothing is recorded.
pub fn collection_deleted(
    ctx: &ConsoleCtx,
    request_id: Uuid,
    collection_id: Uuid,
    result: Option<bool>,
) -> (r: Done)
    ensures
        collection_deleted_outcome(r, *ctx, request_id, collection_id, result),
{
    match result {
        Some(true) => Done::saved(
            AuditEntry::new(
                ctx.audit_ctx(request_id),
                "collection.soft_delete",
                "collection",
                collection_id,
            ),
            list_path(ctx.org().id, "/collections"),
        ),
        Some(false) => Done::refused(
            Reply::Redirect { to: list_path(ctx.org().id, "/collections") },
        ),
        None => Done::refused(error_page(500, "Could not delete the collection.")),
    }
}

/// Whether `r` is what [`collection_undeleted`] owes its caller.
pub open spec fn collection_undeleted_outcome(
    r: Done,
    ctx: ConsoleCtx,
    request_id: Uuid,
    collection_id: Uuid,
    result: Result<(), CollectionError>,
) -> bool {
    match result {
        Ok(()) => r.recorded(
            entry(
                ctx.audit_context(request_id),
                "collection.undelete"@,
                "collection"@,
                collection_id,
                seq![],
            ),
            goes_to(collection_url(ctx.org_of().id, collection_id)),
        ),
        Err(CollectionError::DuplicateSlug) => r.unrecorded(
            col_error(
                409,
                "A live collection already holds that slug — rename it before restoring this one."@,
            ),
        ),
        Err(CollectionError::Database) => r.unrecorded(
            col_error(500, "Could not restore the collection."@),
        ),
    }
}

/// How restoring a collection ended.
pub fn collection_undeleted(
    ctx: &ConsoleCtx,
    request_id: Uuid,
    collection_id: Uuid,
    result: Result<(), CollectionError>,
) -> (r: Done)
    ensures
        collection_undeleted_outcome(r, *ctx, request_id, collection_id, result),
{
    match result {
        Ok(()) => Done::saved(
            AuditEntry::new(
                ctx.audit_ctx(request_id),
                "collection.undelete",
                "collection",
                collection_id,
            ),
            detail_url(ctx.org().id, collection_id),
        ),
        Err(CollectionError::DuplicateSlug) => Done::refused(
            error_page(
                409,
                "A live collection already holds that slug — rename it before restoring this one.",
            ),
        ),
        Err(CollectionError::Database) => Done::refused(
            error_page(500, "Could not restore the collection."),
        ),
    }
}

/// Why a piece was not stored.
pub enum ItemError {
    DuplicateIndex,
    UnknownReference,
    InvalidReorder,
    Database,
}

/// The identifier submitted under `key`.
pub open spec fn submitted_id(pairs: Seq<(String, String)>, key: Seq<char>) -> Option<Uuid> {
    match first_value(pairs, key) {
        Some(v) => read_uuid(v),
        None => None,
    }
}

/// The identifier submitted under `key`.
pub fn read_submitted_id(pairs: &Vec<(String, String)>, key: &str) -> (r: Option<Uuid>)
    ensures
        r == submitted_id(pairs@, key@),
{
    match field(pairs, key) {
        Some(v) => Uuid::parse_str(v),
        None => None,
    }
}

/// The text submitted under `key`, trimmed, unless that leaves nothing.
pub open spec fn submitted_text(pairs: Seq<(String, String)>, key: Seq<char>) -> Option<Seq<char>> {
    entered(first_value(pairs, key))
}

/// The text submitted under `key`, trimmed, unless that leaves nothing.
pub fn read_submitted_text<'a>(pairs: &'a Vec<(String, String)>, key: &str) -> (r: Option<&'a str>)
    ensures
        match r {
            Some(t) => submitted_text(pairs@, key@) == Some(t@),
            None => submitted_text(pairs@, key@) is None,
        },
{
    match field(pairs, key) {
        Some(v) => {
            let t: &str = trim(v);
            if t.is_empty() {
                None
            } else {
                Some(t)
            }
        },
        None => None,
    }
}

/// Whether `r` is what [`plan_add_item`] owes its caller.
pub open spec fn plan_add_item_outcome(
    r: Result<Uuid, Reply>,
    ctx: ConsoleCtx,
    found: Lookup<Collection>,
    pairs: Vec<(String, String)>,
) -> bool {
    match collection_in_org(found, ctx.org_of().id) {
        Lookup::Found(_) if ctx.access_of().builds_collections() => match submitted_id(
            pairs@,
            "arrangement_id"@,
        ) {
            Some(id) => r == Ok::<Uuid, Reply>(id),
            None => refused(r, col_error(400, "Choose an arrangement."@)),
        },
        _ => r is Err && collection_opened(
            Err::<Collection, Reply>(r->Err_0),
            ctx,
            found,
        ),
    }
}

/// The arrangement to add to a collection, from the form.
pub fn plan_add_item(
    ctx: &ConsoleCtx,
    found: Lookup<Collection>,
    pairs: &Vec<(String, String)>,
) -> (r: Result<Uuid, Reply>)
    ensures
        plan_add_item_outcome(r, *ctx, found, *pairs),
{
    if let Err(reply) = enter_collection(ctx, found) {
        return Err(reply);
    }
    match read_submitted_id(pairs, "arrangement_id") {
        Some(id) => Ok(id),
        None => Err(error_page(400, "Choose an arrangement.")),
    }
}

/// The complaint about a piece number.
pub open spec fn bad_index() -> ReplyView {
    col_error(
        400,
        "The piece number must be a whole number between 1 and "@ + int_text(MAX_INDEX as int)
            + "."@,
    )
}

/// Whether `r` is what [`plan_item_index`] owes its caller.
pub open spec fn plan_item_index_outcome(
    r: Result<Option<i32>, Reply>,
    ctx: ConsoleCtx,
    arrangement: Lookup<Arrangement>,
    pairs: Vec<(String, String)>,
) -> bool {
    match in_org(arrangement, ctx.org_of().id) {
        Lookup::Found(_) => match submitted_text(pairs@, "index"@) {
            None => r == Ok::<Option<i32>, Reply>(None),
            Some(raw) => match read_int(raw, i32::MIN as int, i32::MAX as int) {
                Some(n) if 1 <= n <= MAX_INDEX => r is Ok && r->Ok_0 is Some && r->Ok_0->0 == n,
                _ => refused(r, bad_index()),
            },
        },
        Lookup::Missing => refused(r, col_error(404, "Arrangement not found."@)),
        Lookup::Failed => refused(r, col_error(500, "Something went wrong. Please retry."@)),
    }
}

/// The piece number that the form asks for, `None` where it asks for the next
/// free one. The arrangement must be one of the organization.
pub fn plan_item_index(
    ctx: &ConsoleCtx,
    arrangement: Lookup<Arrangement>,
    pairs: &Vec<(String, String)>,
) -> (r: Result<Option<i32>, Reply>)
    ensures
        plan_item_index_outcome(r, *ctx, arrangement, *pairs),
{
    if let Err(reply) = require_found(
        scoped_arrangement(arrangement, ctx.org().id),
        Section::Collections,
        "Arrangement not found.",
    ) {
        return Err(reply);
    }
    let raw: &str = match read_submitted_text(pairs, "index") {
        Some(raw) => raw,
        None => return Ok(None),
    };
    if let Some(n) = read_i32(raw) {
        if is_valid_index(n) {
            return Ok(Some(n));
        }
    }
    let mut message: String = "The piece number must be a whole number between 1 and ".to_owned();
    message.append(decimal(MAX_INDEX as i64).as_str());
    message.append(".");
    Err(error_page(400, message.as_str()))
}

/// The highest piece number in a collection, 0 where it has no pieces.
pub open spec fn highest_index(items: Seq<ItemView>) -> int
    decreases items.len(),
{
    if items.len() == 0 {
        0
    } else if items.len() == 1 || items.last().item.index >= highest_index(items.drop_last()) {
        items.last().item.index as int
    } else {
        highest_index(items.drop_last())
    }
}

/// The number after the highest one in a collection.
pub fn next_index(items: &Vec<ItemView>) -> (r: i64)
    ensures
        r == highest_index(items@) + 1,
{
    let mut high: i64 = 0;
    let mut i: usize = 0;
    assert(items@.take(0) == Seq::<ItemView>::empty());
    while i < items.len()
        invariant
            i <= items.len(),
            i32::MIN <= high <= i32::MAX,
            high == highest_index(items@.take(i as int)),
        decreases items.len() - i,
    {
        assert(items@.take(i + 1).drop_last() == items@.take(i as int));
        let index: i64 = items[i].item.index as i64;
        if i == 0 || index >= high {
            high = index;
        }
        i = i + 1;
    }
    proof {
        take_all(items@);
    }
    high + 1
}

/// A piece that is put last gets a number above all others.
pub proof fn next_index_is_free(items: Seq<ItemView>, k: int)
    requires
        0 <= k < items.len(),
    ensures
        items[k].item.index < highest_index(items) + 1,
    decreases items.len(),
{
    if k < items.len() - 1 {
        next_index_is_free(items.drop_last(), k);
    }
}

/// Whether `r` is what [`plan_append`] owes its caller.
pub open spec fn plan_append_outcome(r: Result<i64, Reply>, items: Option<&Vec<ItemView>>) -> bool {
    match items {
        Some(items) => r is Ok && r->Ok_0 == highest_index(items@) + 1,
        None => refused(r, col_error(500, "Could not add the piece."@)),
    }
}

/// The number of a piece that is put last; the pieces could not be listed where
/// `items` is `None`.
pub fn plan_append(items: Option<&Vec<ItemView>>) -> (r: Result<i64, Reply>)
    ensures
        plan_append_outcome(r, items),
{
    match items {
        Some(items) => Ok(next_index(items)),
        None => Err(error_page(500, "Could not add the piece.")),
    }
}

/// Whether `r` is what [`item_added`] owes its caller.
pub open spec fn item_added_outcome(
    r: Done,
    ctx: ConsoleCtx,
    request_id: Uuid,
    collection_id: Uuid,
    arrangement_id: Uuid,
    index: i64,
    result: Result<Uuid, ItemError>,
) -> bool {
    match result {
        Ok(id) => r.recorded(
            entry(
                ctx.audit_context(request_id),
                "collection_item.create"@,
                "collection_item"@,
                id,
                seq![
                    detail("collectionId"@, FactView::Id(collection_id)),
                    detail("arrangementId"@, FactView::Id(arrangement_id)),
                    detail("index"@, FactView::Number(index as int)),
                ],
            ),
            goes_to(collection_url(ctx.org_of().id, collection_id)),
        ),
        Err(ItemError::DuplicateIndex) => r.unrecorded(
            col_error(
                409,
                "Another piece already holds that number — pick a free one or reorder afterwards."@,
            ),
        ),
        Err(ItemError::UnknownReference) => r.unrecorded(
            col_error(404, "That arrangement or collection no longer exists."@),
        ),
        Err(_) => r.unrecorded(col_error(500, "Could not add the piece."@)),
    }
}

/// How adding a piece ended.
pub fn item_added(
    ctx: &ConsoleCtx,
    request_id: Uuid,
    collection_id: Uuid,
    arrangement_id: Uuid,
    index: i64,
    result: Result<Uuid, ItemError>,
) -> (r: Done)
    ensures
        item_added_outcome(r, *ctx, request_id, collection_id, arrangement_id, index, result),
{
    match result {
        Ok(id) => Done::saved(
            AuditEntry::new(
                ctx.audit_ctx(request_id),
                "collection_item.create",
                "collection_item",
                id,
            ).with("collectionId", Fact::Id(collection_id)).with(
                "arrangementId",
                Fact::Id(arrangement_id),
            ).with("index", Fact::Number(index)),
            detail_url(ctx.org().id, collection_id),
        ),
        Err(ItemError::DuplicateIndex) => Done::refused(
            error_page(
                409,
                "Another piece already holds that number — pick a free one or reorder afterwards.",
            ),
        ),
        Err(ItemError::UnknownReference) => Done::refused(
            error_page(404, "That arrangement or collection no longer exists."),
        ),
        Err(_) => Done::refused(error_page(500, "Could not add the piece.")),
    }
}

/// The order that a reorder form asks for: the submitted sequence, after the
/// move of the arrow that was pressed, if one was.
pub open spec fn submitted_order(pairs: Seq<(String, String)>) -> Result<Seq<Uuid>, ReplyView> {
    match all_ids(all_values(pairs, "order"@)) {
        None => Err(col_error(400, "The submitted order was malformed."@)),
        Some(order) => if order.len() == 0 {
            Err(
                col_error(
                    400,
                    "The submitted order was empty — reload the collection and try again."@,
                ),
            )
        } else {
            match first_value(pairs, "move"@) {
                None => Ok(order),
                Some(d) => match move_of(order, d) {
                    Some((a, b)) => Ok(swapped(order, a, b)),
                    None => Err(
                        col_error(
                            400,
                            "That move is not possible — reload the collection and try again."@,
                        ),
                    ),
                },
            }
        },
    }
}

/// Whatever a reorder form asks for, it neither adds nor loses a piece of the
/// sequence that it submits.
pub proof fn reordering_keeps_the_pieces(pairs: Seq<(String, String)>)
    ensures
        submitted_order(pairs) matches Ok(order) ==> {
            &&& all_ids(all_values(pairs, "order"@)) is Some
            &&& order.to_multiset() == all_ids(all_values(pairs, "order"@))->0.to_multiset()
        },
{
    if submitted_order(pairs) is Ok {
        let sent = all_ids(all_values(pairs, "order"@))->0;
        if let Some(d) = first_value(pairs, "move"@) {
            a_move_keeps_the_pieces(sent, d);
        }
    }
}

/// Whether `r` is what [`plan_reorder`] owes its caller.
pub open spec fn plan_reorder_outcome(
    r: Result<Vec<Uuid>, Reply>,
    ctx: ConsoleCtx,
    found: Lookup<Collection>,
    pairs: Vec<(String, String)>,
) -> bool {
    match collection_in_org(found, ctx.org_of().id) {
        Lookup::Found(_) if ctx.access_of().builds_collections() => match submitted_order(
            pairs@,
        ) {
            Ok(order) => r is Ok && r->Ok_0@ == order,
            Err(v) => refused(r, v),
        },
        _ => r is Err && collection_opened(
            Err::<Collection, Reply>(r->Err_0),
            ctx,
            found,
        ),
    }
}

/// The new order of a collection's pieces, from the form.
pub fn plan_reorder(
    ctx: &ConsoleCtx,
    found: Lookup<Collection>,
    pairs: &Vec<(String, String)>,
) -> (r: Result<Vec<Uuid>, Reply>)
    ensures
        plan_reorder_outcome(r, *ctx, found, *pairs),
{
    if let Err(reply) = enter_collection(ctx, found) {
        return Err(reply);
    }
    let mut order: Vec<Uuid> = match parse_ids(&multi(pairs, "order")) {
        Some(order) => order,
        None => return Err(error_page(400, "The submitted order was malformed.")),
    };
    if order.is_empty() {
        return Err(
            error_page(
                400,
                "The submitted order was empty — reload the collection and try again.",
            ),
        );
    }
    if let Some(d) = field(pairs, "move") {
        if !apply_move(&mut order, d) {
            return Err(
                error_page(400, "That move is not possible — reload the collection and try again."),
            );
        }
    }
    Ok(order)
}

/// Whether `r` is what [`reordered`] owes its caller.
pub open spec fn reordered_outcome(
    r: Done,
    ctx: ConsoleCtx,
    request_id: Uuid,
    collection_id: Uuid,
    order: Vec<Uuid>,
    result: Result<(), ItemError>,
) -> bool {
    match result {
        Ok(()) => r.recorded(
            entry(
                ctx.audit_context(request_id),
                "collection_item.reorder"@,
                "collection"@,
                collection_id,
                seq![detail("order"@, FactView::Ids(order@))],
            ),
            goes_to(collection_url(ctx.org_of().id, collection_id)),
        ),
        Err(ItemError::InvalidReorder) => r.unrecorded(
            col_error(
                409,
                "This collection changed since the page was loaded, so the order was not saved. Reload and try again."@,
            ),
        ),
        Err(_) => r.unrecorded(col_error(500, "Could not save the new order."@)),
    }
}

/// How storing a new order ended.
pub fn reordered(
    ctx: &ConsoleCtx,
    request_id: Uuid,
    collection_id: Uuid,
    order: &Vec<Uuid>,
    result: Result<(), ItemError>,
) -> (r: Done)
    ensures
        reordered_outcome(r, *ctx, request_id, collection_id, *order, result),
{
    match result {
        Ok(()) => Done::saved(
            AuditEntry::new(
                ctx.audit_ctx(request_id),
                "collection_item.reorder",
                "collection",
                collection_id,
            ).with("order", ids(order)),
            detail_url(ctx.org().id, collection_id),
        ),
        Err(ItemError::InvalidReorder) => Done::refused(
            error_page(
                409,
                "This collection changed since the page was loaded, so the order was not saved. Reload and try again.",
            ),
        ),
        Err(_) => Done::refused(error_page(500, "Could not save the new order.")),
    }
}

/// Whether `r` is what comes of opening a piece of a collection.
pub open spec fn item_opened(
    r: Result<(Collection, CollectionItem), Reply>,
    ctx: ConsoleCtx,
    collection_id: Uuid,
    found: Lookup<Collection>,
    item: Lookup<CollectionItem>,
) -> bool {
    match collection_in_org(found, ctx.org_of().id) {
        Lookup::Found(c) if ctx.access_of().builds_collections() => match item_in_collection(
            item,
            collection_id,
        ) {
            Lookup::Found(i) => r == Ok::<(Collection, CollectionItem), Reply>((c, i)),
            Lookup::Missing => refused(r, col_error(404, "Piece not found in this collection."@)),
            Lookup::Failed => refused(r, col_error(500, "Something went wrong. Please retry."@)),
        },
        _ => r is Err && collection_opened(Err::<Collection, Reply>(r->Err_0), ctx, found),
    }
}

/// Opens a piece of a collection.
pub fn enter_item(
    ctx: &ConsoleCtx,
    collection_id: Uuid,
    found: Lookup<Collection>,
    item: Lookup<CollectionItem>,
) -> (r: Result<(Collection, CollectionItem), Reply>)
    ensures
        item_opened(r, *ctx, collection_id, found, item),
{
    let c: Collection = match enter_collection(ctx, found) {
        Ok(c) => c,
        Err(reply) => return Err(reply),
    };
    match require_found(
        scoped_item(item, collection_id),
        Section::Collections,
        "Piece not found in this collection.",
    ) {
        Ok(i) => Ok((c, i)),
        Err(reply) => Err(reply),
    }
}

/// Whether `r` is what [`item_deleted`] owes its caller.
pub open spec fn item_deleted_outcome(
    r: Done,
    ctx: ConsoleCtx,
    request_id: Uuid,
    collection_id: Uuid,
    item_id: Uuid,
    ok: bool,
) -> bool {
    &&& ok ==> r.recorded(
        entry(
            ctx.audit_context(request_id),
            "collection_item.soft_delete"@,
            "collection_item"@,
            item_id,
            seq![detail("collectionId"@, FactView::Id(collection_id))],
        ),
        goes_to(collection_url(ctx.org_of().id, collection_id)),
    )
    &&& !ok ==> r.unrecorded(col_error(500, "Could not remove the piece."@))
}

/// How removing a piece ended.
pub fn item_deleted(
    ctx: &ConsoleCtx,
    request_id: Uuid,
    collection_id: Uuid,
    item_id: Uuid,
    ok: bool,
) -> (r: Done)
    ensures
        item_deleted_outcome(r, *ctx, request_id, collection_id, item_id, ok),
{
    settle(
        ok,
        AuditEntry::new(
            ctx.audit_ctx(request_id),
            "collection_item.soft_delete",
            "collection_item",
            item_id,
        ).with("collectionId", Fact::Id(collection_id)),
        detail_url(ctx.org().id, collection_id),
        Section::Collections,
        "Could not remove the piece.",
    )
}

/// Whether `r` is what [`item_undeleted`] owes its caller.
pub open spec fn item_undeleted_outcome(
    r: Done,
    ctx: ConsoleCtx,
    request_id: Uuid,
    collection_id: Uuid,
    item_id: Uuid,
    result: Result<(), ItemError>,
) -> bool {
    match result {
        Ok(()) => r.recorded(
            entry(
                ctx.audit_context(request_id),
                "collection_item.undelete"@,
                "collection_item"@,
                item_id,
                seq![detail("collectionId"@, FactView::Id(collection_id))],
            ),
            goes_to(collection_url(ctx.org_of().id, collection_id)),
        ),
        Err(ItemError::DuplicateIndex) => r.unrecorded(
            col_error(
                409,
                "Another piece now holds that number — move it first, then restore this one."@,
            ),
        ),
        Err(_) => r.unrecorded(col_error(500, "Could not restore the piece."@)),
    }
}

/// How restoring a piece ended.
pub fn item_undeleted(
    ctx: &ConsoleCtx,
    request_id: Uuid,
    collection_id: Uuid,
    item_id: Uuid,
    result: Result<(), ItemError>,
) -> (r: Done)
    ensures
        item_undeleted_outcome(r, *ctx, request_id, collection_id, item_id, result),
{
    match result {
        Ok(()) => Done::saved(
            AuditEntry::new(
                ctx.audit_ctx(request_id),
                "collection_item.undelete",
                "collection_item",
                item_id,
            ).with("collectionId", Fact::Id(collection_id)),
            detail_url(ctx.org().id, collection_id),
        ),
        Err(ItemError::DuplicateIndex) => Done::refused(
            error_page(
                409,
                "Another piece now holds that number — move it first, then restore this one.",
            ),
        ),
        Err(_) => Done::refused(error_page(500, "Could not restore the piece.")),
    }
}

/// Adding a collection is on record, with its name, slug and kind, exactly where
/// it took place; its page is shown next.
pub proof fn a_new_collection_is_on_record(
    r: Done,
    ctx: ConsoleCtx,
    request_id: Uuid,
    result: Result<Collection, CollectionError>,
)
    requires
        collection_created_outcome(r, ctx, request_id, result),
    ensures
        result matches Ok(c) ==> {
            &&& r.names(
                ctx.user_of().id,
                ctx.org_of().id,
                request_id,
                "collection.create"@,
                c.id,
            )
            &&& r.tells("name"@, FactView::Text(c.name@))
            &&& r.tells("slug"@, FactView::Text(c.slug@))
            &&& r.tells("type"@, FactView::Text(c.collection_type@))
            &&& r.moves_on_to(collection_url(ctx.org_of().id, c.id))
        },
        result is Err ==> r.fell_through(),
{
    broadcast use vstd::seq_lib::group_seq_properties;

}

/// Changing a collection is on record, with what it was changed to, exactly where
/// it took place.
pub proof fn a_changed_collection_is_on_record(
    r: Done,
    ctx: ConsoleCtx,
    request_id: Uuid,
    collection_id: Uuid,
    fields: CollectionFields,
    result: Result<bool, CollectionError>,
)
    requires
        collection_updated_outcome(r, ctx, request_id, collection_id, fields, result),
    ensures
        result == Ok::<bool, CollectionError>(true) ==> {
            &&& r.names(
                ctx.user_of().id,
                ctx.org_of().id,
                request_id,
                "collection.update"@,
                collection_id,
            )
            &&& r.tells("name"@, FactView::Text(fields.name@))
            &&& r.tells("type"@, FactView::Text(fields.collection_type@))
            &&& r.moves_on_to(collection_url(ctx.org_of().id, collection_id))
        },
        result != Ok::<bool, CollectionError>(true) ==> r.fell_through(),
{
    broadcast use vstd::seq_lib::group_seq_properties;

}

/// Deleting a collection is on record exactly where it took place.
pub proof fn a_deleted_collection_is_on_record(
    r: Done,
    ctx: ConsoleCtx,
    request_id: Uuid,
    collection_id: Uuid,
    result: Option<bool>,
)
    requires
        collection_deleted_outcome(r, ctx, request_id, collection_id, result),
    ensures
        result == Some(true) ==> {
            &&& r.names(
                ctx.user_of().id,
                ctx.org_of().id,
                request_id,
                "collection.soft_delete"@,
                collection_id,
            )
            &&& r.moves_on_to(list_url(ctx.org_of().id, "/collections"@))
        },
        result != Some(true) ==> r.audit is None,
        result is None ==> r.fell_through(),
{
    broadcast use vstd::seq_lib::group_seq_properties;

}

/// Restoring a collection is on record exactly where it took place.
pub proof fn a_restored_collection_is_on_record(
    r: Done,
    ctx: ConsoleCtx,
    request_id: Uuid,
    collection_id: Uuid,
    result: Result<(), CollectionError>,
)
    requires
        collection_undeleted_outcome(r, ctx, request_id, collection_id, result),
    ensures
        result is Ok ==> {
            &&& r.names(
                ctx.user_of().id,
                ctx.org_of().id,
                request_id,
                "collection.undelete"@,
                collection_id,
            )
            &&& r.moves_on_to(collection_url(ctx.org_of().id, collection_id))
        },
        result is Err ==> r.fell_through(),
{
    broadcast use vstd::seq_lib::group_seq_properties;

}

/// Adding a piece is on record, with the collection, the arrangement and the
/// number it got, exactly where it took place.
pub proof fn an_added_piece_is_on_record(
    r: Done,
    ctx: ConsoleCtx,
    request_id: Uuid,
    collection_id: Uuid,
    arrangement_id: Uuid,
    index: i64,
    result: Result<Uuid, ItemError>,
)
    requires
        item_added_outcome(r, ctx, request_id, collection_id, arrangement_id, index, result),
    ensures
        result matches Ok(id) ==> {
            &&& r.names(
                ctx.user_of().id,
                ctx.org_of().id,
                request_id,
                "collection_item.create"@,
                id,
            )
            &&& r.tells("collectionId"@, FactView::Id(collection_id))
            &&& r.tells("arrangementId"@, FactView::Id(arrangement_id))
            &&& r.tells("index"@, FactView::Number(index as int))
            &&& r.moves_on_to(collection_url(ctx.org_of().id, collection_id))
        },
        result is Err ==> r.fell_through(),
{
    broadcast use vstd::seq_lib::group_seq_properties;

}

/// Reordering is on record, with the new order, exactly where it took place.
pub proof fn a_new_order_is_on_record(
    r: Done,
    ctx: ConsoleCtx,
    request_id: Uuid,
    collection_id: Uuid,
    order: Vec<Uuid>,
    result: Result<(), ItemError>,
)
    requires
        reordered_outcome(r, ctx, request_id, collection_id, order, result),
    ensures
        result is Ok ==> {
            &&& r.names(
                ctx.user_of().id,
                ctx.org_of().id,
                request_id,
                "collection_item.reorder"@,
                collection_id,
            )
            &&& r.tells("order"@, FactView::Ids(order@))
            &&& r.moves_on_to(collection_url(ctx.org_of().id, collection_id))
        },
        result is Err ==> r.fell_through(),
{
    broadcast use vstd::seq_lib::group_seq_properties;

}

/// Removing a piece is on record exactly where it took place.
pub proof fn a_removed_piece_is_on_record(
    r: Done,
    ctx: ConsoleCtx,
    request_id: Uuid,
    collection_id: Uuid,
    item_id: Uuid,
    ok: bool,
)
    requires
        item_deleted_outcome(r, ctx, request_id, collection_id, item_id, ok),
    ensures
        ok ==> {
            &&& r.names(
                ctx.user_of().id,
                ctx.org_of().id,
                request_id,
                "collection_item.soft_delete"@,
                item_id,
            )
            &&& r.tells("collectionId"@, FactView::Id(collection_id))
            &&& r.moves_on_to(collection_url(ctx.org_of().id, collection_id))
        },
        !ok ==> r.fell_through(),
{
    broadcast use vstd::seq_lib::group_seq_properties;

}

/// Restoring a piece is on record exactly where it took place.
pub proof fn a_restored_piece_is_on_record(
    r: Done,
    ctx: ConsoleCtx,
    request_id: Uuid,
    collection_id: Uuid,
    item_id: Uuid,
    result: Result<(), ItemError>,
)
    requires
        item_undeleted_outcome(r, ctx, request_id, collection_id, item_id, result),
    ensures
        result is Ok ==> {
            &&& r.names(
                ctx.user_of().id,
                ctx.org_of().id,
                request_id,
                "collection_item.undelete"@,
                item_id,
            )
            &&& r.tells("collectionId"@, FactView::Id(collection_id))
            &&& r.moves_on_to(collection_url(ctx.org_of().id, collection_id))
        },
        result is Err ==> r.fell_through(),
{
    broadcast use vstd::seq_lib::group_seq_properties;

}

/// A collection of the organization is changed to the name that was typed and the
/// kind that was chosen, at the version that the form was opened on.
pub proof fn a_collection_is_changed_as_the_form_says(
    r: Result<CollectionFields, Reply>,
    ctx: ConsoleCtx,
    collection_id: Uuid,
    found: Lookup<Collection>,
    form: CollectionForm,
)
    requires
        plan_update_collection_outcome(r, ctx, collection_id, found, form),
    ensures
        r is Ok ==> {
            &&& ctx.access_of().builds_collections()
            &&& found matches Lookup::Found(c) && c.organization_id == ctx.org_of().id
                && form.expected_version is Some && (form.expected_version->0@ == int_text(
                c.updated_at.millis as int,
            ) || form.expected_version->0@ == etag(c.updated_at.millis))
            &&& form.name is Some && r->Ok_0.name@ == trimmed(form.name->0@)
                && r->Ok_0.name@.len() > 0
            &&& form.collection_type is Some && r->Ok_0.collection_type@ == trimmed(
                form.collection_type->0@,
            )
            &&& r->Ok_0.collection_type@ == "program"@ || r->Ok_0.collection_type@ == "standing"@
        },
        ctx.access_of().builds_collections() && (found matches Lookup::Found(c) && c.organization_id
            == ctx.org_of().id && form.expected_version is Some && form.expected_version->0@
            == int_text(c.updated_at.millis as int)) && form.name is Some && trimmed(
            form.name->0@,
        ).len() > 0 && form.collection_type is Some && (form.collection_type->0@ == "program"@
            || form.collection_type->0@ == "standing"@) ==> r is Ok && r->Ok_0.collection_type@
            == form.collection_type->0@,
        ctx.access_of().builds_collections() && (found matches Lookup::Found(c) && c.organization_id
            == ctx.org_of().id) && form.expected_version is None ==> r is Err
            && r->Err_0@.status() == 412,
        !ctx.access_of().builds_collections() ==> r is Err && r->Err_0@.status() == 403,
        ctx.access_of().builds_collections() && (found matches Lookup::Found(c) && c.organization_id
            != ctx.org_of().id) ==> r is Err && r->Err_0@.status() == 404,
{
    lemma_kinds_are_bare();
}

proof fn lemma_kinds_are_bare()
    ensures
        trimmed("program"@) == "program"@,
        trimmed("standing"@) == "standing"@,
        "program"@.len() > 0 && "standing"@.len() > 0,
{
    reveal_strlit("program");
    reveal_strlit("standing");
    assert(!is_white_space('p') && !is_white_space('m') && !is_white_space('s') && !is_white_space(
        'g',
    ));
    bare_text_is_taken_in_as_it_stands("program"@);
    bare_text_is_taken_in_as_it_stands("standing"@);
}

/// A new collection gets the name that was typed and the kind that was chosen.
pub proof fn a_new_collection_is_what_the_form_says(
    form: CollectionForm,
    r: Result<CollectionFields, Reply>,
)
    requires
        form.leads_to(r),
    ensures
        r is Ok ==> form.name is Some && r->Ok_0.name@ == trimmed(form.name->0@)
            && r->Ok_0.name@.len() > 0,
        r is Ok ==> form.collection_type is Some && r->Ok_0.collection_type@ == trimmed(
            form.collection_type->0@,
        ) && (r->Ok_0.collection_type@ == "program"@ || r->Ok_0.collection_type@ == "standing"@),
        r is Err ==> r->Err_0@.status() == 400,
        form.name is Some && trimmed(form.name->0@).len() > 0 && form.collection_type is Some && (
        form.collection_type->0@ == "program"@ || form.collection_type->0@ == "standing"@)
            ==> r is Ok,
{
    lemma_kinds_are_bare();
}

/// Those who build collections add the arrangement that they chose to a
/// collection of their organization.
pub proof fn the_chosen_arrangement_is_added(
    r: Result<Uuid, Reply>,
    ctx: ConsoleCtx,
    found: Lookup<Collection>,
    pairs: Vec<(String, String)>,
)
    requires
        plan_add_item_outcome(r, ctx, found, pairs),
    ensures
        r is Ok ==> ctx.access_of().builds_collections() && (found matches Lookup::Found(c)
            && c.organization_id == ctx.org_of().id),
        forall|i: int| #[trigger]
            comes_first(pairs@, "arrangement_id"@, i) && ctx.access_of().builds_collections() && (
            found matches Lookup::Found(c) && c.organization_id == ctx.org_of().id) ==> (
            match read_uuid(pairs@[i].1@) {
                Some(id) => r == Ok::<Uuid, Reply>(id),
                None => r is Err && r->Err_0@.status() == 400,
            }),
        !ctx.access_of().builds_collections() ==> r is Err && r->Err_0@.status() == 403,
{
    the_earliest_value_counts(pairs@, "arrangement_id"@);
}

/// A piece gets the number that was typed, where that is from 1 to 999999, and
/// none of its own where nothing was typed; the arrangement has to be one of the
/// organization.
pub proof fn a_piece_gets_the_number_that_was_typed(
    r: Result<Option<i32>, Reply>,
    ctx: ConsoleCtx,
    arrangement: Lookup<Arrangement>,
    pairs: Vec<(String, String)>,
)
    requires
        plan_item_index_outcome(r, ctx, arrangement, pairs),
    ensures
        r is Ok ==> (arrangement matches Lookup::Found(a) && a.organization_id == ctx.org_of().id),
        r is Ok && r->Ok_0 is Some ==> 1 <= r->Ok_0->0 <= 999_999,
        forall|i: int, n: int| #[trigger]
            comes_first(pairs@, "index"@, i) && trimmed(pairs@[i].1@) == #[trigger] int_text(n) && 1
                <= n <= 999_999 && (arrangement matches Lookup::Found(a) && a.organization_id
                == ctx.org_of().id) ==> r is Ok && r->Ok_0 is Some && r->Ok_0->0 == n,
        forall|i: int| #[trigger]
            comes_first(pairs@, "index"@, i) && trimmed(pairs@[i].1@).len() > 0 ==> r != Ok::<
                Option<i32>,
                Reply,
            >(None),
        forall|i: int| #[trigger]
            comes_first(pairs@, "index"@, i) && trimmed(pairs@[i].1@).len() == 0 && (
            arrangement matches Lookup::Found(a) && a.organization_id == ctx.org_of().id) ==> r
                == Ok::<Option<i32>, Reply>(None),
{
    the_earliest_value_counts(pairs@, "index"@);
    assert forall|n: int| 1 <= n <= 999_999 implies read_int(
        #[trigger] int_text(n),
        i32::MIN as int,
        i32::MAX as int,
    ) == Some(n) && int_text(n).len() > 0 by {
        text_reads_back(n, i32::MIN as int, i32::MAX as int);
    }
}

/// A piece that is put last gets the number after the highest, and the first one
/// of a collection gets number 1.
pub proof fn a_piece_is_put_last(r: Result<i64, Reply>, items: Option<&Vec<ItemView>>)
    requires
        plan_append_outcome(r, items),
    ensures
        items is Some ==> r is Ok,
        items matches Some(v) ==> (forall|k: int|
            0 <= k < v@.len() ==> r->Ok_0 > (#[trigger] v@[k]).item.index),
        items matches Some(v) ==> v@.len() > 0 ==> exists|k: int|
            0 <= k < v@.len() && r->Ok_0 == (#[trigger] v@[k]).item.index + 1,
        items matches Some(v) ==> v@.len() == 0 ==> r->Ok_0 == 1,
        items is None ==> r is Err && r->Err_0@.status() == 500,
{
    if let Some(v) = items {
        lemma_highest_index(v@);
        assert forall|k: int| 0 <= k < v@.len() implies r->Ok_0 > (#[trigger] v@[k]).item.index by {
            next_index_is_free(v@, k);
        }
    }
}

proof fn lemma_highest_index(items: Seq<ItemView>)
    ensures
        items.len() > 0 ==> exists|k: int|
            0 <= k < items.len() && highest_index(items) == (#[trigger] items[k]).item.index,
        items.len() == 0 ==> highest_index(items) == 0,
    decreases items.len(),
{
    if items.len() > 0 {
        let init = items.drop_last();
        lemma_highest_index(init);
        assert(items.last() == items[items.len() - 1]);
        if init.len() > 0 {
            let k = choose|k: int|
                0 <= k < init.len() && highest_index(init) == (#[trigger] init[k]).item.index;
            assert(init[k] == items[k]);
        }
    }
}

/// Without an arrow pressed, the order that is stored is the submitted one,
/// identifier by identifier.
pub proof fn a_submitted_order_is_stored(
    r: Result<Vec<Uuid>, Reply>,
    ctx: ConsoleCtx,
    c: Collection,
    pairs: Vec<(String, String)>,
    ids: Seq<Uuid>,
)
    requires
        plan_reorder_outcome(r, ctx, Lookup::Found(c), pairs),
        ctx.access_of().builds_collections(),
        c.organization_id == ctx.org_of().id,
        ids.len() > 0,
        pairs@.len() == ids.len(),
        forall|i: int|
            0 <= i < ids.len() ==> {
                &&& (#[trigger] pairs@[i]).0@ == "order"@
                &&& pairs@[i].1@.len() > 0
                &&& read_uuid(pairs@[i].1@) == Some(ids[i])
            },
    ensures
        r is Ok,
        r->Ok_0@ == ids,
{
    let from = collected_values_were_submitted(pairs@, "order"@);
    let values = all_values(pairs@, "order"@);
    assert forall|i: int| 0 <= i < ids.len() implies from.contains(i) by {
        assert(pairs@[i].0@ == "order"@);
    }
    lemma_all_in_order(from, ids.len() as int);
    assert forall|k: int| 0 <= k < values.len() implies read_uuid(#[trigger] values[k]) == Some(
        ids[k],
    ) by {
        assert(from[k] == k);
    }
    assert(all_ids(values) == Some(ids)) by {
        assert(values.map_values(|v: Seq<char>| read_uuid(v)->0) =~= ids);
    }
    reveal_strlit("order");
    reveal_strlit("move");
    assert("order"@.len() != "move"@.len());
    the_earliest_value_counts(pairs@, "move"@);
    assert(first_value(pairs@, "move"@) is None) by {
        if first_value(pairs@, "move"@) is Some {
            let i = choose|i: int| #[trigger] comes_first(pairs@, "move"@, i);
            assert(pairs@[i].0@ == "order"@);
        }
    }
}

/// An increasing list of numbers below `n` that has all of them is the list of
/// them.
proof fn lemma_all_in_order(from: Seq<int>, n: int)
    requires
        0 <= n,
        forall|k: int| 0 <= k < from.len() ==> 0 <= #[trigger] from[k] < n,
        forall|k: int, l: int| 0 <= k < l < from.len() ==> #[trigger] from[k] < #[trigger] from[l],
        forall|i: int| 0 <= i < n ==> #[trigger] from.contains(i),
    ensures
        from.len() == n,
        forall|k: int| 0 <= k < n ==> #[trigger] from[k] == k,
    decreases n,
{
    if n == 0 {
        if from.len() > 0 {
            let first = from[0];
            assert(0 <= first && first < n);
        }
    } else {
        assert(from.contains(n - 1));
        let k = choose|k: int| 0 <= k < from.len() && from[k] == n - 1;
        if k < from.len() - 1 {
            assert(from[k] < from[from.len() - 1]);
        }
        let init = from.drop_last();
        assert forall|j: int| 0 <= j < init.len() implies 0 <= #[trigger] init[j] < n - 1 by {
            assert(from[j] < from[from.len() - 1]);
        }
        assert forall|i: int, j: int| 0 <= i < j < init.len() implies #[trigger] init[i]
            < #[trigger] init[j] by {
            assert(from[i] < from[j]);
        }
        assert forall|i: int| 0 <= i < n - 1 implies #[trigger] init.contains(i) by {
            assert(from.contains(i));
            let j = choose|j: int| 0 <= j < from.len() && from[j] == i;
            assert(init[j] == i);
        }
        lemma_all_in_order(init, n - 1);
        assert forall|j: int| 0 <= j < n implies #[trigger] from[j] == j by {
            if j < n - 1 {
                assert(init[j] == j);
            }
        }
    }
}

/// Those who build collections add what the form says, everyone else is turned
/// away.
pub proof fn collections_are_added_by_those_who_build_them(
    r: Result<CollectionFields, Reply>,
    ctx: ConsoleCtx,
    form: CollectionForm,
)
    requires
        plan_create_collection_outcome(r, ctx, form),
    ensures
        ctx.access_of().builds_collections() ==> form.leads_to(r),
        !ctx.access_of().builds_collections() ==> r is Err && r->Err_0@.status() == 403,
{
}

/// What was typed as a number and is none, or is out of range, is refused; so is
/// an arrangement of another organization.
pub proof fn a_piece_gets_no_other_number(
    r: Result<Option<i32>, Reply>,
    ctx: ConsoleCtx,
    arrangement: Lookup<Arrangement>,
    pairs: Vec<(String, String)>,
)
    requires
        plan_item_index_outcome(r, ctx, arrangement, pairs),
    ensures
        forall|i: int| #[trigger]
            comes_first(pairs@, "index"@, i) && trimmed(pairs@[i].1@).len() > 0 && (match read_int(
                trimmed(pairs@[i].1@),
                i32::MIN as int,
                i32::MAX as int,
            ) {
                Some(n) => !(1 <= n <= 999_999),
                None => true,
            }) ==> r is Err,
        arrangement is Missing ==> r is Err && r->Err_0@.status() == 404,
        arrangement is Failed ==> r is Err && r->Err_0@.status() == 500,
        (arrangement matches Lookup::Found(a) && a.organization_id != ctx.org_of().id) ==> r is Err
            && r->Err_0@.status() == 404,
        (arrangement matches Lookup::Found(a) && a.organization_id == ctx.org_of().id) && r is Err
            ==> r->Err_0@.status() == 400,
{
    the_earliest_value_counts(pairs@, "index"@);
}

/// Those who build collections open the pieces of the collections of their
/// organization, and no others.
pub proof fn pieces_are_opened_where_they_belong(
    r: Result<(Collection, CollectionItem), Reply>,
    ctx: ConsoleCtx,
    collection_id: Uuid,
    found: Lookup<Collection>,
    item: Lookup<CollectionItem>,
)
    requires
        item_opened(r, ctx, collection_id, found, item),
    ensures
        r is Ok <==> ctx.access_of().builds_collections() && (found matches Lookup::Found(c)
            && c.organization_id == ctx.org_of().id) && (item matches Lookup::Found(i)
            && i.collection_id == collection_id),
        r matches Ok((c, i)) ==> found == Lookup::Found(c) && item == Lookup::Found(i),
        !ctx.access_of().builds_collections() ==> r->Err_0@.status() == 403,
        ctx.access_of().builds_collections() && r is Err ==> r->Err_0@.status() == 404
            || r->Err_0@.status() == 500,
{
}

/// Those who build collections open the collections of their organization, and
/// no others.
pub proof fn collections_are_opened_where_they_belong(
    r: Result<Collection, Reply>,
    ctx: ConsoleCtx,
    found: Lookup<Collection>,
)
    requires
        collection_opened(r, ctx, found),
    ensures
        r is Ok <==> ctx.access_of().builds_collections() && (found matches Lookup::Found(c)
            && c.organization_id == ctx.org_of().id),
        r is Ok ==> found == Lookup::Found(r->Ok_0),
        !ctx.access_of().builds_collections() ==> r->Err_0@.status() == 403,
        ctx.access_of().builds_collections() && found is Failed ==> r->Err_0@.status() == 500,
        ctx.access_of().builds_collections() && found is Missing ==> r->Err_0@.status() == 404,
{
}

/// With an arrow pressed, the order that is stored is the submitted one after
/// that move; a move that cannot be made is refused.
pub proof fn a_submitted_move_is_made(
    r: Result<Vec<Uuid>, Reply>,
    ctx: ConsoleCtx,
    c: Collection,
    pairs: Vec<(String, String)>,
    order: Seq<Uuid>,
    i: int,
)
    requires
        plan_reorder_outcome(r, ctx, Lookup::Found(c), pairs),
        ctx.access_of().builds_collections(),
        c.organization_id == ctx.org_of().id,
        all_ids(all_values(pairs@, "order"@)) == Some(order),
        order.len() > 0,
        comes_first(pairs@, "move"@, i),
    ensures
        r is Ok ==> is_moved(true, order, r->Ok_0@, pairs@[i].1@),
        r is Err ==> is_moved(false, order, order, pairs@[i].1@) && r->Err_0@.status() == 400,
{
    the_earliest_value_counts(pairs@, "move"@);
}

/// An order that is empty or holds something that is no identifier is refused,
/// and so is anyone who may not build collections.
pub proof fn a_malformed_order_is_refused(
    r: Result<Vec<Uuid>, Reply>,
    ctx: ConsoleCtx,
    found: Lookup<Collection>,
    pairs: Vec<(String, String)>,
)
    requires
        plan_reorder_outcome(r, ctx, found, pairs),
    ensures
        r is Ok ==> ctx.access_of().builds_collections() && (found matches Lookup::Found(c)
            && c.organization_id == ctx.org_of().id),
        (forall|i: int| 0 <= i < pairs@.len() ==> (#[trigger] pairs@[i]).0@ != "order"@)
            ==> r is Err,
        (exists|i: int|
            0 <= i < pairs@.len() && (#[trigger] pairs@[i]).0@ == "order"@ && pairs@[i].1@.len() > 0
                && read_uuid(pairs@[i].1@) is None) ==> r is Err,
        !ctx.access_of().builds_collections() ==> r->Err_0@.status() == 403,
{
    let from = collected_values_were_submitted(pairs@, "order"@);
    let values = all_values(pairs@, "order"@);
    if forall|i: int| 0 <= i < pairs@.len() ==> (#[trigger] pairs@[i]).0@ != "order"@ {
        if from.len() > 0 {
            let k = from[0];
            assert(0 <= k && k < pairs@.len() && pairs@[k].0@ == "order"@);
        }
        assert(values.len() == 0);
    }
    if exists|i: int|
        0 <= i < pairs@.len() && (#[trigger] pairs@[i]).0@ == "order"@ && pairs@[i].1@.len() > 0
            && read_uuid(pairs@[i].1@) is None {
        let i = choose|i: int|
            0 <= i < pairs@.len() && (#[trigger] pairs@[i]).0@ == "order"@ && pairs@[i].1@.len() > 0
                && read_uuid(pairs@[i].1@) is None;
        let k = choose|k: int| 0 <= k < from.len() && from[k] == i;
        assert(read_uuid(values[k]) is None);
        assert(all_ids(values) is None);
    }
}

} // verus!
