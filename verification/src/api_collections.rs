//! The JSON interface to collections, their pieces and part assignments.

use vstd::prelude::*;
use crate::api::{
    authorize, denied, done, each_role_may_do_its_part, etag_response_status, finish_removal,
    gives, is_for, is_member, keeps_collections, looked_up, looked_up_at, no_content, not_blank,
    removal, require, Answer, Caller, Need, Standing,
};
use crate::arrangements::{in_org, scoped_arrangement};
use crate::assignments::{assignment_of_item, scoped_assignment};
use crate::audit::{
    detail, entry, ids, opt_time, text, time_fact, within, AuditEntry, EntryView, Fact, FactView,
};
use crate::collections::{
    collection_in_org, is_collection_type, is_valid_index, is_valid_type, item_in_collection,
    scoped_collection, scoped_item, CollectionError, ItemError, MAX_INDEX,
};
use crate::error::{fails, invalid, AppError, ErrorView};
use crate::id::Uuid;
use crate::listing::{check_if_match, names_version, str_of};
use crate::model::{Arrangement, Collection, CollectionItem, Lookup, PartAssignment};
use crate::form::{comes_first, field_text, first_value, the_earliest_value_counts};
use crate::text::{text_of, trimmed};

verus! {

/// Whether `r` is what [`validate_index`] owes its caller.
pub open spec fn validate_index_outcome(r: Result<(), AppError>, index: i32) -> bool {
    &&& 1 <= index <= MAX_INDEX ==> r is Ok
    &&& !(1 <= index <= MAX_INDEX) ==> fails(
        r,
        invalid("index"@, "index must be between 1 and 999999"@),
    )
}

/// Lets a piece number pass that is within bounds.
pub fn validate_index(index: i32) -> (r: Result<(), AppError>)
    ensures
        validate_index_outcome(r, index),
{
    if is_valid_index(index) {
        Ok(())
    } else {
        Err(AppError::invalid("index", "index must be between 1 and 999999"))
    }
}

/// The error that a failure to store a collection is answered with.
pub open spec fn collection_error_view(err: CollectionError) -> ErrorView {
    match err {
        CollectionError::DuplicateSlug => ErrorView::Conflict(
            "a collection with this name already exists"@,
        ),
        CollectionError::Database => ErrorView::Database,
    }
}

/// The error that a failure to store a collection is answered with.
pub fn collection_error_to_app_error(err: CollectionError) -> (r: AppError)
    ensures
        r@ == collection_error_view(err),
{
    match err {
        CollectionError::DuplicateSlug => AppError::Conflict(
            "a collection with this name already exists".to_owned(),
        ),
        CollectionError::Database => AppError::Database,
    }
}

/// The error that a failure to store a piece is answered with.
pub open spec fn item_error_view(err: ItemError) -> ErrorView {
    match err {
        ItemError::DuplicateIndex => ErrorView::Conflict("an item already exists at this index"@),
        ItemError::UnknownReference => ErrorView::Conflict(
            "the referenced arrangement does not exist"@,
        ),
        ItemError::InvalidReorder => ErrorView::Conflict(
            "orderedIds must be exactly the collection's current items"@,
        ),
        ItemError::Database => ErrorView::Database,
    }
}

/// The error that a failure to store a piece is answered with.
pub fn item_error_to_app_error(err: ItemError) -> (r: AppError)
    ensures
        r@ == item_error_view(err),
{
    match err {
        ItemError::DuplicateIndex => AppError::Conflict(
            "an item already exists at this index".to_owned(),
        ),
        ItemError::UnknownReference => AppError::Conflict(
            "the referenced arrangement does not exist".to_owned(),
        ),
        ItemError::InvalidReorder => AppError::Conflict(
            "orderedIds must be exactly the collection's current items".to_owned(),
        ),
        ItemError::Database => AppError::Database,
    }
}

/// The collection of an organization.
pub fn find_collection_scoped(found: Lookup<Collection>, org: Uuid) -> (r: Result<
    Collection,
    AppError,
>)
    ensures
        looked_up(r, collection_in_org(found, org)),
{
    require(scoped_collection(found, org))
}

/// The piece, unless it belongs to another collection or its collection to
/// another organization.
pub open spec fn item_in_org(
    parent: Lookup<Collection>,
    found: Lookup<CollectionItem>,
    org: Uuid,
    collection: Uuid,
) -> Lookup<CollectionItem> {
    match collection_in_org(parent, org) {
        Lookup::Missing => Lookup::Missing,
        Lookup::Failed => Lookup::Failed,
        Lookup::Found(_) => item_in_collection(found, collection),
    }
}

fn scope_item(
    parent: Lookup<Collection>,
    found: Lookup<CollectionItem>,
    org: Uuid,
    collection: Uuid,
) -> (r: Lookup<CollectionItem>)
    ensures
        r == item_in_org(parent, found, org, collection),
{
    match scoped_collection(parent, org) {
        Lookup::Missing => Lookup::Missing,
        Lookup::Failed => Lookup::Failed,
        Lookup::Found(_) => scoped_item(found, collection),
    }
}

/// The piece of a collection of the organization.
pub fn find_item_scoped(
    parent: Lookup<Collection>,
    found: Lookup<CollectionItem>,
    org: Uuid,
    collection: Uuid,
) -> (r: Result<CollectionItem, AppError>)
    ensures
        looked_up(r, item_in_org(parent, found, org, collection)),
{
    require(scope_item(parent, found, org, collection))
}

/// The assignment, unless anything on the way from the organization to it
/// belongs elsewhere.
pub open spec fn assignment_in_org(
    parent: Lookup<Collection>,
    item: Lookup<CollectionItem>,
    found: Lookup<PartAssignment>,
    org: Uuid,
    collection: Uuid,
    item_id: Uuid,
) -> Lookup<PartAssignment> {
    match item_in_org(parent, item, org, collection) {
        Lookup::Missing => Lookup::Missing,
        Lookup::Failed => Lookup::Failed,
        Lookup::Found(_) => assignment_of_item(found, item_id),
    }
}

/// The assignment of a piece of a collection of the organization.
pub fn find_assignment_scoped(
    parent: Lookup<Collection>,
    item: Lookup<CollectionItem>,
    found: Lookup<PartAssignment>,
    org: Uuid,
    collection: Uuid,
    item_id: Uuid,
) -> (r: Result<PartAssignment, AppError>)
    ensures
        looked_up(r, assignment_in_org(parent, item, found, org, collection, item_id)),
{
    match find_item_scoped(parent, item, org, collection) {
        Ok(_) => require(scoped_assignment(found, item_id)),
        Err(e) => Err(e),
    }
}

/// An assignment is reached only through the organization: through any other
/// one it looks as if it did not exist.
pub proof fn foreign_assignments_look_missing(
    c: Collection,
    item: Lookup<CollectionItem>,
    found: Lookup<PartAssignment>,
    org: Uuid,
    collection: Uuid,
    item_id: Uuid,
)
    requires
        c.organization_id != org,
    ensures
        assignment_in_org(Lookup::Found(c), item, found, org, collection, item_id) == Lookup::<
            PartAssignment,
        >::Missing,
{
}

/// What a caller sends of a collection.
pub struct CollectionRequest {
    pub name: String,
    pub collection_type: String,
}

impl CollectionRequest {
    /// What is wrong with what was sent.
    pub open spec fn wrong(self) -> Option<ErrorView> {
        if trimmed(self.name@).len() == 0 {
            Some(invalid("name"@, "name must not be empty"@))
        } else if !is_collection_type(self.collection_type@) {
            Some(invalid("type"@, "type must be `program` or `standing`"@))
        } else {
            None
        }
    }

    fn check(&self) -> (r: Result<(), AppError>)
        ensures
            match self.wrong() {
                Some(e) => fails(r, e),
                None => r is Ok,
            },
    {
        match not_blank(self.name.as_str(), "name", "name must not be empty") {
            Ok(()) => {},
            Err(e) => return Err(e),
        }
        if !is_valid_type(self.collection_type.as_str()) {
            return Err(AppError::invalid("type", "type must be `program` or `standing`"));
        }
        Ok(())
    }
}

/// Whether `r` is what [`plan_list_collections`] owes its caller.
pub open spec fn plan_list_collections_outcome(
    r: Result<Option<String>, AppError>,
    standing: Standing,
    filters: Vec<(String, String)>,
) -> bool {
    &&& denied(standing, Need::Read) matches Some(e) ==> fails(r, e)
    &&& denied(standing, Need::Read) is None ==> r is Ok && text_of(r->Ok_0) == first_value(
        filters@,
        "type"@,
    )
}

/// Lets collections be listed, and says which type they are narrowed to.
pub fn plan_list_collections(standing: &Standing, filters: &Vec<(String, String)>) -> (r: Result<Option<String>, AppError>)
    ensures
        plan_list_collections_outcome(r, *standing, *filters),
{
    match authorize(standing, Need::Read) {
        Ok(()) => {},
        Err(e) => return Err(e),
    }
    Ok(field_text(filters, "type"))
}

/// Whether `r` is what [`plan_create_collection`] owes its caller.
pub open spec fn plan_create_collection_outcome(
    r: Result<(), AppError>,
    standing: Standing,
    body: CollectionRequest,
) -> bool {
    &&& denied(standing, Need::BuildCollections) matches Some(e) ==> fails(r, e)
    &&& denied(standing, Need::BuildCollections) is None ==> (match body.wrong() {
        Some(e) => fails(r, e),
        None => r is Ok,
    })
}

/// Lets a collection be created.
pub fn plan_create_collection(
    standing: &Standing,
    body: &CollectionRequest,
) -> (r: Result<(), AppError>)
    ensures
        plan_create_collection_outcome(r, *standing, *body),
{
    match authorize(standing, Need::BuildCollections) {
        Ok(()) => {},
        Err(e) => return Err(e),
    }
    body.check()
}

/// Whether `r` is what [`collection_created`] owes its caller.
pub open spec fn collection_created_outcome(
    r: Result<Answer<Collection>, AppError>,
    caller: Caller,
    org: Uuid,
    request_id: Uuid,
    result: Result<Collection, CollectionError>,
) -> bool {
    match result {
        Err(e) => fails(r, collection_error_view(e)),
        Ok(c) => gives(
            r,
            201,
            c.updated_at.millis,
            Some(
                entry(
                    caller.audit_context(Some(org), request_id),
                    "collection.create"@,
                    "collection"@,
                    c.id,
                    seq![
                        detail("name"@, FactView::Text(c.name@)),
                        detail("slug"@, FactView::Text(c.slug@)),
                        detail("type"@, FactView::Text(c.collection_type@)),
                    ],
                ),
            ),
            c,
        ),
    }
}

/// How creating a collection ended.
pub fn collection_created(
    caller: &Caller,
    org: Uuid,
    request_id: Uuid,
    result: Result<Collection, CollectionError>,
) -> (r: Result<Answer<Collection>, AppError>)
    ensures
        collection_created_outcome(r, *caller, org, request_id, result),
{
    match result {
        Err(e) => Err(collection_error_to_app_error(e)),
        Ok(c) => {
            let e: AuditEntry = AuditEntry::new(
                caller.audit_ctx(Some(org), request_id),
                "collection.create",
                "collection",
                c.id,
            ).with("name", text(c.name.as_str())).with("slug", text(c.slug.as_str())).with(
                "type",
                text(c.collection_type.as_str()),
            );
            etag_response_status(201, c.updated_at.millis, Some(e), c)
        },
    }
}

/// Whether `r` is what [`get_collection`] owes its caller.
pub open spec fn get_collection_outcome(
    r: Result<Answer<Collection>, AppError>,
    standing: Standing,
    found: Lookup<Collection>,
    org: Uuid,
) -> bool {
    &&& denied(standing, Need::Read) matches Some(e) ==> fails(r, e)
    &&& denied(standing, Need::Read) is None ==> (match collection_in_org(found, org) {
        Lookup::Found(c) => gives(r, 200, c.updated_at.millis, None, c),
        Lookup::Missing => fails(r, ErrorView::NotFound),
        Lookup::Failed => fails(r, ErrorView::Database),
    })
}

/// A collection.
pub fn get_collection(
    standing: &Standing,
    found: Lookup<Collection>,
    org: Uuid,
) -> (r: Result<Answer<Collection>, AppError>)
    ensures
        get_collection_outcome(r, *standing, found, org),
{
    match authorize(standing, Need::Read) {
        Ok(()) => {},
        Err(e) => return Err(e),
    }
    match find_collection_scoped(found, org) {
        Ok(c) => etag_response_status(200, c.updated_at.millis, None, c),
        Err(e) => Err(e),
    }
}

/// The version of a collection.
pub open spec fn collection_version() -> spec_fn(Collection) -> i64 {
    |c: Collection| c.updated_at.millis
}

/// Whether `r` is what [`plan_delete_collection`] owes its caller.
pub open spec fn plan_delete_collection_outcome(
    r: Result<Collection, AppError>,
    standing: Standing,
    found: Lookup<Collection>,
    org: Uuid,
    if_match: Option<&str>,
) -> bool {
    &&& denied(standing, Need::BuildCollections) matches Some(e) ==> fails(r, e)
    &&& denied(standing, Need::BuildCollections) is None ==> looked_up_at(
        r,
        collection_in_org(found, org),
        str_of(if_match),
        collection_version(),
    )
}

/// Opens a collection for a write, at the version that it was made for.
pub fn plan_delete_collection(
    standing: &Standing,
    found: Lookup<Collection>,
    org: Uuid,
    if_match: Option<&str>,
) -> (r: Result<Collection, AppError>)
    ensures
        plan_delete_collection_outcome(r, *standing, found, org, if_match),
{
    match authorize(standing, Need::BuildCollections) {
        Ok(()) => {},
        Err(e) => return Err(e),
    }
    let c: Collection = match find_collection_scoped(found, org) {
        Ok(c) => c,
        Err(e) => return Err(e),
    };
    match check_if_match(if_match, c.updated_at.millis) {
        Ok(()) => Ok(c),
        Err(e) => Err(e),
    }
}

/// Whether `r` is what [`plan_update_collection`] owes its caller.
pub open spec fn plan_update_collection_outcome(
    r: Result<Collection, AppError>,
    standing: Standing,
    found: Lookup<Collection>,
    org: Uuid,
    if_match: Option<&str>,
    body: CollectionRequest,
) -> bool {
    &&& denied(standing, Need::BuildCollections) matches Some(e) ==> fails(r, e)
    &&& denied(standing, Need::BuildCollections) is None ==> (match collection_in_org(found, org) {
        Lookup::Missing => fails(r, ErrorView::NotFound),
        Lookup::Failed => fails(r, ErrorView::Database),
        Lookup::Found(c) => if !names_version(str_of(if_match), c.updated_at.millis) {
            fails(r, ErrorView::PreconditionFailed)
        } else {
            match body.wrong() {
                Some(e) => fails(r, e),
                None => r == Ok::<Collection, AppError>(c),
            }
        },
    })
}

/// Opens a collection to change it.
pub fn plan_update_collection(
    standing: &Standing,
    found: Lookup<Collection>,
    org: Uuid,
    if_match: Option<&str>,
    body: &CollectionRequest,
) -> (r: Result<Collection, AppError>)
    ensures
        plan_update_collection_outcome(r, *standing, found, org, if_match, *body),
{
    match authorize(standing, Need::BuildCollections) {
        Ok(()) => {},
        Err(e) => return Err(e),
    }
    let c: Collection = match plan_delete_collection(standing, found, org, if_match) {
        Ok(c) => c,
        Err(e) => return Err(e),
    };
    match body.check() {
        Ok(()) => Ok(c),
        Err(e) => Err(e),
    }
}

/// Whether `r` is what [`collection_updated`] owes its caller.
pub open spec fn collection_updated_outcome(
    r: Result<Answer<Collection>, AppError>,
    caller: Caller,
    org: Uuid,
    request_id: Uuid,
    current: Collection,
    result: Result<Option<Collection>, CollectionError>,
) -> bool {
    match result {
        Err(e) => fails(r, collection_error_view(e)),
        Ok(None) => fails(r, ErrorView::NotFound),
        Ok(Some(c)) => gives(
            r,
            200,
            c.updated_at.millis,
            Some(
                entry(
                    caller.audit_context(Some(org), request_id),
                    "collection.update"@,
                    "collection"@,
                    current.id,
                    seq![
                        within("before"@, "name"@, FactView::Text(current.name@)),
                        within("before"@, "type"@, FactView::Text(current.collection_type@)),
                        within("after"@, "name"@, FactView::Text(c.name@)),
                        within("after"@, "type"@, FactView::Text(c.collection_type@)),
                    ],
                ),
            ),
            c,
        ),
    }
}

/// How changing the collection `current` ended. `Ok(None)` where it was gone by
/// then.
pub fn collection_updated(
    caller: &Caller,
    org: Uuid,
    request_id: Uuid,
    current: &Collection,
    result: Result<Option<Collection>, CollectionError>,
) -> (r: Result<Answer<Collection>, AppError>)
    ensures
        collection_updated_outcome(r, *caller, org, request_id, *current, result),
{
    match result {
        Err(e) => Err(collection_error_to_app_error(e)),
        Ok(None) => Err(AppError::NotFound),
        Ok(Some(c)) => {
            let e: AuditEntry = AuditEntry::new(
                caller.audit_ctx(Some(org), request_id),
                "collection.update",
                "collection",
                current.id,
            ).with_in("before", "name", text(current.name.as_str())).with_in(
                "before",
                "type",
                text(current.collection_type.as_str()),
            ).with_in("after", "name", text(c.name.as_str())).with_in(
                "after",
                "type",
                text(c.collection_type.as_str()),
            );
            etag_response_status(200, c.updated_at.millis, Some(e), c)
        },
    }
}

/// What is recorded of a collection that is taken away or brought back.
pub open spec fn collection_entry(
    caller: Caller,
    org: Uuid,
    request_id: Uuid,
    action: Seq<char>,
    c: Collection,
) -> EntryView {
    entry(
        caller.audit_context(Some(org), request_id),
        action,
        "collection"@,
        c.id,
        seq![
            detail("name"@, FactView::Text(c.name@)),
            detail("slug"@, FactView::Text(c.slug@)),
        ],
    )
}

fn collection_record(
    caller: &Caller,
    org: Uuid,
    request_id: Uuid,
    action: &str,
    c: &Collection,
) -> (r: AuditEntry)
    ensures
        r@ =~= collection_entry(*caller, org, request_id, action@, *c),
{
    AuditEntry::new(caller.audit_ctx(Some(org), request_id), action, "collection", c.id).with(
        "name",
        text(c.name.as_str()),
    ).with("slug", text(c.slug.as_str()))
}

/// Whether `r` is what [`collection_deleted`] owes its caller.
pub open spec fn collection_deleted_outcome(
    r: Result<Answer<()>, AppError>,
    caller: Caller,
    org: Uuid,
    request_id: Uuid,
    current: Collection,
    result: Option<bool>,
) -> bool {
    removal(
        r,
        result,
        collection_entry(caller, org, request_id, "collection.soft_delete"@, current),
    )
}

/// How deleting the collection `current` ended.
pub fn collection_deleted(
    caller: &Caller,
    org: Uuid,
    request_id: Uuid,
    current: &Collection,
    result: Option<bool>,
) -> (r: Result<Answer<()>, AppError>)
    ensures
        collection_deleted_outcome(r, *caller, org, request_id, *current, result),
{
    finish_removal(
        result,
        collection_record(caller, org, request_id, "collection.soft_delete", current),
    )
}

/// Whether `r` is what [`plan_undelete_collection`] owes its caller.
pub open spec fn plan_undelete_collection_outcome(
    r: Result<Collection, AppError>,
    standing: Standing,
    found: Lookup<Collection>,
    org: Uuid,
) -> bool {
    &&& denied(standing, Need::BuildCollections) matches Some(e) ==> fails(r, e)
    &&& denied(standing, Need::BuildCollections) is None ==> looked_up(
        r,
        collection_in_org(found, org),
    )
}

/// Opens a collection, deleted or not, to restore it.
pub fn plan_undelete_collection(
    standing: &Standing,
    found: Lookup<Collection>,
    org: Uuid,
) -> (r: Result<Collection, AppError>)
    ensures
        plan_undelete_collection_outcome(r, *standing, found, org),
{
    match authorize(standing, Need::BuildCollections) {
        Ok(()) => {},
        Err(e) => return Err(e),
    }
    find_collection_scoped(found, org)
}

/// Whether `r` is what [`collection_undeleted`] owes its caller.
pub open spec fn collection_undeleted_outcome(
    r: Result<Answer<()>, AppError>,
    caller: Caller,
    org: Uuid,
    request_id: Uuid,
    current: Collection,
    result: Result<bool, CollectionError>,
) -> bool {
    match result {
        Err(e) => fails(r, collection_error_view(e)),
        Ok(changed) => removal(
            r,
            Some(changed),
            collection_entry(caller, org, request_id, "collection.undelete"@, current),
        ),
    }
}

/// How restoring the collection `current` ended.
pub fn collection_undeleted(
    caller: &Caller,
    org: Uuid,
    request_id: Uuid,
    current: &Collection,
    result: Result<bool, CollectionError>,
) -> (r: Result<Answer<()>, AppError>)
    ensures
        collection_undeleted_outcome(r, *caller, org, request_id, *current, result),
{
    match result {
        Err(e) => Err(collection_error_to_app_error(e)),
        Ok(changed) => finish_removal(
            Some(changed),
            collection_record(caller, org, request_id, "collection.undelete", current),
        ),
    }
}

/// Whether `r` is what [`plan_list_items`] owes its caller.
pub open spec fn plan_list_items_outcome(
    r: Result<Collection, AppError>,
    standing: Standing,
    found: Lookup<Collection>,
    org: Uuid,
) -> bool {
    &&& denied(standing, Need::Read) matches Some(e) ==> fails(r, e)
    &&& denied(standing, Need::Read) is None ==> looked_up(r, collection_in_org(found, org))
}

/// Opens a collection to list its pieces.
pub fn plan_list_items(
    standing: &Standing,
    found: Lookup<Collection>,
    org: Uuid,
) -> (r: Result<Collection, AppError>)
    ensures
        plan_list_items_outcome(r, *standing, found, org),
{
    match authorize(standing, Need::Read) {
        Ok(()) => {},
        Err(e) => return Err(e),
    }
    find_collection_scoped(found, org)
}

/// Whether `r` is what [`plan_reorder`] owes its caller.
pub open spec fn plan_reorder_outcome(
    r: Result<Collection, AppError>,
    standing: Standing,
    found: Lookup<Collection>,
    org: Uuid,
) -> bool {
    &&& denied(standing, Need::BuildCollections) matches Some(e) ==> fails(r, e)
    &&& denied(standing, Need::BuildCollections) is None ==> looked_up(
        r,
        collection_in_org(found, org),
    )
}

/// Opens a collection to put its pieces in a new order.
pub fn plan_reorder(
    standing: &Standing,
    found: Lookup<Collection>,
    org: Uuid,
) -> (r: Result<Collection, AppError>)
    ensures
        plan_reorder_outcome(r, *standing, found, org),
{
    match authorize(standing, Need::BuildCollections) {
        Ok(()) => {},
        Err(e) => return Err(e),
    }
    find_collection_scoped(found, org)
}

/// Whether `r` is what [`items_reordered`] owes its caller.
pub open spec fn items_reordered_outcome(
    r: Result<Answer<()>, AppError>,
    caller: Caller,
    org: Uuid,
    request_id: Uuid,
    collection: Uuid,
    order: Vec<Uuid>,
    result: Result<(), ItemError>,
) -> bool {
    match result {
        Err(e) => fails(r, item_error_view(e)),
        Ok(()) => done(
            r,
            204,
            entry(
                caller.audit_context(Some(org), request_id),
                "collection.reorder"@,
                "collection"@,
                collection,
                seq![detail("orderedIds"@, FactView::Ids(order@))],
            ),
        ),
    }
}

/// How putting the pieces of a collection in a new order ended.
pub fn items_reordered(
    caller: &Caller,
    org: Uuid,
    request_id: Uuid,
    collection: Uuid,
    order: &Vec<Uuid>,
    result: Result<(), ItemError>,
) -> (r: Result<Answer<()>, AppError>)
    ensures
        items_reordered_outcome(r, *caller, org, request_id, collection, *order, result),
{
    match result {
        Err(e) => Err(item_error_to_app_error(e)),
        Ok(()) => no_content(
            204,
            AuditEntry::new(
                caller.audit_ctx(Some(org), request_id),
                "collection.reorder",
                "collection",
                collection,
            ).with("orderedIds", ids(order)),
        ),
    }
}

/// Whether `r` is what [`plan_add_item`] owes its caller.
pub open spec fn plan_add_item_outcome(
    r: Result<(), AppError>,
    standing: Standing,
    found: Lookup<Collection>,
    org: Uuid,
    index: i32,
) -> bool {
    &&& denied(standing, Need::BuildCollections) matches Some(e) ==> fails(r, e)
    &&& denied(standing, Need::BuildCollections) is None ==> (match collection_in_org(found, org) {
        Lookup::Missing => fails(r, ErrorView::NotFound),
        Lookup::Failed => fails(r, ErrorView::Database),
        Lookup::Found(_) => if 1 <= index <= MAX_INDEX {
            r is Ok
        } else {
            fails(r, invalid("index"@, "index must be between 1 and 999999"@))
        },
    })
}

/// Lets a piece number be used in a collection of the organization.
pub fn plan_add_item(
    standing: &Standing,
    found: Lookup<Collection>,
    org: Uuid,
    index: i32,
) -> (r: Result<(), AppError>)
    ensures
        plan_add_item_outcome(r, *standing, found, org, index),
{
    match authorize(standing, Need::BuildCollections) {
        Ok(()) => {},
        Err(e) => return Err(e),
    }
    match find_collection_scoped(found, org) {
        Ok(_) => validate_index(index),
        Err(e) => Err(e),
    }
}

/// Whether `r` is what [`require_own_arrangement`] owes its caller.
pub open spec fn require_own_arrangement_outcome(
    r: Result<(), AppError>,
    found: Lookup<Arrangement>,
    org: Uuid,
) -> bool {
    match in_org(found, org) {
        Lookup::Missing => fails(r, ErrorView::NotFound),
        Lookup::Failed => fails(r, ErrorView::Database),
        Lookup::Found(_) => r is Ok,
    }
}

/// Lets an arrangement be added: it must be the organization's.
pub fn require_own_arrangement(found: Lookup<Arrangement>, org: Uuid) -> (r: Result<(), AppError>)
    ensures
        require_own_arrangement_outcome(r, found, org),
{
    match require(scoped_arrangement(found, org)) {
        Ok(_) => Ok(()),
        Err(e) => Err(e),
    }
}

/// Whether `r` is what [`item_added`] owes its caller.
pub open spec fn item_added_outcome(
    r: Result<Answer<CollectionItem>, AppError>,
    caller: Caller,
    org: Uuid,
    request_id: Uuid,
    collection: Uuid,
    arrangement: Uuid,
    index: i32,
    result: Result<CollectionItem, ItemError>,
) -> bool {
    match result {
        Err(e) => fails(r, item_error_view(e)),
        Ok(i) => gives(
            r,
            201,
            i.updated_at.millis,
            Some(
                entry(
                    caller.audit_context(Some(org), request_id),
                    "collection_item.create"@,
                    "collection_item"@,
                    i.id,
                    seq![
                        detail("collectionId"@, FactView::Id(collection)),
                        detail("arrangementId"@, FactView::Id(arrangement)),
                        detail("index"@, FactView::Number(index as int)),
                    ],
                ),
            ),
            i,
        ),
    }
}

/// How adding a piece ended.
pub fn item_added(
    caller: &Caller,
    org: Uuid,
    request_id: Uuid,
    collection: Uuid,
    arrangement: Uuid,
    index: i32,
    result: Result<CollectionItem, ItemError>,
) -> (r: Result<Answer<CollectionItem>, AppError>)
    ensures
        item_added_outcome(r, *caller, org, request_id, collection, arrangement, index, result),
{
    match result {
        Err(e) => Err(item_error_to_app_error(e)),
        Ok(i) => {
            let e: AuditEntry = AuditEntry::new(
                caller.audit_ctx(Some(org), request_id),
                "collection_item.create",
                "collection_item",
                i.id,
            ).with("collectionId", Fact::Id(collection)).with(
                "arrangementId",
                Fact::Id(arrangement),
            ).with("index", Fact::Number(index as i64));
            etag_response_status(201, i.updated_at.millis, Some(e), i)
        },
    }
}

/// Whether `r` is what [`get_item`] owes its caller.
pub open spec fn get_item_outcome(
    r: Result<Answer<CollectionItem>, AppError>,
    standing: Standing,
    parent: Lookup<Collection>,
    found: Lookup<CollectionItem>,
    org: Uuid,
    collection: Uuid,
) -> bool {
    &&& denied(standing, Need::Read) matches Some(e) ==> fails(r, e)
    &&& denied(standing, Need::Read) is None
        ==> (match item_in_org(parent, found, org, collection) {
        Lookup::Found(i) => gives(r, 200, i.updated_at.millis, None, i),
        Lookup::Missing => fails(r, ErrorView::NotFound),
        Lookup::Failed => fails(r, ErrorView::Database),
    })
}

/// A piece of a collection.
pub fn get_item(
    standing: &Standing,
    parent: Lookup<Collection>,
    found: Lookup<CollectionItem>,
    org: Uuid,
    collection: Uuid,
) -> (r: Result<Answer<CollectionItem>, AppError>)
    ensures
        get_item_outcome(r, *standing, parent, found, org, collection),
{
    match authorize(standing, Need::Read) {
        Ok(()) => {},
        Err(e) => return Err(e),
    }
    match find_item_scoped(parent, found, org, collection) {
        Ok(i) => etag_response_status(200, i.updated_at.millis, None, i),
        Err(e) => Err(e),
    }
}

/// The version of a piece.
pub open spec fn item_version() -> spec_fn(CollectionItem) -> i64 {
    |i: CollectionItem| i.updated_at.millis
}

/// Whether `r` is what [`plan_delete_item`] owes its caller.
pub open spec fn plan_delete_item_outcome(
    r: Result<CollectionItem, AppError>,
    standing: Standing,
    parent: Lookup<Collection>,
    found: Lookup<CollectionItem>,
    org: Uuid,
    collection: Uuid,
    if_match: Option<&str>,
) -> bool {
    &&& denied(standing, Need::BuildCollections) matches Some(e) ==> fails(r, e)
    &&& denied(standing, Need::BuildCollections) is None ==> looked_up_at(
        r,
        item_in_org(parent, found, org, collection),
        str_of(if_match),
        item_version(),
    )
}

/// Opens a piece for a write, at the version that it was made for.
pub fn plan_delete_item(
    standing: &Standing,
    parent: Lookup<Collection>,
    found: Lookup<CollectionItem>,
    org: Uuid,
    collection: Uuid,
    if_match: Option<&str>,
) -> (r: Result<CollectionItem, AppError>)
    ensures
        plan_delete_item_outcome(r, *standing, parent, found, org, collection, if_match),
{
    match authorize(standing, Need::BuildCollections) {
        Ok(()) => {},
        Err(e) => return Err(e),
    }
    let i: CollectionItem = match find_item_scoped(parent, found, org, collection) {
        Ok(i) => i,
        Err(e) => return Err(e),
    };
    match check_if_match(if_match, i.updated_at.millis) {
        Ok(()) => Ok(i),
        Err(e) => Err(e),
    }
}

/// Whether `r` is what [`plan_update_item`] owes its caller.
pub open spec fn plan_update_item_outcome(
    r: Result<CollectionItem, AppError>,
    standing: Standing,
    parent: Lookup<Collection>,
    found: Lookup<CollectionItem>,
    org: Uuid,
    collection: Uuid,
    if_match: Option<&str>,
    index: i32,
) -> bool {
    &&& denied(standing, Need::BuildCollections) matches Some(e) ==> fails(r, e)
    &&& denied(standing, Need::BuildCollections) is None
        ==> (match item_in_org(parent, found, org, collection) {
        Lookup::Missing => fails(r, ErrorView::NotFound),
        Lookup::Failed => fails(r, ErrorView::Database),
        Lookup::Found(i) => if !names_version(str_of(if_match), i.updated_at.millis) {
            fails(r, ErrorView::PreconditionFailed)
        } else if 1 <= index <= MAX_INDEX {
            r == Ok::<CollectionItem, AppError>(i)
        } else {
            fails(r, invalid("index"@, "index must be between 1 and 999999"@))
        },
    })
}

/// Opens a piece to give it another number.
pub fn plan_update_item(
    standing: &Standing,
    parent: Lookup<Collection>,
    found: Lookup<CollectionItem>,
    org: Uuid,
    collection: Uuid,
    if_match: Option<&str>,
    index: i32,
) -> (r: Result<CollectionItem, AppError>)
    ensures
        plan_update_item_outcome(r, *standing, parent, found, org, collection, if_match, index),
{
    match authorize(standing, Need::BuildCollections) {
        Ok(()) => {},
        Err(e) => return Err(e),
    }
    let i: CollectionItem = match plan_delete_item(standing, parent, found, org, collection, if_match) {
        Ok(i) => i,
        Err(e) => return Err(e),
    };
    match validate_index(index) {
        Ok(()) => Ok(i),
        Err(e) => Err(e),
    }
}

/// Whether `r` is what [`item_updated`] owes its caller.
pub open spec fn item_updated_outcome(
    r: Result<Answer<CollectionItem>, AppError>,
    caller: Caller,
    org: Uuid,
    request_id: Uuid,
    current: CollectionItem,
    result: Result<Option<CollectionItem>, ItemError>,
) -> bool {
    match result {
        Err(e) => fails(r, item_error_view(e)),
        Ok(None) => fails(r, ErrorView::NotFound),
        Ok(Some(i)) => gives(
            r,
            200,
            i.updated_at.millis,
            Some(
                entry(
                    caller.audit_context(Some(org), request_id),
                    "collection_item.update"@,
                    "collection_item"@,
                    current.id,
                    seq![
                        within("before"@, "index"@, FactView::Number(current.index as int)),
                        within("after"@, "index"@, FactView::Number(i.index as int)),
                    ],
                ),
            ),
            i,
        ),
    }
}

/// How giving the piece `current` another number ended. `Ok(None)` where it was
/// gone by then.
pub fn item_updated(
    caller: &Caller,
    org: Uuid,
    request_id: Uuid,
    current: &CollectionItem,
    result: Result<Option<CollectionItem>, ItemError>,
) -> (r: Result<Answer<CollectionItem>, AppError>)
    ensures
        item_updated_outcome(r, *caller, org, request_id, *current, result),
{
    match result {
        Err(e) => Err(item_error_to_app_error(e)),
        Ok(None) => Err(AppError::NotFound),
        Ok(Some(i)) => {
            let e: AuditEntry = AuditEntry::new(
                caller.audit_ctx(Some(org), request_id),
                "collection_item.update",
                "collection_item",
                current.id,
            ).with_in("before", "index", Fact::Number(current.index as i64)).with_in(
                "after",
                "index",
                Fact::Number(i.index as i64),
            );
            etag_response_status(200, i.updated_at.millis, Some(e), i)
        },
    }
}

/// What is recorded of a piece that is taken away or brought back.
pub open spec fn item_entry(
    caller: Caller,
    org: Uuid,
    request_id: Uuid,
    action: Seq<char>,
    collection: Uuid,
    i: CollectionItem,
) -> EntryView {
    entry(
        caller.audit_context(Some(org), request_id),
        action,
        "collection_item"@,
        i.id,
        seq![
            detail("collectionId"@, FactView::Id(collection)),
            detail("index"@, FactView::Number(i.index as int)),
        ],
    )
}

fn item_record(
    caller: &Caller,
    org: Uuid,
    request_id: Uuid,
    action: &str,
    collection: Uuid,
    i: &CollectionItem,
) -> (r: AuditEntry)
    ensures
        r@ =~= item_entry(*caller, org, request_id, action@, collection, *i),
{
    AuditEntry::new(caller.audit_ctx(Some(org), request_id), action, "collection_item", i.id).with(
        "collectionId",
        Fact::Id(collection),
    ).with("index", Fact::Number(i.index as i64))
}

/// Whether `r` is what [`item_deleted`] owes its caller.
pub open spec fn item_deleted_outcome(
    r: Result<Answer<()>, AppError>,
    caller: Caller,
    org: Uuid,
    request_id: Uuid,
    collection: Uuid,
    current: CollectionItem,
    result: Option<bool>,
) -> bool {
    removal(
        r,
        result,
        item_entry(
            caller,
            org,
            request_id,
            "collection_item.soft_delete"@,
            collection,
            current,
        ),
    )
}

/// How removing the piece `current` ended.
pub fn item_deleted(
    caller: &Caller,
    org: Uuid,
    request_id: Uuid,
    collection: Uuid,
    current: &CollectionItem,
    result: Option<bool>,
) -> (r: Result<Answer<()>, AppError>)
    ensures
        item_deleted_outcome(r, *caller, org, request_id, collection, *current, result),
{
    finish_removal(
        result,
        item_record(caller, org, request_id, "collection_item.soft_delete", collection, current),
    )
}

/// Whether `r` is what [`plan_undelete_item`] owes its caller.
pub open spec fn plan_undelete_item_outcome(
    r: Result<CollectionItem, AppError>,
    standing: Standing,
    parent: Lookup<Collection>,
    found: Lookup<CollectionItem>,
    org: Uuid,
    collection: Uuid,
) -> bool {
    &&& denied(standing, Need::BuildCollections) matches Some(e) ==> fails(r, e)
    &&& denied(standing, Need::BuildCollections) is None ==> looked_up(
        r,
        item_in_org(parent, found, org, collection),
    )
}

/// Opens a piece, removed or not, to restore it.
pub fn plan_undelete_item(
    standing: &Standing,
    parent: Lookup<Collection>,
    found: Lookup<CollectionItem>,
    org: Uuid,
    collection: Uuid,
) -> (r: Result<CollectionItem, AppError>)
    ensures
        plan_undelete_item_outcome(r, *standing, parent, found, org, collection),
{
    match authorize(standing, Need::BuildCollections) {
        Ok(()) => {},
        Err(e) => return Err(e),
    }
    find_item_scoped(parent, found, org, collection)
}

/// Whether `r` is what [`item_undeleted`] owes its caller.
pub open spec fn item_undeleted_outcome(
    r: Result<Answer<()>, AppError>,
    caller: Caller,
    org: Uuid,
    request_id: Uuid,
    collection: Uuid,
    current: CollectionItem,
    result: Result<bool, ItemError>,
) -> bool {
    match result {
        Err(e) => fails(r, item_error_view(e)),
        Ok(changed) => removal(
            r,
            Some(changed),
            item_entry(
                caller,
                org,
                request_id,
                "collection_item.undelete"@,
                collection,
                current,
            ),
        ),
    }
}

/// How restoring the piece `current` ended.
pub fn item_undeleted(
    caller: &Caller,
    org: Uuid,
    request_id: Uuid,
    collection: Uuid,
    current: &CollectionItem,
    result: Result<bool, ItemError>,
) -> (r: Result<Answer<()>, AppError>)
    ensures
        item_undeleted_outcome(r, *caller, org, request_id, collection, *current, result),
{
    match result {
        Err(e) => Err(item_error_to_app_error(e)),
        Ok(changed) => finish_removal(
            Some(changed),
            item_record(caller, org, request_id, "collection_item.undelete", collection, current),
        ),
    }
}

/// Why a player was not added to a voice.
pub enum PartAssignmentError {
    Duplicate,
    VoiceNotInArrangement,
    UnknownReference,
    Database,
}

/// The error that a failure to add a player is answered with.
pub open spec fn part_assignment_error_view(err: PartAssignmentError) -> ErrorView {
    match err {
        PartAssignmentError::Duplicate => ErrorView::Conflict(
            "this musician already plays this voice on this piece"@,
        ),
        PartAssignmentError::VoiceNotInArrangement => invalid(
            "voiceId"@,
            "voice does not exist or does not belong to this item's arrangement"@,
        ),
        PartAssignmentError::UnknownReference => invalid("userId"@, "user does not exist"@),
        PartAssignmentError::Database => ErrorView::Database,
    }
}

/// The error that a failure to add a player is answered with.
pub fn part_assignment_error_to_app_error(err: PartAssignmentError) -> (r: AppError)
    ensures
        r@ == part_assignment_error_view(err),
{
    match err {
        PartAssignmentError::Duplicate => AppError::Conflict(
            "this musician already plays this voice on this piece".to_owned(),
        ),
        PartAssignmentError::VoiceNotInArrangement => AppError::invalid(
            "voiceId",
            "voice does not exist or does not belong to this item's arrangement",
        ),
        PartAssignmentError::UnknownReference => AppError::invalid("userId", "user does not exist"),
        PartAssignmentError::Database => AppError::Database,
    }
}

/// Whether `r` is what [`plan_list_assignments`] owes its caller.
pub open spec fn plan_list_assignments_outcome(
    r: Result<CollectionItem, AppError>,
    standing: Standing,
    parent: Lookup<Collection>,
    found: Lookup<CollectionItem>,
    org: Uuid,
    collection: Uuid,
) -> bool {
    &&& denied(standing, Need::Read) matches Some(e) ==> fails(r, e)
    &&& denied(standing, Need::Read) is None ==> looked_up(
        r,
        item_in_org(parent, found, org, collection),
    )
}

/// Opens a piece to list its players.
pub fn plan_list_assignments(
    standing: &Standing,
    parent: Lookup<Collection>,
    found: Lookup<CollectionItem>,
    org: Uuid,
    collection: Uuid,
) -> (r: Result<CollectionItem, AppError>)
    ensures
        plan_list_assignments_outcome(r, *standing, parent, found, org, collection),
{
    match authorize(standing, Need::Read) {
        Ok(()) => {},
        Err(e) => return Err(e),
    }
    find_item_scoped(parent, found, org, collection)
}

/// Whether `r` is what [`plan_assign_voice`] owes its caller.
pub open spec fn plan_assign_voice_outcome(
    r: Result<CollectionItem, AppError>,
    standing: Standing,
    parent: Lookup<Collection>,
    found: Lookup<CollectionItem>,
    org: Uuid,
    collection: Uuid,
) -> bool {
    &&& denied(standing, Need::BuildCollections) matches Some(e) ==> fails(r, e)
    &&& denied(standing, Need::BuildCollections) is None ==> looked_up(
        r,
        item_in_org(parent, found, org, collection),
    )
}

/// Opens a piece to add a player to one of its voices.
pub fn plan_assign_voice(
    standing: &Standing,
    parent: Lookup<Collection>,
    found: Lookup<CollectionItem>,
    org: Uuid,
    collection: Uuid,
) -> (r: Result<CollectionItem, AppError>)
    ensures
        plan_assign_voice_outcome(r, *standing, parent, found, org, collection),
{
    match authorize(standing, Need::BuildCollections) {
        Ok(()) => {},
        Err(e) => return Err(e),
    }
    find_item_scoped(parent, found, org, collection)
}

/// Whether `r` is what [`voice_assigned`] owes its caller.
pub open spec fn voice_assigned_outcome(
    r: Result<Answer<PartAssignment>, AppError>,
    caller: Caller,
    org: Uuid,
    request_id: Uuid,
    item: Uuid,
    result: Result<PartAssignment, PartAssignmentError>,
) -> bool {
    match result {
        Err(e) => fails(r, part_assignment_error_view(e)),
        Ok(a) => gives(
            r,
            201,
            a.updated_at.millis,
            Some(
                assignment_entry(
                    caller,
                    org,
                    request_id,
                    "part_assignment.create"@,
                    item,
                    a,
                ),
            ),
            a,
        ),
    }
}

/// How adding a player to a voice ended. Nobody is replaced by it.
pub fn voice_assigned(
    caller: &Caller,
    org: Uuid,
    request_id: Uuid,
    item: Uuid,
    result: Result<PartAssignment, PartAssignmentError>,
) -> (r: Result<Answer<PartAssignment>, AppError>)
    ensures
        voice_assigned_outcome(r, *caller, org, request_id, item, result),
{
    match result {
        Err(e) => Err(part_assignment_error_to_app_error(e)),
        Ok(a) => {
            let e: AuditEntry = assignment_record(
                caller,
                org,
                request_id,
                "part_assignment.create",
                item,
                &a,
            );
            etag_response_status(201, a.updated_at.millis, Some(e), a)
        },
    }
}

/// What is recorded of an assignment that is made or taken back.
pub open spec fn assignment_entry(
    caller: Caller,
    org: Uuid,
    request_id: Uuid,
    action: Seq<char>,
    item: Uuid,
    a: PartAssignment,
) -> EntryView {
    entry(
        caller.audit_context(Some(org), request_id),
        action,
        "part_assignment"@,
        a.id,
        seq![
            detail("collectionItemId"@, FactView::Id(item)),
            detail("voiceId"@, FactView::Id(a.voice_id)),
            detail("userId"@, FactView::Id(a.user_id)),
        ],
    )
}

fn assignment_record(
    caller: &Caller,
    org: Uuid,
    request_id: Uuid,
    action: &str,
    item: Uuid,
    a: &PartAssignment,
) -> (r: AuditEntry)
    ensures
        r@ =~= assignment_entry(*caller, org, request_id, action@, item, *a),
{
    AuditEntry::new(caller.audit_ctx(Some(org), request_id), action, "part_assignment", a.id).with(
        "collectionItemId",
        Fact::Id(item),
    ).with("voiceId", Fact::Id(a.voice_id)).with("userId", Fact::Id(a.user_id))
}

/// Whether `r` is what [`get_assignment`] owes its caller.
pub open spec fn get_assignment_outcome(
    r: Result<Answer<PartAssignment>, AppError>,
    standing: Standing,
    parent: Lookup<Collection>,
    item: Lookup<CollectionItem>,
    found: Lookup<PartAssignment>,
    org: Uuid,
    collection: Uuid,
    item_id: Uuid,
) -> bool {
    &&& denied(standing, Need::Read) matches Some(e) ==> fails(r, e)
    &&& denied(standing, Need::Read) is None
        ==> (match assignment_in_org(parent, item, found, org, collection, item_id) {
        Lookup::Found(a) => gives(r, 200, a.updated_at.millis, None, a),
        Lookup::Missing => fails(r, ErrorView::NotFound),
        Lookup::Failed => fails(r, ErrorView::Database),
    })
}

/// An assignment.
pub fn get_assignment(
    standing: &Standing,
    parent: Lookup<Collection>,
    item: Lookup<CollectionItem>,
    found: Lookup<PartAssignment>,
    org: Uuid,
    collection: Uuid,
    item_id: Uuid,
) -> (r: Result<Answer<PartAssignment>, AppError>)
    ensures
        get_assignment_outcome(r, *standing, parent, item, found, org, collection, item_id),
{
    match authorize(standing, Need::Read) {
        Ok(()) => {},
        Err(e) => return Err(e),
    }
    match find_assignment_scoped(parent, item, found, org, collection, item_id) {
        Ok(a) => etag_response_status(200, a.updated_at.millis, None, a),
        Err(e) => Err(e),
    }
}

/// The version of an assignment.
pub open spec fn assignment_version() -> spec_fn(PartAssignment) -> i64 {
    |a: PartAssignment| a.updated_at.millis
}

/// Whether `r` is what [`plan_assignment_write`] owes its caller.
pub open spec fn plan_assignment_write_outcome(
    r: Result<PartAssignment, AppError>,
    standing: Standing,
    parent: Lookup<Collection>,
    item: Lookup<CollectionItem>,
    found: Lookup<PartAssignment>,
    org: Uuid,
    collection: Uuid,
    item_id: Uuid,
    if_match: Option<&str>,
) -> bool {
    &&& denied(standing, Need::BuildCollections) matches Some(e) ==> fails(r, e)
    &&& denied(standing, Need::BuildCollections) is None ==> looked_up_at(
        r,
        assignment_in_org(parent, item, found, org, collection, item_id),
        str_of(if_match),
        assignment_version(),
    )
}

/// Opens an assignment for a write, at the version that it was made for.
pub fn plan_assignment_write(
    standing: &Standing,
    parent: Lookup<Collection>,
    item: Lookup<CollectionItem>,
    found: Lookup<PartAssignment>,
    org: Uuid,
    collection: Uuid,
    item_id: Uuid,
    if_match: Option<&str>,
) -> (r: Result<PartAssignment, AppError>)
    ensures
        plan_assignment_write_outcome(
            r,
            *standing,
            parent,
            item,
            found,
            org,
            collection,
            item_id,
            if_match,
        ),
{
    match authorize(standing, Need::BuildCollections) {
        Ok(()) => {},
        Err(e) => return Err(e),
    }
    let a: PartAssignment = match find_assignment_scoped(
        parent,
        item,
        found,
        org,
        collection,
        item_id,
    ) {
        Ok(a) => a,
        Err(e) => return Err(e),
    };
    match check_if_match(if_match, a.updated_at.millis) {
        Ok(()) => Ok(a),
        Err(e) => Err(e),
    }
}

/// Whether `r` is what [`assignment_updated`] owes its caller.
pub open spec fn assignment_updated_outcome(
    r: Result<Answer<PartAssignment>, AppError>,
    caller: Caller,
    org: Uuid,
    request_id: Uuid,
    current: PartAssignment,
    result: Option<Option<PartAssignment>>,
) -> bool {
    match result {
        None => fails(r, ErrorView::Database),
        Some(None) => fails(r, ErrorView::NotFound),
        Some(Some(a)) => gives(
            r,
            200,
            a.updated_at.millis,
            Some(
                entry(
                    caller.audit_context(Some(org), request_id),
                    "part_assignment.update_state"@,
                    "part_assignment"@,
                    current.id,
                    seq![
                        within("before"@, "notifiedAt"@, time_fact(current.notified_at)),
                        within(
                            "before"@,
                            "acknowledgedAt"@,
                            time_fact(current.acknowledged_at),
                        ),
                        within("after"@, "notifiedAt"@, time_fact(a.notified_at)),
                        within("after"@, "acknowledgedAt"@, time_fact(a.acknowledged_at)),
                    ],
                ),
            ),
            a,
        ),
    }
}

/// How recording the distribution state of `current` ended. `Some(None)` where
/// it was gone by then.
pub fn assignment_updated(
    caller: &Caller,
    org: Uuid,
    request_id: Uuid,
    current: &PartAssignment,
    result: Option<Option<PartAssignment>>,
) -> (r: Result<Answer<PartAssignment>, AppError>)
    ensures
        assignment_updated_outcome(r, *caller, org, request_id, *current, result),
{
    match result {
        None => Err(AppError::Database),
        Some(None) => Err(AppError::NotFound),
        Some(Some(a)) => {
            let e: AuditEntry = AuditEntry::new(
                caller.audit_ctx(Some(org), request_id),
                "part_assignment.update_state",
                "part_assignment",
                current.id,
            ).with_in("before", "notifiedAt", opt_time(current.notified_at)).with_in(
                "before",
                "acknowledgedAt",
                opt_time(current.acknowledged_at),
            ).with_in("after", "notifiedAt", opt_time(a.notified_at)).with_in(
                "after",
                "acknowledgedAt",
                opt_time(a.acknowledged_at),
            );
            etag_response_status(200, a.updated_at.millis, Some(e), a)
        },
    }
}

/// Whether `r` is what [`assignment_deleted`] owes its caller.
pub open spec fn assignment_deleted_outcome(
    r: Result<Answer<()>, AppError>,
    caller: Caller,
    org: Uuid,
    request_id: Uuid,
    item: Uuid,
    current: PartAssignment,
    result: Option<bool>,
) -> bool {
    removal(
        r,
        result,
        assignment_entry(
            caller,
            org,
            request_id,
            "part_assignment.delete"@,
            item,
            current,
        ),
    )
}

/// How taking the assignment `current` back ended.
pub fn assignment_deleted(
    caller: &Caller,
    org: Uuid,
    request_id: Uuid,
    item: Uuid,
    current: &PartAssignment,
    result: Option<bool>,
) -> (r: Result<Answer<()>, AppError>)
    ensures
        assignment_deleted_outcome(r, *caller, org, request_id, item, *current, result),
{
    finish_removal(
        result,
        assignment_record(caller, org, request_id, "part_assignment.delete", item, current),
    )
}

/// Members list the collections of their organization, narrowed to the kind that
/// was asked for.
pub proof fn collections_are_narrowed_to_a_kind(
    r: Result<Option<String>, AppError>,
    standing: Standing,
    filters: Vec<(String, String)>,
)
    requires
        plan_list_collections_outcome(r, standing, filters),
    ensures
        r is Ok <==> is_member(standing),
        forall|i: int| #[trigger]
            comes_first(filters@, "type"@, i) && r is Ok
                ==> text_of(r->Ok_0) == Some(filters@[i].1@),
        filters@.len() == 0 && r is Ok ==> r->Ok_0 is None,
{
    each_role_may_do_its_part(standing);
    the_earliest_value_counts(filters@, "type"@);
}

/// Who keeps collections creates them under a name that is not blank, as a
/// programme or a standing collection.
pub proof fn a_collection_needs_a_name_and_a_kind(
    r: Result<(), AppError>,
    standing: Standing,
    body: CollectionRequest,
)
    requires
        plan_create_collection_outcome(r, standing, body),
    ensures
        r is Ok <==> keeps_collections(standing) && trimmed(body.name@).len() > 0
            && (body.collection_type@ == "program"@ || body.collection_type@ == "standing"@),
{
    each_role_may_do_its_part(standing);
}

/// Creating a collection is answered with it and its tag, and is on record with
/// its name, slug and kind.
pub proof fn the_interface_records_a_new_collection(
    r: Result<Answer<Collection>, AppError>,
    caller: Caller,
    org: Uuid,
    request_id: Uuid,
    result: Result<Collection, CollectionError>,
)
    requires
        collection_created_outcome(r, caller, org, request_id, result),
    ensures
        result matches Ok(c) ==> r is Ok && {
            &&& r->Ok_0.status == 201
            &&& r->Ok_0.names(
                caller.user_id,
                Some(org),
                request_id,
                "collection.create"@,
                c.id,
            )
            &&& r->Ok_0.tells("name"@, FactView::Text(c.name@))
            &&& r->Ok_0.tells("slug"@, FactView::Text(c.slug@))
            &&& r->Ok_0.tells("type"@, FactView::Text(c.collection_type@))
            &&& r->Ok_0.body == c
            &&& r->Ok_0.is_tagged(c.updated_at)
        },
        result is Err ==> r is Err,
{
    broadcast use vstd::seq_lib::group_seq_properties;

}

/// Changing a collection is answered with it and its tag, and is on record with
/// what it was and what it is now.
pub proof fn the_interface_records_a_changed_collection(
    r: Result<Answer<Collection>, AppError>,
    caller: Caller,
    org: Uuid,
    request_id: Uuid,
    current: Collection,
    result: Result<Option<Collection>, CollectionError>,
)
    requires
        collection_updated_outcome(r, caller, org, request_id, current, result),
    ensures
        result matches Ok(Some(c)) ==> r is Ok && {
            &&& r->Ok_0.status == 200
            &&& r->Ok_0.names(
                caller.user_id,
                Some(org),
                request_id,
                "collection.update"@,
                current.id,
            )
            &&& r->Ok_0.tells_in("before"@, "name"@, FactView::Text(current.name@))
            &&& r->Ok_0.tells_in("before"@, "type"@, FactView::Text(current.collection_type@))
            &&& r->Ok_0.tells_in("after"@, "name"@, FactView::Text(c.name@))
            &&& r->Ok_0.tells_in("after"@, "type"@, FactView::Text(c.collection_type@))
            &&& r->Ok_0.body == c
            &&& r->Ok_0.is_tagged(c.updated_at)
        },
        result is Err || result->Ok_0 is None ==> r is Err,
{
    broadcast use vstd::seq_lib::group_seq_properties;

}

/// Members read the collections of their organization, and no others.
pub proof fn members_read_a_collection(
    r: Result<Answer<Collection>, AppError>,
    standing: Standing,
    found: Lookup<Collection>,
    org: Uuid,
)
    requires
        get_collection_outcome(r, standing, found, org),
    ensures
        r is Ok ==> is_member(standing) && found == Lookup::Found(r->Ok_0.body)
            && r->Ok_0.body.organization_id == org,
        r is Ok ==> r->Ok_0.status == 200 && r->Ok_0.is_tagged(r->Ok_0.body.updated_at)
            && r->Ok_0.audit is None,
        is_member(standing) && (found matches Lookup::Found(x) && x.organization_id == org)
            ==> r is Ok,
        is_member(standing) && found is Missing ==> r is Err && (r->Err_0@.status() == 404
            || r->Err_0@.status() == 500),
        is_member(standing) && (found matches Lookup::Found(x) && !(x.organization_id == org))
            ==> r is Err,
        !is_member(standing) ==> r is Err && (r->Err_0@.status() == 403
            || r->Err_0@.status() == 500),
{
    each_role_may_do_its_part(standing);
}

/// Who keeps collections opens those of the organization, at the version that the
/// request was made for.
pub proof fn a_collection_is_opened_for_deletion(
    r: Result<Collection, AppError>,
    standing: Standing,
    found: Lookup<Collection>,
    org: Uuid,
    if_match: Option<&str>,
)
    requires
        plan_delete_collection_outcome(r, standing, found, org, if_match),
    ensures
        r is Ok ==> keeps_collections(standing) && found == Lookup::Found(r->Ok_0)
            && r->Ok_0.organization_id == org && is_for(if_match, r->Ok_0.updated_at),
        keeps_collections(standing) && (found matches Lookup::Found(x) && x.organization_id == org
            && is_for(if_match, x.updated_at)) ==> r is Ok,
        !keeps_collections(standing) ==> r is Err && (r->Err_0@.status() == 403
            || r->Err_0@.status() == 500),
        keeps_collections(standing) && (found matches Lookup::Found(x) && x.organization_id == org
            && !is_for(if_match, x.updated_at)) ==> r is Err
            && r->Err_0@.status() == 412,
{
    each_role_may_do_its_part(standing);
}

/// Who keeps collections changes those of the organization, at the version that
/// the change was made for.
pub proof fn a_collection_is_opened_for_a_change(
    r: Result<Collection, AppError>,
    standing: Standing,
    found: Lookup<Collection>,
    org: Uuid,
    if_match: Option<&str>,
    body: CollectionRequest,
)
    requires
        plan_update_collection_outcome(r, standing, found, org, if_match, body),
    ensures
        r is Ok ==> keeps_collections(standing) && found == Lookup::Found(r->Ok_0)
            && r->Ok_0.organization_id == org && is_for(if_match, r->Ok_0.updated_at)
            && trimmed(body.name@).len() > 0 && (body.collection_type@ == "program"@
            || body.collection_type@ == "standing"@),
        keeps_collections(standing) && (found matches Lookup::Found(x) && x.organization_id == org
            && is_for(if_match, x.updated_at)) && trimmed(body.name@).len() > 0
            && (body.collection_type@ == "program"@ || body.collection_type@ == "standing"@)
            ==> r is Ok,
        !keeps_collections(standing) ==> r is Err && (r->Err_0@.status() == 403
            || r->Err_0@.status() == 500),
        keeps_collections(standing) && (found matches Lookup::Found(x) && x.organization_id == org
            && !is_for(if_match, x.updated_at)) ==> r is Err
            && r->Err_0@.status() == 412,
{
    each_role_may_do_its_part(standing);
}

/// Who keeps collections restores those of the organization.
pub proof fn a_collection_is_opened_for_restoring(
    r: Result<Collection, AppError>,
    standing: Standing,
    found: Lookup<Collection>,
    org: Uuid,
)
    requires
        plan_undelete_collection_outcome(r, standing, found, org),
    ensures
        r is Ok ==> keeps_collections(standing) && found == Lookup::Found(r->Ok_0)
            && r->Ok_0.organization_id == org,
        keeps_collections(standing) && (found matches Lookup::Found(x) && x.organization_id == org)
            ==> r is Ok,
        !keeps_collections(standing) ==> r is Err && (r->Err_0@.status() == 403
            || r->Err_0@.status() == 500),
{
    each_role_may_do_its_part(standing);
}

/// Who keeps collections reorders those of the organization.
pub proof fn a_collection_is_opened_for_reordering(
    r: Result<Collection, AppError>,
    standing: Standing,
    found: Lookup<Collection>,
    org: Uuid,
)
    requires
        plan_reorder_outcome(r, standing, found, org),
    ensures
        r is Ok ==> keeps_collections(standing) && found == Lookup::Found(r->Ok_0)
            && r->Ok_0.organization_id == org,
        keeps_collections(standing) && (found matches Lookup::Found(x) && x.organization_id == org)
            ==> r is Ok,
        !keeps_collections(standing) ==> r is Err && (r->Err_0@.status() == 403
            || r->Err_0@.status() == 500),
{
    each_role_may_do_its_part(standing);
}

/// Members list the pieces of the collections of their organization.
pub proof fn members_list_the_pieces(
    r: Result<Collection, AppError>,
    standing: Standing,
    found: Lookup<Collection>,
    org: Uuid,
)
    requires
        plan_list_items_outcome(r, standing, found, org),
    ensures
        r is Ok ==> is_member(standing) && found == Lookup::Found(r->Ok_0)
            && r->Ok_0.organization_id == org,
        is_member(standing) && (found matches Lookup::Found(x) && x.organization_id == org)
            ==> r is Ok,
        !is_member(standing) ==> r is Err && (r->Err_0@.status() == 403
            || r->Err_0@.status() == 500),
{
    each_role_may_do_its_part(standing);
}

/// Deleting a collection is on record exactly where it took place.
pub proof fn the_interface_records_a_deleted_collection(
    r: Result<Answer<()>, AppError>,
    caller: Caller,
    org: Uuid,
    request_id: Uuid,
    current: Collection,
    result: Option<bool>,
)
    requires
        collection_deleted_outcome(r, caller, org, request_id, current, result),
    ensures
        result == Some(true) ==> r is Ok && {
            &&& r->Ok_0.status == 204
            &&& r->Ok_0.names(
                caller.user_id,
                Some(org),
                request_id,
                "collection.soft_delete"@,
                current.id,
            )
            &&& r->Ok_0.tells("name"@, FactView::Text(current.name@))
            &&& r->Ok_0.tells("slug"@, FactView::Text(current.slug@))
            &&& r->Ok_0.etag is None
        },
        r is Ok <==> result == Some(true),
        result == Some(false) ==> r->Err_0@.status() == 404,
        result is None ==> r->Err_0@.status() == 500,
{
    broadcast use vstd::seq_lib::group_seq_properties;

}

/// Restoring a collection is on record exactly where it took place.
pub proof fn the_interface_records_a_restored_collection(
    r: Result<Answer<()>, AppError>,
    caller: Caller,
    org: Uuid,
    request_id: Uuid,
    current: Collection,
    result: Result<bool, CollectionError>,
)
    requires
        collection_undeleted_outcome(r, caller, org, request_id, current, result),
    ensures
        result == Ok::<bool, CollectionError>(true) ==> r is Ok && {
            &&& r->Ok_0.status == 204
            &&& r->Ok_0.names(
                caller.user_id,
                Some(org),
                request_id,
                "collection.undelete"@,
                current.id,
            )
            &&& r->Ok_0.tells("name"@, FactView::Text(current.name@))
            &&& r->Ok_0.tells("slug"@, FactView::Text(current.slug@))
            &&& r->Ok_0.etag is None
        },
        r is Ok <==> result == Ok::<bool, CollectionError>(true),
        result == Ok::<bool, CollectionError>(false) ==> r->Err_0@.status() == 404,
        result matches Err(CollectionError::DuplicateSlug) ==> r->Err_0@.status() == 409,
{
    broadcast use vstd::seq_lib::group_seq_properties;

}

/// Reordering is on record, with the new order, exactly where it took place.
pub proof fn the_interface_records_a_new_order(
    r: Result<Answer<()>, AppError>,
    caller: Caller,
    org: Uuid,
    request_id: Uuid,
    collection: Uuid,
    order: Vec<Uuid>,
    result: Result<(), ItemError>,
)
    requires
        items_reordered_outcome(r, caller, org, request_id, collection, order, result),
    ensures
        result is Ok ==> r is Ok && {
            &&& r->Ok_0.status == 204
            &&& r->Ok_0.names(
                caller.user_id,
                Some(org),
                request_id,
                "collection.reorder"@,
                collection,
            )
            &&& r->Ok_0.tells("orderedIds"@, FactView::Ids(order@))
            &&& r->Ok_0.etag is None
        },
        result is Err ==> r is Err,
        result matches Err(ItemError::InvalidReorder) ==> r->Err_0@.status() == 409,
{
    broadcast use vstd::seq_lib::group_seq_properties;

}

/// Who keeps collections adds pieces to those of the organization, under numbers
/// from 1 to 999999.
pub proof fn a_piece_is_added_under_a_valid_number(
    r: Result<(), AppError>,
    standing: Standing,
    found: Lookup<Collection>,
    org: Uuid,
    index: i32,
)
    requires
        plan_add_item_outcome(r, standing, found, org, index),
    ensures
        r is Ok <==> keeps_collections(standing) && (found matches Lookup::Found(c)
            && c.organization_id
            == org) && 1 <= index <= 999_999,
{
    each_role_may_do_its_part(standing);
}

/// Only arrangements of the organization itself are added.
pub proof fn only_own_arrangements_are_added(
    r: Result<(), AppError>,
    found: Lookup<Arrangement>,
    org: Uuid,
)
    requires
        require_own_arrangement_outcome(r, found, org),
    ensures
        r is Ok <==> (found matches Lookup::Found(a) && a.organization_id == org),
        found is Failed ==> r->Err_0@.status() == 500,
        r is Err && !(found is Failed) ==> r->Err_0@.status() == 404,
{
}

/// Adding a piece is answered with it and its tag, and is on record with the
/// collection, the arrangement and the number.
pub proof fn the_interface_records_an_added_piece(
    r: Result<Answer<CollectionItem>, AppError>,
    caller: Caller,
    org: Uuid,
    request_id: Uuid,
    collection: Uuid,
    arrangement: Uuid,
    index: i32,
    result: Result<CollectionItem, ItemError>,
)
    requires
        item_added_outcome(r, caller, org, request_id, collection, arrangement, index, result),
    ensures
        result matches Ok(i) ==> r is Ok && {
            &&& r->Ok_0.status == 201
            &&& r->Ok_0.names(
                caller.user_id,
                Some(org),
                request_id,
                "collection_item.create"@,
                i.id,
            )
            &&& r->Ok_0.tells("collectionId"@, FactView::Id(collection))
            &&& r->Ok_0.tells("arrangementId"@, FactView::Id(arrangement))
            &&& r->Ok_0.tells("index"@, FactView::Number(index as int))
            &&& r->Ok_0.body == i
            &&& r->Ok_0.is_tagged(i.updated_at)
        },
        result is Err ==> r is Err,
        result matches Err(ItemError::DuplicateIndex) ==> r->Err_0@.status() == 409,
{
    broadcast use vstd::seq_lib::group_seq_properties;

}

/// Members read the pieces of the collections of their organization, and no
/// others.
pub proof fn members_read_a_piece(
    r: Result<Answer<CollectionItem>, AppError>,
    standing: Standing,
    parent: Lookup<Collection>,
    found: Lookup<CollectionItem>,
    org: Uuid,
    collection: Uuid,
)
    requires
        get_item_outcome(r, standing, parent, found, org, collection),
    ensures
        r is Ok ==> is_member(standing) && found == Lookup::Found(r->Ok_0.body)
            && r->Ok_0.body.collection_id == collection && (parent matches Lookup::Found(c)
            && c.organization_id == org),
        r is Ok ==> r->Ok_0.status == 200 && r->Ok_0.is_tagged(r->Ok_0.body.updated_at)
            && r->Ok_0.audit is None,
        is_member(standing) && (found matches Lookup::Found(x) && x.collection_id == collection
            && (parent matches Lookup::Found(c) && c.organization_id == org)) ==> r is Ok,
        is_member(standing) && found is Missing ==> r is Err && (r->Err_0@.status() == 404
            || r->Err_0@.status() == 500),
        is_member(standing) && (found matches Lookup::Found(x) && !(x.collection_id == collection))
            ==> r is Err,
        !is_member(standing) ==> r is Err && (r->Err_0@.status() == 403
            || r->Err_0@.status() == 500),
{
    each_role_may_do_its_part(standing);
}

/// Who keeps collections opens the pieces of those of the organization, at the
/// version that the request was made for.
pub proof fn a_piece_is_opened_for_removal(
    r: Result<CollectionItem, AppError>,
    standing: Standing,
    parent: Lookup<Collection>,
    found: Lookup<CollectionItem>,
    org: Uuid,
    collection: Uuid,
    if_match: Option<&str>,
)
    requires
        plan_delete_item_outcome(r, standing, parent, found, org, collection, if_match),
    ensures
        r is Ok ==> keeps_collections(standing) && found == Lookup::Found(r->Ok_0)
            && r->Ok_0.collection_id == collection && (parent matches Lookup::Found(c)
            && c.organization_id == org) && is_for(if_match, r->Ok_0.updated_at),
        keeps_collections(standing) && (found matches Lookup::Found(x)
            && x.collection_id == collection && (parent matches Lookup::Found(c)
            && c.organization_id == org) && is_for(if_match, x.updated_at)) ==> r is Ok,
        !keeps_collections(standing) ==> r is Err && (r->Err_0@.status() == 403
            || r->Err_0@.status() == 500),
        keeps_collections(standing) && (found matches Lookup::Found(x)
            && x.collection_id == collection && (parent matches Lookup::Found(c)
            && c.organization_id == org) && !is_for(if_match, x.updated_at)) ==> r is Err
            && r->Err_0@.status() == 412,
{
    each_role_may_do_its_part(standing);
}

/// Who keeps collections renumbers the pieces of those of the organization, at
/// the version that the change was made for, from 1 to 999999.
pub proof fn a_piece_is_opened_for_a_change(
    r: Result<CollectionItem, AppError>,
    standing: Standing,
    parent: Lookup<Collection>,
    found: Lookup<CollectionItem>,
    org: Uuid,
    collection: Uuid,
    if_match: Option<&str>,
    index: i32,
)
    requires
        plan_update_item_outcome(r, standing, parent, found, org, collection, if_match, index),
    ensures
        r is Ok ==> keeps_collections(standing) && found == Lookup::Found(r->Ok_0)
            && r->Ok_0.collection_id == collection && (parent matches Lookup::Found(c)
            && c.organization_id == org) && is_for(if_match, r->Ok_0.updated_at)
            && 1 <= index <= 999_999,
        keeps_collections(standing) && (found matches Lookup::Found(x)
            && x.collection_id == collection && (parent matches Lookup::Found(c)
            && c.organization_id == org) && is_for(if_match, x.updated_at)) && 1 <= index <= 999_999
            ==> r is Ok,
        !keeps_collections(standing) ==> r is Err && (r->Err_0@.status() == 403
            || r->Err_0@.status() == 500),
        keeps_collections(standing) && (found matches Lookup::Found(x)
            && x.collection_id == collection && (parent matches Lookup::Found(c)
            && c.organization_id == org) && !is_for(if_match, x.updated_at)) ==> r is Err
            && r->Err_0@.status() == 412,
{
    each_role_may_do_its_part(standing);
}

/// Who keeps collections restores the pieces of those of the organization.
pub proof fn a_piece_is_opened_for_restoring(
    r: Result<CollectionItem, AppError>,
    standing: Standing,
    parent: Lookup<Collection>,
    found: Lookup<CollectionItem>,
    org: Uuid,
    collection: Uuid,
)
    requires
        plan_undelete_item_outcome(r, standing, parent, found, org, collection),
    ensures
        r is Ok ==> keeps_collections(standing) && found == Lookup::Found(r->Ok_0)
            && r->Ok_0.collection_id == collection && (parent matches Lookup::Found(c)
            && c.organization_id == org),
        keeps_collections(standing) && (found matches Lookup::Found(x)
            && x.collection_id == collection && (parent matches Lookup::Found(c)
            && c.organization_id == org)) ==> r is Ok,
        !keeps_collections(standing) ==> r is Err && (r->Err_0@.status() == 403
            || r->Err_0@.status() == 500),
{
    each_role_may_do_its_part(standing);
}

/// Members list the parts of the pieces of their organization.
pub proof fn members_list_the_parts(
    r: Result<CollectionItem, AppError>,
    standing: Standing,
    parent: Lookup<Collection>,
    found: Lookup<CollectionItem>,
    org: Uuid,
    collection: Uuid,
)
    requires
        plan_list_assignments_outcome(r, standing, parent, found, org, collection),
    ensures
        r is Ok ==> is_member(standing) && found == Lookup::Found(r->Ok_0)
            && r->Ok_0.collection_id == collection && (parent matches Lookup::Found(c)
            && c.organization_id == org),
        is_member(standing) && (found matches Lookup::Found(x) && x.collection_id == collection
            && (parent matches Lookup::Found(c) && c.organization_id == org)) ==> r is Ok,
        !is_member(standing) ==> r is Err && (r->Err_0@.status() == 403
            || r->Err_0@.status() == 500),
{
    each_role_may_do_its_part(standing);
}

/// Who keeps collections hands out the parts of the pieces of the organization.
pub proof fn a_piece_is_opened_to_hand_out_parts(
    r: Result<CollectionItem, AppError>,
    standing: Standing,
    parent: Lookup<Collection>,
    found: Lookup<CollectionItem>,
    org: Uuid,
    collection: Uuid,
)
    requires
        plan_assign_voice_outcome(r, standing, parent, found, org, collection),
    ensures
        r is Ok ==> keeps_collections(standing) && found == Lookup::Found(r->Ok_0)
            && r->Ok_0.collection_id == collection && (parent matches Lookup::Found(c)
            && c.organization_id == org),
        keeps_collections(standing) && (found matches Lookup::Found(x)
            && x.collection_id == collection && (parent matches Lookup::Found(c)
            && c.organization_id == org)) ==> r is Ok,
        !keeps_collections(standing) ==> r is Err && (r->Err_0@.status() == 403
            || r->Err_0@.status() == 500),
{
    each_role_may_do_its_part(standing);
}

/// Renumbering a piece is answered with it and its tag, and is on record with the
/// number that it had and the one it has now.
pub proof fn the_interface_records_a_renumbered_piece(
    r: Result<Answer<CollectionItem>, AppError>,
    caller: Caller,
    org: Uuid,
    request_id: Uuid,
    current: CollectionItem,
    result: Result<Option<CollectionItem>, ItemError>,
)
    requires
        item_updated_outcome(r, caller, org, request_id, current, result),
    ensures
        result matches Ok(Some(i)) ==> r is Ok && {
            &&& r->Ok_0.status == 200
            &&& r->Ok_0.names(
                caller.user_id,
                Some(org),
                request_id,
                "collection_item.update"@,
                current.id,
            )
            &&& r->Ok_0.tells_in("before"@, "index"@, FactView::Number(current.index as int))
            &&& r->Ok_0.tells_in("after"@, "index"@, FactView::Number(i.index as int))
            &&& r->Ok_0.body == i
            &&& r->Ok_0.is_tagged(i.updated_at)
        },
        result is Err || result->Ok_0 is None ==> r is Err,
{
    broadcast use vstd::seq_lib::group_seq_properties;

}

/// Removing a piece is on record exactly where it took place.
pub proof fn the_interface_records_a_removed_piece(
    r: Result<Answer<()>, AppError>,
    caller: Caller,
    org: Uuid,
    request_id: Uuid,
    collection: Uuid,
    current: CollectionItem,
    result: Option<bool>,
)
    requires
        item_deleted_outcome(r, caller, org, request_id, collection, current, result),
    ensures
        result == Some(true) ==> r is Ok && {
            &&& r->Ok_0.status == 204
            &&& r->Ok_0.names(
                caller.user_id,
                Some(org),
                request_id,
                "collection_item.soft_delete"@,
                current.id,
            )
            &&& r->Ok_0.tells("collectionId"@, FactView::Id(collection))
            &&& r->Ok_0.tells("index"@, FactView::Number(current.index as int))
            &&& r->Ok_0.etag is None
        },
        r is Ok <==> result == Some(true),
        result == Some(false) ==> r->Err_0@.status() == 404,
        result is None ==> r->Err_0@.status() == 500,
{
    broadcast use vstd::seq_lib::group_seq_properties;

}

/// Restoring a piece is on record exactly where it took place.
pub proof fn the_interface_records_a_restored_piece(
    r: Result<Answer<()>, AppError>,
    caller: Caller,
    org: Uuid,
    request_id: Uuid,
    collection: Uuid,
    current: CollectionItem,
    result: Result<bool, ItemError>,
)
    requires
        item_undeleted_outcome(r, caller, org, request_id, collection, current, result),
    ensures
        result == Ok::<bool, ItemError>(true) ==> r is Ok && {
            &&& r->Ok_0.status == 204
            &&& r->Ok_0.names(
                caller.user_id,
                Some(org),
                request_id,
                "collection_item.undelete"@,
                current.id,
            )
            &&& r->Ok_0.tells("collectionId"@, FactView::Id(collection))
            &&& r->Ok_0.tells("index"@, FactView::Number(current.index as int))
            &&& r->Ok_0.etag is None
        },
        r is Ok <==> result == Ok::<bool, ItemError>(true),
        result == Ok::<bool, ItemError>(false) ==> r->Err_0@.status() == 404,
{
    broadcast use vstd::seq_lib::group_seq_properties;

}

/// Handing out a part is answered with the assignment and its tag, and is on
/// record with the piece, the voice and the player.
pub proof fn the_interface_records_a_handed_out_part(
    r: Result<Answer<PartAssignment>, AppError>,
    caller: Caller,
    org: Uuid,
    request_id: Uuid,
    item: Uuid,
    result: Result<PartAssignment, PartAssignmentError>,
)
    requires
        voice_assigned_outcome(r, caller, org, request_id, item, result),
    ensures
        result matches Ok(a) ==> r is Ok && {
            &&& r->Ok_0.status == 201
            &&& r->Ok_0.names(
                caller.user_id,
                Some(org),
                request_id,
                "part_assignment.create"@,
                a.id,
            )
            &&& r->Ok_0.tells("collectionItemId"@, FactView::Id(item))
            &&& r->Ok_0.tells("voiceId"@, FactView::Id(a.voice_id))
            &&& r->Ok_0.tells("userId"@, FactView::Id(a.user_id))
            &&& r->Ok_0.body == a
            &&& r->Ok_0.is_tagged(a.updated_at)
        },
        result is Err ==> r is Err,
        result matches Err(PartAssignmentError::Duplicate) ==> r->Err_0@.status() == 409,
{
    broadcast use vstd::seq_lib::group_seq_properties;

}

/// Members read the assignments of the pieces of their organization, and no
/// others.
pub proof fn members_read_an_assignment(
    r: Result<Answer<PartAssignment>, AppError>,
    standing: Standing,
    parent: Lookup<Collection>,
    item: Lookup<CollectionItem>,
    found: Lookup<PartAssignment>,
    org: Uuid,
    collection: Uuid,
    item_id: Uuid,
)
    requires
        get_assignment_outcome(r, standing, parent, item, found, org, collection, item_id),
    ensures
        r is Ok ==> is_member(standing) && found == Lookup::Found(r->Ok_0.body)
            && r->Ok_0.body.collection_item_id == item_id && (item matches Lookup::Found(i)
            && i.collection_id == collection) && (parent matches Lookup::Found(c)
            && c.organization_id == org),
        r is Ok ==> r->Ok_0.status == 200 && r->Ok_0.is_tagged(r->Ok_0.body.updated_at)
            && r->Ok_0.audit is None,
        is_member(standing) && (found matches Lookup::Found(x) && x.collection_item_id == item_id
            && (item matches Lookup::Found(i) && i.collection_id == collection)
            && (parent matches Lookup::Found(c) && c.organization_id == org)) ==> r is Ok,
        is_member(standing) && found is Missing ==> r is Err && (r->Err_0@.status() == 404
            || r->Err_0@.status() == 500),
        is_member(standing) && (found matches Lookup::Found(x)
            && !(x.collection_item_id == item_id)) ==> r is Err,
        !is_member(standing) ==> r is Err && (r->Err_0@.status() == 403
            || r->Err_0@.status() == 500),
{
    each_role_may_do_its_part(standing);
}

/// Who keeps collections changes the assignments of the pieces of the
/// organization, at the version that the change was made for.
pub proof fn an_assignment_is_opened_for_a_change(
    r: Result<PartAssignment, AppError>,
    standing: Standing,
    parent: Lookup<Collection>,
    item: Lookup<CollectionItem>,
    found: Lookup<PartAssignment>,
    org: Uuid,
    collection: Uuid,
    item_id: Uuid,
    if_match: Option<&str>,
)
    requires
        plan_assignment_write_outcome(
            r,
            standing,
            parent,
            item,
            found,
            org,
            collection,
            item_id,
            if_match,
        ),
    ensures
        r is Ok ==> keeps_collections(standing) && found == Lookup::Found(r->Ok_0)
            && r->Ok_0.collection_item_id == item_id && (item matches Lookup::Found(i)
            && i.collection_id == collection) && (parent matches Lookup::Found(c)
            && c.organization_id == org) && is_for(if_match, r->Ok_0.updated_at),
        keeps_collections(standing) && (found matches Lookup::Found(x)
            && x.collection_item_id == item_id && (item matches Lookup::Found(i)
            && i.collection_id == collection) && (parent matches Lookup::Found(c)
            && c.organization_id == org) && is_for(if_match, x.updated_at)) ==> r is Ok,
        !keeps_collections(standing) ==> r is Err && (r->Err_0@.status() == 403
            || r->Err_0@.status() == 500),
        keeps_collections(standing) && (found matches Lookup::Found(x)
            && x.collection_item_id == item_id && (item matches Lookup::Found(i)
            && i.collection_id == collection) && (parent matches Lookup::Found(c)
            && c.organization_id == org) && !is_for(if_match, x.updated_at)) ==> r is Err
            && r->Err_0@.status() == 412,
{
    each_role_may_do_its_part(standing);
}

/// Recording when a player was told and when they answered is answered with the
/// assignment and its tag, and is on record with the times before and after.
pub proof fn the_interface_records_when_a_player_was_told(
    r: Result<Answer<PartAssignment>, AppError>,
    caller: Caller,
    org: Uuid,
    request_id: Uuid,
    current: PartAssignment,
    result: Option<Option<PartAssignment>>,
)
    requires
        assignment_updated_outcome(r, caller, org, request_id, current, result),
    ensures
        result matches Some(Some(a)) ==> r is Ok && {
            &&& r->Ok_0.status == 200
            &&& r->Ok_0.names(
                caller.user_id,
                Some(org),
                request_id,
                "part_assignment.update_state"@,
                current.id,
            )
            &&& r->Ok_0.body == a
            &&& r->Ok_0.is_tagged(a.updated_at)
        },
        result is None || result->0 is None ==> r is Err,
        result is Some && result->0 is Some && current.notified_at is Some ==> r->Ok_0.tells_in(
            "before"@,
            "notifiedAt"@,
            FactView::Time(current.notified_at->0),
        ),
        result is Some && result->0 is Some && current.notified_at is None ==> r->Ok_0.tells_in(
            "before"@,
            "notifiedAt"@,
            FactView::Nothing,
        ),
        result is Some && result->0 is Some && current.acknowledged_at is Some ==> r->Ok_0.tells_in(
            "before"@,
            "acknowledgedAt"@,
            FactView::Time(current.acknowledged_at->0),
        ),
        result is Some && result->0 is Some && current.acknowledged_at is None ==> r->Ok_0.tells_in(
            "before"@,
            "acknowledgedAt"@,
            FactView::Nothing,
        ),
        result is Some && result->0 is Some && result->0->0.notified_at is Some
            ==> r->Ok_0.tells_in(
            "after"@,
            "notifiedAt"@,
            FactView::Time(result->0->0.notified_at->0),
        ),
        result is Some && result->0 is Some && result->0->0.notified_at is None
            ==> r->Ok_0.tells_in(
            "after"@,
            "notifiedAt"@,
            FactView::Nothing,
        ),
        result is Some && result->0 is Some && result->0->0.acknowledged_at is Some
            ==> r->Ok_0.tells_in(
            "after"@,
            "acknowledgedAt"@,
            FactView::Time(result->0->0.acknowledged_at->0),
        ),
        result is Some && result->0 is Some && result->0->0.acknowledged_at is None
            ==> r->Ok_0.tells_in(
            "after"@,
            "acknowledgedAt"@,
            FactView::Nothing,
        ),
{
    broadcast use vstd::seq_lib::group_seq_properties;

}

/// Taking a part back is on record, with the piece, the voice and the player,
/// exactly where it took place.
pub proof fn the_interface_records_a_part_taken_back(
    r: Result<Answer<()>, AppError>,
    caller: Caller,
    org: Uuid,
    request_id: Uuid,
    item: Uuid,
    current: PartAssignment,
    result: Option<bool>,
)
    requires
        assignment_deleted_outcome(r, caller, org, request_id, item, current, result),
    ensures
        result == Some(true) ==> r is Ok && {
            &&& r->Ok_0.status == 204
            &&& r->Ok_0.names(
                caller.user_id,
                Some(org),
                request_id,
                "part_assignment.delete"@,
                current.id,
            )
            &&& r->Ok_0.tells("collectionItemId"@, FactView::Id(item))
            &&& r->Ok_0.tells("voiceId"@, FactView::Id(current.voice_id))
            &&& r->Ok_0.tells("userId"@, FactView::Id(current.user_id))
            &&& r->Ok_0.etag is None
        },
        r is Ok <==> result == Some(true),
        result == Some(false) ==> r->Err_0@.status() == 404,
        result is None ==> r->Err_0@.status() == 500,
{
    broadcast use vstd::seq_lib::group_seq_properties;

}

/// A clash with another row is a conflict, a reference to nothing is the
/// caller's mistake, and a failing database is an error of ours.
pub proof fn refused_pieces_are_answered_in_kind(
    collection: CollectionError,
    item: ItemError,
    part: PartAssignmentError,
)
    ensures
        collection_error_view(collection).status() == (match collection {
            CollectionError::DuplicateSlug => 409u16,
            CollectionError::Database => 500u16,
        }),
        item_error_view(item).status() == (match item {
            ItemError::DuplicateIndex => 409u16,
            ItemError::UnknownReference => 409u16,
            ItemError::InvalidReorder => 409u16,
            ItemError::Database => 500u16,
        }),
        part_assignment_error_view(part).status() == (match part {
            PartAssignmentError::Duplicate => 409u16,
            PartAssignmentError::VoiceNotInArrangement => 400u16,
            PartAssignmentError::UnknownReference => 400u16,
            PartAssignmentError::Database => 500u16,
        }),
{
}

/// A piece is numbered from 1 to 999999.
pub proof fn pieces_are_numbered_from_one(r: Result<(), AppError>, index: i32)
    requires
        validate_index_outcome(r, index),
    ensures
        r is Ok <==> 1 <= index <= 999_999,
        r is Err ==> r->Err_0@.status() == 400,
{
}

/// What does not exist is told from what could not be looked up.
pub proof fn get_collection_tells_absence_from_failure(
    r: Result<Answer<Collection>, AppError>,
    standing: Standing,
    found: Lookup<Collection>,
    org: Uuid,
)
    requires
        get_collection_outcome(r, standing, found, org),
    ensures
        is_member(standing) && found is Missing ==> r is Err && r->Err_0@.status() == 404,
        is_member(standing) && found is Failed ==> r is Err && r->Err_0@.status() == 500,
{
    each_role_may_do_its_part(standing);
}

/// What does not exist is told from what could not be looked up.
pub proof fn plan_delete_collection_tells_absence_from_failure(
    r: Result<Collection, AppError>,
    standing: Standing,
    found: Lookup<Collection>,
    org: Uuid,
    if_match: Option<&str>,
)
    requires
        plan_delete_collection_outcome(r, standing, found, org, if_match),
    ensures
        keeps_collections(standing) && found is Missing ==> r is Err && r->Err_0@.status() == 404,
        keeps_collections(standing) && found is Failed ==> r is Err && r->Err_0@.status() == 500,
{
    each_role_may_do_its_part(standing);
}

/// What does not exist is told from what could not be looked up.
pub proof fn plan_update_collection_tells_absence_from_failure(
    r: Result<Collection, AppError>,
    standing: Standing,
    found: Lookup<Collection>,
    org: Uuid,
    if_match: Option<&str>,
    body: CollectionRequest,
)
    requires
        plan_update_collection_outcome(r, standing, found, org, if_match, body),
    ensures
        keeps_collections(standing) && found is Missing ==> r is Err && r->Err_0@.status() == 404,
        keeps_collections(standing) && found is Failed ==> r is Err && r->Err_0@.status() == 500,
{
    each_role_may_do_its_part(standing);
}

/// What does not exist is told from what could not be looked up.
pub proof fn plan_undelete_collection_tells_absence_from_failure(
    r: Result<Collection, AppError>,
    standing: Standing,
    found: Lookup<Collection>,
    org: Uuid,
)
    requires
        plan_undelete_collection_outcome(r, standing, found, org),
    ensures
        keeps_collections(standing) && found is Missing ==> r is Err && r->Err_0@.status() == 404,
        keeps_collections(standing) && found is Failed ==> r is Err && r->Err_0@.status() == 500,
{
    each_role_may_do_its_part(standing);
}

/// What does not exist is told from what could not be looked up.
pub proof fn plan_reorder_tells_absence_from_failure(
    r: Result<Collection, AppError>,
    standing: Standing,
    found: Lookup<Collection>,
    org: Uuid,
)
    requires
        plan_reorder_outcome(r, standing, found, org),
    ensures
        keeps_collections(standing) && found is Missing ==> r is Err && r->Err_0@.status() == 404,
        keeps_collections(standing) && found is Failed ==> r is Err && r->Err_0@.status() == 500,
{
    each_role_may_do_its_part(standing);
}

/// What does not exist is told from what could not be looked up.
pub proof fn plan_list_items_tells_absence_from_failure(
    r: Result<Collection, AppError>,
    standing: Standing,
    found: Lookup<Collection>,
    org: Uuid,
)
    requires
        plan_list_items_outcome(r, standing, found, org),
    ensures
        is_member(standing) && found is Missing ==> r is Err && r->Err_0@.status() == 404,
        is_member(standing) && found is Failed ==> r is Err && r->Err_0@.status() == 500,
{
    each_role_may_do_its_part(standing);
}

/// What does not exist is told from what could not be looked up.
pub proof fn plan_add_item_tells_absence_from_failure(
    r: Result<(), AppError>,
    standing: Standing,
    found: Lookup<Collection>,
    org: Uuid,
    index: i32,
)
    requires
        plan_add_item_outcome(r, standing, found, org, index),
    ensures
        keeps_collections(standing) && found is Missing ==> r is Err && r->Err_0@.status() == 404,
        keeps_collections(standing) && found is Failed ==> r is Err && r->Err_0@.status() == 500,
{
    each_role_may_do_its_part(standing);
}

/// What does not exist is told from what could not be looked up.
pub proof fn get_item_tells_absence_from_failure(
    r: Result<Answer<CollectionItem>, AppError>,
    standing: Standing,
    parent: Lookup<Collection>,
    found: Lookup<CollectionItem>,
    org: Uuid,
    collection: Uuid,
)
    requires
        get_item_outcome(r, standing, parent, found, org, collection),
    ensures
        is_member(standing) && (parent matches Lookup::Found(c) && c.organization_id == org)
            && found is Missing ==> r is Err && r->Err_0@.status() == 404,
        is_member(standing) && (parent matches Lookup::Found(c) && c.organization_id == org)
            && found is Failed ==> r is Err && r->Err_0@.status() == 500,
{
    each_role_may_do_its_part(standing);
}

/// What does not exist is told from what could not be looked up.
pub proof fn plan_delete_item_tells_absence_from_failure(
    r: Result<CollectionItem, AppError>,
    standing: Standing,
    parent: Lookup<Collection>,
    found: Lookup<CollectionItem>,
    org: Uuid,
    collection: Uuid,
    if_match: Option<&str>,
)
    requires
        plan_delete_item_outcome(r, standing, parent, found, org, collection, if_match),
    ensures
        keeps_collections(standing) && (parent matches Lookup::Found(c) && c.organization_id == org)
            && found is Missing ==> r is Err && r->Err_0@.status() == 404,
        keeps_collections(standing) && (parent matches Lookup::Found(c) && c.organization_id == org)
            && found is Failed ==> r is Err && r->Err_0@.status() == 500,
{
    each_role_may_do_its_part(standing);
}

/// What does not exist is told from what could not be looked up.
pub proof fn plan_update_item_tells_absence_from_failure(
    r: Result<CollectionItem, AppError>,
    standing: Standing,
    parent: Lookup<Collection>,
    found: Lookup<CollectionItem>,
    org: Uuid,
    collection: Uuid,
    if_match: Option<&str>,
    index: i32,
)
    requires
        plan_update_item_outcome(r, standing, parent, found, org, collection, if_match, index),
    ensures
        keeps_collections(standing) && (parent matches Lookup::Found(c) && c.organization_id == org)
            && found is Missing ==> r is Err && r->Err_0@.status() == 404,
        keeps_collections(standing) && (parent matches Lookup::Found(c) && c.organization_id == org)
            && found is Failed ==> r is Err && r->Err_0@.status() == 500,
{
    each_role_may_do_its_part(standing);
}

/// What does not exist is told from what could not be looked up.
pub proof fn plan_undelete_item_tells_absence_from_failure(
    r: Result<CollectionItem, AppError>,
    standing: Standing,
    parent: Lookup<Collection>,
    found: Lookup<CollectionItem>,
    org: Uuid,
    collection: Uuid,
)
    requires
        plan_undelete_item_outcome(r, standing, parent, found, org, collection),
    ensures
        keeps_collections(standing) && (parent matches Lookup::Found(c) && c.organization_id == org)
            && found is Missing ==> r is Err && r->Err_0@.status() == 404,
        keeps_collections(standing) && (parent matches Lookup::Found(c) && c.organization_id == org)
            && found is Failed ==> r is Err && r->Err_0@.status() == 500,
{
    each_role_may_do_its_part(standing);
}

/// What does not exist is told from what could not be looked up.
pub proof fn plan_list_assignments_tells_absence_from_failure(
    r: Result<CollectionItem, AppError>,
    standing: Standing,
    parent: Lookup<Collection>,
    found: Lookup<CollectionItem>,
    org: Uuid,
    collection: Uuid,
)
    requires
        plan_list_assignments_outcome(r, standing, parent, found, org, collection),
    ensures
        is_member(standing) && (parent matches Lookup::Found(c) && c.organization_id == org)
            && found is Missing ==> r is Err && r->Err_0@.status() == 404,
        is_member(standing) && (parent matches Lookup::Found(c) && c.organization_id == org)
            && found is Failed ==> r is Err && r->Err_0@.status() == 500,
{
    each_role_may_do_its_part(standing);
}

/// What does not exist is told from what could not be looked up.
pub proof fn plan_assign_voice_tells_absence_from_failure(
    r: Result<CollectionItem, AppError>,
    standing: Standing,
    parent: Lookup<Collection>,
    found: Lookup<CollectionItem>,
    org: Uuid,
    collection: Uuid,
)
    requires
        plan_assign_voice_outcome(r, standing, parent, found, org, collection),
    ensures
        keeps_collections(standing) && (parent matches Lookup::Found(c) && c.organization_id == org)
            && found is Missing ==> r is Err && r->Err_0@.status() == 404,
        keeps_collections(standing) && (parent matches Lookup::Found(c) && c.organization_id == org)
            && found is Failed ==> r is Err && r->Err_0@.status() == 500,
{
    each_role_may_do_its_part(standing);
}

/// What does not exist is told from what could not be looked up.
pub proof fn get_assignment_tells_absence_from_failure(
    r: Result<Answer<PartAssignment>, AppError>,
    standing: Standing,
    parent: Lookup<Collection>,
    item: Lookup<CollectionItem>,
    found: Lookup<PartAssignment>,
    org: Uuid,
    collection: Uuid,
    item_id: Uuid,
)
    requires
        get_assignment_outcome(r, standing, parent, item, found, org, collection, item_id),
    ensures
        is_member(standing) && (parent matches Lookup::Found(c) && c.organization_id == org) && (
        item matches Lookup::Found(i) && i.collection_id == collection) && found is Missing
            ==> r is Err && r->Err_0@.status() == 404,
        is_member(standing) && (parent matches Lookup::Found(c) && c.organization_id == org) && (
        item matches Lookup::Found(i) && i.collection_id == collection) && found is Failed
            ==> r is Err && r->Err_0@.status() == 500,
{
    each_role_may_do_its_part(standing);
}

/// What does not exist is told from what could not be looked up.
pub proof fn plan_assignment_write_tells_absence_from_failure(
    r: Result<PartAssignment, AppError>,
    standing: Standing,
    parent: Lookup<Collection>,
    item: Lookup<CollectionItem>,
    found: Lookup<PartAssignment>,
    org: Uuid,
    collection: Uuid,
    item_id: Uuid,
    if_match: Option<&str>,
)
    requires
        plan_assignment_write_outcome(
            r,
            standing,
            parent,
            item,
            found,
            org,
            collection,
            item_id,
            if_match,
        ),
    ensures
        keeps_collections(standing) && (parent matches Lookup::Found(c) && c.organization_id == org)
            && (
        item matches Lookup::Found(i) && i.collection_id == collection) && found is Missing
            ==> r is Err && r->Err_0@.status() == 404,
        keeps_collections(standing) && (parent matches Lookup::Found(c) && c.organization_id == org)
            && (
        item matches Lookup::Found(i) && i.collection_id == collection) && found is Failed
            ==> r is Err && r->Err_0@.status() == 500,
{
    each_role_may_do_its_part(standing);
}

/// What was refused is answered by the error that fits, and what was gone by then
/// as missing.
pub proof fn collection_created_answers_a_refusal_in_kind(
    r: Result<Answer<Collection>, AppError>,
    caller: Caller,
    org: Uuid,
    request_id: Uuid,
    result: Result<Collection, CollectionError>,
)
    requires
        collection_created_outcome(r, caller, org, request_id, result),
    ensures
        result matches Err(e) ==> r is Err && r->Err_0@ == collection_error_view(e),
{
}

/// What was refused is answered by the error that fits, and what was gone by then
/// as missing.
pub proof fn collection_updated_answers_a_refusal_in_kind(
    r: Result<Answer<Collection>, AppError>,
    caller: Caller,
    org: Uuid,
    request_id: Uuid,
    current: Collection,
    result: Result<Option<Collection>, CollectionError>,
)
    requires
        collection_updated_outcome(r, caller, org, request_id, current, result),
    ensures
        result matches Err(e) ==> r is Err && r->Err_0@ == collection_error_view(e),
        result is Ok && result->Ok_0 is None ==> r is Err && r->Err_0@.status() == 404,
{
}

/// What was refused is answered by the error that fits, and what was gone by then
/// as missing.
pub proof fn item_added_answers_a_refusal_in_kind(
    r: Result<Answer<CollectionItem>, AppError>,
    caller: Caller,
    org: Uuid,
    request_id: Uuid,
    collection: Uuid,
    arrangement: Uuid,
    index: i32,
    result: Result<CollectionItem, ItemError>,
)
    requires
        item_added_outcome(r, caller, org, request_id, collection, arrangement, index, result),
    ensures
        result matches Err(e) ==> r is Err && r->Err_0@ == item_error_view(e),
{
}

/// What was refused is answered by the error that fits, and what was gone by then
/// as missing.
pub proof fn item_updated_answers_a_refusal_in_kind(
    r: Result<Answer<CollectionItem>, AppError>,
    caller: Caller,
    org: Uuid,
    request_id: Uuid,
    current: CollectionItem,
    result: Result<Option<CollectionItem>, ItemError>,
)
    requires
        item_updated_outcome(r, caller, org, request_id, current, result),
    ensures
        result matches Err(e) ==> r is Err && r->Err_0@ == item_error_view(e),
        result is Ok && result->Ok_0 is None ==> r is Err && r->Err_0@.status() == 404,
{
}

/// What was refused is answered by the error that fits, and what was gone by then
/// as missing.
pub proof fn items_reordered_answers_a_refusal_in_kind(
    r: Result<Answer<()>, AppError>,
    caller: Caller,
    org: Uuid,
    request_id: Uuid,
    collection: Uuid,
    order: Vec<Uuid>,
    result: Result<(), ItemError>,
)
    requires
        items_reordered_outcome(r, caller, org, request_id, collection, order, result),
    ensures
        result matches Err(e) ==> r is Err && r->Err_0@ == item_error_view(e),
{
}

/// What was refused is answered by the error that fits, and what was gone by then
/// as missing.
pub proof fn voice_assigned_answers_a_refusal_in_kind(
    r: Result<Answer<PartAssignment>, AppError>,
    caller: Caller,
    org: Uuid,
    request_id: Uuid,
    item: Uuid,
    result: Result<PartAssignment, PartAssignmentError>,
)
    requires
        voice_assigned_outcome(r, caller, org, request_id, item, result),
    ensures
        result matches Err(e) ==> r is Err && r->Err_0@ == part_assignment_error_view(e),
{
}

/// What was refused is answered by the error that fits, and what was gone by then
/// as missing.
pub proof fn collection_undeleted_answers_a_refusal_in_kind(
    r: Result<Answer<()>, AppError>,
    caller: Caller,
    org: Uuid,
    request_id: Uuid,
    current: Collection,
    result: Result<bool, CollectionError>,
)
    requires
        collection_undeleted_outcome(r, caller, org, request_id, current, result),
    ensures
        result matches Err(e) ==> r is Err && r->Err_0@ == collection_error_view(e),
{
}

/// What was refused is answered by the error that fits, and what was gone by then
/// as missing.
pub proof fn item_undeleted_answers_a_refusal_in_kind(
    r: Result<Answer<()>, AppError>,
    caller: Caller,
    org: Uuid,
    request_id: Uuid,
    collection: Uuid,
    current: CollectionItem,
    result: Result<bool, ItemError>,
)
    requires
        item_undeleted_outcome(r, caller, org, request_id, collection, current, result),
    ensures
        result matches Err(e) ==> r is Err && r->Err_0@ == item_error_view(e),
{
}

/// What was refused is answered by the error that fits, and what was gone by then
/// as missing.
pub proof fn assignment_updated_answers_a_refusal_in_kind(
    r: Result<Answer<PartAssignment>, AppError>,
    caller: Caller,
    org: Uuid,
    request_id: Uuid,
    current: PartAssignment,
    result: Option<Option<PartAssignment>>,
)
    requires
        assignment_updated_outcome(r, caller, org, request_id, current, result),
    ensures
        result is None ==> r is Err && r->Err_0@.status() == 500,
        result is Some && result->0 is None ==> r is Err && r->Err_0@.status() == 404,
{
}

} // verus!
