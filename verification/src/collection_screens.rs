//! What the collection screens show.

use vstd::prelude::*;
use crate::collections::{
    a_collection_is_changed_as_the_form_says, col_error, collection_opened, collection_url, detail_url, enter_collection, error_page,
    highest_index, next_index, next_index_is_free, plan_update_collection_outcome, CollectionFields,
    CollectionForm, MAX_INDEX,
};
use crate::console::ConsoleCtx;
use crate::id::{uuid_text, Uuid};
use crate::listing::is_truncated;
use crate::lists::{contains_id, filter_none, filter_step, kept_from, map_push, take_all};
use crate::model::{Arrangement, Collection, ItemView, Lookup};
use crate::number::int_text;
use crate::reorder::{arrow, arrow_value, directive};
use crate::reply::{refused, Reply, ReplyView};
use crate::text::{bare, bare_text_is_taken_in_as_it_stands, same, text_of};
use crate::urls::{action_path, action_url, list_path, list_url, row_url};

verus! {

/// A kind of collection as a choice.
pub struct TypeOption {
    pub value: &'static str,
    pub selected: bool,
}

/// Whether `r` is what [`type_select`] owes its caller.
pub open spec fn type_select_outcome(r: Vec<TypeOption>, current: Option<&str>) -> bool {
    &&& r@.len() == 2
    &&& r@[0].value@ == "program"@ && r@[1].value@ == "standing"@
    &&& forall|i: int|
        0 <= i < 2 ==> (#[trigger] r@[i]).selected == (current is Some && current->0@
            == r@[i].value@)
}

/// The choice of the kind of a collection, with the current one selected.
pub fn type_select(current: Option<&str>) -> (r: Vec<TypeOption>)
    ensures
        type_select_outcome(r, current),
{
    let mut out: Vec<TypeOption> = Vec::new();
    let program: bool = match current {
        Some(c) => same(c, "program"),
        None => false,
    };
    let standing: bool = match current {
        Some(c) => same(c, "standing"),
        None => false,
    };
    out.push(TypeOption { value: "program", selected: program });
    out.push(TypeOption { value: "standing", selected: standing });
    out
}

/// How much of a list is shown, where it is not all.
pub struct Truncation {
    pub shown: usize,
    pub total: i64,
}

/// Whether a note says that only `shown` of `total` rows are on the screen.
pub open spec fn notes_truncation(t: Option<Truncation>, shown: nat, total: i64) -> bool {
    if total > shown {
        t matches Some(n) && n.shown == shown && n.total == total
    } else {
        t is None
    }
}

/// The note for a list of which `shown` rows are on the screen.
pub fn truncation(shown: usize, total: i64) -> (r: Option<Truncation>)
    ensures
        notes_truncation(r, shown as nat, total),
{
    if is_truncated(shown, total) {
        Some(Truncation { shown, total })
    } else {
        None
    }
}

/// A collection in the list.
pub struct CollectionRow {
    pub name: String,
    pub collection_type: String,
    pub slug: String,
    pub href: String,
    pub delete_action: String,
    pub restore_action: String,
}

/// Whether `row` shows the collection `c`.
pub open spec fn shows_collection(row: CollectionRow, org: Uuid, c: Collection) -> bool {
    &&& row.name == c.name
    &&& row.collection_type == c.collection_type
    &&& row.slug == c.slug
    &&& row.href@ == collection_url(org, c.id)
    &&& row.delete_action@ == collection_url(org, c.id) + "/delete"@
    &&& row.restore_action@ == collection_url(org, c.id) + "/undelete"@
}

/// Whether `rows` shows the collections `cs`, in their order.
pub open spec fn shows_collections(rows: Seq<CollectionRow>, org: Uuid, cs: Seq<Collection>) -> bool {
    &&& rows.len() == cs.len()
    &&& forall|i: int| 0 <= i < cs.len() ==> shows_collection(#[trigger] rows[i], org, cs[i])
}

fn collection_rows(org: Uuid, cs: &Vec<Collection>) -> (r: Vec<CollectionRow>)
    ensures
        shows_collections(r@, org, cs@),
{
    let mut out: Vec<CollectionRow> = Vec::new();
    let mut i: usize = 0;
    while i < cs.len()
        invariant
            i <= cs.len(),
            out@.len() == i,
            forall|k: int| 0 <= k < i ==> shows_collection(#[trigger] out@[k], org, cs@[k]),
        decreases cs.len() - i,
    {
        let c: &Collection = &cs[i];
        out.push(
            CollectionRow {
                name: c.name.clone(),
                collection_type: c.collection_type.clone(),
                slug: c.slug.clone(),
                href: detail_url(org, c.id),
                delete_action: detail_url(org, c.id).concat("/delete"),
                restore_action: detail_url(org, c.id).concat("/undelete"),
            },
        );
        i = i + 1;
    }
    out
}

/// The list of collections.
pub struct CollectionsPage {
    pub rows: Vec<CollectionRow>,
    pub truncated: Option<Truncation>,
    pub create_action: String,
    pub deleted: Vec<CollectionRow>,
    pub deleted_truncated: Option<Truncation>,
}

/// Whether `r` is what [`collections_page`] owes its caller.
pub open spec fn collections_page_outcome(
    r: Result<CollectionsPage, Reply>,
    ctx: ConsoleCtx,
    listed: Option<(&Vec<Collection>, i64)>,
    deleted: Vec<Collection>,
    deleted_total: i64,
) -> bool {
    &&& !ctx.access_of().builds_collections() ==> refused(r, ReplyView::SectionForbidden)
    &&& ctx.access_of().builds_collections() ==> match listed {
        None => refused(r, col_error(500, "Could not load collections."@)),
        Some((rows, total)) => {
            &&& r is Ok
            &&& shows_collections(r->Ok_0.rows@, ctx.org_of().id, rows@)
            &&& notes_truncation(r->Ok_0.truncated, rows@.len(), total)
            &&& r->Ok_0.create_action@ == list_url(ctx.org_of().id, "/collections"@)
            &&& shows_collections(r->Ok_0.deleted@, ctx.org_of().id, deleted@)
            &&& notes_truncation(r->Ok_0.deleted_truncated, deleted@.len(), deleted_total)
        },
    }
}

/// The list of collections, live ones and recently deleted ones. `listed` is
/// `None` where the live ones could not be listed.
pub fn collections_page(
    ctx: &ConsoleCtx,
    listed: Option<(&Vec<Collection>, i64)>,
    deleted: &Vec<Collection>,
    deleted_total: i64,
) -> (r: Result<CollectionsPage, Reply>)
    ensures
        collections_page_outcome(r, *ctx, listed, *deleted, deleted_total),
{
    if !ctx.can_build_collections() {
        return Err(Reply::SectionForbidden);
    }
    let (rows, total): (&Vec<Collection>, i64) = match listed {
        Some(l) => l,
        None => return Err(error_page(500, "Could not load collections.")),
    };
    let org: Uuid = ctx.org().id;
    Ok(
        CollectionsPage {
            rows: collection_rows(org, rows),
            truncated: truncation(rows.len(), total),
            create_action: list_path(org, "/collections"),
            deleted: collection_rows(org, deleted),
            deleted_truncated: truncation(deleted.len(), deleted_total),
        },
    )
}

/// A piece on the screen of its collection.
pub struct PieceRow {
    pub id: Uuid,
    pub index: i32,
    /// The arrangement's title, or its slug where it was removed.
    pub label: String,
    pub slug: String,
    pub removed: bool,
    /// What the arrows submit; there is none that would run off either end.
    pub up: Option<String>,
    pub down: Option<String>,
    pub parts_href: String,
    pub delete_action: String,
}

/// The pieces of a collection below its URL.
pub open spec fn items_url(org: Uuid, collection: Uuid) -> Seq<char> {
    collection_url(org, collection) + "/items"@
}

/// Whether `row` shows the piece at `i`.
pub open spec fn shows_piece(row: PieceRow, items: Seq<ItemView>, i: int, base: Seq<char>) -> bool {
    let v = items[i];
    &&& row.id == v.item.id
    &&& row.index == v.item.index
    &&& row.label == (if v.arrangement_removed {
        v.arrangement_slug
    } else {
        v.arrangement_title
    })
    &&& row.slug == v.arrangement_slug
    &&& row.removed == v.arrangement_removed
    &&& (row.up is Some <==> i > 0)
    &&& (row.up matches Some(d) ==> d@ == directive(true, v.item.id))
    &&& (row.down is Some <==> i + 1 < items.len())
    &&& (row.down matches Some(d) ==> d@ == directive(false, v.item.id))
    &&& row.parts_href@ == action_url(base, v.item.id, "/assignments"@)
    &&& row.delete_action@ == action_url(base, v.item.id, "/delete"@)
}

fn piece_rows(items: &Vec<ItemView>, base: &String) -> (r: Vec<PieceRow>)
    ensures
        r@.len() == items@.len(),
        forall|i: int| 0 <= i < items@.len() ==> shows_piece(#[trigger] r@[i], items@, i, base@),
{
    let mut out: Vec<PieceRow> = Vec::new();
    let mut i: usize = 0;
    while i < items.len()
        invariant
            i <= items.len(),
            out@.len() == i,
            forall|k: int| 0 <= k < i ==> shows_piece(#[trigger] out@[k], items@, k, base@),
        decreases items.len() - i,
    {
        let v: &ItemView = &items[i];
        let id: Uuid = v.item.id;
        out.push(
            PieceRow {
                id,
                index: v.item.index,
                label: if v.arrangement_removed {
                    v.arrangement_slug.clone()
                } else {
                    v.arrangement_title.clone()
                },
                slug: v.arrangement_slug.clone(),
                removed: v.arrangement_removed,
                up: if i > 0 {
                    Some(arrow_value(true, id))
                } else {
                    None
                },
                down: if i + 1 < items.len() {
                    Some(arrow_value(false, id))
                } else {
                    None
                },
                parts_href: action_path(base, id, "/assignments"),
                delete_action: action_path(base, id, "/delete"),
            },
        );
        i = i + 1;
    }
    out
}

/// A removed piece on the screen of its collection.
pub struct RemovedPiece {
    pub title: String,
    pub restore_action: String,
}

/// Whether `row` shows the removed piece `v`: by its arrangement's title,
/// whether that was removed too or not.
pub open spec fn shows_removed(row: RemovedPiece, v: ItemView, base: Seq<char>) -> bool {
    &&& row.title == v.arrangement_title
    &&& row.restore_action@ == action_url(base, v.item.id, "/undelete"@)
}

fn removed_rows(items: &Vec<ItemView>, base: &String) -> (r: Vec<RemovedPiece>)
    ensures
        r@.len() == items@.len(),
        forall|i: int| 0 <= i < items@.len() ==> shows_removed(#[trigger] r@[i], items@[i], base@),
{
    let mut out: Vec<RemovedPiece> = Vec::new();
    let mut i: usize = 0;
    while i < items.len()
        invariant
            i <= items.len(),
            out@.len() == i,
            forall|k: int| 0 <= k < i ==> shows_removed(#[trigger] out@[k], items@[k], base@),
        decreases items.len() - i,
    {
        let v: &ItemView = &items[i];
        out.push(
            RemovedPiece {
                title: v.arrangement_title.clone(),
                restore_action: action_path(base, v.item.id, "/undelete"),
            },
        );
        i = i + 1;
    }
    out
}

/// An arrangement that can be added.
pub struct Candidate {
    pub id: Uuid,
    pub title: String,
}

/// The arrangements of the pieces in a collection.
pub open spec fn present(items: Seq<ItemView>) -> Seq<Uuid> {
    items.map_values(|v: ItemView| v.item.arrangement_id)
}

/// Whether an arrangement is not in a collection yet.
pub open spec fn absent_from(items: Seq<ItemView>) -> spec_fn(Arrangement) -> bool {
    |a: Arrangement| !present(items).contains(a.id)
}

/// An arrangement as one that can be added.
pub open spec fn as_candidate() -> spec_fn(Arrangement) -> Candidate {
    |a: Arrangement| Candidate { id: a.id, title: a.title }
}

/// The arrangements that are not in a collection yet, in the order listed.
pub open spec fn addable(arrangements: Seq<Arrangement>, items: Seq<ItemView>) -> Seq<Candidate> {
    arrangements.filter(absent_from(items)).map_values(as_candidate())
}

fn present_ids(items: &Vec<ItemView>) -> (r: Vec<Uuid>)
    ensures
        r@ == present(items@),
{
    let mut out: Vec<Uuid> = Vec::new();
    let mut i: usize = 0;
    while i < items.len()
        invariant
            i <= items.len(),
            out@ == present(items@).take(i as int),
        decreases items.len() - i,
    {
        out.push(items[i].item.arrangement_id);
        i = i + 1;
    }
    proof {
        take_all(present(items@));
    }
    out
}

fn candidates(arrangements: &Vec<Arrangement>, items: &Vec<ItemView>) -> (r: Vec<Candidate>)
    ensures
        r@ == addable(arrangements@, items@),
{
    let here: Vec<Uuid> = present_ids(items);
    let ghost p = absent_from(items@);
    let ghost f = as_candidate();
    let mut out: Vec<Candidate> = Vec::new();
    let mut i: usize = 0;
    proof {
        filter_none(arrangements@, p);
    }
    assert(out@ == arrangements@.take(0).filter(p).map_values(f));
    while i < arrangements.len()
        invariant
            i <= arrangements.len(),
            here@ == present(items@),
            p == absent_from(items@),
            f == as_candidate(),
            out@ == arrangements@.take(i as int).filter(p).map_values(f),
        decreases arrangements.len() - i,
    {
        proof {
            filter_step(arrangements@, i as int, p);
            map_push(arrangements@.take(i as int).filter(p), arrangements@[i as int], f);
        }
        let a: &Arrangement = &arrangements[i];
        if !contains_id(&here, a.id) {
            out.push(Candidate { id: a.id, title: a.title.clone() });
        }
        i = i + 1;
    }
    proof {
        take_all(arrangements@);
    }
    out
}

/// The screen of a collection.
pub struct CollectionPage {
    pub name: String,
    pub slug: String,
    pub save_action: String,
    /// The version that the form carries.
    pub version: i64,
    pub types: Vec<TypeOption>,
    pub reorder_action: String,
    pub pieces: Vec<PieceRow>,
    pub add_action: String,
    /// Empty where every arrangement is in the collection already.
    pub candidates: Vec<Candidate>,
    pub next_index: i64,
    pub max_index: i32,
    pub removed: Vec<RemovedPiece>,
    pub removed_truncated: Option<Truncation>,
    pub delete_action: String,
    pub back: String,
}

/// Whether `r` is what [`collection_detail_page`] owes its caller.
pub open spec fn collection_detail_page_outcome(
    r: Result<CollectionPage, Reply>,
    ctx: ConsoleCtx,
    found: Lookup<Collection>,
    items: Option<&Vec<ItemView>>,
    removed: Vec<ItemView>,
    removed_total: i64,
    arrangements: Vec<Arrangement>,
) -> bool {
    exists|opened: Result<Collection, Reply>|
        #[trigger] collection_opened(opened, ctx, found) && match opened {
            Err(reply) => r is Err && r->Err_0 == reply,
            Ok(c) => match items {
                None => refused(r, col_error(500, "Could not load the collection's pieces."@)),
                Some(items) => {
                    let org = ctx.org_of().id;
                    &&& r is Ok
                    &&& r->Ok_0.name == c.name
                    &&& r->Ok_0.slug == c.slug
                    &&& r->Ok_0.save_action@ == collection_url(org, c.id)
                    &&& r->Ok_0.version == c.updated_at.millis
                    &&& r->Ok_0.types@.len() == 2
                    &&& forall|i: int|
                        0 <= i < 2 ==> (#[trigger] r->Ok_0.types@[i]).selected == (
                        c.collection_type@ == r->Ok_0.types@[i].value@)
                    &&& r->Ok_0.types@[0].value@ == "program"@ && r->Ok_0.types@[1].value@
                        == "standing"@
                    &&& r->Ok_0.reorder_action@ == items_url(org, c.id) + "/reorder"@
                    &&& r->Ok_0.pieces@.len() == items@.len()
                    &&& forall|i: int|
                        0 <= i < items@.len() ==> shows_piece(
                            #[trigger] r->Ok_0.pieces@[i],
                            items@,
                            i,
                            items_url(org, c.id),
                        )
                    &&& r->Ok_0.add_action@ == items_url(org, c.id)
                    &&& r->Ok_0.candidates@ == addable(arrangements@, items@)
                    &&& r->Ok_0.next_index == highest_index(items@) + 1
                    &&& r->Ok_0.max_index == MAX_INDEX
                    &&& r->Ok_0.removed@.len() == removed@.len()
                    &&& forall|i: int|
                        0 <= i < removed@.len() ==> shows_removed(
                            #[trigger] r->Ok_0.removed@[i],
                            removed@[i],
                            items_url(org, c.id),
                        )
                    &&& notes_truncation(
                        r->Ok_0.removed_truncated,
                        removed@.len(),
                        removed_total,
                    )
                    &&& r->Ok_0.delete_action@ == collection_url(org, c.id) + "/delete"@
                    &&& r->Ok_0.back@ == list_url(org, "/collections"@)
                },
            },
        }
}

/// The screen of a collection. `items` is `None` where its pieces could not be
/// listed.
pub fn collection_detail_page(
    ctx: &ConsoleCtx,
    found: Lookup<Collection>,
    items: Option<&Vec<ItemView>>,
    removed: &Vec<ItemView>,
    removed_total: i64,
    arrangements: &Vec<Arrangement>,
) -> (r: Result<CollectionPage, Reply>)
    ensures
        collection_detail_page_outcome(
            r,
            *ctx,
            found,
            items,
            *removed,
            removed_total,
            *arrangements,
        ),
{
    let opened: Result<Collection, Reply> = enter_collection(ctx, found);
    assert(collection_opened(opened, *ctx, found));
    let c: Collection = match opened {
        Ok(c) => c,
        Err(reply) => return Err(reply),
    };
    let items: &Vec<ItemView> = match items {
        Some(items) => items,
        None => return Err(error_page(500, "Could not load the collection's pieces.")),
    };
    let org: Uuid = ctx.org().id;
    let base: String = detail_url(org, c.id).concat("/items");
    Ok(
        CollectionPage {
            save_action: detail_url(org, c.id),
            version: c.updated_at.millis,
            types: type_select(Some(c.collection_type.as_str())),
            reorder_action: base.clone().concat("/reorder"),
            pieces: piece_rows(items, &base),
            candidates: candidates(arrangements, items),
            next_index: next_index(items),
            max_index: MAX_INDEX,
            removed: removed_rows(removed, &base),
            removed_truncated: truncation(removed.len(), removed_total),
            delete_action: detail_url(org, c.id).concat("/delete"),
            back: list_path(org, "/collections"),
            add_action: base,
            name: c.name,
            slug: c.slug,
        },
    )
}

/// No arrangement that is in the collection is offered for adding, and every
/// other one that was listed is.
pub proof fn only_absent_arrangements_are_offered(
    arrangements: Seq<Arrangement>,
    items: Seq<ItemView>,
    k: int,
)
    requires
        0 <= k < arrangements.len(),
    ensures
        addable(arrangements, items).contains(
            Candidate { id: arrangements[k].id, title: arrangements[k].title },
        ) <==> !present(items).contains(arrangements[k].id),
{
    broadcast use vstd::seq_lib::group_seq_properties;

    let p = absent_from(items);
    let f = as_candidate();
    let kept = arrangements.filter(p);
    let x = Candidate { id: arrangements[k].id, title: arrangements[k].title };
    let out = addable(arrangements, items);
    assert(out == kept.map_values(f));
    if !present(items).contains(arrangements[k].id) {
        assert(arrangements.contains(arrangements[k]));
        assert(kept.contains(arrangements[k]));
        let m = choose|m: int| 0 <= m < kept.len() && kept[m] == arrangements[k];
        assert(out[m] == x);
    } else if out.contains(x) {
        let m = choose|m: int| 0 <= m < out.len() && out[m] == x;
        assert(kept.contains(kept[m]));
        assert(p(kept[m]));
    }
}

/// An arrow stands beside a piece exactly where it can move that way.
pub proof fn arrows_are_shown_where_they_work(
    row: PieceRow,
    items: Seq<ItemView>,
    i: int,
    base: Seq<char>,
    order: Seq<Uuid>,
)
    requires
        0 <= i < items.len(),
        shows_piece(row, items, i, base),
        order == items.map_values(|v: ItemView| v.item.id),
    ensures
        row.up is Some <==> arrow(order, true, i) is Some,
        row.down is Some <==> arrow(order, false, i) is Some,
        row.up is Some ==> row.up->0@ == directive(true, order[i]),
        row.down is Some ==> row.down->0@ == directive(false, order[i]),
{
}

/// Whether `row` is about the collection `c`, in every column and action.
pub open spec fn is_about(row: CollectionRow, org: Uuid, c: Collection) -> bool {
    let url = row_url(org, "/collections"@, c.id);
    &&& row.name@ == c.name@ && row.slug@ == c.slug@
    &&& row.collection_type@ == c.collection_type@
    &&& row.href@ == url
    &&& row.delete_action@ == url + "/delete"@
    &&& row.restore_action@ == url + "/undelete"@
}

/// The list of collections shows the live ones and the deleted ones, each in
/// its place and with actions of its own, and says where there are more.
pub proof fn the_list_shows_each_collection(
    page: CollectionsPage,
    ctx: ConsoleCtx,
    listed: &Vec<Collection>,
    total: i64,
    deleted: Vec<Collection>,
    deleted_total: i64,
)
    requires
        collections_page_outcome(
            Ok::<CollectionsPage, Reply>(page),
            ctx,
            Some((listed, total)),
            deleted,
            deleted_total,
        ),
    ensures
        ctx.access_of().builds_collections(),
        page.rows@.len() == listed@.len() && page.deleted@.len() == deleted@.len(),
        forall|i: int|
            0 <= i < listed@.len() ==> is_about(
                #[trigger] page.rows@[i],
                ctx.org_of().id,
                listed@[i],
            ),
        forall|i: int|
            0 <= i < deleted@.len() ==> is_about(
                #[trigger] page.deleted@[i],
                ctx.org_of().id,
                deleted@[i],
            ),
        page.truncated is Some <==> total > listed@.len(),
        page.truncated matches Some(t) ==> t.shown == listed@.len() && t.total == total,
        page.deleted_truncated is Some <==> deleted_total > deleted@.len(),
        page.deleted_truncated matches Some(t) ==> t.shown == deleted@.len() && t.total
            == deleted_total,
        page.create_action@ == list_url(ctx.org_of().id, "/collections"@),
{
    assert forall|i: int| 0 <= i < listed@.len() implies is_about(
        #[trigger] page.rows@[i],
        ctx.org_of().id,
        listed@[i],
    ) by {
        assert(shows_collection(page.rows@[i], ctx.org_of().id, listed@[i]));
    }
    assert forall|i: int| 0 <= i < deleted@.len() implies is_about(
        #[trigger] page.deleted@[i],
        ctx.org_of().id,
        deleted@[i],
    ) by {
        assert(shows_collection(page.deleted@[i], ctx.org_of().id, deleted@[i]));
    }
}

/// The screen of a collection shows the row as it is now and each piece in its
/// place: its number, its title, the way to its parts and actions of its own.
pub proof fn the_screen_of_a_collection_shows_each_piece(
    page: CollectionPage,
    ctx: ConsoleCtx,
    c: Collection,
    items: &Vec<ItemView>,
    removed: Vec<ItemView>,
    removed_total: i64,
    arrangements: Vec<Arrangement>,
)
    requires
        collection_detail_page_outcome(
            Ok::<CollectionPage, Reply>(page),
            ctx,
            Lookup::Found(c),
            Some(items),
            removed,
            removed_total,
            arrangements,
        ),
    ensures
        ctx.access_of().builds_collections() && c.organization_id == ctx.org_of().id,
        page.name@ == c.name@ && page.slug@ == c.slug@,
        page.version == c.updated_at.millis,
        page.save_action@ == row_url(ctx.org_of().id, "/collections"@, c.id),
        page.delete_action@ == row_url(ctx.org_of().id, "/collections"@, c.id) + "/delete"@,
        page.add_action@ == row_url(ctx.org_of().id, "/collections"@, c.id) + "/items"@,
        page.reorder_action@ == page.add_action@ + "/reorder"@,
        page.types@.len() == 2,
        page.types@[0].value@ == "program"@ && (page.types@[0].selected <==> c.collection_type@
            == "program"@),
        page.types@[1].value@ == "standing"@ && (page.types@[1].selected <==> c.collection_type@
            == "standing"@),
        page.pieces@.len() == items@.len(),
        forall|i: int|
            0 <= i < items@.len() ==> {
                let (row, v) = (#[trigger] page.pieces@[i], items@[i]);
                &&& row.id == v.item.id && row.index == v.item.index
                &&& row.slug@ == v.arrangement_slug@
                &&& row.removed == v.arrangement_removed
                &&& v.arrangement_removed ==> row.label@ == v.arrangement_slug@
                &&& !v.arrangement_removed ==> row.label@ == v.arrangement_title@
                &&& row.parts_href@ == page.add_action@ + "/"@ + uuid_text(v.item.id)
                    + "/assignments"@
                &&& row.delete_action@ == page.add_action@ + "/"@ + uuid_text(v.item.id)
                    + "/delete"@
            },
        page.removed@.len() == removed@.len(),
        forall|i: int|
            0 <= i < removed@.len() ==> {
                let (row, v) = (#[trigger] page.removed@[i], removed@[i]);
                &&& row.title@ == v.arrangement_title@
                &&& row.restore_action@ == page.add_action@ + "/"@ + uuid_text(v.item.id)
                    + "/undelete"@
            },
        page.removed_truncated is Some <==> removed_total > removed@.len(),
        forall|k: int| 0 <= k < items@.len()
            ==> page.next_index > (#[trigger] items@[k]).item.index,
        items@.len() == 0 ==> page.next_index == 1,
        page.max_index == 999_999,
{
    assert forall|k: int| 0 <= k < items@.len() implies page.next_index > (
    #[trigger] items@[k]).item.index by {
        next_index_is_free(items@, k);
    }
    assert forall|i: int| 0 <= i < items@.len() implies shows_piece(
        #[trigger] page.pieces@[i],
        items@,
        i,
        items_url(ctx.org_of().id, c.id),
    ) by {}
    assert forall|i: int| 0 <= i < removed@.len() implies shows_removed(
        #[trigger] page.removed@[i],
        removed@[i],
        items_url(ctx.org_of().id, c.id),
    ) by {}
}

/// The arrangements offered for adding are those listed that are in no piece of
/// the collection, in their order; `from` says which each is.
pub proof fn the_other_arrangements_can_be_added(
    offered: Seq<Candidate>,
    arrangements: Seq<Arrangement>,
    items: Seq<ItemView>,
) -> (from: Seq<int>)
    requires
        offered == addable(arrangements, items),
    ensures
        offered.len() == from.len(),
        forall|k: int|
            0 <= k < from.len() ==> {
                &&& 0 <= #[trigger] from[k] < arrangements.len()
                &&& offered[k].id == arrangements[from[k]].id
                &&& offered[k].title@ == arrangements[from[k]].title@
                &&& forall|j: int|
                    0 <= j < items.len() ==> (#[trigger] items[j]).item.arrangement_id
                        != arrangements[from[k]].id
            },
        forall|k: int, l: int| 0 <= k < l < from.len() ==> #[trigger] from[k] < #[trigger] from[l],
        forall|i: int|
            0 <= i < arrangements.len() && (forall|j: int|
                0 <= j < items.len() ==> (#[trigger] items[j]).item.arrangement_id
                    != arrangements[i].id) ==> from.contains(i),
{
    let from = kept_from(arrangements, absent_from(items), as_candidate());
    let here = present(items);
    assert forall|k: int| 0 <= k < from.len() implies forall|j: int|
        0 <= j < items.len() ==> (#[trigger] items[j]).item.arrangement_id
            != arrangements[#[trigger] from[k]].id by {
        assert forall|j: int| 0 <= j < items.len() implies (#[trigger] items[j]).item.arrangement_id
            != arrangements[from[k]].id by {
            assert(here[j] == items[j].item.arrangement_id);
        }
    }
    assert forall|i: int|
        0 <= i < arrangements.len() && (forall|j: int|
            0 <= j < items.len() ==> (#[trigger] items[j]).item.arrangement_id
                != arrangements[i].id) implies from.contains(i) by {
        assert(!here.contains(arrangements[i].id)) by {
            if here.contains(arrangements[i].id) {
                let j = choose|j: int| 0 <= j < here.len() && here[j] == arrangements[i].id;
                assert(items[j].item.arrangement_id == arrangements[i].id);
            }
        }
        assert(absent_from(items)(arrangements[i]));
    }
    from
}

/// Saving a collection as its screen shows it changes nothing.
pub proof fn saving_an_unchanged_collection_changes_nothing(
    page: CollectionPage,
    ctx: ConsoleCtx,
    c: Collection,
    items: &Vec<ItemView>,
    removed: Vec<ItemView>,
    removed_total: i64,
    arrangements: Vec<Arrangement>,
    form: CollectionForm,
    k: int,
    r: Result<CollectionFields, Reply>,
)
    requires
        collection_detail_page_outcome(
            Ok::<CollectionPage, Reply>(page),
            ctx,
            Lookup::Found(c),
            Some(items),
            removed,
            removed_total,
            arrangements,
        ),
        bare(c.name@),
        0 <= k < 2 && page.types@[k].selected,
        text_of(form.name) == Some(page.name@),
        text_of(form.collection_type) == Some(page.types@[k].value@),
        text_of(form.expected_version) == Some(int_text(page.version as int)),
        plan_update_collection_outcome(r, ctx, c.id, Lookup::Found(c), form),
    ensures
        r is Ok,
        r->Ok_0.name@ == c.name@,
        r->Ok_0.collection_type@ == c.collection_type@,
{
    bare_text_is_taken_in_as_it_stands(c.name@);
    a_collection_is_changed_as_the_form_says(r, ctx, c.id, Lookup::Found(c), form);
    assert(form.collection_type->0@ == "program"@ || form.collection_type->0@ == "standing"@);
}

/// Of the two kinds the current one is selected.
pub proof fn the_kind_of_a_collection_is_selected(r: Vec<TypeOption>, current: Option<&str>)
    requires
        type_select_outcome(r, current),
    ensures
        r@.len() == 2,
        r@[0].value@ == "program"@ && r@[1].value@ == "standing"@,
        r@[0].selected <==> current is Some && current->0@ == "program"@,
        r@[1].selected <==> current is Some && current->0@ == "standing"@,
{
}

/// Those who build collections see them, unless they could not be listed.
pub proof fn those_who_build_collections_see_them(
    r: Result<CollectionsPage, Reply>,
    ctx: ConsoleCtx,
    listed: Option<(&Vec<Collection>, i64)>,
    deleted: Vec<Collection>,
    deleted_total: i64,
)
    requires
        collections_page_outcome(r, ctx, listed, deleted, deleted_total),
    ensures
        r is Ok <==> ctx.access_of().builds_collections() && listed is Some,
        !ctx.access_of().builds_collections() ==> r->Err_0@.status() == 403,
        ctx.access_of().builds_collections() && listed is None ==> r->Err_0@.status() == 500,
{
    if listed is Some {
        let (rows, total) = listed->0;
    }
}

/// Those who build collections see the pieces of those of their organization,
/// unless they could not be listed.
pub proof fn those_who_build_collections_see_the_pieces(
    r: Result<CollectionPage, Reply>,
    ctx: ConsoleCtx,
    found: Lookup<Collection>,
    items: Option<&Vec<ItemView>>,
    removed: Vec<ItemView>,
    removed_total: i64,
    arrangements: Vec<Arrangement>,
)
    requires
        collection_detail_page_outcome(r, ctx, found, items, removed, removed_total, arrangements),
    ensures
        r is Ok <==> ctx.access_of().builds_collections() && (found matches Lookup::Found(c)
            && c.organization_id == ctx.org_of().id) && items is Some,
        !ctx.access_of().builds_collections() ==> r->Err_0@.status() == 403,
        ctx.access_of().builds_collections() && found is Missing ==> r->Err_0@.status() == 404,
        ctx.access_of().builds_collections() && (found matches Lookup::Found(c)
            && c.organization_id == ctx.org_of().id) && items is None ==> r->Err_0@.status() == 500,
        r is Ok ==> r->Ok_0.candidates@ == addable(arrangements@, items->0@),
        r is Ok ==> r->Ok_0.back@ == list_url(ctx.org_of().id, "/collections"@),
        r is Ok ==> (r->Ok_0.removed_truncated matches Some(t) ==> t.shown == removed@.len()
            && t.total
            == removed_total),
{
}

} // verus!
