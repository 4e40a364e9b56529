//! Whether a programme is ready: which voices have players, who has
//! acknowledged, and which collection needs work first.

use vstd::prelude::*;
use crate::collections::{collection_in_org, scoped_collection};
use crate::console::{ConsoleCtx, Section};
use crate::error::{AppError, ErrorView};
use crate::id::Uuid;
use crate::lists::take_all;
use crate::model::{Collection, Lookup, Time};
use crate::order::{
    in_order, in_order_is_an_ordered_rearrangement, in_order_keeps_ties, is_ordered, is_weak_order,
    put_in_order_at,
};
use crate::assignments::{assignments_url, parts_url};
use crate::reply::{error_at, refused, Reply, ReplyView};
use crate::text::texts;
use crate::urls::{list_path, list_url, row_path, row_url};

verus! {

/// Someone down to play a voice.
pub struct Player {
    pub display_name: String,
    pub notified_at: Option<Time>,
    pub acknowledged_at: Option<Time>,
}

/// Someone who is on several voices of one piece.
pub struct Conflict {
    pub display_name: String,
    pub username: String,
    pub voice_names: Vec<String>,
}

/// A voice with its players.
pub struct VoiceCoverage {
    pub voice_name: String,
    pub players: Vec<Player>,
}

/// The coverage of one piece.
pub struct ItemCoverage {
    pub item_id: Uuid,
    pub index: i32,
    pub arrangement_title: String,
    pub arrangement_slug: String,
    pub arrangement_removed: bool,
    pub required: u32,
    pub covered: u32,
    pub players: u32,
    pub players_acknowledged: u32,
    pub conflicts: Vec<Conflict>,
    pub voices: Vec<VoiceCoverage>,
}

/// The coverage of a collection.
pub struct CoverageReport {
    pub collection_id: Uuid,
    pub items: Vec<ItemCoverage>,
    pub required: u32,
    pub covered: u32,
    pub players: u32,
    pub players_acknowledged: u32,
}

/// What a caller may see of coverage.
pub enum CoverageScope {
    FullProgram,
    /// Only the voices for these instruments.
    Section(Vec<Uuid>),
}

/// Which voices count as required.
pub enum Required {
    EveryVoice,
    Instruments(Vec<Uuid>),
}

/// Whether only a section's voices are required.
pub fn is_section_view(required: &Required) -> (r: bool)
    ensures
        r == (*required is Instruments),
{
    match required {
        Required::Instruments(_) => true,
        Required::EveryVoice => false,
    }
}

/// Whether `r` is what [`enter`] owes its caller.
pub open spec fn enter_outcome(
    r: Result<Required, Reply>,
    scope: Result<CoverageScope, AppError>,
) -> bool {
    match scope {
        Ok(CoverageScope::FullProgram) => r == Ok::<Required, Reply>(Required::EveryVoice),
        Ok(CoverageScope::Section(ids)) => r == Ok::<Required, Reply>(
            Required::Instruments(ids),
        ),
        Err(e) => if e@ == ErrorView::Forbidden {
            refused(r, ReplyView::SectionForbidden)
        } else {
            refused(
                r,
                error_at(
                    Section::Coverage,
                    500,
                    "Could not work out which coverage you may see. Please retry."@,
                ),
            )
        },
    }
}

/// The voices that count for a caller, or the answer where they may see none.
/// A failure is never taken for an empty section.
pub fn enter(scope: Result<CoverageScope, AppError>) -> (r: Result<Required, Reply>)
    ensures
        enter_outcome(r, scope),
{
    match scope {
        Ok(CoverageScope::FullProgram) => Ok(Required::EveryVoice),
        Ok(CoverageScope::Section(ids)) => Ok(Required::Instruments(ids)),
        Err(AppError::Forbidden) => Err(Reply::SectionForbidden),
        Err(_) => Err(
            Reply::error_page(
                Section::Coverage,
                500,
                "Could not work out which coverage you may see. Please retry.",
            ),
        ),
    }
}

/// How many conflicts the pieces have together.
pub open spec fn conflict_count(items: Seq<ItemCoverage>) -> nat
    decreases items.len(),
{
    if items.len() == 0 {
        0
    } else {
        conflict_count(items.drop_last()) + items.last().conflicts@.len()
    }
}

fn count_conflicts(items: &Vec<ItemCoverage>) -> (r: u128)
    ensures
        r == conflict_count(items@),
{
    let mut n: u128 = 0;
    let mut i: usize = 0;
    assert(items@.take(0) == Seq::<ItemCoverage>::empty());
    while i < items.len()
        invariant
            i <= items.len(),
            n == conflict_count(items@.take(i as int)),
            n <= i * 0x1_0000_0000_0000_0000,
        decreases items.len() - i,
    {
        assert(items@.take(i + 1).drop_last() == items@.take(i as int));
        let here: usize = items[i].conflicts.len();
        assert(n + here <= (i + 1) * 0x1_0000_0000_0000_0000);
        n = n + here as u128;
        i = i + 1;
    }
    proof {
        take_all(items@);
    }
    n
}

/// What is said of a programme's coverage. Parts and players are counted apart:
/// a programme can be fully cast and barely acknowledged.
#[derive(Clone, Copy, Debug, PartialEq, Eq, Structural)]
pub enum Tally {
    NothingRequired,
    Counted {
        covered: u32,
        required: u32,
        /// How many required parts have no player.
        gaps: i64,
        players_acknowledged: u32,
        players: u32,
        conflicts: u128,
    },
}

/// What is said of a programme with these counts.
pub open spec fn tally_of(
    required: u32,
    covered: u32,
    players: u32,
    players_acknowledged: u32,
    conflicts: nat,
) -> Tally {
    if required == 0 {
        Tally::NothingRequired
    } else {
        Tally::Counted {
            covered,
            required,
            gaps: (required - covered) as i64,
            players_acknowledged,
            players,
            conflicts: conflicts as u128,
        }
    }
}

/// What is said of a programme's coverage.
pub fn tally(report: &CoverageReport) -> (r: Tally)
    ensures
        conflict_count(report.items@) <= u128::MAX,
        r == tally_of(
            report.required,
            report.covered,
            report.players,
            report.players_acknowledged,
            conflict_count(report.items@),
        ),
{
    let conflicts: u128 = count_conflicts(&report.items);
    if report.required == 0 {
        Tally::NothingRequired
    } else {
        Tally::Counted {
            covered: report.covered,
            required: report.required,
            gaps: report.required as i64 - report.covered as i64,
            players_acknowledged: report.players_acknowledged,
            players: report.players,
            conflicts,
        }
    }
}

/// A collection on the dashboard.
pub struct DashboardRow {
    pub id: Uuid,
    pub name: String,
    pub collection_type: String,
    pub required: u32,
    pub covered: u32,
    pub tally: Tally,
}

/// The report on a collection, if there is one.
pub open spec fn report_on(reports: Seq<CoverageReport>, id: Uuid) -> Option<CoverageReport>
    decreases reports.len(),
{
    if reports.len() == 0 {
        None
    } else if reports[0].collection_id == id {
        Some(reports[0])
    } else {
        report_on(reports.skip(1), id)
    }
}

/// A collection on the dashboard. One without a report requires nothing, and
/// is shown all the same.
pub open spec fn row_for(c: Collection, reports: Seq<CoverageReport>) -> DashboardRow {
    match report_on(reports, c.id) {
        Some(r) => DashboardRow {
            id: c.id,
            name: c.name,
            collection_type: c.collection_type,
            required: r.required,
            covered: r.covered,
            tally: tally_of(
                r.required,
                r.covered,
                r.players,
                r.players_acknowledged,
                conflict_count(r.items@),
            ),
        },
        None => DashboardRow {
            id: c.id,
            name: c.name,
            collection_type: c.collection_type,
            required: 0,
            covered: 0,
            tally: Tally::NothingRequired,
        },
    }
}

/// Whether `a` needs work before `b`: a smaller share of its required parts is
/// covered. What requires nothing needs no work at all.
pub open spec fn less_covered(a: DashboardRow, b: DashboardRow) -> bool {
    a.required > 0 && (b.required == 0 || a.covered * b.required < b.covered * a.required)
}

/// The order of the dashboard.
pub open spec fn worst_first() -> spec_fn(DashboardRow, DashboardRow) -> bool {
    |a: DashboardRow, b: DashboardRow| less_covered(a, b)
}

/// The collections in the order that the dashboard shows them in.
pub open spec fn dashboard_rows(cs: Seq<Collection>, reports: Seq<CoverageReport>) -> Seq<
    DashboardRow,
> {
    in_order(cs.map_values(|c: Collection| row_for(c, reports)), worst_first())
}

/// The dashboard's order is an order: of two collections at most one needs work
/// before the other, and two that are covered alike compare alike with others.
pub proof fn worst_first_is_an_order()
    ensures
        is_weak_order(worst_first()),
{
    let lt = worst_first();
    assert forall|a: DashboardRow, b: DashboardRow| #[trigger] lt(a, b) implies !lt(b, a) by {}
    assert forall|a: DashboardRow, b: DashboardRow, c: DashboardRow| #[trigger]
        lt(a, b) && !lt(c, b) implies #[trigger] lt(a, c) by {
        if c.required > 0 {
            let (ac, ar) = (a.covered as int, a.required as int);
            let (bc, br) = (b.covered as int, b.required as int);
            let (cc, cr) = (c.covered as int, c.required as int);
            assert(br > 0);
            assert(ac * br < bc * ar);
            assert(cc * br >= bc * cr);
            assert(ac * cr < cc * ar) by (nonlinear_arith)
                requires
                    ac * br < bc * ar,
                    cc * br >= bc * cr,
                    ar > 0,
                    br > 0,
                    cr > 0,
                    ac >= 0,
                    bc >= 0,
                    cc >= 0,
            {
                assert(ac * br * cr < bc * ar * cr);
                assert(cc * br * ar >= bc * cr * ar);
                assert((ac * cr) * br < (cc * ar) * br);
            }
        }
    }
}

/// The dashboard shows every collection once, none below one that needs work
/// less, and those covered alike in the order they were listed in.
pub proof fn dashboard_is_worst_first(
    cs: Seq<Collection>,
    reports: Seq<CoverageReport>,
    alike: spec_fn(DashboardRow) -> bool,
)
    requires
        forall|a: DashboardRow, b: DashboardRow| #[trigger]
            alike(a) && #[trigger] alike(b) ==> !less_covered(a, b),
    ensures
        is_ordered(dashboard_rows(cs, reports), worst_first()),
        dashboard_rows(cs, reports).to_multiset() == cs.map_values(
            |c: Collection| row_for(c, reports),
        ).to_multiset(),
        dashboard_rows(cs, reports).filter(alike) == cs.map_values(
            |c: Collection| row_for(c, reports),
        ).filter(alike),
{
    worst_first_is_an_order();
    let rows = cs.map_values(|c: Collection| row_for(c, reports));
    in_order_is_an_ordered_rearrangement(rows, worst_first());
    in_order_keeps_ties(rows, worst_first(), alike);
}

/// What requires nothing stands below all that requires something.
pub proof fn nothing_required_sinks(
    cs: Seq<Collection>,
    reports: Seq<CoverageReport>,
    i: int,
    j: int,
)
    requires
        0 <= i < j < dashboard_rows(cs, reports).len(),
        dashboard_rows(cs, reports)[j].required > 0,
    ensures
        dashboard_rows(cs, reports)[i].required > 0,
{
    worst_first_is_an_order();
    let rows = cs.map_values(|c: Collection| row_for(c, reports));
    in_order_is_an_ordered_rearrangement(rows, worst_first());
    let d = dashboard_rows(cs, reports);
    assert(!worst_first()(d[j], d[i]));
}

fn is_less_covered(a: &DashboardRow, b: &DashboardRow) -> (r: bool)
    ensures
        r == less_covered(*a, *b),
{
    if a.required == 0 {
        return false;
    }
    if b.required == 0 {
        return true;
    }
    assert(a.covered * b.required <= 0xffff_ffff * 0xffff_ffff) by (nonlinear_arith)
        requires
            a.covered <= 0xffff_ffff,
            b.required <= 0xffff_ffff,
    ;
    assert(b.covered * a.required <= 0xffff_ffff * 0xffff_ffff) by (nonlinear_arith)
        requires
            b.covered <= 0xffff_ffff,
            a.required <= 0xffff_ffff,
    ;
    (a.covered as u64) * (b.required as u64) < (b.covered as u64) * (a.required as u64)
}

fn find_report<'a>(reports: &'a Vec<CoverageReport>, id: Uuid) -> (r: Option<&'a CoverageReport>)
    ensures
        match r {
            Some(x) => report_on(reports@, id) == Some(*x),
            None => report_on(reports@, id) is None,
        },
{
    let mut i: usize = 0;
    assert(reports@.skip(0) == reports@);
    while i < reports.len()
        invariant
            i <= reports.len(),
            report_on(reports@, id) == report_on(reports@.skip(i as int), id),
        decreases reports.len() - i,
    {
        if reports[i].collection_id == id {
            return Some(&reports[i]);
        }
        assert(reports@.skip(i as int).skip(1) == reports@.skip(i + 1));
        i = i + 1;
    }
    None
}

fn dashboard_row(c: &Collection, reports: &Vec<CoverageReport>) -> (r: DashboardRow)
    ensures
        r == row_for(*c, reports@),
{
    match find_report(reports, c.id) {
        Some(x) => DashboardRow {
            id: c.id,
            name: c.name.clone(),
            collection_type: c.collection_type.clone(),
            required: x.required,
            covered: x.covered,
            tally: tally(x),
        },
        None => DashboardRow {
            id: c.id,
            name: c.name.clone(),
            collection_type: c.collection_type.clone(),
            required: 0,
            covered: 0,
            tally: Tally::NothingRequired,
        },
    }
}

/// Puts a row where it belongs among rows in order.
fn put_row(rows: &mut Vec<DashboardRow>, row: DashboardRow)
    ensures
        final(rows)@ == crate::order::put_in_order(old(rows)@, row, worst_first()),
{
    let mut k: usize = rows.len();
    while k > 0 && is_less_covered(&row, &rows[k - 1])
        invariant
            *rows == *old(rows),
            k <= rows.len(),
            forall|i: int| k <= i < rows@.len() ==> less_covered(row, #[trigger] rows@[i]),
        decreases k,
    {
        k = k - 1;
    }
    proof {
        assert forall|i: int| k <= i < rows@.len() implies worst_first()(
            row,
            #[trigger] rows@[i],
        ) by {}
        put_in_order_at(rows@, row, worst_first(), k as int);
    }
    rows.insert(k, row);
}

/// Whether `r` is what [`dashboard`] owes its caller.
pub open spec fn dashboard_outcome(
    r: Result<Vec<DashboardRow>, Reply>,
    collections: Option<&Vec<Collection>>,
    reports: Option<&Vec<CoverageReport>>,
) -> bool {
    match (collections, reports) {
        (None, _) => refused(
            r,
            error_at(Section::Coverage, 500, "Could not load coverage."@),
        ),
        (Some(_), None) => refused(
            r,
            error_at(
                Section::Coverage,
                500,
                "Could not work out coverage. The numbers would have been wrong, so none are shown."@,
            ),
        ),
        (Some(cs), Some(rs)) => r is Ok && r->Ok_0@ == dashboard_rows(cs@, rs@),
    }
}

/// The dashboard: every collection with its tally, worst covered first. Where
/// something could not be loaded no numbers are shown at all, rather than
/// wrong ones.
pub fn dashboard(
    collections: Option<&Vec<Collection>>,
    reports: Option<&Vec<CoverageReport>>,
) -> (r: Result<Vec<DashboardRow>, Reply>)
    ensures
        dashboard_outcome(r, collections, reports),
{
    let cs: &Vec<Collection> = match collections {
        Some(cs) => cs,
        None => return Err(Reply::error_page(Section::Coverage, 500, "Could not load coverage.")),
    };
    let rs: &Vec<CoverageReport> = match reports {
        Some(rs) => rs,
        None => return Err(
            Reply::error_page(
                Section::Coverage,
                500,
                "Could not work out coverage. The numbers would have been wrong, so none are shown.",
            ),
        ),
    };
    let ghost f = |c: Collection| row_for(c, rs@);
    let ghost all = cs@.map_values(f);
    let mut out: Vec<DashboardRow> = Vec::new();
    let mut i: usize = 0;
    assert(all.take(0) == Seq::<DashboardRow>::empty());
    while i < cs.len()
        invariant
            i <= cs.len(),
            f == (|c: Collection| row_for(c, rs@)),
            all == cs@.map_values(f),
            out@ == in_order(all.take(i as int), worst_first()),
        decreases cs.len() - i,
    {
        let row: DashboardRow = dashboard_row(&cs[i], rs);
        assert(all.take(i + 1).drop_last() == all.take(i as int));
        assert(all.take(i + 1).last() == row);
        put_row(&mut out, row);
        i = i + 1;
    }
    proof {
        take_all(all);
    }
    Ok(out)
}

/// The page of a collection's coverage.
pub fn coverage_path(org: Uuid, collection: Uuid) -> (r: String)
    ensures
        r@ == row_url(org, "/coverage"@, collection),
{
    row_path(org, "/coverage", collection)
}

/// How many players of a voice have acknowledged.
pub open spec fn acknowledged_count(players: Seq<Player>) -> nat
    decreases players.len(),
{
    if players.len() == 0 {
        0
    } else {
        acknowledged_count(players.drop_last()) + (if players.last().acknowledged_at is Some {
            1nat
        } else {
            0nat
        })
    }
}

impl VoiceCoverage {
    /// How many players of the voice have acknowledged.
    pub fn acknowledged(&self) -> (r: usize)
        ensures
            r == acknowledged_count(self.players@),
            r <= self.players@.len(),
    {
        let mut n: usize = 0;
        let mut i: usize = 0;
        assert(self.players@.take(0) == Seq::<Player>::empty());
        while i < self.players.len()
            invariant
                i <= self.players.len(),
                n == acknowledged_count(self.players@.take(i as int)),
                n <= i,
            decreases self.players.len() - i,
        {
            assert(self.players@.take(i + 1).drop_last() == self.players@.take(i as int));
            if self.players[i].acknowledged_at.is_some() {
                n = n + 1;
            }
            i = i + 1;
        }
        proof {
            take_all(self.players@);
        }
        n
    }
}

/// A player beside a voice.
pub struct PlayerNote {
    pub display_name: String,
    /// They have neither been told nor answered.
    pub not_yet_notified: bool,
}

/// A voice on the coverage page.
pub struct VoiceRow {
    pub voice_name: String,
    /// Empty where the voice is unassigned.
    pub players: Vec<PlayerNote>,
    pub acknowledged: usize,
}

/// Whether `row` shows the voice `v`.
pub open spec fn shows_voice(row: VoiceRow, v: VoiceCoverage) -> bool {
    &&& row.voice_name == v.voice_name
    &&& row.acknowledged == acknowledged_count(v.players@)
    &&& row.players@.len() == v.players@.len()
    &&& forall|i: int|
        0 <= i < v.players@.len() ==> (#[trigger] row.players@[i]).display_name
            == v.players@[i].display_name && row.players@[i].not_yet_notified == (
        v.players@[i].acknowledged_at is None && v.players@[i].notified_at is None)
}

fn voice_row(v: &VoiceCoverage) -> (r: VoiceRow)
    ensures
        shows_voice(r, *v),
{
    let mut players: Vec<PlayerNote> = Vec::new();
    let mut i: usize = 0;
    while i < v.players.len()
        invariant
            i <= v.players.len(),
            players@.len() == i,
            forall|k: int|
                0 <= k < i ==> (#[trigger] players@[k]).display_name == v.players@[k].display_name
                    && players@[k].not_yet_notified == (v.players@[k].acknowledged_at is None
                    && v.players@[k].notified_at is None),
        decreases v.players.len() - i,
    {
        let p: &Player = &v.players[i];
        players.push(
            PlayerNote {
                display_name: p.display_name.clone(),
                not_yet_notified: p.acknowledged_at.is_none() && p.notified_at.is_none(),
            },
        );
        i = i + 1;
    }
    VoiceRow { voice_name: v.voice_name.clone(), players, acknowledged: v.acknowledged() }
}

/// The voices of a conflict in one text: with ` and ` between neighbours.
pub open spec fn joined_names(names: Seq<Seq<char>>) -> Seq<char>
    decreases names.len(),
{
    if names.len() == 0 {
        Seq::empty()
    } else if names.len() == 1 {
        names[0]
    } else {
        joined_names(names.drop_last()) + " and "@ + names.last()
    }
}

/// What is said of a conflict.
pub open spec fn conflict_text(c: Conflict) -> Seq<char> {
    "⚠ "@ + c.display_name@ + " ("@ + c.username@ + ") is on "@ + joined_names(
        texts(c.voice_names@),
    ) + " — one player cannot cover both at the same time."@
}

fn conflict_line(c: &Conflict) -> (r: String)
    ensures
        r@ == conflict_text(*c),
{
    let mut names: String = String::new();
    let mut i: usize = 0;
    let ghost all = texts(c.voice_names@);
    assert(all.take(0) == Seq::<Seq<char>>::empty());
    while i < c.voice_names.len()
        invariant
            i <= c.voice_names.len(),
            all == texts(c.voice_names@),
            names@ == joined_names(all.take(i as int)),
        decreases c.voice_names.len() - i,
    {
        assert(all.take(i + 1).drop_last() == all.take(i as int));
        if i > 0 {
            names.append(" and ");
        }
        names.append(c.voice_names[i].as_str());
        assert(names@ == joined_names(all.take(i + 1)));
        i = i + 1;
    }
    proof {
        take_all(all);
    }
    let mut out: String = "⚠ ".to_owned();
    out.append(c.display_name.as_str());
    out.append(" (");
    out.append(c.username.as_str());
    out.append(") is on ");
    out.append(names.as_str());
    out.append(" — one player cannot cover both at the same time.");
    out
}

/// What is said where a piece has no voice to show.
#[derive(Clone, Copy, Debug, PartialEq, Eq, Structural)]
pub enum EmptyNote {
    NothingForSection,
    NoVoices,
}

/// A piece on the coverage page.
pub struct PieceCoverage {
    pub index: i32,
    pub label: String,
    pub removed: bool,
    pub required: u32,
    pub covered: u32,
    pub players: u32,
    pub players_acknowledged: u32,
    /// Where parts can be assigned; only for those who may.
    pub assign_href: Option<String>,
    pub conflicts: Vec<String>,
    pub voices: Vec<VoiceRow>,
    pub empty_note: Option<EmptyNote>,
}

/// Whether `p` shows the piece `i`.
pub open spec fn shows_item(
    p: PieceCoverage,
    i: ItemCoverage,
    can_assign: bool,
    section_view: bool,
    org: Uuid,
    collection: Uuid,
) -> bool {
    &&& p.index == i.index
    &&& p.label == (if i.arrangement_removed {
        i.arrangement_slug
    } else {
        i.arrangement_title
    })
    &&& p.removed == i.arrangement_removed
    &&& p.required == i.required && p.covered == i.covered
    &&& p.players == i.players && p.players_acknowledged == i.players_acknowledged
    &&& (p.assign_href is Some <==> can_assign && !i.arrangement_removed)
    &&& (p.assign_href matches Some(h) ==> h@ == parts_url(org, collection, i.item_id))
    &&& p.conflicts@.len() == i.conflicts@.len()
    &&& forall|k: int|
        0 <= k < i.conflicts@.len() ==> (#[trigger] p.conflicts@[k])@ == conflict_text(
            i.conflicts@[k],
        )
    &&& p.voices@.len() == i.voices@.len()
    &&& forall|k: int|
        0 <= k < i.voices@.len() ==> shows_voice(#[trigger] p.voices@[k], i.voices@[k])
    &&& p.empty_note == (if i.voices@.len() == 0 && !i.arrangement_removed {
        if section_view {
            Some(EmptyNote::NothingForSection)
        } else {
            Some(EmptyNote::NoVoices)
        }
    } else {
        None
    })
}

fn piece_coverage(
    i: &ItemCoverage,
    can_assign: bool,
    section_view: bool,
    org: Uuid,
    collection: Uuid,
) -> (r: PieceCoverage)
    ensures
        shows_item(r, *i, can_assign, section_view, org, collection),
{
    let mut conflicts: Vec<String> = Vec::new();
    let mut k: usize = 0;
    while k < i.conflicts.len()
        invariant
            k <= i.conflicts.len(),
            conflicts@.len() == k,
            forall|m: int|
                0 <= m < k ==> (#[trigger] conflicts@[m])@ == conflict_text(i.conflicts@[m]),
        decreases i.conflicts.len() - k,
    {
        conflicts.push(conflict_line(&i.conflicts[k]));
        k = k + 1;
    }
    let mut voices: Vec<VoiceRow> = Vec::new();
    let mut n: usize = 0;
    while n < i.voices.len()
        invariant
            n <= i.voices.len(),
            voices@.len() == n,
            forall|m: int| 0 <= m < n ==> shows_voice(#[trigger] voices@[m], i.voices@[m]),
        decreases i.voices.len() - n,
    {
        voices.push(voice_row(&i.voices[n]));
        n = n + 1;
    }
    PieceCoverage {
        index: i.index,
        label: if i.arrangement_removed {
            i.arrangement_slug.clone()
        } else {
            i.arrangement_title.clone()
        },
        removed: i.arrangement_removed,
        required: i.required,
        covered: i.covered,
        players: i.players,
        players_acknowledged: i.players_acknowledged,
        assign_href: if can_assign && !i.arrangement_removed {
            Some(assignments_url(org, collection, i.item_id))
        } else {
            None
        },
        conflicts,
        voices,
        empty_note: if i.voices.is_empty() && !i.arrangement_removed {
            if section_view {
                Some(EmptyNote::NothingForSection)
            } else {
                Some(EmptyNote::NoVoices)
            }
        } else {
            None
        },
    }
}

/// The coverage page of a collection.
pub struct CoveragePage {
    pub name: String,
    pub collection_type: String,
    pub tally: Tally,
    pub section_view: bool,
    pub pieces: Vec<PieceCoverage>,
    pub back: String,
}

/// Whether `r` is what [`open_collection`] owes its caller.
pub open spec fn open_collection_outcome(
    r: Result<Collection, Reply>,
    ctx: ConsoleCtx,
    found: Lookup<Collection>,
) -> bool {
    match collection_in_org(found, ctx.org_of().id) {
        Lookup::Found(c) => r == Ok::<Collection, Reply>(c),
        Lookup::Missing => refused(
            r,
            error_at(Section::Coverage, 404, "Collection not found."@),
        ),
        Lookup::Failed => refused(
            r,
            error_at(Section::Coverage, 500, "Could not load the collection."@),
        ),
    }
}

/// Opens a collection for its coverage page.
pub fn open_collection(ctx: &ConsoleCtx, found: Lookup<Collection>) -> (r: Result<
    Collection,
    Reply,
>)
    ensures
        open_collection_outcome(r, *ctx, found),
{
    match scoped_collection(found, ctx.org().id) {
        Lookup::Found(c) => Ok(c),
        Lookup::Missing => Err(
            Reply::error_page(Section::Coverage, 404, "Collection not found."),
        ),
        Lookup::Failed => Err(
            Reply::error_page(Section::Coverage, 500, "Could not load the collection."),
        ),
    }
}

/// Whether `r` is what [`collection_coverage`] owes its caller.
pub open spec fn collection_coverage_outcome(
    r: Result<CoveragePage, Reply>,
    ctx: ConsoleCtx,
    c: Collection,
    required: Required,
    report: Option<&CoverageReport>,
) -> bool {
    match report {
        None => refused(
            r,
            error_at(
                Section::Coverage,
                500,
                "Could not work out coverage for this collection."@,
            ),
        ),
        Some(x) => {
            &&& r is Ok
            &&& r->Ok_0.name == c.name
            &&& r->Ok_0.collection_type == c.collection_type
            &&& r->Ok_0.tally == tally_of(
                x.required,
                x.covered,
                x.players,
                x.players_acknowledged,
                conflict_count(x.items@),
            )
            &&& r->Ok_0.section_view == (required is Instruments)
            &&& r->Ok_0.pieces@.len() == x.items@.len()
            &&& forall|i: int|
                0 <= i < x.items@.len() ==> shows_item(
                    #[trigger] r->Ok_0.pieces@[i],
                    x.items@[i],
                    ctx.access_of().builds_collections(),
                    required is Instruments,
                    ctx.org_of().id,
                    c.id,
                )
            &&& r->Ok_0.back@ == list_url(ctx.org_of().id, "/coverage"@)
        },
    }
}

/// The coverage page of a collection: piece by piece and voice by voice. Only
/// those who can close a gap are shown the way to.
pub fn collection_coverage(
    ctx: &ConsoleCtx,
    c: &Collection,
    required: &Required,
    report: Option<&CoverageReport>,
) -> (r: Result<CoveragePage, Reply>)
    ensures
        collection_coverage_outcome(r, *ctx, *c, *required, report),
{
    let x: &CoverageReport = match report {
        Some(x) => x,
        None => return Err(
            Reply::error_page(
                Section::Coverage,
                500,
                "Could not work out coverage for this collection.",
            ),
        ),
    };
    let can_assign: bool = ctx.can_build_collections();
    let section_view: bool = is_section_view(required);
    let org: Uuid = ctx.org().id;
    let mut pieces: Vec<PieceCoverage> = Vec::new();
    let mut i: usize = 0;
    while i < x.items.len()
        invariant
            i <= x.items.len(),
            pieces@.len() == i,
            forall|k: int|
                0 <= k < i ==> shows_item(
                    #[trigger] pieces@[k],
                    x.items@[k],
                    can_assign,
                    section_view,
                    org,
                    c.id,
                ),
        decreases x.items.len() - i,
    {
        pieces.push(piece_coverage(&x.items[i], can_assign, section_view, org, c.id));
        i = i + 1;
    }
    Ok(
        CoveragePage {
            name: c.name.clone(),
            collection_type: c.collection_type.clone(),
            tally: tally(x),
            section_view,
            pieces,
            back: list_path(org, "/coverage"),
        },
    )
}

/// Whether the report at `j` is the one on the collection `id`.
pub open spec fn reports_first_on(reports: Seq<CoverageReport>, id: Uuid, j: int) -> bool {
    &&& 0 <= j < reports.len()
    &&& reports[j].collection_id == id
    &&& forall|i: int| 0 <= i < j ==> (#[trigger] reports[i]).collection_id != id
}

proof fn lemma_report_on(reports: Seq<CoverageReport>, id: Uuid)
    ensures
        forall|j: int| #[trigger]
            reports_first_on(reports, id, j) ==> report_on(reports, id) == Some(reports[j]),
        report_on(reports, id) is Some ==> exists|j: int| #[trigger]
            reports_first_on(reports, id, j),
    decreases reports.len(),
{
    if reports.len() > 0 {
        if reports[0].collection_id == id {
            assert(reports_first_on(reports, id, 0));
            assert forall|j: int| #[trigger] reports_first_on(reports, id, j) implies j == 0 by {
                if j > 0 {
                    assert(reports[0].collection_id != id);
                }
            }
        } else {
            let rest = reports.skip(1);
            lemma_report_on(rest, id);
            assert forall|j: int| #[trigger] reports_first_on(reports, id, j) implies report_on(
                reports,
                id,
            ) == Some(reports[j]) by {
                assert(rest[j - 1] == reports[j]);
                assert forall|i: int| 0 <= i < j - 1 implies (#[trigger] rest[i]).collection_id
                    != id by {
                    assert(rest[i] == reports[i + 1]);
                }
                assert(reports_first_on(rest, id, j - 1));
            }
            if report_on(reports, id) is Some {
                let j = choose|j: int| #[trigger] reports_first_on(rest, id, j);
                assert(reports[j + 1] == rest[j]);
                assert forall|i: int| 0 <= i < j + 1 implies (#[trigger] reports[i]).collection_id
                    != id by {
                    if i > 0 {
                        assert(rest[i - 1] == reports[i]);
                    }
                }
                assert(reports_first_on(reports, id, j + 1));
            }
        }
    }
}

/// The dashboard has a row for each collection, with that collection's own name
/// and kind and the numbers of its own report; what has no report requires
/// nothing and is shown all the same.
pub proof fn the_dashboard_shows_each_collection(
    rows: Vec<DashboardRow>,
    cs: &Vec<Collection>,
    reports: &Vec<CoverageReport>,
    k: int,
) -> (i: int)
    requires
        dashboard_outcome(Ok::<Vec<DashboardRow>, Reply>(rows), Some(cs), Some(reports)),
        0 <= k < cs@.len(),
    ensures
        rows@.len() == cs@.len(),
        0 <= i < rows@.len(),
        rows@[i].id == cs@[k].id,
        rows@[i].name@ == cs@[k].name@,
        rows@[i].collection_type@ == cs@[k].collection_type@,
        forall|j: int| #[trigger]
            reports_first_on(reports@, cs@[k].id, j) ==> {
                let x = reports@[j];
                &&& rows@[i].required == x.required && rows@[i].covered == x.covered
                &&& x.required == 0 ==> rows@[i].tally is NothingRequired
                &&& x.required > 0 ==> counts(rows@[i].tally, x)
            },
        (forall|j: int| 0 <= j < reports@.len() ==> (#[trigger] reports@[j]).collection_id
            != cs@[k].id) ==> rows@[i].required == 0 && rows@[i].tally is NothingRequired,
{
    let all = cs@.map_values(|c: Collection| row_for(c, reports@));
    worst_first_is_an_order();
    in_order_is_an_ordered_rearrangement(all, worst_first());
    lemma_report_on(reports@, cs@[k].id);
    all.to_multiset_ensures();
    rows@.to_multiset_ensures();
    assert(all.to_multiset().len() == rows@.to_multiset().len());
    let x = row_for(cs@[k], reports@);
    assert(all[k] == x);
    assert(all.contains(x));
    assert(all.to_multiset().count(x) > 0);
    assert(rows@.to_multiset().count(x) > 0);
    assert(rows@.contains(x));
    choose|i: int| 0 <= i < rows@.len() && rows@[i] == x
}

/// Whether a tally counts what the report says: parts and players apart, the
/// gaps being what is left to cover.
pub open spec fn counts(t: Tally, x: CoverageReport) -> bool {
    t matches Tally::Counted { covered, required, gaps, players_acknowledged, players, conflicts }
        && {
        &&& covered == x.covered && required == x.required
        &&& gaps + covered == required
        &&& players == x.players && players_acknowledged == x.players_acknowledged
        &&& conflict_count(x.items@) <= u128::MAX ==> conflicts == conflict_count(x.items@)
    }
}

/// The dashboard shows what is covered worst first: of two rows the upper one
/// has no greater share of its required parts covered, and what requires
/// nothing comes last.
pub proof fn the_dashboard_shows_the_worst_first(
    rows: Vec<DashboardRow>,
    cs: &Vec<Collection>,
    reports: &Vec<CoverageReport>,
    i: int,
    j: int,
)
    requires
        dashboard_outcome(Ok::<Vec<DashboardRow>, Reply>(rows), Some(cs), Some(reports)),
        0 <= i < j < rows@.len(),
    ensures
        rows@[j].required > 0 ==> rows@[i].required > 0,
        rows@[j].required > 0 ==> rows@[i].covered * rows@[j].required <= rows@[j].covered
            * rows@[i].required,
{
    let all = cs@.map_values(|c: Collection| row_for(c, reports@));
    worst_first_is_an_order();
    in_order_is_an_ordered_rearrangement(all, worst_first());
    assert(!worst_first()(rows@[j], rows@[i]));
}

/// The conflicts of two programmes add up, and one piece has as many as it
/// lists.
pub proof fn conflicts_add_up(one: Seq<ItemCoverage>, next: Seq<ItemCoverage>, piece: ItemCoverage)
    ensures
        conflict_count(one + next) == conflict_count(one) + conflict_count(next),
        conflict_count(seq![piece]) == piece.conflicts@.len(),
    decreases next.len(),
{
    assert(seq![piece].drop_last() == Seq::<ItemCoverage>::empty());
    assert(conflict_count(Seq::<ItemCoverage>::empty()) == 0);
    assert(seq![piece].last() == piece);
    if next.len() == 0 {
        assert(one + next == one);
    } else {
        assert((one + next).drop_last() == one + next.drop_last());
        conflicts_add_up(one, next.drop_last(), piece);
    }
}

/// The players of two voices who have acknowledged add up, and a player counts
/// exactly where their answer is recorded.
pub proof fn acknowledgements_add_up(one: Seq<Player>, next: Seq<Player>, player: Player)
    ensures
        acknowledged_count(one + next) == acknowledged_count(one) + acknowledged_count(next),
        acknowledged_count(seq![player]) == 1 <==> player.acknowledged_at is Some,
        acknowledged_count(seq![player]) == 0 <==> player.acknowledged_at is None,
        acknowledged_count(next) <= next.len(),
    decreases next.len(),
{
    assert(seq![player].drop_last() == Seq::<Player>::empty());
    assert(acknowledged_count(Seq::<Player>::empty()) == 0);
    assert(seq![player].last() == player);
    if next.len() == 0 {
        assert(one + next == one);
    } else {
        assert((one + next).drop_last() == one + next.drop_last());
        acknowledgements_add_up(one, next.drop_last(), player);
    }
}

/// The coverage page shows each piece with its own numbers, voices and
/// conflicts; the way to its parts is shown to those who can hand them out, and
/// not for a removed arrangement.
pub proof fn the_coverage_page_shows_each_piece(
    page: CoveragePage,
    ctx: ConsoleCtx,
    c: Collection,
    required: Required,
    report: &CoverageReport,
    i: int,
)
    requires
        collection_coverage_outcome(
            Ok::<CoveragePage, Reply>(page),
            ctx,
            c,
            required,
            Some(report),
        ),
        0 <= i < report.items@.len(),
    ensures
        page.name@ == c.name@ && page.collection_type@ == c.collection_type@,
        page.section_view <==> required is Instruments,
        report.required == 0 ==> page.tally is NothingRequired,
        report.required > 0 ==> counts(page.tally, *report),
        page.pieces@.len() == report.items@.len(),
        ({
            let (p, x) = (page.pieces@[i], report.items@[i]);
            &&& p.index == x.index && p.removed == x.arrangement_removed
            &&& x.arrangement_removed ==> p.label@ == x.arrangement_slug@
            &&& !x.arrangement_removed ==> p.label@ == x.arrangement_title@
            &&& p.required == x.required && p.covered == x.covered
            &&& p.players == x.players && p.players_acknowledged == x.players_acknowledged
            &&& p.assign_href is Some <==> ctx.access_of().builds_collections()
                && !x.arrangement_removed
            &&& p.assign_href is Some ==> p.assign_href->0@ == parts_url(
                ctx.org_of().id,
                c.id,
                x.item_id,
            )
            &&& p.voices@.len() == x.voices@.len()
            &&& p.conflicts@.len() == x.conflicts@.len()
            &&& p.empty_note is Some <==> x.voices@.len() == 0 && !x.arrangement_removed
            &&& p.empty_note == Some(EmptyNote::NothingForSection) ==> required is Instruments
            &&& p.empty_note == Some(EmptyNote::NoVoices) ==> required is EveryVoice
        }),
{
    assert(shows_item(
        page.pieces@[i],
        report.items@[i],
        ctx.access_of().builds_collections(),
        required is Instruments,
        ctx.org_of().id,
        c.id,
    ));
}

/// A voice on the coverage page is shown by its name, with each of its players;
/// a player is marked as not yet told exactly where they were neither told nor
/// have answered, and as many are counted as have answered.
pub proof fn a_voice_is_shown_with_its_players(
    p: PieceCoverage,
    x: ItemCoverage,
    can_assign: bool,
    section_view: bool,
    org: Uuid,
    collection: Uuid,
    k: int,
)
    requires
        shows_item(p, x, can_assign, section_view, org, collection),
        0 <= k < x.voices@.len(),
    ensures
        p.voices@.len() == x.voices@.len(),
        ({
            let (row, v) = (p.voices@[k], x.voices@[k]);
            &&& row.voice_name@ == v.voice_name@
            &&& row.players@.len() == v.players@.len()
            &&& forall|n: int|
                0 <= n < v.players@.len() ==> {
                    let (note, player) = (#[trigger] row.players@[n], v.players@[n]);
                    &&& note.display_name@ == player.display_name@
                    &&& note.not_yet_notified <==> player.notified_at is None
                        && player.acknowledged_at is None
                }
            &&& row.acknowledged == acknowledged_count(v.players@)
            &&& (forall|n: int|
                0 <= n < v.players@.len() ==> (#[trigger] v.players@[n]).acknowledged_at is Some)
                ==> row.acknowledged == v.players@.len()
            &&& (forall|n: int|
                0 <= n < v.players@.len() ==> (#[trigger] v.players@[n]).acknowledged_at is None)
                ==> row.acknowledged == 0
        }),
{
    assert(shows_voice(p.voices@[k], x.voices@[k]));
    lemma_all_or_none(x.voices@[k].players@);
}

proof fn lemma_all_or_none(players: Seq<Player>)
    ensures
        (forall|n: int| 0 <= n < players.len() ==> (#[trigger] players[n]).acknowledged_at is Some)
            ==> acknowledged_count(players) == players.len(),
        (forall|n: int| 0 <= n < players.len() ==> (#[trigger] players[n]).acknowledged_at is None)
            ==> acknowledged_count(players) == 0,
    decreases players.len(),
{
    if players.len() > 0 {
        let init = players.drop_last();
        assert forall|n: int| 0 <= n < init.len() implies init[n] == #[trigger] players[n] by {}
        lemma_all_or_none(init);
        assert(players.last() == players[players.len() - 1]);
        if forall|n: int| 0 <= n < players.len()
            ==> (#[trigger] players[n]).acknowledged_at is Some {
            assert forall|n: int| 0 <= n < init.len() implies (
            #[trigger] init[n]).acknowledged_at is Some by {
                assert(init[n] == players[n]);
            }
        }
        if forall|n: int| 0 <= n < players.len()
            ==> (#[trigger] players[n]).acknowledged_at is None {
            assert forall|n: int| 0 <= n < init.len() implies (
            #[trigger] init[n]).acknowledged_at is None by {
                assert(init[n] == players[n]);
            }
        }
    }
}

/// What is said of a conflict names the player and, with `and` between them,
/// the voices.
pub proof fn a_conflict_names_the_player_and_the_voices(c: Conflict, a: Seq<char>, b: Seq<char>)
    requires
        texts(c.voice_names@) == seq![a, b],
    ensures
        conflict_text(c) == "⚠ "@ + c.display_name@ + " ("@ + c.username@ + ") is on "@ + (a
            + " and "@ + b) + " — one player cannot cover both at the same time."@,
{
    assert(seq![a, b].drop_last() == seq![a]);
    assert(joined_names(seq![a]) == a);
    assert(seq![a, b].last() == b);
}

/// Who may see the whole programme sees every voice, a principal the voices of
/// their section; a failure is answered as one and never taken for an empty
/// section.
pub proof fn a_failure_is_never_an_empty_section(
    r: Result<Required, Reply>,
    scope: Result<CoverageScope, AppError>,
)
    requires
        enter_outcome(r, scope),
    ensures
        scope matches Ok(CoverageScope::FullProgram) ==> r is Ok && r->Ok_0 is EveryVoice,
        scope matches Ok(CoverageScope::Section(ids))
            ==> (r matches Ok(Required::Instruments(shown))
            && shown@ == ids@),
        scope is Err ==> r is Err,
        scope matches Err(AppError::Forbidden) ==> r->Err_0@.status() == 403,
        scope is Err && !(scope->Err_0 is Forbidden) ==> r->Err_0@.status() == 500,
{
}

/// Coverage is shown of the collections of the organization, and of no others.
pub proof fn coverage_is_shown_of_own_collections(
    r: Result<Collection, Reply>,
    ctx: ConsoleCtx,
    found: Lookup<Collection>,
)
    requires
        open_collection_outcome(r, ctx, found),
    ensures
        r is Ok <==> (found matches Lookup::Found(c) && c.organization_id == ctx.org_of().id),
        r is Ok ==> found == Lookup::Found(r->Ok_0),
        found is Failed ==> r->Err_0@.status() == 500,
        r is Err && !(found is Failed) ==> r->Err_0@.status() == 404,
{
}

/// The dashboard is shown where the collections and the reports could both be
/// had, and no numbers are shown otherwise.
pub proof fn no_numbers_are_better_than_wrong_ones(
    r: Result<Vec<DashboardRow>, Reply>,
    collections: Option<&Vec<Collection>>,
    reports: Option<&Vec<CoverageReport>>,
)
    requires
        dashboard_outcome(r, collections, reports),
    ensures
        r is Ok <==> collections is Some && reports is Some,
        r is Err ==> r->Err_0@.status() == 500,
{
}

/// The coverage of a collection is shown where there is a report on it.
pub proof fn coverage_is_shown_where_there_is_a_report(
    r: Result<CoveragePage, Reply>,
    ctx: ConsoleCtx,
    c: Collection,
    required: Required,
    report: Option<&CoverageReport>,
)
    requires
        collection_coverage_outcome(r, ctx, c, required, report),
    ensures
        r is Ok <==> report is Some,
        r is Err ==> r->Err_0@.status() == 500,
        r is Ok ==> r->Ok_0.back@ == list_url(ctx.org_of().id, "/coverage"@),
        r is Ok ==> forall|i: int, k: int|
            0 <= i < report->0.items@.len() && 0 <= k < report->0.items@[i].conflicts@.len() ==> (
            #[trigger] r->Ok_0.pieces@[i].conflicts@[k])@ == conflict_text(
                report->0.items@[i].conflicts@[k],
            ),
        r is Ok ==> forall|i: int, k: int|
            0 <= i < report->0.items@.len() && 0 <= k < report->0.items@[i].voices@.len() ==> (
            #[trigger] r->Ok_0.pieces@[i].voices@[k]).voice_name@
                == report->0.items@[i].voices@[k].voice_name@
                    && r->Ok_0.pieces@[i].voices@[k].acknowledged
                == acknowledged_count(report->0.items@[i].voices@[k].players@),
{
    if report is Some {
        assert forall|i: int| 0 <= i < report->0.items@.len() implies shows_item(
            #[trigger] r->Ok_0.pieces@[i],
            report->0.items@[i],
            ctx.access_of().builds_collections(),
            required is Instruments,
            ctx.org_of().id,
            c.id,
        ) by {}
    }
}

} // verus!
