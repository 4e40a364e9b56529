//! The record that is kept of every write: who did what to which row, in which
//! organization and under which request.

use vstd::prelude::*;
use crate::id::Uuid;
use crate::lists::copy_ids;
use crate::model::Time;

verus! {

/// A value in an audit record.
pub enum Fact {
    Text(String),
    Id(Uuid),
    Ids(Vec<Uuid>),
    Number(i64),
    Flag(bool),
    /// A point in time, in milliseconds since 1970.
    Time(Time),
    Nothing,
}

/// A [`Fact`] as a mathematical value.
#[verifier::ext_equal]
pub enum FactView {
    Text(Seq<char>),
    Id(Uuid),
    Ids(Seq<Uuid>),
    Number(int),
    Flag(bool),
    Time(Time),
    Nothing,
}

impl View for Fact {
    type V = FactView;

    open spec fn view(&self) -> FactView {
        match *self {
            Fact::Text(t) => FactView::Text(t@),
            Fact::Id(id) => FactView::Id(id),
            Fact::Ids(ids) => FactView::Ids(ids@),
            Fact::Number(n) => FactView::Number(n as int),
            Fact::Flag(b) => FactView::Flag(b),
            Fact::Time(t) => FactView::Time(t),
            Fact::Nothing => FactView::Nothing,
        }
    }
}

/// A named value in an audit record. `group` names the object that it stands
/// in, where it does not stand at the top.
pub struct Detail {
    pub group: Option<&'static str>,
    pub key: String,
    pub value: Fact,
}

/// A [`Detail`] as a mathematical value.
#[verifier::ext_equal]
pub struct DetailView {
    pub group: Option<Seq<char>>,
    pub key: Seq<char>,
    pub value: FactView,
}

impl View for Detail {
    type V = DetailView;

    open spec fn view(&self) -> DetailView {
        DetailView {
            group: match self.group {
                Some(g) => Some(g@),
                None => None,
            },
            key: self.key@,
            value: self.value@,
        }
    }
}

/// Who is acting, where, and under which request.
#[derive(Clone, Copy, Debug, PartialEq, Eq, Structural)]
pub struct AuditContext {
    pub actor_user_id: Option<Uuid>,
    pub org_id: Option<Uuid>,
    pub request_id: Option<Uuid>,
}

/// One entry of the audit log.
pub struct AuditEntry {
    pub context: AuditContext,
    pub action: String,
    pub entity: String,
    pub entity_id: Option<Uuid>,
    pub details: Vec<Detail>,
}

/// An [`AuditEntry`] as a mathematical value.
#[verifier::ext_equal]
pub struct EntryView {
    pub context: AuditContext,
    pub action: Seq<char>,
    pub entity: Seq<char>,
    pub entity_id: Option<Uuid>,
    pub details: Seq<DetailView>,
}

impl View for AuditEntry {
    type V = EntryView;

    open spec fn view(&self) -> EntryView {
        EntryView {
            context: self.context,
            action: self.action@,
            entity: self.entity@,
            entity_id: self.entity_id,
            details: self.details@.map_values(|d: Detail| d@),
        }
    }
}

/// A detail that stands at the top of its record.
pub open spec fn detail(key: Seq<char>, value: FactView) -> DetailView {
    DetailView { group: None, key, value }
}

/// A detail that stands in the object `group`.
pub open spec fn within(group: Seq<char>, key: Seq<char>, value: FactView) -> DetailView {
    DetailView { group: Some(group), key, value }
}

/// An optional text as a value.
pub open spec fn text_fact(t: Option<Seq<char>>) -> FactView {
    match t {
        Some(t) => FactView::Text(t),
        None => FactView::Nothing,
    }
}

/// An optional point in time as a value.
pub open spec fn time_fact(t: Option<Time>) -> FactView {
    match t {
        Some(t) => FactView::Time(t),
        None => FactView::Nothing,
    }
}

/// An entry with the given details.
pub open spec fn entry(
    context: AuditContext,
    action: Seq<char>,
    entity: Seq<char>,
    entity_id: Uuid,
    details: Seq<DetailView>,
) -> EntryView {
    EntryView { context, action, entity, entity_id: Some(entity_id), details }
}

impl AuditEntry {
    /// Whether the entry says who acted: in which organization, under which
    /// request, by which action and on which row.
    pub open spec fn names(
        self,
        actor: Uuid,
        org: Option<Uuid>,
        request: Uuid,
        action: Seq<char>,
        row: Uuid,
    ) -> bool {
        &&& self.context.actor_user_id == Some(actor)
        &&& self.context.org_id == org
        &&& self.context.request_id == Some(request)
        &&& self.action@ == action
        &&& self.entity_id == Some(row)
    }

    /// Whether the entry says `fact` under `key`.
    pub open spec fn tells(self, key: Seq<char>, fact: FactView) -> bool {
        self@.details.contains(DetailView { group: None, key, value: fact })
    }

    /// An entry without details.
    pub fn new(context: AuditContext, action: &str, entity: &str, entity_id: Uuid) -> (r: AuditEntry)
        ensures
            r@ == entry(context, action@, entity@, entity_id, seq![]),
    {
        let r: AuditEntry = AuditEntry {
            context,
            action: action.to_owned(),
            entity: entity.to_owned(),
            entity_id: Some(entity_id),
            details: Vec::new(),
        };
        assert(r@.details == Seq::<DetailView>::empty());
        r
    }

    /// An entry without details about a row that may not be known.
    pub fn new_about(
        context: AuditContext,
        action: &str,
        entity: &str,
        entity_id: Option<Uuid>,
    ) -> (r: AuditEntry)
        ensures
            r@ == (EntryView {
                context,
                action: action@,
                entity: entity@,
                entity_id,
                details: seq![],
            }),
    {
        let r: AuditEntry = AuditEntry {
            context,
            action: action.to_owned(),
            entity: entity.to_owned(),
            entity_id,
            details: Vec::new(),
        };
        assert(r@.details == Seq::<DetailView>::empty());
        r
    }

    /// The entry with one more detail.
    pub fn with(self, key: &str, value: Fact) -> (r: AuditEntry)
        ensures
            r@ == (EntryView { details: self@.details.push(detail(key@, value@)), ..self@ }),
    {
        let ghost was = self@;
        let mut r: AuditEntry = self;
        r.details.push(Detail { group: None, key: key.to_owned(), value });
        assert(r@.details == was.details.push(detail(key@, value@)));
        r
    }

    /// The entry with one more detail in the object `group`.
    pub fn with_in(self, group: &'static str, key: &str, value: Fact) -> (r: AuditEntry)
        ensures
            r@ == (EntryView {
                details: self@.details.push(within(group@, key@, value@)),
                ..self@
            }),
    {
        let ghost was = self@;
        let mut r: AuditEntry = self;
        r.details.push(Detail { group: Some(group), key: key.to_owned(), value });
        assert(r@.details == was.details.push(within(group@, key@, value@)));
        r
    }
}

/// The text as a value.
pub fn text(t: &str) -> (r: Fact)
    ensures
        r@ == FactView::Text(t@),
{
    Fact::Text(t.to_owned())
}

/// The text as a value, if there is one.
pub fn opt_text(t: &Option<String>) -> (r: Fact)
    ensures
        r@ == text_fact(crate::text::text_of(*t)),
{
    match t {
        Some(t) => Fact::Text(t.clone()),
        None => Fact::Nothing,
    }
}

/// The point in time as a value, if there is one.
pub fn opt_time(t: Option<Time>) -> (r: Fact)
    ensures
        r@ == time_fact(t),
{
    match t {
        Some(t) => Fact::Time(t),
        None => Fact::Nothing,
    }
}

/// The identifiers as a value.
pub fn ids(v: &Vec<Uuid>) -> (r: Fact)
    ensures
        r@ == FactView::Ids(v@),
{
    Fact::Ids(copy_ids(v))
}

} // verus!
