//! How the console answers a request.

use vstd::prelude::*;
use crate::audit::{AuditEntry, EntryView, FactView};
use crate::console::Section;
use crate::id::Uuid;
use crate::model::Lookup;

verus! {

/// What the console sends back in place of the page that was asked for.
#[derive(Debug)]
pub enum Reply {
    /// Go to another page.
    Redirect { to: String },
    /// A page outside any console.
    Denied { status: u16, heading: String, message: String },
    /// The caller may not see this section.
    SectionForbidden,
    /// An error within a section.
    Error { section: Section, status: u16, message: String },
    /// The row changed since the form was opened; nothing was saved. The page
    /// names the thing and links back to it.
    Stale { section: Section, entity: String, back: String },
}

/// A [`Reply`] as a mathematical value.
#[verifier::ext_equal]
pub enum ReplyView {
    Redirect { to: Seq<char> },
    Denied { status: u16, heading: Seq<char>, message: Seq<char> },
    SectionForbidden,
    Error { section: Section, status: u16, message: Seq<char> },
    Stale { section: Section, entity: Seq<char>, back: Seq<char> },
}

impl View for Reply {
    type V = ReplyView;

    open spec fn view(&self) -> ReplyView {
        match *self {
            Reply::Redirect { to } => ReplyView::Redirect { to: to@ },
            Reply::Denied { status, heading, message } => ReplyView::Denied {
                status,
                heading: heading@,
                message: message@,
            },
            Reply::SectionForbidden => ReplyView::SectionForbidden,
            Reply::Error { section, status, message } => ReplyView::Error {
                section,
                status,
                message: message@,
            },
            Reply::Stale { section, entity, back } => ReplyView::Stale {
                section,
                entity: entity@,
                back: back@,
            },
        }
    }
}

impl ReplyView {
    /// The HTTP status of the reply.
    pub open spec fn status(self) -> u16 {
        match self {
            ReplyView::Redirect { .. } => 303,
            ReplyView::Denied { status, .. } => status,
            ReplyView::SectionForbidden => 403,
            ReplyView::Error { status, .. } => status,
            ReplyView::Stale { .. } => 412,
        }
    }
}

/// An error page within a section.
pub open spec fn error_at(section: Section, status: u16, message: Seq<char>) -> ReplyView {
    ReplyView::Error { section, status, message }
}

/// A redirection.
pub open spec fn goes_to(to: Seq<char>) -> ReplyView {
    ReplyView::Redirect { to }
}

/// Whether `r` is the reply `v` in place of a result.
pub open spec fn refused<T>(r: Result<T, Reply>, v: ReplyView) -> bool {
    r is Err && r->Err_0@ == v
}

impl Reply {
    /// The HTTP status of the reply.
    pub fn status(&self) -> (r: u16)
        ensures
            r == self@.status(),
    {
        match self {
            Reply::Redirect { .. } => 303,
            Reply::Denied { status, .. } => *status,
            Reply::SectionForbidden => 403,
            Reply::Error { status, .. } => *status,
            Reply::Stale { .. } => 412,
        }
    }

    /// An error page within a section.
    pub fn error_page(section: Section, status: u16, message: &str) -> (r: Reply)
        ensures
            r@ == error_at(section, status, message@),
    {
        Reply::Error { section, status, message: message.to_owned() }
    }

    /// The page for an edit that came too late.
    pub fn precondition_page(section: Section, entity: &str, back: String) -> (r: Reply)
        ensures
            r@ == (ReplyView::Stale { section, entity: entity@, back: back@ }),
    {
        Reply::Stale { section, entity: entity.to_owned(), back }
    }
}

/// How a write ended: what is recorded of it, and the reply.
pub struct Done {
    pub audit: Option<AuditEntry>,
    pub reply: Reply,
}

impl Done {
    /// The write took place: it was recorded as `e` and answered by `v`.
    pub open spec fn recorded(self, e: EntryView, v: ReplyView) -> bool {
        self.audit is Some && self.audit->0@ =~= e && self.reply@ == v
    }

    /// Nothing was written, nothing was recorded, and the answer was `v`.
    pub open spec fn unrecorded(self, v: ReplyView) -> bool {
        self.audit is None && self.reply@ == v
    }

    /// Whether the write is on record as one of `actor`.
    pub open spec fn names(
        self,
        actor: Uuid,
        org: Uuid,
        request: Uuid,
        action: Seq<char>,
        row: Uuid,
    ) -> bool {
        self.audit is Some && self.audit->0.names(actor, Some(org), request, action, row)
    }

    /// Whether the record of the write says `fact` under `key`.
    pub open spec fn tells(self, key: Seq<char>, fact: FactView) -> bool {
        self.audit is Some && self.audit->0.tells(key, fact)
    }

    /// Whether the answer is the way to `to`.
    pub open spec fn moves_on_to(self, to: Seq<char>) -> bool {
        self.reply matches Reply::Redirect { to: t } && t@ == to
    }

    /// Whether nothing was recorded and the answer is an error.
    pub open spec fn fell_through(self) -> bool {
        self.audit is None && self.reply@.status() >= 400
    }

    /// A write that is recorded and answered by a redirection.
    pub fn saved(entry: AuditEntry, to: String) -> (r: Done)
        ensures
            r.recorded(entry@, goes_to(to@)),
    {
        Done { audit: Some(entry), reply: Reply::Redirect { to } }
    }

    /// A write that did not take place.
    pub fn refused(reply: Reply) -> (r: Done)
        ensures
            r.unrecorded(reply@),
    {
        Done { audit: None, reply }
    }
}

/// Whether `r` is what comes of opening a row: the row itself, where the caller
/// is allowed to and it was found.
pub open spec fn row_opened<T>(
    r: Result<T, Reply>,
    allowed: bool,
    found: Lookup<T>,
    section: Section,
    missing: Seq<char>,
    failed: Seq<char>,
) -> bool {
    if !allowed {
        refused(r, ReplyView::SectionForbidden)
    } else {
        match found {
            Lookup::Found(row) => r == Ok::<T, Reply>(row),
            Lookup::Missing => refused(r, error_at(section, 404, missing)),
            Lookup::Failed => refused(r, error_at(section, 500, failed)),
        }
    }
}

/// Opens a row for a caller, or answers them.
pub fn open_row<T>(
    allowed: bool,
    found: Lookup<T>,
    section: Section,
    missing: &str,
    failed: &str,
) -> (r: Result<T, Reply>)
    ensures
        row_opened(r, allowed, found, section, missing@, failed@),
{
    if !allowed {
        return Err(Reply::SectionForbidden);
    }
    match found {
        Lookup::Found(row) => Ok(row),
        Lookup::Missing => Err(Reply::error_page(section, 404, missing)),
        Lookup::Failed => Err(Reply::error_page(section, 500, failed)),
    }
}

/// Whether `r` is the row that was looked up, or the answer where there is
/// none.
pub open spec fn row_found<T>(
    r: Result<T, Reply>,
    found: Lookup<T>,
    section: Section,
    missing: Seq<char>,
) -> bool {
    match found {
        Lookup::Found(row) => r == Ok::<T, Reply>(row),
        Lookup::Missing => refused(r, error_at(section, 404, missing)),
        Lookup::Failed => refused(
            r,
            error_at(section, 500, "Something went wrong. Please retry."@),
        ),
    }
}

/// The row that was looked up. A missing row and a failed lookup are answered
/// differently: the second does not say that the row is gone.
pub fn require_found<T>(found: Lookup<T>, section: Section, missing: &str) -> (r: Result<T, Reply>)
    ensures
        row_found(r, found, section, missing@),
{
    match found {
        Lookup::Found(row) => Ok(row),
        Lookup::Missing => Err(Reply::error_page(section, 404, missing)),
        Lookup::Failed => Err(
            Reply::error_page(section, 500, "Something went wrong. Please retry."),
        ),
    }
}

/// Ends a write that can only succeed or fail.
pub fn settle(ok: bool, entry: AuditEntry, to: String, section: Section, failed: &str) -> (r: Done)
    ensures
        ok ==> r.recorded(entry@, goes_to(to@)),
        !ok ==> r.unrecorded(error_at(section, 500, failed@)),
{
    if ok {
        Done::saved(entry, to)
    } else {
        Done::refused(Reply::error_page(section, 500, failed))
    }
}

/// A redirection tells the browser to fetch the next page; who may not see a
/// section is forbidden to, and a form that came too late has failed its
/// precondition.
pub proof fn replies_have_their_status(
    section: Section,
    status: u16,
    message: Seq<char>,
    to: Seq<char>,
)
    ensures
        goes_to(to).status() == 303,
        error_at(section, status, message).status() == status,
        ReplyView::SectionForbidden.status() == 403,
        (ReplyView::Stale { section, entity: message, back: to }).status() == 412,
        (ReplyView::Denied { status, heading: message, message }).status() == status,
{
}

} // verus!
