//! The console's URLs.

use vstd::prelude::*;
use crate::console::{org_path, org_url};
use crate::id::{uuid_text, Uuid};

verus! {

/// A URL below an organization: a collection of rows.
pub open spec fn list_url(org: Uuid, segment: Seq<char>) -> Seq<char> {
    org_url(org) + segment
}

/// A URL below an organization: one row.
pub open spec fn row_url(org: Uuid, segment: Seq<char>, id: Uuid) -> Seq<char> {
    org_url(org) + segment + "/"@ + uuid_text(id)
}

pub fn list_path(org: Uuid, segment: &str) -> (r: String)
    ensures
        r@ == list_url(org, segment@),
{
    org_path(org).concat(segment)
}

pub fn row_path(org: Uuid, segment: &str, id: Uuid) -> (r: String)
    ensures
        r@ == row_url(org, segment@, id),
{
    let mut out: String = org_path(org);
    out.append(segment);
    out.append("/");
    out.append(id.text().as_str());
    out
}

/// A form action on one row below `base`.
pub open spec fn action_url(base: Seq<char>, id: Uuid, segment: Seq<char>) -> Seq<char> {
    base + "/"@ + uuid_text(id) + segment
}

/// A form action on one row below `base`.
pub fn action_path(base: &String, id: Uuid, segment: &str) -> (r: String)
    ensures
        r@ == action_url(base@, id, segment@),
{
    let mut out: String = base.clone();
    out.append("/");
    out.append(id.text().as_str());
    out.append(segment);
    out
}

/// The page of an arrangement.
pub open spec fn arrangement_url(org: Uuid, arr: Uuid) -> Seq<char> {
    row_url(org, "/arrangements"@, arr)
}

/// The voices of an arrangement.
pub open spec fn voices_url(org: Uuid, arr: Uuid) -> Seq<char> {
    arrangement_url(org, arr) + "/voices"@
}

/// The page of a voice.
pub open spec fn voice_url(org: Uuid, arr: Uuid, voice: Uuid) -> Seq<char> {
    voices_url(org, arr) + "/"@ + uuid_text(voice)
}

pub fn arrangement_path(org: Uuid, arr: Uuid) -> (r: String)
    ensures
        r@ == arrangement_url(org, arr),
{
    row_path(org, "/arrangements", arr)
}

pub fn voices_path(org: Uuid, arr: Uuid) -> (r: String)
    ensures
        r@ == voices_url(org, arr),
{
    arrangement_path(org, arr).concat("/voices")
}

pub fn voice_path(org: Uuid, arr: Uuid, voice: Uuid) -> (r: String)
    ensures
        r@ == voice_url(org, arr, voice),
{
    let mut out: String = voices_path(org, arr);
    out.append("/");
    out.append(voice.text().as_str());
    out
}

/// The console's URLs name the organization and then, from the outside in, the
/// rows that they lead to.
pub proof fn urls_name_what_they_lead_to(org: Uuid, arr: Uuid, voice: Uuid, segment: Seq<char>)
    ensures
        list_url(org, segment) == "/admin/orgs/"@ + uuid_text(org) + segment,
        row_url(org, segment, arr) == "/admin/orgs/"@ + uuid_text(org) + segment + "/"@ + uuid_text(
            arr,
        ),
        action_url(segment, arr, "/delete"@) == segment + "/"@ + uuid_text(arr) + "/delete"@,
        arrangement_url(org, arr) == "/admin/orgs/"@ + uuid_text(org) + "/arrangements"@ + "/"@
            + uuid_text(arr),
        voices_url(org, arr) == "/admin/orgs/"@ + uuid_text(org) + "/arrangements"@ + "/"@
            + uuid_text(arr) + "/voices"@,
        voice_url(org, arr, voice) == "/admin/orgs/"@ + uuid_text(org) + "/arrangements"@ + "/"@
            + uuid_text(arr) + "/voices"@ + "/"@ + uuid_text(voice),
{
}

} // verus!
