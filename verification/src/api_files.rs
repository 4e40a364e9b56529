//! The JSON interface to files.

use vstd::prelude::*;
use crate::api::{
    authorize, denied, each_role_may_do_its_part, finish_removal, gives_untagged, is_for,
    is_member, keeps_archive, looked_up, looked_up_at, plain_response, removal, require, Answer,
    Caller, Need, Standing,
};
use crate::arrangements::{in_org, scoped_arrangement};
use crate::audit::{detail, entry, text, AuditEntry, Fact, FactView};
use crate::error::{fails, invalid, AppError, ErrorView};
use crate::files::{
    file_of, scoped_file, upload_error_to_app_error, upload_error_view, Stored, UploadError,
};
use crate::id::Uuid;
use crate::listing::{check_if_match, etag, etag_for, str_of};
use crate::model::{Arrangement, File, Lookup, Voice};
use crate::number::int_text;
use crate::text::text_of;

verus! {

/// The voice, unless it belongs to another arrangement.
pub open spec fn voice_of(found: Lookup<Voice>, arr: Uuid) -> Lookup<Voice> {
    match found {
        Lookup::Found(v) => if v.arrangement_id == arr {
            found
        } else {
            Lookup::Missing
        },
        _ => found,
    }
}

/// The error that an arrangement, and for parts a voice of it, amount to as the
/// place of a file.
pub open spec fn scope_error(
    org: Uuid,
    arr: Uuid,
    voice_id: Option<Uuid>,
    arrangement: Lookup<Arrangement>,
    voice: Lookup<Voice>,
) -> Option<ErrorView> {
    match in_org(arrangement, org) {
        Lookup::Missing => Some(ErrorView::NotFound),
        Lookup::Failed => Some(ErrorView::Database),
        Lookup::Found(_) => if voice_id is None {
            None
        } else {
            match voice_of(voice, arr) {
                Lookup::Missing => Some(ErrorView::NotFound),
                Lookup::Failed => Some(ErrorView::Database),
                Lookup::Found(_) => None,
            }
        },
    }
}

/// Whether `r` is what [`scope_target`] owes its caller.
pub open spec fn scope_target_outcome(
    r: Result<(), AppError>,
    org: Uuid,
    arr: Uuid,
    voice_id: Option<Uuid>,
    arrangement: Lookup<Arrangement>,
    voice: Lookup<Voice>,
) -> bool {
    match scope_error(org, arr, voice_id, arrangement, voice) {
        Some(e) => fails(r, e),
        None => r is Ok,
    }
}

/// Lets files be listed under, or added to, an arrangement of the organization
/// or a voice of it.
pub fn scope_target(
    org: Uuid,
    arr: Uuid,
    voice_id: Option<Uuid>,
    arrangement: Lookup<Arrangement>,
    voice: Lookup<Voice>,
) -> (r: Result<(), AppError>)
    ensures
        scope_target_outcome(r, org, arr, voice_id, arrangement, voice),
{
    match require(scoped_arrangement(arrangement, org)) {
        Ok(_) => {},
        Err(e) => return Err(e),
    }
    if voice_id.is_none() {
        return Ok(());
    }
    match voice {
        Lookup::Found(v) => {
            if v.arrangement_id == arr {
                Ok(())
            } else {
                Err(AppError::NotFound)
            }
        },
        Lookup::Missing => Err(AppError::NotFound),
        Lookup::Failed => Err(AppError::Database),
    }
}

/// Whether `r` is what [`plan_list_files`] owes its caller.
pub open spec fn plan_list_files_outcome(
    r: Result<(), AppError>,
    standing: Standing,
    org: Uuid,
    arr: Uuid,
    voice_id: Option<Uuid>,
    arrangement: Lookup<Arrangement>,
    voice: Lookup<Voice>,
) -> bool {
    &&& denied(standing, Need::Read) matches Some(e) ==> fails(r, e)
    &&& denied(standing, Need::Read) is None ==> match scope_error(
        org,
        arr,
        voice_id,
        arrangement,
        voice,
    ) {
        Some(e) => fails(r, e),
        None => r is Ok,
    }
}

/// Lets files of an arrangement, or of a voice of it, be listed.
pub fn plan_list_files(
    standing: &Standing,
    org: Uuid,
    arr: Uuid,
    voice_id: Option<Uuid>,
    arrangement: Lookup<Arrangement>,
    voice: Lookup<Voice>,
) -> (r: Result<(), AppError>)
    ensures
        plan_list_files_outcome(r, *standing, org, arr, voice_id, arrangement, voice),
{
    match authorize(standing, Need::Read) {
        Ok(()) => {},
        Err(e) => return Err(e),
    }
    scope_target(org, arr, voice_id, arrangement, voice)
}

/// Whether `r` is what [`plan_upload`] owes its caller.
pub open spec fn plan_upload_outcome(
    r: Result<(), AppError>,
    standing: Standing,
    org: Uuid,
    arr: Uuid,
    voice_id: Option<Uuid>,
    arrangement: Lookup<Arrangement>,
    voice: Lookup<Voice>,
) -> bool {
    &&& denied(standing, Need::EditArchive) matches Some(e) ==> fails(r, e)
    &&& denied(standing, Need::EditArchive) is None ==> match scope_error(
        org,
        arr,
        voice_id,
        arrangement,
        voice,
    ) {
        Some(e) => fails(r, e),
        None => r is Ok,
    }
}

/// Lets a file be added to an arrangement, or to a voice of it.
pub fn plan_upload(
    standing: &Standing,
    org: Uuid,
    arr: Uuid,
    voice_id: Option<Uuid>,
    arrangement: Lookup<Arrangement>,
    voice: Lookup<Voice>,
) -> (r: Result<(), AppError>)
    ensures
        plan_upload_outcome(r, *standing, org, arr, voice_id, arrangement, voice),
{
    match authorize(standing, Need::EditArchive) {
        Ok(()) => {},
        Err(e) => return Err(e),
    }
    scope_target(org, arr, voice_id, arrangement, voice)
}

/// The error for a body that could not be read.
pub fn malformed_body() -> (r: AppError)
    ensures
        r@ == invalid("file"@, "malformed multipart body"@),
{
    AppError::invalid("file", "malformed multipart body")
}

/// The error for a body without a file in it.
pub fn no_file_part() -> (r: AppError)
    ensures
        r@ == invalid("file"@, "no file part in the multipart body"@),
{
    AppError::invalid("file", "no file part in the multipart body")
}

/// Whether `r` is what [`uploaded`] owes its caller.
pub open spec fn uploaded_outcome(
    r: Result<Answer<File>, AppError>,
    caller: Caller,
    org: Uuid,
    request_id: Uuid,
    result: Result<Stored, UploadError>,
) -> bool {
    match result {
        Err(e) => fails(r, upload_error_view(e)),
        Ok(s) => gives_untagged(
            r,
            201,
                entry(
                    caller.audit_context(Some(org), request_id),
                    "file.create"@,
                    "file"@,
                    s.file.id,
                    seq![
                        detail("name"@, FactView::Text(s.file.name@)),
                        detail("format"@, FactView::Text(s.file.format@)),
                        detail("key"@, FactView::Text(s.key@)),
                        detail("bytes"@, FactView::Number(s.bytes as int)),
                    ],
                ),
            s.file,
        ),
    }
}

/// How an upload ended.
pub fn uploaded(
    caller: &Caller,
    org: Uuid,
    request_id: Uuid,
    result: Result<Stored, UploadError>,
) -> (r: Result<Answer<File>, AppError>)
    ensures
        uploaded_outcome(r, *caller, org, request_id, result),
{
    match result {
        Err(e) => Err(upload_error_to_app_error(e)),
        Ok(s) => {
            let e: AuditEntry = AuditEntry::new(
                caller.audit_ctx(Some(org), request_id),
                "file.create",
                "file",
                s.file.id,
            ).with("name", text(s.file.name.as_str())).with(
                "format",
                text(s.file.format.as_str()),
            ).with("key", text(s.key.as_str())).with("bytes", Fact::Number(s.bytes));
            plain_response(201, e, s.file)
        },
    }
}

/// Whether `r` is what [`open_file`] owes its caller.
pub open spec fn open_file_outcome(
    r: Result<File, AppError>,
    org: Uuid,
    arr: Uuid,
    voice_id: Option<Uuid>,
    arrangement: Lookup<Arrangement>,
    found: Lookup<File>,
) -> bool {
    match in_org(arrangement, org) {
        Lookup::Missing => fails(r, ErrorView::NotFound),
        Lookup::Failed => fails(r, ErrorView::Database),
        Lookup::Found(_) => match file_of(found, arr, voice_id) {
            Lookup::Found(f) => r == Ok::<File, AppError>(f),
            Lookup::Missing => fails(r, ErrorView::NotFound),
            Lookup::Failed => fails(r, ErrorView::Database),
        },
    }
}

/// Opens a file of an arrangement of the organization.
pub fn open_file(
    org: Uuid,
    arr: Uuid,
    voice_id: Option<Uuid>,
    arrangement: Lookup<Arrangement>,
    found: Lookup<File>,
) -> (r: Result<File, AppError>)
    ensures
        open_file_outcome(r, org, arr, voice_id, arrangement, found),
{
    match require(scoped_arrangement(arrangement, org)) {
        Ok(_) => require(scoped_file(found, arr, voice_id)),
        Err(e) => Err(e),
    }
}

/// The file, unless it or its arrangement belongs elsewhere.
pub open spec fn file_in_org(
    org: Uuid,
    arr: Uuid,
    voice_id: Option<Uuid>,
    arrangement: Lookup<Arrangement>,
    found: Lookup<File>,
) -> Lookup<File> {
    match in_org(arrangement, org) {
        Lookup::Missing => Lookup::Missing,
        Lookup::Failed => Lookup::Failed,
        Lookup::Found(_) => file_of(found, arr, voice_id),
    }
}

/// Whether `r` is what [`plan_download`] owes its caller.
pub open spec fn plan_download_outcome(
    r: Result<File, AppError>,
    standing: Standing,
    org: Uuid,
    arr: Uuid,
    voice_id: Option<Uuid>,
    arrangement: Lookup<Arrangement>,
    found: Lookup<File>,
) -> bool {
    &&& denied(standing, Need::Read) matches Some(e) ==> fails(r, e)
    &&& denied(standing, Need::Read) is None ==> looked_up(
        r,
        file_in_org(org, arr, voice_id, arrangement, found),
    )
}

/// Opens a file to download it.
pub fn plan_download(
    standing: &Standing,
    org: Uuid,
    arr: Uuid,
    voice_id: Option<Uuid>,
    arrangement: Lookup<Arrangement>,
    found: Lookup<File>,
) -> (r: Result<File, AppError>)
    ensures
        plan_download_outcome(r, *standing, org, arr, voice_id, arrangement, found),
{
    match authorize(standing, Need::Read) {
        Ok(()) => {},
        Err(e) => return Err(e),
    }
    open_file(org, arr, voice_id, arrangement, found)
}

/// Whether `r` is what [`locate`] owes its caller.
pub open spec fn locate_outcome(
    r: Result<String, AppError>,
    path: Lookup<()>,
    key: Option<String>,
) -> bool {
    match path {
        Lookup::Missing => fails(r, ErrorView::NotFound),
        Lookup::Failed => fails(r, ErrorView::Database),
        Lookup::Found(_) => match key {
            Some(k) => r == Ok::<String, AppError>(k),
            None => fails(r, ErrorView::Internal("stored file has unknown mime"@)),
        },
    }
}

/// Where a file lies in the store: `path` says whether the way to it could be
/// worked out, `key` is `None` where its stored type is unknown.
pub fn locate(path: Lookup<()>, key: Option<String>) -> (r: Result<String, AppError>)
    ensures
        locate_outcome(r, path, key),
{
    match path {
        Lookup::Missing => Err(AppError::NotFound),
        Lookup::Failed => Err(AppError::Database),
        Lookup::Found(_) => match key {
            Some(k) => Ok(k),
            None => Err(AppError::Internal("stored file has unknown mime".to_owned())),
        },
    }
}

/// The version of a file.
pub open spec fn file_version() -> spec_fn(File) -> i64 {
    |f: File| f.updated_at.millis
}

/// Whether `r` is what [`plan_file_write`] owes its caller.
pub open spec fn plan_file_write_outcome(
    r: Result<File, AppError>,
    standing: Standing,
    org: Uuid,
    arr: Uuid,
    voice_id: Option<Uuid>,
    arrangement: Lookup<Arrangement>,
    found: Lookup<File>,
    if_match: Option<&str>,
) -> bool {
    &&& denied(standing, Need::EditArchive) matches Some(e) ==> fails(r, e)
    &&& denied(standing, Need::EditArchive) is None ==> looked_up_at(
        r,
        file_in_org(org, arr, voice_id, arrangement, found),
        str_of(if_match),
        file_version(),
    )
}

/// Opens a file to replace or delete it, at the version that the write was made
/// for.
pub fn plan_file_write(
    standing: &Standing,
    org: Uuid,
    arr: Uuid,
    voice_id: Option<Uuid>,
    arrangement: Lookup<Arrangement>,
    found: Lookup<File>,
    if_match: Option<&str>,
) -> (r: Result<File, AppError>)
    ensures
        plan_file_write_outcome(r, *standing, org, arr, voice_id, arrangement, found, if_match),
{
    match authorize(standing, Need::EditArchive) {
        Ok(()) => {},
        Err(e) => return Err(e),
    }
    let f: File = match open_file(org, arr, voice_id, arrangement, found) {
        Ok(f) => f,
        Err(e) => return Err(e),
    };
    match check_if_match(if_match, f.updated_at.millis) {
        Ok(()) => Ok(f),
        Err(e) => Err(e),
    }
}

/// Whether `r` is what [`replaced`] owes its caller.
pub open spec fn replaced_outcome(
    r: Result<Answer<File>, AppError>,
    caller: Caller,
    org: Uuid,
    request_id: Uuid,
    current: File,
    result: Result<Stored, UploadError>,
) -> bool {
    match result {
        Err(e) => fails(r, upload_error_view(e)),
        Ok(s) => gives_untagged(
            r,
            200,
                entry(
                    caller.audit_context(Some(org), request_id),
                    "file.replace"@,
                    "file"@,
                    s.file.id,
                    seq![
                        detail("replaced"@, FactView::Id(current.id)),
                        detail("name"@, FactView::Text(current.name@)),
                        detail("key"@, FactView::Text(s.key@)),
                        detail("bytes"@, FactView::Number(s.bytes as int)),
                    ],
                ),
            s.file,
        ),
    }
}

/// How replacing the file `current` ended.
pub fn replaced(
    caller: &Caller,
    org: Uuid,
    request_id: Uuid,
    current: &File,
    result: Result<Stored, UploadError>,
) -> (r: Result<Answer<File>, AppError>)
    ensures
        replaced_outcome(r, *caller, org, request_id, *current, result),
{
    match result {
        Err(e) => Err(upload_error_to_app_error(e)),
        Ok(s) => {
            let e: AuditEntry = AuditEntry::new(
                caller.audit_ctx(Some(org), request_id),
                "file.replace",
                "file",
                s.file.id,
            ).with("replaced", Fact::Id(current.id)).with(
                "name",
                text(current.name.as_str()),
            ).with("key", text(s.key.as_str())).with("bytes", Fact::Number(s.bytes));
            plain_response(200, e, s.file)
        },
    }
}

/// Whether `r` is what [`file_deleted`] owes its caller.
pub open spec fn file_deleted_outcome(
    r: Result<Answer<()>, AppError>,
    caller: Caller,
    org: Uuid,
    request_id: Uuid,
    current: File,
    result: Option<bool>,
) -> bool {
    removal(
        r,
        result,
        entry(
            caller.audit_context(Some(org), request_id),
            "file.soft_delete"@,
            "file"@,
            current.id,
            seq![
                detail("name"@, FactView::Text(current.name@)),
                detail("format"@, FactView::Text(current.format@)),
            ],
        ),
    )
}

/// How deleting the file `current` ended.
pub fn file_deleted(
    caller: &Caller,
    org: Uuid,
    request_id: Uuid,
    current: &File,
    result: Option<bool>,
) -> (r: Result<Answer<()>, AppError>)
    ensures
        file_deleted_outcome(r, *caller, org, request_id, *current, result),
{
    finish_removal(
        result,
        AuditEntry::new(
            caller.audit_ctx(Some(org), request_id),
            "file.soft_delete",
            "file",
            current.id,
        ).with("name", text(current.name.as_str())).with("format", text(current.format.as_str())),
    )
}

/// The headers of a download. A range that was honoured makes it a partial one.
pub struct Download {
    pub status: u16,
    pub etag: String,
    pub accept_ranges: &'static str,
    pub content_type: String,
    pub content_length: Option<i64>,
    pub content_range: Option<String>,
}

/// Whether `r` is what [`download_headers`] owes its caller.
pub open spec fn download_headers_outcome(
    r: Download,
    f: File,
    content_length: Option<i64>,
    content_range: Option<String>,
) -> bool {
    &&& r.status == (if content_range is Some {
        206u16
    } else {
        200u16
    })
    &&& r.etag@ == etag(f.updated_at.millis)
    &&& r.accept_ranges@ == "bytes"@
    &&& r.content_type == f.mime_type
    &&& r.content_length == content_length
    &&& r.content_range == content_range
}

/// The headers of a download of the file `f`, from what the store said.
pub fn download_headers(f: &File, content_length: Option<i64>, content_range: Option<String>) -> (r:
    Download)
    ensures
        download_headers_outcome(r, *f, content_length, content_range),
{
    Download {
        status: if content_range.is_some() {
            206
        } else {
            200
        },
        etag: etag_for(f.updated_at.millis),
        accept_ranges: "bytes",
        content_type: f.mime_type.clone(),
        content_length,
        content_range,
    }
}

/// Members list the files of the arrangements of their organization, and of the
/// voices of those.
pub proof fn members_list_files(
    r: Result<(), AppError>,
    standing: Standing,
    org: Uuid,
    arr: Uuid,
    voice_id: Option<Uuid>,
    arrangement: Lookup<Arrangement>,
    voice: Lookup<Voice>,
)
    requires
        plan_list_files_outcome(r, standing, org, arr, voice_id, arrangement, voice),
    ensures
        r is Ok <==> is_member(standing) && (arrangement matches Lookup::Found(a)
            && a.organization_id == org) && (
        voice_id is Some ==> (voice matches Lookup::Found(v) && v.arrangement_id == arr)),
{
    each_role_may_do_its_part(standing);
}

/// Who keeps the archive uploads to the arrangements of the organization, and to
/// the voices of those.
pub proof fn files_are_uploaded_where_they_belong(
    r: Result<(), AppError>,
    standing: Standing,
    org: Uuid,
    arr: Uuid,
    voice_id: Option<Uuid>,
    arrangement: Lookup<Arrangement>,
    voice: Lookup<Voice>,
)
    requires
        plan_upload_outcome(r, standing, org, arr, voice_id, arrangement, voice),
    ensures
        r is Ok <==> keeps_archive(standing) && (arrangement matches Lookup::Found(a)
            && a.organization_id == org) && (
        voice_id is Some ==> (voice matches Lookup::Found(v) && v.arrangement_id == arr)),
{
    each_role_may_do_its_part(standing);
}

/// An upload is answered with the file, and is on record with the name, the
/// format, the place and the size of what was stored.
pub proof fn the_interface_records_an_upload(
    r: Result<Answer<File>, AppError>,
    caller: Caller,
    org: Uuid,
    request_id: Uuid,
    result: Result<Stored, UploadError>,
)
    requires
        uploaded_outcome(r, caller, org, request_id, result),
    ensures
        result matches Ok(s) ==> r is Ok && {
            &&& r->Ok_0.status == 201
            &&& r->Ok_0.names(
                caller.user_id,
                Some(org),
                request_id,
                "file.create"@,
                s.file.id,
            )
            &&& r->Ok_0.tells("name"@, FactView::Text(s.file.name@))
            &&& r->Ok_0.tells("format"@, FactView::Text(s.file.format@))
            &&& r->Ok_0.tells("key"@, FactView::Text(s.key@))
            &&& r->Ok_0.tells("bytes"@, FactView::Number(s.bytes as int))
            &&& r->Ok_0.body == s.file
            &&& r->Ok_0.etag is None
        },
        result is Err ==> r is Err,
{
    broadcast use vstd::seq_lib::group_seq_properties;

}

/// Replacing a file is answered with the new one, and is on record with the file
/// that it replaces and what was stored in its place.
pub proof fn the_interface_records_a_replaced_file(
    r: Result<Answer<File>, AppError>,
    caller: Caller,
    org: Uuid,
    request_id: Uuid,
    current: File,
    result: Result<Stored, UploadError>,
)
    requires
        replaced_outcome(r, caller, org, request_id, current, result),
    ensures
        result matches Ok(s) ==> r is Ok && {
            &&& r->Ok_0.status == 200
            &&& r->Ok_0.names(
                caller.user_id,
                Some(org),
                request_id,
                "file.replace"@,
                s.file.id,
            )
            &&& r->Ok_0.tells("replaced"@, FactView::Id(current.id))
            &&& r->Ok_0.tells("name"@, FactView::Text(current.name@))
            &&& r->Ok_0.tells("key"@, FactView::Text(s.key@))
            &&& r->Ok_0.tells("bytes"@, FactView::Number(s.bytes as int))
            &&& r->Ok_0.body == s.file
            &&& r->Ok_0.etag is None
        },
        result is Err ==> r is Err,
{
    broadcast use vstd::seq_lib::group_seq_properties;

}

/// Members download the files of the arrangements of their organization, and of
/// the voices of those.
pub proof fn members_download_files(
    r: Result<File, AppError>,
    standing: Standing,
    org: Uuid,
    arr: Uuid,
    voice_id: Option<Uuid>,
    arrangement: Lookup<Arrangement>,
    found: Lookup<File>,
)
    requires
        plan_download_outcome(r, standing, org, arr, voice_id, arrangement, found),
    ensures
        r is Ok ==> is_member(standing) && found == Lookup::Found(r->Ok_0)
            && r->Ok_0.arrangement_id == arr && r->Ok_0.voice_id == voice_id
            && (arrangement matches Lookup::Found(a)
            && a.organization_id == org),
        is_member(standing) && (found matches Lookup::Found(x) && x.arrangement_id == arr
            && x.voice_id == voice_id && (arrangement matches Lookup::Found(a)
            && a.organization_id == org)) ==> r is Ok,
        !is_member(standing) ==> r is Err && (r->Err_0@.status() == 403
            || r->Err_0@.status() == 500),
{
    each_role_may_do_its_part(standing);
}

/// Who keeps the archive changes the files of the arrangements of the
/// organization, at the version that the change was made for.
pub proof fn a_file_is_opened_for_a_change(
    r: Result<File, AppError>,
    standing: Standing,
    org: Uuid,
    arr: Uuid,
    voice_id: Option<Uuid>,
    arrangement: Lookup<Arrangement>,
    found: Lookup<File>,
    if_match: Option<&str>,
)
    requires
        plan_file_write_outcome(r, standing, org, arr, voice_id, arrangement, found, if_match),
    ensures
        r is Ok ==> keeps_archive(standing) && found == Lookup::Found(r->Ok_0)
            && r->Ok_0.arrangement_id == arr && r->Ok_0.voice_id == voice_id
            && (arrangement matches Lookup::Found(a)
            && a.organization_id == org) && is_for(if_match, r->Ok_0.updated_at),
        keeps_archive(standing) && (found matches Lookup::Found(x) && x.arrangement_id == arr
            && x.voice_id == voice_id && (arrangement matches Lookup::Found(a)
            && a.organization_id == org) && is_for(if_match, x.updated_at)) ==> r is Ok,
        !keeps_archive(standing) ==> r is Err && (r->Err_0@.status() == 403
            || r->Err_0@.status() == 500),
        keeps_archive(standing) && (found matches Lookup::Found(x) && x.arrangement_id == arr
            && x.voice_id == voice_id && (arrangement matches Lookup::Found(a)
            && a.organization_id == org) && !is_for(if_match, x.updated_at)) ==> r is Err
            && r->Err_0@.status() == 412,
{
    each_role_may_do_its_part(standing);
}

/// Deleting a file is on record exactly where it took place.
pub proof fn the_interface_records_a_deleted_file(
    r: Result<Answer<()>, AppError>,
    caller: Caller,
    org: Uuid,
    request_id: Uuid,
    current: File,
    result: Option<bool>,
)
    requires
        file_deleted_outcome(r, caller, org, request_id, current, result),
    ensures
        result == Some(true) ==> r is Ok && {
            &&& r->Ok_0.status == 204
            &&& r->Ok_0.names(
                caller.user_id,
                Some(org),
                request_id,
                "file.soft_delete"@,
                current.id,
            )
            &&& r->Ok_0.tells("name"@, FactView::Text(current.name@))
            &&& r->Ok_0.tells("format"@, FactView::Text(current.format@))
            &&& r->Ok_0.etag is None
        },
        r is Ok <==> result == Some(true),
        result == Some(false) ==> r->Err_0@.status() == 404,
        result is None ==> r->Err_0@.status() == 500,
{
    broadcast use vstd::seq_lib::group_seq_properties;

}

/// A download is labelled with the file's own type and version and with the
/// length and the range that are sent; it is partial exactly where a range is.
pub proof fn a_download_is_labelled_as_what_it_is(
    r: Download,
    f: File,
    content_length: Option<i64>,
    content_range: Option<String>,
)
    requires
        download_headers_outcome(r, f, content_length, content_range),
    ensures
        r.status == 206 <==> content_range is Some,
        r.status == 200 <==> content_range is None,
        r.etag@ == seq!['"'] + int_text(f.updated_at.millis as int) + seq!['"'],
        r.content_type@ == f.mime_type@,
        r.content_length == content_length,
        text_of(r.content_range) == text_of(content_range),
        r.accept_ranges@ == "bytes"@,
{
}

/// A file is fetched from the place that it was stored at.
pub proof fn a_file_is_found_under_its_key(
    r: Result<String, AppError>,
    path: Lookup<()>,
    key: Option<String>,
)
    requires
        locate_outcome(r, path, key),
    ensures
        r is Ok <==> path is Found && key is Some,
        r is Ok ==> r->Ok_0@ == key->0@,
        path is Missing ==> r->Err_0@.status() == 404,
{
}

/// A file is opened exactly where it belongs to the arrangement, or to the voice,
/// and the arrangement to the organization.
pub proof fn a_file_is_opened_where_it_belongs(
    r: Result<File, AppError>,
    org: Uuid,
    arr: Uuid,
    voice_id: Option<Uuid>,
    arrangement: Lookup<Arrangement>,
    found: Lookup<File>,
)
    requires
        open_file_outcome(r, org, arr, voice_id, arrangement, found),
    ensures
        r is Ok <==> (arrangement matches Lookup::Found(a) && a.organization_id == org) && (
        found matches Lookup::Found(f) && f.arrangement_id == arr && f.voice_id == voice_id),
        r is Ok ==> found == Lookup::Found(r->Ok_0),
{
}

/// Files have their place at the arrangements of the organization, and at the
/// voices of those.
pub proof fn files_have_their_place(
    r: Result<(), AppError>,
    org: Uuid,
    arr: Uuid,
    voice_id: Option<Uuid>,
    arrangement: Lookup<Arrangement>,
    voice: Lookup<Voice>,
)
    requires
        scope_target_outcome(r, org, arr, voice_id, arrangement, voice),
    ensures
        r is Ok <==> (arrangement matches Lookup::Found(a) && a.organization_id == org) && (voice_id
            is Some ==> (voice matches Lookup::Found(v) && v.arrangement_id == arr)),
        arrangement is Missing ==> r->Err_0@.status() == 404,
        arrangement is Failed ==> r->Err_0@.status() == 500,
{
}

/// What does not exist is told from what could not be looked up.
pub proof fn plan_download_tells_absence_from_failure(
    r: Result<File, AppError>,
    standing: Standing,
    org: Uuid,
    arr: Uuid,
    voice_id: Option<Uuid>,
    arrangement: Lookup<Arrangement>,
    found: Lookup<File>,
)
    requires
        plan_download_outcome(r, standing, org, arr, voice_id, arrangement, found),
    ensures
        is_member(standing) && (arrangement matches Lookup::Found(a) && a.organization_id == org)
            && found is Missing ==> r is Err && r->Err_0@.status() == 404,
        is_member(standing) && (arrangement matches Lookup::Found(a) && a.organization_id == org)
            && found is Failed ==> r is Err && r->Err_0@.status() == 500,
{
    each_role_may_do_its_part(standing);
}

/// What does not exist is told from what could not be looked up.
pub proof fn plan_file_write_tells_absence_from_failure(
    r: Result<File, AppError>,
    standing: Standing,
    org: Uuid,
    arr: Uuid,
    voice_id: Option<Uuid>,
    arrangement: Lookup<Arrangement>,
    found: Lookup<File>,
    if_match: Option<&str>,
)
    requires
        plan_file_write_outcome(r, standing, org, arr, voice_id, arrangement, found, if_match),
    ensures
        keeps_archive(standing) && (arrangement matches Lookup::Found(a)
            && a.organization_id == org) && found is Missing ==> r is Err
            && r->Err_0@.status() == 404,
        keeps_archive(standing) && (arrangement matches Lookup::Found(a)
            && a.organization_id == org) && found is Failed ==> r is Err
            && r->Err_0@.status() == 500,
{
    each_role_may_do_its_part(standing);
}

/// What does not exist is told from what could not be looked up.
pub proof fn open_file_tells_absence_from_failure(
    r: Result<File, AppError>,
    org: Uuid,
    arr: Uuid,
    voice_id: Option<Uuid>,
    arrangement: Lookup<Arrangement>,
    found: Lookup<File>,
)
    requires
        open_file_outcome(r, org, arr, voice_id, arrangement, found),
    ensures
        (arrangement matches Lookup::Found(a) && a.organization_id == org) && found is Missing
            ==> r is Err && r->Err_0@.status() == 404,
        (arrangement matches Lookup::Found(a) && a.organization_id == org) && found is Failed
            ==> r is Err && r->Err_0@.status() == 500,
{
}

/// What was refused is answered by the error that fits, and what was gone by then
/// as missing.
pub proof fn uploaded_answers_a_refusal_in_kind(
    r: Result<Answer<File>, AppError>,
    caller: Caller,
    org: Uuid,
    request_id: Uuid,
    result: Result<Stored, UploadError>,
)
    requires
        uploaded_outcome(r, caller, org, request_id, result),
    ensures
        result matches Err(e) ==> r is Err && r->Err_0@ == upload_error_view(e),
{
}

/// What was refused is answered by the error that fits, and what was gone by then
/// as missing.
pub proof fn replaced_answers_a_refusal_in_kind(
    r: Result<Answer<File>, AppError>,
    caller: Caller,
    org: Uuid,
    request_id: Uuid,
    current: File,
    result: Result<Stored, UploadError>,
)
    requires
        replaced_outcome(r, caller, org, request_id, current, result),
    ensures
        result matches Err(e) ==> r is Err && r->Err_0@ == upload_error_view(e),
{
}

} // verus!
