//! The console's file screens: the scores and parts of an arrangement.

use vstd::prelude::*;
use crate::arrangements::{arr_error, error_page, in_arrangement, in_org, scoped_arrangement, scoped_voice};
use crate::audit::{detail, entry, text, AuditEntry, Fact, FactView};
use crate::collection_screens::{notes_truncation, truncation, Truncation};
use crate::console::{ConsoleCtx, Section};
use crate::date::{minute_of, minute_text};
use crate::files::{file_of, scoped_file, Stored, UploadError};
use crate::id::{uuid_text, Uuid};
use crate::model::{Arrangement, File, Lookup, Voice};
use crate::number::{int_text, push_nat};
use crate::reply::{
    goes_to, refused, require_found, row_found, Done, Reply, ReplyView,
};
use crate::size::{human_size, size_text};
use crate::text::text_of;
use crate::urls::{
    action_path, action_url, arrangement_path, arrangement_url, voice_path, voice_url,
};

verus! {

/// Where a file screen or a write to one belongs: an arrangement, and for parts
/// a voice of it.
#[derive(Clone, Copy, Debug, PartialEq, Eq, Structural)]
pub struct Target {
    pub org_id: Uuid,
    pub arr_id: Uuid,
    pub voice_id: Option<Uuid>,
}

impl Target {
    /// The page that the files belong to.
    pub open spec fn owner_url(self) -> Seq<char> {
        match self.voice_id {
            Some(voice) => voice_url(self.org_id, self.arr_id, voice),
            None => arrangement_url(self.org_id, self.arr_id),
        }
    }

    /// The screen of the files.
    pub open spec fn base(self) -> Seq<char> {
        self.owner_url() + "/files"@
    }

    /// Where a file is downloaded from.
    pub open spec fn download(self, file: Uuid) -> Seq<char> {
        match self.voice_id {
            Some(voice) => "/v1/orgs/"@ + uuid_text(self.org_id) + "/arrangements/"@ + uuid_text(
                self.arr_id,
            ) + "/voices/"@ + uuid_text(voice) + "/files/"@ + uuid_text(file),
            None => "/v1/orgs/"@ + uuid_text(self.org_id) + "/arrangements/"@ + uuid_text(
                self.arr_id,
            ) + "/files/"@ + uuid_text(file),
        }
    }

    pub fn owner_path(&self) -> (r: String)
        ensures
            r@ == self.owner_url(),
    {
        match self.voice_id {
            Some(voice) => voice_path(self.org_id, self.arr_id, voice),
            None => arrangement_path(self.org_id, self.arr_id),
        }
    }

    pub fn base_url(&self) -> (r: String)
        ensures
            r@ == self.base(),
    {
        self.owner_path().concat("/files")
    }

    pub fn download_url(&self, file: Uuid) -> (r: String)
        ensures
            r@ == self.download(file),
    {
        let mut out: String = "/v1/orgs/".to_owned();
        out.append(self.org_id.text().as_str());
        out.append("/arrangements/");
        out.append(self.arr_id.text().as_str());
        if let Some(voice) = self.voice_id {
            out.append("/voices/");
            out.append(voice.text().as_str());
        }
        out.append("/files/");
        out.append(file.text().as_str());
        out
    }
}

/// The answer in place of the files of a target, where there is no such target.
pub open spec fn target_error(
    org: Uuid,
    arr_id: Uuid,
    voice_id: Option<Uuid>,
    arrangement: Lookup<Arrangement>,
    voice: Lookup<Voice>,
) -> Option<ReplyView> {
    match in_org(arrangement, org) {
        Lookup::Missing => Some(arr_error(404, "Arrangement not found."@)),
        Lookup::Failed => Some(arr_error(500, "Something went wrong. Please retry."@)),
        Lookup::Found(_) => if voice_id is None {
            None
        } else {
            match in_arrangement(arrangement, voice, org, arr_id) {
                Lookup::Missing => Some(arr_error(404, "Voice not found."@)),
                Lookup::Failed => Some(arr_error(500, "Something went wrong. Please retry."@)),
                Lookup::Found(_) => None,
            }
        },
    }
}

/// Whether `r` is what [`enter_target`] owes its caller.
pub open spec fn enter_target_outcome(
    r: Result<Target, Reply>,
    ctx: ConsoleCtx,
    arr_id: Uuid,
    voice_id: Option<Uuid>,
    arrangement: Lookup<Arrangement>,
    voice: Lookup<Voice>,
) -> bool {
    match target_error(ctx.org_of().id, arr_id, voice_id, arrangement, voice) {
        Some(v) => refused(r, v),
        None => r == Ok::<Target, Reply>(
            Target { org_id: ctx.org_of().id, arr_id, voice_id },
        ),
    }
}

/// Opens the files of an arrangement, or of one of its voices.
pub fn enter_target(
    ctx: &ConsoleCtx,
    arr_id: Uuid,
    voice_id: Option<Uuid>,
    arrangement: Lookup<Arrangement>,
    voice: Lookup<Voice>,
) -> (r: Result<Target, Reply>)
    ensures
        enter_target_outcome(r, *ctx, arr_id, voice_id, arrangement, voice),
{
    let org: Uuid = ctx.org().id;
    let parent: Arrangement = match require_found(
        scoped_arrangement(arrangement, org),
        Section::Arrangements,
        "Arrangement not found.",
    ) {
        Ok(a) => a,
        Err(reply) => return Err(reply),
    };
    if voice_id.is_some() {
        if let Err(reply) = require_found(
            scoped_voice(Lookup::Found(parent), voice, org, arr_id),
            Section::Arrangements,
            "Voice not found.",
        ) {
            return Err(reply);
        }
    }
    Ok(Target { org_id: org, arr_id, voice_id })
}

/// The size shown for a file; unknown sizes are shown as a question mark.
pub open spec fn shown_size(sizes: Seq<(Uuid, u64)>, id: Uuid) -> Seq<char>
    decreases sizes.len(),
{
    if sizes.len() == 0 {
        "?"@
    } else if sizes[0].0 == id {
        size_text(sizes[0].1 as nat)
    } else {
        shown_size(sizes.skip(1), id)
    }
}

fn size_of(sizes: &Vec<(Uuid, u64)>, id: Uuid) -> (r: String)
    ensures
        r@ == shown_size(sizes@, id),
{
    let mut i: usize = 0;
    assert(sizes@.skip(0) == sizes@);
    while i < sizes.len()
        invariant
            i <= sizes.len(),
            shown_size(sizes@, id) == shown_size(sizes@.skip(i as int), id),
        decreases sizes.len() - i,
    {
        if sizes[i].0 == id {
            return human_size(sizes[i].1);
        }
        assert(sizes@.skip(i as int).skip(1) == sizes@.skip(i + 1));
        i = i + 1;
    }
    "?".to_owned()
}

/// A file on its screen.
pub struct FileRow {
    pub name: String,
    pub format: String,
    pub mime_type: String,
    pub size: String,
    /// How it was converted; a source file was not.
    pub quality: String,
    pub derived: bool,
    pub uploaded: Option<String>,
    pub download_href: String,
    /// Only for those who may edit.
    pub replace_action: Option<String>,
    pub delete_action: Option<String>,
}

/// A form action below the file screen.
pub open spec fn file_action(target: Target, id: Uuid, segment: Seq<char>) -> Seq<char> {
    action_url(target.base(), id, segment)
}

/// Whether `row` shows the file `f`. The multipart form carries its token in
/// the URL, since its body is the file.
pub open spec fn shows_file(
    row: FileRow,
    f: File,
    target: Target,
    sizes: Seq<(Uuid, u64)>,
    can_edit: bool,
    token: Seq<char>,
) -> bool {
    &&& row.name == f.name && row.format == f.format && row.mime_type == f.mime_type
    &&& row.size@ == shown_size(sizes, f.id)
    &&& row.quality@ == (match f.conversion_quality {
        Some(q) => q@,
        None => "source"@,
    })
    &&& row.derived == (f.derived_from_file_id is Some)
    &&& text_of(row.uploaded) == minute_of(f.created_at.millis)
    &&& row.download_href@ == target.download(f.id)
    &&& (row.replace_action is Some <==> can_edit)
    &&& (row.replace_action matches Some(a) ==> a@ == file_action(
        target,
        f.id,
        "/replace?csrf="@,
    ) + token)
    &&& (row.delete_action is Some <==> can_edit)
    &&& (row.delete_action matches Some(a) ==> a@ == file_action(target, f.id, "/delete"@))
}

fn action(target: &Target, id: Uuid, segment: &str) -> (r: String)
    ensures
        r@ == file_action(*target, id, segment@),
{
    action_path(&target.base_url(), id, segment)
}

fn file_row(
    f: &File,
    target: &Target,
    sizes: &Vec<(Uuid, u64)>,
    can_edit: bool,
    token: &str,
) -> (r: FileRow)
    ensures
        shows_file(r, *f, *target, sizes@, can_edit, token@),
{
    FileRow {
        name: f.name.clone(),
        format: f.format.clone(),
        mime_type: f.mime_type.clone(),
        size: size_of(sizes, f.id),
        quality: match &f.conversion_quality {
            Some(q) => q.clone(),
            None => "source".to_owned(),
        },
        derived: f.derived_from_file_id.is_some(),
        uploaded: minute_text(f.created_at.millis),
        download_href: target.download_url(f.id),
        replace_action: if can_edit {
            Some(action(target, f.id, "/replace?csrf=").concat(token))
        } else {
            None
        },
        delete_action: if can_edit {
            Some(action(target, f.id, "/delete"))
        } else {
            None
        },
    }
}

/// A deleted version of a file.
pub struct DeletedFileRow {
    pub name: String,
    pub format: String,
    pub deleted: Option<String>,
    pub restore_action: String,
}

/// Whether `row` shows the deleted file `f`.
pub open spec fn shows_deleted_file(row: DeletedFileRow, f: File, target: Target) -> bool {
    &&& row.name == f.name && row.format == f.format
    &&& text_of(row.deleted) == (match f.deleted_at {
        Some(t) => minute_of(t.millis),
        None => None,
    })
    &&& row.restore_action@ == file_action(target, f.id, "/undelete"@)
}

/// The screen of an arrangement's or a voice's files.
pub struct FilesPage {
    pub heading: &'static str,
    pub can_edit: bool,
    pub rows: Vec<FileRow>,
    pub truncated: Option<Truncation>,
    pub upload_action: Option<String>,
    pub deleted: Vec<DeletedFileRow>,
    pub deleted_truncated: Option<Truncation>,
    pub back: String,
}

/// Whether `r` is what [`files_page`] owes its caller.
pub open spec fn files_page_outcome(
    r: Result<FilesPage, Reply>,
    ctx: ConsoleCtx,
    target: Target,
    token: &str,
    listed: Option<(&Vec<File>, i64)>,
    deleted: Vec<File>,
    deleted_total: i64,
    sizes: Vec<(Uuid, u64)>,
) -> bool {
    &&& !ctx.access_of().staff() ==> refused(r, ReplyView::SectionForbidden)
    &&& ctx.access_of().staff() ==> match listed {
        None => refused(r, arr_error(500, "Could not load files."@)),
        Some((files, total)) => {
            let can_edit = ctx.access_of().edits_arrangements();
            &&& r is Ok
            &&& r->Ok_0.heading@ == (if target.voice_id is Some {
                "Voice files"@
            } else {
                "Score files"@
            })
            &&& r->Ok_0.can_edit == can_edit
            &&& r->Ok_0.rows@.len() == files@.len()
            &&& forall|i: int|
                0 <= i < files@.len() ==> shows_file(
                    #[trigger] r->Ok_0.rows@[i],
                    files@[i],
                    target,
                    sizes@,
                    can_edit,
                    token@,
                )
            &&& notes_truncation(r->Ok_0.truncated, files@.len(), total)
            &&& (r->Ok_0.upload_action is Some <==> can_edit)
            &&& (r->Ok_0.upload_action matches Some(a) ==> a@ == target.base() + "?csrf="@
                + token@)
            &&& r->Ok_0.deleted@.len() == (if can_edit {
                deleted@.len()
            } else {
                0
            })
            &&& forall|i: int|
                0 <= i < r->Ok_0.deleted@.len() ==> shows_deleted_file(
                    #[trigger] r->Ok_0.deleted@[i],
                    deleted@[i],
                    target,
                )
            &&& can_edit ==> notes_truncation(
                r->Ok_0.deleted_truncated,
                deleted@.len(),
                deleted_total,
            )
            &&& !can_edit ==> r->Ok_0.deleted_truncated is None
            &&& r->Ok_0.back@ == target.owner_url()
        },
    }
}

/// The screen of an arrangement's or a voice's files. `listed` is `None` where
/// they could not be listed; deleted versions are shown only to those who can
/// restore them.
pub fn files_page(
    ctx: &ConsoleCtx,
    target: &Target,
    token: &str,
    listed: Option<(&Vec<File>, i64)>,
    deleted: &Vec<File>,
    deleted_total: i64,
    sizes: &Vec<(Uuid, u64)>,
) -> (r: Result<FilesPage, Reply>)
    ensures
        files_page_outcome(r, *ctx, *target, token, listed, *deleted, deleted_total, *sizes),
{
    if !ctx.is_staff() {
        return Err(Reply::SectionForbidden);
    }
    let (files, total): (&Vec<File>, i64) = match listed {
        Some(l) => l,
        None => return Err(error_page(500, "Could not load files.")),
    };
    let can_edit: bool = ctx.can_edit_arrangements();
    let mut rows: Vec<FileRow> = Vec::new();
    let mut i: usize = 0;
    while i < files.len()
        invariant
            i <= files.len(),
            rows@.len() == i,
            forall|k: int|
                0 <= k < i ==> shows_file(
                    #[trigger] rows@[k],
                    files@[k],
                    *target,
                    sizes@,
                    can_edit,
                    token@,
                ),
        decreases files.len() - i,
    {
        rows.push(file_row(&files[i], target, sizes, can_edit, token));
        i = i + 1;
    }
    let mut gone: Vec<DeletedFileRow> = Vec::new();
    let mut n: usize = 0;
    while can_edit && n < deleted.len()
        invariant
            n <= deleted.len(),
            gone@.len() == n,
            !can_edit ==> n == 0,
            forall|k: int|
                0 <= k < n ==> shows_deleted_file(#[trigger] gone@[k], deleted@[k], *target),
        decreases deleted.len() - n,
    {
        let f: &File = &deleted[n];
        gone.push(
            DeletedFileRow {
                name: f.name.clone(),
                format: f.format.clone(),
                deleted: match f.deleted_at {
                    Some(t) => minute_text(t.millis),
                    None => None,
                },
                restore_action: action(target, f.id, "/undelete"),
            },
        );
        n = n + 1;
    }
    Ok(
        FilesPage {
            heading: if target.voice_id.is_some() {
                "Voice files"
            } else {
                "Score files"
            },
            can_edit,
            rows,
            truncated: truncation(files.len(), total),
            upload_action: if can_edit {
                let mut a: String = target.base_url();
                a.append("?csrf=");
                a.append(token);
                Some(a)
            } else {
                None
            },
            deleted: gone,
            deleted_truncated: if can_edit {
                truncation(deleted.len(), deleted_total)
            } else {
                None
            },
            back: target.owner_path(),
        },
    )
}

/// The answer to a body that could not be read.
pub fn malformed_body() -> (r: Reply)
    ensures
        r@ == arr_error(400, "The upload body was malformed."@),
{
    error_page(400, "The upload body was malformed.")
}

/// The answer to a body without a file in it.
pub fn no_file() -> (r: Reply)
    ensures
        r@ == arr_error(400, "No file was provided."@),
{
    error_page(400, "No file was provided.")
}

/// The page that a failed upload is answered with.
pub open spec fn upload_error_at(err: UploadError) -> ReplyView {
    match err {
        UploadError::UnsupportedMime(mime) => arr_error(
            415,
            "'"@ + mime@ + "' is not a stored format — use LilyPond, MusicXML, PDF, or an image."@,
        ),
        UploadError::StoredMimeUnknown(_) => arr_error(
            500,
            "This file's stored type is unrecognized, so it can't be replaced. Please report this — the file's metadata needs fixing."@,
        ),
        UploadError::EmptyName => arr_error(400, "The file needs a name."@),
        UploadError::FormatMismatch { expected } => arr_error(
            409,
            "The replacement must keep the original's format "@ + expected@ + "."@,
        ),
        UploadError::Duplicate => arr_error(
            409,
            "A file with this name and format already exists here — use Replace instead."@,
        ),
        UploadError::NotFound => arr_error(404, "Arrangement not found."@),
        UploadError::ReplaceTargetGone => arr_error(404, "File not found."@),
        UploadError::TooLarge { limit } => arr_error(
            413,
            "That file is too large (limit "@ + int_text(limit as int) + " bytes)."@,
        ),
        UploadError::Db => arr_error(500, "Could not save the file."@),
        UploadError::Storage(_) => arr_error(500, "The upload failed."@),
    }
}

/// The page that a failed upload is answered with.
pub fn upload_error_page(err: UploadError) -> (r: Reply)
    ensures
        r@ == upload_error_at(err),
{
    match err {
        UploadError::UnsupportedMime(mime) => {
            let mut m: String = "'".to_owned();
            m.append(mime.as_str());
            m.append("' is not a stored format — use LilyPond, MusicXML, PDF, or an image.");
            error_page(415, m.as_str())
        },
        UploadError::StoredMimeUnknown(_) => error_page(
            500,
            "This file's stored type is unrecognized, so it can't be replaced. Please report this — the file's metadata needs fixing.",
        ),
        UploadError::EmptyName => error_page(400, "The file needs a name."),
        UploadError::FormatMismatch { expected } => {
            let mut m: String = "The replacement must keep the original's format ".to_owned();
            m.append(expected.as_str());
            m.append(".");
            error_page(409, m.as_str())
        },
        UploadError::Duplicate => error_page(
            409,
            "A file with this name and format already exists here — use Replace instead.",
        ),
        UploadError::NotFound => error_page(404, "Arrangement not found."),
        UploadError::ReplaceTargetGone => error_page(404, "File not found."),
        UploadError::TooLarge { limit } => {
            let mut m: String = "That file is too large (limit ".to_owned();
            push_nat(&mut m, limit as u128);
            m.append(" bytes).");
            error_page(413, m.as_str())
        },
        UploadError::Db => error_page(500, "Could not save the file."),
        UploadError::Storage(_) => error_page(500, "The upload failed."),
    }
}

/// The console and the API answer a failed upload with the same status.
pub proof fn both_interfaces_agree_on_upload_failures(err: UploadError)
    ensures
        upload_error_at(err).status() == crate::files::upload_error_view(err).status(),
{
}

/// Whether `r` is what [`plan_upload`] owes its caller.
pub open spec fn plan_upload_outcome(
    r: Result<Target, Reply>,
    ctx: ConsoleCtx,
    arr_id: Uuid,
    voice_id: Option<Uuid>,
    arrangement: Lookup<Arrangement>,
    voice: Lookup<Voice>,
) -> bool {
    match target_error(ctx.org_of().id, arr_id, voice_id, arrangement, voice) {
        Some(v) => refused(r, v),
        None => if ctx.access_of().edits_arrangements() {
            r == Ok::<Target, Reply>(Target { org_id: ctx.org_of().id, arr_id, voice_id })
        } else {
            refused(r, ReplyView::SectionForbidden)
        },
    }
}

/// Opens a target to add a file to it.
pub fn plan_upload(
    ctx: &ConsoleCtx,
    arr_id: Uuid,
    voice_id: Option<Uuid>,
    arrangement: Lookup<Arrangement>,
    voice: Lookup<Voice>,
) -> (r: Result<Target, Reply>)
    ensures
        plan_upload_outcome(r, *ctx, arr_id, voice_id, arrangement, voice),
{
    match enter_target(ctx, arr_id, voice_id, arrangement, voice) {
        Ok(target) => {
            if ctx.can_edit_arrangements() {
                Ok(target)
            } else {
                Err(Reply::SectionForbidden)
            }
        },
        Err(reply) => Err(reply),
    }
}

/// Whether `r` is what [`uploaded`] owes its caller.
pub open spec fn uploaded_outcome(
    r: Done,
    ctx: ConsoleCtx,
    request_id: Uuid,
    target: Target,
    result: Result<Stored, UploadError>,
) -> bool {
    match result {
        Ok(s) => r.recorded(
            entry(
                ctx.audit_context(request_id),
                "file.create"@,
                "file"@,
                s.file.id,
                seq![
                    detail("name"@, FactView::Text(s.file.name@)),
                    detail("format"@, FactView::Text(s.file.format@)),
                    detail("key"@, FactView::Text(s.key@)),
                    detail("bytes"@, FactView::Number(s.bytes as int)),
                ],
            ),
            goes_to(target.base()),
        ),
        Err(e) => r.unrecorded(upload_error_at(e)),
    }
}

/// How an upload ended.
pub fn uploaded(
    ctx: &ConsoleCtx,
    request_id: Uuid,
    target: &Target,
    result: Result<Stored, UploadError>,
) -> (r: Done)
    ensures
        uploaded_outcome(r, *ctx, request_id, *target, result),
{
    match result {
        Ok(s) => Done::saved(
            AuditEntry::new(ctx.audit_ctx(request_id), "file.create", "file", s.file.id).with(
                "name",
                text(s.file.name.as_str()),
            ).with("format", text(s.file.format.as_str())).with("key", text(s.key.as_str())).with(
                "bytes",
                Fact::Number(s.bytes),
            ),
            target.base_url(),
        ),
        Err(e) => Done::refused(upload_error_page(e)),
    }
}

/// Whether `r` is what [`plan_file_write`] owes its caller.
pub open spec fn plan_file_write_outcome(
    r: Result<File, Reply>,
    ctx: ConsoleCtx,
    target: Target,
    found: Lookup<File>,
) -> bool {
    &&& !ctx.access_of().edits_arrangements() ==> refused(r, ReplyView::SectionForbidden)
    &&& ctx.access_of().edits_arrangements() ==> row_found(
        r,
        file_of(found, target.arr_id, target.voice_id),
        Section::Arrangements,
        "File not found."@,
    )
}

/// Opens a file of a target to change it.
pub fn plan_file_write(ctx: &ConsoleCtx, target: &Target, found: Lookup<File>) -> (r: Result<
    File,
    Reply,
>)
    ensures
        plan_file_write_outcome(r, *ctx, *target, found),
{
    if !ctx.can_edit_arrangements() {
        return Err(Reply::SectionForbidden);
    }
    require_found(
        scoped_file(found, target.arr_id, target.voice_id),
        Section::Arrangements,
        "File not found.",
    )
}

/// Whether `r` is what [`replaced`] owes its caller.
pub open spec fn replaced_outcome(
    r: Done,
    ctx: ConsoleCtx,
    request_id: Uuid,
    target: Target,
    old_file: File,
    result: Result<Stored, UploadError>,
) -> bool {
    match result {
        Ok(s) => r.recorded(
            entry(
                ctx.audit_context(request_id),
                "file.replace"@,
                "file"@,
                s.file.id,
                seq![
                    detail("name"@, FactView::Text(old_file.name@)),
                    detail("replaced"@, FactView::Id(old_file.id)),
                    detail("key"@, FactView::Text(s.key@)),
                    detail("bytes"@, FactView::Number(s.bytes as int)),
                ],
            ),
            goes_to(target.base()),
        ),
        Err(e) => r.unrecorded(upload_error_at(e)),
    }
}

/// How replacing the file `old` ended.
pub fn replaced(
    ctx: &ConsoleCtx,
    request_id: Uuid,
    target: &Target,
    old_file: &File,
    result: Result<Stored, UploadError>,
) -> (r: Done)
    ensures
        replaced_outcome(r, *ctx, request_id, *target, *old_file, result),
{
    match result {
        Ok(s) => Done::saved(
            AuditEntry::new(ctx.audit_ctx(request_id), "file.replace", "file", s.file.id).with(
                "name",
                text(old_file.name.as_str()),
            ).with("replaced", Fact::Id(old_file.id)).with("key", text(s.key.as_str())).with(
                "bytes",
                Fact::Number(s.bytes),
            ),
            target.base_url(),
        ),
        Err(e) => Done::refused(upload_error_page(e)),
    }
}

/// Whether `r` is what [`file_deleted`] owes its caller.
pub open spec fn file_deleted_outcome(
    r: Done,
    ctx: ConsoleCtx,
    request_id: Uuid,
    target: Target,
    file_id: Uuid,
    result: Option<bool>,
) -> bool {
    match result {
        Some(true) => r.recorded(
            entry(
                ctx.audit_context(request_id),
                "file.soft_delete"@,
                "file"@,
                file_id,
                seq![],
            ),
            goes_to(target.base()),
        ),
        Some(false) => r.unrecorded(goes_to(target.base())),
        None => r.unrecorded(arr_error(500, "Could not delete the file."@)),
    }
}

/// How deleting a file ended. `Some(false)` where it was deleted already:
/// nothing happened then, and nothing is recorded.
pub fn file_deleted(
    ctx: &ConsoleCtx,
    request_id: Uuid,
    target: &Target,
    file_id: Uuid,
    result: Option<bool>,
) -> (r: Done)
    ensures
        file_deleted_outcome(r, *ctx, request_id, *target, file_id, result),
{
    match result {
        Some(true) => Done::saved(
            AuditEntry::new(ctx.audit_ctx(request_id), "file.soft_delete", "file", file_id),
            target.base_url(),
        ),
        Some(false) => Done::refused(Reply::Redirect { to: target.base_url() }),
        None => Done::refused(error_page(500, "Could not delete the file.")),
    }
}

/// Why a deleted file was not restored.
pub enum RestoreError {
    Duplicate,
    Superseded,
    Database,
}

/// Whether `r` is what [`file_undeleted`] owes its caller.
pub open spec fn file_undeleted_outcome(
    r: Done,
    ctx: ConsoleCtx,
    request_id: Uuid,
    target: Target,
    file_id: Uuid,
    result: Result<bool, RestoreError>,
) -> bool {
    match result {
        Ok(true) => r.recorded(
            entry(
                ctx.audit_context(request_id),
                "file.undelete"@,
                "file"@,
                file_id,
                seq![],
            ),
            goes_to(target.base()),
        ),
        Ok(false) => r.unrecorded(goes_to(target.base())),
        Err(RestoreError::Duplicate) => r.unrecorded(
            arr_error(
                409,
                "A current file already holds that name and format — delete or replace it first."@,
            ),
        ),
        Err(RestoreError::Superseded) => r.unrecorded(
            arr_error(
                409,
                "A newer file has taken this file's storage slot, so restoring it would serve the wrong content."@,
            ),
        ),
        Err(RestoreError::Database) => r.unrecorded(
            arr_error(500, "Could not restore the file."@),
        ),
    }
}

/// How restoring a file ended. `Ok(false)` where it was not deleted.
pub fn file_undeleted(
    ctx: &ConsoleCtx,
    request_id: Uuid,
    target: &Target,
    file_id: Uuid,
    result: Result<bool, RestoreError>,
) -> (r: Done)
    ensures
        file_undeleted_outcome(r, *ctx, request_id, *target, file_id, result),
{
    match result {
        Ok(true) => Done::saved(
            AuditEntry::new(ctx.audit_ctx(request_id), "file.undelete", "file", file_id),
            target.base_url(),
        ),
        Ok(false) => Done::refused(Reply::Redirect { to: target.base_url() }),
        Err(RestoreError::Duplicate) => Done::refused(
            error_page(
                409,
                "A current file already holds that name and format — delete or replace it first.",
            ),
        ),
        Err(RestoreError::Superseded) => Done::refused(
            error_page(
                409,
                "A newer file has taken this file's storage slot, so restoring it would serve the wrong content.",
            ),
        ),
        Err(RestoreError::Database) => Done::refused(error_page(500, "Could not restore the file.")),
    }
}

/// An upload is on record, with the name, the format, the place and the size of
/// what was stored, exactly where it took place.
pub proof fn an_upload_is_on_record(
    r: Done,
    ctx: ConsoleCtx,
    request_id: Uuid,
    target: Target,
    result: Result<Stored, UploadError>,
)
    requires
        uploaded_outcome(r, ctx, request_id, target, result),
    ensures
        result matches Ok(s) ==> {
            &&& r.names(
                ctx.user_of().id,
                ctx.org_of().id,
                request_id,
                "file.create"@,
                s.file.id,
            )
            &&& r.tells("name"@, FactView::Text(s.file.name@))
            &&& r.tells("format"@, FactView::Text(s.file.format@))
            &&& r.tells("key"@, FactView::Text(s.key@))
            &&& r.tells("bytes"@, FactView::Number(s.bytes as int))
            &&& r.moves_on_to(target.base())
        },
        result is Err ==> r.fell_through(),
{
    broadcast use vstd::seq_lib::group_seq_properties;

}

/// Replacing a file is on record, with the file that it replaces and what was
/// stored in its place, exactly where it took place.
pub proof fn a_replaced_file_is_on_record(
    r: Done,
    ctx: ConsoleCtx,
    request_id: Uuid,
    target: Target,
    old_file: File,
    result: Result<Stored, UploadError>,
)
    requires
        replaced_outcome(r, ctx, request_id, target, old_file, result),
    ensures
        result matches Ok(s) ==> {
            &&& r.names(
                ctx.user_of().id,
                ctx.org_of().id,
                request_id,
                "file.replace"@,
                s.file.id,
            )
            &&& r.tells("name"@, FactView::Text(old_file.name@))
            &&& r.tells("replaced"@, FactView::Id(old_file.id))
            &&& r.tells("key"@, FactView::Text(s.key@))
            &&& r.tells("bytes"@, FactView::Number(s.bytes as int))
            &&& r.moves_on_to(target.base())
        },
        result is Err ==> r.fell_through(),
{
    broadcast use vstd::seq_lib::group_seq_properties;

}

/// Deleting a file is on record exactly where it took place.
pub proof fn a_deleted_file_is_on_record(
    r: Done,
    ctx: ConsoleCtx,
    request_id: Uuid,
    target: Target,
    file_id: Uuid,
    result: Option<bool>,
)
    requires
        file_deleted_outcome(r, ctx, request_id, target, file_id, result),
    ensures
        result == Some(true) ==> {
            &&& r.names(
                ctx.user_of().id,
                ctx.org_of().id,
                request_id,
                "file.soft_delete"@,
                file_id,
            )
            &&& r.moves_on_to(target.base())
        },
        result != Some(true) ==> r.audit is None,
        result is None ==> r.fell_through(),
{
    broadcast use vstd::seq_lib::group_seq_properties;

}

/// Restoring a file is on record exactly where it took place.
pub proof fn a_restored_file_is_on_record(
    r: Done,
    ctx: ConsoleCtx,
    request_id: Uuid,
    target: Target,
    file_id: Uuid,
    result: Result<bool, RestoreError>,
)
    requires
        file_undeleted_outcome(r, ctx, request_id, target, file_id, result),
    ensures
        result == Ok::<bool, RestoreError>(true) ==> {
            &&& r.names(
                ctx.user_of().id,
                ctx.org_of().id,
                request_id,
                "file.undelete"@,
                file_id,
            )
            &&& r.moves_on_to(target.base())
        },
        result != Ok::<bool, RestoreError>(true) ==> r.audit is None,
        result is Err ==> r.fell_through(),
{
    broadcast use vstd::seq_lib::group_seq_properties;

}

/// Whether the size at `j` is the one of the file `id`.
pub open spec fn sized_first(sizes: Seq<(Uuid, u64)>, id: Uuid, j: int) -> bool {
    &&& 0 <= j < sizes.len()
    &&& sizes[j].0 == id
    &&& forall|i: int| 0 <= i < j ==> (#[trigger] sizes[i]).0 != id
}

proof fn lemma_shown_size(sizes: Seq<(Uuid, u64)>, id: Uuid)
    ensures
        forall|j: int| #[trigger]
            sized_first(sizes, id, j) ==> shown_size(sizes, id) == size_text(sizes[j].1 as nat),
        (forall|j: int| 0 <= j < sizes.len() ==> (#[trigger] sizes[j]).0 != id) ==> shown_size(
            sizes,
            id,
        ) == "?"@,
    decreases sizes.len(),
{
    if sizes.len() > 0 {
        let rest = sizes.skip(1);
        lemma_shown_size(rest, id);
        assert forall|j: int| #[trigger] sized_first(sizes, id, j) implies shown_size(sizes, id)
            == size_text(sizes[j].1 as nat) by {
            if j > 0 {
                assert(sizes[0].0 != id);
                assert(rest[j - 1] == sizes[j]);
                assert forall|i: int| 0 <= i < j - 1 implies (#[trigger] rest[i]).0 != id by {
                    assert(rest[i] == sizes[i + 1]);
                }
                assert(sized_first(rest, id, j - 1));
            }
        }
        if forall|j: int| 0 <= j < sizes.len() ==> (#[trigger] sizes[j]).0 != id {
            assert(sizes[0].0 != id);
            assert forall|j: int| 0 <= j < rest.len() implies (#[trigger] rest[j]).0 != id by {
                assert(rest[j] == sizes[j + 1]);
            }
        }
    }
}

/// The file screen shows each file by its own name, format, type, size and
/// time, with the way to download that very file; only those who may edit are
/// shown how to replace and delete it, and what was deleted.
pub proof fn the_file_screen_shows_each_file(
    page: FilesPage,
    ctx: ConsoleCtx,
    target: Target,
    token: &str,
    files: &Vec<File>,
    total: i64,
    deleted: Vec<File>,
    deleted_total: i64,
    sizes: Vec<(Uuid, u64)>,
)
    requires
        files_page_outcome(
            Ok::<FilesPage, Reply>(page),
            ctx,
            target,
            token,
            Some((files, total)),
            deleted,
            deleted_total,
            sizes,
        ),
    ensures
        ctx.access_of().staff(),
        page.can_edit <==> ctx.access_of().edits_arrangements(),
        page.heading@ == (if target.voice_id is Some {
            "Voice files"@
        } else {
            "Score files"@
        }),
        page.rows@.len() == files@.len(),
        forall|i: int|
            0 <= i < files@.len() ==> {
                let (row, f) = (#[trigger] page.rows@[i], files@[i]);
                &&& row.name@ == f.name@ && row.format@ == f.format@
                &&& row.mime_type@ == f.mime_type@
                &&& f.conversion_quality is Some ==> row.quality@ == f.conversion_quality->0@
                &&& f.conversion_quality is None ==> row.quality@ == "source"@
                &&& row.derived <==> f.derived_from_file_id is Some
                &&& text_of(row.uploaded) == minute_of(f.created_at.millis)
                &&& row.download_href@ == target.download(f.id)
                &&& forall|j: int| #[trigger]
                    sized_first(sizes@, f.id, j) ==> row.size@ == size_text(sizes@[j].1 as nat)
                &&& (forall|j: int| 0 <= j < sizes@.len() ==> (#[trigger] sizes@[j]).0 != f.id)
                    ==> row.size@ == "?"@
                &&& row.replace_action is Some <==> ctx.access_of().edits_arrangements()
                &&& row.replace_action is Some ==> row.replace_action->0@ == target.owner_url()
                    + "/files"@ + "/"@ + uuid_text(f.id) + "/replace?csrf="@ + token@
                &&& row.delete_action is Some <==> ctx.access_of().edits_arrangements()
                &&& row.delete_action is Some ==> row.delete_action->0@ == target.owner_url()
                    + "/files"@ + "/"@ + uuid_text(f.id) + "/delete"@
            },
        page.deleted@.len() == (if ctx.access_of().edits_arrangements() {
            deleted@.len()
        } else {
            0
        }),
        forall|i: int|
            0 <= i < page.deleted@.len() ==> {
                let (row, f) = (#[trigger] page.deleted@[i], deleted@[i]);
                &&& row.name@ == f.name@ && row.format@ == f.format@
                &&& f.deleted_at matches Some(t) ==> text_of(row.deleted) == minute_of(t.millis)
                &&& row.restore_action@ == target.owner_url() + "/files"@ + "/"@ + uuid_text(f.id)
                    + "/undelete"@
            },
        page.upload_action is Some <==> ctx.access_of().edits_arrangements(),
        page.upload_action is Some ==> page.upload_action->0@ == target.owner_url() + "/files"@
            + "?csrf="@ + token@,
        page.truncated is Some <==> total > files@.len(),
        page.back@ == target.owner_url(),
{
    let can_edit = ctx.access_of().edits_arrangements();
    assert forall|i: int| 0 <= i < files@.len() implies {
        &&& shows_file(#[trigger] page.rows@[i], files@[i], target, sizes@, can_edit, token@)
        &&& forall|j: int| #[trigger]
            sized_first(sizes@, files@[i].id, j) ==> page.rows@[i].size@ == size_text(
                sizes@[j].1 as nat,
            )
        &&& (forall|j: int| 0 <= j < sizes@.len() ==> (#[trigger] sizes@[j]).0 != files@[i].id)
            ==> page.rows@[i].size@ == "?"@
    } by {
        lemma_shown_size(sizes@, files@[i].id);
    }
    assert forall|i: int| 0 <= i < page.deleted@.len() implies shows_deleted_file(
        #[trigger] page.deleted@[i],
        deleted@[i],
        target,
    ) by {}
}

/// Downloads go to the file's own place below its arrangement, or below its
/// voice where it is a part.
pub proof fn a_file_is_downloaded_from_its_own_place(target: Target, file: Uuid)
    ensures
        target.base() == target.owner_url() + "/files"@,
        target.voice_id is None ==> target.download(file) == "/v1/orgs/"@ + uuid_text(target.org_id)
            + "/arrangements/"@ + uuid_text(target.arr_id) + "/files/"@ + uuid_text(file),
        target.voice_id matches Some(voice) ==> target.download(file) == "/v1/orgs/"@ + uuid_text(
            target.org_id,
        ) + "/arrangements/"@ + uuid_text(target.arr_id) + "/voices/"@ + uuid_text(voice)
            + "/files/"@ + uuid_text(file),
        target.voice_id is None ==> target.owner_url() == arrangement_url(
            target.org_id,
            target.arr_id,
        ),
        target.voice_id matches Some(voice) ==> target.owner_url() == arrangement_url(
            target.org_id,
            target.arr_id,
        ) + "/voices"@ + "/"@ + uuid_text(voice),
{
}

/// The files of an arrangement, or of one of its voices, are opened exactly where
/// the arrangement is one of the organization and the voice one of the
/// arrangement.
pub proof fn files_are_opened_where_they_belong(
    r: Result<Target, Reply>,
    ctx: ConsoleCtx,
    arr_id: Uuid,
    voice_id: Option<Uuid>,
    arrangement: Lookup<Arrangement>,
    voice: Lookup<Voice>,
)
    requires
        enter_target_outcome(r, ctx, arr_id, voice_id, arrangement, voice),
    ensures
        r is Ok <==> (arrangement matches Lookup::Found(a) && a.organization_id == ctx.org_of().id)
            && (voice_id
            is Some ==> (voice matches Lookup::Found(v) && v.arrangement_id == arr_id)),
        r is Ok ==> r->Ok_0.org_id == ctx.org_of().id && r->Ok_0.arr_id == arr_id
            && r->Ok_0.voice_id
            == voice_id,
        r is Err ==> r->Err_0@.status() == 404 || r->Err_0@.status() == 500,
{
}

/// Those who may edit upload to the arrangements of their organization and the
/// voices of those.
pub proof fn editors_upload_where_files_belong(
    r: Result<Target, Reply>,
    ctx: ConsoleCtx,
    arr_id: Uuid,
    voice_id: Option<Uuid>,
    arrangement: Lookup<Arrangement>,
    voice: Lookup<Voice>,
)
    requires
        plan_upload_outcome(r, ctx, arr_id, voice_id, arrangement, voice),
    ensures
        r is Ok <==> ctx.access_of().edits_arrangements() && (arrangement matches Lookup::Found(a)
            && a.organization_id == ctx.org_of().id) && (voice_id
            is Some ==> (voice matches Lookup::Found(v) && v.arrangement_id == arr_id)),
        r is Ok ==> r->Ok_0.org_id == ctx.org_of().id && r->Ok_0.arr_id == arr_id
            && r->Ok_0.voice_id
            == voice_id,
{
}

/// Those who may edit open exactly the files of the arrangement, or of the voice,
/// that they are at.
pub proof fn editors_change_the_files_of_the_target(
    r: Result<File, Reply>,
    ctx: ConsoleCtx,
    target: Target,
    found: Lookup<File>,
)
    requires
        plan_file_write_outcome(r, ctx, target, found),
    ensures
        r is Ok <==> ctx.access_of().edits_arrangements() && (found matches Lookup::Found(f)
            && f.arrangement_id == target.arr_id && f.voice_id == target.voice_id),
        r is Ok ==> found == Lookup::Found(r->Ok_0),
        !ctx.access_of().edits_arrangements() ==> r->Err_0@.status() == 403,
        ctx.access_of().edits_arrangements() && found is Missing ==> r->Err_0@.status() == 404,
        ctx.access_of().edits_arrangements() && found is Failed ==> r->Err_0@.status() == 500,
{
}

/// Staff see the files, unless they could not be listed; nobody else does.
pub proof fn staff_see_the_files(
    r: Result<FilesPage, Reply>,
    ctx: ConsoleCtx,
    target: Target,
    token: &str,
    listed: Option<(&Vec<File>, i64)>,
    deleted: Vec<File>,
    deleted_total: i64,
    sizes: Vec<(Uuid, u64)>,
)
    requires
        files_page_outcome(r, ctx, target, token, listed, deleted, deleted_total, sizes),
    ensures
        r is Ok <==> ctx.access_of().staff() && listed is Some,
        !ctx.access_of().staff() ==> r->Err_0@.status() == 403,
        ctx.access_of().staff() && listed is None ==> r->Err_0@.status() == 500,
        r is Ok ==> (r->Ok_0.deleted_truncated is Some <==> ctx.access_of().edits_arrangements()
            && deleted_total > deleted@.len()),
{
    if listed is Some {
        let (files, total) = listed->0;
    }
}

} // verus!
