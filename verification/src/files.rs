//! Stored files: which one a request may touch, and what can go wrong with an
//! upload or a download.

use vstd::prelude::*;
use crate::error::{invalid, AppError, ErrorView};
use crate::id::Uuid;
use crate::model::{File, Lookup};
use crate::number::{int_text, push_nat};
use crate::storage::StorageError;

verus! {

/// The file, unless it belongs to another arrangement or voice.
pub open spec fn file_of(found: Lookup<File>, arr: Uuid, voice: Option<Uuid>) -> Lookup<File> {
    match found {
        Lookup::Found(f) => if f.arrangement_id == arr && f.voice_id == voice {
            found
        } else {
            Lookup::Missing
        },
        _ => found,
    }
}

/// The file, unless it belongs to another arrangement or voice.
pub fn scoped_file(found: Lookup<File>, arr: Uuid, voice: Option<Uuid>) -> (r: Lookup<File>)
    ensures
        r == file_of(found, arr, voice),
{
    match found {
        Lookup::Found(f) => {
            let same_voice: bool = match (f.voice_id, voice) {
                (Some(a), Some(b)) => a == b,
                (None, None) => true,
                _ => false,
            };
            if f.arrangement_id == arr && same_voice {
                Lookup::Found(f)
            } else {
                Lookup::Missing
            }
        },
        Lookup::Missing => Lookup::Missing,
        Lookup::Failed => Lookup::Failed,
    }
}

/// A file of another arrangement or voice, a part asked for as a score and a
/// score asked for as a part cannot be told from ones that do not exist.
pub proof fn foreign_files_look_missing(f: File, arr: Uuid, voice: Option<Uuid>)
    ensures
        f.arrangement_id != arr || f.voice_id != voice ==> file_of(Lookup::Found(f), arr, voice)
            == Lookup::<File>::Missing,
{
}

/// Why an upload was not stored.
#[derive(Debug)]
pub enum UploadError {
    UnsupportedMime(String),
    /// The stored row names a media type that is not stored: its fault, not
    /// the caller's.
    StoredMimeUnknown(String),
    EmptyName,
    FormatMismatch { expected: String },
    Duplicate,
    NotFound,
    ReplaceTargetGone,
    TooLarge { limit: u64 },
    Db,
    Storage(String),
}

/// The error that a failed upload is answered with.
pub open spec fn upload_error_view(err: UploadError) -> ErrorView {
    match err {
        UploadError::UnsupportedMime(mime) => ErrorView::UnsupportedMediaType(
            "mime type '"@ + mime@ + "' is not a stored format"@,
        ),
        UploadError::StoredMimeUnknown(mime) => ErrorView::Internal(
            "stored file has an unrecognized mime type '"@ + mime@ + "'"@,
        ),
        UploadError::EmptyName => invalid("file"@, "missing filename"@),
        UploadError::FormatMismatch { expected } => ErrorView::Conflict(
            "a replacement must keep the original's format "@ + expected@
                + "; upload a new file instead"@,
        ),
        UploadError::Duplicate => ErrorView::Conflict(
            "a file with this name and format already exists here"@,
        ),
        UploadError::NotFound => ErrorView::NotFound,
        UploadError::ReplaceTargetGone => ErrorView::NotFound,
        UploadError::TooLarge { limit } => ErrorView::PayloadTooLarge(too_large_text(limit)),
        UploadError::Db => ErrorView::Database,
        UploadError::Storage(message) => ErrorView::Internal("object storage error: "@ + message@),
    }
}

/// What is said of an upload that is too large.
pub open spec fn too_large_text(limit: u64) -> Seq<char> {
    "upload exceeds the maximum allowed size of "@ + int_text(limit as int) + " bytes"@
}

fn too_large(limit: u64) -> (r: String)
    ensures
        r@ == too_large_text(limit),
{
    let mut out: String = "upload exceeds the maximum allowed size of ".to_owned();
    push_nat(&mut out, limit as u128);
    out.append(" bytes");
    out
}

fn around(before: &str, middle: &str, after: &str) -> (r: String)
    ensures
        r@ == before@ + middle@ + after@,
{
    let mut out: String = before.to_owned();
    out.append(middle);
    out.append(after);
    out
}

/// The error that a failed upload is answered with.
pub fn upload_error_to_app_error(err: UploadError) -> (r: AppError)
    ensures
        r@ == upload_error_view(err),
{
    match err {
        UploadError::UnsupportedMime(mime) => AppError::UnsupportedMediaType(
            around("mime type '", mime.as_str(), "' is not a stored format"),
        ),
        UploadError::StoredMimeUnknown(mime) => AppError::Internal(
            around("stored file has an unrecognized mime type '", mime.as_str(), "'"),
        ),
        UploadError::EmptyName => AppError::invalid("file", "missing filename"),
        UploadError::FormatMismatch { expected } => AppError::Conflict(
            around(
                "a replacement must keep the original's format ",
                expected.as_str(),
                "; upload a new file instead",
            ),
        ),
        UploadError::Duplicate => AppError::Conflict(
            "a file with this name and format already exists here".to_owned(),
        ),
        UploadError::NotFound => AppError::NotFound,
        UploadError::ReplaceTargetGone => AppError::NotFound,
        UploadError::TooLarge { limit } => AppError::PayloadTooLarge(too_large(limit)),
        UploadError::Db => AppError::Database,
        UploadError::Storage(message) => {
            let mut out: String = "object storage error: ".to_owned();
            out.append(message.as_str());
            AppError::Internal(out)
        },
    }
}

/// The error that a failed call of the object store is answered with.
pub open spec fn storage_error_view(err: StorageError) -> ErrorView {
    match err {
        StorageError::TooLarge { limit } => ErrorView::PayloadTooLarge(too_large_text(limit)),
        StorageError::NotFound => ErrorView::NotFound,
        StorageError::InvalidRange => ErrorView::RangeNotSatisfiable(
            "the requested Range cannot be satisfied"@,
        ),
        _ => ErrorView::Internal("object storage error: "@ + err.message_view()),
    }
}

/// The error that a failed call of the object store is answered with.
pub fn storage_error_to_app_error(err: StorageError) -> (r: AppError)
    ensures
        r@ == storage_error_view(err),
{
    match err {
        StorageError::TooLarge { limit } => AppError::PayloadTooLarge(too_large(limit)),
        StorageError::NotFound => AppError::NotFound,
        StorageError::InvalidRange => AppError::RangeNotSatisfiable(
            "the requested Range cannot be satisfied".to_owned(),
        ),
        StorageError::Upstream | StorageError::S3(_) => {
            let mut out: String = "object storage error: ".to_owned();
            out.append(err.message().as_str());
            AppError::Internal(out)
        },
    }
}

/// A bad upload is blamed on whoever sent it, a corrupt stored row never is.
pub proof fn blame_is_assigned(mime: String)
    ensures
        upload_error_view(UploadError::UnsupportedMime(mime)).status() == 415,
        upload_error_view(UploadError::StoredMimeUnknown(mime)).status() == 500,
{
}

/// The media type of an upload that does not name one.
pub open spec fn upload_mime(content_type: Option<Seq<char>>) -> Seq<char> {
    match content_type {
        Some(t) => t,
        None => "application/octet-stream"@,
    }
}

/// A part of an upload body, as far as it decides: the file name and the media
/// type that it declares.
pub struct BodyPart {
    pub file_name: Option<String>,
    pub content_type: Option<String>,
}

/// Whether `r` is what [`file_part`] owes its caller.
pub open spec fn file_part_outcome(r: Option<(String, String)>, part: BodyPart) -> bool {
    match part.file_name {
        None => r is None,
        Some(name) => r matches Some((n, t)) && n == name && t@ == upload_mime(
            crate::text::text_of(part.content_type),
        ),
    }
}

/// What to store of a body part: its file name and media type. `None` where it
/// is no file and is passed over.
pub fn file_part(part: &BodyPart) -> (r: Option<(String, String)>)
    ensures
        file_part_outcome(r, *part),
{
    match &part.file_name {
        None => None,
        Some(name) => Some(
            (
                name.clone(),
                match &part.content_type {
                    Some(t) => t.clone(),
                    None => "application/octet-stream".to_owned(),
                },
            ),
        ),
    }
}

/// What the store kept of an upload.
pub struct Stored {
    pub file: File,
    pub key: String,
    pub bytes: i64,
}

/// What is stored of a body part is the file under its own name and the media
/// type that it declares; what is no file is passed over.
pub proof fn a_file_keeps_its_name_and_type(r: Option<(String, String)>, part: BodyPart)
    requires
        file_part_outcome(r, part),
    ensures
        r is Some <==> part.file_name is Some,
        r matches Some((name, mime)) ==> name@ == part.file_name->0@,
        r matches Some((name, mime)) ==> part.content_type is Some
            ==> mime@ == part.content_type->0@,
        r matches Some((name, mime)) ==> part.content_type is None ==> mime@
            == "application/octet-stream"@,
{
}

/// A failed upload is answered with a status that fits: a bad file is blamed on
/// the sender, a clash is a conflict, what is gone is missing, and what breaks
/// here is an error of ours.
pub proof fn failed_uploads_are_answered_in_kind(err: UploadError)
    ensures
        upload_error_view(err).status() == (match err {
            UploadError::UnsupportedMime(_) => 415u16,
            UploadError::EmptyName => 400u16,
            UploadError::FormatMismatch { .. } => 409u16,
            UploadError::Duplicate => 409u16,
            UploadError::NotFound => 404u16,
            UploadError::ReplaceTargetGone => 404u16,
            UploadError::TooLarge { .. } => 413u16,
            UploadError::StoredMimeUnknown(_) => 500u16,
            UploadError::Db => 500u16,
            UploadError::Storage(_) => 500u16,
        }),
{
}

/// A failed call of the store is answered with a status that fits.
pub proof fn failed_downloads_are_answered_in_kind(err: StorageError)
    ensures
        storage_error_view(err).status() == (match err {
            StorageError::TooLarge { .. } => 413u16,
            StorageError::NotFound => 404u16,
            StorageError::InvalidRange => 416u16,
            StorageError::Upstream => 500u16,
            StorageError::S3(_) => 500u16,
        }),
{
}

} // verus!
