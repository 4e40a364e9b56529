//! The errors that a request can end in, and the status each is answered with.

use vstd::prelude::*;

verus! {

/// A complaint about one field of a request.
#[derive(Debug)]
pub struct FieldError {
    pub field: String,
    pub message: String,
}

/// Why a request was not carried out.
#[derive(Debug)]
pub enum AppError {
    Validation(Vec<FieldError>),
    Unauthorized,
    Forbidden,
    NotFound,
    Conflict(String),
    PreconditionFailed,
    PayloadTooLarge(String),
    UnsupportedMediaType(String),
    RangeNotSatisfiable(String),
    Database,
    Internal(String),
}

/// An [`AppError`] as a mathematical value. A validation error is the list of
/// fields complained about, each with the complaint.
#[verifier::ext_equal]
pub enum ErrorView {
    Validation(Seq<(Seq<char>, Seq<char>)>),
    Unauthorized,
    Forbidden,
    NotFound,
    Conflict(Seq<char>),
    PreconditionFailed,
    PayloadTooLarge(Seq<char>),
    UnsupportedMediaType(Seq<char>),
    RangeNotSatisfiable(Seq<char>),
    Database,
    Internal(Seq<char>),
}

/// The complaints of a validation error.
pub open spec fn field_errors(v: Seq<FieldError>) -> Seq<(Seq<char>, Seq<char>)> {
    v.map_values(|e: FieldError| (e.field@, e.message@))
}

impl View for AppError {
    type V = ErrorView;

    open spec fn view(&self) -> ErrorView {
        match *self {
            AppError::Validation(v) => ErrorView::Validation(field_errors(v@)),
            AppError::Unauthorized => ErrorView::Unauthorized,
            AppError::Forbidden => ErrorView::Forbidden,
            AppError::NotFound => ErrorView::NotFound,
            AppError::Conflict(m) => ErrorView::Conflict(m@),
            AppError::PreconditionFailed => ErrorView::PreconditionFailed,
            AppError::PayloadTooLarge(m) => ErrorView::PayloadTooLarge(m@),
            AppError::UnsupportedMediaType(m) => ErrorView::UnsupportedMediaType(m@),
            AppError::RangeNotSatisfiable(m) => ErrorView::RangeNotSatisfiable(m@),
            AppError::Database => ErrorView::Database,
            AppError::Internal(m) => ErrorView::Internal(m@),
        }
    }
}

impl ErrorView {
    /// The HTTP status that the error is answered with.
    pub open spec fn status(self) -> u16 {
        match self {
            ErrorView::Validation(_) => 400,
            ErrorView::Unauthorized => 401,
            ErrorView::Forbidden => 403,
            ErrorView::NotFound => 404,
            ErrorView::Conflict(_) => 409,
            ErrorView::PreconditionFailed => 412,
            ErrorView::PayloadTooLarge(_) => 413,
            ErrorView::UnsupportedMediaType(_) => 415,
            ErrorView::RangeNotSatisfiable(_) => 416,
            ErrorView::Database => 500,
            ErrorView::Internal(_) => 500,
        }
    }
}

/// The error that complains about a single field.
pub open spec fn invalid(field: Seq<char>, message: Seq<char>) -> ErrorView {
    ErrorView::Validation(seq![(field, message)])
}

/// Whether `r` is the error `e`.
pub open spec fn fails<T>(r: Result<T, AppError>, e: ErrorView) -> bool {
    r is Err && r->Err_0@ == e
}

impl AppError {
    /// The HTTP status that the error is answered with.
    pub fn status(&self) -> (r: u16)
        ensures
            r == self@.status(),
    {
        match self {
            AppError::Validation(_) => 400,
            AppError::Unauthorized => 401,
            AppError::Forbidden => 403,
            AppError::NotFound => 404,
            AppError::Conflict(_) => 409,
            AppError::PreconditionFailed => 412,
            AppError::PayloadTooLarge(_) => 413,
            AppError::UnsupportedMediaType(_) => 415,
            AppError::RangeNotSatisfiable(_) => 416,
            AppError::Database => 500,
            AppError::Internal(_) => 500,
        }
    }

    /// The error that complains about a single field.
    pub fn invalid(field: &str, message: &str) -> (r: AppError)
        ensures
            r@ == invalid(field@, message@),
    {
        let mut v: Vec<FieldError> = Vec::new();
        v.push(FieldError { field: field.to_owned(), message: message.to_owned() });
        assert(field_errors(v@) == seq![(field@, message@)]);
        AppError::Validation(v)
    }
}

/// Adds a complaint about a field.
pub fn complain(v: &mut Vec<FieldError>, field: &str, message: &str)
    ensures
        field_errors(final(v)@) == field_errors(old(v)@).push((field@, message@)),
{
    v.push(FieldError { field: field.to_owned(), message: message.to_owned() });
    assert(field_errors(v@) == field_errors(old(v)@).push((field@, message@)));
}

/// Every error is answered with a client or server error status, never with
/// one that reports success.
pub proof fn errors_never_look_like_success(e: ErrorView)
    ensures
        400 <= e.status() < 600,
{
}

/// Each error has the status that HTTP has for it.
pub proof fn errors_have_their_status(m: Seq<char>, v: Seq<(Seq<char>, Seq<char>)>)
    ensures
        ErrorView::Validation(v).status() == 400,
        ErrorView::Unauthorized.status() == 401,
        ErrorView::Forbidden.status() == 403,
        ErrorView::NotFound.status() == 404,
        ErrorView::Conflict(m).status() == 409,
        ErrorView::PreconditionFailed.status() == 412,
        ErrorView::PayloadTooLarge(m).status() == 413,
        ErrorView::UnsupportedMediaType(m).status() == 415,
        ErrorView::RangeNotSatisfiable(m).status() == 416,
        ErrorView::Database.status() == 500,
        ErrorView::Internal(m).status() == 500,
{
}

} // verus!
