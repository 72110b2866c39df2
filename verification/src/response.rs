//! Error classification and the uniform response envelope.
//!
//! Every outcome of a request is eventually rendered as one of two fixed
//! shapes: `{success: true, data: ...}` or `{success: false, err: ...}`,
//! together with an HTTP status code. `AppError` is the closed set of
//! client-facing errors; `Failure` is the classified outcome of a persistence
//! call; `classify` is the total map from the latter to the former.

use vstd::prelude::*;

verus! {

// ---------------------------------------------------------------------------
// Client-facing error messages.
// ---------------------------------------------------------------------------

/// Message when a required field is missing.
pub open spec fn msg_required() -> Seq<char> {
    "name and email are required"@
}

/// Message when the email lacks an `@`.
pub open spec fn msg_bad_email() -> Seq<char> {
    "invalid email format"@
}

/// Message when the addressed record does not exist.
pub open spec fn msg_not_found() -> Seq<char> {
    "user not found"@
}

/// Message when the email is already taken by another record.
pub open spec fn msg_duplicate() -> Seq<char> {
    "email already registered"@
}

/// The one fixed message of every server-side failure; the underlying cause
/// is logged by the caller, never surfaced.
pub open spec fn msg_internal() -> Seq<char> {
    "internal server error"@
}

// ---------------------------------------------------------------------------
// Errors.
// ---------------------------------------------------------------------------

/// The closed set of application errors. `Invalid` is client-caused and maps
/// to status 400; `InternalError` is server-caused and maps to status 500
/// with a fixed generic message.
#[derive(Debug, Clone, PartialEq)]
pub enum AppError {
    Invalid { err: &'static str },
    InternalError,
}

/// `e` is an `Invalid` carrying exactly the message `m`.
pub open spec fn is_invalid_msg(e: AppError, m: Seq<char>) -> bool {
    match e {
        AppError::Invalid { err } => err@ == m,
        AppError::InternalError => false,
    }
}

/// Status code owed to each error kind.
pub open spec fn spec_status_code(e: AppError) -> u16 {
    match e {
        AppError::Invalid { .. } => 400,
        AppError::InternalError => 500,
    }
}

/// A classified outcome of a persistence operation.
#[derive(Debug, Clone, PartialEq)]
pub enum Failure {
    /// The addressed record does not exist.
    NotFound,
    /// A unique constraint was violated; the payload names the field.
    UniqueViolation(String),
    /// Any other failure; the payload carries the cause, for logging only.
    Other(String),
}

/// The total classification of persistence failures (authoritative mapping):
/// not-found and unique-violation are client-fixable, everything else is
/// hidden behind `InternalError`.
pub open spec fn spec_classify(f: Failure) -> AppError {
    match f {
        Failure::NotFound => AppError::Invalid { err: "user not found" },
        Failure::UniqueViolation(_) => AppError::Invalid { err: "email already registered" },
        Failure::Other(_) => AppError::InternalError,
    }
}

/// Maps a persistence failure to the application error owed to the client.
/// Total: every failure kind reaches exactly one branch.
pub fn classify(f: &Failure) -> (e: AppError)
    ensures
        e == spec_classify(*f),
        f matches Failure::NotFound ==> is_invalid_msg(e, msg_not_found()),
        f matches Failure::UniqueViolation(_) ==> is_invalid_msg(e, msg_duplicate()),
        f matches Failure::Other(_) ==> e == AppError::InternalError,
{
    match f {
        Failure::NotFound => AppError::Invalid { err: "user not found" },
        Failure::UniqueViolation(_) => AppError::Invalid { err: "email already registered" },
        Failure::Other(_) => AppError::InternalError,
    }
}

impl AppError {
    /// The HTTP status code for this error: 400 for `Invalid`, 500 for
    /// `InternalError`.
    pub fn status_code(&self) -> (c: u16)
        ensures
            c == spec_status_code(*self),
    {
        match *self {
            AppError::Invalid { .. } => 400,
            AppError::InternalError => 500,
        }
    }

    /// The error body owed to this error: `success` is false, and the message
    /// is the error's own for `Invalid` but the fixed generic one for
    /// `InternalError`, whose cause is never surfaced.
    pub fn error_response(&self) -> (m: ErrModel)
        ensures
            m.success == false,
            match *self {
                AppError::Invalid { err } => m.err@ == err@,
                AppError::InternalError => m.err@ == msg_internal(),
            },
    {
        match *self {
            AppError::Invalid { err } => ErrModel { success: false, err },
            AppError::InternalError => ErrModel { success: false, err: "internal server error" },
        }
    }
}

// ---------------------------------------------------------------------------
// Envelope shapes.
// ---------------------------------------------------------------------------

/// Body of an error response: `success` is always false and only `err` is
/// present.
#[derive(Debug, Clone, PartialEq)]
pub struct ErrModel {
    pub success: bool,
    pub err: &'static str,
}

/// Body of a successful response: `success` is always true and only `data`
/// is present.
#[derive(Debug, Clone, PartialEq)]
pub struct OkModel<T> {
    pub success: bool,
    pub data: T,
}

/// The two fixed response shapes. Exactly one of `data` / `err` exists per
/// response, by construction.
#[derive(Debug, Clone, PartialEq)]
pub enum Envelope<T> {
    Data(OkModel<T>),
    Error(ErrModel),
}

/// A complete client-facing reply: status code plus envelope.
#[derive(Debug, Clone, PartialEq)]
pub struct Reply<T> {
    pub status: u16,
    pub body: Envelope<T>,
}

/// The `success` flag mirrors the shape: true exactly on the `data` shape.
pub open spec fn envelope_well_formed<T>(b: Envelope<T>) -> bool {
    match b {
        Envelope::Data(m) => m.success == true,
        Envelope::Error(m) => m.success == false,
    }
}

/// `b` is the success shape carrying exactly `data`.
pub open spec fn envelope_ok<T>(b: Envelope<T>, data: T) -> bool {
    match b {
        Envelope::Data(m) => m.success == true && m.data == data,
        Envelope::Error(_) => false,
    }
}

/// `b` is the error shape carrying exactly the message `m`.
pub open spec fn envelope_err<T>(b: Envelope<T>, msg: Seq<char>) -> bool {
    match b {
        Envelope::Data(_) => false,
        Envelope::Error(e) => e.success == false && e.err@ == msg,
    }
}

/// `r` is the reply owed to the error `e`: the matching status code, and the
/// error shape with `e`'s message (the fixed generic one for
/// `InternalError`).
pub open spec fn reply_is_error<T>(r: Reply<T>, e: AppError) -> bool {
    &&& r.status == spec_status_code(e)
    &&& match e {
        AppError::Invalid { err } => envelope_err(r.body, err@),
        AppError::InternalError => envelope_err(r.body, msg_internal()),
    }
}

/// Which success status an operation is owed: 201 for creation, 200 for
/// everything else.
pub open spec fn spec_success_status(created: bool) -> u16 {
    if created {
        201
    } else {
        200
    }
}

/// Wraps successful data in the success shape. `created` selects the status:
/// 201 for a creation, 200 otherwise.
pub fn build_success<T>(created: bool, data: T) -> (r: Reply<T>)
    ensures
        r.status == spec_success_status(created),
        envelope_ok(r.body, data),
        envelope_well_formed(r.body),
{
    let status: u16 = if created {
        201
    } else {
        200
    };
    Reply { status, body: Envelope::Data(OkModel { success: true, data }) }
}

/// Wraps an application error in the error shape with its status code.
pub fn build_error<T>(e: &AppError) -> (r: Reply<T>)
    ensures
        reply_is_error(r, *e),
        envelope_well_formed(r.body),
{
    let status = e.status_code();
    let body = e.error_response();
    Reply { status, body: Envelope::Error(body) }
}

// ---------------------------------------------------------------------------
// The handler-level domain outcome and its rendering.
// ---------------------------------------------------------------------------

/// A handler's domain-level outcome before it is rendered: success data, a
/// client-caused rejection, or a server-side failure whose message is for
/// the log only.
#[derive(Debug, Clone, PartialEq)]
pub enum AppResponse<T> {
    Success(T),
    Invalid(&'static str),
    InternalError(&'static str),
}

impl<T> AppResponse<T> {
    /// Renders the domain outcome as the handler result type: success data
    /// keeps the success shape, `Invalid` keeps its message, and
    /// `InternalError` drops its cause (the caller logs it).
    pub fn response(self) -> (r: Result<OkModel<T>, AppError>)
        ensures
            match self {
                AppResponse::Success(data) => r == Ok::<OkModel<T>, AppError>(
                    OkModel { success: true, data },
                ),
                AppResponse::Invalid(err) => r == Err::<OkModel<T>, AppError>(
                    AppError::Invalid { err },
                ),
                AppResponse::InternalError(_) => r == Err::<OkModel<T>, AppError>(
                    AppError::InternalError,
                ),
            },
    {
        match self {
            AppResponse::Success(data) => Ok(OkModel { success: true, data }),
            AppResponse::Invalid(err) => Err(AppError::Invalid { err }),
            AppResponse::InternalError(_) => Err(AppError::InternalError),
        }
    }
}

} // verus!
