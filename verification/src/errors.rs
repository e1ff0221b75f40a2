use crate::decimal::IntErrorKind;
use vstd::prelude::*;

verus! {

/// Every failure a request can end in. Each variant carries the text that is
/// shown to the client.
#[derive(Debug)]
pub enum AppError {
    /// The datastore refused or failed an operation.
    DbError(String),
    /// A token could not be signed or did not verify.
    JwtError(String),
    /// The request body broke a validation rule.
    ValidationError(String),
    /// The addressed record does not exist.
    NotFound(String),
    /// The caller is not authenticated.
    Unauthorized(String),
    /// Something failed on the server side.
    InternalError(String),
    /// A value in the request could not be parsed.
    ParseError(String),
    /// The request conflicts with the stored state.
    Conflict(String),
    /// The caller may not do this.
    Forbidden(String),
    /// The request took too long.
    Timeout(String),
    /// The request is malformed.
    BadRequest(String),
    /// The service cannot answer right now.
    ServiceUnavailable(String),
}

/// The variants of [`AppError`], without their text.
#[derive(Debug, Clone, Copy, PartialEq, Eq, Structural)]
pub enum ErrorKind {
    DbError,
    JwtError,
    ValidationError,
    NotFound,
    Unauthorized,
    InternalError,
    ParseError,
    Conflict,
    Forbidden,
    Timeout,
    BadRequest,
    ServiceUnavailable,
}

/// The body of an error reply: `code` repeats the HTTP status, `data` is empty.
#[derive(Debug)]
pub struct ErrorResponse {
    pub code: i32,
    pub message: String,
}

/// The HTTP status that answers an error of the given kind.
pub open spec fn status_of(kind: ErrorKind) -> int {
    match kind {
        ErrorKind::DbError | ErrorKind::InternalError => 500,
        ErrorKind::ValidationError | ErrorKind::ParseError | ErrorKind::BadRequest => 400,
        ErrorKind::NotFound => 404,
        ErrorKind::Unauthorized | ErrorKind::JwtError => 401,
        ErrorKind::Conflict => 409,
        ErrorKind::Forbidden => 403,
        ErrorKind::Timeout => 408,
        ErrorKind::ServiceUnavailable => 503,
    }
}

impl View for AppError {
    type V = (ErrorKind, Seq<char>);

    /// An error is its variant and its text.
    open spec fn view(&self) -> (ErrorKind, Seq<char>) {
        (self.kind_of(), self.text())
    }
}

impl AppError {
    /// The variant of the error.
    pub open spec fn kind_of(self) -> ErrorKind {
        match self {
            AppError::DbError(_) => ErrorKind::DbError,
            AppError::JwtError(_) => ErrorKind::JwtError,
            AppError::ValidationError(_) => ErrorKind::ValidationError,
            AppError::NotFound(_) => ErrorKind::NotFound,
            AppError::Unauthorized(_) => ErrorKind::Unauthorized,
            AppError::InternalError(_) => ErrorKind::InternalError,
            AppError::ParseError(_) => ErrorKind::ParseError,
            AppError::Conflict(_) => ErrorKind::Conflict,
            AppError::Forbidden(_) => ErrorKind::Forbidden,
            AppError::Timeout(_) => ErrorKind::Timeout,
            AppError::BadRequest(_) => ErrorKind::BadRequest,
            AppError::ServiceUnavailable(_) => ErrorKind::ServiceUnavailable,
        }
    }

    /// The text carried by the error, whatever its variant.
    pub open spec fn text(self) -> Seq<char> {
        match self {
            AppError::DbError(m) => m@,
            AppError::JwtError(m) => m@,
            AppError::ValidationError(m) => m@,
            AppError::NotFound(m) => m@,
            AppError::Unauthorized(m) => m@,
            AppError::InternalError(m) => m@,
            AppError::ParseError(m) => m@,
            AppError::Conflict(m) => m@,
            AppError::Forbidden(m) => m@,
            AppError::Timeout(m) => m@,
            AppError::BadRequest(m) => m@,
            AppError::ServiceUnavailable(m) => m@,
        }
    }

    /// The HTTP status that each variant maps to.
    pub open spec fn status(self) -> int {
        status_of(self.kind_of())
    }

    /// The variant of this error.
    pub fn kind(&self) -> (k: ErrorKind)
        ensures
            k == self.kind_of(),
    {
        match self {
            AppError::DbError(_) => ErrorKind::DbError,
            AppError::JwtError(_) => ErrorKind::JwtError,
            AppError::ValidationError(_) => ErrorKind::ValidationError,
            AppError::NotFound(_) => ErrorKind::NotFound,
            AppError::Unauthorized(_) => ErrorKind::Unauthorized,
            AppError::InternalError(_) => ErrorKind::InternalError,
            AppError::ParseError(_) => ErrorKind::ParseError,
            AppError::Conflict(_) => ErrorKind::Conflict,
            AppError::Forbidden(_) => ErrorKind::Forbidden,
            AppError::Timeout(_) => ErrorKind::Timeout,
            AppError::BadRequest(_) => ErrorKind::BadRequest,
            AppError::ServiceUnavailable(_) => ErrorKind::ServiceUnavailable,
        }
    }

    /// The error for a number that could not be read: a parse error with
    /// the reading's own words.
    pub fn from_int_error(kind: IntErrorKind) -> (e: AppError)
        ensures
            e@ == (ErrorKind::ParseError, kind.describe()),
    {
        AppError::ParseError(kind.message().to_owned())
    }

    /// The HTTP status of this error.
    pub fn status_code(&self) -> (code: u16)
        ensures
            code == self.status(),
    {
        match self {
            AppError::DbError(_) | AppError::InternalError(_) => 500,
            AppError::ValidationError(_) | AppError::ParseError(_) | AppError::BadRequest(_) => 400,
            AppError::NotFound(_) => 404,
            AppError::Unauthorized(_) | AppError::JwtError(_) => 401,
            AppError::Conflict(_) => 409,
            AppError::Forbidden(_) => 403,
            AppError::Timeout(_) => 408,
            AppError::ServiceUnavailable(_) => 503,
        }
    }

    /// The text shown for this error.
    pub fn message(&self) -> (m: String)
        ensures
            m@ == self.text(),
    {
        match self {
            AppError::DbError(m)
            | AppError::JwtError(m)
            | AppError::ValidationError(m)
            | AppError::NotFound(m)
            | AppError::Unauthorized(m)
            | AppError::InternalError(m)
            | AppError::ParseError(m)
            | AppError::Conflict(m)
            | AppError::Forbidden(m)
            | AppError::Timeout(m)
            | AppError::BadRequest(m)
            | AppError::ServiceUnavailable(m) => m.clone(),
        }
    }

    /// The reply body for this error: its status as `code`, its text as `message`.
    pub fn error_response(&self) -> (body: ErrorResponse)
        ensures
            body.code == self.status(),
            body.message@ == self.text(),
    {
        let status: u16 = self.status_code();
        ErrorResponse { code: status as i32, message: self.message() }
    }
}

} // verus!
