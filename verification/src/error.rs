//! HTTP statuses, the error kinds of the API, and the structured error that
//! every failing request answers with.
use vstd::prelude::*;
use crate::ids::{Id, hex_number, hyphenated_digits, is_hyphenated_uuid, spec_parse_uuid};

verus! {

/// The HTTP statuses that the site answers with.
#[derive(Clone, Copy, PartialEq, Eq, Structural, Debug)]
pub enum HttpStatus {
    Success,
    Accepted,
    NoContent,
    SeeOther,
    BadRequest,
    Unauthorized,
    Forbidden,
    NotFound,
    InternalServerError,
}

/// The numeric code of a status.
pub open spec fn status_code(s: HttpStatus) -> u16 {
    match s {
        HttpStatus::Success => 200,
        HttpStatus::Accepted => 202,
        HttpStatus::NoContent => 204,
        HttpStatus::SeeOther => 303,
        HttpStatus::BadRequest => 400,
        HttpStatus::Unauthorized => 401,
        HttpStatus::Forbidden => 403,
        HttpStatus::NotFound => 404,
        HttpStatus::InternalServerError => 500,
    }
}

impl HttpStatus {
    /// The numeric code of the status.
    pub fn code(&self) -> (c: u16)
        ensures
            c == status_code(*self),
    {
        match self {
            HttpStatus::Success => 200,
            HttpStatus::Accepted => 202,
            HttpStatus::NoContent => 204,
            HttpStatus::SeeOther => 303,
            HttpStatus::BadRequest => 400,
            HttpStatus::Unauthorized => 401,
            HttpStatus::Forbidden => 403,
            HttpStatus::NotFound => 404,
            HttpStatus::InternalServerError => 500,
        }
    }
}

/// The kinds of errors that the API reports.
#[derive(Clone, Copy, PartialEq, Eq, Structural, Debug)]
pub enum DRError {
    DatabaseError,
    IOError,
    UuidError,
    NotFoundError,
    ForbiddenError,
    UnauthorizedError,
}

/// The status that answers each kind of error.
pub open spec fn status_of(kind: DRError) -> HttpStatus {
    match kind {
        DRError::DatabaseError => HttpStatus::InternalServerError,
        DRError::IOError => HttpStatus::InternalServerError,
        DRError::UuidError => HttpStatus::BadRequest,
        DRError::NotFoundError => HttpStatus::NotFound,
        DRError::ForbiddenError => HttpStatus::Forbidden,
        DRError::UnauthorizedError => HttpStatus::Unauthorized,
    }
}

/// An error answer: its status, its kind and a message.
#[derive(Debug, Clone)]
pub struct StructuredError {
    pub status: HttpStatus,
    pub error_type: DRError,
    pub error: String,
}

/// The result of a request handler.
pub type DRResult<T> = Result<T, StructuredError>;

impl StructuredError {
    /// Whether the status of the error is the one of its kind.
    pub open spec fn consistent(&self) -> bool {
        self.status == status_of(self.error_type)
    }

    /// The answer to a request for something that does not exist.
    pub fn not_found(msg: &str) -> (e: StructuredError)
        ensures
            e.status == HttpStatus::NotFound,
            e.error_type == DRError::NotFoundError,
            e.error@ == msg@,
            e.consistent(),
    {
        StructuredError {
            status: HttpStatus::NotFound,
            error_type: DRError::NotFoundError,
            error: String::from_str(msg),
        }
    }

    /// The answer to a failed database operation, with its message.
    pub fn database(msg: String) -> (e: StructuredError)
        ensures
            e.status == HttpStatus::InternalServerError,
            e.error_type == DRError::DatabaseError,
            e.error@ == msg@,
            e.consistent(),
    {
        StructuredError { status: HttpStatus::InternalServerError, error_type: DRError::DatabaseError, error: msg }
    }

    /// The answer to a failed file operation, with its message.
    pub fn io(msg: String) -> (e: StructuredError)
        ensures
            e.status == HttpStatus::InternalServerError,
            e.error_type == DRError::IOError,
            e.error@ == msg@,
            e.consistent(),
    {
        StructuredError { status: HttpStatus::InternalServerError, error_type: DRError::IOError, error: msg }
    }

    /// The answer to an identifier that could not be read, with the parser's message.
    pub fn uuid(msg: String) -> (e: StructuredError)
        ensures
            e.status == HttpStatus::BadRequest,
            e.error_type == DRError::UuidError,
            e.error@ == msg@,
            e.consistent(),
    {
        StructuredError { status: HttpStatus::BadRequest, error_type: DRError::UuidError, error: msg }
    }

    /// The message of the error (what its `Display` writes).
    pub fn message(&self) -> (s: String)
        ensures
            s@ == self.error@,
    {
        self.error.clone()
    }

    /// The status that answers the error.
    pub fn http_status(&self) -> (s: HttpStatus)
        ensures
            s == self.status,
    {
        self.status
    }
}

/// The answer to a request that the caller may not make: status 403, an empty message.
pub open spec fn is_forbidden(e: StructuredError) -> bool {
    e.status == HttpStatus::Forbidden && e.error_type == DRError::ForbiddenError && e.error@.len() == 0
}

/// The answer to a request that the caller may not make.
pub fn forbidden<T>() -> (r: DRResult<T>)
    ensures
        r matches Err(e) && is_forbidden(e) && e.consistent(),
{
    Err(StructuredError { status: HttpStatus::Forbidden, error_type: DRError::ForbiddenError, error: String::new() })
}

/// Reads an identifier from a request; text that is not one is a bad request
/// whose message is the parser's.
pub fn parse_id(s: &str) -> (r: DRResult<Id>)
    ensures
        match spec_parse_uuid(s@) {
            Ok(v) => r == Ok::<Id, StructuredError>(Id { value: v }),
            Err(m) => r matches Err(e) && e.status == HttpStatus::BadRequest && e.error_type == DRError::UuidError
                && e.error@ == m,
        },
        is_hyphenated_uuid(s@) ==> (r matches Ok(id) && id.value == hex_number(hyphenated_digits(s@))),
{
    match Id::parse(s) {
        Ok(id) => Ok(id),
        Err(m) => Err(StructuredError::uuid(m)),
    }
}

/// Every error built here answers with the status of its kind.
pub proof fn lemma_statuses(kind: DRError)
    ensures
        kind == DRError::UuidError ==> status_code(status_of(kind)) == 400,
        kind == DRError::ForbiddenError ==> status_code(status_of(kind)) == 403,
        kind == DRError::NotFoundError ==> status_code(status_of(kind)) == 404,
        kind == DRError::UnauthorizedError ==> status_code(status_of(kind)) == 401,
        (kind == DRError::DatabaseError || kind == DRError::IOError) ==> status_code(status_of(kind)) == 500,
{
}

} // verus!
