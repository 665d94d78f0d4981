use diesel::result::{DatabaseErrorKind, Error as DieselError};
use vstd::prelude::*;

use crate::status::Status;

verus! {

/// The closed set of failures that the API reports.
#[derive(Clone, Debug, PartialEq, Eq)]
pub enum Error {
    BadRequest(String),
    ConflictedData(String),
    InvalidData(String),
    NotFound,
    UnknownRoute(String),
    InternalError(String),
}

/// How the relational store reported a failed statement, reduced to what the
/// error taxonomy distinguishes.
#[derive(Clone, Debug, PartialEq, Eq)]
pub enum StoreFailure {
    /// No row matched a statement that expected one.
    NotFound,
    /// A unique constraint was violated; the store's message.
    UniqueViolation(String),
    /// A foreign-key constraint was violated; the store's message.
    ForeignKeyViolation(String),
    /// Any other failure; its display text.
    Other(String),
}

/// Why a JSON request body could not be read.
#[derive(Clone, Debug, PartialEq, Eq)]
pub enum JsonFailure {
    /// Reading the body failed; the reader's description.
    Io(String),
    /// The body is not valid JSON of the expected shape: the body itself and
    /// the parser's description.
    Parse { data: String, reason: String },
}

/// The numeric HTTP status of each error kind.
pub open spec fn status_code_of(e: Error) -> u16 {
    match e {
        Error::InvalidData(_) => 422,
        Error::ConflictedData(_) => 409,
        Error::BadRequest(_) => 400,
        Error::NotFound | Error::UnknownRoute(_) => 404,
        Error::InternalError(_) => 500,
    }
}

/// The quoted, escaped form in which Rust's `Debug` writes a string.
pub uninterp spec fn debug_text(s: Seq<char>) -> Seq<char>;

/// The human-readable message of each error kind.
pub open spec fn message_of(e: Error) -> Seq<char> {
    match e {
        Error::BadRequest(m) => m@,
        Error::ConflictedData(m) => "Conflicted data : "@ + m@,
        Error::InvalidData(m) => "Invalid data: "@ + m@,
        Error::NotFound => "Resource not found"@,
        Error::UnknownRoute(p) => "Unknown route: "@ + p@,
        Error::InternalError(m) => "Internal error: "@ + debug_text(m@),
    }
}

/// The error that a store failure becomes: constraint violations are
/// conflicts, a missing row is not found, anything else is internal.
pub open spec fn error_of_store_failure(f: StoreFailure) -> Error {
    match f {
        StoreFailure::NotFound => Error::NotFound,
        StoreFailure::UniqueViolation(m) => Error::ConflictedData(m),
        StoreFailure::ForeignKeyViolation(m) => Error::ConflictedData(m),
        StoreFailure::Other(m) => Error::InternalError(m),
    }
}

/// The message of the bad request that an unreadable JSON body gives.
pub open spec fn json_failure_message(f: JsonFailure) -> Seq<char> {
    match f {
        JsonFailure::Io(reason) => "Cannot process JSON: "@ + reason@,
        JsonFailure::Parse { data, reason } => "Invalid JSON format '"@ + data@ + "': "@ + reason@,
    }
}

/// Relies on `<str as Debug>::fmt`: the quoted, escaped form of a string,
/// which depends on its characters alone.
#[verifier::external_body]
fn debug_quoted(s: &String) -> (r: String)
    ensures
        r@ == debug_text(s@),
{
    format!("{:?}", s)
}

#[verifier::external_type_specification]
#[verifier::external_body]
pub struct ExDieselError(DieselError);

/// What a diesel error says, reduced to the distinctions of `StoreFailure`;
/// it depends on the error alone.
pub uninterp spec fn failure_of(e: DieselError) -> StoreFailure;

/// Relies on diesel's `result::Error`: tells apart its `NotFound` variant and
/// the unique and foreign-key violations of its `DatabaseError` variant
/// (with `DatabaseErrorInformation::message`); any other error is carried by
/// its `Display` text.
#[verifier::external_body]
fn store_failure(e: &DieselError) -> (r: StoreFailure)
    ensures
        r == failure_of(*e),
{
    match e {
        DieselError::NotFound => StoreFailure::NotFound,
        DieselError::DatabaseError(DatabaseErrorKind::UniqueViolation, info) => {
            StoreFailure::UniqueViolation(info.message().to_string())
        },
        DieselError::DatabaseError(DatabaseErrorKind::ForeignKeyViolation, info) => {
            StoreFailure::ForeignKeyViolation(info.message().to_string())
        },
        other => StoreFailure::Other(other.to_string()),
    }
}

impl Error {
    /// The HTTP status that reports this error.
    pub fn get_http_status(&self) -> (r: Status)
        ensures
            r.code == status_code_of(*self),
    {
        match self {
            Error::InvalidData(_) => Status::new(Status::UNPROCESSABLE_ENTITY),
            Error::ConflictedData(_) => Status::new(Status::CONFLICT),
            Error::BadRequest(_) => Status::new(Status::BAD_REQUEST),
            Error::NotFound | Error::UnknownRoute(_) => Status::new(Status::NOT_FOUND),
            Error::InternalError(_) => Status::new(Status::INTERNAL_SERVER_ERROR),
        }
    }

    /// The message that is shown for this error.
    pub fn message(&self) -> (r: String)
        ensures
            r@ == message_of(*self),
    {
        match self {
            Error::BadRequest(m) => m.clone(),
            Error::ConflictedData(m) => String::from_str("Conflicted data : ").concat(m.as_str()),
            Error::InvalidData(m) => String::from_str("Invalid data: ").concat(m.as_str()),
            Error::NotFound => String::from_str("Resource not found"),
            Error::UnknownRoute(p) => String::from_str("Unknown route: ").concat(p.as_str()),
            Error::InternalError(m) => {
                let quoted = debug_quoted(m);
                String::from_str("Internal error: ").concat(quoted.as_str())
            },
        }
    }

    /// The error that a failed store statement is reported as.
    pub fn from_store_failure(f: StoreFailure) -> (r: Error)
        ensures
            r == error_of_store_failure(f),
    {
        match f {
            StoreFailure::NotFound => Error::NotFound,
            StoreFailure::UniqueViolation(m) => Error::ConflictedData(m),
            StoreFailure::ForeignKeyViolation(m) => Error::ConflictedData(m),
            StoreFailure::Other(m) => Error::InternalError(m),
        }
    }

    /// The error that a diesel error is reported as: a missing row is not
    /// found, a unique or foreign-key violation is a conflict, anything else
    /// is an internal error.
    pub fn from_store(e: DieselError) -> (r: Error)
        ensures
            r == error_of_store_failure(failure_of(e)),
            r is NotFound || r is ConflictedData || r is InternalError,
    {
        let f = store_failure(&e);
        Error::from_store_failure(f)
    }

    /// The error that an unreadable JSON body is reported as: always a bad
    /// request, whose message says what went wrong.
    pub fn from_json_failure(f: JsonFailure) -> (r: Error)
        ensures
            r is BadRequest,
            r->BadRequest_0@ == json_failure_message(f),
    {
        match f {
            JsonFailure::Io(reason) => {
                Error::BadRequest(String::from_str("Cannot process JSON: ").concat(reason.as_str()))
            },
            JsonFailure::Parse { data, reason } => {
                let mut m = String::from_str("Invalid JSON format '");
                m.append(data.as_str());
                m.append("': ");
                m.append(reason.as_str());
                Error::BadRequest(m)
            },
        }
    }
}

} // verus!
