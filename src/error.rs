//! The closed set of failure kinds that the query engine reports, and the
//! translation of store and I/O failures into them.

use vstd::prelude::*;

verus! {

/// The kind of a failure surfaced to callers.
#[derive(Debug, Clone, Copy, PartialEq, Eq, Structural)]
pub enum AppErrorType {
    /// The store reported a failure, or a stored document could not be decoded.
    DbError,
    /// A lookup by exact key matched no record.
    NotFoundError,
    /// A caller-supplied argument failed validation.
    InvalidField,
    /// Reading an external resource failed.
    IOError,
}

/// A classified failure: a kind, an optional user-facing message, and an
/// optional internal diagnostic.
#[derive(Debug, Clone)]
pub struct AppError {
    pub message: Option<String>,
    pub cause: Option<String>,
    pub error_type: AppErrorType,
}

/// The message shown when none is set on a `NotFoundError`.
pub open spec fn not_found_text() -> Seq<char> {
    "The requested item was not found"@
}

/// The message shown when none is set on an `InvalidField` error.
pub open spec fn invalid_field_text() -> Seq<char> {
    "Invalid field value provided"@
}

/// The message shown when none is set on any other kind.
pub open spec fn unexpected_text() -> Seq<char> {
    "An unexpected error has occurred"@
}

/// The default message of a kind.
pub open spec fn default_message(kind: AppErrorType) -> Seq<char> {
    match kind {
        AppErrorType::NotFoundError => not_found_text(),
        AppErrorType::InvalidField => invalid_field_text(),
        _ => unexpected_text(),
    }
}

/// The message that a caller sees: the one that is set, else the kind's default.
/// The internal cause never enters it.
pub open spec fn resolved_message(e: AppError) -> Seq<char> {
    match e.message {
        Some(m) => m@,
        None => default_message(e.error_type),
    }
}

/// An error of the given kind with no message and the given diagnostic.
pub open spec fn is_classified(e: AppError, kind: AppErrorType) -> bool {
    &&& e.error_type == kind
    &&& e.message is None
    &&& e.cause is Some
}

/// The failure to decode a stored document: a `DbError` with no message and
/// a fixed diagnostic.
pub open spec fn is_decode_failure(e: AppError) -> bool {
    &&& is_classified(e, AppErrorType::DbError)
    &&& e.cause->Some_0@ == "document does not have the shape of a recipe"@
}

impl AppError {
    /// The message to show to a caller.
    pub fn message(&self) -> (r: String)
        ensures
            r@ == resolved_message(*self),
    {
        match &self.message {
            Some(m) => m.clone(),
            None => match self.error_type {
                AppErrorType::NotFoundError => String::from_str("The requested item was not found"),
                AppErrorType::InvalidField => String::from_str("Invalid field value provided"),
                _ => String::from_str("An unexpected error has occurred"),
            },
        }
    }

    /// An exact copy of this error.
    pub fn duplicate(&self) -> (r: AppError)
        ensures
            r == *self,
    {
        let message = match &self.message {
            Some(m) => Some(m.clone()),
            None => None,
        };
        let cause = match &self.cause {
            Some(c) => Some(c.clone()),
            None => None,
        };
        AppError { message, cause, error_type: self.error_type }
    }

    /// A lookup by exact key found nothing.
    pub fn not_found() -> (r: AppError)
        ensures
            r.error_type == AppErrorType::NotFoundError,
            r.message is None,
            r.cause is None,
    {
        AppError { message: None, cause: None, error_type: AppErrorType::NotFoundError }
    }

    /// A document read from the store does not have the shape of a recipe.
    pub fn undecodable() -> (r: AppError)
        ensures
            is_decode_failure(r),
    {
        AppError {
            message: None,
            cause: Some(String::from_str("document does not have the shape of a recipe")),
            error_type: AppErrorType::DbError,
        }
    }

    /// A failure reported by the store driver: classified as `DbError`, with
    /// the driver's text as the diagnostic.
    pub fn from_db_error(e: mongodb::error::Error) -> (r: AppError)
        ensures
            is_classified(r, AppErrorType::DbError),
            r.cause matches Some(c) && vstd::string::to_string_from_display_ensures::<
                mongodb::error::Error,
            >(&e, c),
    {
        AppError { message: None, cause: Some(e.to_string()), error_type: AppErrorType::DbError }
    }

    /// A failure reading an external resource: classified as `IOError`, with
    /// the error's text as the diagnostic.
    pub fn from_io_error(e: std::io::Error) -> (r: AppError)
        ensures
            is_classified(r, AppErrorType::IOError),
            r.cause matches Some(c) && vstd::string::to_string_from_display_ensures::<
                std::io::Error,
            >(&e, c),
    {
        AppError { message: None, cause: Some(e.to_string()), error_type: AppErrorType::IOError }
    }
}

/// The store driver's error type, carried through opaquely.
#[verifier::external_type_specification]
#[verifier::external_body]
pub struct ExDbError(mongodb::error::Error);

/// The store driver's error kind, carried through opaquely. It is declared
/// because the driver error's `Deref` impl targets `Arc<ErrorKind>`, and
/// Verus refuses the error type while that impl names an undeclared type.
#[verifier::external_type_specification]
#[verifier::external_body]
pub struct ExDbErrorKind(mongodb::error::ErrorKind);


/// std's I/O error type, carried through opaquely.
#[verifier::external_type_specification]
#[verifier::external_body]
pub struct ExIoError(std::io::Error);

} // verus!
