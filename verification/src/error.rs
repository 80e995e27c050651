//! The error type of the service and the HTTP answer each error gets.

use vstd::prelude::*;
use vstd::string::*;

verus! {

/// sqlx's error type, carried through unchanged.
#[verifier::external_type_specification]
#[verifier::external_body]
pub struct ExSqlxError(sqlx::Error);

/// bcrypt's error type, carried through unchanged.
#[verifier::external_type_specification]
#[verifier::external_body]
pub struct ExBcryptError(bcrypt::BcryptError);

/// jsonwebtoken's error type, carried through unchanged.
#[verifier::external_type_specification]
#[verifier::external_body]
pub struct ExJwtError(jsonwebtoken::errors::Error);

/// Everything a request can fail with.
#[derive(Debug)]
pub enum AppError {
    InternalServerError,
    TaskPanic,
    DatabaseError(sqlx::Error),
    HashError(bcrypt::BcryptError),
    InvalidCredentials,
    TokenCreationError,
    Unauthorized,
    TokenDecodeError(jsonwebtoken::errors::Error),
    KycIncomplete,
    Forbidden,
    NotFound(String),
    ProviderError(String),
    AccountAlreadyExists,
    TransactionDeclined(String),
}

/// sqlx's `Error::as_database_error` and the database error's
/// `is_unique_violation`: whether the statement broke a unique constraint.
/// Nothing is said of the answer.
#[verifier::external_body]
pub(crate) fn sqlx_unique_violation(e: &sqlx::Error) -> bool {
    match e.as_database_error() {
        Some(d) => d.is_unique_violation(),
        None => false,
    }
}

/// `e` is a provider error (answered 400) whose text is `msg`.
pub open spec fn is_provider_error(e: AppError, msg: Seq<char>) -> bool {
    e matches AppError::ProviderError(m) && m@ == msg
}

/// `r` failed with a provider error whose text is `msg`.
pub open spec fn fails_with<T>(r: Result<T, AppError>, msg: Seq<char>) -> bool {
    r matches Err(e) && is_provider_error(e, msg)
}

/// A provider error carrying the text `msg`.
pub fn provider_error(msg: &str) -> (e: AppError)
    ensures
        is_provider_error(e, msg@),
{
    AppError::ProviderError(String::from_str(msg))
}

/// The HTTP status code each error is answered with.
pub open spec fn status_of(e: AppError) -> u16 {
    match e {
        AppError::DatabaseError(_) | AppError::InternalServerError | AppError::TaskPanic
        | AppError::HashError(_) | AppError::TokenCreationError | AppError::TokenDecodeError(
            _,
        ) => 500,
        AppError::InvalidCredentials | AppError::Unauthorized => 401,
        AppError::Forbidden => 403,
        AppError::ProviderError(_) | AppError::TransactionDeclined(_) => 400,
        AppError::AccountAlreadyExists => 409,
        AppError::NotFound(_) => 404,
        AppError::KycIncomplete => 412,
    }
}

/// The text of the `error` field of the answer to each error.
pub open spec fn public_message_of(e: AppError) -> Seq<char> {
    match e {
        AppError::DatabaseError(_) | AppError::InternalServerError | AppError::TaskPanic
        | AppError::HashError(_) | AppError::TokenCreationError | AppError::TokenDecodeError(
            _,
        ) => "An internal server error occurred"@,
        AppError::InvalidCredentials => "Invalid credentials"@,
        AppError::Unauthorized => "Authentication required"@,
        AppError::Forbidden => "Forbidden"@,
        AppError::ProviderError(msg) => msg@,
        AppError::TransactionDeclined(reason) => reason@,
        AppError::AccountAlreadyExists => "Virtual account already exists"@,
        AppError::NotFound(msg) => msg@,
        AppError::KycIncomplete => "KYC profile is incomplete"@,
    }
}

impl AppError {
    /// The status code and the public error text of the answer to `self`.
    pub fn into_status_and_message(self) -> (r: (u16, String))
        ensures
            r.0 == status_of(self),
            r.1@ == public_message_of(self),
    {
        match self {
            AppError::DatabaseError(_)
            | AppError::InternalServerError
            | AppError::TaskPanic
            | AppError::HashError(_)
            | AppError::TokenCreationError
            | AppError::TokenDecodeError(_) => (
                500,
                String::from_str("An internal server error occurred"),
            ),
            AppError::InvalidCredentials => (401, String::from_str("Invalid credentials")),
            AppError::Unauthorized => (401, String::from_str("Authentication required")),
            AppError::Forbidden => (403, String::from_str("Forbidden")),
            AppError::ProviderError(msg) => (400, msg),
            AppError::TransactionDeclined(reason) => (400, reason),
            AppError::AccountAlreadyExists => (
                409,
                String::from_str("Virtual account already exists"),
            ),
            AppError::NotFound(msg) => (404, msg),
            AppError::KycIncomplete => (412, String::from_str("KYC profile is incomplete")),
        }
    }
}

} // verus!
