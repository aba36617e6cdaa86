//! The errors that the API answers with: their codes, descriptions and HTTP statuses.

use vstd::prelude::*;
use vstd::string::*;

verus! {

/// Errors of the request handlers.
#[derive(Debug, Clone, Copy, PartialEq, Eq, Structural)]
pub enum NarodenError {
    AlreadyUsedPhone,
    AlreadyUsedEmail,
    InvalidCredentials,
    MissingAuthorizationHeader,
    GeneralError,
    DatabaseError,
}

/// Result of a request handler.
pub type NarodenResult<T> = Result<T, NarodenError>;

/// The body sent for an error: its code and a description.
#[derive(Debug)]
pub struct NarodenErrorResponse {
    pub code: String,
    pub description: String,
}

/// HTTP status answered for `e`.
pub open spec fn error_status(e: NarodenError) -> u16 {
    match e {
        NarodenError::AlreadyUsedPhone => 400,
        NarodenError::AlreadyUsedEmail => 400,
        NarodenError::InvalidCredentials => 401,
        NarodenError::MissingAuthorizationHeader => 401,
        NarodenError::GeneralError => 500,
        NarodenError::DatabaseError => 500,
    }
}

/// Description sent for `e`.
pub open spec fn error_message(e: NarodenError) -> Seq<char> {
    match e {
        NarodenError::AlreadyUsedPhone => "Already used phone"@,
        NarodenError::AlreadyUsedEmail => "Already used email"@,
        NarodenError::InvalidCredentials => "Login failed"@,
        NarodenError::MissingAuthorizationHeader => "Missing authorization header"@,
        NarodenError::GeneralError => "General error"@,
        NarodenError::DatabaseError => "Database error"@,
    }
}

/// Code sent for `e`.
pub open spec fn error_code(e: NarodenError) -> Seq<char> {
    match e {
        NarodenError::AlreadyUsedPhone => "4001"@,
        NarodenError::AlreadyUsedEmail => "4002"@,
        NarodenError::DatabaseError => "1003"@,
        NarodenError::MissingAuthorizationHeader => "1002"@,
        NarodenError::InvalidCredentials => "1001"@,
        NarodenError::GeneralError => "1000"@,
    }
}

impl NarodenError {
    /// The HTTP status code of the error.
    pub fn status_code(&self) -> (status: u16)
        ensures
            status == error_status(*self),
    {
        match *self {
            NarodenError::AlreadyUsedPhone => 400,
            NarodenError::AlreadyUsedEmail => 400,
            NarodenError::InvalidCredentials => 401,
            NarodenError::MissingAuthorizationHeader => 401,
            NarodenError::GeneralError => 500,
            NarodenError::DatabaseError => 500,
        }
    }

    /// The human readable description of the error.
    pub fn message(&self) -> (m: &'static str)
        ensures
            m@ == error_message(*self),
    {
        match *self {
            NarodenError::AlreadyUsedPhone => "Already used phone",
            NarodenError::AlreadyUsedEmail => "Already used email",
            NarodenError::InvalidCredentials => "Login failed",
            NarodenError::MissingAuthorizationHeader => "Missing authorization header",
            NarodenError::GeneralError => "General error",
            NarodenError::DatabaseError => "Database error",
        }
    }

    /// The numeric code of the error, as text.
    pub fn code(&self) -> (c: &'static str)
        ensures
            c@ == error_code(*self),
    {
        match *self {
            NarodenError::AlreadyUsedPhone => "4001",
            NarodenError::AlreadyUsedEmail => "4002",
            NarodenError::DatabaseError => "1003",
            NarodenError::MissingAuthorizationHeader => "1002",
            NarodenError::InvalidCredentials => "1001",
            NarodenError::GeneralError => "1000",
        }
    }

    /// The body answered for the error.
    pub fn error_response(&self) -> (r: NarodenErrorResponse)
        ensures
            r.code@ == error_code(*self),
            r.description@ == error_message(*self),
    {
        NarodenErrorResponse {
            code: String::from_str(self.code()),
            description: String::from_str(self.message()),
        }
    }
}

/// Errors answered by the OpenAPI handlers.
#[derive(Debug, Clone, Copy, PartialEq, Eq, Structural)]
pub enum ApiError {
    GeneralError,
    InvalidCredentials,
    AlreadyUsedPhone,
    AlreadyUsedEmail,
}

/// The body of an OpenAPI error answer.
#[derive(Debug)]
pub struct ErrorResponse {
    pub code: String,
    pub description: String,
}

/// Code sent for an OpenAPI error.
pub open spec fn api_error_code(e: ApiError) -> Seq<char> {
    match e {
        ApiError::GeneralError => "1000"@,
        ApiError::InvalidCredentials => "1001"@,
        ApiError::AlreadyUsedPhone => "4001"@,
        ApiError::AlreadyUsedEmail => "4002"@,
    }
}

/// Description sent for an OpenAPI error.
pub open spec fn api_error_description(e: ApiError) -> Seq<char> {
    match e {
        ApiError::GeneralError => "General error"@,
        ApiError::InvalidCredentials => "Invalid credentials"@,
        ApiError::AlreadyUsedPhone => "Already used phone"@,
        ApiError::AlreadyUsedEmail => "Already used email"@,
    }
}

/// The body answered for an OpenAPI error.
pub fn create_error(error: ApiError) -> (r: ErrorResponse)
    ensures
        r.code@ == api_error_code(error),
        r.description@ == api_error_description(error),
{
    match error {
        ApiError::GeneralError => ErrorResponse {
            code: String::from_str("1000"),
            description: String::from_str("General error"),
        },
        ApiError::InvalidCredentials => ErrorResponse {
            code: String::from_str("1001"),
            description: String::from_str("Invalid credentials"),
        },
        ApiError::AlreadyUsedPhone => ErrorResponse {
            code: String::from_str("4001"),
            description: String::from_str("Already used phone"),
        },
        ApiError::AlreadyUsedEmail => ErrorResponse {
            code: String::from_str("4002"),
            description: String::from_str("Already used email"),
        },
    }
}

/// The handler error that an OpenAPI error stands for.
pub open spec fn api_error_kind(e: ApiError) -> NarodenError {
    match e {
        ApiError::GeneralError => NarodenError::GeneralError,
        ApiError::InvalidCredentials => NarodenError::InvalidCredentials,
        ApiError::AlreadyUsedPhone => NarodenError::AlreadyUsedPhone,
        ApiError::AlreadyUsedEmail => NarodenError::AlreadyUsedEmail,
    }
}

/// Every error has a code of its own: two different errors never share one.
pub proof fn lemma_error_codes_identify_errors(a: NarodenError, b: NarodenError)
    requires
        a != b,
    ensures
        error_code(a) != error_code(b),
{
    reveal_strlit("4001");
    reveal_strlit("4002");
    reveal_strlit("1003");
    reveal_strlit("1002");
    reveal_strlit("1001");
    reveal_strlit("1000");
    assert(error_code(a)[3] != error_code(b)[3] || error_code(a)[0] != error_code(b)[0]);
}

/// Both error schemes send the same code for the same error.
pub proof fn lemma_api_error_codes_agree(e: ApiError)
    ensures
        api_error_code(e) == error_code(api_error_kind(e)),
{
}

} // verus!
