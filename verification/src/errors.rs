//! The service's error taxonomy and the envelope a caller sees for each kind.

use vstd::prelude::*;
use vstd::string::StringExecFns;

verus! {

/// Everything that can go wrong while serving a request.
///
/// The text carried by a variant is internal context for the service's own
/// log; it never reaches a caller (see [`AppError::into_response`]).
#[derive(Debug)]
pub enum AppError {
    /// The credential store could not be reached or answered with a failure.
    Database(String),
    /// A key file was missing, unreadable, or did not hold a usable key.
    KeyLoading(String),
    /// The token could not be built or signed.
    Jwt(String),
    /// The password check could not run to completion.
    PasswordVerification(String),
    /// The password hashing could not run to completion.
    PasswordHashing(String),
    /// The username or the email address is already registered.
    Conflict,
    /// Unknown user or wrong password; the two are not told apart.
    Unauthorized,
    /// The hashing algorithm itself reported a failure.
    Bcrypt(String),
}

/// Mathematical value of an [`AppError`].
pub enum ErrorView {
    Database(Seq<char>),
    KeyLoading(Seq<char>),
    Jwt(Seq<char>),
    PasswordVerification(Seq<char>),
    PasswordHashing(Seq<char>),
    Conflict,
    Unauthorized,
    Bcrypt(Seq<char>),
}

impl View for AppError {
    type V = ErrorView;

    open spec fn view(&self) -> ErrorView {
        match self {
            AppError::Database(d) => ErrorView::Database(d@),
            AppError::KeyLoading(d) => ErrorView::KeyLoading(d@),
            AppError::Jwt(d) => ErrorView::Jwt(d@),
            AppError::PasswordVerification(d) => ErrorView::PasswordVerification(d@),
            AppError::PasswordHashing(d) => ErrorView::PasswordHashing(d@),
            AppError::Conflict => ErrorView::Conflict,
            AppError::Unauthorized => ErrorView::Unauthorized,
            AppError::Bcrypt(d) => ErrorView::Bcrypt(d@),
        }
    }
}

/// HTTP status for a refused login.
pub const STATUS_UNAUTHORIZED: u16 = 401;

/// HTTP status for a registration that collides with an existing account.
pub const STATUS_CONFLICT: u16 = 409;

/// HTTP status for every failure of the service's own machinery.
pub const STATUS_INTERNAL: u16 = 500;

/// The envelope sent to a caller in place of a result.
#[derive(Debug)]
pub struct ErrorResponse {
    /// HTTP status code.
    pub status: u16,
    /// Value of the single `error` member of the body.
    pub error: String,
}

impl ErrorView {
    /// Status code that answers a request failing with this error.
    pub open spec fn status(self) -> u16 {
        match self {
            ErrorView::Conflict => STATUS_CONFLICT,
            ErrorView::Unauthorized => STATUS_UNAUTHORIZED,
            _ => STATUS_INTERNAL,
        }
    }

    /// Full description, internal context included.
    pub open spec fn message(self) -> Seq<char> {
        match self {
            ErrorView::Database(d) => "Database error: "@ + d,
            ErrorView::KeyLoading(d) => "Key loading error: "@ + d,
            ErrorView::Jwt(d) => "JWT error: "@ + d,
            ErrorView::PasswordVerification(d) => "Password verification error: "@ + d,
            ErrorView::PasswordHashing(d) => "Password hashing error: "@ + d,
            ErrorView::Conflict => "Username or email already exists"@,
            ErrorView::Unauthorized => "Invalid credentials"@,
            ErrorView::Bcrypt(d) => "Bcrypt error: "@ + d,
        }
    }

    /// What a caller is told: the description for the two errors that are the
    /// caller's own doing, one fixed sentence for everything else.
    pub open spec fn public_message(self) -> Seq<char> {
        match self {
            ErrorView::Conflict => "Username or email already exists"@,
            ErrorView::Unauthorized => "Invalid credentials"@,
            _ => "Internal server error"@,
        }
    }
}

/// What a caller sees of a failure of the service's own machinery is the
/// same whatever failed and whatever the internal context says: status 500
/// and one fixed sentence. Every error is answered with one of three status
/// codes.
pub proof fn lemma_internal_failures_look_alike(error: ErrorView)
    ensures
        error.status() == STATUS_UNAUTHORIZED || error.status() == STATUS_CONFLICT
            || error.status() == STATUS_INTERNAL,
        error.status() == STATUS_UNAUTHORIZED <==> error == ErrorView::Unauthorized,
        error.status() == STATUS_CONFLICT <==> error == ErrorView::Conflict,
        error.status() == STATUS_INTERNAL ==> error.public_message() == "Internal server error"@,
{
}

impl AppError {
    /// Status code that answers a request failing with this error.
    pub fn status_code(&self) -> (code: u16)
        ensures
            code == self@.status(),
    {
        match self {
            AppError::Conflict => STATUS_CONFLICT,
            AppError::Unauthorized => STATUS_UNAUTHORIZED,
            _ => STATUS_INTERNAL,
        }
    }

    /// Full description of the error for the service's log.
    pub fn message(&self) -> (text: String)
        ensures
            text@ == self@.message(),
    {
        match self {
            AppError::Database(d) => String::from_str("Database error: ").concat(d.as_str()),
            AppError::KeyLoading(d) => String::from_str("Key loading error: ").concat(d.as_str()),
            AppError::Jwt(d) => String::from_str("JWT error: ").concat(d.as_str()),
            AppError::PasswordVerification(d) => String::from_str(
                "Password verification error: ",
            ).concat(d.as_str()),
            AppError::PasswordHashing(d) => String::from_str("Password hashing error: ").concat(
                d.as_str(),
            ),
            AppError::Conflict => String::from_str("Username or email already exists"),
            AppError::Unauthorized => String::from_str("Invalid credentials"),
            AppError::Bcrypt(d) => String::from_str("Bcrypt error: ").concat(d.as_str()),
        }
    }

    /// What a caller is told about the error. Internal context (paths,
    /// messages of the libraries underneath) is left out.
    pub fn public_message(&self) -> (text: String)
        ensures
            text@ == self@.public_message(),
    {
        match self {
            AppError::Conflict => String::from_str("Username or email already exists"),
            AppError::Unauthorized => String::from_str("Invalid credentials"),
            _ => String::from_str("Internal server error"),
        }
    }

    /// Turns the error into the uniform envelope: its status code and the
    /// public message as the body's `error` member.
    pub fn into_response(self) -> (response: ErrorResponse)
        ensures
            response.status == self@.status(),
            response.error@ == self@.public_message(),
    {
        let status = self.status_code();
        let error = self.public_message();
        ErrorResponse { status, error }
    }
}

} // verus!
