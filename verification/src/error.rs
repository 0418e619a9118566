//! The failures a request can end in, with their status codes and messages.

use vstd::prelude::*;
use vstd::string::StringExecFns;

verus! {

/// The four families of failure. Each family answers with one status code.
#[derive(Clone, Copy, Debug, PartialEq, Eq, Structural)]
pub enum ErrorKind {
    /// The request is malformed.
    Validation,
    /// The request collides with what is already stored.
    Conflict,
    /// The caller could not be authenticated.
    Auth,
    /// Something failed inside the service.
    Internal,
}

/// Every failure the service reports.
#[derive(Clone, Copy, Debug, PartialEq, Eq, Structural)]
pub enum AuthError {
    /// The e-mail address is empty or has no `@`.
    InvalidEmail,
    /// The password is shorter than six bytes.
    WeakPassword,
    /// Another user already holds the e-mail address.
    EmailTaken,
    /// Unknown e-mail address or wrong password; the two are not told apart.
    InvalidCredentials,
    /// The bearer token is missing, malformed, wrongly signed or expired.
    InvalidToken,
    /// The password could not be hashed.
    HashingFailed,
    /// The token could not be produced.
    TokenCreationFailed,
    /// Any other internal failure, such as an unreadable stored hash.
    Internal,
}

impl ErrorKind {
    pub open spec fn spec_status(self) -> u16 {
        match self {
            ErrorKind::Validation => 400,
            ErrorKind::Conflict => 409,
            ErrorKind::Auth => 401,
            ErrorKind::Internal => 500,
        }
    }

    /// The HTTP status code of this family.
    #[verifier::when_used_as_spec(spec_status)]
    pub fn status(self) -> (code: u16)
        ensures
            code == self.spec_status(),
    {
        match self {
            ErrorKind::Validation => 400,
            ErrorKind::Conflict => 409,
            ErrorKind::Auth => 401,
            ErrorKind::Internal => 500,
        }
    }
}

impl AuthError {
    pub open spec fn spec_kind(self) -> ErrorKind {
        match self {
            AuthError::InvalidEmail | AuthError::WeakPassword => ErrorKind::Validation,
            AuthError::EmailTaken => ErrorKind::Conflict,
            AuthError::InvalidCredentials | AuthError::InvalidToken => ErrorKind::Auth,
            AuthError::HashingFailed | AuthError::TokenCreationFailed | AuthError::Internal =>
                ErrorKind::Internal,
        }
    }

    /// The family this failure belongs to.
    #[verifier::when_used_as_spec(spec_kind)]
    pub fn kind(self) -> (kind: ErrorKind)
        ensures
            kind == self.spec_kind(),
    {
        match self {
            AuthError::InvalidEmail | AuthError::WeakPassword => ErrorKind::Validation,
            AuthError::EmailTaken => ErrorKind::Conflict,
            AuthError::InvalidCredentials | AuthError::InvalidToken => ErrorKind::Auth,
            AuthError::HashingFailed | AuthError::TokenCreationFailed | AuthError::Internal =>
                ErrorKind::Internal,
        }
    }

    pub open spec fn spec_status(self) -> u16 {
        self.spec_kind().spec_status()
    }

    /// The HTTP status code this failure is answered with.
    #[verifier::when_used_as_spec(spec_status)]
    pub fn status(self) -> (code: u16)
        ensures
            code == self.spec_status(),
    {
        self.kind().status()
    }

    pub open spec fn spec_message(self) -> Seq<char> {
        match self {
            AuthError::InvalidEmail => "Invalid email address"@,
            AuthError::WeakPassword => "Password must be at least 6 characters"@,
            AuthError::EmailTaken => "Email already registered"@,
            AuthError::InvalidCredentials => "Invalid email or password"@,
            AuthError::InvalidToken => "Unauthorized"@,
            AuthError::HashingFailed => "Failed to hash password"@,
            AuthError::TokenCreationFailed => "Failed to create token"@,
            AuthError::Internal => "Internal error"@,
        }
    }

    /// The text sent to the caller. It depends on the failure alone, so two
    /// requests that fail alike cannot be told apart by it.
    pub fn message(self) -> (text: String)
        ensures
            text@ == self.spec_message(),
    {
        match self {
            AuthError::InvalidEmail => String::from_str("Invalid email address"),
            AuthError::WeakPassword => String::from_str("Password must be at least 6 characters"),
            AuthError::EmailTaken => String::from_str("Email already registered"),
            AuthError::InvalidCredentials => String::from_str("Invalid email or password"),
            AuthError::InvalidToken => String::from_str("Unauthorized"),
            AuthError::HashingFailed => String::from_str("Failed to hash password"),
            AuthError::TokenCreationFailed => String::from_str("Failed to create token"),
            AuthError::Internal => String::from_str("Internal error"),
        }
    }
}

} // verus!
