//! Data structures of authentication.

use vstd::prelude::*;
use vstd::string::StringExecFns;

use crate::text::concat;

verus! {

/// The roles a user can have.
#[derive(Debug, Clone, Copy, PartialEq, Eq, Structural)]
pub enum UserRoleType {
    SuperAdmin,
    Admin,
    Teacher,
    Student,
}

/// A signed-in user.
#[derive(Debug, PartialEq, Eq)]
pub struct AuthUser {
    pub id: String,
    pub username: String,
    pub email: Option<String>,
    pub full_name: Option<String>,
    pub role_type: UserRoleType,
    pub avatar_url: Option<String>,
    pub permissions: Vec<String>,
    pub created_at: Option<String>,
    pub updated_at: Option<String>,
}

/// What a user submits to sign in.
#[derive(Debug, PartialEq, Eq)]
pub struct LoginRequest {
    pub username: String,
    pub password: String,
    pub remember_me: Option<bool>,
}

/// The answer to a successful sign-in.
#[derive(Debug, PartialEq, Eq)]
pub struct LoginResponse {
    pub user: AuthUser,
    pub access_token: String,
    pub refresh_token: Option<String>,
    pub expires_in: u64,
}

/// The answer to a token refresh.
#[derive(Debug, PartialEq, Eq)]
pub struct RefreshTokenResponse {
    pub access_token: String,
    pub refresh_token: Option<String>,
    pub expires_in: u64,
}

/// The kinds of authentication error.
#[derive(Debug, Clone, Copy, PartialEq, Eq, Structural)]
pub enum AuthErrorKind {
    InvalidCredentials,
    TokenExpired,
    TokenInvalid,
    UserNotFound,
    UserDisabled,
    NetworkError,
    Unknown,
}

impl AuthErrorKind {
    /// The name of the kind, as it opens an error message.
    pub open spec fn name(self) -> Seq<char> {
        match self {
            AuthErrorKind::InvalidCredentials => "InvalidCredentials"@,
            AuthErrorKind::TokenExpired => "TokenExpired"@,
            AuthErrorKind::TokenInvalid => "TokenInvalid"@,
            AuthErrorKind::UserNotFound => "UserNotFound"@,
            AuthErrorKind::UserDisabled => "UserDisabled"@,
            AuthErrorKind::NetworkError => "NetworkError"@,
            AuthErrorKind::Unknown => "Unknown"@,
        }
    }

    /// The name of the kind, as it opens an error message.
    pub fn as_str(&self) -> (name: &'static str)
        ensures
            name@ == self.name(),
    {
        match self {
            AuthErrorKind::InvalidCredentials => "InvalidCredentials",
            AuthErrorKind::TokenExpired => "TokenExpired",
            AuthErrorKind::TokenInvalid => "TokenInvalid",
            AuthErrorKind::UserNotFound => "UserNotFound",
            AuthErrorKind::UserDisabled => "UserDisabled",
            AuthErrorKind::NetworkError => "NetworkError",
            AuthErrorKind::Unknown => "Unknown",
        }
    }
}

/// An authentication error.
#[derive(Debug, PartialEq, Eq)]
pub struct AuthError {
    pub kind: AuthErrorKind,
    pub message: String,
}

impl AuthError {
    /// The error as one line: the kind's name, a colon, the message.
    pub fn to_string(&self) -> (line: String)
        ensures
            line@ == self.kind.name() + ": "@ + self.message@,
    {
        let mut line = concat(self.kind.as_str(), ": ");
        line.append(self.message.as_str());
        line
    }
}

} // verus!
