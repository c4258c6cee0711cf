//! Authentication: the data that describes a signed-in user, and the
//! session commands.

pub mod commands;
pub mod types;

pub use commands::{clear_session, get_current_user, validate_token};
pub use types::{
    AuthError, AuthErrorKind, AuthUser, LoginRequest, LoginResponse, RefreshTokenResponse,
    UserRoleType,
};
