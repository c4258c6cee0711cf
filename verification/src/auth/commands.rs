//! The session commands. No session is kept yet: a token counts as valid
//! when it is not empty, and there is never a current user.

use vstd::prelude::*;

use crate::auth::types::AuthUser;

verus! {

/// Whether the access token is valid: it is, unless it is empty.
pub fn validate_token(token: &str) -> (valid: Result<bool, String>)
    ensures
        valid == Ok::<bool, String>(token@.len() > 0),
{
    Ok(!token.is_empty())
}

/// The user of the stored session: none.
pub fn get_current_user() -> (user: Result<Option<AuthUser>, String>)
    ensures
        user == Ok::<Option<AuthUser>, String>(None),
{
    Ok(None)
}

/// Ends the current session. It always succeeds.
pub fn clear_session() -> (cleared: Result<(), String>)
    ensures
        cleared is Ok,
{
    Ok(())
}

} // verus!
