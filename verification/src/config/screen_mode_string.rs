//! The screen mode as it is written in the stored document: one of its
//! tokens, in lowercase.

use vstd::prelude::*;

use crate::config::error::{refusal, refusal_text};
use crate::config::types::ScreenMode;
use crate::config::validate::{accepted_screen_modes, screen_mode_tokens};

verus! {

/// The text a screen mode is stored as.
pub fn serialize(mode: &ScreenMode) -> (token: &'static str)
    ensures
        token@ == mode.token(),
{
    mode.as_str()
}

/// Reads the stored text of a screen mode: one of the three tokens as it
/// stands. Any other text is refused, with the message that makes the
/// document invalid.
pub fn deserialize(text: &str) -> (read: Result<ScreenMode, String>)
    ensures
        match ScreenMode::of_token(text@) {
            Some(mode) => read == Ok::<ScreenMode, String>(mode),
            None => read matches Err(message) && message@ == refusal(
                "screen_mode"@,
                text@,
                screen_mode_tokens(),
            ),
        },
{
    match ScreenMode::from_token(text) {
        Some(mode) => Ok(mode),
        None => {
            let accepted = accepted_screen_modes();
            Err(refusal_text("screen_mode", text, &accepted))
        },
    }
}

/// A screen mode is read back from the text it is stored as.
pub proof fn law_stored_screen_mode_is_read_back(mode: ScreenMode)
    ensures
        ScreenMode::of_token(mode.token()) == Some(mode),
{
    crate::config::types::law_screen_mode_token_round_trip(mode);
}

} // verus!
