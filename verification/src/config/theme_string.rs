//! The theme as it is written in the stored document: one of its tokens.

use vstd::prelude::*;

use crate::config::error::{refusal, refusal_text};
use crate::config::types::Theme;
use crate::config::validate::{accepted_themes, theme_tokens};
use crate::text::lowercase_of;

verus! {

/// The text a theme is stored as.
pub fn serialize(theme: &Theme) -> (token: &'static str)
    ensures
        token@ == theme.token(),
{
    theme.as_str()
}

/// Reads the stored text of a theme, whatever the case of its letters. Any
/// other text is refused, with the message that makes the document invalid.
pub fn deserialize(text: &str) -> (read: Result<Theme, String>)
    ensures
        match Theme::of_token(lowercase_of(text@)) {
            Some(theme) => read == Ok::<Theme, String>(theme),
            None => read matches Err(message) && message@ == refusal(
                "theme"@,
                text@,
                theme_tokens(),
            ),
        },
{
    match Theme::from_str(text) {
        Some(theme) => Ok(theme),
        None => {
            let accepted = accepted_themes();
            Err(refusal_text("theme", text, &accepted))
        },
    }
}

} // verus!
