//! Validation of the values that reach the configuration from outside.

use vstd::prelude::*;

use crate::config::error::{ConfigError, ConfigErrorView};
use crate::config::types::{AppConfig, ScreenMode, Theme, WindowConfig};
use crate::text::{lowercase_of, texts};

verus! {

/// The theme tokens, in the order in which they are offered.
pub open spec fn theme_tokens() -> Seq<Seq<char>> {
    seq!["dark"@, "light"@, "system"@]
}

/// The screen mode tokens, in the order in which they are offered.
pub open spec fn screen_mode_tokens() -> Seq<Seq<char>> {
    seq!["normal"@, "maximized"@, "fullscreen"@]
}

/// The error for a text that is no theme.
pub open spec fn invalid_theme(input: Seq<char>) -> ConfigErrorView {
    ConfigErrorView::InvalidValue { field: "theme"@, input, accepted: theme_tokens() }
}

/// The error for a text that is no screen mode.
pub open spec fn invalid_screen_mode(input: Seq<char>) -> ConfigErrorView {
    ConfigErrorView::InvalidValue { field: "screen_mode"@, input, accepted: screen_mode_tokens() }
}

/// What is accepted as a width or a height, in words.
pub open spec fn dimension_tokens() -> Seq<Seq<char>> {
    seq!["a positive whole number"@]
}

/// The error for a width or height of zero: it names the field and the
/// offending value.
pub open spec fn invalid_dimension(field: Seq<char>) -> ConfigErrorView {
    ConfigErrorView::InvalidValue { field, input: "0"@, accepted: dimension_tokens() }
}

/// What is wrong with the size of a window, if anything: the width is
/// looked at before the height.
pub open spec fn window_refusal(window: WindowConfig) -> Option<ConfigErrorView> {
    if window.width == 0 {
        Some(invalid_dimension("width"@))
    } else if window.height == 0 {
        Some(invalid_dimension("height"@))
    } else {
        None
    }
}

/// The theme tokens, in the order in which they are offered.
pub fn accepted_themes() -> (tokens: Vec<String>)
    ensures
        texts(tokens@) == theme_tokens(),
{
    let mut tokens: Vec<String> = Vec::new();
    tokens.push(Theme::Dark.as_str().to_string());
    tokens.push(Theme::Light.as_str().to_string());
    tokens.push(Theme::System.as_str().to_string());
    assert(texts(tokens@) =~= theme_tokens());
    tokens
}

/// The screen mode tokens, in the order in which they are offered.
pub fn accepted_screen_modes() -> (tokens: Vec<String>)
    ensures
        texts(tokens@) == screen_mode_tokens(),
{
    let mut tokens: Vec<String> = Vec::new();
    tokens.push(ScreenMode::Normal.as_str().to_string());
    tokens.push(ScreenMode::Maximized.as_str().to_string());
    tokens.push(ScreenMode::Fullscreen.as_str().to_string());
    assert(texts(tokens@) =~= screen_mode_tokens());
    tokens
}

/// Accepts a theme whatever the case of its letters, and refuses any other
/// text with an error that carries the text and the accepted tokens.
pub fn validate_theme(input: &str) -> (checked: Result<Theme, ConfigError>)
    ensures
        match Theme::of_token(lowercase_of(input@)) {
            Some(theme) => checked == Ok::<Theme, ConfigError>(theme),
            None => checked matches Err(e) && e@ == invalid_theme(input@),
        },
{
    match Theme::from_str(input) {
        Some(theme) => Ok(theme),
        None => Err(
            ConfigError::InvalidValue {
                field: "theme".to_string(),
                input: input.to_string(),
                accepted: accepted_themes(),
            },
        ),
    }
}

/// Accepts a screen mode whatever the case of its letters, and refuses any
/// other text with an error that carries the text and the accepted tokens.
pub fn validate_screen_mode(input: &str) -> (checked: Result<ScreenMode, ConfigError>)
    ensures
        match ScreenMode::of_token(lowercase_of(input@)) {
            Some(mode) => checked == Ok::<ScreenMode, ConfigError>(mode),
            None => checked matches Err(e) && e@ == invalid_screen_mode(input@),
        },
{
    match ScreenMode::from_str(input) {
        Some(mode) => Ok(mode),
        None => Err(
            ConfigError::InvalidValue {
                field: "screen_mode".to_string(),
                input: input.to_string(),
                accepted: accepted_screen_modes(),
            },
        ),
    }
}

fn zero_dimension(field: &str) -> (error: ConfigError)
    ensures
        error@ == invalid_dimension(field@),
{
    let mut accepted: Vec<String> = Vec::new();
    accepted.push("a positive whole number".to_string());
    assert(texts(accepted@) =~= dimension_tokens());
    ConfigError::InvalidValue { field: field.to_string(), input: "0".to_string(), accepted }
}

/// Accepts a window whose width and height are positive, and refuses any
/// other with an error that names the field and the value.
pub fn validate_window(window: WindowConfig) -> (checked: Result<WindowConfig, ConfigError>)
    ensures
        match window_refusal(window) {
            None => checked == Ok::<WindowConfig, ConfigError>(window),
            Some(refusal) => checked matches Err(e) && e@ == refusal,
        },
        checked is Ok <==> window.valid(),
{
    if window.width == 0 {
        Err(zero_dimension("width"))
    } else if window.height == 0 {
        Err(zero_dimension("height"))
    } else {
        Ok(window)
    }
}

/// Accepts a document that may be stored, and refuses any other with the
/// error of the field that is at fault.
pub fn validate_config(config: &AppConfig) -> (checked: Result<(), ConfigError>)
    ensures
        match window_refusal(config@.window) {
            None => checked is Ok,
            Some(refusal) => checked matches Err(e) && e@ == refusal,
        },
        checked is Ok <==> config@.valid(),
{
    match validate_window(config.window) {
        Ok(_) => Ok(()),
        Err(e) => Err(e),
    }
}

/// The accepted theme tokens are the tokens of the themes: a text is read
/// as a theme exactly if it is one of them, and every theme is stored as
/// one of them.
pub proof fn law_theme_tokens_are_the_themes()
    ensures
        forall|token: Seq<char>| #[trigger]
            theme_tokens().contains(token) <==> Theme::of_token(token) is Some,
        forall|theme: Theme| theme_tokens().contains(#[trigger] theme.token()),
{
    let tokens = theme_tokens();
    assert(tokens[0] == "dark"@ && tokens[1] == "light"@ && tokens[2] == "system"@);
    assert forall|theme: Theme| tokens.contains(#[trigger] theme.token()) by {
        match theme {
            Theme::Dark => assert(tokens[0] == theme.token()),
            Theme::Light => assert(tokens[1] == theme.token()),
            Theme::System => assert(tokens[2] == theme.token()),
        }
    }
}

/// The accepted screen mode tokens are the tokens of the modes: a text is
/// read as a mode exactly if it is one of them, and every mode is stored as
/// one of them.
pub proof fn law_screen_mode_tokens_are_the_modes()
    ensures
        forall|token: Seq<char>| #[trigger]
            screen_mode_tokens().contains(token) <==> ScreenMode::of_token(token) is Some,
        forall|mode: ScreenMode| screen_mode_tokens().contains(#[trigger] mode.token()),
{
    let tokens = screen_mode_tokens();
    assert(tokens[0] == "normal"@ && tokens[1] == "maximized"@ && tokens[2] == "fullscreen"@);
    assert forall|mode: ScreenMode| tokens.contains(#[trigger] mode.token()) by {
        match mode {
            ScreenMode::Normal => assert(tokens[0] == mode.token()),
            ScreenMode::Maximized => assert(tokens[1] == mode.token()),
            ScreenMode::Fullscreen => assert(tokens[2] == mode.token()),
        }
    }
}

/// A text is accepted as a theme exactly if its lowercase form is one of
/// the three tokens; any other text is refused.
pub proof fn law_theme_is_accepted_by_its_lowercase_form(input: Seq<char>)
    ensures
        theme_tokens().contains(lowercase_of(input)) <==> Theme::of_token(lowercase_of(input))
            is Some,
{
    law_theme_tokens_are_the_themes();
}

/// A text is accepted as a screen mode exactly if its lowercase form is one
/// of the three tokens; any other text is refused.
pub proof fn law_screen_mode_is_accepted_by_its_lowercase_form(input: Seq<char>)
    ensures
        screen_mode_tokens().contains(lowercase_of(input)) <==> ScreenMode::of_token(
            lowercase_of(input),
        ) is Some,
{
    law_screen_mode_tokens_are_the_modes();
}

/// A refused theme is worded with the text as it was given and the three
/// tokens in order.
pub proof fn law_theme_refusal_wording(input: Seq<char>)
    ensures
        invalid_theme(input).message() == "Invalid value: Invalid theme: "@ + input
            + ". Must be one of: dark, light, system"@,
{
    reveal_strlit("Invalid value: Invalid theme: ");
    reveal_strlit("Invalid value: ");
    reveal_strlit("Invalid ");
    reveal_strlit("theme");
    reveal_strlit(": ");
    reveal_strlit(". Must be one of: dark, light, system");
    reveal_strlit(". Must be one of: ");
    reveal_strlit("dark");
    reveal_strlit("light");
    reveal_strlit("system");
    reveal_strlit(", ");
    reveal_with_fuel(crate::text::joined, 4);
    let tokens = theme_tokens();
    assert(tokens.drop_last() =~= seq!["dark"@, "light"@]);
    assert(tokens.drop_last().drop_last() =~= seq!["dark"@]);
    assert(crate::text::joined(tokens, ", "@) =~= "dark"@ + ", "@ + "light"@ + ", "@ + "system"@);
    assert(invalid_theme(input).message() =~= "Invalid value: Invalid theme: "@ + input
        + ". Must be one of: dark, light, system"@);
}

/// A refused width or height is worded with the field and the value.
pub proof fn law_dimension_refusal_wording(field: Seq<char>)
    ensures
        invalid_dimension(field).message() == "Invalid value: Invalid "@ + field
            + ": 0. Must be one of: a positive whole number"@,
{
    reveal_strlit("Invalid value: Invalid ");
    reveal_strlit("Invalid value: ");
    reveal_strlit("Invalid ");
    reveal_strlit(": ");
    reveal_strlit("0");
    reveal_strlit(". Must be one of: ");
    reveal_strlit(": 0. Must be one of: a positive whole number");
    reveal_strlit("a positive whole number");
    reveal_with_fuel(crate::text::joined, 2);
    assert(crate::text::joined(dimension_tokens(), ", "@) =~= "a positive whole number"@);
    assert(invalid_dimension(field).message() =~= "Invalid value: Invalid "@ + field
        + ": 0. Must be one of: a positive whole number"@);
}

/// A refused screen mode is worded with the text as it was given and the
/// three tokens in order.
pub proof fn law_screen_mode_refusal_wording(input: Seq<char>)
    ensures
        invalid_screen_mode(input).message() == "Invalid value: Invalid screen_mode: "@ + input
            + ". Must be one of: normal, maximized, fullscreen"@,
{
    reveal_strlit("Invalid value: Invalid screen_mode: ");
    reveal_strlit("Invalid value: ");
    reveal_strlit("Invalid ");
    reveal_strlit("screen_mode");
    reveal_strlit(": ");
    reveal_strlit(". Must be one of: normal, maximized, fullscreen");
    reveal_strlit(". Must be one of: ");
    reveal_strlit("normal");
    reveal_strlit("maximized");
    reveal_strlit("fullscreen");
    reveal_strlit(", ");
    reveal_with_fuel(crate::text::joined, 4);
    let tokens = screen_mode_tokens();
    assert(tokens.drop_last() =~= seq!["normal"@, "maximized"@]);
    assert(tokens.drop_last().drop_last() =~= seq!["normal"@]);
    assert(crate::text::joined(tokens, ", "@) =~= "normal"@ + ", "@ + "maximized"@ + ", "@
        + "fullscreen"@);
    assert(invalid_screen_mode(input).message() =~= "Invalid value: Invalid screen_mode: "@
        + input + ". Must be one of: normal, maximized, fullscreen"@);
}

} // verus!
