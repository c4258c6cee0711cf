//! The configuration document and its parts.

use vstd::prelude::*;

use crate::text::{lowercase_of, str_eq, to_lowercase};

verus! {

/// How the window fills the screen.
#[derive(Debug, Clone, Copy, PartialEq, Eq, Structural)]
pub enum ScreenMode {
    Normal,
    Maximized,
    Fullscreen,
}

impl Default for ScreenMode {
    fn default() -> (mode: Self)
        ensures
            mode == ScreenMode::Normal,
    {
        ScreenMode::Normal
    }
}

impl ScreenMode {
    /// The token that stands for the mode in the stored document.
    pub open spec fn token(self) -> Seq<char> {
        match self {
            ScreenMode::Normal => "normal"@,
            ScreenMode::Maximized => "maximized"@,
            ScreenMode::Fullscreen => "fullscreen"@,
        }
    }

    /// The mode a token stands for, if it stands for one.
    pub open spec fn of_token(token: Seq<char>) -> Option<ScreenMode> {
        if token == "normal"@ {
            Some(ScreenMode::Normal)
        } else if token == "maximized"@ {
            Some(ScreenMode::Maximized)
        } else if token == "fullscreen"@ {
            Some(ScreenMode::Fullscreen)
        } else {
            None
        }
    }

    /// The token that stands for the mode in the stored document.
    pub fn as_str(&self) -> (token: &'static str)
        ensures
            token@ == self.token(),
    {
        match self {
            ScreenMode::Normal => "normal",
            ScreenMode::Maximized => "maximized",
            ScreenMode::Fullscreen => "fullscreen",
        }
    }

    /// Reads a token as it stands: only the three lowercase tokens are modes.
    pub fn from_token(token: &str) -> (mode: Option<Self>)
        ensures
            mode == Self::of_token(token@),
            token@ == "normal"@ ==> mode == Some(ScreenMode::Normal),
            token@ == "maximized"@ ==> mode == Some(ScreenMode::Maximized),
            token@ == "fullscreen"@ ==> mode == Some(ScreenMode::Fullscreen),
    {
        proof {
            law_screen_mode_token_round_trip(ScreenMode::Normal);
            law_screen_mode_token_round_trip(ScreenMode::Maximized);
            law_screen_mode_token_round_trip(ScreenMode::Fullscreen);
        }
        if str_eq(token, "normal") {
            Some(ScreenMode::Normal)
        } else if str_eq(token, "maximized") {
            Some(ScreenMode::Maximized)
        } else if str_eq(token, "fullscreen") {
            Some(ScreenMode::Fullscreen)
        } else {
            None
        }
    }

    /// Reads a mode whatever the case of its letters: the text is lowercased
    /// and then read as a token.
    pub fn from_str(s: &str) -> (mode: Option<Self>)
        ensures
            mode == Self::of_token(lowercase_of(s@)),
    {
        let lower = to_lowercase(s);
        Self::from_token(lower.as_str())
    }
}

/// The colour theme.
#[derive(Debug, Clone, Copy, PartialEq, Eq, Structural)]
pub enum Theme {
    Dark,
    Light,
    System,
}

impl Default for Theme {
    fn default() -> (theme: Self)
        ensures
            theme == Theme::System,
    {
        Theme::System
    }
}

impl Theme {
    /// The token that stands for the theme in the stored document.
    pub open spec fn token(self) -> Seq<char> {
        match self {
            Theme::Dark => "dark"@,
            Theme::Light => "light"@,
            Theme::System => "system"@,
        }
    }

    /// The theme a token stands for, if it stands for one.
    pub open spec fn of_token(token: Seq<char>) -> Option<Theme> {
        if token == "dark"@ {
            Some(Theme::Dark)
        } else if token == "light"@ {
            Some(Theme::Light)
        } else if token == "system"@ {
            Some(Theme::System)
        } else {
            None
        }
    }

    /// Reads a token as it stands: only the three lowercase tokens are themes.
    pub fn from_token(token: &str) -> (theme: Option<Self>)
        ensures
            theme == Self::of_token(token@),
            token@ == "dark"@ ==> theme == Some(Theme::Dark),
            token@ == "light"@ ==> theme == Some(Theme::Light),
            token@ == "system"@ ==> theme == Some(Theme::System),
    {
        proof {
            law_theme_token_round_trip(Theme::Dark);
            law_theme_token_round_trip(Theme::Light);
            law_theme_token_round_trip(Theme::System);
        }
        if str_eq(token, "dark") {
            Some(Theme::Dark)
        } else if str_eq(token, "light") {
            Some(Theme::Light)
        } else if str_eq(token, "system") {
            Some(Theme::System)
        } else {
            None
        }
    }

    /// Reads a theme whatever the case of its letters: the text is lowercased
    /// and then read as a token.
    pub fn from_str(s: &str) -> (theme: Option<Self>)
        ensures
            theme == Self::of_token(lowercase_of(s@)),
    {
        let lower = to_lowercase(s);
        Self::from_token(lower.as_str())
    }

    /// The token that stands for the theme in the stored document.
    pub fn as_str(&self) -> (token: &'static str)
        ensures
            token@ == self.token(),
    {
        match self {
            Theme::Dark => "dark",
            Theme::Light => "light",
            Theme::System => "system",
        }
    }
}

/// No two themes share a token, so a theme is read back from its own token.
pub proof fn law_theme_token_round_trip(theme: Theme)
    ensures
        Theme::of_token(theme.token()) == Some(theme),
{
    reveal_strlit("dark");
    reveal_strlit("light");
    reveal_strlit("system");
    assert("dark"@.len() == 4 && "light"@.len() == 5 && "system"@.len() == 6);
}

/// A token is read as a theme only if it is that theme's token.
pub proof fn law_theme_of_token_is_exact(token: Seq<char>, theme: Theme)
    ensures
        Theme::of_token(token) == Some(theme) <==> token == theme.token(),
{
    law_theme_token_round_trip(theme);
}

/// No two screen modes share a token, so a mode is read back from its own
/// token.
pub proof fn law_screen_mode_token_round_trip(mode: ScreenMode)
    ensures
        ScreenMode::of_token(mode.token()) == Some(mode),
{
    reveal_strlit("normal");
    reveal_strlit("maximized");
    reveal_strlit("fullscreen");
    assert("normal"@.len() == 6 && "maximized"@.len() == 9 && "fullscreen"@.len() == 10);
}

/// A token is read as a screen mode only if it is that mode's token.
pub proof fn law_screen_mode_of_token_is_exact(token: Seq<char>, mode: ScreenMode)
    ensures
        ScreenMode::of_token(token) == Some(mode) <==> token == mode.token(),
{
    law_screen_mode_token_round_trip(mode);
}

/// Size, position and mode of the main window.
#[derive(Debug, Clone, Copy, PartialEq, Eq, Structural)]
pub struct WindowConfig {
    pub width: u32,
    pub height: u32,
    pub x: Option<i32>,
    pub y: Option<i32>,
    pub screen_mode: ScreenMode,
}

impl WindowConfig {
    /// Width and height are positive.
    pub open spec fn valid(self) -> bool {
        self.width > 0 && self.height > 0
    }

    /// The window a new installation starts with.
    pub open spec fn default_value() -> WindowConfig {
        WindowConfig { width: 800, height: 600, x: None, y: None, screen_mode: ScreenMode::Normal }
    }
}

impl Default for WindowConfig {
    fn default() -> (window: Self)
        ensures
            window == WindowConfig::default_value(),
    {
        WindowConfig { width: 800, height: 600, x: None, y: None, screen_mode: ScreenMode::Normal }
    }
}

/// Sign-in preferences.
#[derive(Debug, Clone, Copy, PartialEq, Eq, Structural)]
pub struct AuthConfig {
    pub remember_me_default: bool,
    pub nfc_enabled: bool,
}

impl Default for AuthConfig {
    fn default() -> (auth: Self)
        ensures
            auth == (AuthConfig { remember_me_default: false, nfc_enabled: false }),
    {
        AuthConfig { remember_me_default: false, nfc_enabled: false }
    }
}

/// Start-up preferences.
#[derive(Debug, Clone, Copy, PartialEq, Eq, Structural)]
pub struct StartupConfig {
    pub auto_start: bool,
}

impl Default for StartupConfig {
    fn default() -> (startup: Self)
        ensures
            startup == (StartupConfig { auto_start: false }),
    {
        StartupConfig { auto_start: false }
    }
}

/// The whole configuration document.
#[derive(Debug, PartialEq, Eq)]
pub struct AppConfig {
    /// Language code, such as "en" or "vi".
    pub language: String,
    pub theme: Theme,
    pub window: WindowConfig,
    pub startup: StartupConfig,
    pub auth: AuthConfig,
}

pub struct AppConfigView {
    pub language: Seq<char>,
    pub theme: Theme,
    pub window: WindowConfig,
    pub startup: StartupConfig,
    pub auth: AuthConfig,
}

impl View for AppConfig {
    type V = AppConfigView;

    open spec fn view(&self) -> AppConfigView {
        AppConfigView {
            language: self.language@,
            theme: self.theme,
            window: self.window,
            startup: self.startup,
            auth: self.auth,
        }
    }
}

impl AppConfigView {
    /// Every field holds a value that may be stored. Language, theme, mode
    /// and the flags are so by their types; of the window, width and height
    /// must be positive.
    pub open spec fn valid(self) -> bool {
        self.window.valid()
    }

    /// The document a new installation starts with.
    pub open spec fn default_value() -> AppConfigView {
        AppConfigView {
            language: "en"@,
            theme: Theme::System,
            window: WindowConfig::default_value(),
            startup: StartupConfig { auto_start: false },
            auth: AuthConfig { remember_me_default: false, nfc_enabled: false },
        }
    }
}

impl Default for AppConfig {
    fn default() -> (config: Self)
        ensures
            config@ == AppConfigView::default_value(),
    {
        AppConfig {
            language: "en".to_string(),
            theme: Theme::System,
            window: WindowConfig::default(),
            startup: StartupConfig::default(),
            auth: AuthConfig::default(),
        }
    }
}

impl Clone for AppConfig {
    fn clone(&self) -> (copy: Self)
        ensures
            copy@ == self@,
    {
        AppConfig {
            language: self.language.clone(),
            theme: self.theme,
            window: self.window,
            startup: self.startup,
            auth: self.auth,
        }
    }
}

} // verus!
