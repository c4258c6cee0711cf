//! The commands on the configuration. A getter reads one field of the
//! loaded document. A setter checks what it was given and yields the change
//! to make; the host loads the document, applies the change and saves the
//! whole document again.

use vstd::prelude::*;

use crate::config::error::ConfigError;
use crate::config::types::{AppConfig, AppConfigView, ScreenMode, Theme, WindowConfig};
use crate::config::validate::{
    invalid_screen_mode, invalid_theme, validate_screen_mode, validate_theme, validate_window,
    window_refusal,
};
use crate::text::{concat, lowercase_of};

verus! {

/// A change to one field of the configuration document.
#[derive(Debug, PartialEq, Eq)]
pub enum ConfigChange {
    Language(String),
    Theme(Theme),
    Window(WindowConfig),
    AutoStart(bool),
    RememberMeDefault(bool),
    NfcEnabled(bool),
}

pub enum ConfigChangeView {
    Language(Seq<char>),
    Theme(Theme),
    Window(WindowConfig),
    AutoStart(bool),
    RememberMeDefault(bool),
    NfcEnabled(bool),
}

impl View for ConfigChange {
    type V = ConfigChangeView;

    open spec fn view(&self) -> ConfigChangeView {
        match self {
            ConfigChange::Language(language) => ConfigChangeView::Language(language@),
            ConfigChange::Theme(theme) => ConfigChangeView::Theme(*theme),
            ConfigChange::Window(window) => ConfigChangeView::Window(*window),
            ConfigChange::AutoStart(enabled) => ConfigChangeView::AutoStart(*enabled),
            ConfigChange::RememberMeDefault(enabled) => ConfigChangeView::RememberMeDefault(
                *enabled,
            ),
            ConfigChange::NfcEnabled(enabled) => ConfigChangeView::NfcEnabled(*enabled),
        }
    }
}

impl AppConfigView {
    /// The document with the one field changed and every other field as it
    /// was.
    pub open spec fn changed(self, change: ConfigChangeView) -> AppConfigView {
        match change {
            ConfigChangeView::Language(language) => AppConfigView { language, ..self },
            ConfigChangeView::Theme(theme) => AppConfigView { theme, ..self },
            ConfigChangeView::Window(window) => AppConfigView { window, ..self },
            ConfigChangeView::AutoStart(auto_start) => AppConfigView {
                startup: crate::config::types::StartupConfig { auto_start },
                ..self
            },
            ConfigChangeView::RememberMeDefault(remember_me_default) => AppConfigView {
                auth: crate::config::types::AuthConfig { remember_me_default, ..self.auth },
                ..self
            },
            ConfigChangeView::NfcEnabled(nfc_enabled) => AppConfigView {
                auth: crate::config::types::AuthConfig { nfc_enabled, ..self.auth },
                ..self
            },
        }
    }
}

impl AppConfig {
    /// Makes the change: the one field takes its new value, every other
    /// field stays.
    pub fn apply(self, change: ConfigChange) -> (config: AppConfig)
        ensures
            config@ == self@.changed(change@),
    {
        let mut config = self;
        match change {
            ConfigChange::Language(language) => {
                config.language = language;
            },
            ConfigChange::Theme(theme) => {
                config.theme = theme;
            },
            ConfigChange::Window(window) => {
                config.window = window;
            },
            ConfigChange::AutoStart(enabled) => {
                config.startup.auto_start = enabled;
            },
            ConfigChange::RememberMeDefault(enabled) => {
                config.auth.remember_me_default = enabled;
            },
            ConfigChange::NfcEnabled(enabled) => {
                config.auth.nfc_enabled = enabled;
            },
        }
        config
    }
}

/// The outcome of saving the whole document, as a command reports it:
/// success, or the message of the error.
pub fn set_config(saved: Result<(), ConfigError>) -> (reported: Result<(), String>)
    ensures
        match saved {
            Ok(_) => reported is Ok,
            Err(e) => reported matches Err(message) && message@ == e@.message(),
        },
{
    match saved {
        Ok(_) => Ok(()),
        Err(e) => Err(e.to_string()),
    }
}

/// The language of the application.
pub fn get_app_language(config: &AppConfig) -> (language: Option<String>)
    ensures
        language matches Some(code) && code@ == config@.language,
{
    Some(config.language.clone())
}

/// The change that sets the language. Any text is a language code.
pub fn set_app_language(language: &str) -> (change: ConfigChange)
    ensures
        change@ == ConfigChangeView::Language(language@),
{
    ConfigChange::Language(language.to_string())
}

/// The theme of the application, as its token.
pub fn get_app_theme(config: &AppConfig) -> (theme: String)
    ensures
        theme@ == config@.theme.token(),
{
    config.theme.as_str().to_string()
}

/// What is to be made of a text offered as the theme: the change that sets
/// the theme it names, whatever the case of its letters, or the message
/// that refuses it.
pub open spec fn theme_change(input: Seq<char>) -> Result<ConfigChangeView, Seq<char>> {
    match Theme::of_token(lowercase_of(input)) {
        Some(theme) => Ok(ConfigChangeView::Theme(theme)),
        None => Err(invalid_theme(input).message()),
    }
}

/// The change that sets the theme, or the message that refuses the text.
pub fn set_app_theme(theme: &str) -> (change: Result<ConfigChange, String>)
    ensures
        match theme_change(theme@) {
            Ok(wanted) => change matches Ok(c) && c@ == wanted,
            Err(refusal) => change matches Err(message) && message@ == refusal,
        },
{
    match validate_theme(theme) {
        Ok(valid) => Ok(ConfigChange::Theme(valid)),
        Err(e) => Err(e.to_string()),
    }
}

/// What is to be made of a window state offered with the text `input` as
/// its mode: the change that records it, or the message that refuses it.
/// The mode is looked at first, whatever the case of its letters, then the
/// width, then the height.
pub open spec fn window_change(
    width: u32,
    height: u32,
    x: Option<i32>,
    y: Option<i32>,
    input: Seq<char>,
) -> Result<ConfigChangeView, Seq<char>> {
    match ScreenMode::of_token(lowercase_of(input)) {
        None => Err(invalid_screen_mode(input).message()),
        Some(mode) => {
            let window = WindowConfig { width, height, x, y, screen_mode: mode };
            match window_refusal(window) {
                Some(refusal) => Err(refusal.message()),
                None => Ok(ConfigChangeView::Window(window)),
            }
        },
    }
}

/// The change that records size, position and mode of the window, or the
/// message that refuses it: the mode must be one of the screen modes,
/// whatever the case of its letters, and width and height must be positive.
pub fn save_window_state(
    width: u32,
    height: u32,
    x: Option<i32>,
    y: Option<i32>,
    screen_mode: &str,
) -> (change: Result<ConfigChange, String>)
    ensures
        match window_change(width, height, x, y, screen_mode@) {
            Ok(wanted) => change matches Ok(c) && c@ == wanted,
            Err(refusal) => change matches Err(message) && message@ == refusal,
        },
        change is Ok ==> width > 0 && height > 0,
{
    let mode = match validate_screen_mode(screen_mode) {
        Ok(mode) => mode,
        Err(e) => {
            return Err(e.to_string());
        },
    };
    match validate_window(WindowConfig { width, height, x, y, screen_mode: mode }) {
        Ok(window) => Ok(ConfigChange::Window(window)),
        Err(e) => Err(e.to_string()),
    }
}

/// Size, position and mode of the window.
pub fn get_window_state(config: &AppConfig) -> (window: WindowConfig)
    ensures
        window == config@.window,
{
    config.window
}

/// The change that sets whether the application starts with the session.
pub fn set_auto_start(enabled: bool) -> (change: ConfigChange)
    ensures
        change@ == ConfigChangeView::AutoStart(enabled),
{
    ConfigChange::AutoStart(enabled)
}

/// Whether the application starts with the session.
pub fn get_auto_start(config: &AppConfig) -> (enabled: bool)
    ensures
        enabled == config@.startup.auto_start,
{
    config.startup.auto_start
}

/// The change that sets whether "remember me" is ticked at sign-in.
pub fn set_remember_me_default(enabled: bool) -> (change: ConfigChange)
    ensures
        change@ == ConfigChangeView::RememberMeDefault(enabled),
{
    ConfigChange::RememberMeDefault(enabled)
}

/// Whether "remember me" is ticked at sign-in.
pub fn get_remember_me_default(config: &AppConfig) -> (enabled: bool)
    ensures
        enabled == config@.auth.remember_me_default,
{
    config.auth.remember_me_default
}

/// The change that sets whether sign-in by NFC is offered.
pub fn set_nfc_enabled(enabled: bool) -> (change: ConfigChange)
    ensures
        change@ == ConfigChangeView::NfcEnabled(enabled),
{
    ConfigChange::NfcEnabled(enabled)
}

/// Whether sign-in by NFC is offered.
pub fn get_nfc_enabled(config: &AppConfig) -> (enabled: bool)
    ensures
        enabled == config@.auth.nfc_enabled,
{
    config.auth.nfc_enabled
}

/// A greeting for `name`.
pub fn greet(name: &str) -> (greeting: String)
    ensures
        greeting@ == "Hello, "@ + name@ + "! You've been greeted from Rust!"@,
{
    let hello = concat("Hello, ", name);
    concat(hello.as_str(), "! You've been greeted from Rust!")
}

/// A text whose lowercase form is none of the theme tokens is refused as
/// the theme: no change comes of it, so nothing of it is ever written, and
/// the message carries the text as it was given and the three tokens.
pub proof fn law_unknown_theme_is_refused(input: Seq<char>)
    ensures
        Theme::of_token(lowercase_of(input)) is None ==> theme_change(input) == Err::<
            ConfigChangeView,
            Seq<char>,
        >(
            "Invalid value: Invalid theme: "@ + input + ". Must be one of: dark, light, system"@,
        ),
        theme_change(input) is Ok ==> Theme::of_token(lowercase_of(input)) is Some,
{
    crate::config::validate::law_theme_refusal_wording(input);
}

/// A window state is refused unless its mode is one of the screen modes
/// and its width and height are positive: a zero never comes to be written.
pub proof fn law_window_change_is_valid(
    width: u32,
    height: u32,
    x: Option<i32>,
    y: Option<i32>,
    input: Seq<char>,
)
    ensures
        window_change(width, height, x, y, input) matches Ok(change) ==> change
            matches ConfigChangeView::Window(window) && window.valid() && window.width == width
            && window.height == height,
        (width == 0 || height == 0) ==> window_change(width, height, x, y, input) is Err,
        ScreenMode::of_token(lowercase_of(input)) is Some && width == 0 ==> window_change(
            width,
            height,
            x,
            y,
            input,
        ) == Err::<ConfigChangeView, Seq<char>>(
            "Invalid value: Invalid width: 0. Must be one of: a positive whole number"@,
        ),
        ScreenMode::of_token(lowercase_of(input)) is Some && width > 0 && height == 0
            ==> window_change(width, height, x, y, input) == Err::<ConfigChangeView, Seq<char>>(
            "Invalid value: Invalid height: 0. Must be one of: a positive whole number"@,
        ),
{
    crate::config::validate::law_dimension_refusal_wording("width"@);
    crate::config::validate::law_dimension_refusal_wording("height"@);
    reveal_strlit("width");
    reveal_strlit("height");
    reveal_strlit("Invalid value: Invalid ");
    reveal_strlit(": 0. Must be one of: a positive whole number");
    reveal_strlit("Invalid value: Invalid width: 0. Must be one of: a positive whole number");
    reveal_strlit("Invalid value: Invalid height: 0. Must be one of: a positive whole number");
    assert("Invalid value: Invalid "@ + "width"@
        + ": 0. Must be one of: a positive whole number"@
        =~= "Invalid value: Invalid width: 0. Must be one of: a positive whole number"@);
    assert("Invalid value: Invalid "@ + "height"@
        + ": 0. Must be one of: a positive whole number"@
        =~= "Invalid value: Invalid height: 0. Must be one of: a positive whole number"@);
}

/// A change that a setter yields keeps a valid document valid: what is
/// saved after it may be stored.
pub proof fn law_valid_change_keeps_document_valid(config: AppConfigView, change: ConfigChangeView)
    requires
        config.valid(),
        change matches ConfigChangeView::Window(window) ==> window.valid(),
    ensures
        config.changed(change).valid(),
{
}

/// A change leaves every field but its own as it was, and making the same
/// change twice is making it once.
pub proof fn law_change_touches_one_field(config: AppConfigView, change: ConfigChangeView)
    ensures
        config.changed(change).changed(change) == config.changed(change),
        !(change is Language) ==> config.changed(change).language == config.language,
        !(change is Theme) ==> config.changed(change).theme == config.theme,
        !(change is Window) ==> config.changed(change).window == config.window,
        !(change is AutoStart) ==> config.changed(change).startup == config.startup,
        !(change is RememberMeDefault) ==> config.changed(change).auth.remember_me_default
            == config.auth.remember_me_default,
        !(change is NfcEnabled) ==> config.changed(change).auth.nfc_enabled
            == config.auth.nfc_enabled,
{
}

} // verus!
