use desk_core::config::theme_string::{deserialize, serialize};
use desk_core::config::{
    load_default_config, validate_screen_mode, validate_theme, AppConfig, AuthConfig,
    ConfigError, ScreenMode, StartupConfig, Theme, WindowConfig,
};

#[test]
fn test_load_default_config() {
    let config = load_default_config();
    assert_eq!(config.language, "en");
}

#[test]
fn default_config_is_the_fresh_install() {
    let config = AppConfig::default();
    assert_eq!(config.language, "en");
    assert_eq!(config.theme, Theme::System);
    assert_eq!(config.theme.as_str(), "system");
    assert_eq!(config.window.width, 800);
    assert_eq!(config.window.height, 600);
    assert_eq!(config.window.x, None);
    assert_eq!(config.window.y, None);
    assert_eq!(config.window.screen_mode, ScreenMode::Normal);
    assert!(!config.startup.auto_start);
    assert!(!config.auth.remember_me_default);
    assert!(!config.auth.nfc_enabled);
    assert_eq!(load_default_config(), config);
}

#[test]
fn part_defaults() {
    assert_eq!(Theme::default(), Theme::System);
    assert_eq!(ScreenMode::default(), ScreenMode::Normal);
    assert_eq!(
        WindowConfig::default(),
        WindowConfig { width: 800, height: 600, x: None, y: None, screen_mode: ScreenMode::Normal }
    );
    assert_eq!(StartupConfig::default(), StartupConfig { auto_start: false });
    assert_eq!(AuthConfig::default(), AuthConfig { remember_me_default: false, nfc_enabled: false });
}

#[test]
fn theme_is_read_whatever_the_case() {
    assert_eq!(Theme::from_str("dark"), Some(Theme::Dark));
    assert_eq!(Theme::from_str("light"), Some(Theme::Light));
    assert_eq!(Theme::from_str("system"), Some(Theme::System));
    assert_eq!(Theme::from_str("DARK"), Some(Theme::Dark));
    assert_eq!(Theme::from_str("Light"), Some(Theme::Light));
    assert_eq!(Theme::from_str("sYsTeM"), Some(Theme::System));
}

#[test]
fn theme_refuses_everything_else() {
    assert_eq!(Theme::from_str(""), None);
    assert_eq!(Theme::from_str("neon"), None);
    assert_eq!(Theme::from_str(" dark"), None);
    assert_eq!(Theme::from_str("dark "), None);
    assert_eq!(Theme::from_str("darker"), None);
    assert_eq!(Theme::from_str("dar"), None);
    assert_eq!(Theme::from_str("normal"), None);
}

#[test]
fn theme_token_is_read_as_it_stands() {
    assert_eq!(Theme::from_token("dark"), Some(Theme::Dark));
    assert_eq!(Theme::from_token("light"), Some(Theme::Light));
    assert_eq!(Theme::from_token("system"), Some(Theme::System));
    assert_eq!(Theme::from_token("DARK"), None);
    assert_eq!(Theme::from_token("Dark"), None);
    assert_eq!(Theme::from_token(""), None);
}

#[test]
fn theme_round_trips_through_its_token() {
    for theme in [Theme::Dark, Theme::Light, Theme::System] {
        assert_eq!(Theme::from_token(theme.as_str()), Some(theme));
        assert_eq!(Theme::from_str(theme.as_str()), Some(theme));
        assert_eq!(deserialize(serialize(&theme)), Ok(theme));
    }
    assert_eq!(Theme::Dark.as_str(), "dark");
    assert_eq!(Theme::Light.as_str(), "light");
    assert_eq!(Theme::System.as_str(), "system");
}

#[test]
fn screen_mode_is_read_whatever_the_case() {
    assert_eq!(ScreenMode::from_str("normal"), Some(ScreenMode::Normal));
    assert_eq!(ScreenMode::from_str("maximized"), Some(ScreenMode::Maximized));
    assert_eq!(ScreenMode::from_str("fullscreen"), Some(ScreenMode::Fullscreen));
    assert_eq!(ScreenMode::from_str("NORMAL"), Some(ScreenMode::Normal));
    assert_eq!(ScreenMode::from_str("Maximized"), Some(ScreenMode::Maximized));
    assert_eq!(ScreenMode::from_str("FullScreen"), Some(ScreenMode::Fullscreen));
    assert_eq!(ScreenMode::from_str("windowed"), None);
    assert_eq!(ScreenMode::from_str(""), None);
    assert_eq!(ScreenMode::from_str("dark"), None);
}

#[test]
fn screen_mode_token_is_read_as_it_stands() {
    for mode in [ScreenMode::Normal, ScreenMode::Maximized, ScreenMode::Fullscreen] {
        assert_eq!(ScreenMode::from_token(mode.as_str()), Some(mode));
    }
    assert_eq!(ScreenMode::from_token("Normal"), None);
    assert_eq!(ScreenMode::Normal.as_str(), "normal");
    assert_eq!(ScreenMode::Maximized.as_str(), "maximized");
    assert_eq!(ScreenMode::Fullscreen.as_str(), "fullscreen");
}

#[test]
fn validate_theme_accepts_the_three_themes() {
    assert_eq!(validate_theme("dark"), Ok(Theme::Dark));
    assert_eq!(validate_theme("LIGHT"), Ok(Theme::Light));
    assert_eq!(validate_theme("System"), Ok(Theme::System));
}

#[test]
fn validate_theme_refuses_with_input_and_accepted_values() {
    let refused = validate_theme("neon");
    assert_eq!(
        refused,
        Err(ConfigError::InvalidValue {
            field: "theme".to_string(),
            input: "neon".to_string(),
            accepted: vec!["dark".to_string(), "light".to_string(), "system".to_string()],
        })
    );
    assert_eq!(
        refused.unwrap_err().to_string(),
        "Invalid value: Invalid theme: neon. Must be one of: dark, light, system"
    );
}

#[test]
fn validate_screen_mode_accepts_and_refuses() {
    assert_eq!(validate_screen_mode("normal"), Ok(ScreenMode::Normal));
    assert_eq!(validate_screen_mode("MAXIMIZED"), Ok(ScreenMode::Maximized));
    assert_eq!(validate_screen_mode("fullScreen"), Ok(ScreenMode::Fullscreen));
    let refused = validate_screen_mode("tiny");
    assert_eq!(
        refused,
        Err(ConfigError::InvalidValue {
            field: "screen_mode".to_string(),
            input: "tiny".to_string(),
            accepted: vec![
                "normal".to_string(),
                "maximized".to_string(),
                "fullscreen".to_string()
            ],
        })
    );
    assert_eq!(
        refused.unwrap_err().to_string(),
        "Invalid value: Invalid screen_mode: tiny. Must be one of: normal, maximized, fullscreen"
    );
}

#[test]
fn stored_theme_text_is_read_or_refused_with_the_message() {
    assert_eq!(deserialize("dark"), Ok(Theme::Dark));
    assert_eq!(deserialize("Dark"), Ok(Theme::Dark));
    assert_eq!(
        deserialize("neon"),
        Err("Invalid theme: neon. Must be one of: dark, light, system".to_string())
    );
    assert_eq!(
        deserialize(""),
        Err("Invalid theme: . Must be one of: dark, light, system".to_string())
    );
    assert_eq!(serialize(&Theme::Light), "light");
}

#[test]
fn config_clone_is_equal() {
    let mut config = AppConfig::default();
    config.language = "vi".to_string();
    config.theme = Theme::Dark;
    assert_eq!(config.clone(), config);
}

#[test]
fn case_is_folded_as_lowercasing_folds_it() {
    // The Kelvin sign lowercases to the letter k.
    assert_eq!(Theme::from_str("DAR\u{212A}"), Some(Theme::Dark));
    assert_eq!(Theme::from_token("dar\u{212A}"), None);
    // The dotted capital I lowercases to two characters, the letter i and a dot above.
    assert_eq!(Theme::from_str("L\u{130}GHT"), None);
    assert_eq!(ScreenMode::from_str("FULLSCREEN"), Some(ScreenMode::Fullscreen));
    assert_eq!(ScreenMode::from_str("\u{ff2e}ormal"), None);
}
