use desk_core::config::{
    get_app_language, get_app_theme, get_auto_start, get_nfc_enabled, get_remember_me_default,
    get_window_state, greet, save_window_state, set_app_language, set_app_theme, set_auto_start,
    set_nfc_enabled, set_remember_me_default, AppConfig, ConfigChange, ScreenMode, Theme,
    WindowConfig,
};

#[test]
fn getters_read_the_fields() {
    let mut config = AppConfig::default();
    assert_eq!(get_app_language(&config), Some("en".to_string()));
    assert_eq!(get_app_theme(&config), "system");
    assert_eq!(get_window_state(&config), WindowConfig::default());
    assert!(!get_auto_start(&config));
    assert!(!get_remember_me_default(&config));
    assert!(!get_nfc_enabled(&config));
    config.language = "vi".to_string();
    config.theme = Theme::Light;
    config.startup.auto_start = true;
    config.auth.nfc_enabled = true;
    assert_eq!(get_app_language(&config), Some("vi".to_string()));
    assert_eq!(get_app_theme(&config), "light");
    assert!(get_auto_start(&config));
    assert!(get_nfc_enabled(&config));
    assert!(!get_remember_me_default(&config));
}

#[test]
fn setters_yield_the_change() {
    assert_eq!(set_app_language("vi"), ConfigChange::Language("vi".to_string()));
    assert_eq!(set_app_theme("DARK"), Ok(ConfigChange::Theme(Theme::Dark)));
    assert_eq!(set_auto_start(true), ConfigChange::AutoStart(true));
    assert_eq!(set_remember_me_default(true), ConfigChange::RememberMeDefault(true));
    assert_eq!(set_nfc_enabled(false), ConfigChange::NfcEnabled(false));
    assert_eq!(
        save_window_state(1280, 720, Some(10), None, "Maximized"),
        Ok(ConfigChange::Window(WindowConfig {
            width: 1280,
            height: 720,
            x: Some(10),
            y: None,
            screen_mode: ScreenMode::Maximized,
        }))
    );
}

#[test]
fn setters_refuse_what_is_not_valid() {
    assert_eq!(
        set_app_theme("neon"),
        Err("Invalid value: Invalid theme: neon. Must be one of: dark, light, system".to_string())
    );
    assert_eq!(
        save_window_state(1, 2, None, None, "huge"),
        Err("Invalid value: Invalid screen_mode: huge. Must be one of: normal, maximized, fullscreen"
            .to_string())
    );
}

#[test]
fn a_window_without_size_is_refused() {
    let width = "Invalid value: Invalid width: 0. Must be one of: a positive whole number";
    let height = "Invalid value: Invalid height: 0. Must be one of: a positive whole number";
    assert_eq!(save_window_state(0, 600, None, None, "normal"), Err(width.to_string()));
    assert_eq!(save_window_state(800, 0, Some(1), Some(2), "Maximized"), Err(height.to_string()));
    assert_eq!(save_window_state(0, 0, None, None, "fullscreen"), Err(width.to_string()));
    // The mode is looked at first.
    assert_eq!(
        save_window_state(0, 0, None, None, "huge"),
        Err("Invalid value: Invalid screen_mode: huge. Must be one of: normal, maximized, fullscreen"
            .to_string())
    );
    assert_eq!(
        save_window_state(1, 1, None, None, "normal"),
        Ok(ConfigChange::Window(WindowConfig {
            width: 1,
            height: 1,
            x: None,
            y: None,
            screen_mode: ScreenMode::Normal,
        }))
    );
    assert_eq!(
        save_window_state(u32::MAX, u32::MAX, None, None, "normal"),
        Ok(ConfigChange::Window(WindowConfig {
            width: u32::MAX,
            height: u32::MAX,
            x: None,
            y: None,
            screen_mode: ScreenMode::Normal,
        }))
    );
}

#[test]
fn a_change_touches_one_field() {
    let base = AppConfig::default();
    let changed = base.clone().apply(set_app_language("vi"));
    assert_eq!(changed.language, "vi");
    assert_eq!(changed.theme, base.theme);
    assert_eq!(changed.window, base.window);
    assert_eq!(changed.startup, base.startup);
    assert_eq!(changed.auth, base.auth);

    let changed = base.clone().apply(set_app_theme("light").unwrap());
    assert_eq!(changed.theme, Theme::Light);
    assert_eq!(changed.language, "en");
    assert_eq!(changed.window, base.window);

    let changed = base.clone().apply(save_window_state(10, 20, Some(-1), Some(7), "fullscreen").unwrap());
    assert_eq!(
        changed.window,
        WindowConfig { width: 10, height: 20, x: Some(-1), y: Some(7), screen_mode: ScreenMode::Fullscreen }
    );
    assert_eq!(changed.language, "en");
    assert_eq!(changed.theme, Theme::System);

    let changed = base.clone().apply(set_auto_start(true));
    assert!(changed.startup.auto_start);
    assert_eq!(changed.auth, base.auth);

    let changed = base.clone().apply(set_remember_me_default(true));
    assert!(changed.auth.remember_me_default);
    assert!(!changed.auth.nfc_enabled);

    let changed = changed.apply(set_nfc_enabled(true));
    assert!(changed.auth.remember_me_default);
    assert!(changed.auth.nfc_enabled);
    assert!(!changed.startup.auto_start);
}

#[test]
fn saving_and_loading_again_gives_the_same_document() {
    let written = AppConfig::default()
        .apply(set_app_language("vi"))
        .apply(set_app_theme("dark").unwrap())
        .apply(set_auto_start(true));
    let outcome = desk_core::config::load_config(desk_core::config::StoredConfig::Parsed(written.clone()));
    assert_eq!(outcome.config, written);
    assert!(!outcome.repair);
}

#[test]
fn greeting() {
    assert_eq!(greet("Ann"), "Hello, Ann! You've been greeted from Rust!");
    assert_eq!(greet(""), "Hello, ! You've been greeted from Rust!");
}
