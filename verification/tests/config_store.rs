use desk_core::config::{
    get_config_path, load_config, save_config, set_app_theme, validate_config, validate_window,
    AppConfig, ConfigError, LoadOutcome, SaveFailure, SaveProgress, SaveStep, StoredConfig, Theme,
    CONFIG_FILE_NAME,
};

fn custom() -> AppConfig {
    let mut config = AppConfig::default();
    config.language = "vi".to_string();
    config.theme = Theme::Dark;
    config.window.width = 1024;
    config.window.x = Some(-5);
    config.startup.auto_start = true;
    config
}

#[test]
fn load_uses_a_valid_document_as_it_is() {
    let outcome = load_config(StoredConfig::Parsed(custom()));
    assert_eq!(outcome, LoadOutcome { config: custom(), repair: false });
}

#[test]
fn load_without_a_directory_gives_the_default_and_writes_nothing() {
    let outcome = load_config(StoredConfig::NoDirectory);
    assert_eq!(outcome, LoadOutcome { config: AppConfig::default(), repair: false });
}

#[test]
fn load_of_a_fresh_install_gives_the_default_and_seeds_the_file() {
    let outcome = load_config(StoredConfig::Missing);
    assert_eq!(outcome.config.language, "en");
    assert_eq!(outcome.config.theme.as_str(), "system");
    assert_eq!(outcome.config.window.width, 800);
    assert_eq!(outcome.config.window.height, 600);
    assert_eq!(outcome.config.window.screen_mode.as_str(), "normal");
    assert!(!outcome.config.startup.auto_start);
    assert!(outcome.repair);
}

#[test]
fn load_repairs_what_cannot_be_used() {
    for stored in [
        StoredConfig::Unreadable,
        StoredConfig::Malformed,
        StoredConfig::Missing,
    ] {
        assert_eq!(load_config(stored), LoadOutcome { config: AppConfig::default(), repair: true });
    }
}

#[test]
fn document_with_an_unknown_theme_is_replaced_and_new_unknown_themes_are_refused() {
    assert!(desk_core::config::theme_string::deserialize("neon").is_err());
    let outcome = load_config(StoredConfig::Malformed);
    assert_eq!(outcome, LoadOutcome { config: AppConfig::default(), repair: true });
    assert_eq!(
        set_app_theme("neon"),
        Err("Invalid value: Invalid theme: neon. Must be one of: dark, light, system".to_string())
    );
}

#[test]
fn config_path_is_the_file_in_the_directory() {
    assert_eq!(CONFIG_FILE_NAME, "config.yaml");
    assert_eq!(get_config_path(Ok("/home/u/.config/app")), Ok(("/home/u/.config/app", "config.yaml")));
    let failed: Result<(&str, &str), ConfigError> = get_config_path(Err("unknown path".to_string()));
    assert_eq!(failed, Err(ConfigError::ConfigDirNotFound("unknown path".to_string())));
}

fn written(outcome: Result<(), SaveFailure>) -> SaveProgress<&'static str> {
    SaveProgress::Written(outcome)
}

fn zero_width() -> AppConfig {
    let mut config = custom();
    config.window.width = 0;
    config
}

fn zero_height() -> AppConfig {
    let mut config = custom();
    config.window.height = 0;
    config
}

fn invalid(field: &str) -> ConfigError {
    ConfigError::InvalidValue {
        field: field.to_string(),
        input: "0".to_string(),
        accepted: vec!["a positive whole number".to_string()],
    }
}

#[test]
fn save_asks_for_the_write_once_the_directory_is_known() {
    assert_eq!(
        save_config(&custom(), SaveProgress::Resolved(Ok("/home/u/.config/app"))),
        SaveStep::Write { directory: "/home/u/.config/app", file_name: "config.yaml" }
    );
    assert_eq!(save_config(&custom(), written(Ok(()))), SaveStep::Finished(Ok(())));
}

#[test]
fn save_without_a_directory_fails() {
    let resolved: SaveProgress<&str> = SaveProgress::Resolved(Err("unknown path".to_string()));
    assert_eq!(
        save_config(&custom(), resolved),
        SaveStep::Finished(Err(ConfigError::ConfigDirNotFound("unknown path".to_string())))
    );
}

#[test]
fn save_reports_the_step_that_failed() {
    assert_eq!(
        save_config(&custom(), written(Err(SaveFailure::CreateDirectory("b".to_string())))),
        SaveStep::Finished(Err(ConfigError::WriteError("b".to_string())))
    );
    assert_eq!(
        save_config(&custom(), written(Err(SaveFailure::Serialize("c".to_string())))),
        SaveStep::Finished(Err(ConfigError::ParseError("c".to_string())))
    );
    assert_eq!(
        save_config(&custom(), written(Err(SaveFailure::Write("d".to_string())))),
        SaveStep::Finished(Err(ConfigError::WriteError("d".to_string())))
    );
}

#[test]
fn save_refuses_a_document_that_is_not_valid_before_anything_is_written() {
    assert_eq!(
        save_config(&zero_width(), SaveProgress::Resolved(Ok("/dir"))),
        SaveStep::Finished(Err(invalid("width")))
    );
    assert_eq!(
        save_config(&zero_height(), SaveProgress::Resolved(Ok("/dir"))),
        SaveStep::Finished(Err(invalid("height")))
    );
    // Without a directory that is the error, whatever the document.
    let unresolved: SaveProgress<&str> = SaveProgress::Resolved(Err("unknown path".to_string()));
    assert_eq!(
        save_config(&zero_width(), unresolved),
        SaveStep::Finished(Err(ConfigError::ConfigDirNotFound("unknown path".to_string())))
    );
    // The outcome of a write is reported as it is.
    assert_eq!(save_config(&zero_height(), written(Ok(()))), SaveStep::Finished(Ok(())));
    assert_eq!(
        save_config(&zero_height(), written(Err(SaveFailure::Write("d".to_string())))),
        SaveStep::Finished(Err(ConfigError::WriteError("d".to_string())))
    );
    let mut both = zero_width();
    both.window.height = 0;
    assert_eq!(
        save_config(&both, SaveProgress::Resolved(Ok("/dir"))),
        SaveStep::Finished(Err(invalid("width")))
    );
    assert_eq!(
        desk_core::config::set_config(Err(invalid("width"))),
        Err("Invalid value: Invalid width: 0. Must be one of: a positive whole number".to_string())
    );
}

#[test]
fn load_replaces_a_document_whose_window_has_no_size() {
    assert_eq!(
        load_config(StoredConfig::Parsed(zero_width())),
        LoadOutcome { config: AppConfig::default(), repair: true }
    );
    assert_eq!(
        load_config(StoredConfig::Parsed(zero_height())),
        LoadOutcome { config: AppConfig::default(), repair: true }
    );
    let mut smallest = custom();
    smallest.window.width = 1;
    smallest.window.height = 1;
    assert_eq!(
        load_config(StoredConfig::Parsed(smallest.clone())),
        LoadOutcome { config: smallest, repair: false }
    );
}

#[test]
fn documents_are_checked_field_by_field() {
    assert_eq!(validate_config(&custom()), Ok(()));
    assert_eq!(validate_config(&AppConfig::default()), Ok(()));
    assert_eq!(validate_config(&zero_width()), Err(invalid("width")));
    assert_eq!(validate_config(&zero_height()), Err(invalid("height")));
    assert_eq!(validate_window(custom().window), Ok(custom().window));
    assert_eq!(validate_window(zero_height().window), Err(invalid("height")));
}

#[test]
fn config_errors_are_worded() {
    assert_eq!(
        ConfigError::ConfigDirNotFound("x".to_string()).to_string(),
        "Failed to get app config directory: x"
    );
    assert_eq!(ConfigError::ReadError("x".to_string()).to_string(), "Failed to read config file: x");
    assert_eq!(ConfigError::WriteError("x".to_string()).to_string(), "Failed to write config file: x");
    assert_eq!(ConfigError::ParseError("x".to_string()).to_string(), "Failed to parse config: x");
    assert_eq!(
        ConfigError::InvalidValue {
            field: "f".to_string(),
            input: "i".to_string(),
            accepted: vec!["a".to_string(), "b".to_string()],
        }
        .to_string(),
        "Invalid value: Invalid f: i. Must be one of: a, b"
    );
    assert_eq!(
        ConfigError::InvalidValue { field: "f".to_string(), input: "i".to_string(), accepted: vec![] }
            .to_string(),
        "Invalid value: Invalid f: i. Must be one of: "
    );
    assert_eq!(
        ConfigError::InvalidValue {
            field: "f".to_string(),
            input: "i".to_string(),
            accepted: vec!["only".to_string()],
        }
        .to_string(),
        "Invalid value: Invalid f: i. Must be one of: only"
    );
    let text: String = ConfigError::ParseError("bad".to_string()).into();
    assert_eq!(text, "Failed to parse config: bad");
    assert_eq!(desk_core::config::set_config(Ok(())), Ok(()));
    assert_eq!(
        desk_core::config::set_config(Err(ConfigError::WriteError("disk full".to_string()))),
        Err("Failed to write config file: disk full".to_string())
    );
}
