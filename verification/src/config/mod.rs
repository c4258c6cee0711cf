//! The application's preferences: the typed document, its validation, and
//! the decisions of loading and saving it.

pub mod commands;
pub mod error;
pub mod screen_mode_string;
pub mod storage;
pub mod theme_string;
pub mod types;
pub mod validate;

pub use commands::{
    get_app_language, get_app_theme, get_auto_start, get_nfc_enabled, get_remember_me_default,
    get_window_state, greet, save_window_state, set_app_language, set_app_theme, set_auto_start,
    set_config, set_nfc_enabled, set_remember_me_default, ConfigChange,
};
pub use error::ConfigError;
pub use storage::{
    get_config_path, load_config, load_default_config, save_config, LoadOutcome, SaveFailure,
    SaveProgress, SaveStep, StoredConfig, CONFIG_FILE_NAME,
};
pub use types::{AppConfig, AuthConfig, ScreenMode, StartupConfig, Theme, WindowConfig};
pub use validate::{validate_config, validate_screen_mode, validate_theme, validate_window};
