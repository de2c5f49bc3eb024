//! A small library behind a static-file HTTP server: loading the server's
//! settings from environment values, parsing TCP ports from decimal text,
//! and rendering the request-log and startup lines the server emits.

mod logging;
mod settings;
mod text;

pub use logging::announce_line;
pub use logging::log_line;
pub use logging::request_log_line;
pub use logging::startup_announcement;

pub use settings::Settings;
pub use settings::SettingsError;
pub use settings::SettingsModel;
pub use settings::default_model;
pub use settings::is_port_value;
pub use settings::lemma_env_absence;
pub use settings::lemma_env_override;
pub use settings::loaded_model;
pub use settings::loaded_root;

pub use text::dec_digits;
pub use text::dec_value;
pub use text::is_digits;
pub use text::lemma_dec_digits_value;
pub use text::parse_u16;
pub use text::u16_to_decimal;
