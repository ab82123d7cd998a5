pub mod config;
pub mod log;
pub mod log_options;
pub mod state;
pub mod toml;
pub mod tui;
