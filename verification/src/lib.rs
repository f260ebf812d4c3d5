//! Verified core of smtc2web: the text, configuration, caching and
//! decision logic behind the now-playing overlay server.

pub mod text;
pub mod git_themes;
pub mod config;
pub mod watch;
pub mod now;
pub mod tray;
pub mod updater;
pub mod startup;

pub use text::format_duration;
