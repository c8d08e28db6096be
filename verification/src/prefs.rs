//! User preferences and their defaults.
use vstd::prelude::*;
use crate::text::owned;

verus! {

/// User preferences, stored in the operating system's configuration directory.
#[derive(Debug, Clone)]
pub struct UserPrefs {
    /// Autosave interval in seconds; 0 disables autosave.
    pub autosave_interval_secs: u64,
    /// Capability tier override; none means detect.
    pub tier_override: Option<u32>,
    /// Theme name ("dark", or the path of a theme file).
    pub theme: String,
    /// User interface language code.
    pub language: String,
    /// Recently opened files, newest first.
    pub recent_files: Vec<String>,
}

impl Default for UserPrefs {
    /// Autosave every 300 s, tier detected, dark theme, English, no recent files.
    fn default() -> (p: Self)
        ensures
            p.autosave_interval_secs == 300,
            p.tier_override is None,
            p.theme@ == "dark"@,
            p.language@ == "en"@,
            p.recent_files@.len() == 0,
    {
        UserPrefs {
            autosave_interval_secs: 300,
            tier_override: None,
            theme: owned("dark"),
            language: owned("en"),
            recent_files: Vec::new(),
        }
    }
}

/// Application settings read from the application's configuration file.
#[derive(Debug, Clone)]
pub struct AppConfig {
    /// Loopback port of the debug server.
    pub debug_server_port: u16,
    /// Shared secret of the debug server; empty for none.
    pub debug_server_token: String,
    /// Log level name.
    pub log_level: String,
}

impl Default for AppConfig {
    /// Port 8082, no token, level `INFO`.
    fn default() -> (c: Self)
        ensures
            c.debug_server_port == 8082,
            c.debug_server_token@.len() == 0,
            c.log_level@ == "INFO"@,
    {
        AppConfig { debug_server_port: 8082, debug_server_token: String::new(), log_level: owned("INFO") }
    }
}

} // verus!
