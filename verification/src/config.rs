//! The settings of the calculator.

use vstd::prelude::*;
use vstd::string::StringExecFns;

verus! {

/// General behaviour.
#[derive(Clone, Debug)]
pub struct GeneralConfig {
    pub default_interval: u64,
    pub enable_notifications: bool,
    pub enable_sound: bool,
    pub log_level: String,
}

/// How quotes are requested.
#[derive(Clone, Debug)]
pub struct ApiConfig {
    pub timeout: u64,
    pub retry_count: u32,
    pub user_agent: String,
}

/// How results are shown.
#[derive(Clone, Debug)]
pub struct DisplayConfig {
    pub color_output: bool,
    pub show_progress: bool,
}

/// All settings.
#[derive(Clone, Debug)]
pub struct AppConfig {
    pub general: GeneralConfig,
    pub api: ApiConfig,
    pub display: DisplayConfig,
}

impl Default for AppConfig {
    /// The settings used when none are stored: a quote every 60 seconds,
    /// notifications and sound on, requests that time out after 8 seconds and
    /// are tried 3 times, coloured output with progress.
    fn default() -> (config: AppConfig)
        ensures
            config.general.default_interval == 60,
            config.general.enable_notifications,
            config.general.enable_sound,
            config.general.log_level@ == "info"@,
            config.api.timeout == 8,
            config.api.retry_count == 3,
            config.api.user_agent@ == "StockCalc/1.0"@,
            config.display.color_output,
            config.display.show_progress,
    {
        AppConfig {
            general: GeneralConfig {
                default_interval: 60,
                enable_notifications: true,
                enable_sound: true,
                log_level: String::from_str("info"),
            },
            api: ApiConfig {
                timeout: 8,
                retry_count: 3,
                user_agent: String::from_str("StockCalc/1.0"),
            },
            display: DisplayConfig { color_output: true, show_progress: true },
        }
    }
}

} // verus!
