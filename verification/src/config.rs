//! Settings of the process, as plain values.

use vstd::prelude::*;
use vstd::string::*;
use crate::text::{parse_i32, parsed_i32};

verus! {

/// Where the relational store is reached.
#[derive(Debug, Clone)]
pub struct DatabaseConfig {
    pub url: String,
}

/// The credentials of the messaging service and the place of the session blob.
#[derive(Debug, Clone)]
pub struct TelegramConfig {
    pub api_id: i32,
    pub api_hash: String,
    pub phone_number: String,
    pub session_path: String,
}

/// All settings of one run.
#[derive(Debug, Clone)]
pub struct Config {
    pub telegram: TelegramConfig,
    pub database: DatabaseConfig,
}

/// The settings as they were found, each absent where nothing was set.
#[derive(Debug, Clone)]
pub struct Settings {
    pub api_id: Option<String>,
    pub api_hash: Option<String>,
    pub phone_number: Option<String>,
    pub session_path: Option<String>,
    pub database_url: Option<String>,
}

/// Why settings were refused.
#[derive(Debug, Clone, Copy, PartialEq, Eq, Structural)]
pub enum ConfigError {
    /// The numeric API identity is no decimal `i32`.
    InvalidApiId,
}

/// The characters of a setting, or of its default where it is absent.
pub open spec fn setting_or(found: Option<String>, default: Seq<char>) -> Seq<char> {
    match found {
        Some(text) => text@,
        None => default,
    }
}

/// The API identity that a setting stands for: zero where it is absent, the
/// parsed number where it is a decimal `i32`, nothing otherwise.
pub open spec fn api_id_of(found: Option<String>) -> Option<i32> {
    match found {
        Some(text) => parsed_i32(text@),
        None => Some(0i32),
    }
}

/// Whether `config` holds the given identity and every other setting of
/// `settings`, with the documented default for each absent one.
pub open spec fn config_matches(config: Config, api_id: i32, settings: Settings) -> bool {
    &&& config.telegram.api_id == api_id
    &&& config.telegram.api_hash@ == setting_or(settings.api_hash, Seq::<char>::empty())
    &&& config.telegram.phone_number@ == setting_or(settings.phone_number, Seq::<char>::empty())
    &&& config.telegram.session_path@ == setting_or(settings.session_path, "session.session"@)
    &&& config.database.url@ == setting_or(settings.database_url, "postgresql://localhost/f1000"@)
}

/// The setting, or the default where it is absent.
fn text_or(found: Option<String>, default: &str) -> (r: String)
    ensures
        r@ == setting_or(found, default@),
{
    match found {
        Some(text) => text,
        None => String::from_str(default),
    }
}

impl Config {
    /// Whether all three credentials of the messaging service are set.
    pub open spec fn telegram_configured(&self) -> bool {
        self.telegram.api_id != 0 && self.telegram.api_hash@.len() > 0
            && self.telegram.phone_number@.len() > 0
    }

    /// Builds the configuration from an API identity that was already read
    /// (`None` where the setting was no number) and the other settings.
    /// `settings.api_id` itself is not looked at.
    pub fn assemble(api_id: Option<i32>, settings: Settings) -> (r: Result<Config, ConfigError>)
        ensures
            match r {
                Ok(config) => api_id is Some && config_matches(config, api_id.unwrap(), settings),
                Err(e) => api_id is None && e == ConfigError::InvalidApiId,
            },
    {
        match api_id {
            None => Err(ConfigError::InvalidApiId),
            Some(id) => {
                let telegram = TelegramConfig {
                    api_id: id,
                    api_hash: text_or(settings.api_hash, ""),
                    phone_number: text_or(settings.phone_number, ""),
                    session_path: text_or(settings.session_path, "session.session"),
                };
                let database = DatabaseConfig {
                    url: text_or(settings.database_url, "postgresql://localhost/f1000"),
                };
                proof {
                    reveal_strlit("");
                    assert(""@ =~= Seq::<char>::empty());
                }
                Ok(Config { telegram, database })
            },
        }
    }

    /// Builds the configuration from the settings found. An absent API
    /// identity counts as zero; one that is no decimal `i32` is refused.
    pub fn load(settings: Settings) -> (r: Result<Config, ConfigError>)
        ensures
            match r {
                Ok(config) => api_id_of(settings.api_id) is Some && config_matches(
                    config,
                    api_id_of(settings.api_id).unwrap(),
                    settings,
                ),
                Err(e) => api_id_of(settings.api_id) is None && e == ConfigError::InvalidApiId,
            },
    {
        let api_id = match &settings.api_id {
            Some(text) => parse_i32(text.as_str()),
            None => Some(0i32),
        };
        Config::assemble(api_id, settings)
    }

    /// Whether the messaging service can be used: a non-zero API identity,
    /// a non-empty API secret and a non-empty phone number.
    pub fn is_telegram_configured(&self) -> (r: bool)
        ensures
            r == self.telegram_configured(),
    {
        self.telegram.api_id != 0 && !self.telegram.api_hash.as_str().is_empty()
            && !self.telegram.phone_number.as_str().is_empty()
    }
}

} // verus!
