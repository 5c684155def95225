//! The server's configuration, from the values of its environment variables.
use vstd::prelude::*;
use vstd::string::*;
use crate::text::{parse_in_range, parse_int_in};

verus! {

#[derive(Debug)]
pub struct AppConfig {
    pub api_id: i32,
    pub api_hash: String,
    pub session_file: String,
}

/// Why a configuration cannot be loaded.
#[derive(Debug, PartialEq, Eq, Structural)]
pub enum ConfigError {
    /// `TELEGRAM_API_ID` is not set.
    MissingApiId,
    /// `TELEGRAM_API_ID` is not a 32-bit integer.
    InvalidApiId,
    /// `TELEGRAM_API_HASH` is not set.
    MissingApiHash,
}

impl ConfigError {
    pub open spec fn message_spec(&self) -> Seq<char> {
        match self {
            ConfigError::MissingApiId => "TELEGRAM_API_ID is required"@,
            ConfigError::InvalidApiId => "TELEGRAM_API_ID must be a valid integer"@,
            ConfigError::MissingApiHash => "TELEGRAM_API_HASH is required"@,
        }
    }

    /// The text that the error displays.
    pub fn message(&self) -> (m: String)
        ensures
            m@ == self.message_spec(),
    {
        match self {
            ConfigError::MissingApiId => String::from_str("TELEGRAM_API_ID is required"),
            ConfigError::InvalidApiId => String::from_str("TELEGRAM_API_ID must be a valid integer"),
            ConfigError::MissingApiHash => String::from_str("TELEGRAM_API_HASH is required"),
        }
    }
}

pub open spec fn parse_i32_spec(s: Seq<char>) -> Option<int> {
    parse_in_range(s, i32::MIN as int, i32::MAX as int)
}

impl AppConfig {
    /// The configuration from the values of `TELEGRAM_API_ID`,
    /// `TELEGRAM_API_HASH` and `TELEGRAM_SESSION_FILE` (each `None` where the
    /// variable is not set). The session file defaults to `telegram.session`.
    pub fn load(
        api_id: Option<String>,
        api_hash: Option<String>,
        session_file: Option<String>,
    ) -> (r: Result<AppConfig, ConfigError>)
        ensures
            api_id is None ==> r == Err::<AppConfig, ConfigError>(ConfigError::MissingApiId),
            api_id matches Some(s) && parse_i32_spec(s@) is None ==> r == Err::<
                AppConfig,
                ConfigError,
            >(ConfigError::InvalidApiId),
            api_id matches Some(s) && parse_i32_spec(s@) is Some && api_hash is None ==> r == Err::<
                AppConfig,
                ConfigError,
            >(ConfigError::MissingApiHash),
            r matches Ok(c) ==> {
                &&& api_id matches Some(s) && parse_i32_spec(s@) == Some(c.api_id as int)
                &&& api_hash matches Some(h) && c.api_hash@ == h@
                &&& c.session_file@ == match session_file {
                    Some(f) => f@,
                    None => "telegram.session"@,
                }
            },
            api_id matches Some(s) && parse_i32_spec(s@) is Some && api_hash is Some ==> r is Ok,
    {
        let id_text = match api_id {
            Some(s) => s,
            None => return Err(ConfigError::MissingApiId),
        };
        let id = match parse_int_in(id_text.as_str(), -2147483648i64, 2147483647i64) {
            Some(n) => n as i32,
            None => return Err(ConfigError::InvalidApiId),
        };
        let hash = match api_hash {
            Some(h) => h,
            None => return Err(ConfigError::MissingApiHash),
        };
        let session = match session_file {
            Some(f) => f,
            None => String::from_str("telegram.session"),
        };
        Ok(AppConfig { api_id: id, api_hash: hash, session_file: session })
    }
}

} // verus!
