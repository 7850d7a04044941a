//! Delivery configuration: the bot token and the channel identifier,
//! both required before any network activity may start.

use vstd::prelude::*;

verus! {

/// The two values the delivery loop needs, read once at startup from
/// the process environment and immutable afterwards.
pub struct Config {
    pub telegram_bot_token: String,
    pub telegram_chat_id: String,
}

/// Which required value is missing.
#[derive(Clone, Copy, PartialEq, Eq, Structural, Debug)]
pub enum ConfigError {
    MissingBotToken,
    MissingChatId,
}

/// The error line reported for a missing value.
pub open spec fn spec_config_error_message(e: ConfigError) -> Seq<char> {
    match e {
        ConfigError::MissingBotToken => "TELEGRAM_BOT_TOKEN environment variable not set"@,
        ConfigError::MissingChatId => "TELEGRAM_CHAT_ID environment variable not set"@,
    }
}

impl ConfigError {
    /// The error line reported for this missing value.
    pub fn message(&self) -> (r: &'static str)
        ensures
            r@ == spec_config_error_message(*self),
    {
        match self {
            ConfigError::MissingBotToken => "TELEGRAM_BOT_TOKEN environment variable not set",
            ConfigError::MissingChatId => "TELEGRAM_CHAT_ID environment variable not set",
        }
    }
}

impl Config {
    /// Validates the two environment values. The token is demanded
    /// first, as startup reports it first; a configuration succeeds
    /// exactly when both values are present, and carries them verbatim.
    pub fn from_parts(token: Option<String>, chat_id: Option<String>) -> (r: Result<
        Config,
        ConfigError,
    >)
        ensures
            token is None ==> r == Result::<Config, ConfigError>::Err(ConfigError::MissingBotToken),
            token is Some && chat_id is None ==> r == Result::<Config, ConfigError>::Err(
                ConfigError::MissingChatId,
            ),
            token matches Some(t) ==> (chat_id matches Some(c) ==> r matches Ok(cfg)
                && cfg.telegram_bot_token == t && cfg.telegram_chat_id == c),
    {
        match token {
            None => Err(ConfigError::MissingBotToken),
            Some(t) => match chat_id {
                None => Err(ConfigError::MissingChatId),
                Some(c) => Ok(Config { telegram_bot_token: t, telegram_chat_id: c }),
            },
        }
    }
}

} // verus!
