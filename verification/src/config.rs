use vstd::prelude::*;

verus! {

/// The service's settings: where the database is and the bot's token.
pub struct Config {
    pub mongodb_uri: String,
    pub telegram_bot_token: String,
}

/// A setting that the environment does not provide.
#[derive(Debug, PartialEq, Eq, Structural)]
pub enum ConfigError {
    /// The database connection string is missing.
    MissingMongodbUri,
    /// The bot's token is missing.
    MissingTelegramBotToken,
}

impl Config {
    /// The settings from the environment's values (`None` where a variable
    /// is unset or unreadable): the connection string is read first, so its
    /// absence is the error reported when both are missing.
    pub fn new(mongodb_uri: Option<String>, telegram_bot_token: Option<String>) -> (r: Result<
        Config,
        ConfigError,
    >)
        ensures
            match (mongodb_uri, telegram_bot_token) {
                (Some(m), Some(t)) => r matches Ok(c) && c.mongodb_uri == m && c.telegram_bot_token
                    == t,
                (None, _) => r == Err::<Config, ConfigError>(ConfigError::MissingMongodbUri),
                (Some(_), None) => r == Err::<Config, ConfigError>(
                    ConfigError::MissingTelegramBotToken,
                ),
            },
    {
        let mongodb_uri = match mongodb_uri {
            Some(m) => m,
            None => return Err(ConfigError::MissingMongodbUri),
        };
        let telegram_bot_token = match telegram_bot_token {
            Some(t) => t,
            None => return Err(ConfigError::MissingTelegramBotToken),
        };
        Ok(Config { mongodb_uri, telegram_bot_token })
    }
}

} // verus!
