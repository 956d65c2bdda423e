//! The configuration the bot starts from: where the database is, and the
//! token of the bot.

use vstd::prelude::*;

verus! {

/// Key of the database path in the configuration.
pub const DATABASE_PATH: &'static str = "database_path";

/// Key of the bot token in the configuration.
pub const BOT_TOKEN: &'static str = "bot_token";

/// What a configuration holds under a key, as the contracts see it.
pub enum FieldView {
    Missing,
    NotText,
    Text(Seq<char>),
}

/// What a configuration holds under a key.
#[derive(Debug, Clone, PartialEq, Eq)]
pub enum Field {
    /// The key is not there.
    Missing,
    /// The key is there, with something that is no text.
    NotText,
    /// The key is there, with this text.
    Text(String),
}

impl View for Field {
    type V = FieldView;

    open spec fn view(&self) -> FieldView {
        match self {
            Field::Missing => FieldView::Missing,
            Field::NotText => FieldView::NotText,
            Field::Text(text) => FieldView::Text(text@),
        }
    }
}

/// A configuration as the contracts see it.
pub struct ConfigView {
    pub database_path: Seq<char>,
    pub bot_token: Seq<char>,
}

/// A complete configuration.
#[derive(Debug, Clone, PartialEq, Eq)]
pub struct Config {
    pub database_path: String,
    pub bot_token: String,
}

impl View for Config {
    type V = ConfigView;

    open spec fn view(&self) -> ConfigView {
        ConfigView { database_path: self.database_path@, bot_token: self.bot_token@ }
    }
}

/// What is wrong with a configuration.
#[derive(Debug, Clone, Copy, PartialEq, Eq, Structural)]
pub enum ConfigError {
    NoDatabasePath,
    BadDatabasePath,
    NoBotToken,
    BadBotToken,
}

impl ConfigError {
    pub open spec fn spec_message(self) -> Seq<char> {
        match self {
            ConfigError::NoDatabasePath => "No database_path in json file!"@,
            ConfigError::BadDatabasePath => "Error getting database_path!"@,
            ConfigError::NoBotToken => "No bot_token in json file!"@,
            ConfigError::BadBotToken => "Error getting bot_token!"@,
        }
    }

    pub fn message(&self) -> (text: String)
        ensures
            text@ == self.spec_message(),
    {
        match self {
            ConfigError::NoDatabasePath => "No database_path in json file!".to_owned(),
            ConfigError::BadDatabasePath => "Error getting database_path!".to_owned(),
            ConfigError::NoBotToken => "No bot_token in json file!".to_owned(),
            ConfigError::BadBotToken => "Error getting bot_token!".to_owned(),
        }
    }
}

/// The configuration that the two fields make, or what is wrong with the
/// first field that is wrong: the database path is looked at first.
pub open spec fn config_of(database_path: FieldView, bot_token: FieldView) -> Result<
    ConfigView,
    ConfigError,
> {
    match (database_path, bot_token) {
        (FieldView::Missing, _) => Err(ConfigError::NoDatabasePath),
        (FieldView::NotText, _) => Err(ConfigError::BadDatabasePath),
        (FieldView::Text(_), FieldView::Missing) => Err(ConfigError::NoBotToken),
        (FieldView::Text(_), FieldView::NotText) => Err(ConfigError::BadBotToken),
        (FieldView::Text(path), FieldView::Text(token)) => Ok(
            ConfigView { database_path: path, bot_token: token },
        ),
    }
}

/// The view of a configuration or its error.
pub open spec fn config_view(config: Result<Config, ConfigError>) -> Result<
    ConfigView,
    ConfigError,
> {
    match config {
        Ok(c) => Ok(c@),
        Err(e) => Err(e),
    }
}

impl Config {
    /// Puts a configuration together from what was found under the two keys.
    pub fn from_fields(database_path: Field, bot_token: Field) -> (config: Result<
        Config,
        ConfigError,
    >)
        ensures
            config_view(config) == config_of(database_path@, bot_token@),
    {
        let database_path = match database_path {
            Field::Missing => {
                return Err(ConfigError::NoDatabasePath);
            },
            Field::NotText => {
                return Err(ConfigError::BadDatabasePath);
            },
            Field::Text(path) => path,
        };
        let bot_token = match bot_token {
            Field::Missing => {
                return Err(ConfigError::NoBotToken);
            },
            Field::NotText => {
                return Err(ConfigError::BadBotToken);
            },
            Field::Text(token) => token,
        };
        Ok(Config { database_path, bot_token })
    }
}

} // verus!
