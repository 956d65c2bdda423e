use telegram_bot_deck_of_cards::config::{Config, ConfigError, Field, BOT_TOKEN, DATABASE_PATH};

fn text(s: &str) -> Field {
    Field::Text(s.to_string())
}

#[test]
fn config_keys() {
    assert_eq!(DATABASE_PATH, "database_path");
    assert_eq!(BOT_TOKEN, "bot_token");
}

#[test]
fn a_complete_configuration() {
    assert_eq!(
        Config::from_fields(text("postgres://localhost/deck"), text("123:abc")),
        Ok(Config {
            database_path: "postgres://localhost/deck".to_string(),
            bot_token: "123:abc".to_string(),
        })
    );
    assert_eq!(
        Config::from_fields(text(""), text("")),
        Ok(Config { database_path: String::new(), bot_token: String::new() })
    );
}

#[test]
fn the_database_path_is_looked_at_first() {
    for token in [Field::Missing, Field::NotText, text("123:abc")] {
        assert_eq!(
            Config::from_fields(Field::Missing, token.clone()),
            Err(ConfigError::NoDatabasePath)
        );
        assert_eq!(Config::from_fields(Field::NotText, token), Err(ConfigError::BadDatabasePath));
    }
}

#[test]
fn the_bot_token_is_looked_at_second() {
    assert_eq!(Config::from_fields(text("db"), Field::Missing), Err(ConfigError::NoBotToken));
    assert_eq!(Config::from_fields(text("db"), Field::NotText), Err(ConfigError::BadBotToken));
}

#[test]
fn configuration_error_messages() {
    assert_eq!(ConfigError::NoDatabasePath.message(), "No database_path in json file!");
    assert_eq!(ConfigError::BadDatabasePath.message(), "Error getting database_path!");
    assert_eq!(ConfigError::NoBotToken.message(), "No bot_token in json file!");
    assert_eq!(ConfigError::BadBotToken.message(), "Error getting bot_token!");
}
