use urtask::config::{Config, ConfigError};
use urtask::error::AppError;
use urtask::text::{same_text, trim};

#[test]
fn config_from_both_values() {
    let c = Config::new(Some("mongodb://x".into()), Some("tok".into())).unwrap();
    assert_eq!(c.mongodb_uri, "mongodb://x");
    assert_eq!(c.telegram_bot_token, "tok");
}

#[test]
fn config_missing_values() {
    assert!(matches!(Config::new(None, Some("t".into())), Err(ConfigError::MissingMongodbUri)));
    assert!(matches!(Config::new(None, None), Err(ConfigError::MissingMongodbUri)));
    assert!(matches!(Config::new(Some("m".into()), None), Err(ConfigError::MissingTelegramBotToken)));
}

#[test]
fn app_error_keeps_its_message() {
    assert_eq!(AppError::from("boom".to_string()).message(), "boom");
}

#[test]
fn trim_removes_surrounding_white_space() {
    assert_eq!(trim("  a b \t\n"), "a b");
    assert_eq!(trim("\u{3000}x\u{a0}"), "x");
    assert_eq!(trim("   "), "");
}

#[test]
fn same_text_compares_characters() {
    assert!(same_text("ToDo", "ToDo"));
    assert!(!same_text("ToDo", "Todo"));
    assert!(!same_text("", " "));
}
