use fact_cli::config::{Config, ConfigError};

#[test]
fn both_values_present_builds_the_config() {
    let r = Config::from_parts(
        Some("token-value".to_string()),
        Some("-1001".to_string()),
    );
    let cfg = r.ok().expect("both values were present");
    assert_eq!(cfg.telegram_bot_token, "token-value");
    assert_eq!(cfg.telegram_chat_id, "-1001");
}

#[test]
fn missing_token_is_fatal_before_anything_else() {
    let r = Config::from_parts(None, Some("-1001".to_string()));
    assert_eq!(r.err(), Some(ConfigError::MissingBotToken));
}

#[test]
fn missing_chat_id_is_fatal() {
    let r = Config::from_parts(Some("token-value".to_string()), None);
    assert_eq!(r.err(), Some(ConfigError::MissingChatId));
}

#[test]
fn missing_both_reports_the_token_first() {
    let r = Config::from_parts(None, None);
    assert_eq!(r.err(), Some(ConfigError::MissingBotToken));
}

#[test]
fn error_messages_name_the_variable() {
    assert_eq!(
        ConfigError::MissingBotToken.message(),
        "TELEGRAM_BOT_TOKEN environment variable not set"
    );
    assert_eq!(
        ConfigError::MissingChatId.message(),
        "TELEGRAM_CHAT_ID environment variable not set"
    );
}
