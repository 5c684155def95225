use telegram_mcp_rs::config::{AppConfig, ConfigError};

fn some(s: &str) -> Option<String> {
    Some(s.to_string())
}

#[test]
fn test_load_config_success() {
    let config = AppConfig::load(some("12345"), some("abcdef"), some("test.session")).unwrap();
    assert_eq!(config.api_id, 12345);
    assert_eq!(config.api_hash, "abcdef");
    assert_eq!(config.session_file, "test.session");
}

#[test]
fn test_load_config_missing_id() {
    let err = AppConfig::load(None, some("abcdef"), None).err().unwrap();
    assert!(err.message().contains("TELEGRAM_API_ID is required"));
}

#[test]
fn test_load_config_invalid_id() {
    let err = AppConfig::load(some("not_an_int"), some("abcdef"), None).err().unwrap();
    assert!(err.message().contains("must be a valid integer"));
}

#[test]
fn session_file_defaults() {
    let config = AppConfig::load(some("-7"), some("h"), None).unwrap();
    assert_eq!(config.api_id, -7);
    assert_eq!(config.session_file, "telegram.session");
}

#[test]
fn api_hash_is_required() {
    let err = AppConfig::load(some("1"), None, None).err().unwrap();
    assert!(err == ConfigError::MissingApiHash);
    assert_eq!(err.message(), "TELEGRAM_API_HASH is required");
}

#[test]
fn api_id_must_fit_in_32_bits() {
    assert!(AppConfig::load(some("2147483647"), some("h"), None).is_ok());
    assert!(AppConfig::load(some("-2147483648"), some("h"), None).is_ok());
    assert!(AppConfig::load(some("2147483648"), some("h"), None).err().unwrap() == ConfigError::InvalidApiId);
    assert!(AppConfig::load(some("+12"), some("h"), None).unwrap().api_id == 12);
    assert!(AppConfig::load(some(" 12"), some("h"), None).err().unwrap() == ConfigError::InvalidApiId);
    assert!(AppConfig::load(some(""), some("h"), None).err().unwrap() == ConfigError::InvalidApiId);
    assert!(AppConfig::load(some("-"), some("h"), None).err().unwrap() == ConfigError::InvalidApiId);
}
