use twofauth_client::config::{default_language, validate_server_url, AppConfig, ServerUrlError};

fn config_to_toml(config: &AppConfig) -> String {
    let mut table = toml::map::Map::new();
    table.insert("server_url".to_string(), toml::Value::String(config.server_url.clone()));
    table.insert("language".to_string(), toml::Value::String(config.language.clone()));
    table.insert("allow_insecure_http".to_string(), toml::Value::Boolean(config.allow_insecure_http));
    toml::to_string(&toml::Value::Table(table)).expect("Could not serialize test config")
}

fn config_from_toml(text: &str) -> AppConfig {
    let value: toml::Table = toml::from_str(text).expect("Could not deserialize test config");
    let server_url = value["server_url"].as_str().expect("server_url is a string").to_string();
    let language = value.get("language").and_then(|v| v.as_str()).map(|s| s.to_string());
    let allow = value.get("allow_insecure_http").and_then(|v| v.as_bool());
    AppConfig::from_stored(server_url, language, allow)
}

#[test]
fn config_roundtrip_serialization() {
    let config = AppConfig::with_settings("https://2fauth.example.com/", "de", false);

    let serialized = config_to_toml(&config);

    let loaded: AppConfig = config_from_toml(&serialized);

    assert_eq!(loaded.server_url, "https://2fauth.example.com");
    assert_eq!(loaded.language, "de");
    assert!(!loaded.allow_insecure_http);
}

#[test]
fn old_config_defaults_to_secure_settings() {
    let old_config = r#"
server_url = "https://2fauth.example.com"
"#;

    let loaded: AppConfig = config_from_toml(old_config);

    assert_eq!(loaded.server_url, "https://2fauth.example.com");
    assert_eq!(loaded.language, "system");
    assert!(!loaded.allow_insecure_http);
}

#[test]
fn https_is_allowed_by_default() {
    assert!(validate_server_url("https://2fauth.example.com", false).is_ok());
}

#[test]
fn http_is_rejected_by_default() {
    assert!(validate_server_url("http://2fauth.example.com", false).is_err());
}

#[test]
fn http_can_be_explicitly_allowed() {
    assert!(validate_server_url("http://2fauth.example.com", true).is_ok());
}

#[test]
fn unsupported_url_scheme_is_rejected() {
    assert!(validate_server_url("ftp://2fauth.example.com", true).is_err());
}

#[test]
fn invalid_url_is_rejected() {
    assert!(validate_server_url("not a server address", false).is_err());
}

#[test]
fn each_address_error_has_its_input() {
    assert_eq!(validate_server_url("   ", false), Err(ServerUrlError::Empty));
    assert_eq!(validate_server_url("", true), Err(ServerUrlError::Empty));
    assert_eq!(validate_server_url("not a server address", false), Err(ServerUrlError::InvalidUrl));
    assert_eq!(validate_server_url("file:///etc/passwd", true), Err(ServerUrlError::MissingHost));
    assert_eq!(validate_server_url("http://2fauth.example.com", false), Err(ServerUrlError::InsecureHttpDisabled));
    assert_eq!(validate_server_url("ftp://2fauth.example.com", true), Err(ServerUrlError::UnsupportedScheme));
    assert_eq!(validate_server_url("  https://2fauth.example.com \n", false), Ok(()));
    assert_eq!(validate_server_url("HTTPS://2fauth.example.com", false), Ok(()));
}

#[test]
fn with_settings_normalizes_the_address() {
    let config = AppConfig::with_settings("  https://2fauth.example.com///  ", "system", true);
    assert_eq!(config.server_url, "https://2fauth.example.com");
    assert_eq!(config.language, "system");
    assert!(config.allow_insecure_http);
    let unicode = AppConfig::with_settings("\u{3000}https://a.example/\u{2003}", "fr", false);
    assert_eq!(unicode.server_url, "https://a.example");
}

#[test]
fn stored_values_are_kept() {
    let config = AppConfig::from_stored("https://x.example/".to_string(), Some("pt".to_string()), Some(true));
    assert_eq!(config.server_url, "https://x.example/");
    assert_eq!(config.language, "pt");
    assert!(config.allow_insecure_http);
    assert_eq!(default_language(), "system");
}
