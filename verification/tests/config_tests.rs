use logtura_cf_tail::config::{
    default_api_base, default_reconnect_max_secs, default_reconnect_min_secs,
    default_tail_refresh_margin_secs, validate, Config, ConfigError,
};

/// Builds a configuration from parsed TOML the way its schema reads:
/// required account, token and scripts; the other fields default.
fn config_from_table(table: &toml::Table) -> Config {
    let text = |key: &str| table[key].as_str().unwrap().to_string();
    let number = |key: &str, default: u64| match table.get(key) {
        Some(v) => v.as_integer().unwrap() as u64,
        None => default,
    };
    Config {
        account_id: text("account_id"),
        api_token: text("api_token"),
        scripts: table["scripts"]
            .as_array()
            .unwrap()
            .iter()
            .map(|s| s.as_str().unwrap().to_string())
            .collect(),
        api_base: match table.get("api_base") {
            Some(v) => v.as_str().unwrap().to_string(),
            None => default_api_base(),
        },
        tail_refresh_margin_secs: number(
            "tail_refresh_margin_secs",
            default_tail_refresh_margin_secs(),
        ),
        reconnect_min_secs: number("reconnect_min_secs", default_reconnect_min_secs()),
        reconnect_max_secs: number("reconnect_max_secs", default_reconnect_max_secs()),
    }
}

fn good_config() -> Config {
    Config {
        account_id: "acct".to_string(),
        api_token: "tok".to_string(),
        scripts: vec!["a".to_string(), "b".to_string()],
        api_base: default_api_base(),
        tail_refresh_margin_secs: default_tail_refresh_margin_secs(),
        reconnect_min_secs: default_reconnect_min_secs(),
        reconnect_max_secs: default_reconnect_max_secs(),
    }
}

#[test]
fn parses_minimal_config() {
    let table: toml::Table = toml::from_str(
        r#"
            account_id = "acct"
            api_token = "tok"
            scripts = ["a", "b"]
            "#,
    )
    .unwrap();
    let cfg = config_from_table(&table);
    validate(&cfg).unwrap();
    assert_eq!(cfg.api_base, "https://api.cloudflare.com/client/v4");
    assert_eq!(cfg.tail_refresh_margin_secs, 60);
}

#[test]
fn rejects_empty_scripts() {
    let table: toml::Table = toml::from_str(
        r#"
            account_id = "acct"
            api_token = "tok"
            scripts = []
            "#,
    )
    .unwrap();
    let cfg = config_from_table(&table);
    assert!(validate(&cfg).is_err());
}

#[test]
fn defaults_have_documented_values() {
    assert_eq!(default_api_base(), "https://api.cloudflare.com/client/v4");
    assert_eq!(default_tail_refresh_margin_secs(), 60);
    assert_eq!(default_reconnect_min_secs(), 1);
    assert_eq!(default_reconnect_max_secs(), 30);
}

#[test]
fn default_config_with_names_is_valid() {
    assert!(validate(&good_config()).is_ok());
}

#[test]
fn blank_account_id_is_refused() {
    let mut cfg = good_config();
    cfg.account_id = " \t\n".to_string();
    assert!(matches!(validate(&cfg), Err(ConfigError::AccountIdEmpty)));
}

#[test]
fn unicode_blank_token_is_refused() {
    let mut cfg = good_config();
    cfg.api_token = "\u{3000}\u{a0}".to_string();
    assert!(matches!(validate(&cfg), Err(ConfigError::ApiTokenEmpty)));
}

#[test]
fn no_scripts_is_refused() {
    let mut cfg = good_config();
    cfg.scripts.clear();
    assert!(matches!(validate(&cfg), Err(ConfigError::NoScripts)));
}

#[test]
fn blank_script_is_refused() {
    let mut cfg = good_config();
    cfg.scripts.push("  ".to_string());
    assert!(matches!(validate(&cfg), Err(ConfigError::EmptyScriptName)));
}

#[test]
fn zero_refresh_margin_is_refused() {
    let mut cfg = good_config();
    cfg.tail_refresh_margin_secs = 0;
    assert!(matches!(validate(&cfg), Err(ConfigError::RefreshMarginZero)));
}

#[test]
fn zero_reconnect_min_is_refused() {
    let mut cfg = good_config();
    cfg.reconnect_min_secs = 0;
    assert!(matches!(validate(&cfg), Err(ConfigError::ReconnectMinZero)));
}

#[test]
fn reconnect_max_below_min_is_refused() {
    let mut cfg = good_config();
    cfg.reconnect_min_secs = 10;
    cfg.reconnect_max_secs = 9;
    assert!(matches!(validate(&cfg), Err(ConfigError::ReconnectMaxBelowMin)));
}

#[test]
fn first_failing_check_is_reported() {
    let mut cfg = good_config();
    cfg.account_id = String::new();
    cfg.scripts.clear();
    cfg.reconnect_min_secs = 0;
    assert!(matches!(validate(&cfg), Err(ConfigError::AccountIdEmpty)));
}

#[test]
fn config_error_messages() {
    assert_eq!(ConfigError::AccountIdEmpty.message(), "account_id must not be empty");
    assert_eq!(ConfigError::ApiTokenEmpty.message(), "api_token must not be empty");
    assert_eq!(
        ConfigError::NoScripts.message(),
        "scripts must contain at least one worker name"
    );
    assert_eq!(
        ConfigError::EmptyScriptName.message(),
        "scripts must not contain empty worker names"
    );
    assert_eq!(
        ConfigError::RefreshMarginZero.message(),
        "tail_refresh_margin_secs must be >= 1"
    );
    assert_eq!(ConfigError::ReconnectMinZero.message(), "reconnect_min_secs must be >= 1");
    assert_eq!(
        ConfigError::ReconnectMaxBelowMin.message(),
        "reconnect_max_secs must be >= reconnect_min_secs"
    );
    assert_eq!(
        ConfigError::MissingEnvVars(vec!["A".to_string(), "B_2".to_string()]).message(),
        "missing env vars referenced in config: A, B_2"
    );
}
