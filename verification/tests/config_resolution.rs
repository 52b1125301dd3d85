use tdf_config::config::{
    pool_config, resolve_pool_size, resolve_url, single_pool_config, ConfigError, MAX_POOL_SIZE,
    MIN_POOL_SIZE, REDIS_POOL_SIZE,
};
use tdf_config::parse::parse_u32;

#[test]
fn parse_accepts_plain_numerals() {
    assert_eq!(parse_u32("0"), Some(0));
    assert_eq!(parse_u32("32"), Some(32));
    assert_eq!(parse_u32("00064"), Some(64));
    assert_eq!(parse_u32("4294967295"), Some(u32::MAX));
}

#[test]
fn parse_accepts_leading_plus_sign() {
    assert_eq!(parse_u32("+42"), Some(42));
    assert_eq!(parse_u32("+0"), Some(0));
}

#[test]
fn parse_rejects_non_numerals() {
    assert_eq!(parse_u32(""), None);
    assert_eq!(parse_u32("+"), None);
    assert_eq!(parse_u32("12a"), None);
    assert_eq!(parse_u32("-3"), None);
    assert_eq!(parse_u32(" 7"), None);
    assert_eq!(parse_u32("6 4"), None);
    assert_eq!(parse_u32("sixteen"), None);
}

#[test]
fn parse_rejects_values_above_u32_max() {
    assert_eq!(parse_u32("4294967296"), None);
    assert_eq!(parse_u32("99999999999999999999"), None);
}

#[test]
fn unset_pool_size_resolves_to_documented_default() {
    assert_eq!(resolve_pool_size(None, MAX_POOL_SIZE), Ok(64));
    assert_eq!(resolve_pool_size(None, MIN_POOL_SIZE), Ok(8));
    assert_eq!(resolve_pool_size(None, REDIS_POOL_SIZE), Ok(32));
}

#[test]
fn set_pool_size_overrides_default() {
    assert_eq!(resolve_pool_size(Some("16"), MAX_POOL_SIZE), Ok(16));
    assert_eq!(resolve_pool_size(Some("1"), MIN_POOL_SIZE), Ok(1));
}

#[test]
fn non_numeric_pool_size_fails_instead_of_defaulting() {
    assert_eq!(
        resolve_pool_size(Some("sixteen"), MAX_POOL_SIZE),
        Err(ConfigError::InvalidConfiguration)
    );
    assert_eq!(
        resolve_pool_size(Some(""), REDIS_POOL_SIZE),
        Err(ConfigError::InvalidConfiguration)
    );
}

#[test]
fn missing_url_fails_fast() {
    assert_eq!(resolve_url(None), Err(ConfigError::MissingConfiguration));
}

#[test]
fn present_url_passes_through_unchanged() {
    let url = "mysql://app@localhost:3306/app";
    assert_eq!(resolve_url(Some(url.to_string())), Ok(url.to_string()));
}

#[test]
fn pool_config_defaults_when_bounds_unset() {
    let url = "mysql://app@localhost:3306/app";
    let cfg = pool_config(Some(url.to_string()), None, None).unwrap();
    assert_eq!(cfg.url, url);
    assert_eq!(cfg.min_pool_size, 8);
    assert_eq!(cfg.max_pool_size, 64);
}

#[test]
fn pool_config_takes_explicit_bounds() {
    let url = "postgres://app@localhost:5432/app";
    let cfg = pool_config(Some(url.to_string()), Some("100"), Some("10")).unwrap();
    assert_eq!(cfg.url, url);
    assert_eq!(cfg.min_pool_size, 10);
    assert_eq!(cfg.max_pool_size, 100);
}

#[test]
fn pool_config_missing_url_is_missing_configuration() {
    let r = pool_config(None, Some("100"), Some("10"));
    assert_eq!(r.err(), Some(ConfigError::MissingConfiguration));
}

#[test]
fn pool_config_empty_url_is_invalid() {
    let r = pool_config(Some(String::new()), None, None);
    assert_eq!(r.err(), Some(ConfigError::InvalidConfiguration));
}

#[test]
fn pool_config_non_numeric_bound_is_invalid() {
    let url = "mysql://app@localhost:3306/app";
    let r = pool_config(Some(url.to_string()), Some("many"), None);
    assert_eq!(r.err(), Some(ConfigError::InvalidConfiguration));
    let r = pool_config(Some(url.to_string()), None, Some("few"));
    assert_eq!(r.err(), Some(ConfigError::InvalidConfiguration));
}

#[test]
fn pool_config_rejects_min_above_max() {
    let url = "mysql://app@localhost:3306/app";
    // the default lower bound (8) is above the explicit upper bound
    let r = pool_config(Some(url.to_string()), Some("4"), None);
    assert_eq!(r.err(), Some(ConfigError::InvalidConfiguration));
}

#[test]
fn pool_config_rejects_zero_min() {
    let url = "mysql://app@localhost:3306/app";
    let r = pool_config(Some(url.to_string()), None, Some("0"));
    assert_eq!(r.err(), Some(ConfigError::InvalidConfiguration));
}

#[test]
fn single_pool_config_defaults_when_size_unset() {
    let url = "redis://localhost/0";
    let cfg = single_pool_config(Some(url.to_string()), None).unwrap();
    assert_eq!(cfg.url, url);
    assert_eq!(cfg.min_pool_size, 32);
    assert_eq!(cfg.max_pool_size, 32);
}

#[test]
fn single_pool_config_takes_explicit_size() {
    let url = "redis://localhost/0";
    let cfg = single_pool_config(Some(url.to_string()), Some("5")).unwrap();
    assert_eq!(cfg.min_pool_size, 5);
    assert_eq!(cfg.max_pool_size, 5);
}

#[test]
fn single_pool_config_rejects_zero_and_non_numeric_sizes() {
    let url = "redis://localhost/0";
    let r = single_pool_config(Some(url.to_string()), Some("0"));
    assert_eq!(r.err(), Some(ConfigError::InvalidConfiguration));
    let r = single_pool_config(Some(url.to_string()), Some("a few"));
    assert_eq!(r.err(), Some(ConfigError::InvalidConfiguration));
}

#[test]
fn single_pool_config_missing_url_is_missing_configuration() {
    let r = single_pool_config(None, Some("5"));
    assert_eq!(r.err(), Some(ConfigError::MissingConfiguration));
}

#[test]
fn error_messages_name_each_failure() {
    assert_eq!(
        ConfigError::MissingConfiguration.message(),
        "required configuration variable is not set"
    );
    assert_eq!(
        ConfigError::InvalidConfiguration.message(),
        "configuration variable holds an invalid value"
    );
    assert_eq!(ConfigError::PoolConstructionError.message(), "the pool could not be built");
}
