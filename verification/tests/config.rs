use lemon::adapters::ConfigLoader;
use lemon::config::{Config, Environment};

#[test]
fn builds_config_from_the_settings_file_fields() {
    let expected = Config::new(
        "0.0.0.0:8080".to_string(),
        "127.0.0.1:9090".to_string(),
        Environment::Development,
    )
    .unwrap();
    let config = Config::from_fields(
        "0.0.0.0:8080".to_string(),
        "127.0.0.1:9090".to_string(),
        "development",
    )
    .unwrap();
    assert_eq!(expected, config);
    assert_eq!(config.http_address(), "0.0.0.0:8080");
    assert_eq!(config.metrics_address(), "127.0.0.1:9090");
    assert_eq!(config.environment(), &Environment::Development);
}

#[test]
fn reads_production_environment() {
    assert_eq!(Environment::from_name("production").unwrap(), Environment::Production);
    assert_eq!(Environment::from_name("development").unwrap(), Environment::Development);
}

#[test]
fn refuses_unknown_environment() {
    let err = Environment::from_name("staging").unwrap_err();
    assert_eq!(err.message(), "invalid environment: staging");
    let err = Config::from_fields("a".to_string(), "b".to_string(), "Production").unwrap_err();
    assert_eq!(err.message(), "invalid environment: Production");
}

#[test]
fn refuses_empty_http_address() {
    let err = Config::new(String::new(), "127.0.0.1:9090".to_string(), Environment::Production)
        .unwrap_err();
    assert_eq!(err.message(), "http_address can't be empty");
}

#[test]
fn refuses_empty_metrics_address() {
    let err = Config::new("0.0.0.0:8080".to_string(), String::new(), Environment::Production)
        .unwrap_err();
    assert_eq!(err.message(), "metrics_address can't be empty");
}

#[test]
fn checks_the_environment_before_the_addresses() {
    let err = Config::from_fields(String::new(), String::new(), "qa").unwrap_err();
    assert_eq!(err.message(), "invalid environment: qa");
}

#[test]
fn checks_the_http_address_first() {
    let err = Config::new(String::new(), String::new(), Environment::Development).unwrap_err();
    assert_eq!(err.message(), "http_address can't be empty");
}

#[test]
fn loader_keeps_its_path() {
    let loader = ConfigLoader::new("config/lemon.toml".to_string());
    assert_eq!(loader.path(), "config/lemon.toml");
}
