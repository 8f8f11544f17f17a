use psf_guard::config::{Config, ConfigError, PathState, PregenerationConfig};
use std::time::Duration;

#[test]
fn test_default_config() {
    let config = Config::default();
    assert_eq!(config.get_port(), 3000);
    assert_eq!(config.get_host(), "0.0.0.0");
    assert!(config.get_cors_enabled());
    assert_eq!(config.database.path, "schedulerdb.sqlite");
    assert_eq!(config.images.directories, vec!["./images"]);
    assert_eq!(config.get_cache_directory(), "./cache");
    assert_eq!(config.get_file_ttl(), Duration::from_secs(300));
    assert_eq!(config.get_directory_ttl(), Duration::from_secs(300));
}

#[test]
fn test_config_merge_with_cli() {
    let mut config = Config::default();

    config.merge_with_cli(
        Some("/new/database.sqlite".to_string()),
        Some(vec!["/new/images1".to_string(), "/new/images2".to_string()]),
        Some(8080),
        Some("/new/cache".to_string()),
    );

    assert_eq!(config.database.path, "/new/database.sqlite");
    assert_eq!(config.images.directories, vec!["/new/images1", "/new/images2"]);
    assert_eq!(config.get_port(), 8080);
    assert_eq!(config.get_cache_directory(), "/new/cache");
}

#[test]
fn merge_with_cli_keeps_roots_when_list_is_empty() {
    let mut config = Config::default();
    config.merge_with_cli(None, Some(vec![]), None, None);
    assert_eq!(config.images.directories, vec!["./images"]);
    assert_eq!(config.database.path, "schedulerdb.sqlite");
    assert_eq!(config.get_port(), 3000);
}

#[test]
fn test_pregeneration_config_access() {
    let mut config = Config::default();
    config.pregeneration = Some(PregenerationConfig {
        enabled: Some(true),
        screen: Some(false),
        large: Some(true),
        workers: Some(4),
    });

    let pregen_config = config.get_pregeneration().unwrap();
    assert_eq!(pregen_config.enabled, Some(true));
    assert_eq!(pregen_config.screen, Some(false));
    assert_eq!(pregen_config.large, Some(true));
    assert_eq!(pregen_config.workers, Some(4));
}

#[test]
fn test_humantime_ttl_parsing() {
    let mut config = Config::default();
    config.cache.file_ttl = Some("2h30m".to_string());
    config.cache.directory_ttl = Some("10s".to_string());

    assert_eq!(config.get_file_ttl(), Duration::from_secs(2 * 3600 + 30 * 60));
    assert_eq!(config.get_directory_ttl(), Duration::from_secs(10));

    config.cache.file_ttl = Some("invalid".to_string());
    assert_eq!(config.get_file_ttl(), Duration::from_secs(300));
}

#[test]
fn ttl_absent_reads_five_minutes() {
    let mut config = Config::default();
    config.cache.file_ttl = None;
    assert_eq!(config.get_file_ttl(), Duration::from_secs(300));
}

#[test]
fn test_config_validation_invalid_ttl() {
    let mut config = Config::default();
    config.images.directories = vec!["src".to_string()];
    config.database.path = "Cargo.toml".to_string();
    config.cache.file_ttl = Some("invalid_format".to_string());

    let result = config.validate(true, &vec![PathState::Directory]);
    assert!(result.is_err());
    assert!(result.unwrap_err().message().contains("Invalid file_ttl format"));
}

#[test]
fn validation_accepts_default_settings_on_disk() {
    let config = Config::default();
    assert!(config.validate(true, &vec![PathState::Directory]).is_ok());
}

#[test]
fn validation_errors_in_order() {
    let config = Config::default();
    let e = config.validate(false, &vec![PathState::Missing]).unwrap_err();
    assert!(matches!(e, ConfigError::DatabaseMissing(_)));
    assert_eq!(e.message(), "Database file does not exist: schedulerdb.sqlite");

    let e = config.validate(true, &vec![PathState::Missing]).unwrap_err();
    assert_eq!(e.message(), "Image directory does not exist: ./images");

    let e = config.validate(true, &vec![PathState::File]).unwrap_err();
    assert_eq!(e.message(), "Image path is not a directory: ./images");

    let mut empty = Config::default();
    empty.images.directories = vec![];
    let e = empty.validate(true, &vec![]).unwrap_err();
    assert!(matches!(e, ConfigError::NoImageDirectories));

    let mut low = Config::default();
    low.server.port = Some(80);
    let e = low.validate(true, &vec![PathState::Directory]).unwrap_err();
    assert_eq!(e.message(), "Port must be 1024 or higher, got: 80");

    let mut zero = Config::default();
    zero.cache.directory_ttl = Some("0s".to_string());
    let e = zero.validate(true, &vec![PathState::Directory]).unwrap_err();
    assert!(matches!(e, ConfigError::ZeroTtl));

    let mut bad_dir_ttl = Config::default();
    bad_dir_ttl.cache.directory_ttl = Some("soon".to_string());
    let e = bad_dir_ttl.validate(true, &vec![PathState::Directory]).unwrap_err();
    assert_eq!(e.message(), "Invalid directory_ttl format: soon");
}

#[test]
fn duration_text_with_too_many_digits_is_unreadable() {
    let mut config = Config::default();
    config.cache.file_ttl = Some("18446744073709551615s 1000000000ns".to_string());
    assert_eq!(config.get_file_ttl(), Duration::from_secs(300));
    let e = config.validate(true, &vec![PathState::Directory]).unwrap_err();
    assert_eq!(e.message(), "Invalid file_ttl format: 18446744073709551615s 1000000000ns");

    config.cache.file_ttl = Some("10000000000s".to_string());
    assert_eq!(config.get_file_ttl(), Duration::from_secs(10_000_000_000));
}
