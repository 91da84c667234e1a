use message_board::auth::ApiKeyMiddleware;
use message_board::backup::{
    backup_interval_secs, backup_object_key, should_prune_backup, BackupConfig, ConfigError,
};
use message_board::security_headers::SecurityHeaders;
use message_board::strutil::{parse_i64, parse_u64};

#[test]
fn test_backup_config_from_complete_values() {
    let config = BackupConfig::from_values(
        Some("my-bucket".to_string()),
        Some("snapshots".to_string()),
        Some("eu-central-1".to_string()),
        Some("7".to_string()),
        Some("6".to_string()),
        Some("-5".to_string()),
    )
    .unwrap();
    assert_eq!(config.bucket_name, "my-bucket");
    assert_eq!(config.prefix, "snapshots");
    assert_eq!(config.region, "eu-central-1");
    assert_eq!(config.retention_days, 7);
    assert_eq!(config.backup_interval_hours, 6);
    assert_eq!(config.compression_level, -5);
}

#[test]
fn test_backup_config_requires_bucket_and_region() {
    let missing_bucket = BackupConfig::from_values(
        None,
        None,
        Some("eu-central-1".to_string()),
        None,
        None,
        None,
    );
    assert_eq!(missing_bucket.unwrap_err(), ConfigError::MissingBucket);

    let missing_region =
        BackupConfig::from_values(Some("b".to_string()), None, None, None, None, None);
    assert_eq!(missing_region.unwrap_err(), ConfigError::MissingRegion);
}

#[test]
fn test_backup_config_defaults() {
    let config = BackupConfig::from_values(
        Some("b".to_string()),
        None,
        Some("r".to_string()),
        Some("abc".to_string()),
        None,
        Some("2147483648".to_string()),
    )
    .unwrap();
    assert_eq!(config.prefix, "message-backups");
    assert_eq!(config.retention_days, 30);
    assert_eq!(config.backup_interval_hours, 24);
    assert_eq!(config.compression_level, 3);
}

#[test]
fn test_backup_interval_secs_values() {
    assert_eq!(backup_interval_secs(24), Some(86400));
    assert_eq!(backup_interval_secs(0), Some(0));
    assert_eq!(backup_interval_secs(u64::MAX), None);
}

#[test]
fn test_backup_object_key_shape() {
    assert_eq!(
        backup_object_key("snapshots", "20240101_120000"),
        "snapshots/backup_20240101_120000.json.zst"
    );
}

#[test]
fn test_should_prune_backup_boundary() {
    let day_ms: i64 = 86_400_000;
    let now: i64 = 100 * day_ms;
    assert!(should_prune_backup(now - 31 * day_ms, now, 30));
    assert!(!should_prune_backup(now - 30 * day_ms, now, 30));
    assert!(!should_prune_backup(now, now, 30));
}

#[test]
fn test_parse_u64_values() {
    assert_eq!(parse_u64("0"), Some(0));
    assert_eq!(parse_u64("42"), Some(42));
    assert_eq!(parse_u64("18446744073709551615"), Some(u64::MAX));
    assert_eq!(parse_u64("18446744073709551616"), None);
    assert_eq!(parse_u64(""), None);
    assert_eq!(parse_u64("12a"), None);
    assert_eq!(parse_u64("-3"), None);
}

#[test]
fn test_parse_i64_values() {
    assert_eq!(parse_i64("0"), Some(0));
    assert_eq!(parse_i64("-7"), Some(-7));
    assert_eq!(parse_i64("9223372036854775807"), Some(i64::MAX));
    assert_eq!(parse_i64("-9223372036854775807"), Some(-i64::MAX));
    assert_eq!(parse_i64("9223372036854775808"), None);
    assert_eq!(parse_i64("-"), None);
    assert_eq!(parse_i64(""), None);
    assert_eq!(parse_i64("1.5"), None);
}

#[test]
fn test_security_header_pairs() {
    let pairs = SecurityHeaders::header_pairs();
    assert_eq!(pairs.len(), 4);
    assert_eq!(pairs[0].0, "Content-Security-Policy");
    assert_eq!(pairs[0].1, "default-src 'none'; frame-ancestors 'none'");
    assert_eq!(pairs[1].0, "X-Content-Type-Options");
    assert_eq!(pairs[1].1, "nosniff");
    assert_eq!(pairs[2].0, "X-Frame-Options");
    assert_eq!(pairs[2].1, "DENY");
    assert_eq!(pairs[3].0, "Strict-Transport-Security");
    assert_eq!(pairs[3].1, "max-age=31536000; includeSubDomains");
}

#[test]
fn test_api_key_matching() {
    let expected = "test-admin-key";
    assert!(ApiKeyMiddleware::api_key_matches(
        &Some(expected.to_string()),
        expected
    ));
    assert!(!ApiKeyMiddleware::api_key_matches(
        &Some("wrong".to_string()),
        expected
    ));
    assert!(!ApiKeyMiddleware::api_key_matches(&None, expected));
}
