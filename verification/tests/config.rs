use prune_backup::{parse_keep_last, resolve_config, RetentionConfig, RetentionFileConfig, RETENTION_FILE_NAME};

#[test]
fn test_default_config() {
    let config = RetentionConfig::default();
    assert_eq!(config.keep_last, 5);
    assert_eq!(config.keep_hourly, 24);
    assert_eq!(config.keep_daily, 7);
    assert_eq!(config.keep_weekly, 4);
    assert_eq!(config.keep_monthly, 12);
    assert_eq!(config.keep_yearly, 10);
}

#[test]
fn test_resolve_config_all_defaults() {
    // No CLI args, no file config -> all defaults
    let config = resolve_config(None, None, None, None, None, None, None);
    assert_eq!(config, RetentionConfig::default());
}

#[test]
fn test_resolve_config_file_values() {
    // File config values should be used when no CLI args
    let file_config = RetentionFileConfig {
        keep_last: Some(10),
        keep_hourly: Some(48),
        keep_daily: None,
        keep_weekly: Some(8),
        keep_monthly: None,
        keep_yearly: Some(5),
    };

    let config = resolve_config(None, None, None, None, None, None, Some(&file_config));

    assert_eq!(config.keep_last, 10);
    assert_eq!(config.keep_hourly, 48);
    assert_eq!(config.keep_daily, 7); // default
    assert_eq!(config.keep_weekly, 8);
    assert_eq!(config.keep_monthly, 12); // default
    assert_eq!(config.keep_yearly, 5);
}

#[test]
fn test_resolve_config_cli_overrides_file() {
    // CLI args should override file config
    let file_config = RetentionFileConfig {
        keep_last: Some(10),
        keep_hourly: Some(48),
        keep_daily: Some(14),
        keep_weekly: Some(8),
        keep_monthly: Some(24),
        keep_yearly: Some(5),
    };

    let config = resolve_config(
        Some(3),  // CLI override
        None,     // use file
        Some(30), // CLI override
        None,     // use file
        None,     // use file
        Some(2),  // CLI override
        Some(&file_config),
    );

    assert_eq!(config.keep_last, 3); // CLI
    assert_eq!(config.keep_hourly, 48); // file
    assert_eq!(config.keep_daily, 30); // CLI
    assert_eq!(config.keep_weekly, 8); // file
    assert_eq!(config.keep_monthly, 24); // file
    assert_eq!(config.keep_yearly, 2); // CLI
}

#[test]
fn test_resolve_config_cli_only() {
    // CLI args with no file config
    let config = resolve_config(Some(1), Some(12), Some(3), Some(2), Some(6), Some(3), None);

    assert_eq!(config.keep_last, 1);
    assert_eq!(config.keep_hourly, 12);
    assert_eq!(config.keep_daily, 3);
    assert_eq!(config.keep_weekly, 2);
    assert_eq!(config.keep_monthly, 6);
    assert_eq!(config.keep_yearly, 3);
}

#[test]
fn file_config_default_sets_nothing() {
    let f = RetentionFileConfig::default();
    let config = resolve_config(None, Some(1), None, None, None, None, Some(&f));
    assert_eq!(config.keep_last, 5);
    assert_eq!(config.keep_hourly, 1);
    assert_eq!(config.keep_yearly, 10);
}

#[test]
fn retention_file_name_is_hidden_dotfile() {
    assert_eq!(RETENTION_FILE_NAME, ".retention");
}

#[test]
fn parse_keep_last_accepts_positive_numbers() {
    assert_eq!(parse_keep_last("1"), Ok(1));
    assert_eq!(parse_keep_last("42"), Ok(42));
    assert_eq!(parse_keep_last("+7"), Ok(7));
    assert_eq!(parse_keep_last("007"), Ok(7));
}

#[test]
fn parse_keep_last_rejects_zero() {
    assert_eq!(parse_keep_last("0"), Err("keep-last must be at least 1".to_string()));
    assert_eq!(parse_keep_last("+0"), Err("keep-last must be at least 1".to_string()));
}

#[test]
fn parse_keep_last_rejects_non_numbers() {
    assert_eq!(parse_keep_last("abc"), Err("'abc' is not a valid number".to_string()));
    assert_eq!(parse_keep_last(""), Err("'' is not a valid number".to_string()));
    assert_eq!(parse_keep_last("+"), Err("'+' is not a valid number".to_string()));
    assert_eq!(parse_keep_last("-3"), Err("'-3' is not a valid number".to_string()));
    assert_eq!(parse_keep_last("1 2"), Err("'1 2' is not a valid number".to_string()));
}

#[test]
fn parse_keep_last_rejects_overflow() {
    let too_big = "99999999999999999999999999";
    assert_eq!(parse_keep_last(too_big), Err(format!("'{}' is not a valid number", too_big)));
    assert_eq!(parse_keep_last(&usize::MAX.to_string()), Ok(usize::MAX));
}

#[test]
fn parse_keep_last_agrees_with_std_parse() {
    for s in ["0", "1", "+1", "-1", "12x", "", "+", "++1", "18446744073709551615", "18446744073709551616", "٣"] {
        let ours = parse_keep_last(s);
        match s.parse::<usize>() {
            Ok(0) => assert!(ours.is_err()),
            Ok(v) => assert_eq!(ours, Ok(v)),
            Err(_) => assert_eq!(ours, Err(format!("'{}' is not a valid number", s))),
        }
    }
}
