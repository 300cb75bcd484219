use colang::config::{statement_timeout_sql, AppConfig, ConfigError, ConfigSlot, DbConfig, DEFAULT_JWT_TTL_SECS};
use colang::decimal::{format_i64, format_u64, parse_i64, parse_u64, parse_usize};

#[test]
fn parse_u64_reads_plain_and_signed_digits() {
    assert_eq!(parse_u64("0"), Some(0));
    assert_eq!(parse_u64("604800"), Some(604800));
    assert_eq!(parse_u64("+42"), Some(42));
    assert_eq!(parse_u64("18446744073709551615"), Some(u64::MAX));
}

#[test]
fn parse_u64_refuses_what_str_parse_refuses() {
    assert_eq!(parse_u64(""), None);
    assert_eq!(parse_u64("+"), None);
    assert_eq!(parse_u64("-1"), None);
    assert_eq!(parse_u64("12a"), None);
    assert_eq!(parse_u64(" 12"), None);
    assert_eq!(parse_u64("18446744073709551616"), None);
    for s in ["", "+", "-1", "12a", "7", "+7", "99999999999999999999"] {
        assert_eq!(parse_u64(s), s.parse::<u64>().ok(), "{}", s);
    }
}

#[test]
fn parse_i64_reads_both_signs_and_the_extremes() {
    assert_eq!(parse_i64("-17"), Some(-17));
    assert_eq!(parse_i64("+17"), Some(17));
    assert_eq!(parse_i64("9223372036854775807"), Some(i64::MAX));
    assert_eq!(parse_i64("-9223372036854775808"), Some(i64::MIN));
    assert_eq!(parse_i64("9223372036854775808"), None);
    assert_eq!(parse_i64("-9223372036854775809"), None);
    assert_eq!(parse_i64("-"), None);
    assert_eq!(parse_i64("--1"), None);
}

#[test]
fn parse_usize_matches_str_parse() {
    for s in ["0", "200", "+5", "abc", "", "-3"] {
        assert_eq!(parse_usize(s), s.parse::<usize>().ok(), "{}", s);
    }
}

#[test]
fn formatting_integers_matches_to_string_and_reads_back() {
    for n in [0i64, 7, -7, 10, 1234567890, i64::MAX, i64::MIN] {
        let s = format_i64(n);
        assert_eq!(s, n.to_string());
        assert_eq!(parse_i64(&s), Some(n));
    }
    for n in [0u64, 9, 10, 99, 100, u64::MAX] {
        let s = format_u64(n);
        assert_eq!(s, n.to_string());
        assert_eq!(parse_u64(&s), Some(n));
    }
}

#[test]
fn db_config_default_has_the_standard_pool() {
    let d = DbConfig::default();
    assert_eq!(d.url, "");
    assert_eq!(d.pool_size, 15);
    assert_eq!(d.min_idle, 5);
    assert_eq!(d.connection_timeout, 30000);
    assert_eq!(d.helper_threads, 4);
    assert_eq!(d.statement_timeout, 5000);
    assert_eq!(d.tcp_timeout, 30000);
    assert!(!d.enforce_tls);
}

#[test]
fn config_from_values_uses_defaults_and_reads_the_ttl() {
    let c = AppConfig::from_values(None, Some("postgres://db".to_string()), Some("s3cret".to_string()), None)
        .unwrap();
    assert_eq!(c.bind_addr, "0.0.0.0:8119");
    assert_eq!(c.database.url, "postgres://db");
    assert_eq!(c.database.pool_size, 15);
    assert_eq!(c.jwt_secret, "s3cret");
    assert_eq!(c.jwt_ttl_secs, 604800);
    assert_eq!(DEFAULT_JWT_TTL_SECS, 60 * 60 * 24 * 7);

    let c = AppConfig::from_values(
        Some("127.0.0.1:9000".to_string()),
        Some("u".to_string()),
        Some("k".to_string()),
        Some("3600".to_string()),
    )
    .unwrap();
    assert_eq!(c.bind_addr, "127.0.0.1:9000");
    assert_eq!(c.jwt_ttl_secs, 3600);

    let c = AppConfig::from_values(None, Some("u".to_string()), Some("k".to_string()), Some("soon".to_string()))
        .unwrap();
    assert_eq!(c.jwt_ttl_secs, 604800);
}

#[test]
fn config_from_values_requires_database_url_then_secret() {
    let e = AppConfig::from_values(None, None, None, None).err().unwrap();
    assert_eq!(e, ConfigError::MissingDatabaseUrl);
    assert_eq!(e.message(), "DATABASE_URL is required");
    let e = AppConfig::from_values(None, Some("u".to_string()), None, None).err().unwrap();
    assert_eq!(e, ConfigError::MissingJwtSecret);
    assert_eq!(e.message(), "JWT_SECRET is required");
}

#[test]
fn config_slot_keeps_the_first_configuration() {
    let mut slot = ConfigSlot::new();
    assert!(!slot.is_set());
    let first = AppConfig::from_values(None, Some("first".to_string()), Some("k".to_string()), None).unwrap();
    let second = AppConfig::from_values(None, Some("second".to_string()), Some("k".to_string()), None).unwrap();
    assert!(slot.set(first).is_ok());
    assert!(slot.is_set());
    assert_eq!(AppConfig::get(&slot).database.url, "first");
    let refused = slot.set(second).err().unwrap();
    assert_eq!(refused.database.url, "second");
    assert_eq!(AppConfig::get(&slot).database.url, "first");
}

#[test]
fn statement_timeout_statement() {
    assert_eq!(statement_timeout_sql(5000), "SET statement_timeout = 5000");
    assert_eq!(statement_timeout_sql(0), "SET statement_timeout = 0");
}
