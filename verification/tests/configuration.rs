use flowsink::config::{build_config, ConfigError};

fn s(v: &str) -> Option<String> {
    Some(String::from(v))
}

fn full(
    batch: Option<String>,
    flush: Option<String>,
    attempts: Option<String>,
    delay: Option<String>,
) -> Result<flowsink::config::Config, ConfigError> {
    build_config(
        s("http://localhost:8086"),
        s("token-for-tests"),
        s("lab"),
        s("netflow"),
        None,
        batch,
        flush,
        attempts,
        delay,
    )
}

#[test]
fn defaults_apply() {
    let c = full(None, None, None, None).expect("configuration should build");
    assert_eq!(c.influxdb_url, "http://localhost:8086");
    assert_eq!(c.influxdb_org, "lab");
    assert_eq!(c.influxdb_bucket, "netflow");
    assert_eq!(c.goflow2_input_file, "/dev/stdin");
    assert_eq!(c.batch_size, 100);
    assert_eq!(c.flush_interval_seconds, 10);
    assert_eq!(c.retry_attempts, 3);
    assert_eq!(c.retry_delay_ms, 1000);
}

#[test]
fn explicit_settings_apply() {
    let c = full(s("25"), s("2"), s("5"), s("150")).expect("configuration should build");
    assert_eq!(c.batch_size, 25);
    assert_eq!(c.flush_interval_seconds, 2);
    assert_eq!(c.retry_attempts, 5);
    assert_eq!(c.retry_delay_ms, 150);
    let policy = c.retry_policy();
    assert_eq!(policy.attempts, 5);
    assert_eq!(policy.delay_ms, 150);
    assert_eq!(c.pacing_ms(), 2000);
}

#[test]
fn missing_sink_settings_are_fatal() {
    let r = build_config(None, None, None, None, None, None, None, None, None);
    assert!(matches!(r, Err(ConfigError::MissingUrl)));
    let r = build_config(s("u"), None, None, None, None, None, None, None, None);
    assert!(matches!(r, Err(ConfigError::MissingToken)));
    let r = build_config(s("u"), s("t"), None, None, None, None, None, None, None);
    assert!(matches!(r, Err(ConfigError::MissingOrg)));
    let r = build_config(s("u"), s("t"), s("o"), None, None, None, None, None, None);
    assert!(matches!(r, Err(ConfigError::MissingBucket)));
}

#[test]
fn zero_capacity_rejected() {
    assert!(matches!(full(s("0"), None, None, None), Err(ConfigError::InvalidBatchSize)));
}

#[test]
fn malformed_numbers_rejected() {
    assert!(matches!(full(s("abc"), None, None, None), Err(ConfigError::InvalidBatchSize)));
    assert!(matches!(full(s("-5"), None, None, None), Err(ConfigError::InvalidBatchSize)));
    assert!(matches!(
        full(None, s("99999999999999999999"), None, None),
        Err(ConfigError::InvalidFlushInterval)
    ));
    assert!(matches!(
        full(None, None, s("0"), None),
        Err(ConfigError::InvalidRetryAttempts)
    ));
    assert!(matches!(
        full(None, None, s("4294967296"), None),
        Err(ConfigError::InvalidRetryAttempts)
    ));
    assert!(matches!(
        full(None, None, None, s("ten")),
        Err(ConfigError::InvalidRetryDelay)
    ));
}

#[test]
fn input_file_setting_applies() {
    let c = build_config(
        s("u"),
        s("t"),
        s("o"),
        s("b"),
        s("/var/log/flows.jsonl"),
        None,
        None,
        None,
        None,
    )
    .expect("configuration should build");
    assert_eq!(c.goflow2_input_file, "/var/log/flows.jsonl");
}
