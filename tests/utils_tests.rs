use config_watcher::utils::{
    decimal_text, healthcheck_endpoint, lock_decision, lockfile_content, needs_host_key,
    notification_query, notify_healthcheck, parse_decimal, parse_duration, recorded_pid,
    ssh_key_usable, known_git_hosts, DurationError, LockDecision, NotifyError,
};

#[test]
fn test_parse_duration() {
    assert_eq!(parse_duration("30s"), Ok(30));
    assert_eq!(parse_duration("5m"), Ok(300));
    assert_eq!(parse_duration("2h"), Ok(7200));
    assert_eq!(parse_duration("1d"), Ok(86400));
    assert_eq!(parse_duration("60"), Ok(60));

    assert!(parse_duration("invalid").is_err());
    assert!(parse_duration("30x").is_err());
}

#[test]
fn duration_boundaries() {
    assert_eq!(parse_duration("30"), Ok(30));
    assert_eq!(parse_duration(""), Err(DurationError::MissingValue));
    assert_eq!(parse_duration("abc"), Err(DurationError::MissingValue));
    assert_eq!(parse_duration("30x"), Err(DurationError::UnknownUnit));
    assert_eq!(parse_duration("30ss"), Err(DurationError::UnknownUnit));
    assert_eq!(parse_duration("  2M \n"), Ok(120));
    assert_eq!(parse_duration("0"), Ok(0));
    assert_eq!(parse_duration("18446744073709551615"), Ok(u64::MAX));
    assert_eq!(parse_duration("18446744073709551616"), Err(DurationError::ValueTooLarge));
    assert_eq!(parse_duration("18446744073709551615d"), Err(DurationError::TooLong));
}

#[test]
fn decimal_parsing() {
    assert_eq!(parse_decimal("42", 100), Some(42));
    assert_eq!(parse_decimal("+7", 100), Some(7));
    assert_eq!(parse_decimal("101", 100), None);
    assert_eq!(parse_decimal("", 100), None);
    assert_eq!(parse_decimal("4 2", 100), None);
    assert_eq!(parse_decimal("-1", 100), None);
}

#[test]
fn decimal_text_writes_digits() {
    assert_eq!(decimal_text(0), "0");
    assert_eq!(decimal_text(4096), "4096");
    assert_eq!(decimal_text(u64::MAX), "18446744073709551615");
}

#[test]
fn lockfile_records_own_pid() {
    let content = lockfile_content(12345);
    assert_eq!(content, "12345\n");
    assert_eq!(recorded_pid(&content), Some(12345));
    assert_eq!(recorded_pid("garbage"), None);
}

#[test]
fn lockfile_rule() {
    assert_eq!(lock_decision(false, None, false), LockDecision::Acquire);
    assert_eq!(lock_decision(true, Some(7), true), LockDecision::Refuse(7));
    assert_eq!(lock_decision(true, Some(7), false), LockDecision::ReplaceStale);
    assert_eq!(lock_decision(true, None, true), LockDecision::ReplaceStale);
}

#[test]
fn ssh_scaffold_rules() {
    assert!(!ssh_key_usable("   \n"));
    assert!(ssh_key_usable("-----BEGIN KEY-----"));
    assert_eq!(
        known_git_hosts(),
        vec!["github.com", "gitlab.com", "bitbucket.org", "azure.com"]
    );
    assert!(needs_host_key(&None, "github.com"));
    assert!(!needs_host_key(&Some("github.com ssh-rsa AAAA".to_string()), "github.com"));
    assert!(needs_host_key(&Some("github.com ssh-rsa AAAA".to_string()), "gitlab.com"));
}

#[test]
fn healthcheck_addresses() {
    assert_eq!(healthcheck_endpoint("", false), None);
    assert_eq!(healthcheck_endpoint("", true), None);
    assert_eq!(healthcheck_endpoint("https://hc.example/ping", false), Some("https://hc.example/ping".to_string()));
    assert_eq!(healthcheck_endpoint("https://hc.example/ping", true), Some("https://hc.example/ping/fail".to_string()));
}

#[test]
fn query_notification_encodes_message() {
    assert_eq!(
        notify_healthcheck("https://hc.example/x", "deploy ok", false),
        Ok("https://hc.example/x?msg=deploy%20ok".to_string())
    );
    assert_eq!(
        notify_healthcheck("https://hc.example/x", "a&b", true),
        Ok("https://hc.example/x?status=fail&msg=a%26b".to_string())
    );
    assert_eq!(notify_healthcheck("not a url", "m", false), Err(NotifyError::InvalidUrl));
    assert_eq!(notification_query("u", "m", true), "u?status=fail&msg=m");
}
