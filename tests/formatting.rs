use pm2_control::display::{calculate_uptime, decimal_string, format_memory};

const NOW: u64 = 1_700_000_000;

fn started_secs_ago(secs: u64) -> u64 {
    (NOW - secs) * 1000
}

#[test]
fn decimal_rendering() {
    assert_eq!(decimal_string(0), "0");
    assert_eq!(decimal_string(7), "7");
    assert_eq!(decimal_string(10), "10");
    assert_eq!(decimal_string(1234567890), "1234567890");
    assert_eq!(decimal_string(u64::MAX), u64::MAX.to_string());
}

#[test]
fn memory_in_whole_megabytes() {
    assert_eq!(format_memory(52428800), "50 MB");
    assert_eq!(format_memory(0), "0 MB");
    assert_eq!(format_memory(1048575), "0 MB");
    assert_eq!(format_memory(3 * 1048576 + 1), "3 MB");
}

#[test]
fn uptime_unknown_start() {
    assert_eq!(calculate_uptime(0, NOW), "0s");
}

#[test]
fn uptime_days_and_hours() {
    assert_eq!(calculate_uptime(started_secs_ago(90000), NOW), "1d 1h");
    assert_eq!(calculate_uptime(started_secs_ago(3 * 86400), NOW), "3d 0h");
}

#[test]
fn uptime_hours() {
    assert_eq!(calculate_uptime(started_secs_ago(3600), NOW), "1h");
    assert_eq!(calculate_uptime(started_secs_ago(86399), NOW), "23h");
}

#[test]
fn uptime_seconds() {
    assert_eq!(calculate_uptime(started_secs_ago(30), NOW), "30s");
    assert_eq!(calculate_uptime(started_secs_ago(3599), NOW), "3599s");
}

#[test]
fn uptime_ignores_milliseconds() {
    assert_eq!(calculate_uptime(started_secs_ago(30) + 999, NOW), "30s");
}

#[test]
fn uptime_start_in_future_is_clamped() {
    assert_eq!(calculate_uptime((NOW + 500) * 1000, NOW), "0s");
}
