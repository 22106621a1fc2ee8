use reach_link::config::{Config, RawConfig};
use reach_link::relay::{
    build_register_payload, build_telemetry_payload, hint_from_response, is_success_status,
    moonraker_query_url, register_url, telemetry_url, unix_timestamp_ms,
};
use reach_link::snapshot::MoonrakerSnapshot;

fn relay_test_config() -> Config {
    let raw = RawConfig {
        relay_url: Some("https://relay.example.com".to_string()),
        token: Some("secret-token".to_string()),
        printer_id: Some("printer-007".to_string()),
        printer_id_fallback: None,
        moonraker_url: None,
        heartbeat_interval: None,
        telemetry_interval: None,
        log_file: None,
        health_port: None,
    };
    Config::from_raw(&raw).unwrap()
}

#[test]
fn test_register_url() {
    assert_eq!(
        register_url("https://relay.example.com"),
        "https://relay.example.com/api/reach-link/register"
    );
}

#[test]
fn test_telemetry_url() {
    assert_eq!(
        telemetry_url("https://relay.example.com"),
        "https://relay.example.com/api/reach-link/printer-data"
    );
}

#[test]
fn test_moonraker_query_url() {
    assert_eq!(
        moonraker_query_url("http://127.0.0.1:7125"),
        "http://127.0.0.1:7125/printer/objects/query?extruder&heater_bed&print_stats&display_status"
    );
}

#[test]
fn test_is_success_status_boundaries() {
    assert!(!is_success_status(199));
    assert!(is_success_status(200));
    assert!(is_success_status(299));
    assert!(!is_success_status(300));
    assert!(!is_success_status(404));
    assert!(!is_success_status(500));
}

#[test]
fn test_hint_only_on_success() {
    assert_eq!(hint_from_response(200, Some(45)), Some(45));
    assert_eq!(hint_from_response(204, Some(45)), Some(45));
    assert_eq!(hint_from_response(200, None), None);
    assert_eq!(hint_from_response(404, Some(45)), None);
    assert_eq!(hint_from_response(500, Some(45)), None);
}

#[test]
fn test_build_register_payload() {
    let config = relay_test_config();
    let p = build_register_payload(&config, 1_700_000_000_000, 360, "1.2.3");
    assert_eq!(p.printer_id, "printer-007");
    assert_eq!(p.token, "secret-token");
    assert_eq!(p.timestamp, 1_700_000_000_000);
    assert_eq!(p.uptime, 360);
    assert_eq!(p.version, "1.2.3");
}

#[test]
fn test_build_telemetry_payload() {
    let config = relay_test_config();
    let snapshot = MoonrakerSnapshot::empty();
    let p = build_telemetry_payload(&config, 42, snapshot);
    assert_eq!(p.printer_id, "printer-007");
    assert_eq!(p.token, "secret-token");
    assert_eq!(p.timestamp, 42);
    assert!(p.temperatures.is_none());
    assert!(p.job.is_none());
    assert!(p.system_health.is_none());
    assert_eq!(p.errors.len(), 0);
    assert_eq!(p.log_tail.len(), 0);
}

#[test]
fn test_unix_timestamp_ms_runs() {
    // The clock's value cannot be pinned; the call must answer, and on a
    // machine whose clock is past the epoch it reads positive.
    let a = unix_timestamp_ms();
    assert!(a > 0);
}
