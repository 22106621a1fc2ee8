use reach_link::config::{Config, RawConfig};

fn valid_raw() -> RawConfig {
    RawConfig {
        relay_url: Some("https://relay.example.com".to_string()),
        token: Some("test-token".to_string()),
        printer_id: Some("printer-001".to_string()),
        printer_id_fallback: None,
        moonraker_url: None,
        heartbeat_interval: None,
        telemetry_interval: None,
        log_file: None,
        health_port: None,
    }
}

#[test]
fn test_valid_config() {
    let config = Config::from_raw(&valid_raw());
    assert!(config.is_ok());
    let c = config.unwrap();
    assert_eq!(c.relay_url, "https://relay.example.com");
    assert_eq!(c.printer_id, "printer-001");
}

#[test]
fn test_printer_id_fallback_env() {
    let mut raw = valid_raw();
    raw.printer_id = None;
    raw.printer_id_fallback = Some("printer-fallback".to_string());
    let config = Config::from_raw(&raw);
    assert!(config.is_ok());
    assert_eq!(config.unwrap().printer_id, "printer-fallback");
}

#[test]
fn test_missing_relay() {
    let mut raw = valid_raw();
    raw.relay_url = None;
    let result = Config::from_raw(&raw);
    assert!(result.is_err());
    assert!(result.unwrap_err().contains("REACH_LINK_RELAY"));
}

#[test]
fn test_http_relay_rejected() {
    let mut raw = valid_raw();
    raw.relay_url = Some("http://relay.example.com".to_string());
    let result = Config::from_raw(&raw);
    assert!(result.is_err());
    assert!(result.unwrap_err().contains("HTTPS"));
}

#[test]
fn test_empty_token_rejected() {
    let mut raw = valid_raw();
    raw.token = Some("   ".to_string());
    let result = Config::from_raw(&raw);
    assert!(result.is_err());
    assert!(result.unwrap_err().contains("REACH_LINK_TOKEN"));
}

#[test]
fn test_empty_printer_id_rejected() {
    let mut raw = valid_raw();
    raw.printer_id = Some("".to_string());
    let result = Config::from_raw(&raw);
    assert!(result.is_err());
    assert!(result.unwrap_err().contains("REACH_LINK_PRINTER_ID"));
}

#[test]
fn test_invalid_health_port_rejected() {
    let mut raw = valid_raw();
    raw.health_port = Some("not-a-number".to_string());
    let result = Config::from_raw(&raw);
    assert!(result.is_err());
}

#[test]
fn test_default_health_port() {
    let config = Config::from_raw(&valid_raw()).unwrap();
    assert_eq!(config.health_port, 8080);
}

#[test]
fn test_health_port_parsed() {
    let mut raw = valid_raw();
    raw.health_port = Some("9090".to_string());
    assert_eq!(Config::from_raw(&raw).unwrap().health_port, 9090);
}

#[test]
fn test_health_port_out_of_range_rejected() {
    let mut raw = valid_raw();
    raw.health_port = Some("65536".to_string());
    let result = Config::from_raw(&raw);
    assert!(result.is_err());
    assert!(result.unwrap_err().contains("REACH_LINK_HEALTH_PORT"));
}

#[test]
fn test_health_port_max_accepted() {
    let mut raw = valid_raw();
    raw.health_port = Some("65535".to_string());
    assert_eq!(Config::from_raw(&raw).unwrap().health_port, 65535);
}

#[test]
fn test_interval_defaults() {
    let c = Config::from_raw(&valid_raw()).unwrap();
    assert_eq!(c.heartbeat_interval_secs, 30);
    assert_eq!(c.telemetry_interval_secs, 10);
}

#[test]
fn test_interval_overrides_parsed() {
    let mut raw = valid_raw();
    raw.heartbeat_interval = Some("60".to_string());
    raw.telemetry_interval = Some("5".to_string());
    let c = Config::from_raw(&raw).unwrap();
    assert_eq!(c.heartbeat_interval_secs, 60);
    assert_eq!(c.telemetry_interval_secs, 5);
}

#[test]
fn test_malformed_interval_falls_back() {
    let mut raw = valid_raw();
    raw.heartbeat_interval = Some("soon".to_string());
    raw.telemetry_interval = Some("-3".to_string());
    let c = Config::from_raw(&raw).unwrap();
    assert_eq!(c.heartbeat_interval_secs, 30);
    assert_eq!(c.telemetry_interval_secs, 10);
}

#[test]
fn test_moonraker_default() {
    let c = Config::from_raw(&valid_raw()).unwrap();
    assert_eq!(c.moonraker_url, "http://127.0.0.1:7125");
}

#[test]
fn test_moonraker_trailing_slashes_stripped() {
    let mut raw = valid_raw();
    raw.moonraker_url = Some("http://printer.local:7125///".to_string());
    let c = Config::from_raw(&raw).unwrap();
    assert_eq!(c.moonraker_url, "http://printer.local:7125");
}

#[test]
fn test_missing_token() {
    let mut raw = valid_raw();
    raw.token = None;
    let result = Config::from_raw(&raw);
    assert!(result.is_err());
    assert!(result.unwrap_err().contains("REACH_LINK_TOKEN"));
}

#[test]
fn test_both_printer_ids_missing_names_both_keys() {
    let mut raw = valid_raw();
    raw.printer_id = None;
    raw.printer_id_fallback = None;
    let result = Config::from_raw(&raw);
    assert!(result.is_err());
    let msg = result.unwrap_err();
    assert!(msg.contains("REACH_LINK_PRINTER_ID"));
    assert!(msg.contains("REACH_PRINTER_ID"));
}

#[test]
fn test_primary_printer_id_wins_over_fallback() {
    let mut raw = valid_raw();
    raw.printer_id = Some("primary".to_string());
    raw.printer_id_fallback = Some("secondary".to_string());
    assert_eq!(Config::from_raw(&raw).unwrap().printer_id, "primary");
}

#[test]
fn test_log_file_passed_through() {
    let mut raw = valid_raw();
    raw.log_file = Some("/var/log/agent.log".to_string());
    let c = Config::from_raw(&raw).unwrap();
    assert_eq!(c.log_file.as_deref(), Some("/var/log/agent.log"));
}
