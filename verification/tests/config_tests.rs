use openusb::client_config::{default_reconnect_delay, ClientConfig};
use openusb::server_config::{
    default_api_port, default_history_days, default_log_file, default_log_level, default_log_max_size,
    default_mdns_name, default_retry_interval, default_rotate_count, default_security_mode,
    default_timezone, default_true, default_usbip_port, DevicesSection, DiscoverySection,
    LoggingSection, MetricsSection, ReverseConnectionsSection, SecuritySection,
};

#[test]
fn config_path_follows_environment_order() {
    let p = ClientConfig::config_path(Some("C:/Users/u/AppData/Roaming".into()), Some("/x".into()), Some("/home/u".into()));
    assert_eq!(p, "C:/Users/u/AppData/Roaming/openusb/client.toml");
    let p = ClientConfig::config_path(None, Some("/home/u/.cfg/".into()), Some("/home/u".into()));
    assert_eq!(p, "/home/u/.cfg/openusb/client.toml");
    let p = ClientConfig::config_path(None, None, Some("/home/u".into()));
    assert_eq!(p, "/home/u/.config/openusb/client.toml");
    let p = ClientConfig::config_path(None, None, None);
    assert_eq!(p, "/etc/openusb/client.toml");
}

#[test]
fn add_and_remove_servers() {
    let mut c = ClientConfig::default();
    assert!(c.auto_reconnect);
    assert_eq!(c.reconnect_delay, 5);
    assert_eq!(default_reconnect_delay(), 5);
    assert!(c.add_server("pi:8443"));
    assert!(!c.add_server("pi:8443"));
    assert!(c.add_server("nas:9000"));
    assert_eq!(c.servers, vec!["pi:8443".to_string(), "nas:9000".to_string()]);
    assert!(c.remove_server("pi:8443"));
    assert!(!c.remove_server("pi:8443"));
    assert_eq!(c.servers, vec!["nas:9000".to_string()]);
}

#[test]
fn remove_server_removes_every_copy() {
    let mut c = ClientConfig::default();
    c.servers = vec!["a".into(), "b".into(), "a".into()];
    assert!(c.remove_server("a"));
    assert_eq!(c.servers, vec!["b".to_string()]);
}

#[test]
fn server_defaults() {
    assert_eq!(default_usbip_port(), 3240);
    assert_eq!(default_api_port(), 8443);
    assert!(default_true());
    assert_eq!(default_mdns_name(), "_openusb._tcp");
    assert_eq!(default_security_mode(), "open");
    assert_eq!(default_timezone(), "UTC");
    assert_eq!(default_history_days(), 90);
    assert_eq!(default_retry_interval(), 15);
    assert_eq!(default_log_level(), "info");
    assert_eq!(default_log_file(), "/var/log/openusb/openusb.log");
    assert_eq!(default_log_max_size(), 50);
    assert_eq!(default_rotate_count(), 5);
    let s = SecuritySection::default();
    assert_eq!(s.mode, "open");
    assert!(!s.tls_enabled);
    let m = MetricsSection::default();
    assert!(m.enabled && m.bandwidth_tracking);
    assert_eq!(m.history_days, 90);
    let l = LoggingSection::default();
    assert_eq!((l.level.as_str(), l.max_size_mb, l.rotate_count), ("info", 50, 5));
    let d = DiscoverySection::default();
    assert!(d.enabled);
    assert_eq!(d.mdns_name, "_openusb._tcp");
    assert_eq!(ReverseConnectionsSection::default().retry_interval, 0);
    assert!(DevicesSection::default().auto_share);
}
