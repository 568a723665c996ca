use openusb::device::{DeviceState, Timestamp, UsbDevice, UsbSpeed};
use openusb::discovery::{discovered_server, mdns_registration, service_type};
use openusb::reconnect::{after_attempt, ReconnectStep};
use openusb::status::{api_base_url, device_line, server_info, servers_found_text};

fn device(state: DeviceState) -> UsbDevice {
    UsbDevice {
        id: 3,
        bus_id: "1-1.3".into(),
        vendor_id: 0x0765,
        product_id: 0x5020,
        device_class: 0,
        device_subclass: 0,
        device_protocol: 0,
        vendor_name: None,
        product_name: Some("Colorimeter".into()),
        nickname: None,
        serial: None,
        num_configurations: 1,
        speed: UsbSpeed::Full,
        state,
    }
}

#[test]
fn server_info_reports_uptime_and_auth() {
    let start = Timestamp { secs: 1000, nanos: 900_000_000 };
    let now = Timestamp { secs: 1060, nanos: 100_000_000 };
    let i = server_info(&"pi".to_string(), "raspberrypi".into(), "0.1.0", 8443, 3240, 5, start, now, true, "password");
    assert_eq!(i.uptime_seconds, 59);
    assert!(i.auth_required);
    assert_eq!((i.name.as_str(), i.hostname.as_str(), i.version.as_str()), ("pi", "raspberrypi", "0.1.0"));
    assert_eq!((i.api_port, i.usbip_port, i.device_count, i.client_count), (8443, 3240, 5, 0));
    let i = server_info(&"pi".to_string(), "h".into(), "v", 1, 2, 0, now, start, false, "open");
    assert_eq!(i.uptime_seconds, 59);
    assert!(!i.auth_required);
}

#[test]
fn listing_lines() {
    assert_eq!(device_line(&device(DeviceState::NotShared)), "  1-1.3 (Colorimeter) [0765:5020] — not shared");
    assert_eq!(device_line(&device(DeviceState::Available)), "  1-1.3 (Colorimeter) [0765:5020] — available");
    let busy = DeviceState::InUse { client_ip: "10.0.0.2".into(), client_name: None, since: Timestamp { secs: 0, nanos: 0 } };
    assert_eq!(device_line(&device(busy)), "  1-1.3 (Colorimeter) [0765:5020] — in use by 10.0.0.2");
    assert_eq!(servers_found_text(0), "No servers found");
    assert_eq!(servers_found_text(1), "1 server found");
    assert_eq!(servers_found_text(12), "12 servers found");
    assert_eq!(api_base_url("pi.local", 8443), "http://pi.local:8443/api/v1");
}

#[test]
fn discovery_values() {
    assert_eq!(service_type(), "_openusb._tcp.local.");
    let s = discovered_server(Some("Living room"), Some("9000"), Some("0.2"), Some("192.168.1.5".into()), "pi.local.", 3240);
    assert_eq!((s.name.as_str(), s.api_port, s.version.as_str(), s.host.as_str(), s.port), ("Living room", 9000, "0.2", "192.168.1.5", 3240));
    let s = discovered_server(None, Some("x"), None, None, "pi.local.", 1);
    assert_eq!((s.name.as_str(), s.api_port, s.version.as_str(), s.host.as_str()), ("", 8443, "", "pi.local."));
    let r = mdns_registration("_openusb._tcp", "pi", "raspberrypi", "0.1.0", 8443);
    assert_eq!(r.service_type, "_openusb._tcp.");
    assert_eq!(r.host_name, "raspberrypi.local.");
    assert_eq!(r.instance_name, "pi");
    assert_eq!(r.port, 8443);
    assert_eq!(r.properties[1], ("api_port".to_string(), "8443".to_string()));
    assert_eq!(r.properties[0].0, "version");
    assert_eq!(r.properties[2], ("name".to_string(), "pi".to_string()));
}

#[test]
fn reconnect_backoff_doubles_up_to_the_cap() {
    assert!(matches!(after_attempt(true, 5, 60), ReconnectStep::Done));
    assert!(matches!(after_attempt(false, 5, 60), ReconnectStep::RetryAfter(10)));
    assert!(matches!(after_attempt(false, 40, 60), ReconnectStep::RetryAfter(60)));
    assert!(matches!(after_attempt(false, 60, 60), ReconnectStep::RetryAfter(60)));
}
