use openusb::device::{DeviceState, UsbDevice, UsbSpeed};
use openusb::history::record_for_event;
use openusb::hooks::hook_for_event;
use openusb::protocol::ServerEvent;
use openusb::server_config::EventsSection;

fn device() -> UsbDevice {
    UsbDevice {
        id: 3,
        bus_id: "1-3".into(),
        vendor_id: 0x04b8,
        product_id: 0x0005,
        device_class: 7,
        device_subclass: 1,
        device_protocol: 2,
        vendor_name: Some("Seiko Epson Corp.".into()),
        product_name: Some("Printer".into()),
        nickname: None,
        serial: None,
        num_configurations: 1,
        speed: UsbSpeed::High,
        state: DeviceState::NotShared,
    }
}

#[test]
fn history_rows_for_events() {
    let r = record_for_event(&ServerEvent::DeviceAttached { device: device() });
    assert_eq!(r.event_type, "device_attached");
    assert_eq!(r.bus_id.as_deref(), Some("1-3"));
    assert_eq!(r.device_name.as_deref(), Some("Printer"));
    assert_eq!(r.details.as_deref(), Some("04b8:0005"));
    let r = record_for_event(&ServerEvent::BandwidthAlert { bus_id: "2-1".into(), bytes_per_sec: 1048576 });
    assert_eq!(r.event_type, "bandwidth_alert");
    assert_eq!(r.details.as_deref(), Some("1048576 bytes/sec"));
    let r = record_for_event(&ServerEvent::ClientConnected { client_ip: "10.0.0.9".into(), client_name: Some("laptop".into()) });
    assert_eq!((r.event_type.as_str(), r.client_ip.as_deref(), r.details.as_deref()), ("client_connected", Some("10.0.0.9"), Some("laptop")));
    let r = record_for_event(&ServerEvent::AuthFailed { client_ip: "unknown".into(), reason: "bad".into() });
    assert_eq!((r.event_type.as_str(), r.details.as_deref(), r.bus_id), ("auth_failed", Some("bad"), None));
    let r = record_for_event(&ServerEvent::DeviceInUse { bus_id: "1-1".into(), client_ip: "1.2.3.4".into() });
    assert_eq!((r.event_type.as_str(), r.client_ip.as_deref()), ("device_in_use", Some("1.2.3.4")));
    for (e, t) in [
        (ServerEvent::DeviceDetached { bus_id: "x".into() }, "device_detached"),
        (ServerEvent::DeviceShared { bus_id: "x".into() }, "device_shared"),
        (ServerEvent::DeviceUnshared { bus_id: "x".into() }, "device_unshared"),
        (ServerEvent::DeviceReleased { bus_id: "x".into() }, "device_released"),
    ] {
        let r = record_for_event(&e);
        assert_eq!(r.event_type, t);
        assert_eq!(r.bus_id.as_deref(), Some("x"));
        assert_eq!(r.details, None);
    }
    let r = record_for_event(&ServerEvent::ClientDisconnected { client_ip: "ip".into() });
    assert_eq!((r.event_type.as_str(), r.client_ip.as_deref()), ("client_disconnected", Some("ip")));
}

fn config(attach: &str) -> EventsSection {
    EventsSection {
        on_attach: attach.into(),
        on_detach: "echo detach".into(),
        on_client_connect: "echo hi".into(),
        on_client_disconnect: String::new(),
    }
}

#[test]
fn hooks_for_events() {
    let h = hook_for_event(&ServerEvent::DeviceAttached { device: device() }, &config("notify")).unwrap();
    assert_eq!(h.script, "notify");
    let env: Vec<(&str, &str)> = h.env.iter().map(|(k, v)| (k.as_str(), v.as_str())).collect();
    assert_eq!(env, vec![
        ("OPENUSB_BUS_ID", "1-3"),
        ("OPENUSB_VID_PID", "04b8:0005"),
        ("OPENUSB_DEVICE_NAME", "Printer"),
        ("OPENUSB_EVENT", "attach"),
    ]);
    assert!(hook_for_event(&ServerEvent::DeviceAttached { device: device() }, &config("")).is_none());
    let h = hook_for_event(&ServerEvent::ClientConnected { client_ip: "1.1.1.1".into(), client_name: None }, &config("")).unwrap();
    assert_eq!(h.env[1], ("OPENUSB_CLIENT_NAME".to_string(), "unknown".to_string()));
    assert_eq!(h.env[2].1, "client_connect");
    let h = hook_for_event(&ServerEvent::DeviceDetached { bus_id: "1-1".into() }, &config("")).unwrap();
    assert_eq!(h.env.len(), 2);
    assert!(hook_for_event(&ServerEvent::ClientDisconnected { client_ip: "x".into() }, &config("")).is_none());
    assert!(hook_for_event(&ServerEvent::DeviceShared { bus_id: "1-1".into() }, &config("x")).is_none());
}
