use openusb::device::{DeviceState, Timestamp, UsbDevice, UsbSpeed};
use openusb::filter::DeviceFilterRules;
use openusb::manager::{
    admit_device, after_auto_share, apply_names, error_text, kick_refusal, DeviceRegistry, ManagerError,
};
use openusb::protocol::ServerEvent;
use openusb::strmap::StrMap;
use openusb::usb_ids::UsbIdDatabase;

fn device(bus: &str, vid: u16, pid: u16) -> UsbDevice {
    UsbDevice {
        id: 7,
        bus_id: bus.to_string(),
        vendor_id: vid,
        product_id: pid,
        device_class: 0,
        device_subclass: 0,
        device_protocol: 0,
        vendor_name: None,
        product_name: None,
        nickname: None,
        serial: None,
        num_configurations: 1,
        speed: UsbSpeed::High,
        state: DeviceState::NotShared,
    }
}

fn registry() -> DeviceRegistry {
    let mut r = DeviceRegistry::new();
    r.insert(device("1-1", 0x046d, 0xc52b));
    r.insert(device("1-2", 0x0765, 0x5020));
    r
}

#[test]
fn share_requires_unshared_device() {
    let mut r = registry();
    assert_eq!(r.check_share("9-9"), Err(ManagerError::NotFound));
    assert_eq!(r.check_share("1-1"), Ok(()));
    match r.finish_share("1-1") {
        ServerEvent::DeviceShared { bus_id } => assert_eq!(bus_id, "1-1"),
        _ => panic!("wrong event"),
    }
    assert!(matches!(r.get("1-1").unwrap().state, DeviceState::Available));
    assert_eq!(r.check_share("1-1"), Err(ManagerError::AlreadyShared));
}

#[test]
fn unshare_requires_shared_device() {
    let mut r = registry();
    assert_eq!(r.check_unshare("1-2"), Err(ManagerError::NotShared));
    assert_eq!(r.check_unshare("9-9"), Err(ManagerError::NotFound));
    r.finish_share("1-2");
    assert_eq!(r.check_unshare("1-2"), Ok(()));
    match r.finish_unshare("1-2") {
        ServerEvent::DeviceUnshared { bus_id } => assert_eq!(bus_id, "1-2"),
        _ => panic!("wrong event"),
    }
    assert!(matches!(r.get("1-2").unwrap().state, DeviceState::NotShared));
}

#[test]
fn kick_releases_devices_in_use_only() {
    let mut r = registry();
    assert_eq!(r.kick("9-9").err(), Some(ManagerError::NotFound));
    assert_eq!(r.kick("1-1").err(), Some(ManagerError::NotInUse));
    let mut d = device("1-1", 0x046d, 0xc52b);
    d.state = DeviceState::InUse {
        client_ip: "10.0.0.2".into(),
        client_name: None,
        since: Timestamp { secs: 5, nanos: 0 },
    };
    r.insert(d);
    match r.kick("1-1") {
        Ok(ServerEvent::DeviceReleased { bus_id }) => assert_eq!(bus_id, "1-1"),
        _ => panic!("expected release"),
    }
    assert!(matches!(r.get("1-1").unwrap().state, DeviceState::Available));
}

#[test]
fn nicknames_attach_and_detach() {
    let mut r = registry();
    assert_eq!(r.set_nickname("9-9", "x".into()), Err(ManagerError::NotFound));
    assert_eq!(r.set_nickname("1-2", "Colorimeter".into()), Ok(()));
    assert_eq!(r.get("1-2").unwrap().display_name(), "Colorimeter");
    assert_eq!(r.len(), 2);
    assert_eq!(r.devices().len(), 2);
    match r.device_attached(device("3-1", 1, 2)) {
        ServerEvent::DeviceAttached { device } => assert_eq!(device.bus_id, "3-1"),
        _ => panic!("wrong event"),
    }
    assert_eq!(r.len(), 3);
    assert!(matches!(r.device_detached("3-1"), Some(ServerEvent::DeviceDetached { .. })));
    assert!(r.device_detached("3-1").is_none());
    assert_eq!(r.len(), 2);
}

#[test]
fn names_come_from_nicknames_and_database() {
    let db = UsbIdDatabase::parse("046d  Logitech, Inc.\n\tc52b  Unifying Receiver\n");
    let mut nicknames = StrMap::new();
    nicknames.insert("046d:c52b".to_string(), "Mouse dongle".to_string());
    let mut d = device("1-1", 0x046d, 0xc52b);
    apply_names(&mut d, &nicknames, Some(&db));
    assert_eq!(d.nickname.as_deref(), Some("Mouse dongle"));
    assert_eq!(d.vendor_name.as_deref(), Some("Logitech, Inc."));
    assert_eq!(d.product_name.as_deref(), Some("Unifying Receiver"));
    let mut d = device("1-1", 0x046d, 0xc52b);
    d.vendor_name = Some("Own name".into());
    apply_names(&mut d, &StrMap::new(), None);
    assert_eq!(d.vendor_name.as_deref(), Some("Own name"));
    assert_eq!(d.product_name, None);
    assert_eq!(d.nickname, None);
}

#[test]
fn admitting_and_auto_sharing() {
    let f = DeviceFilterRules::from_config(&["1d6b".to_string()], &[], &[]);
    assert!(admit_device(device("1-1", 0x1d6b, 2), &f, &StrMap::new(), None).is_none());
    let mut d = admit_device(device("1-1", 0x046d, 2), &f, &StrMap::new(), None).unwrap();
    after_auto_share(&mut d, true, false);
    assert!(matches!(d.state, DeviceState::NotShared));
    after_auto_share(&mut d, false, true);
    assert!(matches!(d.state, DeviceState::NotShared));
    after_auto_share(&mut d, true, true);
    assert!(matches!(d.state, DeviceState::Available));
}

#[test]
fn admitted_devices_are_named() {
    let f = DeviceFilterRules::from_config(&[], &[], &[]);
    let db = UsbIdDatabase::parse("046d  Logitech, Inc.\n\tc52b  Unifying Receiver\n");
    let mut nicknames = StrMap::new();
    nicknames.insert("046d:c52b".to_string(), "Mouse dongle".to_string());
    let d = admit_device(device("1-4", 0x046d, 0xc52b), &f, &nicknames, Some(&db)).unwrap();
    assert_eq!(d.bus_id, "1-4");
    assert_eq!(d.nickname.as_deref(), Some("Mouse dongle"));
    assert_eq!(d.vendor_name.as_deref(), Some("Logitech, Inc."));
    assert_eq!(d.product_name.as_deref(), Some("Unifying Receiver"));
    assert_eq!(d.display_name(), "Mouse dongle");
}

#[test]
fn refusals_read_as_messages() {
    assert_eq!(error_text(ManagerError::NotFound, "9-9"), "Device not found: 9-9");
    assert_eq!(error_text(ManagerError::AlreadyShared, "1-1"), "Device 1-1 is already shared");
    assert_eq!(error_text(ManagerError::NotShared, "1-2"), "Device 1-2 is not shared");
    assert_eq!(error_text(ManagerError::NotInUse, "1-2"), "Device is not in use");
    let e = kick_refusal(ManagerError::NotFound);
    assert_eq!((e.status, e.message.as_str()), (404, "Device not found"));
    let e = kick_refusal(ManagerError::NotInUse);
    assert_eq!((e.status, e.message.as_str()), (400, "Device is not in use"));
}
