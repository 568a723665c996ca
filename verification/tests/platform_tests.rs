use openusb::device::{DeviceState, UsbDevice, UsbSpeed};
use openusb::manager::ManagerError;
use openusb::platform_linux::{hotplug_changes, HotplugPoller, LinuxPlatform, SysfsAttrs};
use openusb::platform_sim::SimulatedPlatform;
use openusb::protocol::HotplugEvent;

fn attrs() -> SysfsAttrs {
    SysfsAttrs {
        id_vendor: Some("046d\n".into()),
        id_product: Some("c52b\n".into()),
        device_class: Some("1ff\n".into()),
        device_subclass: None,
        device_protocol: Some("zz".into()),
        speed: Some("480\n".into()),
        num_configurations: Some(" 2 ".into()),
        serial: Some("ABC123\n".into()),
        product: Some(" Receiver \n".into()),
        manufacturer: None,
    }
}

#[test]
fn sysfs_values_parse() {
    assert_eq!(LinuxPlatform::parse_hex_u16(" 046d\n"), Some(0x046d));
    assert_eq!(LinuxPlatform::parse_hex_u16("x"), None);
    assert_eq!(LinuxPlatform::parse_dec_u8("255"), Some(255));
    assert_eq!(LinuxPlatform::parse_dec_u8("256"), None);
    assert_eq!(LinuxPlatform::parse_speed("1.5"), UsbSpeed::Low);
    assert_eq!(LinuxPlatform::parse_speed("12\n"), UsbSpeed::Full);
    assert_eq!(LinuxPlatform::parse_speed("480"), UsbSpeed::High);
    assert_eq!(LinuxPlatform::parse_speed("5000"), UsbSpeed::Super);
    assert_eq!(LinuxPlatform::parse_speed("10000"), UsbSpeed::SuperPlus);
    assert_eq!(LinuxPlatform::parse_speed("20000"), UsbSpeed::SuperPlus);
    assert_eq!(LinuxPlatform::parse_speed("53"), UsbSpeed::Unknown);
}

#[test]
fn device_from_sysfs_attributes() {
    let d = LinuxPlatform::device_from_sysfs(Some("1-1.2".into()), &attrs(), 42).unwrap();
    assert_eq!(d.id, 42);
    assert_eq!(d.bus_id, "1-1.2");
    assert_eq!((d.vendor_id, d.product_id), (0x046d, 0xc52b));
    assert_eq!(d.device_class, 0xff);
    assert_eq!(d.device_subclass, 0);
    assert_eq!(d.device_protocol, 0);
    assert_eq!(d.speed, UsbSpeed::High);
    assert_eq!(d.num_configurations, 2);
    assert_eq!(d.serial.as_deref(), Some("ABC123"));
    assert_eq!(d.product_name.as_deref(), Some("Receiver"));
    assert_eq!(d.vendor_name, None);
    assert!(matches!(d.state, DeviceState::NotShared));
    assert!(LinuxPlatform::device_from_sysfs(Some("1-1:1.0".into()), &attrs(), 1).is_none());
    assert!(LinuxPlatform::device_from_sysfs(Some("usb1".into()), &attrs(), 1).is_none());
    assert!(LinuxPlatform::device_from_sysfs(None, &attrs(), 1).is_none());
    let mut a = attrs();
    a.id_product = None;
    assert!(LinuxPlatform::device_from_sysfs(Some("1-1".into()), &a, 1).is_none());
    let d = LinuxPlatform::parse_device_from_sysfs(Some("2-3".into()), &attrs()).unwrap();
    assert_eq!((d.id >> 76) & 0xf, 4);
}

fn dev(bus: &str) -> UsbDevice {
    LinuxPlatform::device_from_sysfs(Some(bus.into()), &attrs(), 1).unwrap()
}

#[test]
fn hotplug_reports_arrivals_then_departures() {
    let known = vec!["1-1".to_string(), "1-2".to_string(), "1-3".to_string()];
    let current = vec![dev("1-2"), dev("2-1"), dev("2-2")];
    let (events, next) = hotplug_changes(&known, &current);
    assert_eq!(events.len(), 4);
    assert!(matches!(&events[0], HotplugEvent::Attached(d) if d.bus_id == "2-1"));
    assert!(matches!(&events[1], HotplugEvent::Attached(d) if d.bus_id == "2-2"));
    assert!(matches!(&events[2], HotplugEvent::Detached { bus_id } if bus_id == "1-1"));
    assert!(matches!(&events[3], HotplugEvent::Detached { bus_id } if bus_id == "1-3"));
    assert_eq!(next, vec!["1-2".to_string(), "2-1".to_string(), "2-2".to_string()]);
    let (events, _) = hotplug_changes(&next, &current);
    assert!(events.is_empty());
}

#[test]
fn hotplug_poller_skips_failed_polls_and_announces_once() {
    let mut p = HotplugPoller::start(&[dev("1-1"), dev("1-2")]);
    assert!(p.poll(None).is_empty());
    let events = p.poll(Some(&[dev("1-2"), dev("2-1")]));
    assert_eq!(events.len(), 2);
    assert!(matches!(&events[0], HotplugEvent::Attached(d) if d.bus_id == "2-1"));
    assert!(matches!(&events[1], HotplugEvent::Detached { bus_id } if bus_id == "1-1"));
    assert!(p.poll(None).is_empty());
    assert!(p.poll(Some(&[dev("1-2"), dev("2-1")])).is_empty());
    let events = p.poll(Some(&[]));
    assert_eq!(events.len(), 2);
    assert!(matches!(&events[0], HotplugEvent::Detached { bus_id } if bus_id == "1-2"));
}

#[test]
fn simulated_platform() {
    let mut p = SimulatedPlatform::new();
    let devices = p.enumerate_devices();
    assert_eq!(devices.len(), 5);
    let mut buses: Vec<_> = devices.iter().map(|d| d.bus_id.clone()).collect();
    buses.sort();
    assert_eq!(buses, vec!["1-1", "1-2", "1-3", "2-1", "2-2"]);
    let webcam = devices.iter().find(|d| d.bus_id == "2-1").unwrap();
    assert_eq!((webcam.vendor_id, webcam.product_id, webcam.device_class), (0x046d, 0x0892, 0xef));
    assert_eq!(webcam.product_name.as_deref(), Some("C920 HD Pro Webcam"));
    assert_eq!(p.bind_device("1-3"), Ok(()));
    assert_eq!(p.bind_device("9-9"), Err(ManagerError::NotFound));
    assert_eq!(p.unbind_device("1-3"), Ok(()));
    let extra = SimulatedPlatform::extra_device();
    assert_eq!(extra.bus_id, "3-1");
    assert!(matches!(p.hotplug_step(1, &extra), HotplugEvent::Attached(d) if d.bus_id == "3-1"));
    assert_eq!(p.enumerate_devices().len(), 6);
    assert!(matches!(p.hotplug_step(2, &extra), HotplugEvent::Detached { bus_id } if bus_id == "3-1"));
    assert_eq!(p.enumerate_devices().len(), 5);
}
