use openusb::address::{dashboard_url, parse_address, parse_server_addr, AddressError};
use openusb::auto_connect::should_auto_use;
use openusb::certificate::extract_cn;
use openusb::client_config::AutoUseRule;
use openusb::device::{new_device_id, DeviceState, Timestamp, UsbDevice, UsbSpeed};
use openusb::filter::DeviceFilterRules;

pub fn device(bus: &str, vid: u16, pid: u16) -> UsbDevice {
    UsbDevice {
        id: 1,
        bus_id: bus.to_string(),
        vendor_id: vid,
        product_id: pid,
        device_class: 0,
        device_subclass: 0,
        device_protocol: 0,
        vendor_name: None,
        product_name: None,
        nickname: None,
        serial: None,
        num_configurations: 1,
        speed: UsbSpeed::Full,
        state: DeviceState::NotShared,
    }
}

#[test]
fn vid_pid_and_display_name() {
    let mut d = device("1-2", 0x0765, 0x5020);
    assert_eq!(d.vid_pid(), "0765:5020");
    assert_eq!(d.display_name(), "0765:5020");
    d.product_name = Some("Printer".into());
    assert_eq!(d.display_name(), "Printer");
    d.nickname = Some("Office printer".into());
    assert_eq!(d.display_name(), "Office printer");
    assert_eq!(device("1", 0xa, 0).vid_pid(), "000a:0000");
}

#[test]
fn fresh_ids_are_version_4_uuids() {
    let a = new_device_id();
    let b = new_device_id();
    assert_ne!(a, b);
    assert_eq!((a >> 76) & 0xf, 4);
    assert_eq!((a >> 62) & 0x3, 2);
}

#[test]
fn clock_reads_after_2020() {
    let t = Timestamp::now();
    assert!(t.secs > 1_577_836_800);
    assert!(t.nanos < 1_000_000_000);
}

#[test]
fn filter_rules() {
    let s = |v: &[&str]| v.iter().map(|x| x.to_string()).collect::<Vec<_>>();
    let f = DeviceFilterRules::from_config(&s(&["1d6b", "bogus"]), &s(&["1-9"]), &[]);
    assert!(!f.should_include(&device("1-1", 0x1d6b, 1)));
    assert!(!f.should_include(&device("1-9", 0x046d, 1)));
    assert!(f.should_include(&device("1-1", 0x046d, 1)));
    let f = DeviceFilterRules::from_config(&[], &[], &s(&[" 046D ", "xyz"]));
    assert!(f.should_include(&device("1-1", 0x046d, 1)));
    assert!(!f.should_include(&device("1-1", 0x0765, 1)));
    // A given allow list of which nothing parses shares no device.
    let f = DeviceFilterRules::from_config(&[], &[], &s(&["xyz"]));
    assert!(!f.should_include(&device("1-1", 0x0765, 1)));
    let f = DeviceFilterRules::from_config(&[], &[], &s(&["zzzz"]));
    assert!(!f.should_include(&device("1-1", 0x046d, 1)));
}

#[test]
fn ignore_lists_win_over_the_allow_list() {
    let s = |v: &[&str]| v.iter().map(|x| x.to_string()).collect::<Vec<_>>();
    let f = DeviceFilterRules::from_config(&s(&["046d"]), &s(&["2-1"]), &s(&["046d", "0765"]));
    assert!(!f.should_include(&device("1-1", 0x046d, 1)));
    assert!(!f.should_include(&device("2-1", 0x0765, 1)));
    assert!(f.should_include(&device("1-1", 0x0765, 1)));
    let open = DeviceFilterRules::from_config(&[], &[], &[]);
    assert!(open.should_include(&device("9-9", 0xffff, 1)));
}

#[test]
fn auto_use_rules() {
    let d = device("1-1", 0x046d, 0xc52b);
    assert!(!should_auto_use(&d, &[], "pi"));
    assert!(should_auto_use(&d, &[AutoUseRule::All], "pi"));
    assert!(should_auto_use(&d, &[AutoUseRule::Server { server: "pi".into() }], "pi"));
    assert!(!should_auto_use(&d, &[AutoUseRule::Server { server: "nas".into() }], "pi"));
    assert!(should_auto_use(&d, &[AutoUseRule::VendorId { vendor_id: "046d".into() }], "pi"));
    assert!(!should_auto_use(&d, &[AutoUseRule::VendorId { vendor_id: "046D".into() }], "pi"));
    let rule = AutoUseRule::Device { vendor_id: "046d".into(), product_id: "c52b".into() };
    assert!(should_auto_use(&d, &[AutoUseRule::Server { server: "x".into() }, rule], "pi"));
    let rule = AutoUseRule::Device { vendor_id: "046d".into(), product_id: "0000".into() };
    assert!(!should_auto_use(&d, &[rule], "pi"));
}

#[test]
fn server_and_device_addresses() {
    assert_eq!(parse_server_addr("pi.local:9000"), ("pi.local".to_string(), 9000));
    assert_eq!(parse_server_addr("pi.local"), ("pi.local".to_string(), 8443));
    assert_eq!(parse_server_addr("pi:notaport"), ("pi:notaport".to_string(), 8443));
    assert_eq!(parse_server_addr("[::1]:80"), ("[::1]".to_string(), 80));
    assert_eq!(parse_server_addr("pi:70000"), ("pi:70000".to_string(), 8443));
    assert_eq!(parse_address("pi:3240/1-1.3"), Ok(("pi:3240".to_string(), "1-1.3".to_string())));
    assert_eq!(parse_address("living-room-pi.1-1.3"), Ok(("living-room-pi".to_string(), "1-1.3".to_string())));
    assert_eq!(parse_address("192.168.1.50/2-1"), Ok(("192.168.1.50".to_string(), "2-1".to_string())));
    assert_eq!(parse_address("living-room-pi"), Err(AddressError::InvalidFormat));
    assert_eq!(dashboard_url(&["pi".to_string(), "x:1".to_string()]), Some("http://pi:8443".to_string()));
    assert_eq!(dashboard_url(&["nas:9000".to_string()]), Some("http://nas:9000".to_string()));
    assert_eq!(dashboard_url(&[]), None);
}

#[test]
fn extract_cn_with_spaces_in_value() {
    assert_eq!(extract_cn("C=US,CN=Alice Smith,O=x"), Some("Alice Smith".to_string()));
}
