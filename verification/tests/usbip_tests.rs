use openusb::usbip::{driver_status, find_attached, parse_usbip_port, DriverStatus};

const PORTS: &str = "Imported USB devices\n\
====================\n\
Port 00: <Port in Use> at High Speed(480Mbps)\n\
       Logitech, Inc. : Unifying Receiver (046d:c52b)\n\
       1-1 -> usbip://192.168.1.50:3240/1-1.2\n\
           -> remote bus/dev 001/003\n\
Port 01: <Port in Use> at Full Speed(12Mbps)\n\
       unknown vendor : unknown product (0765:5020)\n\
       1-2 -> usbip://pi.local:3240/2-1\n\
Port 02: <Port in Use> at Full Speed(12Mbps)\n\
       no url here\n";

#[test]
fn parse_usbip_port_lists_complete_blocks() {
    let d = parse_usbip_port(PORTS);
    assert_eq!(d.len(), 2);
    assert_eq!(d[0].port, "00");
    assert_eq!(d[0].server, "192.168.1.50");
    assert_eq!(d[0].bus_id, "1-1.2");
    assert_eq!(d[1].port, "01");
    assert_eq!(d[1].server, "pi.local");
    assert_eq!(d[1].bus_id, "2-1");
    assert!(parse_usbip_port("").is_empty());
}

#[test]
fn usbip_url_without_port_keeps_host() {
    let d = parse_usbip_port("Port 07: x\n -> usbip://host/3-4\n");
    assert_eq!(d.len(), 1);
    assert_eq!((d[0].port.as_str(), d[0].server.as_str(), d[0].bus_id.as_str()), ("07", "host", "3-4"));
}

#[test]
fn find_attached_by_bus_id() {
    let d = parse_usbip_port(PORTS);
    assert_eq!(find_attached(&d, "2-1").map(|a| a.port.as_str()), Some("01"));
    assert!(find_attached(&d, "9-9").is_none());
}

#[test]
fn driver_status_cases() {
    match driver_status(true, true, "usbip (usbip-utils 2.0)\n") {
        DriverStatus::Installed { version } => assert_eq!(version, "usbip (usbip-utils 2.0)"),
        _ => panic!("expected installed"),
    }
    match driver_status(true, false, "") {
        DriverStatus::Error { message } => assert_eq!(message, "usbip command failed"),
        _ => panic!("expected error"),
    }
    assert!(matches!(driver_status(false, false, ""), DriverStatus::NotInstalled));
}
