//! Messages between servers and clients, and the events each side
//! passes around internally.
//!
//! The control messages travel over the REST API and WebSocket
//! connections; the USB data itself flows over USB/IP on TCP port 3240.

use vstd::prelude::*;
use crate::device::UsbDevice;

verus! {

/// An event that a server announces to its subscribers.
#[derive(Clone, Debug)]
pub enum ServerEvent {
    DeviceAttached { device: UsbDevice },
    DeviceDetached { bus_id: String },
    DeviceShared { bus_id: String },
    DeviceUnshared { bus_id: String },
    ClientConnected { client_ip: String, client_name: Option<String> },
    ClientDisconnected { client_ip: String },
    DeviceInUse { bus_id: String, client_ip: String },
    DeviceReleased { bus_id: String },
    AuthFailed { client_ip: String, reason: String },
    BandwidthAlert { bus_id: String, bytes_per_sec: u64 },
}

/// Server info returned by the discovery and REST APIs.
#[derive(Clone, Debug)]
pub struct ServerInfo {
    pub name: String,
    pub hostname: String,
    pub version: String,
    pub api_port: u16,
    pub usbip_port: u16,
    pub device_count: usize,
    pub client_count: usize,
    pub uptime_seconds: u64,
    pub tls_enabled: bool,
    pub auth_required: bool,
}

/// An event of the server's USB hotplug monitor.
#[derive(Clone, Debug)]
pub enum HotplugEvent {
    Attached(UsbDevice),
    Detached { bus_id: String },
}

/// An event inside a client.
#[derive(Clone, Debug)]
pub enum ClientEvent {
    DeviceAttached { server: String, bus_id: String },
    DeviceDetached { bus_id: String },
    ServerDiscovered { name: String, host: String },
    ServerLost { name: String },
    ReconnectAttempt { server: String, bus_id: String },
    ReconnectSuccess { server: String, bus_id: String },
}

} // verus!
