//! USB devices as a server shares them.

use vstd::prelude::*;
use crate::text::{chars_to_string, format_hex4, hex4};

verus! {

/// Unique address for a USB device on a specific server.
/// Format: "server_hostname.busid" (e.g., "living-room-pi.1-1.3"); see
/// `address::parse_address`.
pub type DeviceAddress = String;

/// A moment in UTC: seconds since the Unix epoch and the nanoseconds
/// within that second.
#[derive(Clone, Copy, Debug, PartialEq, Eq, Structural)]
pub struct Timestamp {
    pub secs: i64,
    pub nanos: u32,
}

impl Timestamp {
    /// The current time, as `chrono::Utc::now` reads it from the system
    /// clock. Of the result only what every reading shares is stated: it
    /// is not before the epoch (`Utc::now` panics on a clock set earlier)
    /// and its nanoseconds are below one second (it comes from a
    /// `SystemTime`, which has no leap seconds).
    #[verifier::external_body]
    pub fn now() -> (t: Timestamp)
        ensures
            t.secs >= 0,
            t.nanos < 1_000_000_000,
    {
        let now = chrono::Utc::now();
        Timestamp { secs: now.timestamp(), nanos: now.timestamp_subsec_nanos() }
    }
}

/// The version field of a UUID held as a `u128`.
pub open spec fn uuid_version(id: u128) -> u128 {
    (id >> 76u128) & 0xFu128
}

/// The variant field (two bits) of a UUID held as a `u128`.
pub open spec fn uuid_variant(id: u128) -> u128 {
    (id >> 62u128) & 0x3u128
}

/// A fresh random device ID from `uuid::Uuid::new_v4`, as a `u128`. The
/// bits are random; `new_v4` sets the version field to 4 and the variant
/// field to RFC 4122 (`0b10`), and that is all that is stated.
#[verifier::external_body]
pub fn new_device_id() -> (id: u128)
    ensures
        uuid_version(id) == 4,
        uuid_variant(id) == 2,
{
    uuid::Uuid::new_v4().as_u128()
}

/// Represents a USB device discovered on a server.
#[derive(Clone, Debug)]
pub struct UsbDevice {
    /// Unique ID assigned by OpenUSB (a UUID)
    pub id: u128,
    /// USB bus ID (e.g., "1-1.3")
    pub bus_id: String,
    /// USB vendor ID (e.g., 0x0765)
    pub vendor_id: u16,
    /// USB product ID (e.g., 0x5020)
    pub product_id: u16,
    /// Device class
    pub device_class: u8,
    /// Device subclass
    pub device_subclass: u8,
    /// Device protocol
    pub device_protocol: u8,
    /// Vendor name (from usb.ids or override)
    pub vendor_name: Option<String>,
    /// Product name (from usb.ids or override)
    pub product_name: Option<String>,
    /// User-assigned nickname
    pub nickname: Option<String>,
    /// Serial number if available
    pub serial: Option<String>,
    /// Number of USB configurations
    pub num_configurations: u8,
    /// USB speed
    pub speed: UsbSpeed,
    /// Current sharing/usage state
    pub state: DeviceState,
}

/// USB link speed.
#[derive(Clone, Copy, Debug, PartialEq, Eq, Structural)]
pub enum UsbSpeed {
    Low,
    Full,
    High,
    Super,
    SuperPlus,
    Unknown,
}

/// Sharing state of a device.
#[derive(Clone, Debug)]
pub enum DeviceState {
    /// Device is connected but not shared over the network
    NotShared,
    /// Device is shared and available for clients to attach
    Available,
    /// Device is currently in use by a client
    InUse { client_ip: String, client_name: Option<String>, since: Timestamp },
}

/// The view of an optional string.
pub open spec fn opt_seq(o: Option<String>) -> Option<Seq<char>> {
    match o {
        Some(s) => Some(s@),
        None => None,
    }
}

/// `vid:pid`, each as four lower-case hex digits (e.g. `0765:5020`).
pub open spec fn vid_pid_of(vendor_id: u16, product_id: u16) -> Seq<char> {
    hex4(vendor_id) + seq![':'] + hex4(product_id)
}

/// The name shown for a device: its nickname, else its product name,
/// else its `vid:pid`.
pub open spec fn display_name_of(d: UsbDevice) -> Seq<char> {
    match d.nickname {
        Some(n) => n@,
        None => match d.product_name {
            Some(p) => p@,
            None => vid_pid_of(d.vendor_id, d.product_id),
        },
    }
}

/// A copy of an optional string.
pub fn clone_opt(o: &Option<String>) -> (r: Option<String>)
    ensures
        r == *o,
{
    match o {
        Some(s) => Some(s.clone()),
        None => None,
    }
}

impl DeviceState {
    /// A copy of the state.
    pub fn duplicate(&self) -> (r: DeviceState)
        ensures
            r == *self,
    {
        match self {
            DeviceState::NotShared => DeviceState::NotShared,
            DeviceState::Available => DeviceState::Available,
            DeviceState::InUse { client_ip, client_name, since } => DeviceState::InUse {
                client_ip: client_ip.clone(),
                client_name: clone_opt(client_name),
                since: *since,
            },
        }
    }
}

impl UsbDevice {
    /// A copy of the device.
    pub fn duplicate(&self) -> (r: UsbDevice)
        ensures
            r == *self,
    {
        UsbDevice {
            id: self.id,
            bus_id: self.bus_id.clone(),
            vendor_id: self.vendor_id,
            product_id: self.product_id,
            device_class: self.device_class,
            device_subclass: self.device_subclass,
            device_protocol: self.device_protocol,
            vendor_name: clone_opt(&self.vendor_name),
            product_name: clone_opt(&self.product_name),
            nickname: clone_opt(&self.nickname),
            serial: clone_opt(&self.serial),
            num_configurations: self.num_configurations,
            speed: self.speed,
            state: self.state.duplicate(),
        }
    }

    /// Returns the vendor:product ID string (e.g., "0765:5020")
    pub fn vid_pid(&self) -> (r: String)
        ensures
            r@ == vid_pid_of(self.vendor_id, self.product_id),
    {
        let mut v = format_hex4(self.vendor_id);
        v.push(':');
        let mut p = format_hex4(self.product_id);
        v.append(&mut p);
        proof {
            assert(v@ =~= vid_pid_of(self.vendor_id, self.product_id));
        }
        chars_to_string(v.as_slice())
    }

    /// Returns a display name: nickname > product_name > vid:pid
    pub fn display_name(&self) -> (r: String)
        ensures
            r@ == display_name_of(*self),
    {
        match &self.nickname {
            Some(n) => n.clone(),
            None => match &self.product_name {
                Some(p) => p.clone(),
                None => self.vid_pid(),
            },
        }
    }
}

} // verus!
