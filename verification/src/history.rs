//! The usage history: which row each server event leaves in it.

use vstd::prelude::*;
use crate::device::{display_name_of, opt_seq, vid_pid_of, UsbDevice};
use crate::protocol::ServerEvent;
use crate::text::{chars_to_string, dec_digits, format_dec};

verus! {

/// A stored history entry.
#[derive(Clone, Debug)]
pub struct HistoryEntry {
    pub id: i64,
    pub timestamp: String,
    pub event_type: String,
    pub bus_id: Option<String>,
    pub device_name: Option<String>,
    pub client_ip: Option<String>,
    pub username: Option<String>,
    pub details: Option<String>,
}

/// The values of a history row to be written; the store adds the ID and
/// the time.
#[derive(Clone, Debug)]
pub struct HistoryRecord {
    pub event_type: String,
    pub bus_id: Option<String>,
    pub device_name: Option<String>,
    pub client_ip: Option<String>,
    pub username: Option<String>,
    pub details: Option<String>,
}

/// A history row as plain values.
pub struct RecordView {
    pub event_type: Seq<char>,
    pub bus_id: Option<Seq<char>>,
    pub device_name: Option<Seq<char>>,
    pub client_ip: Option<Seq<char>>,
    pub username: Option<Seq<char>>,
    pub details: Option<Seq<char>>,
}

impl View for HistoryRecord {
    type V = RecordView;

    open spec fn view(&self) -> RecordView {
        RecordView {
            event_type: self.event_type@,
            bus_id: opt_seq(self.bus_id),
            device_name: opt_seq(self.device_name),
            client_ip: opt_seq(self.client_ip),
            username: opt_seq(self.username),
            details: opt_seq(self.details),
        }
    }
}

/// A row with only an event type and a bus ID.
pub open spec fn bus_row(event_type: Seq<char>, bus_id: Seq<char>) -> RecordView {
    RecordView {
        event_type,
        bus_id: Some(bus_id),
        device_name: None,
        client_ip: None,
        username: None,
        details: None,
    }
}

/// The history row for a server event.
pub open spec fn record_of(event: ServerEvent) -> RecordView {
    match event {
        ServerEvent::DeviceAttached { device } => RecordView {
            event_type: "device_attached"@,
            bus_id: Some(device.bus_id@),
            device_name: Some(display_name_of(device)),
            client_ip: None,
            username: None,
            details: Some(vid_pid_of(device.vendor_id, device.product_id)),
        },
        ServerEvent::DeviceDetached { bus_id } => bus_row("device_detached"@, bus_id@),
        ServerEvent::DeviceShared { bus_id } => bus_row("device_shared"@, bus_id@),
        ServerEvent::DeviceUnshared { bus_id } => bus_row("device_unshared"@, bus_id@),
        ServerEvent::ClientConnected { client_ip, client_name } => RecordView {
            event_type: "client_connected"@,
            bus_id: None,
            device_name: None,
            client_ip: Some(client_ip@),
            username: None,
            details: opt_seq(client_name),
        },
        ServerEvent::ClientDisconnected { client_ip } => RecordView {
            event_type: "client_disconnected"@,
            bus_id: None,
            device_name: None,
            client_ip: Some(client_ip@),
            username: None,
            details: None,
        },
        ServerEvent::DeviceInUse { bus_id, client_ip } => RecordView {
            event_type: "device_in_use"@,
            bus_id: Some(bus_id@),
            device_name: None,
            client_ip: Some(client_ip@),
            username: None,
            details: None,
        },
        ServerEvent::DeviceReleased { bus_id } => bus_row("device_released"@, bus_id@),
        ServerEvent::AuthFailed { client_ip, reason } => RecordView {
            event_type: "auth_failed"@,
            bus_id: None,
            device_name: None,
            client_ip: Some(client_ip@),
            username: None,
            details: Some(reason@),
        },
        ServerEvent::BandwidthAlert { bus_id, bytes_per_sec } => RecordView {
            event_type: "bandwidth_alert"@,
            bus_id: Some(bus_id@),
            device_name: None,
            client_ip: None,
            username: None,
            details: Some(dec_digits(bytes_per_sec as nat) + " bytes/sec"@),
        },
    }
}

fn bus_record(event_type: &str, bus_id: &String) -> (r: HistoryRecord)
    ensures
        r@ == bus_row(event_type@, bus_id@),
{
    HistoryRecord {
        event_type: String::from_str(event_type),
        bus_id: Some(bus_id.clone()),
        device_name: None,
        client_ip: None,
        username: None,
        details: None,
    }
}

/// The history row that a server event is recorded as.
pub fn record_for_event(event: &ServerEvent) -> (r: HistoryRecord)
    ensures
        r@ == record_of(*event),
{
    match event {
        ServerEvent::DeviceAttached { device } => HistoryRecord {
            event_type: String::from_str("device_attached"),
            bus_id: Some(device.bus_id.clone()),
            device_name: Some(device.display_name()),
            client_ip: None,
            username: None,
            details: Some(device.vid_pid()),
        },
        ServerEvent::DeviceDetached { bus_id } => bus_record("device_detached", bus_id),
        ServerEvent::DeviceShared { bus_id } => bus_record("device_shared", bus_id),
        ServerEvent::DeviceUnshared { bus_id } => bus_record("device_unshared", bus_id),
        ServerEvent::ClientConnected { client_ip, client_name } => HistoryRecord {
            event_type: String::from_str("client_connected"),
            bus_id: None,
            device_name: None,
            client_ip: Some(client_ip.clone()),
            username: None,
            details: match client_name {
                Some(n) => Some(n.clone()),
                None => None,
            },
        },
        ServerEvent::ClientDisconnected { client_ip } => HistoryRecord {
            event_type: String::from_str("client_disconnected"),
            bus_id: None,
            device_name: None,
            client_ip: Some(client_ip.clone()),
            username: None,
            details: None,
        },
        ServerEvent::DeviceInUse { bus_id, client_ip } => HistoryRecord {
            event_type: String::from_str("device_in_use"),
            bus_id: Some(bus_id.clone()),
            device_name: None,
            client_ip: Some(client_ip.clone()),
            username: None,
            details: None,
        },
        ServerEvent::DeviceReleased { bus_id } => bus_record("device_released", bus_id),
        ServerEvent::AuthFailed { client_ip, reason } => HistoryRecord {
            event_type: String::from_str("auth_failed"),
            bus_id: None,
            device_name: None,
            client_ip: Some(client_ip.clone()),
            username: None,
            details: Some(reason.clone()),
        },
        ServerEvent::BandwidthAlert { bus_id, bytes_per_sec } => {
            let digits = format_dec(*bytes_per_sec);
            let mut details = chars_to_string(digits.as_slice());
            details.append(" bytes/sec");
            HistoryRecord {
                event_type: String::from_str("bandwidth_alert"),
                bus_id: Some(bus_id.clone()),
                device_name: None,
                client_ip: None,
                username: None,
                details: Some(details),
            }
        },
    }
}

/// The bus ID that an event is about, if it is about a device.
pub open spec fn event_bus_id(e: ServerEvent) -> Option<Seq<char>> {
    match e {
        ServerEvent::DeviceAttached { device } => Some(device.bus_id@),
        ServerEvent::DeviceDetached { bus_id } => Some(bus_id@),
        ServerEvent::DeviceShared { bus_id } => Some(bus_id@),
        ServerEvent::DeviceUnshared { bus_id } => Some(bus_id@),
        ServerEvent::DeviceInUse { bus_id, .. } => Some(bus_id@),
        ServerEvent::DeviceReleased { bus_id } => Some(bus_id@),
        ServerEvent::BandwidthAlert { bus_id, .. } => Some(bus_id@),
        _ => None,
    }
}

/// The client address that an event names, if it names one.
pub open spec fn event_client_ip(e: ServerEvent) -> Option<Seq<char>> {
    match e {
        ServerEvent::ClientConnected { client_ip, .. } => Some(client_ip@),
        ServerEvent::ClientDisconnected { client_ip } => Some(client_ip@),
        ServerEvent::DeviceInUse { client_ip, .. } => Some(client_ip@),
        ServerEvent::AuthFailed { client_ip, .. } => Some(client_ip@),
        _ => None,
    }
}

/// The kind of an event, numbered in declaration order.
pub open spec fn event_kind(e: ServerEvent) -> int {
    match e {
        ServerEvent::DeviceAttached { .. } => 0,
        ServerEvent::DeviceDetached { .. } => 1,
        ServerEvent::DeviceShared { .. } => 2,
        ServerEvent::DeviceUnshared { .. } => 3,
        ServerEvent::ClientConnected { .. } => 4,
        ServerEvent::ClientDisconnected { .. } => 5,
        ServerEvent::DeviceInUse { .. } => 6,
        ServerEvent::DeviceReleased { .. } => 7,
        ServerEvent::AuthFailed { .. } => 8,
        ServerEvent::BandwidthAlert { .. } => 9,
    }
}

/// A history row keeps what the event names: the bus ID of every event
/// about a device, the client address of every event that names a
/// client, and nothing of either for the others. No user is recorded.
pub proof fn law_history_keeps_device_and_client(e: ServerEvent)
    ensures
        record_of(e).bus_id == event_bus_id(e),
        record_of(e).client_ip == event_client_ip(e),
        record_of(e).username is None,
        e matches ServerEvent::DeviceAttached { device } ==> record_of(e).device_name == Some(
            display_name_of(device),
        ) && record_of(e).details == Some(vid_pid_of(device.vendor_id, device.product_id)),
        !(e is DeviceAttached) ==> record_of(e).device_name is None,
        e matches ServerEvent::AuthFailed { reason, .. } ==> record_of(e).details == Some(reason@),
        e matches ServerEvent::ClientConnected { client_name, .. } ==> record_of(e).details
            == opt_seq(client_name),
{
}

/// Different kinds of events are recorded under different event types,
/// so the history tells them apart.
pub proof fn law_history_types_tell_kinds_apart(e1: ServerEvent, e2: ServerEvent)
    ensures
        event_kind(e1) != event_kind(e2) ==> record_of(e1).event_type != record_of(e2).event_type,
{
    reveal_strlit("device_attached");
    reveal_strlit("device_detached");
    reveal_strlit("device_shared");
    reveal_strlit("device_unshared");
    reveal_strlit("client_connected");
    reveal_strlit("client_disconnected");
    reveal_strlit("device_in_use");
    reveal_strlit("device_released");
    reveal_strlit("auth_failed");
    reveal_strlit("bandwidth_alert");
    let t1 = record_of(e1).event_type;
    let t2 = record_of(e2).event_type;
    if event_kind(e1) != event_kind(e2) {
        assert(t1[0] != t2[0] || t1[7] != t2[7]);
    }
}

} // verus!
