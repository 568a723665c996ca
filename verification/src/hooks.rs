//! Event hooks: which configured shell command a server event runs, and
//! with which `OPENUSB_*` environment variables.

use vstd::prelude::*;
use crate::device::{display_name_of, vid_pid_of};
use crate::history::event_kind;
use crate::protocol::ServerEvent;
use crate::server_config::EventsSection;

verus! {

/// A command to run for an event: the script text, given to `sh -c`, and
/// its environment variables, names included.
pub struct HookRun {
    pub script: String,
    pub env: Vec<(String, String)>,
}

/// A hook run as plain values.
pub struct HookView {
    pub script: Seq<char>,
    pub env: Seq<(Seq<char>, Seq<char>)>,
}

impl View for HookRun {
    type V = HookView;

    open spec fn view(&self) -> HookView {
        HookView { script: self.script@, env: self.env@.map_values(|p: (String, String)| (p.0@, p.1@)) }
    }
}

/// The hook for a server event: none when the event has no hook setting
/// or its setting is empty.
pub open spec fn hook_of(event: ServerEvent, config: EventsSection) -> Option<HookView> {
    match event {
        ServerEvent::DeviceAttached { device } => if config.on_attach@.len() == 0 {
            None
        } else {
            Some(
                HookView {
                    script: config.on_attach@,
                    env: seq![
                        ("OPENUSB_BUS_ID"@, device.bus_id@),
                        ("OPENUSB_VID_PID"@, vid_pid_of(device.vendor_id, device.product_id)),
                        ("OPENUSB_DEVICE_NAME"@, display_name_of(device)),
                        ("OPENUSB_EVENT"@, "attach"@),
                    ],
                },
            )
        },
        ServerEvent::DeviceDetached { bus_id } => if config.on_detach@.len() == 0 {
            None
        } else {
            Some(
                HookView {
                    script: config.on_detach@,
                    env: seq![("OPENUSB_BUS_ID"@, bus_id@), ("OPENUSB_EVENT"@, "detach"@)],
                },
            )
        },
        ServerEvent::ClientConnected { client_ip, client_name } => if config.on_client_connect@.len()
            == 0 {
            None
        } else {
            Some(
                HookView {
                    script: config.on_client_connect@,
                    env: seq![
                        ("OPENUSB_CLIENT_IP"@, client_ip@),
                        ("OPENUSB_CLIENT_NAME"@, match client_name {
                            Some(n) => n@,
                            None => "unknown"@,
                        }),
                        ("OPENUSB_EVENT"@, "client_connect"@),
                    ],
                },
            )
        },
        ServerEvent::ClientDisconnected { client_ip } => if config.on_client_disconnect@.len()
            == 0 {
            None
        } else {
            Some(
                HookView {
                    script: config.on_client_disconnect@,
                    env: seq![
                        ("OPENUSB_CLIENT_IP"@, client_ip@),
                        ("OPENUSB_EVENT"@, "client_disconnect"@),
                    ],
                },
            )
        },
        _ => None,
    }
}

fn var(name: &str, value: &str) -> (r: (String, String))
    ensures
        r.0@ == name@,
        r.1@ == value@,
{
    (String::from_str(name), String::from_str(value))
}

/// The hook that a server event runs under the `[events]` settings.
pub fn hook_for_event(event: &ServerEvent, config: &EventsSection) -> (r: Option<HookRun>)
    ensures
        match r {
            Some(h) => hook_of(*event, *config) == Some(h@),
            None => hook_of(*event, *config) is None,
        },
{
    match event {
        ServerEvent::DeviceAttached { device } => {
            if config.on_attach.as_str().is_empty() {
                return None;
            }
            let vid_pid = device.vid_pid();
            let mut env: Vec<(String, String)> = Vec::new();
            env.push(var("OPENUSB_BUS_ID", device.bus_id.as_str()));
            env.push(var("OPENUSB_VID_PID", vid_pid.as_str()));
            let name = device.display_name();
            env.push(var("OPENUSB_DEVICE_NAME", name.as_str()));
            env.push(var("OPENUSB_EVENT", "attach"));
            let h = HookRun { script: config.on_attach.clone(), env };
            assert(h@.env =~= hook_of(*event, *config)->0.env);
            Some(h)
        },
        ServerEvent::DeviceDetached { bus_id } => {
            if config.on_detach.as_str().is_empty() {
                return None;
            }
            let mut env: Vec<(String, String)> = Vec::new();
            env.push(var("OPENUSB_BUS_ID", bus_id.as_str()));
            env.push(var("OPENUSB_EVENT", "detach"));
            let h = HookRun { script: config.on_detach.clone(), env };
            assert(h@.env =~= hook_of(*event, *config)->0.env);
            Some(h)
        },
        ServerEvent::ClientConnected { client_ip, client_name } => {
            if config.on_client_connect.as_str().is_empty() {
                return None;
            }
            let name: &str = match client_name {
                Some(n) => n.as_str(),
                None => "unknown",
            };
            let mut env: Vec<(String, String)> = Vec::new();
            env.push(var("OPENUSB_CLIENT_IP", client_ip.as_str()));
            env.push(var("OPENUSB_CLIENT_NAME", name));
            env.push(var("OPENUSB_EVENT", "client_connect"));
            let h = HookRun { script: config.on_client_connect.clone(), env };
            assert(h@.env =~= hook_of(*event, *config)->0.env);
            Some(h)
        },
        ServerEvent::ClientDisconnected { client_ip } => {
            if config.on_client_disconnect.as_str().is_empty() {
                return None;
            }
            let mut env: Vec<(String, String)> = Vec::new();
            env.push(var("OPENUSB_CLIENT_IP", client_ip.as_str()));
            env.push(var("OPENUSB_EVENT", "client_disconnect"));
            let h = HookRun { script: config.on_client_disconnect.clone(), env };
            assert(h@.env =~= hook_of(*event, *config)->0.env);
            Some(h)
        },
        _ => None,
    }
}

/// A hook runs when its event's setting is not empty, with that setting
/// as the script. `OPENUSB_EVENT` names the kind of the event: `attach`,
/// `detach`, `client_connect` or `client_disconnect`; the device events
/// pass the bus ID and the client events the client address. Other events
/// run no hook.
pub proof fn law_hook_names_its_event(e: ServerEvent, config: EventsSection)
    ensures
        e matches ServerEvent::DeviceAttached { device } ==> (hook_of(e, config) is None
            <==> config.on_attach@.len() == 0) && (hook_of(e, config) matches Some(h) ==> h.script
            == config.on_attach@ && h.env.contains(("OPENUSB_EVENT"@, "attach"@)) && h.env.contains(
            ("OPENUSB_BUS_ID"@, device.bus_id@),
        ) && h.env.contains(("OPENUSB_VID_PID"@, vid_pid_of(device.vendor_id, device.product_id)))),
        e matches ServerEvent::DeviceDetached { bus_id } ==> (hook_of(e, config) is None
            <==> config.on_detach@.len() == 0) && (hook_of(e, config) matches Some(h) ==> h.script
            == config.on_detach@ && h.env.contains(("OPENUSB_EVENT"@, "detach"@)) && h.env.contains(
            ("OPENUSB_BUS_ID"@, bus_id@),
        )),
        e matches ServerEvent::ClientConnected { client_ip, .. } ==> (hook_of(e, config) is None
            <==> config.on_client_connect@.len() == 0) && (hook_of(e, config) matches Some(h)
            ==> h.script == config.on_client_connect@ && h.env.contains(
            ("OPENUSB_EVENT"@, "client_connect"@),
        ) && h.env.contains(("OPENUSB_CLIENT_IP"@, client_ip@))),
        e matches ServerEvent::ClientConnected { client_name, .. } ==> (hook_of(e, config) matches Some(
            h,
        ) ==> h.env.contains(
            (
                "OPENUSB_CLIENT_NAME"@,
                match client_name {
                    Some(n) => n@,
                    None => "unknown"@,
                },
            ),
        )),
        e matches ServerEvent::DeviceAttached { device } ==> (hook_of(e, config) matches Some(h)
            ==> h.env.contains(("OPENUSB_DEVICE_NAME"@, display_name_of(device)))),
        e matches ServerEvent::ClientDisconnected { client_ip } ==> (hook_of(e, config) is None
            <==> config.on_client_disconnect@.len() == 0) && (hook_of(e, config) matches Some(h)
            ==> h.script == config.on_client_disconnect@ && h.env.contains(
            ("OPENUSB_EVENT"@, "client_disconnect"@),
        ) && h.env.contains(("OPENUSB_CLIENT_IP"@, client_ip@))),
        !(e is DeviceAttached || e is DeviceDetached || e is ClientConnected || e is ClientDisconnected)
            ==> hook_of(e, config) is None,
{
    match hook_of(e, config) {
        Some(h) => {
            match e {
                ServerEvent::DeviceAttached { device } => {
                    assert(h.env[3] == ("OPENUSB_EVENT"@, "attach"@));
                    assert(h.env[0] == ("OPENUSB_BUS_ID"@, device.bus_id@));
                    assert(h.env[1] == ("OPENUSB_VID_PID"@, vid_pid_of(device.vendor_id, device.product_id)));
                    assert(h.env[2] == ("OPENUSB_DEVICE_NAME"@, display_name_of(device)));
                },
                ServerEvent::DeviceDetached { bus_id } => {
                    assert(h.env[1] == ("OPENUSB_EVENT"@, "detach"@));
                    assert(h.env[0] == ("OPENUSB_BUS_ID"@, bus_id@));
                },
                ServerEvent::ClientConnected { client_ip, .. } => {
                    assert(h.env[2] == ("OPENUSB_EVENT"@, "client_connect"@));
                    assert(h.env[0] == ("OPENUSB_CLIENT_IP"@, client_ip@));
                    assert(h.env[1].0 == "OPENUSB_CLIENT_NAME"@);
                },
                ServerEvent::ClientDisconnected { client_ip } => {
                    assert(h.env[1] == ("OPENUSB_EVENT"@, "client_disconnect"@));
                    assert(h.env[0] == ("OPENUSB_CLIENT_IP"@, client_ip@));
                },
                _ => {},
            }
        },
        None => {},
    }
}

/// Hook scripts can tell their events apart: every hook's environment
/// ends with `OPENUSB_EVENT`, and hooks of events of different kinds give
/// it different values.
pub proof fn law_hook_event_names_differ(e1: ServerEvent, e2: ServerEvent, config: EventsSection)
    requires
        hook_of(e1, config) is Some,
        hook_of(e2, config) is Some,
    ensures
        hook_of(e1, config)->0.env.len() > 0,
        hook_of(e1, config)->0.env.last().0 == "OPENUSB_EVENT"@,
        event_kind(e1) != event_kind(e2) ==> hook_of(e1, config)->0.env.last().1 != hook_of(
            e2,
            config,
        )->0.env.last().1,
{
    reveal_strlit("attach");
    reveal_strlit("detach");
    reveal_strlit("client_connect");
    reveal_strlit("client_disconnect");
    let v1 = hook_of(e1, config)->0.env.last().1;
    let v2 = hook_of(e2, config)->0.env.last().1;
    if event_kind(e1) != event_kind(e2) {
        assert(v1[0] != v2[0] || v1.len() != v2.len());
    }
}

} // verus!
