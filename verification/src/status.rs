//! What servers report about themselves, and how clients put a server or
//! a device into words.

use vstd::prelude::*;
use crate::device::{vid_pid_of, DeviceState, Timestamp, UsbDevice};
use crate::protocol::ServerInfo;
use crate::strmap::str_eq;
use crate::text::{chars_to_string, dec_digits, format_dec};

verus! {

/// `a - b` in whole seconds, rounded toward zero
/// (`signed_duration_since(..).num_seconds()`).
pub open spec fn whole_seconds_between(a: Timestamp, b: Timestamp) -> int {
    let d = (a.secs - b.secs) * 1_000_000_000 + (a.nanos - b.nanos);
    if d >= 0 {
        d / 1_000_000_000
    } else {
        -((-d) / 1_000_000_000)
    }
}

/// The absolute value of an integer.
pub open spec fn abs(x: int) -> int {
    if x < 0 {
        -x
    } else {
        x
    }
}

/// The server's description of itself: its configured name and ports,
/// its host name, the number of its devices, how long it has run, and
/// whether it uses TLS and asks for authentication (any security mode but
/// `open`). Connected USB/IP clients are not counted yet (0).
pub fn server_info(
    name: &String,
    hostname: String,
    version: &str,
    api_port: u16,
    usbip_port: u16,
    device_count: usize,
    started_at: Timestamp,
    now: Timestamp,
    tls_enabled: bool,
    security_mode: &str,
) -> (r: ServerInfo)
    requires
        started_at.nanos < 1_000_000_000,
        now.nanos < 1_000_000_000,
    ensures
        r.name == *name,
        r.hostname == hostname,
        r.version@ == version@,
        r.api_port == api_port,
        r.usbip_port == usbip_port,
        r.device_count == device_count,
        r.client_count == 0,
        r.uptime_seconds == abs(whole_seconds_between(now, started_at)),
        r.tls_enabled == tls_enabled,
        r.auth_required == (security_mode@ != "open"@),
{
    let d: i128 = ((now.secs as i128) - (started_at.secs as i128)) * 1_000_000_000i128
        + ((now.nanos as i128) - (started_at.nanos as i128));
    let secs: i128 = if d >= 0 {
        d / 1_000_000_000
    } else {
        -((-d) / 1_000_000_000)
    };
    let uptime: i128 = if secs < 0 {
        -secs
    } else {
        secs
    };
    assert(0 <= uptime <= u64::MAX) by {
        assert(-0x1_0000_0000_0000_0000 * 1_000_000_000 <= d <= 0x1_0000_0000_0000_0000 * 1_000_000_000);
    }
    ServerInfo {
        name: name.clone(),
        hostname,
        version: String::from_str(version),
        api_port,
        usbip_port,
        device_count,
        client_count: 0,
        uptime_seconds: uptime as u64,
        tls_enabled,
        auth_required: !str_eq(security_mode, "open"),
    }
}

/// The base URL of a server's REST API: `http://<host>:<port>/api/v1`.
pub fn api_base_url(host: &str, port: u16) -> (r: String)
    ensures
        r@ == "http://"@ + host@ + ":"@ + dec_digits(port as nat) + "/api/v1"@,
{
    let mut s = String::from_str("http://");
    s.append(host);
    s.append(":");
    let digits = format_dec(port as u64);
    s.append(chars_to_string(digits.as_slice()).as_str());
    s.append("/api/v1");
    s
}

/// How a device's sharing state reads in a listing.
pub open spec fn state_text(s: DeviceState) -> Seq<char> {
    match s {
        DeviceState::NotShared => "not shared"@,
        DeviceState::Available => "available"@,
        DeviceState::InUse { client_ip, .. } => "in use by "@ + client_ip@,
    }
}

/// The name a listing gives a device: its nickname, else its product
/// name, else `Unknown Device`.
pub open spec fn listed_name_of(d: UsbDevice) -> Seq<char> {
    match d.nickname {
        Some(n) => n@,
        None => match d.product_name {
            Some(p) => p@,
            None => "Unknown Device"@,
        },
    }
}

/// A device's line in a listing: `  <bus id> (<name>) [<vid:pid>] — <state>`.
pub open spec fn device_line_of(d: UsbDevice) -> Seq<char> {
    "  "@ + d.bus_id@ + " ("@ + listed_name_of(d)
        + ") ["@ + vid_pid_of(d.vendor_id, d.product_id) + "] — "@ + state_text(d.state)
}

/// A listing line names a device between the parentheses that follow its
/// bus ID: by its nickname whenever it has one, else by its product name,
/// else as `Unknown Device`; its `vid:pid` follows in brackets.
pub proof fn law_listing_names_the_device(d: UsbDevice)
    ensures
        device_line_of(d).subrange(0, d.bus_id@.len() as int + 4) == "  "@ + d.bus_id@ + " ("@,
        d.nickname matches Some(n) ==> device_line_of(d).subrange(
            d.bus_id@.len() as int + 4,
            d.bus_id@.len() as int + 4 + n@.len(),
        ) == n@ && device_line_of(d).subrange(
            d.bus_id@.len() as int + 4 + n@.len(),
            d.bus_id@.len() as int + 7 + n@.len(),
        ) == ") ["@ && device_line_of(d).subrange(
            d.bus_id@.len() as int + 7 + n@.len(),
            d.bus_id@.len() as int + 16 + n@.len(),
        ) == vid_pid_of(d.vendor_id, d.product_id),
        d.nickname is None ==> (d.product_name matches Some(p) ==> device_line_of(d).subrange(
            d.bus_id@.len() as int + 4,
            d.bus_id@.len() as int + 4 + p@.len(),
        ) == p@),
        (d.nickname is None && d.product_name is None) ==> device_line_of(d).subrange(
            d.bus_id@.len() as int + 4,
            d.bus_id@.len() as int + 18,
        ) == "Unknown Device"@,
{
    reveal_strlit("  ");
    reveal_strlit(" (");
    reveal_strlit(") [");
    reveal_strlit("Unknown Device");
    let b = d.bus_id@;
    let name = listed_name_of(d);
    let vp = vid_pid_of(d.vendor_id, d.product_id);
    let line = device_line_of(d);
    let head = "  "@ + b + " ("@;
    assert(line =~= head + name + ") ["@ + vp + "] — "@ + state_text(d.state));
    assert(line.subrange(0, b.len() as int + 4) =~= head);
    assert(line.subrange(b.len() as int + 4, b.len() as int + 4 + name.len()) =~= name);
    assert(line.subrange(b.len() as int + 4 + name.len(), b.len() as int + 7 + name.len()) =~= ") ["@);
    assert(vp.len() == 9);
    assert(line.subrange(b.len() as int + 7 + name.len(), b.len() as int + 16 + name.len()) =~= vp);
}

/// The line that lists a device.
pub fn device_line(d: &UsbDevice) -> (r: String)
    ensures
        r@ == device_line_of(*d),
{
    let mut s = String::from_str("  ");
    s.append(d.bus_id.as_str());
    s.append(" (");
    match &d.nickname {
        Some(n) => s.append(n.as_str()),
        None => match &d.product_name {
            Some(p) => s.append(p.as_str()),
            None => s.append("Unknown Device"),
        },
    }
    s.append(") [");
    s.append(d.vid_pid().as_str());
    s.append("] — ");
    match &d.state {
        DeviceState::NotShared => s.append("not shared"),
        DeviceState::Available => s.append("available"),
        DeviceState::InUse { client_ip, .. } => {
            s.append("in use by ");
            s.append(client_ip.as_str());
            proof {
                assert(("in use by "@ + client_ip@) =~= "in use by "@ + client_ip@);
            }
        },
    }
    proof {
        assert(s@ =~= device_line_of(*d));
    }
    s
}

/// The tray's count of discovered servers.
pub open spec fn servers_found_of(count: nat) -> Seq<char> {
    if count == 0 {
        "No servers found"@
    } else if count == 1 {
        "1 server found"@
    } else {
        dec_digits(count) + " servers found"@
    }
}

/// The text the tray shows for `count` discovered servers.
pub fn servers_found_text(count: usize) -> (r: String)
    ensures
        r@ == servers_found_of(count as nat),
{
    if count == 0 {
        String::from_str("No servers found")
    } else {
        let digits = format_dec(count as u64);
        let mut s = chars_to_string(digits.as_slice());
        if count == 1 {
            s.append(" server found");
            proof {
                reveal_strlit("1 server found");
                reveal_strlit(" server found");
                assert(dec_digits(1) =~= seq!['1']);
                assert(s@ =~= "1 server found"@);
            }
        } else {
            s.append(" servers found");
        }
        s
    }
}

} // verus!
