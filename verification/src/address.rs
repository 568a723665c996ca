//! Server and device addresses as users type them.

use vstd::prelude::*;
use crate::text::{
    chars_to_string, dec_digits, format_dec, parse_radix, parse_unsigned, rsplit_once,
    rsplit_once_char, split_once, split_once_char, str_to_chars,
};

verus! {

/// The API port assumed when an address names none.
pub open spec fn default_api_port() -> u16 {
    8443
}

/// `host:port`, split at the last `:` when what follows it is a port
/// number; otherwise the whole address with port 8443.
pub open spec fn server_addr_of(addr: Seq<char>) -> (Seq<char>, u16) {
    match rsplit_once_char(addr, ':') {
        Some((host, port)) => match parse_unsigned(port, 10, 0xFFFF) {
            Some(p) => (host, p as u16),
            None => (addr, default_api_port()),
        },
        None => (addr, default_api_port()),
    }
}

/// Split a server address `host:port` into host and port; without a valid
/// port the whole text is the host and the port is 8443.
pub fn parse_server_addr(addr: &str) -> (r: (String, u16))
    ensures
        (r.0@, r.1) == server_addr_of(addr@),
{
    let chars = str_to_chars(addr);
    match rsplit_once(chars.as_slice(), ':') {
        Some((host, port)) => match parse_radix(port, 10, 0xFFFF) {
            Some(p) => (chars_to_string(host), p as u16),
            None => (String::from_str(addr), 8443),
        },
        None => (String::from_str(addr), 8443),
    }
}

/// Why an address was refused.
#[derive(Debug, PartialEq, Eq, Structural)]
pub enum AddressError {
    /// None of `host/busid`, `host:port/busid` or `server.busid`.
    InvalidFormat,
}

/// The server and bus ID of a device address: split at the first `/`
/// (`host/busid`, `host:port/busid`), else at the first `.` (`server.busid`,
/// a server named without dots).
pub open spec fn device_addr_of(address: Seq<char>) -> Option<(Seq<char>, Seq<char>)> {
    match split_once_char(address, '/') {
        Some(parts) => Some(parts),
        None => split_once_char(address, '.'),
    }
}

/// Split a device address `host/busid`, `host:port/busid` or
/// `server.busid` into server and bus ID.
pub fn parse_address(address: &str) -> (r: Result<(String, String), AddressError>)
    ensures
        match r {
            Ok((server, bus_id)) => device_addr_of(address@) == Some((server@, bus_id@)),
            Err(e) => e == AddressError::InvalidFormat && device_addr_of(address@) is None,
        },
{
    let chars = str_to_chars(address);
    match split_once(chars.as_slice(), '/') {
        Some((server, bus_id)) => Ok((chars_to_string(server), chars_to_string(bus_id))),
        None => match split_once(chars.as_slice(), '.') {
            Some((server, bus_id)) => Ok((chars_to_string(server), chars_to_string(bus_id))),
            None => Err(AddressError::InvalidFormat),
        },
    }
}

/// The dashboard URL of a server address: `http://host:port`, from the
/// first configured server, if any.
pub open spec fn dashboard_url_of(servers: Seq<Seq<char>>) -> Option<Seq<char>> {
    if servers.len() == 0 {
        None
    } else {
        let (host, port) = server_addr_of(servers[0]);
        Some("http://"@ + host + seq![':'] + dec_digits(port as nat))
    }
}

/// The dashboard URL for the first configured server.
pub fn dashboard_url(servers: &[String]) -> (r: Option<String>)
    ensures
        match r {
            Some(u) => dashboard_url_of(servers@.map_values(|s: String| s@)) == Some(u@),
            None => dashboard_url_of(servers@.map_values(|s: String| s@)) is None,
        },
{
    if servers.len() == 0 {
        return None;
    }
    let (host, port) = parse_server_addr(servers[0].as_str());
    let mut url = String::from_str("http://");
    url.append(host.as_str());
    url.append(":");
    let digits = format_dec(port as u64);
    url.append(chars_to_string(digits.as_slice()).as_str());
    proof {
        reveal_strlit(":");
        assert(servers@.map_values(|s: String| s@)[0] == servers@[0]@);
        assert(url@ =~= "http://"@ + host@ + seq![':'] + dec_digits(port as nat));
    }
    Some(url)
}

} // verus!
