//! Finding servers on the local network over mDNS: what a server
//! advertises, and what a client makes of an advertisement.

use vstd::prelude::*;
use crate::text::{chars_to_string, dec_digits, format_dec, parse_radix, parse_unsigned, str_to_chars};

verus! {

/// A server found on the network.
#[derive(Clone, Debug)]
pub struct DiscoveredServer {
    pub name: String,
    pub host: String,
    pub port: u16,
    pub api_port: u16,
    pub version: String,
}

/// The service type that clients browse for.
pub open spec fn browse_service_type() -> Seq<char> {
    "_openusb._tcp.local."@
}

/// The service type that clients browse for.
pub fn service_type() -> (s: &'static str)
    ensures
        s@ == browse_service_type(),
{
    "_openusb._tcp.local."
}

/// The API port an advertisement gives: its `api_port` property when it
/// is a port number, else 8443.
pub open spec fn advertised_api_port(prop: Option<Seq<char>>) -> u16 {
    match prop {
        Some(p) => match parse_unsigned(p, 10, 0xFFFF) {
            Some(v) => v as u16,
            None => 8443,
        },
        None => 8443,
    }
}

/// The server that a resolved advertisement describes: its `name` and
/// `version` properties (empty when absent), its API port, its first
/// address (else its host name), and its service port.
pub fn discovered_server(
    name: Option<&str>,
    api_port: Option<&str>,
    version: Option<&str>,
    first_address: Option<String>,
    hostname: &str,
    port: u16,
) -> (s: DiscoveredServer)
    ensures
        s.name@ == (match name { Some(n) => n@, None => Seq::<char>::empty() }),
        s.version@ == (match version { Some(v) => v@, None => Seq::<char>::empty() }),
        s.api_port == advertised_api_port(match api_port { Some(p) => Some(p@), None => None }),
        s.host@ == (match first_address { Some(a) => a@, None => hostname@ }),
        s.port == port,
{
    let api = match api_port {
        Some(p) => {
            let chars = str_to_chars(p);
            match parse_radix(chars.as_slice(), 10, 0xFFFF) {
                Some(v) => v as u16,
                None => 8443,
            }
        },
        None => 8443,
    };
    DiscoveredServer {
        name: match name {
            Some(n) => String::from_str(n),
            None => String::new(),
        },
        host: match first_address {
            Some(a) => a,
            None => String::from_str(hostname),
        },
        port,
        api_port: api,
        version: match version {
            Some(v) => String::from_str(v),
            None => String::new(),
        },
    }
}

/// What a server registers over mDNS.
pub struct MdnsRegistration {
    /// The service type, the configured one with a final dot.
    pub service_type: String,
    /// The instance name: the server's name.
    pub instance_name: String,
    /// The host: `<hostname>.local.`.
    pub host_name: String,
    /// The port: the API port.
    pub port: u16,
    /// The TXT properties: `version`, `api_port` and `name`.
    pub properties: Vec<(String, String)>,
}

/// The registration of a server with these settings.
pub fn mdns_registration(
    mdns_name: &str,
    server_name: &str,
    hostname: &str,
    version: &str,
    api_port: u16,
) -> (r: MdnsRegistration)
    ensures
        r.service_type@ == mdns_name@ + "."@,
        r.instance_name@ == server_name@,
        r.host_name@ == hostname@ + ".local."@,
        r.port == api_port,
        r.properties@.len() == 3,
        r.properties@[0].0@ == "version"@ && r.properties@[0].1@ == version@,
        r.properties@[1].0@ == "api_port"@ && r.properties@[1].1@ == dec_digits(api_port as nat),
        r.properties@[2].0@ == "name"@ && r.properties@[2].1@ == server_name@,
{
    let mut service_type = String::from_str(mdns_name);
    service_type.append(".");
    let mut host_name = String::from_str(hostname);
    host_name.append(".local.");
    let mut properties: Vec<(String, String)> = Vec::new();
    properties.push((String::from_str("version"), String::from_str(version)));
    let digits = format_dec(api_port as u64);
    properties.push((String::from_str("api_port"), chars_to_string(digits.as_slice())));
    properties.push((String::from_str("name"), String::from_str(server_name)));
    MdnsRegistration {
        service_type,
        instance_name: String::from_str(server_name),
        host_name,
        port: api_port,
        properties,
    }
}

} // verus!
