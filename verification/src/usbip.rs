//! USB/IP client bookkeeping: the devices that `usbip port` reports as
//! attached, and what `usbip version` says of the driver.

use vstd::prelude::*;
use crate::text::{
    chars_to_string, find_char, find_str, first_line, has_prefix, index_of, index_of_char,
    lemma_index_of, lemma_index_of_char, lines, rsplit_once, rsplit_once_char, split_once,
    split_once_char, starts_with, str_to_chars, trim, trim_chars,
};

verus! {

/// Represents a currently attached USB/IP device.
pub struct AttachedDevice {
    pub port: String,
    pub server: String,
    pub bus_id: String,
}

/// An attached device as plain values.
pub struct AttachedView {
    pub port: Seq<char>,
    pub server: Seq<char>,
    pub bus_id: Seq<char>,
}

impl View for AttachedDevice {
    type V = AttachedView;

    open spec fn view(&self) -> AttachedView {
        AttachedView { port: self.port@, server: self.server@, bus_id: self.bus_id@ }
    }
}

/// Whether the USB/IP driver tools are usable.
pub enum DriverStatus {
    Installed { version: String },
    NotInstalled,
    Error { message: String },
}

/// What has been read of one `Port` block of `usbip port` output.
pub struct PortInfo {
    pub port: Option<Seq<char>>,
    pub server: Option<Seq<char>>,
    pub bus_id: Option<Seq<char>>,
}

/// The scan of `usbip port` output between lines.
pub struct PortScan {
    pub devices: Seq<AttachedView>,
    pub current: Option<PortInfo>,
}

pub open spec fn word_port() -> Seq<char> {
    seq!['P', 'o', 'r', 't']
}

pub open spec fn word_port_space() -> Seq<char> {
    seq!['P', 'o', 'r', 't', ' ']
}

pub open spec fn usbip_scheme() -> Seq<char> {
    seq!['u', 's', 'b', 'i', 'p', ':', '/', '/']
}

/// The text before the first `c` in `s`, or all of `s`
/// (`s.split(c).next()`).
pub open spec fn before_char(s: Seq<char>, c: char) -> Seq<char> {
    let i = index_of_char(s, c);
    if i < 0 {
        s
    } else {
        s.subrange(0, i)
    }
}

/// The port number of a trimmed line that starts with `Port`:
/// `Port 00: <Port in Use> ...` gives `00`.
pub open spec fn port_number(t: Seq<char>) -> Option<Seq<char>> {
    if has_prefix(t, word_port_space()) {
        Some(trim(before_char(t.subrange(5, t.len() as int), ':')))
    } else {
        None
    }
}

/// The server and bus ID of a line such as
/// `-> usbip://192.168.1.50:3240/1-1.2`: the URL is the text after the
/// first `usbip://` up to the next one; its part before the first `/` is
/// the server, without the port after its last `:`, and the rest is the
/// bus ID.
pub open spec fn usbip_target(t: Seq<char>) -> Option<(Seq<char>, Seq<char>)> {
    let i = index_of(t, usbip_scheme());
    if i < 0 {
        None
    } else {
        let rest = t.subrange(i + 8, t.len() as int);
        let j = index_of(rest, usbip_scheme());
        let url = if j < 0 {
            rest
        } else {
            rest.subrange(0, j)
        };
        match split_once_char(url, '/') {
            Some((server_port, bus_id)) => {
                let server = match rsplit_once_char(server_port, ':') {
                    Some((host, _)) => host,
                    None => server_port,
                };
                Some((server, bus_id))
            },
            None => None,
        }
    }
}

/// The device that a block describes, when it named a port, a server and
/// a bus ID.
pub open spec fn complete(info: PortInfo) -> Option<AttachedView> {
    match (info.port, info.server, info.bus_id) {
        (Some(port), Some(server), Some(bus_id)) => Some(AttachedView { port, server, bus_id }),
        _ => None,
    }
}

/// The devices with the block `current` closed.
pub open spec fn flush(devices: Seq<AttachedView>, current: Option<PortInfo>) -> Seq<AttachedView> {
    match current {
        Some(info) => match complete(info) {
            Some(d) => devices.push(d),
            None => devices,
        },
        None => devices,
    }
}

/// The effect of one line of `usbip port` output.
pub open spec fn port_step(st: PortScan, line: Seq<char>) -> PortScan {
    let t = trim(line);
    if has_prefix(t, word_port()) {
        PortScan {
            devices: flush(st.devices, st.current),
            current: Some(PortInfo { port: port_number(t), server: None, bus_id: None }),
        }
    } else {
        match (st.current, usbip_target(t)) {
            (Some(info), Some((server, bus_id))) => PortScan {
                devices: st.devices,
                current: Some(PortInfo { port: info.port, server: Some(server), bus_id: Some(bus_id) }),
            },
            _ => st,
        }
    }
}

pub open spec fn port_lines(st: PortScan, ls: Seq<Seq<char>>) -> PortScan
    decreases ls.len(),
{
    if ls.len() == 0 {
        st
    } else {
        port_lines(port_step(st, ls[0]), ls.drop_first())
    }
}

/// The attached devices that `usbip port` output lists, in order.
pub open spec fn attached_of(output: Seq<char>) -> Seq<AttachedView> {
    let st = port_lines(PortScan { devices: seq![], current: None }, lines(output));
    flush(st.devices, st.current)
}

/// Executable form of the block being read.
struct Block {
    port: Option<String>,
    server: Option<String>,
    bus_id: Option<String>,
}

spec fn opt_view(o: Option<String>) -> Option<Seq<char>> {
    match o {
        Some(s) => Some(s@),
        None => None,
    }
}

spec fn block_view(b: Option<Block>) -> Option<PortInfo> {
    match b {
        Some(b) => Some(
            PortInfo { port: opt_view(b.port), server: opt_view(b.server), bus_id: opt_view(b.bus_id) },
        ),
        None => None,
    }
}

spec fn devices_view(v: Seq<AttachedDevice>) -> Seq<AttachedView> {
    v.map_values(|d: AttachedDevice| d@)
}

fn flush_block(devices: &mut Vec<AttachedDevice>, current: Option<Block>)
    ensures
        devices_view(final(devices)@) == flush(devices_view(old(devices)@), block_view(current)),
{
    match current {
        Some(b) => match (b.port, b.server, b.bus_id) {
            (Some(port), Some(server), Some(bus_id)) => {
                let ghost before = devices@;
                let d = AttachedDevice { port, server, bus_id };
                let ghost dv = d@;
                devices.push(d);
                proof {
                    assert(devices_view(devices@) =~= devices_view(before).push(dv));
                }
            },
            _ => {},
        },
        None => {},
    }
}

fn parse_port_number(t: &[char]) -> (r: Option<String>)
    ensures
        opt_view(r) == port_number(t@),
{
    let p: [char; 5] = ['P', 'o', 'r', 't', ' '];
    assert(p@ =~= word_port_space());
    if starts_with(t, p.as_slice()) {
        let rest = &t[5..t.len()];
        proof {
            lemma_index_of_char(rest@, ':');
        }
        let head = match find_char(rest, ':') {
            Some(i) => &rest[0..i],
            None => rest,
        };
        Some(chars_to_string(trim_chars(head)))
    } else {
        None
    }
}

fn parse_usbip_target(t: &[char]) -> (r: Option<(String, String)>)
    ensures
        match r {
            Some((a, b)) => usbip_target(t@) == Some((a@, b@)),
            None => usbip_target(t@) is None,
        },
{
    let scheme: [char; 8] = ['u', 's', 'b', 'i', 'p', ':', '/', '/'];
    assert(scheme@ =~= usbip_scheme());
    proof {
        lemma_index_of(t@, scheme@);
    }
    match find_str(t, scheme.as_slice()) {
        None => None,
        Some(i) => {
            assert(i + 8 <= t.len());
            let rest = &t[i + 8..t.len()];
            proof {
                lemma_index_of(rest@, scheme@);
            }
            let url = match find_str(rest, scheme.as_slice()) {
                Some(j) => &rest[0..j],
                None => rest,
            };
            match split_once(url, '/') {
                Some((server_port, bus_id)) => {
                    let server = match rsplit_once(server_port, ':') {
                        Some((host, _)) => host,
                        None => server_port,
                    };
                    Some((chars_to_string(server), chars_to_string(bus_id)))
                },
                None => None,
            }
        },
    }
}

/// List the devices that `usbip port` output describes: each `Port` line
/// opens a block, a later `usbip://server:port/busid` line in it names
/// the server and bus ID, and a block that named all three gives a device.
pub fn parse_usbip_port(output: &str) -> (devices: Vec<AttachedDevice>)
    ensures
        devices@.map_values(|d: AttachedDevice| d@) == attached_of(output@),
{
    let chars = str_to_chars(output);
    let mut rest: &[char] = chars.as_slice();
    let mut devices: Vec<AttachedDevice> = Vec::new();
    let mut current: Option<Block> = None;
    let word: [char; 4] = ['P', 'o', 'r', 't'];
    assert(word@ =~= word_port());
    proof {
        assert(devices_view(devices@) =~= Seq::<AttachedView>::empty());
    }
    while rest.len() > 0
        invariant
            word@ == word_port(),
            attached_of(output@) == ({
                let st = port_lines(
                    PortScan { devices: devices_view(devices@), current: block_view(current) },
                    lines(rest@),
                );
                flush(st.devices, st.current)
            }),
        decreases rest@.len(),
    {
        let (line, next) = first_line(rest);
        let ghost st = PortScan { devices: devices_view(devices@), current: block_view(current) };
        proof {
            let ls = lines(rest@);
            assert(ls[0] == line@);
            assert(ls.drop_first() =~= lines(next@));
        }
        let t = trim_chars(line);
        if starts_with(t, word.as_slice()) {
            let prev = current;
            flush_block(&mut devices, prev);
            current = Some(Block { port: parse_port_number(t), server: None, bus_id: None });
        } else {
            match current {
                Some(b) => {
                    current = match parse_usbip_target(t) {
                        Some((server, bus_id)) => Some(
                            Block { port: b.port, server: Some(server), bus_id: Some(bus_id) },
                        ),
                        None => Some(b),
                    };
                },
                None => {},
            }
        }
        proof {
            assert(PortScan { devices: devices_view(devices@), current: block_view(current) }
                == port_step(st, line@));
        }
        rest = next;
    }
    proof {
        assert(lines(rest@) =~= Seq::<Seq<char>>::empty());
    }
    let prev = current;
    flush_block(&mut devices, prev);
    devices
}

/// The first attached device with this bus ID.
pub fn find_attached<'a>(attached: &'a [AttachedDevice], bus_id: &str) -> (r: Option<&'a AttachedDevice>)
    ensures
        match r {
            Some(d) => exists|i: int|
                0 <= i < attached@.len() && attached@[i] == *d && d.bus_id@ == bus_id@ && forall|j: int|
                    0 <= j < i ==> attached@[j].bus_id@ != bus_id@,
            None => forall|j: int| 0 <= j < attached@.len() ==> attached@[j].bus_id@ != bus_id@,
        },
{
    let mut i: usize = 0;
    while i < attached.len()
        invariant
            i <= attached@.len(),
            forall|j: int| 0 <= j < i ==> attached@[j].bus_id@ != bus_id@,
        decreases attached@.len() - i,
    {
        if crate::strmap::str_eq(attached[i].bus_id.as_str(), bus_id) {
            return Some(&attached[i]);
        }
        i = i + 1;
    }
    None
}

/// The driver status from a run of `usbip version`: `ran` is whether the
/// command could be started, `success` its exit status, `stdout` its
/// output.
pub fn driver_status(ran: bool, success: bool, stdout: &str) -> (r: DriverStatus)
    ensures
        match r {
            DriverStatus::Installed { version } => ran && success && version@ == trim(stdout@),
            DriverStatus::NotInstalled => !ran,
            DriverStatus::Error { message } => ran && !success && message@
                == "usbip command failed"@,
        },
{
    if !ran {
        DriverStatus::NotInstalled
    } else if success {
        let chars = str_to_chars(stdout);
        DriverStatus::Installed { version: chars_to_string(trim_chars(chars.as_slice())) }
    } else {
        DriverStatus::Error { message: String::from_str("usbip command failed") }
    }
}

} // verus!
