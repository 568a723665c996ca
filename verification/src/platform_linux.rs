//! The Linux USB platform: reading devices from sysfs
//! (`/sys/bus/usb/devices`) and noticing devices come and go between two
//! readings.

use vstd::prelude::*;
use crate::device::{new_device_id, opt_seq, DeviceState, UsbDevice, UsbSpeed};
use crate::protocol::HotplugEvent;
use crate::strmap::str_eq;
use crate::text::{
    chars_eq, chars_to_string, contains_char, parse_radix, parse_unsigned, str_to_chars, trim,
    trim_chars,
};

verus! {

/// Real Linux USB platform using sysfs and usbip commands.
pub struct LinuxPlatform;

/// The attribute files of one sysfs device directory, as read: `None`
/// where the file could not be read.
pub struct SysfsAttrs {
    pub id_vendor: Option<String>,
    pub id_product: Option<String>,
    pub device_class: Option<String>,
    pub device_subclass: Option<String>,
    pub device_protocol: Option<String>,
    pub speed: Option<String>,
    pub num_configurations: Option<String>,
    pub serial: Option<String>,
    pub product: Option<String>,
    pub manufacturer: Option<String>,
}

/// A hexadecimal 16-bit number after trimming.
pub open spec fn hex_u16_of(s: Seq<char>) -> Option<u16> {
    match parse_unsigned(trim(s), 16, 0xFFFF) {
        Some(v) => Some(v as u16),
        None => None,
    }
}

/// A decimal 8-bit number after trimming.
pub open spec fn dec_u8_of(s: Seq<char>) -> Option<u8> {
    match parse_unsigned(trim(s), 10, 0xFF) {
        Some(v) => Some(v as u8),
        None => None,
    }
}

/// The speed that sysfs reports in Mbit/s.
pub open spec fn speed_of(s: Seq<char>) -> UsbSpeed {
    let t = trim(s);
    if t == "1.5"@ {
        UsbSpeed::Low
    } else if t == "12"@ {
        UsbSpeed::Full
    } else if t == "480"@ {
        UsbSpeed::High
    } else if t == "5000"@ {
        UsbSpeed::Super
    } else if t == "10000"@ || t == "20000"@ {
        UsbSpeed::SuperPlus
    } else {
        UsbSpeed::Unknown
    }
}

/// The trimmed text of an attribute that was read.
pub open spec fn trimmed_attr(a: Option<String>) -> Option<Seq<char>> {
    match a {
        Some(s) => Some(trim(s@)),
        None => None,
    }
}

/// A class, subclass or protocol byte: hexadecimal, else 0, cut to 8 bits.
pub open spec fn class_byte(a: Option<String>) -> u8 {
    match a {
        Some(s) => match hex_u16_of(s@) {
            Some(v) => (v % 256) as u8,
            None => 0,
        },
        None => 0,
    }
}

/// Whether a sysfs entry name is a device bus ID (`1-1`, `2-1.3`) and not
/// an interface (`1-1:1.0`) or a root hub (`usb1`).
pub open spec fn is_device_name(name: Seq<char>) -> bool {
    name.contains('-') && !name.contains(':')
}

/// Whether `d` is the device that the sysfs directory `name` with the
/// attributes `a` describes, under the ID `id`.
pub open spec fn device_from_sysfs_ok(name: Seq<char>, a: SysfsAttrs, id: u128, d: UsbDevice) -> bool {
    &&& d.id == id
    &&& d.bus_id@ == name
    &&& Some(d.vendor_id) == (match a.id_vendor { Some(s) => hex_u16_of(s@), None => None })
    &&& Some(d.product_id) == (match a.id_product { Some(s) => hex_u16_of(s@), None => None })
    &&& d.device_class == class_byte(a.device_class)
    &&& d.device_subclass == class_byte(a.device_subclass)
    &&& d.device_protocol == class_byte(a.device_protocol)
    &&& d.speed == (match a.speed { Some(s) => speed_of(s@), None => UsbSpeed::Unknown })
    &&& d.num_configurations == (match a.num_configurations {
        Some(s) => match dec_u8_of(s@) { Some(v) => v, None => 1 },
        None => 1,
    })
    &&& opt_seq(d.serial) == trimmed_attr(a.serial)
    &&& opt_seq(d.product_name) == trimmed_attr(a.product)
    &&& opt_seq(d.vendor_name) == trimmed_attr(a.manufacturer)
    &&& d.nickname is None
    &&& d.state is NotShared
}

/// Whether the sysfs directory describes a device: its name is a bus ID
/// and its vendor and product IDs parse.
pub open spec fn sysfs_is_device(name: Option<Seq<char>>, a: SysfsAttrs) -> bool {
    &&& name is Some
    &&& is_device_name(name->0)
    &&& (match a.id_vendor { Some(s) => hex_u16_of(s@), None => None }) is Some
    &&& (match a.id_product { Some(s) => hex_u16_of(s@), None => None }) is Some
}

fn trim_string(s: &String) -> (r: String)
    ensures
        r@ == trim(s@),
{
    let chars = str_to_chars(s.as_str());
    chars_to_string(trim_chars(chars.as_slice()))
}

fn trim_attr(a: &Option<String>) -> (r: Option<String>)
    ensures
        opt_seq(r) == trimmed_attr(*a),
{
    match a {
        Some(s) => Some(trim_string(s)),
        None => None,
    }
}

fn class_of(a: &Option<String>) -> (r: u8)
    ensures
        r == class_byte(*a),
{
    match a {
        Some(s) => match LinuxPlatform::parse_hex_u16(s.as_str()) {
            Some(v) => (v % 256) as u8,
            None => 0,
        },
        None => 0,
    }
}

fn attr_hex(a: &Option<String>) -> (r: Option<u16>)
    ensures
        r == (match *a { Some(s) => hex_u16_of(s@), None => None }),
{
    match a {
        Some(s) => LinuxPlatform::parse_hex_u16(s.as_str()),
        None => None,
    }
}

impl LinuxPlatform {
    pub fn new() -> Self {
        LinuxPlatform
    }

    /// Parse a hex string (e.g., "046d") into a u16.
    pub fn parse_hex_u16(s: &str) -> (r: Option<u16>)
        ensures
            r == hex_u16_of(s@),
    {
        let chars = str_to_chars(s);
        match parse_radix(trim_chars(chars.as_slice()), 16, 0xFFFF) {
            Some(v) => Some(v as u16),
            None => None,
        }
    }

    /// Parse a decimal string into a u8.
    pub fn parse_dec_u8(s: &str) -> (r: Option<u8>)
        ensures
            r == dec_u8_of(s@),
    {
        let chars = str_to_chars(s);
        match parse_radix(trim_chars(chars.as_slice()), 10, 0xFF) {
            Some(v) => Some(v as u8),
            None => None,
        }
    }

    /// Parse USB speed string from sysfs (e.g., "480", "5000") into UsbSpeed.
    pub fn parse_speed(speed_str: &str) -> (r: UsbSpeed)
        ensures
            r == speed_of(speed_str@),
    {
        let chars = str_to_chars(speed_str);
        let t = trim_chars(chars.as_slice());
        let low: [char; 3] = ['1', '.', '5'];
        let full: [char; 2] = ['1', '2'];
        let high: [char; 3] = ['4', '8', '0'];
        let sup: [char; 4] = ['5', '0', '0', '0'];
        let plus10: [char; 5] = ['1', '0', '0', '0', '0'];
        let plus20: [char; 5] = ['2', '0', '0', '0', '0'];
        proof {
            reveal_strlit("1.5");
            reveal_strlit("12");
            reveal_strlit("480");
            reveal_strlit("5000");
            reveal_strlit("10000");
            reveal_strlit("20000");
            assert(low@ =~= "1.5"@);
            assert(full@ =~= "12"@);
            assert(high@ =~= "480"@);
            assert(sup@ =~= "5000"@);
            assert(plus10@ =~= "10000"@);
            assert(plus20@ =~= "20000"@);
        }
        if chars_eq(t, low.as_slice()) {
            UsbSpeed::Low
        } else if chars_eq(t, full.as_slice()) {
            UsbSpeed::Full
        } else if chars_eq(t, high.as_slice()) {
            UsbSpeed::High
        } else if chars_eq(t, sup.as_slice()) {
            UsbSpeed::Super
        } else if chars_eq(t, plus10.as_slice()) || chars_eq(t, plus20.as_slice()) {
            UsbSpeed::SuperPlus
        } else {
            UsbSpeed::Unknown
        }
    }

    /// The device that a sysfs directory describes, under the ID `id`:
    /// `None` when its name is not a device bus ID or its vendor or product
    /// ID does not parse.
    pub fn device_from_sysfs(name: Option<String>, attrs: &SysfsAttrs, id: u128) -> (r: Option<UsbDevice>)
        ensures
            r is Some == sysfs_is_device(opt_seq(name), *attrs),
            r matches Some(d) ==> device_from_sysfs_ok(name->0@, *attrs, id, d),
    {
        let bus_id = match name {
            Some(n) => n,
            None => {
                return None;
            },
        };
        let chars = str_to_chars(bus_id.as_str());
        if !contains_char(chars.as_slice(), '-') || contains_char(chars.as_slice(), ':') {
            return None;
        }
        let vendor_id = match attr_hex(&attrs.id_vendor) {
            Some(v) => v,
            None => {
                return None;
            },
        };
        let product_id = match attr_hex(&attrs.id_product) {
            Some(v) => v,
            None => {
                return None;
            },
        };
        let speed = match &attrs.speed {
            Some(s) => Self::parse_speed(s.as_str()),
            None => UsbSpeed::Unknown,
        };
        let num_configurations = match &attrs.num_configurations {
            Some(s) => match Self::parse_dec_u8(s.as_str()) {
                Some(v) => v,
                None => 1,
            },
            None => 1,
        };
        Some(
            UsbDevice {
                id,
                bus_id,
                vendor_id,
                product_id,
                device_class: class_of(&attrs.device_class),
                device_subclass: class_of(&attrs.device_subclass),
                device_protocol: class_of(&attrs.device_protocol),
                vendor_name: trim_attr(&attrs.manufacturer),
                product_name: trim_attr(&attrs.product),
                nickname: None,
                serial: trim_attr(&attrs.serial),
                num_configurations,
                speed,
                state: DeviceState::NotShared,
            },
        )
    }

    /// Try to parse a single USB device from a sysfs directory, given the
    /// directory's name and its attribute files; a device gets a fresh
    /// random ID.
    pub fn parse_device_from_sysfs(name: Option<String>, attrs: &SysfsAttrs) -> (r: Option<UsbDevice>)
        ensures
            r is Some == sysfs_is_device(opt_seq(name), *attrs),
            r matches Some(d) ==> device_from_sysfs_ok(name->0@, *attrs, d.id, d),
    {
        if !Self::is_device_dir(&name, attrs) {
            return None;
        }
        let id = new_device_id();
        Self::device_from_sysfs(name, attrs, id)
    }

    fn is_device_dir(name: &Option<String>, attrs: &SysfsAttrs) -> (b: bool)
        ensures
            b == sysfs_is_device(opt_seq(*name), *attrs),
    {
        match name {
            Some(n) => {
                let chars = str_to_chars(n.as_str());
                contains_char(chars.as_slice(), '-') && !contains_char(chars.as_slice(), ':')
                    && attr_hex(&attrs.id_vendor).is_some() && attr_hex(&attrs.id_product).is_some()
            },
            None => false,
        }
    }
}

/// Whether some string of `s` equals `x`.
pub open spec fn has_string(s: Seq<String>, x: Seq<char>) -> bool {
    exists|i: int| 0 <= i < s.len() && s[i]@ == x
}

/// The devices of `current`, in order, whose bus ID is not among `known`.
pub open spec fn appeared(known: Seq<String>, current: Seq<UsbDevice>) -> Seq<UsbDevice>
    decreases current.len(),
{
    if current.len() == 0 {
        seq![]
    } else {
        let r = appeared(known, current.drop_last());
        if has_string(known, current.last().bus_id@) {
            r
        } else {
            r.push(current.last())
        }
    }
}

/// The bus IDs of `known`, in order, that no device of `current` has.
pub open spec fn vanished(known: Seq<String>, current: Seq<UsbDevice>) -> Seq<Seq<char>>
    decreases known.len(),
{
    if known.len() == 0 {
        seq![]
    } else {
        let r = vanished(known.drop_last(), current);
        if exists|j: int| 0 <= j < current.len() && current[j].bus_id@ == known.last()@ {
            r
        } else {
            r.push(known.last()@)
        }
    }
}

/// Whether the event at `i` detaches `b`.
pub open spec fn detaches(events: Seq<HotplugEvent>, i: int, b: Seq<char>) -> bool {
    events[i] matches HotplugEvent::Detached { bus_id } && bus_id@ == b
}

/// The event list of one poll: an `Attached` for each device that
/// appeared, then a `Detached` for each bus ID that vanished.
pub open spec fn hotplug_events_ok(
    events: Seq<HotplugEvent>,
    known: Seq<String>,
    current: Seq<UsbDevice>,
) -> bool {
    let a = appeared(known, current);
    let v = vanished(known, current);
    &&& events.len() == a.len() + v.len()
    &&& forall|i: int| 0 <= i < a.len() ==> events[i] == HotplugEvent::Attached(a[i])
    &&& forall|i: int|
        0 <= i < v.len() ==> detaches(events, a.len() + i, #[trigger] v[i])
}

fn has_bus_id(known: &Vec<String>, bus_id: &str) -> (b: bool)
    ensures
        b == has_string(known@, bus_id@),
{
    let mut i: usize = 0;
    while i < known.len()
        invariant
            i <= known@.len(),
            forall|j: int| 0 <= j < i ==> known@[j]@ != bus_id@,
        decreases known@.len() - i,
    {
        if str_eq(known[i].as_str(), bus_id) {
            return true;
        }
        i = i + 1;
    }
    false
}

fn device_has_bus_id(current: &[UsbDevice], bus_id: &str) -> (b: bool)
    ensures
        b == exists|j: int| 0 <= j < current@.len() && current@[j].bus_id@ == bus_id@,
{
    let mut i: usize = 0;
    while i < current.len()
        invariant
            i <= current@.len(),
            forall|j: int| 0 <= j < i ==> current@[j].bus_id@ != bus_id@,
        decreases current@.len() - i,
    {
        if str_eq(current[i].bus_id.as_str(), bus_id) {
            return true;
        }
        i = i + 1;
    }
    false
}

/// Compare one sysfs poll with the bus IDs known from the last one: the
/// events to send, and the bus IDs to know from now on (those of
/// `current`, in order).
pub fn hotplug_changes(known: &Vec<String>, current: &[UsbDevice]) -> (r: (Vec<HotplugEvent>, Vec<String>))
    ensures
        hotplug_events_ok(r.0@, known@, current@),
        r.1@.len() == current@.len(),
        forall|i: int| 0 <= i < current@.len() ==> r.1@[i]@ == current@[i].bus_id@,
{
    let mut events: Vec<HotplugEvent> = Vec::new();
    let mut i: usize = 0;
    while i < current.len()
        invariant
            i <= current@.len(),
            events@.len() == appeared(known@, current@.take(i as int)).len(),
            forall|k: int|
                0 <= k < events@.len() ==> events@[k] == HotplugEvent::Attached(
                    appeared(known@, current@.take(i as int))[k],
                ),
        decreases current@.len() - i,
    {
        let ghost pre = current@.take(i as int);
        let ghost nxt = current@.take(i + 1);
        proof {
            assert(nxt.drop_last() =~= pre);
            assert(nxt.last() == current@[i as int]);
        }
        if !has_bus_id(known, current[i].bus_id.as_str()) {
            events.push(HotplugEvent::Attached(current[i].duplicate()));
        }
        i = i + 1;
    }
    proof {
        assert(current@.take(current@.len() as int) =~= current@);
    }
    let ghost n_app = events@.len();
    let mut k: usize = 0;
    while k < known.len()
        invariant
            k <= known@.len(),
            n_app == appeared(known@, current@).len(),
            events@.len() == n_app + vanished(known@.take(k as int), current@).len(),
            forall|m: int|
                0 <= m < n_app ==> events@[m] == HotplugEvent::Attached(appeared(known@, current@)[m]),
            forall|m: int|
                0 <= m < vanished(known@.take(k as int), current@).len() ==> detaches(
                    events@,
                    n_app + m,
                    #[trigger] vanished(known@.take(k as int), current@)[m],
                ),
        decreases known@.len() - k,
    {
        let ghost pre = known@.take(k as int);
        let ghost nxt = known@.take(k + 1);
        proof {
            assert(nxt.drop_last() =~= pre);
            assert(nxt.last() == known@[k as int]);
        }
        let ghost before = events@;
        let ghost vp = vanished(pre, current@);
        let gone = !device_has_bus_id(current, known[k].as_str());
        if gone {
            events.push(HotplugEvent::Detached { bus_id: known[k].clone() });
        }
        proof {
            let vn = vanished(nxt, current@);
            assert(vanished(nxt.drop_last(), current@) == vp);
            assert(vn == (if gone {
                vp.push(known@[k as int]@)
            } else {
                vp
            }));
            assert forall|m: int| 0 <= m < n_app implies events@[m] == HotplugEvent::Attached(
                appeared(known@, current@)[m],
            ) by {
                assert(events@[m] == before[m]);
            }
            assert forall|m: int| 0 <= m < vn.len() implies detaches(events@, n_app + m, #[trigger] vn[m]) by {
                if m < vp.len() {
                    assert(vn[m] == vp[m]);
                    assert(detaches(before, n_app + m, vp[m]));
                    assert(events@[n_app + m] == before[n_app + m]);
                }
            }
        }
        k = k + 1;
    }
    proof {
        assert(known@.take(known@.len() as int) =~= known@);
    }
    let mut next_known: Vec<String> = Vec::new();
    let mut j: usize = 0;
    while j < current.len()
        invariant
            j <= current@.len(),
            next_known@.len() == j,
            forall|m: int| 0 <= m < j ==> next_known@[m]@ == current@[m].bus_id@,
        decreases current@.len() - j,
    {
        next_known.push(current[j].bus_id.clone());
        j = j + 1;
    }
    (events, next_known)
}

} // verus!

verus! {

proof fn lemma_none_appeared(known: Seq<String>, current: Seq<UsbDevice>)
    requires
        forall|i: int| 0 <= i < current.len() ==> has_string(known, #[trigger] current[i].bus_id@),
    ensures
        appeared(known, current) == Seq::<UsbDevice>::empty(),
    decreases current.len(),
{
    if current.len() > 0 {
        let t = current.drop_last();
        assert forall|i: int| 0 <= i < t.len() implies has_string(known, #[trigger] t[i].bus_id@) by {
            assert(t[i] == current[i]);
        }
        lemma_none_appeared(known, t);
        assert(has_string(known, current[current.len() - 1].bus_id@));
    }
}

/// Whether some device of `current` has the bus ID `b`.
pub open spec fn present_in(current: Seq<UsbDevice>, b: Seq<char>) -> bool {
    exists|j: int| 0 <= j < current.len() && current[j].bus_id@ == b
}

proof fn lemma_none_vanished(known: Seq<String>, current: Seq<UsbDevice>)
    requires
        forall|i: int| 0 <= i < known.len() ==> present_in(current, #[trigger] known[i]@),
    ensures
        vanished(known, current) == Seq::<Seq<char>>::empty(),
    decreases known.len(),
{
    if known.len() > 0 {
        let t = known.drop_last();
        assert forall|i: int| 0 <= i < t.len() implies present_in(current, #[trigger] t[i]@) by {
            assert(t[i] == known[i]);
            assert(present_in(current, known[i]@));
        }
        lemma_none_vanished(t, current);
        assert(present_in(current, known[known.len() - 1]@));
    }
}

/// A poll that finds exactly the devices that the previous poll left
/// known reports no event: devices that stay are never announced again.
pub proof fn law_hotplug_steady_state(known: Seq<String>, current: Seq<UsbDevice>)
    requires
        known.len() == current.len(),
        forall|i: int| 0 <= i < known.len() ==> #[trigger] known[i]@ == current[i].bus_id@,
    ensures
        appeared(known, current) == Seq::<UsbDevice>::empty(),
        vanished(known, current) == Seq::<Seq<char>>::empty(),
{
    assert forall|i: int| 0 <= i < current.len() implies has_string(known, #[trigger] current[i].bus_id@) by {
        assert(known[i]@ == current[i].bus_id@);
    }
    lemma_none_appeared(known, current);
    assert forall|i: int| 0 <= i < known.len() implies present_in(current, #[trigger] known[i]@) by {
        assert(current[i].bus_id@ == known[i]@);
    }
    lemma_none_vanished(known, current);
}

/// Whether `known` lists the bus IDs of `devices`, in order.
pub open spec fn ids_of(known: Seq<String>, devices: Seq<UsbDevice>) -> bool {
    &&& known.len() == devices.len()
    &&& forall|i: int| 0 <= i < known.len() ==> #[trigger] known[i]@ == devices[i].bus_id@
}

/// The sysfs hotplug watch between polls: the bus IDs that the last
/// successful poll (or the first enumeration) found.
pub struct HotplugPoller {
    known: Vec<String>,
}

impl HotplugPoller {
    /// The bus IDs known, in the order the last successful poll gave them.
    pub closed spec fn known_ids(&self) -> Seq<String> {
        self.known@
    }

    /// Start watching after the first enumeration found `initial`.
    pub fn start(initial: &[UsbDevice]) -> (p: Self)
        ensures
            ids_of(p.known_ids(), initial@),
    {
        let mut known: Vec<String> = Vec::new();
        let mut i: usize = 0;
        while i < initial.len()
            invariant
                i <= initial@.len(),
                ids_of(known@, initial@.take(i as int)),
            decreases initial@.len() - i,
        {
            known.push(initial[i].bus_id.clone());
            i = i + 1;
        }
        assert(initial@.take(initial@.len() as int) =~= initial@);
        HotplugPoller { known }
    }

    /// One tick of the watch: `None` for a poll that failed, which sends
    /// nothing and keeps the known bus IDs; else the devices found, which
    /// gives an `Attached` for each new bus ID, then a `Detached` for each
    /// one gone, and makes the found bus IDs the known ones.
    pub fn poll(&mut self, current: Option<&[UsbDevice]>) -> (events: Vec<HotplugEvent>)
        ensures
            match current {
                None => events@.len() == 0 && final(self).known_ids() == old(self).known_ids(),
                Some(c) => hotplug_events_ok(events@, old(self).known_ids(), c@) && ids_of(
                    final(self).known_ids(),
                    c@,
                ),
            },
    {
        match current {
            None => Vec::new(),
            Some(c) => {
                let (events, known) = hotplug_changes(&self.known, c);
                self.known = known;
                events
            },
        }
    }
}

/// Once a poll succeeded, a next poll that finds the same devices sends
/// nothing: the watch announces a device once, when it appears.
pub proof fn law_repeat_poll_is_quiet(known: Seq<String>, current: Seq<UsbDevice>)
    requires
        ids_of(known, current),
    ensures
        hotplug_events_ok(Seq::empty(), known, current),
{
    law_hotplug_steady_state(known, current);
}

} // verus!
