//! A simulated USB platform for development away from Linux: five fake
//! devices, and one more that comes and goes.

use vstd::prelude::*;
use crate::device::{new_device_id, opt_seq, DeviceState, UsbDevice, UsbSpeed};
use crate::manager::{with_state, ManagerError};
use crate::protocol::HotplugEvent;
use crate::strmap::StrMap;

verus! {

/// Simulated USB platform for development on non-Linux systems.
/// Provides fake USB devices and periodic hotplug events.
pub struct SimulatedPlatform {
    devices: StrMap<UsbDevice>,
}

impl View for SimulatedPlatform {
    type V = Map<Seq<char>, UsbDevice>;

    closed spec fn view(&self) -> Map<Seq<char>, UsbDevice> {
        self.devices@
    }
}

/// Whether `d` is the fake device with these properties, not shared,
/// without nickname or serial, with one configuration.
pub open spec fn fake_device(
    d: UsbDevice,
    bus_id: Seq<char>,
    vendor_id: u16,
    product_id: u16,
    class: u8,
    subclass: u8,
    protocol: u8,
    vendor: Seq<char>,
    product: Seq<char>,
    speed: UsbSpeed,
) -> bool {
    &&& d.bus_id@ == bus_id
    &&& d.vendor_id == vendor_id
    &&& d.product_id == product_id
    &&& d.device_class == class
    &&& d.device_subclass == subclass
    &&& d.device_protocol == protocol
    &&& opt_seq(d.vendor_name) == Some(vendor)
    &&& opt_seq(d.product_name) == Some(product)
    &&& d.nickname is None
    &&& d.serial is None
    &&& d.num_configurations == 1
    &&& d.speed == speed
    &&& d.state is NotShared
}

/// The simulated devices present at startup.
pub open spec fn initial_devices(m: Map<Seq<char>, UsbDevice>) -> bool {
    &&& m.dom() == set!["1-1"@, "1-2"@, "1-3"@, "2-1"@, "2-2"@]
    &&& fake_device(m["1-1"@], "1-1"@, 0x046d, 0xc52b, 0, 0, 0, "Logitech, Inc."@, "Unifying Receiver"@, UsbSpeed::Full)
    &&& fake_device(m["1-2"@], "1-2"@, 0x0765, 0x5020, 0xff, 0, 0, "X-Rite, Inc."@, "i1Display Pro / ColorMunki Display"@, UsbSpeed::Full)
    &&& fake_device(m["1-3"@], "1-3"@, 0x04b8, 0x0005, 7, 1, 2, "Seiko Epson Corp."@, "Printer"@, UsbSpeed::High)
    &&& fake_device(m["2-1"@], "2-1"@, 0x046d, 0x0892, 0xef, 2, 1, "Logitech, Inc."@, "C920 HD Pro Webcam"@, UsbSpeed::High)
    &&& fake_device(m["2-2"@], "2-2"@, 0x0781, 0x5583, 0, 0, 0, "SanDisk Corp."@, "Ultra Fit USB 3.1"@, UsbSpeed::Super)
}

/// The device that appears and disappears.
pub open spec fn is_extra_device(d: UsbDevice) -> bool {
    fake_device(d, "3-1"@, 0x1a86, 0x7523, 0xff, 0, 0, "QinHeng Electronics"@, "CH340 Serial Adapter"@, UsbSpeed::Full)
}

fn fake(bus_id: &str, vendor_id: u16, product_id: u16, class: u8, subclass: u8, protocol: u8, vendor: &str, product: &str, speed: UsbSpeed) -> (d: UsbDevice)
    ensures
        fake_device(d, bus_id@, vendor_id, product_id, class, subclass, protocol, vendor@, product@, speed),
{
    UsbDevice {
        id: new_device_id(),
        bus_id: String::from_str(bus_id),
        vendor_id,
        product_id,
        device_class: class,
        device_subclass: subclass,
        device_protocol: protocol,
        vendor_name: Some(String::from_str(vendor)),
        product_name: Some(String::from_str(product)),
        nickname: None,
        serial: None,
        num_configurations: 1,
        speed,
        state: DeviceState::NotShared,
    }
}

impl SimulatedPlatform {
    /// The platform with its five fake devices, each with a fresh ID.
    pub fn new() -> (p: Self)
        ensures
            initial_devices(p@),
    {
        let mut devices: StrMap<UsbDevice> = StrMap::new();
        let d1 = fake("1-1", 0x046d, 0xc52b, 0, 0, 0, "Logitech, Inc.", "Unifying Receiver", UsbSpeed::Full);
        let ghost g1 = d1;
        devices.insert(String::from_str("1-1"), d1);
        let d2 = fake("1-2", 0x0765, 0x5020, 0xff, 0, 0, "X-Rite, Inc.", "i1Display Pro / ColorMunki Display", UsbSpeed::Full);
        let ghost g2 = d2;
        devices.insert(String::from_str("1-2"), d2);
        let d3 = fake("1-3", 0x04b8, 0x0005, 7, 1, 2, "Seiko Epson Corp.", "Printer", UsbSpeed::High);
        let ghost g3 = d3;
        devices.insert(String::from_str("1-3"), d3);
        let d4 = fake("2-1", 0x046d, 0x0892, 0xef, 2, 1, "Logitech, Inc.", "C920 HD Pro Webcam", UsbSpeed::High);
        let ghost g4 = d4;
        devices.insert(String::from_str("2-1"), d4);
        let d5 = fake("2-2", 0x0781, 0x5583, 0, 0, 0, "SanDisk Corp.", "Ultra Fit USB 3.1", UsbSpeed::Super);
        let ghost g5 = d5;
        devices.insert(String::from_str("2-2"), d5);
        proof {
            reveal_strlit("1-1");
            reveal_strlit("1-2");
            reveal_strlit("1-3");
            reveal_strlit("2-1");
            reveal_strlit("2-2");
            assert("1-1"@[0] == '1' && "1-1"@[2] == '1');
            assert("1-2"@[0] == '1' && "1-2"@[2] == '2');
            assert("1-3"@[0] == '1' && "1-3"@[2] == '3');
            assert("2-1"@[0] == '2' && "2-1"@[2] == '1');
            assert("2-2"@[0] == '2' && "2-2"@[2] == '2');
            assert(devices@.dom() =~= set!["1-1"@, "1-2"@, "1-3"@, "2-1"@, "2-2"@]);
            assert(devices@["1-1"@] == g1);
            assert(devices@["1-2"@] == g2);
            assert(devices@["1-3"@] == g3);
            assert(devices@["2-1"@] == g4);
            assert(devices@["2-2"@] == g5);
        }
        SimulatedPlatform { devices }
    }

    /// Copies of all simulated devices.
    pub fn enumerate_devices(&self) -> (r: Vec<UsbDevice>)
        ensures
            r@.len() == self@.len(),
            forall|i: int| 0 <= i < r@.len() ==> self@.values().contains(#[trigger] r@[i]),
            forall|k: Seq<char>| #[trigger] self@.contains_key(k) ==> exists|i: int| 0 <= i < r@.len() && r@[i] == self@[k],
    {
        let n = self.devices.entry_count();
        let mut r: Vec<UsbDevice> = Vec::new();
        let mut i: usize = 0;
        while i < n
            invariant
                n == self.devices.entry_seq().len(),
                crate::strmap::keys_unique(self.devices.entry_seq()),
                self@ == crate::strmap::entries_map(self.devices.entry_seq()),
                self@.len() == n,
                i <= n,
                r@.len() == i,
                forall|j: int| 0 <= j < i ==> #[trigger] r@[j] == self.devices.entry_seq()[j].1,
            decreases n - i,
        {
            let (k, d) = self.devices.entry_at(i);
            r.push(d.duplicate());
            i = i + 1;
        }
        proof {
            let s = self.devices.entry_seq();
            crate::strmap::lemma_entries_map(s);
            assert forall|j: int| 0 <= j < r@.len() implies self@.values().contains(#[trigger] r@[j]) by {
                assert(self@.contains_key(s[j].0@));
                assert(self@[s[j].0@] == s[j].1);
            }
            assert forall|k: Seq<char>| #[trigger] self@.contains_key(k) implies exists|j: int| 0 <= j < r@.len() && r@[j] == self@[k] by {
                let j = choose|j: int| 0 <= j < s.len() && s[j].0@ == k;
                assert(r@[j] == s[j].1);
            }
        }
        r
    }

    fn set_state(&mut self, bus_id: &str, state: DeviceState) -> (r: Result<(), ManagerError>)
        ensures
            match r {
                Ok(_) => old(self)@.contains_key(bus_id@) && final(self)@ == old(self)@.insert(
                    bus_id@,
                    with_state(old(self)@[bus_id@], state),
                ),
                Err(e) => e == ManagerError::NotFound && !old(self)@.contains_key(bus_id@)
                    && final(self)@ == old(self)@,
            },
    {
        let updated = match self.devices.get(bus_id) {
            Some(d) => {
                let mut c = d.duplicate();
                c.state = state;
                Some(c)
            },
            None => None,
        };
        match updated {
            Some(c) => {
                self.devices.insert(String::from_str(bus_id), c);
                Ok(())
            },
            None => Err(ManagerError::NotFound),
        }
    }

    /// Bind a simulated device: it becomes available.
    pub fn bind_device(&mut self, bus_id: &str) -> (r: Result<(), ManagerError>)
        ensures
            match r {
                Ok(_) => old(self)@.contains_key(bus_id@) && final(self)@ == old(self)@.insert(
                    bus_id@,
                    with_state(old(self)@[bus_id@], DeviceState::Available),
                ),
                Err(e) => e == ManagerError::NotFound && !old(self)@.contains_key(bus_id@)
                    && final(self)@ == old(self)@,
            },
    {
        self.set_state(bus_id, DeviceState::Available)
    }

    /// Unbind a simulated device: it is no longer shared.
    pub fn unbind_device(&mut self, bus_id: &str) -> (r: Result<(), ManagerError>)
        ensures
            match r {
                Ok(_) => old(self)@.contains_key(bus_id@) && final(self)@ == old(self)@.insert(
                    bus_id@,
                    with_state(old(self)@[bus_id@], DeviceState::NotShared),
                ),
                Err(e) => e == ManagerError::NotFound && !old(self)@.contains_key(bus_id@)
                    && final(self)@ == old(self)@,
            },
    {
        self.set_state(bus_id, DeviceState::NotShared)
    }

    /// The device that the simulation plugs in and out, with a fresh ID.
    pub fn extra_device() -> (d: UsbDevice)
        ensures
            is_extra_device(d),
    {
        fake("3-1", 0x1a86, 0x7523, 0xff, 0, 0, "QinHeng Electronics", "CH340 Serial Adapter", UsbSpeed::Full)
    }

    /// Hotplug cycle `cycle` (counted from 1): odd cycles plug the extra
    /// device in, even ones pull it out.
    pub fn hotplug_step(&mut self, cycle: u32, extra: &UsbDevice) -> (e: HotplugEvent)
        ensures
            cycle % 2 == 1 ==> final(self)@ == old(self)@.insert("3-1"@, *extra) && e
                == HotplugEvent::Attached(*extra),
            cycle % 2 == 0 ==> final(self)@ == old(self)@.remove("3-1"@) && (e matches HotplugEvent::Detached {
                bus_id,
            } && bus_id@ == "3-1"@),
    {
        if cycle % 2 == 1 {
            self.devices.insert(String::from_str("3-1"), extra.duplicate());
            HotplugEvent::Attached(extra.duplicate())
        } else {
            self.devices.remove("3-1");
            HotplugEvent::Detached { bus_id: String::from_str("3-1") }
        }
    }
}

} // verus!
