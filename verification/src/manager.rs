//! The server's table of devices and the decisions of their lifecycle:
//! which devices are shown, how they are named, and how sharing,
//! unsharing, nicknames and kicking change them.
//!
//! Work on the USB stack itself (binding a device to `usbip-host`) is not
//! done here: a caller first asks whether an operation may start
//! (`check_share`), does the platform work, and on success reports it
//! (`finish_share`), which updates the table and yields the event to
//! announce.

use vstd::prelude::*;
use crate::auth::ApiError;
use crate::device::{opt_seq, vid_pid_of, DeviceState, UsbDevice};
use crate::filter::{passes, DeviceFilterRules};
use crate::protocol::ServerEvent;
use crate::strmap::StrMap;
use crate::usb_ids::{UsbIdDatabase, VendorView};

verus! {

/// Why a device operation was refused.
#[derive(Clone, Copy, Debug, PartialEq, Eq, Structural)]
pub enum ManagerError {
    /// No device has the bus ID.
    NotFound,
    /// Sharing a device that is already shared or in use.
    AlreadyShared,
    /// Unsharing a device that is not shared.
    NotShared,
    /// Kicking the client of a device that no client uses.
    NotInUse,
}

/// `d` with its state replaced.
pub open spec fn with_state(d: UsbDevice, s: DeviceState) -> UsbDevice {
    UsbDevice { state: s, ..d }
}

/// `d` with its nickname replaced.
pub open spec fn with_nickname(d: UsbDevice, n: String) -> UsbDevice {
    UsbDevice { nickname: Some(n), ..d }
}

/// Whether a device is shared: available or in use.
pub open spec fn is_shared(s: DeviceState) -> bool {
    !(s is NotShared)
}

/// Whether every device is filed under its own bus ID.
pub open spec fn filed_by_bus_id(m: Map<Seq<char>, UsbDevice>) -> bool {
    forall|k: Seq<char>| #[trigger] m.contains_key(k) ==> m[k].bus_id@ == k
}

/// The devices of a server, by bus ID.
pub struct DeviceRegistry {
    devices: StrMap<UsbDevice>,
}

impl View for DeviceRegistry {
    type V = Map<Seq<char>, UsbDevice>;

    closed spec fn view(&self) -> Map<Seq<char>, UsbDevice> {
        self.devices@
    }
}

impl DeviceRegistry {
    /// An empty table.
    pub fn new() -> (r: Self)
        ensures
            filed_by_bus_id(r@),
            r@ == Map::<Seq<char>, UsbDevice>::empty(),
    {
        DeviceRegistry { devices: StrMap::new() }
    }

    /// The number of devices.
    pub fn len(&self) -> (n: usize)
        ensures
            n == self@.len(),
    {
        self.devices.len()
    }

    /// The device with this bus ID.
    pub fn get(&self, bus_id: &str) -> (r: Option<&UsbDevice>)
        ensures
            match r {
                Some(d) => self@.contains_key(bus_id@) && *d == self@[bus_id@],
                None => !self@.contains_key(bus_id@),
            },
    {
        self.devices.get(bus_id)
    }

    /// Add a device, or replace the one with the same bus ID.
    pub fn insert(&mut self, device: UsbDevice)
        ensures
            filed_by_bus_id(old(self)@) ==> filed_by_bus_id(final(self)@),
            final(self)@ == old(self)@.insert(device.bus_id@, device),
    {
        let key = device.bus_id.clone();
        self.devices.insert(key, device);
    }

    /// Remove a device; returns whether it was there.
    pub fn remove(&mut self, bus_id: &str) -> (removed: bool)
        ensures
            filed_by_bus_id(old(self)@) ==> filed_by_bus_id(final(self)@),
            final(self)@ == old(self)@.remove(bus_id@),
            removed == old(self)@.contains_key(bus_id@),
    {
        self.devices.remove(bus_id).is_some()
    }

    /// Copies of all devices, each once.
    pub fn devices(&self) -> (r: Vec<UsbDevice>)
        ensures
            r@.len() == self@.len(),
            forall|i: int| 0 <= i < r@.len() ==> self@.values().contains(#[trigger] r@[i]),
            forall|k: Seq<char>| #[trigger] self@.contains_key(k) ==> exists|i: int| 0 <= i < r@.len() && r@[i] == self@[k],
    {
        let n = self.devices.entry_count();
        let mut r: Vec<UsbDevice> = Vec::new();
        let mut i: usize = 0;
        while i < n
            invariant
                n == self.devices.entry_seq().len(),
                self.devices@ == crate::strmap::entries_map(self.devices.entry_seq()),
                crate::strmap::keys_unique(self.devices.entry_seq()),
                self@ == self.devices@,
                self@.len() == n,
                i <= n,
                r@.len() == i,
                forall|j: int| 0 <= j < i ==> #[trigger] r@[j] == self.devices.entry_seq()[j].1,
            decreases n - i,
        {
            let (k, d) = self.devices.entry_at(i);
            r.push(d.duplicate());
            i = i + 1;
        }
        proof {
            let s = self.devices.entry_seq();
            crate::strmap::lemma_entries_map(s);
            assert forall|j: int| 0 <= j < r@.len() implies self@.values().contains(#[trigger] r@[j]) by {
                assert(self@.contains_key(s[j].0@));
                assert(self@[s[j].0@] == s[j].1);
            }
            assert forall|k: Seq<char>| #[trigger] self@.contains_key(k) implies exists|j: int| 0 <= j < r@.len() && r@[j] == self@[k] by {
                let j = choose|j: int| 0 <= j < s.len() && s[j].0@ == k;
                assert(r@[j] == s[j].1);
            }
        }
        r
    }

    /// Whether sharing `bus_id` may start: the device exists and is not
    /// shared.
    pub fn check_share(&self, bus_id: &str) -> (r: Result<(), ManagerError>)
        ensures
            match r {
                Ok(_) => self@.contains_key(bus_id@) && self@[bus_id@].state is NotShared,
                Err(e) => (e == ManagerError::NotFound && !self@.contains_key(bus_id@)) || (e
                    == ManagerError::AlreadyShared && self@.contains_key(bus_id@) && is_shared(
                    self@[bus_id@].state,
                )),
            },
    {
        match self.devices.get(bus_id) {
            None => Err(ManagerError::NotFound),
            Some(d) => match &d.state {
                DeviceState::NotShared => Ok(()),
                _ => Err(ManagerError::AlreadyShared),
            },
        }
    }

    /// Whether unsharing `bus_id` may start: the device exists and is
    /// shared.
    pub fn check_unshare(&self, bus_id: &str) -> (r: Result<(), ManagerError>)
        ensures
            match r {
                Ok(_) => self@.contains_key(bus_id@) && is_shared(self@[bus_id@].state),
                Err(e) => (e == ManagerError::NotFound && !self@.contains_key(bus_id@)) || (e
                    == ManagerError::NotShared && self@.contains_key(bus_id@)
                    && self@[bus_id@].state is NotShared),
            },
    {
        match self.devices.get(bus_id) {
            None => Err(ManagerError::NotFound),
            Some(d) => match &d.state {
                DeviceState::NotShared => Err(ManagerError::NotShared),
                _ => Ok(()),
            },
        }
    }

    /// Set the state of `bus_id`, if the device is still there.
    fn set_state(&mut self, bus_id: &str, state: DeviceState)
        ensures
            filed_by_bus_id(old(self)@) ==> filed_by_bus_id(final(self)@),
            old(self)@.contains_key(bus_id@) ==> final(self)@ == old(self)@.insert(
                bus_id@,
                with_state(old(self)@[bus_id@], state),
            ),
            !old(self)@.contains_key(bus_id@) ==> final(self)@ == old(self)@,
    {
        let updated = match self.devices.get(bus_id) {
            Some(d) => {
                let mut c = d.duplicate();
                c.state = state;
                Some(c)
            },
            None => None,
        };
        match updated {
            Some(c) => {
                let key = String::from_str(bus_id);
                self.devices.insert(key, c);
            },
            None => {},
        }
    }

    /// Record that `bus_id` was bound for sharing: it becomes available,
    /// and `DeviceShared` is announced.
    pub fn finish_share(&mut self, bus_id: &str) -> (e: ServerEvent)
        ensures
            filed_by_bus_id(old(self)@) ==> filed_by_bus_id(final(self)@),
            old(self)@.contains_key(bus_id@) ==> final(self)@ == old(self)@.insert(
                bus_id@,
                with_state(old(self)@[bus_id@], DeviceState::Available),
            ),
            !old(self)@.contains_key(bus_id@) ==> final(self)@ == old(self)@,
            e matches ServerEvent::DeviceShared { bus_id: b } && b@ == bus_id@,
    {
        self.set_state(bus_id, DeviceState::Available);
        ServerEvent::DeviceShared { bus_id: String::from_str(bus_id) }
    }

    /// Record that `bus_id` was unbound: it is no longer shared, and
    /// `DeviceUnshared` is announced.
    pub fn finish_unshare(&mut self, bus_id: &str) -> (e: ServerEvent)
        ensures
            filed_by_bus_id(old(self)@) ==> filed_by_bus_id(final(self)@),
            old(self)@.contains_key(bus_id@) ==> final(self)@ == old(self)@.insert(
                bus_id@,
                with_state(old(self)@[bus_id@], DeviceState::NotShared),
            ),
            !old(self)@.contains_key(bus_id@) ==> final(self)@ == old(self)@,
            e matches ServerEvent::DeviceUnshared { bus_id: b } && b@ == bus_id@,
    {
        self.set_state(bus_id, DeviceState::NotShared);
        ServerEvent::DeviceUnshared { bus_id: String::from_str(bus_id) }
    }

    /// Set a nickname for a device.
    pub fn set_nickname(&mut self, bus_id: &str, nickname: String) -> (r: Result<(), ManagerError>)
        ensures
            filed_by_bus_id(old(self)@) ==> filed_by_bus_id(final(self)@),
            match r {
                Ok(_) => old(self)@.contains_key(bus_id@) && final(self)@ == old(self)@.insert(
                    bus_id@,
                    with_nickname(old(self)@[bus_id@], nickname),
                ),
                Err(e) => e == ManagerError::NotFound && !old(self)@.contains_key(bus_id@)
                    && final(self)@ == old(self)@,
            },
    {
        let updated = match self.devices.get(bus_id) {
            Some(d) => {
                let mut c = d.duplicate();
                c.nickname = Some(nickname);
                Some(c)
            },
            None => None,
        };
        match updated {
            Some(c) => {
                let key = String::from_str(bus_id);
                self.devices.insert(key, c);
                Ok(())
            },
            None => Err(ManagerError::NotFound),
        }
    }

    /// A device arrived: it is added (or replaces the one with its bus ID)
    /// and `DeviceAttached` is announced with it.
    pub fn device_attached(&mut self, device: UsbDevice) -> (e: ServerEvent)
        ensures
            filed_by_bus_id(old(self)@) ==> filed_by_bus_id(final(self)@),
            final(self)@ == old(self)@.insert(device.bus_id@, device),
            e == (ServerEvent::DeviceAttached { device }),
    {
        let copy = device.duplicate();
        self.insert(device);
        ServerEvent::DeviceAttached { device: copy }
    }

    /// A device left: it is removed, and `DeviceDetached` is announced when
    /// it was known.
    pub fn device_detached(&mut self, bus_id: &str) -> (e: Option<ServerEvent>)
        ensures
            filed_by_bus_id(old(self)@) ==> filed_by_bus_id(final(self)@),
            final(self)@ == old(self)@.remove(bus_id@),
            old(self)@.contains_key(bus_id@) ==> (e matches Some(ServerEvent::DeviceDetached { bus_id: b })
                && b@ == bus_id@),
            !old(self)@.contains_key(bus_id@) ==> e is None,
    {
        if self.remove(bus_id) {
            Some(ServerEvent::DeviceDetached { bus_id: String::from_str(bus_id) })
        } else {
            None
        }
    }

    /// Force the client off a device in use: it becomes available again
    /// and `DeviceReleased` is announced.
    pub fn kick(&mut self, bus_id: &str) -> (r: Result<ServerEvent, ManagerError>)
        ensures
            filed_by_bus_id(old(self)@) ==> filed_by_bus_id(final(self)@),
            match r {
                Ok(e) => old(self)@.contains_key(bus_id@) && old(self)@[bus_id@].state is InUse
                    && final(self)@ == old(self)@.insert(
                    bus_id@,
                    with_state(old(self)@[bus_id@], DeviceState::Available),
                ) && (e matches ServerEvent::DeviceReleased { bus_id: b } && b@ == bus_id@),
                Err(e) => final(self)@ == old(self)@ && ((e == ManagerError::NotFound
                    && !old(self)@.contains_key(bus_id@)) || (e == ManagerError::NotInUse
                    && old(self)@.contains_key(bus_id@) && !(old(self)@[bus_id@].state is InUse))),
            },
    {
        let in_use = match self.devices.get(bus_id) {
            None => {
                return Err(ManagerError::NotFound);
            },
            Some(d) => match &d.state {
                DeviceState::InUse { .. } => true,
                _ => false,
            },
        };
        if !in_use {
            return Err(ManagerError::NotInUse);
        }
        self.set_state(bus_id, DeviceState::Available);
        Ok(ServerEvent::DeviceReleased { bus_id: String::from_str(bus_id) })
    }
}

/// The message of an operation on `bus_id` refused with `e`.
pub open spec fn error_text_of(e: ManagerError, bus_id: Seq<char>) -> Seq<char> {
    match e {
        ManagerError::NotFound => "Device not found: "@ + bus_id,
        ManagerError::AlreadyShared => "Device "@ + bus_id + " is already shared"@,
        ManagerError::NotShared => "Device "@ + bus_id + " is not shared"@,
        ManagerError::NotInUse => "Device is not in use"@,
    }
}

/// The message of an operation on `bus_id` refused with `e`.
pub fn error_text(e: ManagerError, bus_id: &str) -> (r: String)
    ensures
        r@ == error_text_of(e, bus_id@),
{
    match e {
        ManagerError::NotFound => {
            let mut s = String::from_str("Device not found: ");
            s.append(bus_id);
            s
        },
        ManagerError::AlreadyShared => {
            let mut s = String::from_str("Device ");
            s.append(bus_id);
            s.append(" is already shared");
            s
        },
        ManagerError::NotShared => {
            let mut s = String::from_str("Device ");
            s.append(bus_id);
            s.append(" is not shared");
            s
        },
        ManagerError::NotInUse => String::from_str("Device is not in use"),
    }
}

/// The API's answer to a refused kick: 404 `Device not found` for an
/// unknown device, else 400 `Device is not in use`.
pub fn kick_refusal(e: ManagerError) -> (r: ApiError)
    ensures
        e == ManagerError::NotFound ==> r.status == 404 && r.message@ == "Device not found"@,
        e != ManagerError::NotFound ==> r.status == 400 && r.message@ == "Device is not in use"@,
{
    match e {
        ManagerError::NotFound => ApiError { status: 404, message: String::from_str("Device not found") },
        _ => ApiError { status: 400, message: String::from_str("Device is not in use") },
    }
}

/// The database's entries, where there is a database.
pub open spec fn ids_view(usb_ids: Option<&UsbIdDatabase>) -> Option<Map<u16, VendorView>> {
    match usb_ids {
        Some(db) => Some(db@),
        None => None,
    }
}

/// A device's nickname once named: the configured one for its `vid:pid`,
/// else the one it had.
pub open spec fn nickname_after(d: UsbDevice, nicknames: Map<Seq<char>, String>) -> Option<String> {
    if nicknames.contains_key(vid_pid_of(d.vendor_id, d.product_id)) {
        Some(nicknames[vid_pid_of(d.vendor_id, d.product_id)])
    } else {
        d.nickname
    }
}

/// A device's vendor name once named: the one it had, else the
/// database's for its vendor ID.
pub open spec fn vendor_name_after(d: UsbDevice, ids: Option<Map<u16, VendorView>>) -> Option<Seq<char>> {
    match d.vendor_name {
        Some(n) => Some(n@),
        None => match ids {
            Some(m) => if m.contains_key(d.vendor_id) {
                Some(m[d.vendor_id].name)
            } else {
                None
            },
            None => None,
        },
    }
}

/// A device's product name once named: the one it had, else the
/// database's for its vendor and product ID.
pub open spec fn product_name_after(d: UsbDevice, ids: Option<Map<u16, VendorView>>) -> Option<Seq<char>> {
    match d.product_name {
        Some(n) => Some(n@),
        None => match ids {
            Some(m) => if m.contains_key(d.vendor_id) && m[d.vendor_id].products.contains_key(d.product_id) {
                Some(m[d.vendor_id].products[d.product_id])
            } else {
                None
            },
            None => None,
        },
    }
}

/// Naming fills gaps and never overwrites: a vendor or product name the
/// device already has stays, whatever the database holds; a missing one is
/// taken from the database when it knows the IDs, and stays missing when
/// it does not or there is no database. A nickname configured for the
/// device's `vid:pid` is used; without one the device keeps its own.
pub proof fn law_naming_keeps_names_already_set(
    d: UsbDevice,
    nicknames: Map<Seq<char>, String>,
    ids: Option<Map<u16, VendorView>>,
)
    ensures
        d.vendor_name matches Some(n) ==> vendor_name_after(d, ids) == Some(n@),
        d.product_name matches Some(n) ==> product_name_after(d, ids) == Some(n@),
        d.vendor_name is None ==> (ids matches Some(m) ==> (m.contains_key(d.vendor_id)
            ==> vendor_name_after(d, ids) == Some(m[d.vendor_id].name))),
        d.vendor_name is None ==> (ids matches Some(m) ==> (!m.contains_key(d.vendor_id)
            ==> vendor_name_after(d, ids) is None)),
        d.vendor_name is None && ids is None ==> vendor_name_after(d, ids) is None,
        d.product_name is None && ids is None ==> product_name_after(d, ids) is None,
        d.product_name is None ==> (ids matches Some(m) ==> (m.contains_key(d.vendor_id)
            && m[d.vendor_id].products.contains_key(d.product_id) ==> product_name_after(d, ids)
            == Some(m[d.vendor_id].products[d.product_id]))),
        nicknames.contains_key(vid_pid_of(d.vendor_id, d.product_id)) ==> nickname_after(d, nicknames)
            == Some(nicknames[vid_pid_of(d.vendor_id, d.product_id)]),
        !nicknames.contains_key(vid_pid_of(d.vendor_id, d.product_id)) ==> nickname_after(d, nicknames)
            == d.nickname,
{
}

/// Apply nicknames and USB ID database names to a device.
pub fn apply_names(device: &mut UsbDevice, nicknames: &StrMap<String>, usb_ids: Option<&UsbIdDatabase>)
    ensures
        final(device).nickname == nickname_after(*old(device), nicknames@),
        opt_seq(final(device).vendor_name) == vendor_name_after(*old(device), ids_view(usb_ids)),
        opt_seq(final(device).product_name) == product_name_after(*old(device), ids_view(usb_ids)),
        final(device).bus_id == old(device).bus_id,
        final(device).vendor_id == old(device).vendor_id,
        final(device).product_id == old(device).product_id,
        final(device).state == old(device).state,
        final(device).id == old(device).id,
        final(device).serial == old(device).serial,
{
    let vid_pid = device.vid_pid();
    match nicknames.get(vid_pid.as_str()) {
        Some(n) => {
            device.nickname = Some(n.clone());
        },
        None => {},
    }
    if device.vendor_name.is_none() {
        device.vendor_name = match usb_ids {
            Some(db) => match db.vendor_name(device.vendor_id) {
                Some(n) => Some(String::from_str(n)),
                None => None,
            },
            None => None,
        };
    }
    if device.product_name.is_none() {
        device.product_name = match usb_ids {
            Some(db) => match db.product_name(device.vendor_id, device.product_id) {
                Some(n) => Some(String::from_str(n)),
                None => None,
            },
            None => None,
        };
    }
}

/// A newly seen device as the server keeps it: `None` when the filter
/// rules hide it, else the device with its names applied.
pub fn admit_device(
    device: UsbDevice,
    filter: &DeviceFilterRules,
    nicknames: &StrMap<String>,
    usb_ids: Option<&UsbIdDatabase>,
) -> (r: Option<UsbDevice>)
    ensures
        r is Some == passes(filter@, device.vendor_id, device.bus_id@),
        r matches Some(d) ==> d.bus_id == device.bus_id && d.vendor_id == device.vendor_id
            && d.product_id == device.product_id && d.state == device.state && d.id == device.id
            && d.serial == device.serial && d.nickname == nickname_after(device, nicknames@)
            && opt_seq(d.vendor_name) == vendor_name_after(device, ids_view(usb_ids))
            && opt_seq(d.product_name) == product_name_after(device, ids_view(usb_ids)),
{
    if !filter.should_include(&device) {
        return None;
    }
    let mut d = device;
    apply_names(&mut d, nicknames, usb_ids);
    Some(d)
}

/// The state of an admitted device after the attempt to share it on
/// arrival: available when auto-sharing is on and binding succeeded,
/// otherwise unchanged.
pub fn after_auto_share(device: &mut UsbDevice, auto_share: bool, bound: bool)
    ensures
        *final(device) == (if auto_share && bound {
            with_state(*old(device), DeviceState::Available)
        } else {
            *old(device)
        }),
{
    if auto_share && bound {
        device.state = DeviceState::Available;
    }
}

/// Sharing a device that is not shared and then unsharing it leaves it
/// as it was; the two steps announce the share and then the unshare.
pub proof fn law_share_unshare_round_trip(devices: Map<Seq<char>, UsbDevice>, bus_id: Seq<char>)
    requires
        devices.contains_key(bus_id),
        devices[bus_id].state is NotShared,
    ensures
        ({
            let shared = devices.insert(bus_id, with_state(devices[bus_id], DeviceState::Available));
            &&& is_shared(shared[bus_id].state)
            &&& shared.insert(bus_id, with_state(shared[bus_id], DeviceState::NotShared)) == devices
        }),
{
    let shared = devices.insert(bus_id, with_state(devices[bus_id], DeviceState::Available));
    assert(with_state(shared[bus_id], DeviceState::NotShared) == devices[bus_id]);
    assert(shared.insert(bus_id, with_state(shared[bus_id], DeviceState::NotShared)) =~= devices);
}

/// Sharing, unsharing, kicking and naming change only the device they
/// name, and never the set of devices.
pub proof fn law_updates_keep_other_devices(
    devices: Map<Seq<char>, UsbDevice>,
    bus_id: Seq<char>,
    other: Seq<char>,
    s: DeviceState,
    n: String,
)
    requires
        devices.contains_key(bus_id),
        other != bus_id,
    ensures
        devices.insert(bus_id, with_state(devices[bus_id], s)).dom() == devices.dom(),
        devices.insert(bus_id, with_nickname(devices[bus_id], n)).dom() == devices.dom(),
        devices.contains_key(other) ==> devices.insert(bus_id, with_state(devices[bus_id], s))[other]
            == devices[other],
        devices.contains_key(other) ==> devices.insert(bus_id, with_nickname(devices[bus_id], n))[other]
            == devices[other],
{
    assert(devices.insert(bus_id, with_state(devices[bus_id], s)).dom() =~= devices.dom());
    assert(devices.insert(bus_id, with_nickname(devices[bus_id], n)).dom() =~= devices.dom());
}

} // verus!
