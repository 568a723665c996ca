//! Which devices a server shows: allow and ignore lists from its
//! configuration, compiled once at startup.

use vstd::prelude::*;
use std::collections::HashSet;
use crate::device::UsbDevice;
use crate::strmap::str_eq;
use crate::text::{parse_radix, parse_unsigned, str_to_chars, trim, trim_chars};

verus! {

broadcast use vstd::std_specs::hash::group_hash_axioms;

/// The vendor IDs that a list of configured hex strings names; entries
/// that are not hexadecimal 16-bit IDs once trimmed are left out.
pub open spec fn parsed_vids(list: Seq<String>) -> Set<u16> {
    Set::new(
        |v: u16|
            exists|i: int|
                0 <= i < list.len() && parse_unsigned(trim(list[i]@), 16, 0xFFFF) == Some(
                    v as int,
                ),
    )
}

/// The strings of a list, as a set.
pub open spec fn string_set(list: Seq<String>) -> Set<Seq<char>> {
    Set::new(|s: Seq<char>| exists|i: int| 0 <= i < list.len() && list[i]@ == s)
}

/// Filter rules as plain values.
pub struct FilterView {
    pub ignore_vendor_ids: Set<u16>,
    pub ignore_bus_ids: Set<Seq<char>>,
    /// Whether an allow list was given (had any entry at all).
    pub allow_list_given: bool,
    pub allow_vendor_ids: Set<u16>,
}

/// Whether a device with this vendor ID and bus ID passes the rules: it
/// is on the allow list when one was given (a given list of which no
/// entry parses lets no vendor through), and on no ignore list.
pub open spec fn passes(rules: FilterView, vendor_id: u16, bus_id: Seq<char>) -> bool {
    (!rules.allow_list_given || rules.allow_vendor_ids.contains(vendor_id))
        && !rules.ignore_vendor_ids.contains(vendor_id) && !rules.ignore_bus_ids.contains(bus_id)
}

/// Compiled device filter rules — parsed once from config at startup.
pub struct DeviceFilterRules {
    ignore_vendor_ids: HashSet<u16>,
    ignore_bus_ids: Vec<String>,
    allow_list_given: bool,
    allow_vendor_ids: HashSet<u16>,
}

impl View for DeviceFilterRules {
    type V = FilterView;

    closed spec fn view(&self) -> FilterView {
        FilterView {
            ignore_vendor_ids: self.ignore_vendor_ids@,
            ignore_bus_ids: string_set(self.ignore_bus_ids@),
            allow_list_given: self.allow_list_given,
            allow_vendor_ids: self.allow_vendor_ids@,
        }
    }
}

fn parse_vid_set(list: &[String]) -> (r: HashSet<u16>)
    ensures
        r@ == parsed_vids(list@),
{
    let mut set: HashSet<u16> = HashSet::new();
    let mut i: usize = 0;
    proof {
        assert(set@ =~= parsed_vids(list@.take(0)));
    }
    while i < list.len()
        invariant
            i <= list@.len(),
            set@ == parsed_vids(list@.take(i as int)),
        decreases list@.len() - i,
    {
        let chars = str_to_chars(list[i].as_str());
        let parsed = parse_radix(trim_chars(chars.as_slice()), 16, 0xFFFF);
        let ghost before = set@;
        match parsed {
            Some(v) => {
                set.insert(v as u16);
            },
            None => {},
        }
        proof {
            let pre = list@.take(i as int);
            let nxt = list@.take(i + 1);
            assert forall|v: u16| #[trigger] set@.contains(v) == parsed_vids(nxt).contains(v) by {
                if parsed_vids(nxt).contains(v) {
                    let j = choose|j: int|
                        0 <= j < nxt.len() && parse_unsigned(trim(nxt[j]@), 16, 0xFFFF) == Some(
                            v as int,
                        );
                    if j < i {
                        assert(pre[j] == nxt[j]);
                        assert(parsed_vids(pre).contains(v));
                    }
                }
                if before.contains(v) {
                    let j = choose|j: int|
                        0 <= j < pre.len() && parse_unsigned(trim(pre[j]@), 16, 0xFFFF) == Some(
                            v as int,
                        );
                    assert(nxt[j] == pre[j]);
                }
                if parsed == Some(v as u32) {
                    assert(nxt[i as int] == list@[i as int]);
                }
            }
            assert(set@ =~= parsed_vids(nxt));
        }
        i = i + 1;
    }
    proof {
        assert(list@.take(list@.len() as int) =~= list@);
    }
    set
}

impl DeviceFilterRules {
    /// Build filter rules from config string lists.
    /// Vendor IDs are hex strings like "1d6b"; the ones that do not parse
    /// are skipped. A non-empty allow list shares only its vendor IDs, so
    /// one of which nothing parses shares no device.
    pub fn from_config(
        ignore_vendor_ids: &[String],
        ignore_bus_ids: &[String],
        allow_vendor_ids: &[String],
    ) -> (r: Self)
        ensures
            r@.ignore_vendor_ids == parsed_vids(ignore_vendor_ids@),
            r@.ignore_bus_ids == string_set(ignore_bus_ids@),
            r@.allow_list_given == (allow_vendor_ids@.len() > 0),
            r@.allow_vendor_ids == parsed_vids(allow_vendor_ids@),
    {
        let ignore = parse_vid_set(ignore_vendor_ids);
        let allow = parse_vid_set(allow_vendor_ids);
        let mut bus_ids: Vec<String> = Vec::new();
        let mut i: usize = 0;
        while i < ignore_bus_ids.len()
            invariant
                i <= ignore_bus_ids@.len(),
                bus_ids@ == ignore_bus_ids@.take(i as int),
            decreases ignore_bus_ids@.len() - i,
        {
            bus_ids.push(ignore_bus_ids[i].clone());
            proof {
                assert(bus_ids@ =~= ignore_bus_ids@.take(i + 1));
            }
            i = i + 1;
        }
        proof {
            assert(bus_ids@ =~= ignore_bus_ids@);
        }
        DeviceFilterRules {
            ignore_vendor_ids: ignore,
            ignore_bus_ids: bus_ids,
            allow_list_given: allow_vendor_ids.len() > 0,
            allow_vendor_ids: allow,
        }
    }

    fn ignores_bus(&self, bus_id: &str) -> (b: bool)
        ensures
            b == string_set(self.ignore_bus_ids@).contains(bus_id@),
    {
        let mut i: usize = 0;
        while i < self.ignore_bus_ids.len()
            invariant
                i <= self.ignore_bus_ids@.len(),
                forall|j: int| 0 <= j < i ==> self.ignore_bus_ids@[j]@ != bus_id@,
            decreases self.ignore_bus_ids@.len() - i,
        {
            if str_eq(self.ignore_bus_ids[i].as_str(), bus_id) {
                assert(string_set(self.ignore_bus_ids@).contains(bus_id@)) by {
                    assert(self.ignore_bus_ids@[i as int]@ == bus_id@);
                }
                return true;
            }
            i = i + 1;
        }
        false
    }

    /// Returns true if the device passes filter rules and should be visible.
    pub fn should_include(&self, device: &UsbDevice) -> (b: bool)
        ensures
            b == passes(self@, device.vendor_id, device.bus_id@),
    {
        if self.allow_list_given && !self.allow_vendor_ids.contains(&device.vendor_id) {
            return false;
        }
        if self.ignore_vendor_ids.contains(&device.vendor_id) {
            return false;
        }
        if self.ignores_bus(device.bus_id.as_str()) {
            return false;
        }
        true
    }
}

/// When an allow list was given, only its vendors are shown (none, when
/// none of its entries parses).
pub proof fn law_allow_list_is_exclusive(rules: FilterView, vendor_id: u16, bus_id: Seq<char>)
    requires
        rules.allow_list_given,
        !rules.allow_vendor_ids.contains(vendor_id),
    ensures
        !passes(rules, vendor_id, bus_id),
{
}

/// An ignored vendor or bus ID is never shown, whatever the allow list
/// says; without lists every device is shown.
pub proof fn law_ignore_lists_win(rules: FilterView, vendor_id: u16, bus_id: Seq<char>)
    ensures
        rules.ignore_vendor_ids.contains(vendor_id) ==> !passes(rules, vendor_id, bus_id),
        rules.ignore_bus_ids.contains(bus_id) ==> !passes(rules, vendor_id, bus_id),
        !rules.allow_list_given && rules.ignore_vendor_ids.is_empty()
            && rules.ignore_bus_ids.is_empty() ==> passes(rules, vendor_id, bus_id),
{
}

} // verus!
