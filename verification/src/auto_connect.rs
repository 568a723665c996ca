//! Deciding which devices a client attaches on its own.

use vstd::prelude::*;
use crate::client_config::AutoUseRule;
use crate::device::UsbDevice;
use crate::strmap::str_eq;
use crate::text::{chars_to_string, format_hex4, hex4};

verus! {

/// Whether `rule` picks a device with these IDs (as four lower-case hex
/// digits each) on the server `server_name`.
pub open spec fn rule_matches(rule: AutoUseRule, vid: Seq<char>, pid: Seq<char>, server_name: Seq<char>) -> bool {
    match rule {
        AutoUseRule::All => true,
        AutoUseRule::Server { server } => server@ == server_name,
        AutoUseRule::VendorId { vendor_id } => vendor_id@ == vid,
        AutoUseRule::Device { vendor_id, product_id } => vendor_id@ == vid && product_id@ == pid,
    }
}

/// Whether some rule of `rules` picks the device.
pub open spec fn auto_use(rules: Seq<AutoUseRule>, vendor_id: u16, product_id: u16, server_name: Seq<char>) -> bool {
    exists|i: int|
        0 <= i < rules.len() && rule_matches(rules[i], hex4(vendor_id), hex4(product_id), server_name)
}

/// Check if a device matches any auto-use rule.
pub fn should_auto_use(device: &UsbDevice, rules: &[AutoUseRule], server_name: &str) -> (b: bool)
    ensures
        b == auto_use(rules@, device.vendor_id, device.product_id, server_name@),
{
    let vid = chars_to_string(format_hex4(device.vendor_id).as_slice());
    let pid = chars_to_string(format_hex4(device.product_id).as_slice());
    let mut i: usize = 0;
    while i < rules.len()
        invariant
            i <= rules@.len(),
            vid@ == hex4(device.vendor_id),
            pid@ == hex4(device.product_id),
            forall|j: int|
                0 <= j < i ==> !rule_matches(rules@[j], vid@, pid@, server_name@),
        decreases rules@.len() - i,
    {
        let m = match &rules[i] {
            AutoUseRule::All => true,
            AutoUseRule::Server { server } => str_eq(server.as_str(), server_name),
            AutoUseRule::VendorId { vendor_id } => str_eq(vendor_id.as_str(), vid.as_str()),
            AutoUseRule::Device { vendor_id, product_id } => str_eq(vendor_id.as_str(), vid.as_str())
                && str_eq(product_id.as_str(), pid.as_str()),
        };
        if m {
            assert(rule_matches(rules@[i as int], vid@, pid@, server_name@));
            return true;
        }
        i = i + 1;
    }
    false
}

} // verus!
