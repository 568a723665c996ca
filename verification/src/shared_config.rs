//! Configuration types shared by the server and the clients.

use vstd::prelude::*;

verus! {

/// Which devices a server shares.
#[derive(Clone, Debug)]
pub struct DeviceFilter {
    /// Vendor IDs to ignore (e.g., "1d6b" for Linux Foundation internal hubs)
    pub ignore_vendor_ids: Vec<String>,
    /// Specific bus IDs to ignore
    pub ignore_bus_ids: Vec<String>,
    /// If non-empty, ONLY these vendor IDs are shared
    pub allow_vendor_ids: Vec<String>,
}

/// Access control for one device.
#[derive(Clone, Debug)]
pub struct DeviceAcl {
    /// Users allowed to access this device
    pub allowed_users: Vec<String>,
    /// Whether a password is required even if the user is in the list
    pub require_password: bool,
}

/// A device ACL as plain values.
pub struct DeviceAclView {
    pub allowed_users: Seq<Seq<char>>,
    pub require_password: bool,
}

impl View for DeviceAcl {
    type V = DeviceAclView;

    open spec fn view(&self) -> DeviceAclView {
        DeviceAclView {
            allowed_users: self.allowed_users@.map_values(|u: String| u@),
            require_password: self.require_password,
        }
    }
}

impl DeviceAcl {
    /// A copy of the ACL.
    pub fn duplicate(&self) -> (r: DeviceAcl)
        ensures
            r@ == self@,
    {
        let r = DeviceAcl { allowed_users: self.allowed_users.clone(), require_password: self.require_password };
        proof {
            assert(r.allowed_users@ =~= self.allowed_users@);
        }
        r
    }
}

} // verus!
