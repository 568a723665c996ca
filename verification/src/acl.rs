//! Per-device access control lists.
//!
//! A device is keyed by its `vid:pid` string. A device without an ACL,
//! or whose ACL lists no users, is open to everyone; otherwise a user may
//! use it when the list names the user or holds `*`.

use vstd::prelude::*;
use crate::shared_config::{DeviceAcl, DeviceAclView};
use crate::strmap::{str_eq, StrMap};

verus! {

/// Whether the list of allowed users lets `user` in.
pub open spec fn users_allow(users: Seq<Seq<char>>, user: Seq<char>) -> bool {
    users.len() == 0 || exists|i: int| 0 <= i < users.len() && (users[i] == user || users[i] == "*"@)
}

/// Whether `user` may use the device `key` under `rules`.
pub open spec fn acl_allows(rules: Map<Seq<char>, DeviceAclView>, key: Seq<char>, user: Seq<char>) -> bool {
    !rules.contains_key(key) || users_allow(rules[key].allowed_users, user)
}

/// Whether the device `key` asks for a password even of allowed users.
pub open spec fn acl_requires_password(rules: Map<Seq<char>, DeviceAclView>, key: Seq<char>) -> bool {
    rules.contains_key(key) && rules[key].require_password
}

/// The rules of a map of ACLs, as plain values.
pub open spec fn rules_view(m: Map<Seq<char>, DeviceAcl>) -> Map<Seq<char>, DeviceAclView> {
    m.map_values(|a: DeviceAcl| a@)
}

/// Per-device access control list enforcement.
pub struct AclEngine {
    rules: StrMap<DeviceAcl>,
}

impl View for AclEngine {
    type V = Map<Seq<char>, DeviceAclView>;

    closed spec fn view(&self) -> Map<Seq<char>, DeviceAclView> {
        rules_view(self.rules@)
    }
}

impl AclEngine {
    /// An engine enforcing `rules`.
    pub fn new(rules: StrMap<DeviceAcl>) -> (e: Self)
        ensures
            e@ == rules_view(rules@),
    {
        AclEngine { rules }
    }

    /// Check if a user can access a device.
    /// `device_key` is typically "vid:pid" (e.g. "0765:5020").
    /// Returns true if no ACL is set for the device (open access).
    pub fn can_access(&self, device_key: &str, username: &str) -> (b: bool)
        ensures
            b == acl_allows(self@, device_key@, username@),
    {
        match self.rules.get(device_key) {
            None => true,
            Some(acl) => {
                let users = &acl.allowed_users;
                let ghost uv = acl@.allowed_users;
                assert(self@.contains_key(device_key@));
                assert(self@[device_key@] == acl@);
                if users.len() == 0 {
                    return true;
                }
                let mut i: usize = 0;
                while i < users.len()
                    invariant
                        i <= users@.len(),
                        uv == users@.map_values(|u: String| u@),
                        self@.contains_key(device_key@),
                        self@[device_key@].allowed_users == uv,
                        forall|j: int| 0 <= j < i ==> uv[j] != username@ && uv[j] != "*"@,
                    decreases users@.len() - i,
                {
                    if str_eq(users[i].as_str(), username) || str_eq(users[i].as_str(), "*") {
                        assert(uv[i as int] == users@[i as int]@);
                        assert(uv[i as int] == username@ || uv[i as int] == "*"@);
                        return true;
                    }
                    i = i + 1;
                }
                false
            },
        }
    }

    /// Check if a device requires password auth even for allowed users.
    pub fn requires_password(&self, device_key: &str) -> (b: bool)
        ensures
            b == acl_requires_password(self@, device_key@),
    {
        match self.rules.get(device_key) {
            Some(acl) => acl.require_password,
            None => false,
        }
    }

    /// Get the ACL rules for a specific device.
    pub fn get_acl(&self, device_key: &str) -> (r: Option<&DeviceAcl>)
        ensures
            match r {
                Some(acl) => self@.contains_key(device_key@) && acl@ == self@[device_key@],
                None => !self@.contains_key(device_key@),
            },
    {
        self.rules.get(device_key)
    }

    /// Get all ACL rules.
    pub fn all_rules(&self) -> (r: &StrMap<DeviceAcl>)
        ensures
            rules_view(r@) == self@,
    {
        &self.rules
    }

    /// Update a device's ACL.
    pub fn set_acl(&mut self, device_key: String, acl: DeviceAcl)
        ensures
            final(self)@ == old(self)@.insert(device_key@, acl@),
    {
        let ghost k = device_key@;
        let ghost a = acl;
        self.rules.insert(device_key, acl);
        proof {
            assert(rules_view(self.rules@) =~= rules_view(old(self).rules@).insert(k, a@));
        }
    }

    /// Remove a device's ACL (reverting to open access).
    pub fn remove_acl(&mut self, device_key: &str)
        ensures
            final(self)@ == old(self)@.remove(device_key@),
    {
        self.rules.remove(device_key);
        proof {
            assert(rules_view(self.rules@) =~= rules_view(old(self).rules@).remove(device_key@));
        }
    }
}

/// A device without an ACL is open to every user.
pub proof fn law_no_acl_is_open(rules: Map<Seq<char>, DeviceAclView>, key: Seq<char>, user: Seq<char>)
    requires
        !rules.contains_key(key),
    ensures
        acl_allows(rules, key, user),
        !acl_requires_password(rules, key),
{
}

/// An ACL whose list of users is empty leaves the device open.
pub proof fn law_empty_list_is_open(
    rules: Map<Seq<char>, DeviceAclView>,
    key: Seq<char>,
    user: Seq<char>,
)
    requires
        rules.contains_key(key),
        rules[key].allowed_users.len() == 0,
    ensures
        acl_allows(rules, key, user),
{
}

/// A user named in a device's list, or a list that holds `*`, gives access.
pub proof fn law_listed_user_allowed(
    rules: Map<Seq<char>, DeviceAclView>,
    key: Seq<char>,
    user: Seq<char>,
    i: int,
)
    requires
        rules.contains_key(key),
        0 <= i < rules[key].allowed_users.len(),
        rules[key].allowed_users[i] == user || rules[key].allowed_users[i] == "*"@,
    ensures
        acl_allows(rules, key, user),
{
}

/// A user that a non-empty list neither names nor opens with `*` is refused.
pub proof fn law_unlisted_user_refused(
    rules: Map<Seq<char>, DeviceAclView>,
    key: Seq<char>,
    user: Seq<char>,
)
    requires
        rules.contains_key(key),
        rules[key].allowed_users.len() > 0,
        forall|i: int|
            0 <= i < rules[key].allowed_users.len() ==> rules[key].allowed_users[i] != user
                && rules[key].allowed_users[i] != "*"@,
    ensures
        !acl_allows(rules, key, user),
{
}

/// After `set_acl(key, acl)` the device `key` is governed by `acl` and
/// every other device keeps its access.
pub proof fn law_set_acl(
    rules: Map<Seq<char>, DeviceAclView>,
    key: Seq<char>,
    acl: DeviceAclView,
    other: Seq<char>,
    user: Seq<char>,
)
    requires
        other != key,
    ensures
        rules.insert(key, acl)[key] == acl,
        acl_allows(rules.insert(key, acl), key, user) == users_allow(acl.allowed_users, user),
        acl_requires_password(rules.insert(key, acl), key) == acl.require_password,
        acl_allows(rules.insert(key, acl), other, user) == acl_allows(rules, other, user),
        acl_requires_password(rules.insert(key, acl), other) == acl_requires_password(rules, other),
{
}

/// After `remove_acl(key)` the device `key` is open again, without a
/// password, and every other device keeps its access.
pub proof fn law_remove_acl_reopens(
    rules: Map<Seq<char>, DeviceAclView>,
    key: Seq<char>,
    other: Seq<char>,
    user: Seq<char>,
)
    requires
        other != key,
    ensures
        acl_allows(rules.remove(key), key, user),
        !acl_requires_password(rules.remove(key), key),
        acl_allows(rules.remove(key), other, user) == acl_allows(rules, other, user),
        acl_requires_password(rules.remove(key), other) == acl_requires_password(rules, other),
{
}

} // verus!
