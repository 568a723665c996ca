//! The client's configuration (`client.toml`): known servers, automatic
//! reconnection and the rules for attaching devices on their own.

use vstd::prelude::*;
use crate::strmap::{str_eq, StrMap};
use crate::text::chars_to_string;

verus! {

/// A rule for attaching a device without being asked.
#[derive(Clone, Debug)]
pub enum AutoUseRule {
    Device { vendor_id: String, product_id: String },
    VendorId { vendor_id: String },
    Server { server: String },
    All,
}

/// The client's settings.
pub struct ClientConfig {
    pub auto_reconnect: bool,
    pub reconnect_delay: u64,
    pub auto_start: bool,
    pub servers: Vec<String>,
    pub auto_use_rules: Vec<AutoUseRule>,
    pub nicknames: StrMap<String>,
}

/// Seconds to wait before reconnecting, when the file does not say.
pub fn default_reconnect_delay() -> (d: u64)
    ensures
        d == 5,
{
    5
}

/// `Path::join` of a relative, non-empty component on a Unix path: a `/`
/// goes between them unless `base` is empty or already ends with one.
pub open spec fn path_join(base: Seq<char>, component: Seq<char>) -> Seq<char> {
    if base.len() > 0 && base.last() != '/' {
        base + seq!['/'] + component
    } else {
        base + component
    }
}

/// The configuration directory: `APPDATA`, else `XDG_CONFIG_HOME`, else
/// `$HOME/.config`, else `/etc`, from the values these variables hold.
pub open spec fn config_dir_of(
    appdata: Option<Seq<char>>,
    xdg_config_home: Option<Seq<char>>,
    home: Option<Seq<char>>,
) -> Seq<char> {
    match appdata {
        Some(d) => d,
        None => match xdg_config_home {
            Some(d) => d,
            None => match home {
                Some(h) => path_join(h, ".config"@),
                None => "/etc"@,
            },
        },
    }
}

/// The client configuration file in the configuration directory `dir`.
pub open spec fn config_file_in(dir: Seq<char>) -> Seq<char> {
    path_join(path_join(dir, "openusb"@), "client.toml"@)
}

/// Every server of `servers` but those equal to `address`, in order.
pub open spec fn without_server(servers: Seq<Seq<char>>, address: Seq<char>) -> Seq<Seq<char>>
    decreases servers.len(),
{
    if servers.len() == 0 {
        seq![]
    } else {
        let rest = without_server(servers.drop_last(), address);
        if servers.last() == address {
            rest
        } else {
            rest.push(servers.last())
        }
    }
}

/// The servers of a configuration, as plain values.
pub open spec fn server_list(servers: Seq<String>) -> Seq<Seq<char>> {
    servers.map_values(|s: String| s@)
}

fn join_path(base: String, component: &str) -> (r: String)
    ensures
        r@ == path_join(base@, component@),
{
    let mut out = base;
    let needs_sep = if out.as_str().is_empty() {
        false
    } else {
        let chars = crate::text::str_to_chars(out.as_str());
        chars[chars.len() - 1] != '/'
    };
    if needs_sep {
        out.append("/");
        proof {
            reveal_strlit("/");
        }
    }
    out.append(component);
    proof {
        assert(needs_sep ==> "/"@ =~= seq!['/']);
    }
    out
}

impl Default for ClientConfig {
    /// Reconnect automatically after 5 seconds; no servers, rules or names.
    fn default() -> (c: Self)
        ensures
            c.auto_reconnect,
            c.reconnect_delay == 5,
            !c.auto_start,
            c.servers@.len() == 0,
            c.auto_use_rules@.len() == 0,
            c.nicknames@ == Map::<Seq<char>, String>::empty(),
    {
        ClientConfig {
            auto_reconnect: true,
            reconnect_delay: 5,
            auto_start: false,
            servers: Vec::new(),
            auto_use_rules: Vec::new(),
            nicknames: StrMap::new(),
        }
    }
}

impl ClientConfig {
    /// The configuration directory, from the values of the `APPDATA`,
    /// `XDG_CONFIG_HOME` and `HOME` environment variables.
    pub fn config_dir(appdata: Option<String>, xdg_config_home: Option<String>, home: Option<String>) -> (r: String)
        ensures
            r@ == config_dir_of(
                match appdata { Some(s) => Some(s@), None => None },
                match xdg_config_home { Some(s) => Some(s@), None => None },
                match home { Some(s) => Some(s@), None => None },
            ),
    {
        match appdata {
            Some(d) => d,
            None => match xdg_config_home {
                Some(d) => d,
                None => match home {
                    Some(h) => join_path(h, ".config"),
                    None => String::from_str("/etc"),
                },
            },
        }
    }

    /// The path of the client configuration file, from the values of the
    /// `APPDATA`, `XDG_CONFIG_HOME` and `HOME` environment variables.
    pub fn config_path(appdata: Option<String>, xdg_config_home: Option<String>, home: Option<String>) -> (r: String)
        ensures
            r@ == config_file_in(
                config_dir_of(
                    match appdata { Some(s) => Some(s@), None => None },
                    match xdg_config_home { Some(s) => Some(s@), None => None },
                    match home { Some(s) => Some(s@), None => None },
                ),
            ),
    {
        let dir = Self::config_dir(appdata, xdg_config_home, home);
        let dir = join_path(dir, "openusb");
        join_path(dir, "client.toml")
    }

    /// Add a server address unless it is already known; returns whether
    /// it was added.
    pub fn add_server(&mut self, address: &str) -> (added: bool)
        ensures
            added == !server_list(old(self).servers@).contains(address@),
            added ==> server_list(final(self).servers@) == server_list(old(self).servers@).push(
                address@,
            ),
            !added ==> final(self).servers@ == old(self).servers@,
            final(self).auto_use_rules@ == old(self).auto_use_rules@,
            final(self).reconnect_delay == old(self).reconnect_delay,
    {
        let mut i: usize = 0;
        while i < self.servers.len()
            invariant
                i <= self.servers@.len(),
                forall|j: int| 0 <= j < i ==> self.servers@[j]@ != address@,
            decreases self.servers@.len() - i,
        {
            if str_eq(self.servers[i].as_str(), address) {
                assert(server_list(self.servers@)[i as int] == address@);
                return false;
            }
            i = i + 1;
        }
        proof {
            assert(!server_list(self.servers@).contains(address@)) by {
                if server_list(self.servers@).contains(address@) {
                    let j = choose|j: int| 0 <= j < self.servers@.len() && server_list(self.servers@)[j] == address@;
                    assert(self.servers@[j]@ == address@);
                }
            }
        }
        let s = String::from_str(address);
        let ghost before = self.servers@;
        self.servers.push(s);
        proof {
            assert(server_list(self.servers@) =~= server_list(before).push(address@));
        }
        true
    }

    /// Remove every entry equal to `address`; returns whether one was
    /// removed.
    pub fn remove_server(&mut self, address: &str) -> (removed: bool)
        ensures
            server_list(final(self).servers@) == without_server(server_list(old(self).servers@), address@),
            removed == (final(self).servers@.len() != old(self).servers@.len()),
            removed == server_list(old(self).servers@).contains(address@),
            final(self).auto_use_rules@ == old(self).auto_use_rules@,
    {
        let ghost old_list = server_list(self.servers@);
        let mut kept: Vec<String> = Vec::new();
        let mut i: usize = 0;
        let mut found = false;
        let n = self.servers.len();
        proof {
            assert(server_list(kept@) =~= without_server(old_list.take(0), address@));
        }
        while i < n
            invariant
                n == self.servers@.len(),
                old_list == server_list(self.servers@),
                i <= n,
                server_list(kept@) == without_server(old_list.take(i as int), address@),
                found == old_list.take(i as int).contains(address@),
                kept@.len() + (if found { 1int } else { 0int }) <= i,
                !found ==> kept@.len() == i,
            decreases n - i,
        {
            let ghost pre = old_list.take(i as int);
            let ghost nxt = old_list.take(i + 1);
            proof {
                assert(nxt.drop_last() =~= pre);
                assert(nxt.last() == self.servers@[i as int]@);
            }
            if str_eq(self.servers[i].as_str(), address) {
                found = true;
                proof {
                    assert(nxt[i as int] == address@);
                }
            } else {
                let ghost before = kept@;
                kept.push(self.servers[i].clone());
                proof {
                    assert(server_list(kept@) =~= server_list(before).push(self.servers@[i as int]@));
                    assert forall|x: Seq<char>| nxt.contains(x) == (pre.contains(x) || x == nxt.last()) by {
                        if nxt.contains(x) {
                            let j = choose|j: int| 0 <= j < nxt.len() && nxt[j] == x;
                            if j < i {
                                assert(pre[j] == x);
                            }
                        }
                        if pre.contains(x) {
                            let j = choose|j: int| 0 <= j < pre.len() && pre[j] == x;
                            assert(nxt[j] == x);
                        }
                    }
                }
            }
            proof {
                if !(nxt.last() == address@) {
                    assert(nxt.contains(address@) == pre.contains(address@)) by {
                        if nxt.contains(address@) {
                            let j = choose|j: int| 0 <= j < nxt.len() && nxt[j] == address@;
                            assert(j < i);
                            assert(pre[j] == address@);
                        }
                        if pre.contains(address@) {
                            let j = choose|j: int| 0 <= j < pre.len() && pre[j] == address@;
                            assert(nxt[j] == address@);
                        }
                    }
                } else {
                    assert(nxt[i as int] == address@);
                }
            }
            i = i + 1;
        }
        proof {
            assert(old_list.take(n as int) =~= old_list);
        }
        self.servers = kept;
        found
    }
}

} // verus!
