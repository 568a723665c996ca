//! The server's configuration (`openusb.toml`), its sections and the
//! value each setting takes when the file leaves it out.
//!
//! A setting missing from a section takes its per-setting default (the
//! `default_*` functions); a section missing from the file takes the
//! section's `Default`, which for some sections differs from the
//! per-setting defaults (an absent `[discovery]` section is disabled).

use vstd::prelude::*;
use crate::shared_config::DeviceAcl;
use crate::strmap::StrMap;

verus! {

/// The whole server configuration.
pub struct ServerConfig {
    pub server: ServerSection,
    pub discovery: DiscoverySection,
    pub security: SecuritySection,
    pub devices: DevicesSection,
    pub events: EventsSection,
    pub notifications: NotificationsSection,
    pub scheduling: SchedulingSection,
    pub metrics: MetricsSection,
    pub reverse_connections: ReverseConnectionsSection,
    pub relay: RelaySection,
    pub logging: LoggingSection,
}

/// `[server]`: the server's name and ports.
pub struct ServerSection {
    pub name: String,
    pub port: u16,
    pub api_port: u16,
    pub hostname: Option<String>,
}

/// `[discovery]`: mDNS advertisement.
pub struct DiscoverySection {
    pub enabled: bool,
    pub mdns_name: String,
}

/// `[security]`: authentication and TLS.
pub struct SecuritySection {
    pub mode: String,
    pub password_hash: String,
    pub tls_enabled: bool,
    pub tls_cert: String,
    pub tls_key: String,
    pub tls_ca: String,
    pub tls_client_certs: bool,
}

/// `[devices]`: sharing, filtering, nicknames and access control.
pub struct DevicesSection {
    pub auto_share: bool,
    pub ignore_vendor_ids: Vec<String>,
    pub ignore_bus_ids: Vec<String>,
    pub allow_vendor_ids: Vec<String>,
    pub nicknames: StrMap<String>,
    pub access: StrMap<DeviceAcl>,
}

/// `[events]`: shell commands run on server events.
pub struct EventsSection {
    pub on_attach: String,
    pub on_detach: String,
    pub on_client_connect: String,
    pub on_client_disconnect: String,
}

/// `[notifications]`.
pub struct NotificationsSection {
    pub webhook_url: String,
    pub email_smtp: String,
    pub email_to: String,
}

/// `[scheduling]`.
pub struct SchedulingSection {
    pub enabled: bool,
    pub timezone: String,
}

/// `[metrics]`.
pub struct MetricsSection {
    pub enabled: bool,
    pub history_days: u32,
    pub bandwidth_tracking: bool,
}

/// `[reverse_connections]`.
pub struct ReverseConnectionsSection {
    pub enabled: bool,
    pub clients: Vec<String>,
    pub retry_interval: u32,
}

/// `[relay]`.
pub struct RelaySection {
    pub enabled: bool,
    pub relay_server: String,
    pub relay_token: String,
}

/// `[logging]`.
pub struct LoggingSection {
    pub level: String,
    pub file: String,
    pub max_size_mb: u32,
    pub rotate_count: u32,
}

/// The default USB/IP port.
pub fn default_usbip_port() -> (p: u16)
    ensures
        p == 3240,
{
    3240
}

/// The default REST API port.
pub fn default_api_port() -> (p: u16)
    ensures
        p == 8443,
{
    8443
}

/// `true`, for settings that are on unless turned off.
pub fn default_true() -> (b: bool)
    ensures
        b,
{
    true
}

/// The default mDNS service type.
pub fn default_mdns_name() -> (s: String)
    ensures
        s@ == "_openusb._tcp"@,
{
    String::from_str("_openusb._tcp")
}

/// The default security mode: open, no authentication.
pub fn default_security_mode() -> (s: String)
    ensures
        s@ == "open"@,
{
    String::from_str("open")
}

/// The default time zone for scheduling.
pub fn default_timezone() -> (s: String)
    ensures
        s@ == "UTC"@,
{
    String::from_str("UTC")
}

/// How many days of usage history are kept by default.
pub fn default_history_days() -> (d: u32)
    ensures
        d == 90,
{
    90
}

/// Seconds between reverse-connection attempts by default.
pub fn default_retry_interval() -> (s: u32)
    ensures
        s == 15,
{
    15
}

/// The default log level.
pub fn default_log_level() -> (s: String)
    ensures
        s@ == "info"@,
{
    String::from_str("info")
}

/// The default log file.
pub fn default_log_file() -> (s: String)
    ensures
        s@ == "/var/log/openusb/openusb.log"@,
{
    String::from_str("/var/log/openusb/openusb.log")
}

/// The default size, in MB, at which the log file is rotated.
pub fn default_log_max_size() -> (m: u32)
    ensures
        m == 50,
{
    50
}

/// How many rotated log files are kept by default.
pub fn default_rotate_count() -> (n: u32)
    ensures
        n == 5,
{
    5
}

impl Default for DiscoverySection {
    /// An absent `[discovery]` section: the server advertises itself as
    /// `_openusb._tcp`, as with an empty section.
    fn default() -> (s: Self)
        ensures
            s.enabled,
            s.mdns_name@ == "_openusb._tcp"@,
    {
        DiscoverySection { enabled: default_true(), mdns_name: default_mdns_name() }
    }
}

impl Default for SecuritySection {
    /// An absent `[security]` section: open mode, no TLS.
    fn default() -> (s: Self)
        ensures
            s.mode@ == "open"@,
            s.password_hash@ == Seq::<char>::empty(),
            !s.tls_enabled,
            s.tls_cert@ == Seq::<char>::empty(),
            s.tls_key@ == Seq::<char>::empty(),
            s.tls_ca@ == Seq::<char>::empty(),
            !s.tls_client_certs,
    {
        SecuritySection {
            mode: String::from_str("open"),
            password_hash: String::new(),
            tls_enabled: false,
            tls_cert: String::new(),
            tls_key: String::new(),
            tls_ca: String::new(),
            tls_client_certs: false,
        }
    }
}

impl Default for DevicesSection {
    /// An absent `[devices]` section: every connected device is shared,
    /// as with an empty section; no lists, no names, no access rules.
    fn default() -> (s: Self)
        ensures
            s.auto_share,
            s.ignore_vendor_ids@.len() == 0,
            s.ignore_bus_ids@.len() == 0,
            s.allow_vendor_ids@.len() == 0,
            s.nicknames@ == Map::<Seq<char>, String>::empty(),
            s.access@ == Map::<Seq<char>, DeviceAcl>::empty(),
    {
        DevicesSection {
            auto_share: default_true(),
            ignore_vendor_ids: Vec::new(),
            ignore_bus_ids: Vec::new(),
            allow_vendor_ids: Vec::new(),
            nicknames: StrMap::new(),
            access: StrMap::new(),
        }
    }
}

impl Default for EventsSection {
    /// An absent `[events]` section: no hooks.
    fn default() -> (s: Self)
        ensures
            s.on_attach@ == Seq::<char>::empty(),
            s.on_detach@ == Seq::<char>::empty(),
            s.on_client_connect@ == Seq::<char>::empty(),
            s.on_client_disconnect@ == Seq::<char>::empty(),
    {
        EventsSection {
            on_attach: String::new(),
            on_detach: String::new(),
            on_client_connect: String::new(),
            on_client_disconnect: String::new(),
        }
    }
}

impl Default for NotificationsSection {
    /// An absent `[notifications]` section: no notifications.
    fn default() -> (s: Self)
        ensures
            s.webhook_url@ == Seq::<char>::empty(),
            s.email_smtp@ == Seq::<char>::empty(),
            s.email_to@ == Seq::<char>::empty(),
    {
        NotificationsSection { webhook_url: String::new(), email_smtp: String::new(), email_to: String::new() }
    }
}

impl Default for SchedulingSection {
    /// An absent `[scheduling]` section: disabled, with no time zone.
    fn default() -> (s: Self)
        ensures
            !s.enabled,
            s.timezone@ == Seq::<char>::empty(),
    {
        SchedulingSection { enabled: false, timezone: String::new() }
    }
}

impl Default for MetricsSection {
    /// An absent `[metrics]` section: metrics on, 90 days of history,
    /// bandwidth tracked.
    fn default() -> (s: Self)
        ensures
            s.enabled,
            s.history_days == 90,
            s.bandwidth_tracking,
    {
        MetricsSection { enabled: true, history_days: 90, bandwidth_tracking: true }
    }
}

impl Default for ReverseConnectionsSection {
    /// An absent `[reverse_connections]` section: disabled, no clients,
    /// interval 0.
    fn default() -> (s: Self)
        ensures
            !s.enabled,
            s.clients@.len() == 0,
            s.retry_interval == 0,
    {
        ReverseConnectionsSection { enabled: false, clients: Vec::new(), retry_interval: 0 }
    }
}

impl Default for RelaySection {
    /// An absent `[relay]` section: disabled.
    fn default() -> (s: Self)
        ensures
            !s.enabled,
            s.relay_server@ == Seq::<char>::empty(),
            s.relay_token@ == Seq::<char>::empty(),
    {
        RelaySection { enabled: false, relay_server: String::new(), relay_token: String::new() }
    }
}

impl Default for LoggingSection {
    /// An absent `[logging]` section: `info` level to the default log file,
    /// rotated at 50 MB, 5 files kept.
    fn default() -> (s: Self)
        ensures
            s.level@ == "info"@,
            s.file@ == "/var/log/openusb/openusb.log"@,
            s.max_size_mb == 50,
            s.rotate_count == 5,
    {
        LoggingSection {
            level: String::from_str("info"),
            file: String::from_str("/var/log/openusb/openusb.log"),
            max_size_mb: 50,
            rotate_count: 5,
        }
    }
}

} // verus!
