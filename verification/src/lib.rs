//! Verified core of the OpenUSB USB-over-IP suite: parsers, device and
//! access-control state, event mapping and the rules that the server,
//! the client and the command-line tool share.

pub mod acl;
pub mod address;
pub mod auth;
pub mod auto_connect;
pub mod certificate;
pub mod client_config;
pub mod device;
pub mod discovery;
pub mod filter;
pub mod history;
pub mod hooks;
pub mod manager;
pub mod metrics;
pub mod platform_linux;
pub mod platform_sim;
pub mod protocol;
pub mod reconnect;
pub mod server_config;
pub mod shared_config;
pub mod status;
pub mod strmap;
pub mod text;
pub mod tray;
pub mod usb_ids;
pub mod usbip;
