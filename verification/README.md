# openusb

The verified core of OpenUSB, a USB-over-IP suite: a server daemon
(`openusbd`) that shares the USB devices of a Linux machine with USB/IP and
offers a REST API, WebSocket events and mDNS discovery; a client service
with a local API and a tray icon; and the `openusb` command-line tool.

## Layout

- `src/` — the library, written in Verus. Every function carries a
  contract that Verus proves: the parsers (`usb.ids`, sysfs attributes,
  `usbip port` output, addresses, certificate subjects), the server's
  device table and its share/unshare/kick lifecycle, device filtering,
  access control lists, authentication decisions, metrics, history rows,
  hook environments, hotplug diffs, reconnect backoff, client
  configuration, auto-use rules, the tray's state machine and icon pixels.
  Calls into other crates (the clock, UUIDs, PNG decoding, string
  conversions) sit behind a few trusted functions whose contracts are
  stated in their doc comments.
- `tests/` — tests run against the compiled library.
- `app/` — the programs: file and network I/O, HTTP (axum, reqwest), SQLite
  (rusqlite), JWT signing (jsonwebtoken), mDNS (mdns-sd), the command line
  (clap) and the tray (tao, muda, tray-icon). The program chooses its role
  by the name it runs under: `openusbd`, `openusb-client` or `openusb`.
