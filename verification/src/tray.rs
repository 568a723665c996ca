//! The client's tray icon: the dashboard it opens, what its menu says as
//! the client's services come up and servers are found, and the pixels of
//! its icon.
//!
//! The event loop itself belongs to the windowing toolkit; each turn of it
//! hands `tray_step` what happened and performs the actions it returns.

use vstd::prelude::*;
use crate::status::{servers_found_of, servers_found_text};
use crate::text::{chars_to_string, dec_digits, format_dec};

verus! {

/// The dashboard opened when no server is configured.
pub open spec fn default_dashboard() -> Seq<char> {
    "http://localhost:8443"@
}

/// The dashboard that the tray opens: the one given, else the local one.
pub fn dashboard_or_default(dashboard_url: Option<String>) -> (r: String)
    ensures
        r@ == (match dashboard_url {
            Some(u) => u@,
            None => default_dashboard(),
        }),
{
    match dashboard_url {
        Some(u) => u,
        None => String::from_str("http://localhost:8443"),
    }
}

/// The port of the client's local API.
pub const DEFAULT_API_PORT: u16 = 9245;

/// The labels of the menu items that show the local API's port: the
/// status line and the entry under Settings.
pub fn api_labels(api_port: u16) -> (r: (String, String))
    ensures
        r.0@ == "Client API: localhost:"@ + dec_digits(api_port as nat),
        r.1@ == "API Port: "@ + dec_digits(api_port as nat),
{
    let digits = format_dec(api_port as u64);
    let port = chars_to_string(digits.as_slice());
    let mut status = String::from_str("Client API: localhost:");
    status.append(port.as_str());
    let mut setting = String::from_str("API Port: ");
    setting.append(port.as_str());
    (status, setting)
}

/// A choice made in the tray menu during one turn of the event loop.
#[derive(Clone, Copy, Debug, PartialEq, Eq, Structural)]
pub enum MenuChoice {
    OpenDashboard,
    Quit,
    /// An item that does nothing.
    Other,
}

/// Something the tray does.
#[derive(Clone, Debug)]
pub enum TrayAction {
    /// Open this URL in the browser.
    OpenUrl(String),
    /// Leave the event loop.
    Exit,
    /// Show this text in the status item.
    SetStatusText(String),
    /// Show this text in the servers item.
    SetServersText(String),
}

/// A tray action as plain values.
pub enum TrayActionView {
    OpenUrl(Seq<char>),
    Exit,
    SetStatusText(Seq<char>),
    SetServersText(Seq<char>),
}

impl View for TrayAction {
    type V = TrayActionView;

    open spec fn view(&self) -> TrayActionView {
        match self {
            TrayAction::OpenUrl(u) => TrayActionView::OpenUrl(u@),
            TrayAction::Exit => TrayActionView::Exit,
            TrayAction::SetStatusText(t) => TrayActionView::SetStatusText(t@),
            TrayAction::SetServersText(t) => TrayActionView::SetServersText(t@),
        }
    }
}

/// What the tray remembers between turns of its event loop: whether it
/// already shows the services as running, and the server count it shows.
#[derive(Clone, Copy, Debug)]
pub struct TrayState {
    pub was_ready: bool,
    pub last_count: usize,
}

impl TrayState {
    /// The state at start: not running, no servers.
    pub fn new() -> (s: Self)
        ensures
            !s.was_ready,
            s.last_count == 0,
    {
        TrayState { was_ready: false, last_count: 0 }
    }
}

/// What a menu choice does.
pub open spec fn menu_actions(choice: Option<MenuChoice>, url: Seq<char>) -> Seq<TrayActionView> {
    match choice {
        Some(MenuChoice::OpenDashboard) => seq![TrayActionView::OpenUrl(url)],
        Some(MenuChoice::Quit) => seq![TrayActionView::Exit],
        _ => Seq::empty(),
    }
}

/// The status item turns to "Running" once, when the services are first
/// seen ready.
pub open spec fn status_actions(was_ready: bool, ready: bool) -> Seq<TrayActionView> {
    if ready && !was_ready {
        seq![TrayActionView::SetStatusText("Running"@)]
    } else {
        Seq::empty()
    }
}

/// The servers item changes when the count of servers found does.
pub open spec fn servers_actions(last_count: usize, count: usize) -> Seq<TrayActionView> {
    if count != last_count {
        seq![TrayActionView::SetServersText(servers_found_of(count as nat))]
    } else {
        Seq::empty()
    }
}

/// One turn of the tray's event loop: the menu choice made (if any),
/// whether the local API is ready, and how many servers have been found.
/// Returns what to do, in order: the menu's action, then the status and
/// servers items' updates.
pub fn tray_step(state: &mut TrayState, choice: Option<MenuChoice>, ready: bool, count: usize, url: &str) -> (r: Vec<TrayAction>)
    ensures
        r@.map_values(|a: TrayAction| a@) == menu_actions(choice, url@) + status_actions(
            old(state).was_ready,
            ready,
        ) + servers_actions(old(state).last_count, count),
        final(state).was_ready == (old(state).was_ready || ready),
        final(state).last_count == count,
{
    let mut actions: Vec<TrayAction> = Vec::new();
    match choice {
        Some(MenuChoice::OpenDashboard) => actions.push(TrayAction::OpenUrl(String::from_str(url))),
        Some(MenuChoice::Quit) => actions.push(TrayAction::Exit),
        _ => {},
    }
    let ghost menu = actions@.map_values(|a: TrayAction| a@);
    assert(menu =~= menu_actions(choice, url@));
    if ready && !state.was_ready {
        actions.push(TrayAction::SetStatusText(String::from_str("Running")));
        state.was_ready = true;
    }
    let ghost with_status = actions@.map_values(|a: TrayAction| a@);
    assert(with_status =~= menu + status_actions(old(state).was_ready, ready));
    if count != state.last_count {
        actions.push(TrayAction::SetServersText(servers_found_text(count)));
        state.last_count = count;
    }
    assert(actions@.map_values(|a: TrayAction| a@) =~= with_status + servers_actions(
        old(state).last_count,
        count,
    ));
    actions
}

/// "Running" is shown once: after a turn that saw the services ready, no
/// later turn sets the status again; and a turn that sees the same server
/// count as the last one leaves the servers item alone.
pub proof fn law_tray_updates_only_on_change(was_ready: bool, ready1: bool, ready2: bool, count: usize)
    ensures
        (was_ready || ready1) ==> status_actions(was_ready || ready1, ready2).len() == 0,
        servers_actions(count, count).len() == 0,
{
}

/// Whether pixel (x, y) of the 16×16 fallback icon lies in its disk of
/// radius 6 around (8, 8).
pub open spec fn in_disk(x: int, y: int) -> bool {
    (x - 8) * (x - 8) + (y - 8) * (y - 8) <= 36
}

/// Byte `c` (red, green, blue, alpha) of pixel (x, y) of the fallback
/// icon: opaque green inside the disk, transparent outside.
pub open spec fn icon_byte(x: int, y: int, c: int) -> u8 {
    if in_disk(x, y) {
        if c == 0 {
            0x22
        } else if c == 1 {
            0xc5
        } else if c == 2 {
            0x5e
        } else {
            0xff
        }
    } else {
        0
    }
}

fn disk_contains(x: u32, y: u32) -> (b: bool)
    requires
        x < 16,
        y < 16,
    ensures
        b == in_disk(x as int, y as int),
{
    let dx: i32 = x as i32 - 8;
    let dy: i32 = y as i32 - 8;
    assert(0 <= dx * dx <= 64 && 0 <= dy * dy <= 64) by (nonlinear_arith)
        requires
            -8 <= dx <= 8,
            -8 <= dy <= 8,
    ;
    dx * dx + dy * dy <= 36
}

/// The 16×16 RGBA image shown when the icon file cannot be decoded: a
/// green disk on a transparent ground, row by row.
pub fn fallback_icon_rgba() -> (r: Vec<u8>)
    ensures
        r@.len() == 1024,
        forall|y: int, x: int, c: int|
            0 <= y < 16 && 0 <= x < 16 && 0 <= c < 4 ==> #[trigger] r@[(y * 16 + x) * 4 + c]
                == icon_byte(x, y, c),
{
    let mut rgba: Vec<u8> = Vec::new();
    let mut y: u32 = 0;
    while y < 16
        invariant
            y <= 16,
            rgba@.len() == y * 64,
            forall|y2: int, x2: int, c: int|
                0 <= y2 < y && 0 <= x2 < 16 && 0 <= c < 4 ==> #[trigger] rgba@[(y2 * 16 + x2) * 4
                    + c] == icon_byte(x2, y2, c),
        decreases 16 - y,
    {
        let mut x: u32 = 0;
        while x < 16
            invariant
                y < 16,
                x <= 16,
                rgba@.len() == y * 64 + x * 4,
                forall|y2: int, x2: int, c: int|
                    0 <= y2 < y && 0 <= x2 < 16 && 0 <= c < 4 ==> #[trigger] rgba@[(y2 * 16 + x2)
                        * 4 + c] == icon_byte(x2, y2, c),
                forall|x2: int, c: int|
                    0 <= x2 < x && 0 <= c < 4 ==> #[trigger] rgba@[(y * 16 + x2) * 4 + c]
                        == icon_byte(x2, y as int, c),
            decreases 16 - x,
        {
            let inside = disk_contains(x, y);
            let ghost before = rgba@;
            if inside {
                rgba.push(0x22);
                rgba.push(0xc5);
                rgba.push(0x5e);
                rgba.push(0xff);
            } else {
                rgba.push(0);
                rgba.push(0);
                rgba.push(0);
                rgba.push(0);
            }
            assert(rgba@.subrange(0, before.len() as int) =~= before);
            assert forall|c: int| 0 <= c < 4 implies #[trigger] rgba@[(y * 16 + x) * 4 + c]
                == icon_byte(x as int, y as int, c) by {
                assert((y * 16 + x) * 4 + c == before.len() + c);
            }
            x = x + 1;
        }
        y = y + 1;
    }
    rgba
}

/// An RGB image as RGBA: an opaque alpha byte after every three bytes
/// (and after a shorter rest at the end).
pub open spec fn rgba_of(s: Seq<u8>) -> Seq<u8>
    decreases s.len(),
{
    if s.len() == 0 {
        Seq::empty()
    } else if s.len() <= 3 {
        s.push(0xff)
    } else {
        s.take(3).push(0xff) + rgba_of(s.skip(3))
    }
}

proof fn lemma_rgba_append(a: Seq<u8>, b: Seq<u8>)
    requires
        a.len() % 3 == 0,
    ensures
        rgba_of(a + b) == rgba_of(a) + rgba_of(b),
    decreases a.len(),
{
    if a.len() == 0 {
        assert(a + b =~= b);
        assert(rgba_of(a) + rgba_of(b) =~= rgba_of(b));
    } else {
        let c = a + b;
        assert(c.take(3) =~= a.take(3));
        assert(c.skip(3) =~= a.skip(3) + b);
        lemma_rgba_append(a.skip(3), b);
        if a.len() == 3 {
            assert(a.take(3) =~= a);
            assert(a.skip(3) =~= Seq::<u8>::empty());
            assert(a.skip(3) + b =~= b);
            if b.len() == 0 {
                assert(c =~= a);
                assert(rgba_of(a) + rgba_of(b) =~= rgba_of(a));
            }
        } else {
            assert(rgba_of(a) + rgba_of(b) =~= a.take(3).push(0xff) + (rgba_of(a.skip(3)) + rgba_of(b)));
        }
    }
}

/// The pixels of an RGB image with an opaque alpha byte added to each.
pub fn rgb_to_rgba(rgb: &[u8]) -> (r: Vec<u8>)
    ensures
        r@ == rgba_of(rgb@),
{
    let n = rgb.len();
    let mut out: Vec<u8> = Vec::new();
    let mut i: usize = 0;
    while i < n
        invariant
            n == rgb@.len(),
            i <= n,
            i % 3 == 0 || i == n,
            out@ == rgba_of(rgb@.take(i as int)),
        decreases n - i,
    {
        let end: usize = if n - i >= 3 { i + 3 } else { n };
        let ghost chunk = rgb@.subrange(i as int, end as int);
        let mut j: usize = i;
        while j < end
            invariant
                i <= j <= end <= n,
                n == rgb@.len(),
                out@ == rgba_of(rgb@.take(i as int)) + rgb@.subrange(i as int, j as int),
            decreases end - j,
        {
            out.push(rgb[j]);
            assert(rgb@.subrange(i as int, j + 1) =~= rgb@.subrange(i as int, j as int).push(rgb@[j as int]));
            j = j + 1;
        }
        out.push(0xff);
        proof {
            assert(rgb@.take(end as int) =~= rgb@.take(i as int) + chunk);
            lemma_rgba_append(rgb@.take(i as int), chunk);
            assert(rgba_of(chunk) == chunk.push(0xff));
            assert(out@ =~= rgba_of(rgb@.take(i as int)) + chunk.push(0xff));
        }
        i = end;
    }
    proof {
        assert(rgb@.take(n as int) =~= rgb@);
    }
    out
}

/// A decoded PNG frame: its size, its PNG color type code (0 grayscale,
/// 2 RGB, 3 indexed, 4 grayscale with alpha, 6 RGBA) and its pixel bytes.
pub struct PngFrame {
    pub width: u32,
    pub height: u32,
    pub color_type: u8,
    pub pixels: Vec<u8>,
}

/// The first frame that the `png` crate decodes from a file's bytes: its
/// width, height, color type code and pixel bytes; `None` when the bytes
/// do not decode.
pub uninterp spec fn decoded_png(data: Seq<u8>) -> Option<(u32, u32, u8, Seq<u8>)>;

/// Decodes the first frame of a PNG file with the `png` crate
/// (`Decoder::new`, `read_info`, `output_buffer_size`, `next_frame`).
/// Claimed: the frame is `decoded_png` of the bytes, and `None` comes
/// exactly when that is `None` (a decoding error, or a frame too large to
/// hold).
#[verifier::external_body]
fn decode_png_frame(data: &[u8]) -> (r: Option<PngFrame>)
    ensures
        match r {
            Some(f) => decoded_png(data@) == Some((f.width, f.height, f.color_type, f.pixels@)),
            None => decoded_png(data@) is None,
        },
{
    let mut reader = png::Decoder::new(std::io::Cursor::new(data)).read_info().ok()?;
    let mut pixels = vec![0u8; reader.output_buffer_size()?];
    let info = reader.next_frame(&mut pixels).ok()?;
    pixels.truncate(info.buffer_size());
    Some(PngFrame { width: info.width, height: info.height, color_type: info.color_type as u8, pixels })
}

/// An RGBA image: its bytes, row by row, and its size.
pub struct RgbaImage {
    pub rgba: Vec<u8>,
    pub width: u32,
    pub height: u32,
}

/// Why an icon file was refused.
#[derive(Clone, Copy, Debug, PartialEq, Eq, Structural)]
pub enum IconError {
    /// The bytes are not a PNG file that decodes.
    Decode,
    /// Neither RGB nor RGBA.
    UnsupportedColorType,
}

/// The RGBA bytes of a decoded frame: as they are for RGBA, with alpha
/// added for RGB, none for other color types.
pub open spec fn icon_pixels(color_type: u8, pixels: Seq<u8>) -> Option<Seq<u8>> {
    if color_type == 6 {
        Some(pixels)
    } else if color_type == 2 {
        Some(rgba_of(pixels))
    } else {
        None
    }
}

/// The icon image of a decoded frame.
pub fn icon_from_frame(frame: PngFrame) -> (r: Result<RgbaImage, IconError>)
    ensures
        match icon_pixels(frame.color_type, frame.pixels@) {
            Some(p) => r matches Ok(img) && img.rgba@ == p && img.width == frame.width && img.height
                == frame.height,
            None => r == Err::<RgbaImage, IconError>(IconError::UnsupportedColorType),
        },
{
    if frame.color_type == 6 {
        Ok(RgbaImage { rgba: frame.pixels, width: frame.width, height: frame.height })
    } else if frame.color_type == 2 {
        let rgba = rgb_to_rgba(frame.pixels.as_slice());
        Ok(RgbaImage { rgba, width: frame.width, height: frame.height })
    } else {
        Err(IconError::UnsupportedColorType)
    }
}

/// The icon image in a PNG file.
pub fn decode_png_icon(png_data: &[u8]) -> (r: Result<RgbaImage, IconError>)
    ensures
        match decoded_png(png_data@) {
            None => r == Err::<RgbaImage, IconError>(IconError::Decode),
            Some((w, h, c, p)) => match icon_pixels(c, p) {
                Some(px) => r matches Ok(img) && img.rgba@ == px && img.width == w && img.height == h,
                None => r == Err::<RgbaImage, IconError>(IconError::UnsupportedColorType),
            },
        },
{
    match decode_png_frame(png_data) {
        Some(frame) => icon_from_frame(frame),
        None => Err(IconError::Decode),
    }
}

} // verus!
