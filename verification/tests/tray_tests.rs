use openusb::tray::{
    api_labels, dashboard_or_default, decode_png_icon, fallback_icon_rgba, rgb_to_rgba, tray_step,
    IconError, MenuChoice, TrayAction, TrayState, DEFAULT_API_PORT,
};

fn encode_png(width: u32, height: u32, color: png::ColorType, data: &[u8]) -> Vec<u8> {
    let mut out = Vec::new();
    {
        let mut encoder = png::Encoder::new(&mut out, width, height);
        encoder.set_color(color);
        encoder.set_depth(png::BitDepth::Eight);
        let mut writer = encoder.write_header().unwrap();
        writer.write_image_data(data).unwrap();
        writer.finish().unwrap();
    }
    out
}

fn texts(actions: &[TrayAction]) -> Vec<String> {
    actions
        .iter()
        .map(|a| match a {
            TrayAction::OpenUrl(u) => format!("open {u}"),
            TrayAction::Exit => "exit".to_string(),
            TrayAction::SetStatusText(t) => format!("status {t}"),
            TrayAction::SetServersText(t) => format!("servers {t}"),
        })
        .collect()
}

#[test]
fn dashboard_defaults_to_local_server() {
    assert_eq!(dashboard_or_default(None), "http://localhost:8443");
    assert_eq!(dashboard_or_default(Some("http://pi:8443".to_string())), "http://pi:8443");
}

#[test]
fn api_labels_name_the_port() {
    let (status, setting) = api_labels(DEFAULT_API_PORT);
    assert_eq!(status, "Client API: localhost:9245");
    assert_eq!(setting, "API Port: 9245");
}

#[test]
fn tray_steps_through_startup() {
    let url = "http://localhost:8443";
    let mut state = TrayState::new();
    assert!(tray_step(&mut state, None, false, 0, url).is_empty());
    assert_eq!(texts(&tray_step(&mut state, Some(MenuChoice::OpenDashboard), false, 0, url)), vec!["open http://localhost:8443"]);
    assert_eq!(texts(&tray_step(&mut state, None, true, 0, url)), vec!["status Running"]);
    assert!(state.was_ready);
    // "Running" is shown once.
    assert!(tray_step(&mut state, None, true, 0, url).is_empty());
    assert_eq!(texts(&tray_step(&mut state, None, true, 1, url)), vec!["servers 1 server found"]);
    assert_eq!(
        texts(&tray_step(&mut state, Some(MenuChoice::Quit), true, 3, url)),
        vec!["exit", "servers 3 servers found"]
    );
    assert!(tray_step(&mut state, Some(MenuChoice::Other), true, 3, url).is_empty());
    assert_eq!(texts(&tray_step(&mut state, None, false, 0, url)), vec!["servers No servers found"]);
    assert_eq!(state.last_count, 0);
}

fn pixel(rgba: &[u8], x: usize, y: usize) -> [u8; 4] {
    let i = (y * 16 + x) * 4;
    [rgba[i], rgba[i + 1], rgba[i + 2], rgba[i + 3]]
}

#[test]
fn fallback_icon_is_a_green_disk() {
    let rgba = fallback_icon_rgba();
    assert_eq!(rgba.len(), 1024);
    let green = [0x22, 0xc5, 0x5e, 0xff];
    let clear = [0, 0, 0, 0];
    assert_eq!(pixel(&rgba, 8, 8), green);
    assert_eq!(pixel(&rgba, 0, 0), clear);
    assert_eq!(pixel(&rgba, 2, 8), green);
    assert_eq!(pixel(&rgba, 1, 8), clear);
    assert_eq!(pixel(&rgba, 14, 8), green);
    assert_eq!(pixel(&rgba, 12, 12), green);
    assert_eq!(pixel(&rgba, 13, 12), clear);
    let lit = (0..256).filter(|p| rgba[p * 4 + 3] == 0xff).count();
    assert_eq!(lit, 113);
}

#[test]
fn rgb_gets_opaque_alpha() {
    assert_eq!(rgb_to_rgba(&[1, 2, 3, 4, 5, 6, 7]), vec![1, 2, 3, 255, 4, 5, 6, 255, 7, 255]);
    assert_eq!(rgb_to_rgba(&[1, 2, 3]), vec![1, 2, 3, 255]);
    assert!(rgb_to_rgba(&[]).is_empty());
}

#[test]
fn png_icons_decode_to_rgba() {
    let rgb = encode_png(2, 1, png::ColorType::Rgb, &[10, 20, 30, 40, 50, 60]);
    let img = decode_png_icon(&rgb).ok().unwrap();
    assert_eq!((img.width, img.height), (2, 1));
    assert_eq!(img.rgba, vec![10, 20, 30, 255, 40, 50, 60, 255]);

    let rgba = encode_png(1, 2, png::ColorType::Rgba, &[1, 2, 3, 4, 5, 6, 7, 8]);
    let img = decode_png_icon(&rgba).ok().unwrap();
    assert_eq!((img.width, img.height), (1, 2));
    assert_eq!(img.rgba, vec![1, 2, 3, 4, 5, 6, 7, 8]);

    let gray = encode_png(2, 2, png::ColorType::Grayscale, &[0, 64, 128, 255]);
    assert!(matches!(decode_png_icon(&gray), Err(IconError::UnsupportedColorType)));

    assert!(matches!(decode_png_icon(b"not a png"), Err(IconError::Decode)));
}
