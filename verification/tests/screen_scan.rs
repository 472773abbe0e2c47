use hald::scan::{parse_virtual_size, push_frame_buffer, scan_screens, FbInfo, ScreenInfo};
use hald::screen::{FbRecord, FrameBufferScreen, MockScreen, Screen, ScreenSocket};

#[test]
fn mock_screen_accepts_exact_frame() {
    let screen = MockScreen::new(320, 240, 16);
    let frame = vec![0u8; 320 * 240 * 2];
    assert!(screen.push_frame_buffer(&frame).is_ok());
}

#[test]
fn mock_screen_rejects_wrong_length() {
    let screen = MockScreen::new(320, 240, 16);
    let frame = vec![0u8; 153599];
    let err = screen.push_frame_buffer(&frame).unwrap_err();
    assert_eq!(err, "Expected 153600 bytes, got 153599");
}

#[test]
fn screen_push_correct_size_replies_ok() {
    // Screen 320x240 bpp=16: a 153600-byte frame is accepted, one byte less
    // is reported with both lengths.
    let socket = ScreenSocket::new(
        MockScreen::new(320, 240, 16),
        "screen0".to_string(),
        "tcp://127.0.0.1:54321",
    );
    let good = vec![0u8; 153600];
    assert_eq!(socket.handle_frame(&good), "{\"status\":0,\"msg\":\"ok\"}");
    let bad = vec![0u8; 153599];
    assert_eq!(
        socket.handle_frame(&bad),
        "{\"status\":1,\"msg\":\"Expected 153600 bytes, got 153599\"}"
    );
}

#[test]
fn screen_socket_reads_port_from_endpoint() {
    let socket = ScreenSocket::new(
        MockScreen::new(320, 240, 16),
        "screen0".to_string(),
        "tcp://127.0.0.1:54321",
    );
    assert_eq!(socket.frame_buffer_port, 54321);
    let socket = ScreenSocket::new(
        MockScreen::new(320, 240, 16),
        "screen0".to_string(),
        "garbage",
    );
    assert_eq!(socket.frame_buffer_port, 0);
}

#[test]
fn screen_info_json_shape() {
    let socket = ScreenSocket::new(
        MockScreen::new(320, 240, 16),
        "screen0".to_string(),
        "tcp://127.0.0.1:4567",
    );
    let info = socket.get_device_info();
    assert_eq!(
        info,
        "{\"screen_size\":[320,240],\"bits_per_pixel\":16,\"frame_buffer_port\":4567,\
         \"device_type\":\"mock\",\"description\":\"Render a frame by sending a raw buffer \
         to <frame_buffer_port> via ZMQ REP socket.\"}"
    );
    // The text is valid JSON with the expected fields.
    let v: serde_json::Value = serde_json::from_str(&info).unwrap();
    assert_eq!(v["screen_size"][0].as_u64(), Some(320));
    assert_eq!(v["frame_buffer_port"].as_u64(), Some(4567));
}

fn record(
    dir: &str,
    name: Option<&str>,
    bpp: Option<&str>,
    size: Option<&str>,
    dev: Option<&str>,
) -> FbRecord {
    FbRecord {
        dir_name: dir.to_string(),
        name: name.map(|s| s.to_string()),
        bits_per_pixel: bpp.map(|s| s.to_string()),
        virtual_size: size.map(|s| s.to_string()),
        device_path: dev.map(|s| s.to_string()),
    }
}

#[test]
fn framebuffer_scan_keeps_usable_records_in_order() {
    let records = vec![
        record("fb0", Some("drm-rp1-dsidrmf"), Some("16"), Some("320,240"), Some("/sys/devices/a")),
        record("fb1", Some("aux"), Some("16"), Some("320,240"), Some("/sys/devices/b")),
        record("fb2", None, Some("16"), Some("320,240"), Some("/sys/devices/c")),
        record("fb3", Some("aux2"), Some("junk"), Some("320,240"), Some("/sys/devices/d")),
        record("fb4", Some("aux3"), Some("24"), Some("640,480"), Some("/sys/devices/e")),
    ];
    let screens = FrameBufferScreen::new(records);
    assert_eq!(screens.len(), 2);
    assert_eq!(screens[0].path(), "/dev/fb1");
    assert_eq!(screens[0].bpp(), 16);
    assert_eq!(screens[0].size(), (320, 240));
    assert_eq!(screens[1].path(), "/dev/fb4");
    assert_eq!(screens[1].device_type(), "/sys/devices/e");
}

#[test]
fn framebuffer_exclusion_list() {
    assert!(FrameBufferScreen::is_excluded("drm-rp1-dsidrmf"));
    assert!(!FrameBufferScreen::is_excluded("aux-screen"));
    let names = hald::scan::excluded_names();
    assert_eq!(names, vec!["drm-rp1-dsidrmf"]);
}

#[test]
fn virtual_size_parses_two_fields() {
    assert_eq!(parse_virtual_size("480,320"), Some((480, 320)));
    assert_eq!(parse_virtual_size(" 480,320\n"), Some((480, 320)));
    assert_eq!(parse_virtual_size("480,320,9"), Some((480, 320)));
    assert_eq!(parse_virtual_size("480"), None);
    assert_eq!(parse_virtual_size("480,"), None);
    assert_eq!(parse_virtual_size("a,b"), None);
    assert_eq!(parse_virtual_size(""), None);
}

fn fb(name: Option<&str>, res: Option<(u32, u32)>, bpp: Option<u32>, dev: Option<&str>) -> FbInfo {
    FbInfo {
        path: "/dev/fb9".to_string(),
        name: name.map(|s| s.to_string()),
        resolution: res,
        bpp,
        device_path: dev.map(|s| s.to_string()),
    }
}

#[test]
fn scan_screens_filters_and_keeps_order() {
    let list = vec![
        fb(Some("one"), Some((320, 240)), Some(16), Some("/d/1")),
        fb(None, Some((320, 240)), Some(16), Some("/d/2")),
        fb(Some("drm-rp1-dsidrmf"), Some((320, 240)), Some(16), Some("/d/3")),
        fb(Some("two"), Some((640, 480)), Some(32), Some("/d/4")),
    ];
    let screens = scan_screens(list);
    assert_eq!(screens.len(), 2);
    assert_eq!(screens[0].name, "one");
    assert_eq!(screens[1].name, "two");
}

#[test]
fn standalone_push_validates_length() {
    let screen = ScreenInfo {
        path: "/dev/fb1".to_string(),
        name: "aux".to_string(),
        resolution: (4, 2),
        bpp: 24,
        device_path: "/d".to_string(),
    };
    assert!(push_frame_buffer(&screen, &vec![0u8; 24]).is_ok());
    assert_eq!(
        push_frame_buffer(&screen, &vec![0u8; 23]).unwrap_err(),
        "Expected 24 bytes, got 23"
    );
}

#[test]
fn awkward_device_paths_are_escaped_not_rejected() {
    let mut s = String::new();
    hald::json::append_json_escaped(&mut s, "a\"b\\c\nd\u{1}");
    assert_eq!(s, "a\\\"b\\\\c\\nd\\u0001");

    let records = vec![record(
        "fb7",
        Some("odd"),
        Some("16"),
        Some("2,2"),
        Some("/sys/devices/weird\"path"),
    )];
    let screens = FrameBufferScreen::new(records);
    assert_eq!(screens.len(), 1);
    let socket = ScreenSocket::new(
        screens.into_iter().next().unwrap(),
        "screen9".to_string(),
        "tcp://127.0.0.1:1000",
    );
    let info = socket.get_device_info();
    assert!(info.contains("\"device_type\":\"/sys/devices/weird\\\"path\""));
    let v: serde_json::Value = serde_json::from_str(&info).unwrap();
    assert_eq!(v["device_type"].as_str(), Some("/sys/devices/weird\"path"));
}
