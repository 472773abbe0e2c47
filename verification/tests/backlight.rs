use hald::backlight::{
    brightness_param,
    parse_raw_brightness,
    raw_from_micro,
    split_on_char,
    BacklightRecord,
    MockBacklight,
    SysfsBacklight,
};

#[test]
fn set_clamps_above_full_scale() {
    // set(1.5) then get reads back full scale: raw == max.
    assert_eq!(raw_from_micro(1_500_000, 2047), 2047);
    assert_eq!(raw_from_micro(1_000_000, 2047), 2047);
}

#[test]
fn set_clamps_below_zero() {
    // set(-0.5) then get reads back zero.
    assert_eq!(raw_from_micro(-500_000, 2047), 0);
    assert_eq!(raw_from_micro(0, 2047), 0);
}

#[test]
fn set_rounds_to_nearest_raw_step() {
    // round(0.5 * 2047) = 1024.
    assert_eq!(raw_from_micro(500_000, 2047), 1024);
    // round(0.25 * 100) = 25.
    assert_eq!(raw_from_micro(250_000, 100), 25);
    // Half rounds up: round(0.005 * 100) = round(0.5) = 1.
    assert_eq!(raw_from_micro(5_000, 100), 1);
}

#[test]
fn brightness_file_parse() {
    assert_eq!(parse_raw_brightness("1024\n").unwrap(), 1024);
    assert_eq!(parse_raw_brightness(" 7 ").unwrap(), 7);
    assert_eq!(parse_raw_brightness("x").unwrap_err(), "parse brightness failed");
    assert_eq!(parse_raw_brightness("").unwrap_err(), "parse brightness failed");
}

#[test]
fn mock_backlight_clamps_in_memory() {
    let mut mock = MockBacklight::new("mock".to_string(), 2047);
    assert_eq!(mock.get_brightness(), 600_000);
    mock.set_brightness(1_500_000);
    assert_eq!(mock.get_brightness(), 1_000_000);
    mock.set_brightness(-3);
    assert_eq!(mock.get_brightness(), 0);
    mock.set_brightness(420_000);
    assert_eq!(mock.get_brightness(), 420_000);
}

#[test]
fn sysfs_backlight_from_record() {
    let rec = BacklightRecord {
        dir_name: "panel".to_string(),
        device_path: "/sys/class/backlight/panel".to_string(),
        has_brightness: true,
        has_max_brightness: true,
        max_brightness_content: Some("2047\n".to_string()),
    };
    let b = SysfsBacklight::new(&rec).unwrap();
    assert_eq!(b.max_brightness(), 2047);
    assert_eq!(b.brightness_path, "/sys/class/backlight/panel/brightness");
    assert_eq!(b.max_brightness_path, "/sys/class/backlight/panel/max_brightness");
    assert_eq!(b.set_brightness_text(1_500_000), "2047");
}

#[test]
fn sysfs_backlight_skips_unusable_records() {
    let mut rec = BacklightRecord {
        dir_name: "panel".to_string(),
        device_path: "/p".to_string(),
        has_brightness: false,
        has_max_brightness: true,
        max_brightness_content: Some("10".to_string()),
    };
    assert!(SysfsBacklight::new(&rec).is_none());
    rec.has_brightness = true;
    rec.max_brightness_content = Some("junk".to_string());
    assert!(SysfsBacklight::new(&rec).is_none());
    rec.max_brightness_content = None;
    assert!(SysfsBacklight::new(&rec).is_none());
}

#[test]
fn devices_scan_keeps_order() {
    let good = |n: &str| BacklightRecord {
        dir_name: n.to_string(),
        device_path: format!("/sys/class/backlight/{}", n),
        has_brightness: true,
        has_max_brightness: true,
        max_brightness_content: Some("255".to_string()),
    };
    let mut bad = good("broken");
    bad.max_brightness_content = None;
    let all = SysfsBacklight::get_all_devices(vec![good("a"), bad, good("b")]);
    assert_eq!(all.len(), 2);
    assert_eq!(all[0].name, "a");
    assert_eq!(all[1].name, "b");
}

#[test]
fn query_parsing_finds_brightness() {
    assert_eq!(brightness_param("brightness=0.5").as_deref(), Some("0.5"));
    assert_eq!(brightness_param("a=1&brightness=1.5&b=2").as_deref(), Some("1.5"));
    assert_eq!(brightness_param("brightness=1=2").as_deref(), Some("1"));
    assert_eq!(brightness_param("brightness=").as_deref(), Some(""));
    assert_eq!(brightness_param("a=1&b=2"), None);
    assert_eq!(brightness_param(""), None);
}

#[test]
fn query_splitting() {
    let parts = split_on_char("a=1&b=2&c", '&');
    assert_eq!(parts, vec!["a=1", "b=2", "c"]);
    assert_eq!(split_on_char("", '&'), vec![""]);
}
