use hald::pixel::{rgb565_to_rgb888, rgb888_to_rgb565, BppConverter};

#[test]
fn rgb888_to_rgb565_packs_channels() {
    assert_eq!(rgb888_to_rgb565(0xFF, 0xFF, 0xFF), 0xFFFF);
    assert_eq!(rgb888_to_rgb565(0, 0, 0), 0);
    // 192 = 0xC0: red field 0xC0 >> 3 = 24, green 0xC0 >> 2 = 48, blue 0xC0 >> 3 = 24.
    assert_eq!(rgb888_to_rgb565(192, 0, 0), (24u16) << 11);
    assert_eq!(rgb888_to_rgb565(0, 192, 0), (48u16) << 5);
    assert_eq!(rgb888_to_rgb565(0, 0, 192), 24);
}

#[test]
fn rgb565_to_rgb888_widens_channels() {
    assert_eq!(rgb565_to_rgb888(0xFFFF), (0xF8, 0xFC, 0xF8));
    assert_eq!(rgb565_to_rgb888(0), (0, 0, 0));
}

#[test]
fn rgb565_round_trip_is_identity() {
    for x in [0u16, 1, 31, 0x07E0, 0xF800, 0xABCD, 0xFFFF] {
        let (r, g, b) = rgb565_to_rgb888(x);
        assert_eq!(rgb888_to_rgb565(r, g, b), x);
    }
}

#[test]
fn rgb565_truncation_is_monotone() {
    let lo = rgb888_to_rgb565(10, 20, 30);
    let hi = rgb888_to_rgb565(11, 21, 31);
    assert!(lo <= hi);
}

#[test]
fn convert_24_to_32_appends_alpha() {
    let data = [1u8, 2, 3, 4, 5, 6];
    let out = BppConverter::convert(&data, 2, 1, 24, 32).unwrap();
    assert_eq!(out, vec![1, 2, 3, 255, 4, 5, 6, 255]);
}

#[test]
fn convert_32_to_24_drops_alpha() {
    let data = [1u8, 2, 3, 9, 4, 5, 6, 9];
    let out = BppConverter::convert(&data, 2, 1, 32, 24).unwrap();
    assert_eq!(out, vec![1, 2, 3, 4, 5, 6]);
}

#[test]
fn convert_24_to_16_packs_little_endian() {
    let data = [0xFFu8, 0xFF, 0xFF];
    let out = BppConverter::convert(&data, 1, 1, 24, 16).unwrap();
    assert_eq!(out, vec![0xFF, 0xFF]);
    let data = [192u8, 0, 0];
    let out = BppConverter::convert(&data, 1, 1, 24, 16).unwrap();
    let packed = (24u16) << 11;
    assert_eq!(out, vec![(packed & 0xFF) as u8, (packed >> 8) as u8]);
}

#[test]
fn convert_16_to_24_widens() {
    let packed: u16 = 0xFFFF;
    let data = [(packed & 0xFF) as u8, (packed >> 8) as u8];
    let out = BppConverter::convert(&data, 1, 1, 16, 24).unwrap();
    assert_eq!(out, vec![0xF8, 0xFC, 0xF8]);
}

#[test]
fn convert_32_to_16_ignores_alpha() {
    let data = [0xFFu8, 0xFF, 0xFF, 0x00];
    let out = BppConverter::convert(&data, 1, 1, 32, 16).unwrap();
    assert_eq!(out, vec![0xFF, 0xFF]);
}

#[test]
fn convert_same_byte_width_copies() {
    let data = [7u8, 8, 9, 10];
    let out = BppConverter::convert(&data, 1, 1, 32, 32).unwrap();
    assert_eq!(out, vec![7, 8, 9, 10]);
}

#[test]
fn convert_unsupported_combination_fails() {
    let data = [0u8, 0];
    let err = BppConverter::convert(&data, 1, 1, 16, 32).unwrap_err();
    assert_eq!(err, "Unsupported bpp conversion");
}
