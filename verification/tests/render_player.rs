use hald::colorbar::{draw_smpte_ecr1978_rgb888, get_bottom_bar_color, ColorBar};
use hald::cover::{create_frame_buffer, draw_color_bar, push_image_data, MockCoverScreen};
use hald::download::{ext_from_content_type, tmp_file_dir, Downloader};
use hald::render::{plan_resize, GifPlayer, ImageRenderer, ResizeMode, RgbaImage};

fn pixel(fb: &[u8], width: usize, x: usize, y: usize) -> (u8, u8, u8) {
    let off = (y * width + x) * 3;
    (fb[off], fb[off + 1], fb[off + 2])
}

#[test]
fn color_bar_integrity() {
    // 700x300 at 24 bpp: white bar at (50, 50), red bar at (550, 50), the -I
    // dark blue block at (100, 290).
    let fb = draw_smpte_ecr1978_rgb888(700, 300);
    assert_eq!(fb.len(), 700 * 300 * 3);
    assert_eq!(pixel(&fb, 700, 50, 50), (192, 192, 192));
    assert_eq!(pixel(&fb, 700, 550, 50), (192, 0, 0));
    assert_eq!(pixel(&fb, 700, 100, 290), (0, 33, 76));
}

#[test]
fn bottom_bar_blocks() {
    assert_eq!(get_bottom_bar_color(0, 700), (0, 33, 76));
    assert_eq!(get_bottom_bar_color(150, 700), (192, 192, 192));
    assert_eq!(get_bottom_bar_color(250, 700), (50, 0, 106));
    assert_eq!(get_bottom_bar_color(400, 700), (0, 0, 0));
    // The PLUGE stripes in the fifth block: 9/9/9, 19/19/19, 29/29/29.
    assert_eq!(get_bottom_bar_color(466, 700), (9, 9, 9));
    assert_eq!(get_bottom_bar_color(510, 700), (19, 19, 19));
    assert_eq!(get_bottom_bar_color(555, 700), (29, 29, 29));
}

#[test]
fn color_bar_converts_to_screen_format() {
    let fb16 = ColorBar::draw(320, 240, 16).unwrap();
    assert_eq!(fb16.len(), 320 * 240 * 2);
    let fb24 = ColorBar::draw(320, 240, 24).unwrap();
    assert_eq!(fb24.len(), 320 * 240 * 3);
    let fb32 = ColorBar::draw(320, 240, 32).unwrap();
    assert_eq!(fb32.len(), 320 * 240 * 4);
}

#[test]
fn cover_screen_receives_color_bar() {
    let mut screen = MockCoverScreen::new(700, 300, 24);
    draw_color_bar(&mut screen).unwrap();
    assert_eq!(screen.pushed.len(), 1);
    let frame = &screen.pushed[0];
    assert_eq!(frame.len(), 700 * 300 * 3);
    assert_eq!(pixel(frame, 700, 50, 50), (192, 192, 192));
    assert_eq!(pixel(frame, 700, 550, 50), (192, 0, 0));
    assert_eq!(pixel(frame, 700, 100, 290), (0, 33, 76));
}

#[test]
fn image_push_converts_to_screen_depth() {
    let mut screen = MockCoverScreen::new(2, 1, 16);
    let rgba = [0xFFu8, 0xFF, 0xFF, 0xFF, 0, 0, 0, 0xFF];
    push_image_data(&mut screen, &rgba, 2, 1).unwrap();
    assert_eq!(screen.pushed.len(), 1);
    assert_eq!(screen.pushed[0], vec![0xFF, 0xFF, 0, 0]);
}

#[test]
fn frame_buffer_is_zeroed_and_exact() {
    let buf = create_frame_buffer(320, 240, 16);
    assert_eq!(buf.len(), 320 * 240 * 2);
    assert!(buf.iter().all(|&b| b == 0));
    let info = hald::client::SocketInfoFile {
        name: "screen0".to_string(),
        screen_size: (320, 240),
        bits_per_pixel: 32,
        frame_buffer_port: 5555,
        created_at: None,
        device_path: None,
    };
    assert_eq!(hald::client::create_frame_buffer(&info).len(), 320 * 240 * 4);
}

fn one_color(width: u32, height: u32, rgba: [u8; 4]) -> RgbaImage {
    let mut data = Vec::new();
    for _ in 0..(width * height) {
        data.extend_from_slice(&rgba);
    }
    RgbaImage { width, height, data }
}

#[test]
fn letterbox_plan_pads() {
    // A 100x50 source on a 200x200 screen: the picture is wider, so it fills
    // the width, scales to 100 rows, and sits 50 rows down.
    let plan = plan_resize(100, 50, 200, 200, ResizeMode::Letterbox);
    assert_eq!((plan.target_w, plan.target_h), (200, 100));
    assert_eq!((plan.offset_x, plan.offset_y), (0, 50));
}

#[test]
fn fill_plan_crops() {
    let plan = plan_resize(100, 50, 200, 200, ResizeMode::Fill);
    assert_eq!((plan.target_w, plan.target_h), (400, 200));
    assert_eq!((plan.offset_x, plan.offset_y), (-100, 0));
}

#[test]
fn stretch_plan_is_exact() {
    let plan = plan_resize(123, 45, 200, 100, ResizeMode::Stretch);
    assert_eq!((plan.target_w, plan.target_h), (200, 100));
    assert_eq!((plan.offset_x, plan.offset_y), (0, 0));
}

#[test]
fn resize_output_is_screen_sized_rgba() {
    // For any source and mode, the output holds exactly
    // screen_w * screen_h * 4 bytes.
    let img = one_color(7, 3, [1, 2, 3, 4]);
    for mode in [ResizeMode::Stretch, ResizeMode::Letterbox, ResizeMode::Fill] {
        let out = ImageRenderer::resize(&img, 20, 10, &mode);
        assert_eq!(out.width, 20);
        assert_eq!(out.height, 10);
        assert_eq!(out.data.len(), 20 * 10 * 4);
    }
}

#[test]
fn letterbox_pads_with_black() {
    let img = one_color(100, 50, [9, 9, 9, 9]);
    let out = ImageRenderer::resize(&img, 200, 200, &ResizeMode::Letterbox);
    // Top padding row: opaque black.
    assert_eq!(&out.data[0..4], &[0, 0, 0, 255]);
    // Center: the source color.
    let center = ((100 * 200 + 100) * 4) as usize;
    assert_eq!(&out.data[center..center + 4], &[9, 9, 9, 9]);
}

#[test]
fn gif_cache_keeps_delays_and_sizes() {
    let frames = vec![
        (one_color(4, 4, [1, 1, 1, 255]), 40u32),
        (one_color(8, 8, [2, 2, 2, 255]), 80u32),
    ];
    let cache = GifPlayer::convert_to_image_data_frames(&frames, 10, 10, &ResizeMode::Stretch);
    assert_eq!(cache.len(), 2);
    assert_eq!(cache[0].0.len(), 10 * 10 * 4);
    assert_eq!(cache[0].1, 40);
    assert_eq!(cache[1].1, 80);
    assert_eq!(&cache[1].0[0..4], &[2, 2, 2, 255]);
}

#[test]
fn content_type_extension_table() {
    assert_eq!(ext_from_content_type("image/jpeg"), Some("jpg"));
    assert_eq!(ext_from_content_type("image/png"), Some("png"));
    assert_eq!(ext_from_content_type("image/webp"), Some("webp"));
    assert_eq!(ext_from_content_type("image/gif"), Some("gif"));
    assert_eq!(ext_from_content_type("image/bmp"), Some("bmp"));
    assert_eq!(ext_from_content_type("image/tiff"), Some("tiff"));
    assert_eq!(ext_from_content_type("application/octet-stream"), None);
    assert_eq!(ext_from_content_type("image/PNG"), None);
}

#[test]
fn unknown_content_type_fails_before_any_write() {
    // The player reports the unknown type; no target path is produced.
    let err = Downloader::plan_target("application/octet-stream").unwrap_err();
    assert_eq!(err, "unknown content-type: application/octet-stream");
}

#[test]
fn download_target_shape() {
    assert_eq!(tmp_file_dir(), "/tmp/cover_screen_download");
    let p = Downloader::plan_target("image/gif").unwrap();
    assert!(p.starts_with("/tmp/cover_screen_download/"));
    assert!(p.ends_with(".gif"));
    assert_eq!(p.len(), "/tmp/cover_screen_download/".len() + 36 + ".gif".len());
    // A second plan names a different file.
    let q = Downloader::plan_target("image/gif").unwrap();
    assert_ne!(p, q);
}

#[test]
fn color_bar_rejects_unsupported_depth() {
    let err = ColorBar::draw(320, 240, 8).unwrap_err();
    assert_eq!(err, "Unsupported bpp conversion");
}
