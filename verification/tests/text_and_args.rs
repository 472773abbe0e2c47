use hald::ffmpeg::{
    default_frame_rate,
    get_media_fps,
    get_media_info,
    parse_frame_rate,
    parse_frame_rate_text,
    validate_frame_data,
    FFmpeg,
    StreamRecord,
    VideoPlayer,
};
use hald::json::{is_json_clean, status_reply};
use hald::render::ResizeMode;
use hald::strutil::{parse_endpoint_port, parse_u32, parse_u64, str_eq, u64_to_string};

#[test]
fn decimal_rendering() {
    assert_eq!(u64_to_string(0), "0");
    assert_eq!(u64_to_string(7), "7");
    assert_eq!(u64_to_string(1234567890), "1234567890");
    assert_eq!(u64_to_string(u64::MAX), "18446744073709551615");
}

#[test]
fn decimal_parsing() {
    assert_eq!(parse_u64("42"), Some(42));
    assert_eq!(parse_u64(" 42 \n"), Some(42));
    assert_eq!(parse_u64("18446744073709551615"), Some(u64::MAX));
    assert_eq!(parse_u64("18446744073709551616"), None);
    assert_eq!(parse_u64(""), None);
    assert_eq!(parse_u64("4 2"), None);
    assert_eq!(parse_u64("-1"), None);
    assert_eq!(parse_u32("4294967295"), Some(u32::MAX));
    assert_eq!(parse_u32("4294967296"), None);
}

#[test]
fn endpoint_port_parsing() {
    assert_eq!(parse_endpoint_port("tcp://127.0.0.1:54321"), Some(54321));
    assert_eq!(parse_endpoint_port("tcp://0.0.0.0:0"), Some(0));
    assert_eq!(parse_endpoint_port("tcp://host:99999"), None);
    assert_eq!(parse_endpoint_port("tcp://host"), None);
    assert_eq!(parse_endpoint_port("nocolon"), None);
    assert_eq!(parse_endpoint_port("ends:"), None);
}

#[test]
fn string_equality() {
    assert!(str_eq("abc", "abc"));
    assert!(!str_eq("abc", "abd"));
    assert!(!str_eq("abc", "ab"));
    assert!(str_eq("", ""));
}

#[test]
fn status_reply_text() {
    assert_eq!(status_reply(0, "ok"), "{\"status\":0,\"msg\":\"ok\"}");
    assert_eq!(status_reply(1, "boom"), "{\"status\":1,\"msg\":\"boom\"}");
}

#[test]
fn json_cleanliness() {
    assert!(is_json_clean("plain text with spaces"));
    assert!(!is_json_clean("with \"quote"));
    assert!(!is_json_clean("with \\ backslash"));
    assert!(!is_json_clean("with \n newline"));
}

#[test]
fn frame_rate_parsing() {
    assert_eq!(parse_frame_rate_text("30000/1001"), Some((30000, 1001)));
    assert_eq!(parse_frame_rate_text("25/1"), Some((25, 1)));
    assert_eq!(parse_frame_rate_text("30/0"), None);
    assert_eq!(parse_frame_rate_text("30"), None);
    assert_eq!(parse_frame_rate_text("a/b"), None);
    assert_eq!(parse_frame_rate_text("1/2/3"), None);
    assert_eq!(default_frame_rate(), (30, 1));
}

#[test]
fn single_frame_argument_list() {
    let mut args = FFmpeg::build_command();
    FFmpeg::add_input_file(&mut args, "/tmp/a.png");
    FFmpeg::add_raw_output_params(&mut args);
    FFmpeg::set_pixel_format(&mut args, 16);
    FFmpeg::add_single_frame_params(&mut args);
    FFmpeg::add_resize_parameters(&mut args, &ResizeMode::Stretch, 320, 240);
    FFmpeg::add_stdout_output(&mut args);
    assert_eq!(
        args,
        vec![
            "-i",
            "/tmp/a.png",
            "-f",
            "rawvideo",
            "-pix_fmt",
            "rgb565",
            "-frames:v",
            "1",
            "-s",
            "320x240",
            "-",
        ]
    );
}

#[test]
fn stream_argument_list_with_filters() {
    let mut args = FFmpeg::build_command();
    FFmpeg::add_loop_parameter(&mut args, true);
    FFmpeg::add_input_file(&mut args, "clip.mp4");
    FFmpeg::add_raw_output_params(&mut args);
    FFmpeg::set_pixel_format(&mut args, 32);
    FFmpeg::add_resize_parameters(&mut args, &ResizeMode::Letterbox, 320, 240);
    FFmpeg::add_framerate_param(&mut args, "29.97");
    FFmpeg::add_stdout_output(&mut args);
    assert_eq!(
        args,
        vec![
            "-stream_loop",
            "-1",
            "-i",
            "clip.mp4",
            "-f",
            "rawvideo",
            "-pix_fmt",
            "rgba",
            "-vf",
            "scale=320:240:force_original_aspect_ratio=decrease,pad=320:240:(ow-iw)/2:(oh-ih)/2:black",
            "-r",
            "29.97",
            "-",
        ]
    );
    let mut crop = FFmpeg::build_command();
    VideoPlayer::add_resize_parameters(&mut crop, &ResizeMode::Fill, 320, 240);
    assert_eq!(
        crop,
        vec!["-vf", "scale=320:240:force_original_aspect_ratio=increase,crop=320:240"]
    );
}

#[test]
fn loop_parameter_off_adds_nothing() {
    let mut args = FFmpeg::build_command();
    FFmpeg::add_loop_parameter(&mut args, false);
    assert!(args.is_empty());
}

#[test]
fn test_source_arguments() {
    let mut args = FFmpeg::build_command();
    FFmpeg::add_test_source_input(&mut args, "testsrc=duration=1:size=320x240:rate=1");
    assert_eq!(args, vec!["-f", "lavfi", "-i", "testsrc=duration=1:size=320x240:rate=1"]);
}

#[test]
fn frame_size_validation() {
    assert!(validate_frame_data(153600, 320, 240, 16).is_ok());
    let err = validate_frame_data(100, 320, 240, 16).unwrap_err();
    assert_eq!(err, "Invalid frame size: expected 153600 (320x240x2), got 100");
}

#[test]
fn leading_zeros_parse_like_std() {
    assert_eq!(parse_u64("0042"), Some(42));
    assert_eq!(parse_u64("0"), Some(0));
}

fn stream(ct: Option<&str>, w: Option<u64>, h: Option<u64>, rate: Option<&str>) -> StreamRecord {
    StreamRecord {
        codec_type: ct.map(|t| t.to_string()),
        width: w,
        height: h,
        r_frame_rate: rate.map(|t| t.to_string()),
    }
}

#[test]
fn probe_walk_picks_first_video_stream() {
    let streams = vec![
        stream(Some("audio"), None, None, Some("0/0")),
        stream(Some("video"), Some(640), Some(480), Some("30000/1001")),
        stream(Some("video"), Some(1), Some(1), Some("25/1")),
    ];
    let info = get_media_info(&streams).unwrap();
    assert_eq!((info.width, info.height), (640, 480));
    assert_eq!(info.fps, (30000, 1001));
    assert_eq!(get_media_fps(&streams), (30000, 1001));
}

#[test]
fn probe_walk_defaults_missing_members() {
    let streams = vec![stream(Some("video"), None, Some(u32::MAX as u64 + 1), None)];
    let info = get_media_info(&streams).unwrap();
    assert_eq!((info.width, info.height), (0, 0));
    assert_eq!(info.fps, (30, 1));
    assert_eq!(parse_frame_rate(&streams[0]), (30, 1));
    assert_eq!(parse_frame_rate(&stream(Some("video"), None, None, Some("30/0"))), (30, 1));
    assert_eq!(
        VideoPlayer::parse_frame_rate(&stream(Some("video"), None, None, Some("24/1"))),
        (24, 1)
    );
}

#[test]
fn probe_walk_needs_a_video_stream() {
    let streams = vec![stream(Some("audio"), Some(2), Some(2), Some("48/1")), stream(None, None, None, None)];
    assert!(get_media_info(&streams).is_none());
    assert_eq!(get_media_fps(&streams), (30, 1));
    assert!(get_media_info(&Vec::new()).is_none());
}
