//! The subprocess renderer backend: the argument lists handed to the
//! `ffmpeg` and `ffprobe` programs, the walk over the probed stream
//! records, and the frame-size check on what comes back. Spawning the
//! process, reading it, and reducing its JSON output to plain stream
//! records is the edge's part; the arguments, the walk and the checks are
//! stated here to the value.

use vstd::prelude::*;
use crate::render::ResizeMode;
use crate::strutil::{dec_chars, str_eq, u64_to_string};

verus! {

/// One stream of a probe document, reduced to the plain values the walk
/// reads: the edge fills one record per element of the `streams` array,
/// leaving a member absent when it is missing or not of the expected JSON
/// type.
pub struct StreamRecord {
    /// The `codec_type` member, when it is a string.
    pub codec_type: Option<String>,
    /// The `width` member, when it is an unsigned integer.
    pub width: Option<u64>,
    /// The `height` member, when it is an unsigned integer.
    pub height: Option<u64>,
    /// The `r_frame_rate` member, when it is a string.
    pub r_frame_rate: Option<String>,
}

/// The ghost image of a stream record.
pub struct StreamRecordV {
    pub codec_type: Option<Seq<char>>,
    pub width: Option<u64>,
    pub height: Option<u64>,
    pub r_frame_rate: Option<Seq<char>>,
}

impl View for StreamRecord {
    type V = StreamRecordV;

    open spec fn view(&self) -> StreamRecordV {
        StreamRecordV {
            codec_type: crate::imu::view_opt(&self.codec_type),
            width: self.width,
            height: self.height,
            r_frame_rate: crate::imu::view_opt(&self.r_frame_rate),
        }
    }
}

/// The views of an argument list.
pub open spec fn args_v(args: Seq<String>) -> Seq<Seq<char>> {
    args.map_values(|s: String| s@)
}

/// The frame rate text `num/den` parsed as a rational: both parts plain
/// decimal numbers that fit in a `u32`.
pub open spec fn parsed_frame_rate(s: Seq<char>) -> Option<(u32, u32)> {
    match crate::strutil::first_index_of(s, '/') {
        Some(i) => {
            if 0 <= i < s.len() {
                let a = s.take(i);
                let b = s.skip(i + 1);
                if a.len() > 0 && crate::strutil::all_digits(a) && crate::strutil::dec_val(a)
                    <= u32::MAX && b.len() > 0 && crate::strutil::all_digits(b)
                    && crate::strutil::dec_val(b) <= u32::MAX && crate::strutil::first_index_of(
                    b,
                    '/',
                ) is None {
                    Some(
                        (crate::strutil::dec_val(a) as u32, crate::strutil::dec_val(b) as u32),
                    )
                } else {
                    None
                }
            } else {
                None
            }
        },
        None => None,
    }
}

/// Parses a frame rate text such as `30000/1001` into its rational parts.
/// Anything but exactly two decimal fields split by one `/` is rejected,
/// and so is a zero denominator; the caller then falls back to the default
/// rate.
pub fn parse_frame_rate_text(s: &str) -> (r: Option<(u32, u32)>)
    ensures
        match r {
            Some(v) => parsed_frame_rate(s@) == Some(v) && v.1 >= 1,
            None => parsed_frame_rate(s@) is None || (parsed_frame_rate(s@)->0).1 == 0,
        },
{
    let len = s.unicode_len();
    let mut i: usize = 0;
    while i < len && s.get_char(i) != '/'
        invariant
            0 <= i <= len,
            len == s@.len(),
            forall|m: int| 0 <= m < i ==> s@[m] != '/',
        decreases len - i,
    {
        i = i + 1;
    }
    if i == len {
        proof {
            crate::strutil::lemma_first_index_of_none(s@, '/');
        }
        return None;
    }
    proof {
        crate::strutil::lemma_first_index_of_at(s@, '/', i as int);
    }
    let mut j: usize = i + 1;
    while j < len && s.get_char(j) != '/'
        invariant
            i < j <= len,
            len == s@.len(),
            forall|m: int| i + 1 <= m < j ==> s@[m] != '/',
        decreases len - j,
    {
        j = j + 1;
    }
    let ghost b = s@.skip(i + 1);
    if j < len {
        proof {
            assert(b[j - i - 1] == s@[j as int]);
            crate::strutil::lemma_first_index_of_at(b, '/', j - i - 1);
        }
        return None;
    }
    proof {
        assert(forall|m: int| 0 <= m < b.len() ==> b[m] == s@[i + 1 + m]);
        crate::strutil::lemma_first_index_of_none(b, '/');
    }
    let num = match crate::strutil::parse_digits_range(s, 0, i) {
        Some(v) => {
            if v <= u32::MAX as u64 {
                v as u32
            } else {
                proof {
                    assert(s@.subrange(0, i as int) =~= s@.take(i as int));
                }
                return None;
            }
        },
        None => {
            proof {
                assert(s@.subrange(0, i as int) =~= s@.take(i as int));
            }
            return None;
        },
    };
    proof {
        assert(s@.subrange(0, i as int) =~= s@.take(i as int));
        assert(s@.subrange(i + 1, len as int) =~= b);
    }
    let den = match crate::strutil::parse_digits_range(s, i + 1, len) {
        Some(v) => {
            if v <= u32::MAX as u64 {
                v as u32
            } else {
                return None;
            }
        },
        None => {
            return None;
        },
    };
    if den == 0 {
        return None;
    }
    Some((num, den))
}

/// The default frame rate when the probe yields none: 30 per second.
pub fn default_frame_rate() -> (r: (u32, u32))
    ensures
        r == (30u32, 1u32),
{
    (30, 1)
}

/// The rate a stream record yields: its `r_frame_rate` parsed per
/// `parsed_frame_rate`; the default stands in for a missing, malformed or
/// zero-denominator rate.
pub open spec fn spec_rate_of(r: StreamRecordV) -> (u32, u32) {
    match r.r_frame_rate {
        Some(t) => {
            if parsed_frame_rate(t) is Some && (parsed_frame_rate(t)->0).1 >= 1 {
                parsed_frame_rate(t)->0
            } else {
                (30u32, 1u32)
            }
        },
        None => (30u32, 1u32),
    }
}

/// The dimension a probed member yields: the value when it fits a `u32`,
/// zero when absent or too large.
pub open spec fn spec_dim_of(d: Option<u64>) -> u32 {
    match d {
        Some(v) => {
            if v <= u32::MAX {
                v as u32
            } else {
                0
            }
        },
        None => 0,
    }
}

/// A record is the video stream the walk looks for.
pub open spec fn spec_is_video(r: StreamRecordV) -> bool {
    r.codec_type == Some("video"@)
}

/// The index of the first video stream, if any.
pub open spec fn spec_first_video(s: Seq<StreamRecordV>) -> Option<int>
    decreases s.len(),
{
    if s.len() == 0 {
        None
    } else if spec_is_video(s.first()) {
        Some(0)
    } else {
        match spec_first_video(s.drop_first()) {
            Some(i) => Some(i + 1),
            None => None,
        }
    }
}

proof fn lemma_first_video_at(s: Seq<StreamRecordV>, i: int)
    requires
        0 <= i < s.len(),
        spec_is_video(s[i]),
        forall|m: int| 0 <= m < i ==> !spec_is_video(#[trigger] s[m]),
    ensures
        spec_first_video(s) == Some(i),
    decreases i,
{
    if i == 0 {
    } else {
        let t = s.drop_first();
        assert(forall|m: int| 0 <= m < i - 1 ==> !spec_is_video(#[trigger] t[m]));
        lemma_first_video_at(t, i - 1);
    }
}

proof fn lemma_first_video_none(s: Seq<StreamRecordV>)
    requires
        forall|m: int| 0 <= m < s.len() ==> !spec_is_video(#[trigger] s[m]),
    ensures
        spec_first_video(s) is None,
    decreases s.len(),
{
    if s.len() > 0 {
        lemma_first_video_none(s.drop_first());
    }
}

/// Reads the rate of one probed stream record; anything but a well-formed
/// positive rational falls back to the default.
pub fn parse_frame_rate(stream: &StreamRecord) -> (r: (u32, u32))
    ensures
        r == spec_rate_of(stream@),
        r.1 >= 1,
{
    let text = match &stream.r_frame_rate {
        Some(t) => t,
        None => {
            return default_frame_rate();
        },
    };
    match parse_frame_rate_text(text.as_str()) {
        Some(v) => v,
        None => default_frame_rate(),
    }
}

/// What one probed video stream yields: its dimensions and frame rate.
pub struct MediaInfo {
    /// Width in pixels; zero when the probe omitted it.
    pub width: u32,
    /// Height in pixels; zero when the probe omitted it.
    pub height: u32,
    /// The frame rate as a rational; the denominator is never zero.
    pub fps: (u32, u32),
}

/// Walks the probed stream records for the first whose `codec_type` is
/// `video` and reads its size and rate: the dimensions as `spec_dim_of`
/// gives them, the rate as `spec_rate_of` parses it. Without a video
/// stream there is no info.
pub fn get_media_info(streams: &Vec<StreamRecord>) -> (r: Option<MediaInfo>)
    ensures
        match spec_first_video(streams@.map_values(|x: StreamRecord| x@)) {
            Some(i) => {
                let v = streams@.map_values(|x: StreamRecord| x@)[i];
                r is Some && r->0.width == spec_dim_of(v.width) && r->0.height == spec_dim_of(
                    v.height,
                ) && r->0.fps == spec_rate_of(v) && (r->0.fps.1 >= 1)
            },
            None => r is None,
        },
{
    let ghost sv = streams@.map_values(|x: StreamRecord| x@);
    let mut i: usize = 0;
    while i < streams.len()
        invariant
            0 <= i <= streams@.len(),
            sv == streams@.map_values(|x: StreamRecord| x@),
            forall|m: int| 0 <= m < i ==> !spec_is_video(#[trigger] sv[m]),
        decreases streams@.len() - i,
    {
        let stream = &streams[i];
        let is_video = match &stream.codec_type {
            Some(t) => str_eq(t.as_str(), "video"),
            None => false,
        };
        proof {
            reveal_strlit("video");
        }
        if is_video {
            proof {
                lemma_first_video_at(sv, i as int);
            }
            let width = match stream.width {
                Some(v) => {
                    if v <= u32::MAX as u64 {
                        v as u32
                    } else {
                        0
                    }
                },
                None => 0,
            };
            let height = match stream.height {
                Some(v) => {
                    if v <= u32::MAX as u64 {
                        v as u32
                    } else {
                        0
                    }
                },
                None => 0,
            };
            let fps = parse_frame_rate(stream);
            return Some(MediaInfo { width, height, fps });
        }
        i = i + 1;
    }
    proof {
        lemma_first_video_none(sv);
    }
    None
}

/// The frame rate of the first video stream among the probed records, or
/// the default when none is a video stream. The denominator is never zero.
pub fn get_media_fps(streams: &Vec<StreamRecord>) -> (r: (u32, u32))
    ensures
        r == (match spec_first_video(streams@.map_values(|x: StreamRecord| x@)) {
            Some(i) => spec_rate_of(streams@.map_values(|x: StreamRecord| x@)[i]),
            None => (30u32, 1u32),
        }),
        r.1 >= 1,
{
    match get_media_info(streams) {
        Some(info) => info.fps,
        None => default_frame_rate(),
    }
}

/// Builders of the subprocess argument lists.
pub struct FFmpeg {}

impl FFmpeg {
    /// A fresh argument list; the program name stands apart.
    pub fn build_command() -> (r: Vec<String>)
        ensures
            r@.len() == 0,
    {
        Vec::new()
    }

    /// `-stream_loop -1` when the media repeats; it stands before the
    /// input.
    pub fn add_loop_parameter(args: &mut Vec<String>, repeat: bool)
        ensures
            repeat ==> args_v(final(args)@) == args_v(old(args)@) + seq!["-stream_loop"@, "-1"@],
            !repeat ==> final(args)@ == old(args)@,
    {
        if repeat {
            args.push(String::from_str("-stream_loop"));
            args.push(String::from_str("-1"));
            proof {
                assert(args_v(args@) =~= args_v(old(args)@) + seq!["-stream_loop"@, "-1"@]);
            }
        }
    }

    /// `-i <path>`, the input file.
    pub fn add_input_file(args: &mut Vec<String>, path: &str)
        ensures
            args_v(final(args)@) == args_v(old(args)@) + seq!["-i"@, path@],
    {
        args.push(String::from_str("-i"));
        args.push(String::from_str(path));
        proof {
            assert(args_v(args@) =~= args_v(old(args)@) + seq!["-i"@, path@]);
        }
    }

    /// `-f lavfi -i <source>`, a test-pattern source.
    pub fn add_test_source_input(args: &mut Vec<String>, source: &str)
        ensures
            args_v(final(args)@) == args_v(old(args)@) + seq!["-f"@, "lavfi"@, "-i"@, source@],
    {
        args.push(String::from_str("-f"));
        args.push(String::from_str("lavfi"));
        args.push(String::from_str("-i"));
        args.push(String::from_str(source));
        proof {
            assert(args_v(args@) =~= args_v(old(args)@) + seq![
                "-f"@,
                "lavfi"@,
                "-i"@,
                source@,
            ]);
        }
    }

    /// `-f rawvideo`, raw frames out.
    pub fn add_raw_output_params(args: &mut Vec<String>)
        ensures
            args_v(final(args)@) == args_v(old(args)@) + seq!["-f"@, "rawvideo"@],
    {
        args.push(String::from_str("-f"));
        args.push(String::from_str("rawvideo"));
        proof {
            assert(args_v(args@) =~= args_v(old(args)@) + seq!["-f"@, "rawvideo"@]);
        }
    }

    /// The pixel format of the target bits per pixel: `rgb565`, `rgb24` or
    /// `rgba`; anything else falls back to `rgba` for a later conversion.
    pub fn set_pixel_format(args: &mut Vec<String>, target_bpp: u32)
        ensures
            args_v(final(args)@) == args_v(old(args)@) + seq![
                "-pix_fmt"@,
                spec_pixel_format(target_bpp),
            ],
    {
        args.push(String::from_str("-pix_fmt"));
        if target_bpp == 16 {
            args.push(String::from_str("rgb565"));
        } else if target_bpp == 24 {
            args.push(String::from_str("rgb24"));
        } else {
            args.push(String::from_str("rgba"));
        }
        proof {
            assert(args_v(args@) =~= args_v(old(args)@) + seq![
                "-pix_fmt"@,
                spec_pixel_format(target_bpp),
            ]);
        }
    }

    /// `-frames:v 1`, a single frame out.
    pub fn add_single_frame_params(args: &mut Vec<String>)
        ensures
            args_v(final(args)@) == args_v(old(args)@) + seq!["-frames:v"@, "1"@],
    {
        args.push(String::from_str("-frames:v"));
        args.push(String::from_str("1"));
        proof {
            assert(args_v(args@) =~= args_v(old(args)@) + seq!["-frames:v"@, "1"@]);
        }
    }

    /// The scaling arguments of one resize mode: a plain `-s` for stretch,
    /// a scale-and-pad filter for letterbox, a scale-and-crop filter for
    /// fill.
    pub fn add_resize_parameters(
        args: &mut Vec<String>,
        resize_mode: &ResizeMode,
        screen_width: u32,
        screen_height: u32,
    )
        ensures
            args_v(final(args)@) == args_v(old(args)@) + spec_resize_args(
                *resize_mode,
                screen_width,
                screen_height,
            ),
    {
        match resize_mode {
            ResizeMode::Stretch => {
                args.push(String::from_str("-s"));
                let mut dim = String::new();
                let w = u64_to_string(screen_width as u64);
                dim.append(w.as_str());
                dim.append("x");
                let h = u64_to_string(screen_height as u64);
                dim.append(h.as_str());
                proof {
                    assert(dim@ =~= spec_dims(screen_width, screen_height));
                }
                args.push(dim);
            },
            ResizeMode::Letterbox => {
                args.push(String::from_str("-vf"));
                let mut f = String::new();
                f.append("scale=");
                let w = u64_to_string(screen_width as u64);
                f.append(w.as_str());
                f.append(":");
                let h = u64_to_string(screen_height as u64);
                f.append(h.as_str());
                f.append(":force_original_aspect_ratio=decrease,pad=");
                f.append(w.as_str());
                f.append(":");
                f.append(h.as_str());
                f.append(":(ow-iw)/2:(oh-ih)/2:black");
                proof {
                    assert(f@ =~= spec_letterbox_filter(screen_width, screen_height));
                }
                args.push(f);
            },
            ResizeMode::Fill => {
                args.push(String::from_str("-vf"));
                let mut f = String::new();
                f.append("scale=");
                let w = u64_to_string(screen_width as u64);
                f.append(w.as_str());
                f.append(":");
                let h = u64_to_string(screen_height as u64);
                f.append(h.as_str());
                f.append(":force_original_aspect_ratio=increase,crop=");
                f.append(w.as_str());
                f.append(":");
                f.append(h.as_str());
                proof {
                    assert(f@ =~= spec_fill_filter(screen_width, screen_height));
                }
                args.push(f);
            },
        }
        proof {
            assert(args_v(args@) =~= args_v(old(args)@) + spec_resize_args(
                *resize_mode,
                screen_width,
                screen_height,
            ));
        }
    }

    /// `-r <fps>`, the output frame rate; the text is the rate the probe
    /// reported, formatted by the edge.
    pub fn add_framerate_param(args: &mut Vec<String>, fps_text: &str)
        ensures
            args_v(final(args)@) == args_v(old(args)@) + seq!["-r"@, fps_text@],
    {
        args.push(String::from_str("-r"));
        args.push(String::from_str(fps_text));
        proof {
            assert(args_v(args@) =~= args_v(old(args)@) + seq!["-r"@, fps_text@]);
        }
    }

    /// `-`, frames to standard output.
    pub fn add_stdout_output(args: &mut Vec<String>)
        ensures
            args_v(final(args)@) == args_v(old(args)@) + seq!["-"@],
    {
        args.push(String::from_str("-"));
        proof {
            assert(args_v(args@) =~= args_v(old(args)@) + seq!["-"@]);
        }
    }
}

/// The `<w>x<h>` dimension text.
pub open spec fn spec_dims(w: u32, h: u32) -> Seq<char> {
    dec_chars(w as nat) + "x"@ + dec_chars(h as nat)
}

/// The letterbox filter: scale to fit, pad to the screen with black.
pub open spec fn spec_letterbox_filter(w: u32, h: u32) -> Seq<char> {
    "scale="@ + dec_chars(w as nat) + ":"@ + dec_chars(h as nat)
        + ":force_original_aspect_ratio=decrease,pad="@ + dec_chars(w as nat) + ":"@ + dec_chars(
        h as nat,
    ) + ":(ow-iw)/2:(oh-ih)/2:black"@
}

/// The fill filter: scale to cover, crop to the screen.
pub open spec fn spec_fill_filter(w: u32, h: u32) -> Seq<char> {
    "scale="@ + dec_chars(w as nat) + ":"@ + dec_chars(h as nat)
        + ":force_original_aspect_ratio=increase,crop="@ + dec_chars(w as nat) + ":"@ + dec_chars(
        h as nat,
    )
}

/// The arguments of one resize mode.
pub open spec fn spec_resize_args(mode: ResizeMode, w: u32, h: u32) -> Seq<Seq<char>> {
    match mode {
        ResizeMode::Stretch => seq!["-s"@, spec_dims(w, h)],
        ResizeMode::Letterbox => seq!["-vf"@, spec_letterbox_filter(w, h)],
        ResizeMode::Fill => seq!["-vf"@, spec_fill_filter(w, h)],
    }
}

/// The pixel format text of one target depth.
pub open spec fn spec_pixel_format(bpp: u32) -> Seq<char> {
    if bpp == 16 {
        "rgb565"@
    } else if bpp == 24 {
        "rgb24"@
    } else {
        "rgba"@
    }
}

/// Checks one frame read back from the subprocess: it must hold exactly
/// `width * height * (bpp / 8)` bytes.
pub fn validate_frame_data(
    len: usize,
    screen_width: u32,
    screen_height: u32,
    target_bpp: u32,
) -> (r: Result<(), String>)
    requires
        crate::screen::dims_wf(screen_width, screen_height, target_bpp),
    ensures
        r is Ok <==> len == screen_width as int * screen_height as int * (target_bpp as int / 8),
        r is Err ==> r->Err_0@ == "Invalid frame size: expected "@ + dec_chars(
            (screen_width as int * screen_height as int * (target_bpp as int / 8)) as nat,
        ) + " ("@ + dec_chars(screen_width as nat) + "x"@ + dec_chars(screen_height as nat) + "x"@
            + dec_chars((target_bpp as int / 8) as nat) + "), got "@ + dec_chars(len as nat),
{
    proof {
        assert(screen_width as int * screen_height as int * (target_bpp as int / 8)
            <= screen_width as int * screen_height as int * target_bpp as int) by (nonlinear_arith)
            requires
                screen_width as int * screen_height as int >= 0,
                target_bpp >= 0,
        ;
    }
    let bytes_per_pixel = target_bpp / 8;
    let frame_size = (screen_width as u64) * (screen_height as u64) * (bytes_per_pixel as u64);
    proof {
        assert((screen_width as u64) * (screen_height as u64) == screen_width as int
            * screen_height as int && (screen_width as u64) * (screen_height as u64) * (
        bytes_per_pixel as u64) == screen_width as int * screen_height as int * (target_bpp as int
            / 8)) by (nonlinear_arith)
            requires
                screen_width as int * screen_height as int <= u32::MAX,
                screen_width as int * screen_height as int * (target_bpp as int / 8) <= u32::MAX,
                bytes_per_pixel == target_bpp as int / 8,
                screen_width >= 0,
                screen_height >= 0,
                bytes_per_pixel >= 0,
        ;
    }
    if (len as u64) != frame_size {
        let mut e = String::new();
        e.append("Invalid frame size: expected ");
        let exp = u64_to_string(frame_size);
        e.append(exp.as_str());
        e.append(" (");
        let w = u64_to_string(screen_width as u64);
        e.append(w.as_str());
        e.append("x");
        let h = u64_to_string(screen_height as u64);
        e.append(h.as_str());
        e.append("x");
        let b = u64_to_string(bytes_per_pixel as u64);
        e.append(b.as_str());
        e.append("), got ");
        let got = u64_to_string(len as u64);
        e.append(got.as_str());
        proof {
            assert(e@ =~= "Invalid frame size: expected "@ + dec_chars(
                (screen_width as int * screen_height as int * (target_bpp as int / 8)) as nat,
            ) + " ("@ + dec_chars(screen_width as nat) + "x"@ + dec_chars(screen_height as nat)
                + "x"@ + dec_chars((target_bpp as int / 8) as nat) + "), got "@ + dec_chars(
                len as nat,
            ));
        }
        return Err(e);
    }
    Ok(())
}

/// The video player: the same subprocess backend, with the probe and the
/// per-frame pushes run by the edge.
pub struct VideoPlayer {}

impl VideoPlayer {
    /// The scaling arguments, as the backend words them.
    pub fn add_resize_parameters(
        args: &mut Vec<String>,
        resize_mode: &ResizeMode,
        screen_width: u32,
        screen_height: u32,
    )
        ensures
            args_v(final(args)@) == args_v(old(args)@) + spec_resize_args(
                *resize_mode,
                screen_width,
                screen_height,
            ),
    {
        FFmpeg::add_resize_parameters(args, resize_mode, screen_width, screen_height);
    }

    /// The probed stream's frame rate, with the same default.
    pub fn parse_frame_rate(stream: &StreamRecord) -> (r: (u32, u32))
        ensures
            r == spec_rate_of(stream@),
            r.1 >= 1,
    {
        parse_frame_rate(stream)
    }
}

} // verus!
