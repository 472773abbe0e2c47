//! Framebuffer discovery records and the scan that turns them into screens:
//! parsing the `virtual_size` attribute, filtering unusable entries, and the
//! standalone frame-length check of the push path.

use vstd::prelude::*;
use crate::screen::{dims_wf, spec_expected_msg, spec_frame_size, spec_is_excluded};
use crate::strutil::{
    all_digits,
    dec_val,
    first_index_of,
    lemma_first_index_of_at,
    lemma_first_index_of_none,
    parse_digits_range,
    trim_bounds,
    trimmed,
};

verus! {

/// What the `virtual_size` text `W,H` parses to: the first two
/// comma-separated fields as decimal `u32`s.
pub open spec fn parsed_virtual_size(s: Seq<char>) -> Option<(u32, u32)> {
    let t = trimmed(s);
    match first_index_of(t, ',') {
        Some(i) => {
            let a = t.take(i);
            let rest = t.skip(i + 1);
            let b = match first_index_of(rest, ',') {
                Some(j) => rest.take(j),
                None => rest,
            };
            if a.len() > 0 && all_digits(a) && dec_val(a) <= u32::MAX && b.len() > 0 && all_digits(
                b,
            ) && dec_val(b) <= u32::MAX {
                Some((dec_val(a) as u32, dec_val(b) as u32))
            } else {
                None
            }
        },
        None => None,
    }
}

/// Parses a `virtual_size` attribute text, `W,H` with optional surrounding
/// whitespace; anything after a second comma is ignored.
pub fn parse_virtual_size(s: &str) -> (r: Option<(u32, u32)>)
    ensures
        r == parsed_virtual_size(s@),
{
    let (start, end) = trim_bounds(s);
    let ghost t = trimmed(s@);
    let mut i: usize = start;
    while i < end && s.get_char(i) != ','
        invariant
            start <= i <= end <= s@.len(),
            t =~= s@.subrange(start as int, end as int),
            forall|m: int| start <= m < i ==> s@[m] != ',',
        decreases end - i,
    {
        i = i + 1;
    }
    if i == end {
        proof {
            lemma_first_index_of_none(t, ',');
        }
        return None;
    }
    proof {
        assert(t[i - start] == s@[i as int]);
        lemma_first_index_of_at(t, ',', i - start);
    }
    let a = match parse_digits_range(s, start, i) {
        Some(v) => {
            if v <= u32::MAX as u64 {
                v as u32
            } else {
                proof {
                    assert(t.take(i - start) =~= s@.subrange(start as int, i as int));
                }
                return None;
            }
        },
        None => {
            proof {
                assert(t.take(i - start) =~= s@.subrange(start as int, i as int));
            }
            return None;
        },
    };
    proof {
        assert(t.take(i - start) =~= s@.subrange(start as int, i as int));
    }
    let ghost rest = t.skip(i - start + 1);
    let mut j: usize = i + 1;
    while j < end && s.get_char(j) != ','
        invariant
            i < j <= end <= s@.len(),
            start <= i < end,
            t =~= s@.subrange(start as int, end as int),
            rest == t.skip(i - start + 1),
            forall|m: int| i + 1 <= m < j ==> s@[m] != ',',
        decreases end - j,
    {
        j = j + 1;
    }
    proof {
        assert(rest =~= s@.subrange(i + 1, end as int));
        if j == end {
            lemma_first_index_of_none(rest, ',');
        } else {
            assert(rest[j - i - 1] == s@[j as int]);
            lemma_first_index_of_at(rest, ',', j - i - 1);
        }
        assert(rest.take(j - i - 1) =~= s@.subrange(i + 1, j as int));
        if j == end {
            assert(rest =~= s@.subrange(i + 1, j as int));
        }
    }
    let b = match parse_digits_range(s, i + 1, j) {
        Some(v) => {
            if v <= u32::MAX as u64 {
                v as u32
            } else {
                return None;
            }
        },
        None => {
            return None;
        },
    };
    Some((a, b))
}

/// One framebuffer directory as discovered: the device node path and the
/// attributes that could be read and parsed.
pub struct FbInfo {
    /// The `/dev/fbN` node path.
    pub path: String,
    /// The `name` attribute.
    pub name: Option<String>,
    /// Width and height from `virtual_size`.
    pub resolution: Option<(u32, u32)>,
    /// Bits per pixel.
    pub bpp: Option<u32>,
    /// The resolved `device` symlink target.
    pub device_path: Option<String>,
}

/// The ghost image of a framebuffer record.
pub struct FbInfoV {
    pub path: Seq<char>,
    pub name: Option<Seq<char>>,
    pub resolution: Option<(u32, u32)>,
    pub bpp: Option<u32>,
    pub device_path: Option<Seq<char>>,
}

impl View for FbInfo {
    type V = FbInfoV;

    open spec fn view(&self) -> FbInfoV {
        FbInfoV {
            path: self.path@,
            name: match self.name {
                Some(ref s) => Some(s@),
                None => None,
            },
            resolution: self.resolution,
            bpp: self.bpp,
            device_path: match self.device_path {
                Some(ref s) => Some(s@),
                None => None,
            },
        }
    }
}

/// A usable screen: the device node, its name, dimensions and format.
pub struct ScreenInfo {
    /// The `/dev/fbN` node path.
    pub path: String,
    /// The framebuffer name.
    pub name: String,
    /// Width and height.
    pub resolution: (u32, u32),
    /// Bits per pixel.
    pub bpp: u32,
    /// The resolved device path.
    pub device_path: String,
}

/// The ghost image of a screen record.
pub struct ScreenInfoV {
    pub path: Seq<char>,
    pub name: Seq<char>,
    pub resolution: (u32, u32),
    pub bpp: u32,
    pub device_path: Seq<char>,
}

impl View for ScreenInfo {
    type V = ScreenInfoV;

    open spec fn view(&self) -> ScreenInfoV {
        ScreenInfoV {
            path: self.path@,
            name: self.name@,
            resolution: self.resolution,
            bpp: self.bpp,
            device_path: self.device_path@,
        }
    }
}

/// The names that hide a framebuffer from discovery: the host's primary
/// display.
pub fn excluded_names() -> (r: Vec<&'static str>)
    ensures
        r@.len() == 1,
        r@[0]@ == "drm-rp1-dsidrmf"@,
{
    let mut v: Vec<&'static str> = Vec::new();
    v.push("drm-rp1-dsidrmf");
    v
}

/// A record becomes a screen when every attribute was read, the name is not
/// excluded, and the dimensions keep the frame arithmetic in `u32`.
pub open spec fn spec_keep_fb(f: FbInfoV) -> bool {
    &&& f.name is Some
    &&& f.resolution is Some
    &&& f.bpp is Some
    &&& f.device_path is Some
    &&& !spec_is_excluded(f.name->0)
    &&& dims_wf((f.resolution->0).0, (f.resolution->0).1, f.bpp->0)
}

/// The screen a kept record yields.
pub open spec fn spec_screen_of_fb(f: FbInfoV) -> ScreenInfoV {
    ScreenInfoV {
        path: f.path,
        name: f.name->0,
        resolution: f.resolution->0,
        bpp: f.bpp->0,
        device_path: f.device_path->0,
    }
}

/// The screens of a record sequence, in order.
pub open spec fn spec_scan_screens(s: Seq<FbInfoV>) -> Seq<ScreenInfoV>
    decreases s.len(),
{
    if s.len() == 0 {
        Seq::empty()
    } else {
        spec_scan_screens(s.drop_last()) + if spec_keep_fb(s.last()) {
            seq![spec_screen_of_fb(s.last())]
        } else {
            Seq::empty()
        }
    }
}

/// A screen record satisfies the frame-size arithmetic bound.
pub open spec fn screen_wf(s: ScreenInfoV) -> bool {
    dims_wf(s.resolution.0, s.resolution.1, s.bpp)
}

/// Keeps the framebuffer records with a full set of readable attributes and
/// a name off the exclusion list, in discovery order. A rejected record is
/// skipped, never an error.
pub fn scan_screens(fb_list: Vec<FbInfo>) -> (r: Vec<ScreenInfo>)
    ensures
        r@.map_values(|x: ScreenInfo| x@) == spec_scan_screens(
            fb_list@.map_values(|x: FbInfo| x@),
        ),
        forall|k: int| 0 <= k < r@.len() ==> #[trigger] screen_wf(r@[k]@),
{
    let ghost fv = fb_list@.map_values(|x: FbInfo| x@);
    let mut out: Vec<ScreenInfo> = Vec::new();
    let mut i: usize = 0;
    while i < fb_list.len()
        invariant
            0 <= i <= fb_list@.len(),
            fv == fb_list@.map_values(|x: FbInfo| x@),
            out@.map_values(|x: ScreenInfo| x@) == spec_scan_screens(fv.take(i as int)),
            forall|k: int| 0 <= k < out@.len() ==> #[trigger] screen_wf(out@[k]@),
        decreases fb_list@.len() - i,
    {
        let fb = &fb_list[i];
        proof {
            assert(fv.take(i + 1).drop_last() =~= fv.take(i as int));
            assert(fv.take(i + 1).last() == fv[i as int]);
        }
        match screen_of_fb(fb) {
            Some(s) => {
                out.push(s);
            },
            None => {},
        }
        proof {
            assert(out@.map_values(|x: ScreenInfo| x@) =~= spec_scan_screens(fv.take(i + 1)));
        }
        i = i + 1;
    }
    proof {
        assert(fv.take(fb_list@.len() as int) =~= fv);
    }
    out
}

/// The screen of one record, or nothing when the record is unusable.
fn screen_of_fb(fb: &FbInfo) -> (r: Option<ScreenInfo>)
    ensures
        spec_keep_fb(fb@) ==> r is Some && r->0@ == spec_screen_of_fb(fb@),
        !spec_keep_fb(fb@) ==> r is None,
{
    let name = match &fb.name {
        Some(n) => n,
        None => {
            return None;
        },
    };
    let resolution = match fb.resolution {
        Some(v) => v,
        None => {
            return None;
        },
    };
    let bpp = match fb.bpp {
        Some(v) => v,
        None => {
            return None;
        },
    };
    let device_path = match &fb.device_path {
        Some(p) => p,
        None => {
            return None;
        },
    };
    if crate::screen::FrameBufferScreen::is_excluded(name.as_str()) {
        return None;
    }
    if !crate::screen::dims_ok(resolution.0, resolution.1, bpp) {
        return None;
    }
    Some(
        ScreenInfo {
            path: fb.path.clone(),
            name: name.clone(),
            resolution,
            bpp,
            device_path: device_path.clone(),
        },
    )
}

/// Validates one frame for a screen: accepted exactly when it holds
/// `width * height * bpp / 8` bytes, else the length complaint. An accepted
/// frame is then written to the device node by the caller in one write.
pub fn push_frame_buffer(screen: &ScreenInfo, frame_buffer: &[u8]) -> (r: Result<(), String>)
    requires
        screen_wf(screen@),
    ensures
        r is Ok <==> frame_buffer@.len() == spec_frame_size(
            screen.resolution.0,
            screen.resolution.1,
            screen.bpp,
        ),
        r is Err ==> r->Err_0@ == spec_expected_msg(
            spec_frame_size(screen.resolution.0, screen.resolution.1, screen.bpp) as nat,
            frame_buffer@.len(),
        ),
{
    let expected_len = (screen.resolution.0 * screen.resolution.1 * screen.bpp / 8) as usize;
    if frame_buffer.len() != expected_len {
        return Err(crate::screen::expected_msg(expected_len as u64, frame_buffer.len() as u64));
    }
    Ok(())
}

} // verus!
