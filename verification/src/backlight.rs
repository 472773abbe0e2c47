//! Backlight devices: normalized brightness with clamping, the sysfs-backed
//! device records, the mock, and the query-string parsing of the set
//! endpoint. Normalized brightness crosses this boundary in millionths of
//! full scale; turning a decimal float into millionths is the edge's part.

use vstd::prelude::*;
use crate::strutil::{
    first_index_of,
    lemma_first_index_of_at,
    lemma_first_index_of_none,
    parsed_dec,
};

verus! {

/// One unit of normalized brightness: a millionth of full scale.
pub open spec fn micro_full_scale() -> int {
    1_000_000
}

/// Normalized brightness clamped into `[0, 1]`, in millionths.
pub open spec fn spec_clamp_micro(micro: i64) -> int {
    if micro < 0 {
        0
    } else if micro > 1_000_000 {
        1_000_000
    } else {
        micro as int
    }
}

/// The raw value a normalized brightness maps to: `round(b * max)`, with
/// `b` clamped into `[0, 1]` first.
pub open spec fn spec_raw_of_micro(micro: i64, max: u32) -> int {
    (spec_clamp_micro(micro) * max + 500_000) / 1_000_000
}

/// Maps normalized brightness in millionths to the raw value written to the
/// device: clamp into full scale, scale by `max`, round half up. The result
/// never leaves `[0, max]`.
pub fn raw_from_micro(micro: i64, max: u32) -> (r: u32)
    ensures
        r == spec_raw_of_micro(micro, max),
        r <= max,
        micro >= 1_000_000 ==> r == max,
        micro <= 0 ==> r == 0,
{
    let clamped: u64 = if micro < 0 {
        0
    } else if micro > 1_000_000 {
        1_000_000
    } else {
        micro as u64
    };
    proof {
        assert(clamped * (max as u64) <= 1_000_000u64 * 0xFFFF_FFFFu64) by (nonlinear_arith)
            requires
                clamped <= 1_000_000,
                max <= u32::MAX,
        ;
    }
    let scaled: u64 = clamped * (max as u64) + 500_000;
    let raw: u64 = scaled / 1_000_000;
    proof {
        assert((1_000_000 * (max as int) + 500_000) / 1_000_000 == max as int);
        if micro <= 0 {
            assert(clamped * (max as u64) == 0) by (nonlinear_arith)
                requires
                    clamped == 0,
            ;
        }
        assert(raw <= max) by (nonlinear_arith)
            requires
                clamped <= 1_000_000,
                raw == (clamped * (max as u64) + 500_000) as int / 1_000_000,
        ;
        if micro >= 1_000_000 {
            assert(raw == max);
        }
    }
    raw as u32
}

/// Clamping is idempotent, and a value outside `[0, 1]` reads back as the
/// nearest bound: what a set stored, a get returns, already clamped.
pub proof fn lemma_clamp_idempotent(micro: i64)
    ensures
        spec_clamp_micro(spec_clamp_micro(micro) as i64) == spec_clamp_micro(micro),
        micro > 1_000_000 ==> spec_clamp_micro(micro) == 1_000_000,
        micro < 0 ==> spec_clamp_micro(micro) == 0,
{
}

/// What the `brightness` file's content yields: the raw value, when the
/// text is a decimal number that fits.
pub open spec fn spec_parse_raw(content: Seq<char>) -> Option<u32> {
    if parsed_dec(content) is Some && parsed_dec(content)->Some_0 <= u32::MAX {
        Some(parsed_dec(content)->Some_0 as u32)
    } else {
        None
    }
}

/// Parses the raw brightness read back from the device; the reader divides
/// it by `max` for the normalized value.
pub fn parse_raw_brightness(content: &str) -> (r: Result<u32, String>)
    ensures
        match r {
            Ok(v) => spec_parse_raw(content@) == Some(v),
            Err(e) => spec_parse_raw(content@) is None && e@ == "parse brightness failed"@,
        },
{
    match crate::strutil::parse_u32(content) {
        Some(v) => Ok(v),
        None => Err(String::from_str("parse brightness failed")),
    }
}

/// A sysfs-backed backlight: the attribute paths and the cached maximum.
pub struct SysfsBacklight {
    /// The device directory name.
    pub name: String,
    /// The device directory under `/sys/class/backlight`.
    pub device_path: String,
    /// The read/write `brightness` file.
    pub brightness_path: String,
    /// The read-only `max_brightness` file.
    pub max_brightness_path: String,
    /// The parsed maximum raw brightness.
    pub max_brightness: u32,
}

/// One `/sys/class/backlight` entry as discovered: the directory, whether
/// the two attribute files exist, and the `max_brightness` text when
/// readable.
pub struct BacklightRecord {
    /// The directory name.
    pub dir_name: String,
    /// The directory path.
    pub device_path: String,
    /// Whether `brightness` exists.
    pub has_brightness: bool,
    /// Whether `max_brightness` exists.
    pub has_max_brightness: bool,
    /// The content of `max_brightness`, when readable.
    pub max_brightness_content: Option<String>,
}

/// Whether a record yields a device: both attribute files present and a
/// parseable maximum.
pub open spec fn spec_keep_backlight(
    dir_name: Seq<char>,
    has_brightness: bool,
    has_max_brightness: bool,
    content: Option<Seq<char>>,
) -> bool {
    &&& has_brightness
    &&& has_max_brightness
    &&& content is Some
    &&& spec_parse_raw(content->0) is Some
}

/// The ghost image of a discovered record.
pub struct BacklightRecordV {
    pub dir_name: Seq<char>,
    pub device_path: Seq<char>,
    pub has_brightness: bool,
    pub has_max_brightness: bool,
    pub max_brightness_content: Option<Seq<char>>,
}

impl View for BacklightRecord {
    type V = BacklightRecordV;

    open spec fn view(&self) -> BacklightRecordV {
        BacklightRecordV {
            dir_name: self.dir_name@,
            device_path: self.device_path@,
            has_brightness: self.has_brightness,
            has_max_brightness: self.has_max_brightness,
            max_brightness_content: crate::imu::view_opt(&self.max_brightness_content),
        }
    }
}

/// The ghost image of a sysfs backlight.
pub struct SysfsBacklightV {
    pub name: Seq<char>,
    pub device_path: Seq<char>,
    pub brightness_path: Seq<char>,
    pub max_brightness_path: Seq<char>,
    pub max_brightness: u32,
}

impl View for SysfsBacklight {
    type V = SysfsBacklightV;

    open spec fn view(&self) -> SysfsBacklightV {
        SysfsBacklightV {
            name: self.name@,
            device_path: self.device_path@,
            brightness_path: self.brightness_path@,
            max_brightness_path: self.max_brightness_path@,
            max_brightness: self.max_brightness,
        }
    }
}

/// The device a kept record yields.
pub open spec fn spec_backlight_of(r: BacklightRecordV) -> SysfsBacklightV {
    SysfsBacklightV {
        name: r.dir_name,
        device_path: r.device_path,
        brightness_path: r.device_path + "/brightness"@,
        max_brightness_path: r.device_path + "/max_brightness"@,
        max_brightness: spec_parse_raw(r.max_brightness_content->0)->0,
    }
}

/// Whether a record yields a device, over its ghost image.
pub open spec fn spec_keep_backlight_v(r: BacklightRecordV) -> bool {
    spec_keep_backlight(r.dir_name, r.has_brightness, r.has_max_brightness, r.max_brightness_content)
}

/// The devices of a record sequence, in order.
pub open spec fn spec_scan_backlights(s: Seq<BacklightRecordV>) -> Seq<SysfsBacklightV>
    decreases s.len(),
{
    if s.len() == 0 {
        Seq::empty()
    } else {
        spec_scan_backlights(s.drop_last()) + if spec_keep_backlight_v(s.last()) {
            seq![spec_backlight_of(s.last())]
        } else {
            Seq::empty()
        }
    }
}

impl SysfsBacklight {
    /// Builds the device of one record: present attribute files and a
    /// parseable `max_brightness`, else nothing. The attribute paths are
    /// recorded for the reader and writer.
    pub fn new(rec: &BacklightRecord) -> (r: Option<SysfsBacklight>)
        ensures
            match r {
                Some(b) => {
                    &&& spec_keep_backlight(
                        rec.dir_name@,
                        rec.has_brightness,
                        rec.has_max_brightness,
                        crate::imu::view_opt(&rec.max_brightness_content),
                    )
                    &&& b.name@ == rec.dir_name@
                    &&& b.device_path@ == rec.device_path@
                    &&& b.brightness_path@ == rec.device_path@ + "/brightness"@
                    &&& b.max_brightness_path@ == rec.device_path@ + "/max_brightness"@
                    &&& Some(b.max_brightness) == spec_parse_raw(
                        crate::imu::view_opt(&rec.max_brightness_content)->0,
                    )
                },
                None => !spec_keep_backlight(
                    rec.dir_name@,
                    rec.has_brightness,
                    rec.has_max_brightness,
                    crate::imu::view_opt(&rec.max_brightness_content),
                ),
            },
    {
        if !rec.has_brightness || !rec.has_max_brightness {
            return None;
        }
        let content = match &rec.max_brightness_content {
            Some(c) => c,
            None => {
                return None;
            },
        };
        let max = match crate::strutil::parse_u32(content.as_str()) {
            Some(v) => v,
            None => {
                return None;
            },
        };
        let mut brightness_path = rec.device_path.clone();
        brightness_path.append("/brightness");
        let mut max_brightness_path = rec.device_path.clone();
        max_brightness_path.append("/max_brightness");
        Some(
            SysfsBacklight {
                name: rec.dir_name.clone(),
                device_path: rec.device_path.clone(),
                brightness_path,
                max_brightness_path,
                max_brightness: max,
            },
        )
    }

    /// Builds one device per usable record, in discovery order; a record
    /// with missing files or an unreadable maximum is skipped.
    pub fn get_all_devices(records: Vec<BacklightRecord>) -> (r: Vec<SysfsBacklight>)
        ensures
            r@.map_values(|b: SysfsBacklight| b@) == spec_scan_backlights(
                records@.map_values(|x: BacklightRecord| x@),
            ),
    {
        let ghost rv = records@.map_values(|x: BacklightRecord| x@);
        let mut out: Vec<SysfsBacklight> = Vec::new();
        let mut i: usize = 0;
        while i < records.len()
            invariant
                0 <= i <= records@.len(),
                rv == records@.map_values(|x: BacklightRecord| x@),
                out@.map_values(|b: SysfsBacklight| b@) == spec_scan_backlights(rv.take(i as int)),
            decreases records@.len() - i,
        {
            proof {
                assert(rv.take(i + 1).drop_last() =~= rv.take(i as int));
                assert(rv.take(i + 1).last() == rv[i as int]);
            }
            match Self::new(&records[i]) {
                Some(b) => {
                    proof {
                        assert(b@ == spec_backlight_of(rv[i as int]));
                    }
                    out.push(b);
                },
                None => {},
            }
            proof {
                assert(out@.map_values(|b: SysfsBacklight| b@) =~= spec_scan_backlights(
                    rv.take(i + 1),
                ));
            }
            i = i + 1;
        }
        proof {
            assert(rv.take(records@.len() as int) =~= rv);
        }
        out
    }

    /// The cached maximum raw brightness.
    pub fn max_brightness(&self) -> (r: u32)
        ensures
            r == self.max_brightness,
    {
        self.max_brightness
    }

    /// The raw value and its decimal text that a set of normalized
    /// brightness writes to the `brightness` file: clamped and rounded.
    pub fn set_brightness_text(&self, micro: i64) -> (r: String)
        ensures
            r@ == crate::strutil::dec_chars(spec_raw_of_micro(micro, self.max_brightness) as nat),
    {
        let raw = raw_from_micro(micro, self.max_brightness);
        crate::strutil::u64_to_string(raw as u64)
    }
}

/// A backlight without hardware: the brightness lives in memory,
/// normalized, and set values are clamped like the real device's.
pub struct MockBacklight {
    /// The device name.
    pub name: String,
    /// The raw scale maximum.
    pub max_brightness: u32,
    /// The stored normalized brightness, in millionths.
    pub brightness_micro: i64,
}

impl MockBacklight {
    /// A mock backlight starting at six tenths of full scale.
    pub fn new(name: String, max_brightness: u32) -> (r: Self)
        ensures
            r.name@ == name@,
            r.max_brightness == max_brightness,
            r.brightness_micro == 600_000,
    {
        MockBacklight { name, max_brightness, brightness_micro: 600_000 }
    }

    /// The stored normalized brightness, in millionths.
    pub fn get_brightness(&self) -> (r: i64)
        ensures
            r == self.brightness_micro,
    {
        self.brightness_micro
    }

    /// Stores a normalized brightness, clamped into full scale.
    pub fn set_brightness(&mut self, micro: i64)
        ensures
            final(self).brightness_micro == spec_clamp_micro(micro),
            final(self).name == old(self).name,
            final(self).max_brightness == old(self).max_brightness,
    {
        self.brightness_micro = if micro < 0 {
            0
        } else if micro > 1_000_000 {
            1_000_000
        } else {
            micro
        };
    }
}

/// The query split at each `&`.
pub open spec fn split_char(s: Seq<char>, c: char) -> Seq<Seq<char>>
    decreases s.len(),
{
    match first_index_of(s, c) {
        Some(i) => {
            if 0 <= i < s.len() {
                seq![s.take(i)] + split_char(s.skip(i + 1), c)
            } else {
                seq![s]
            }
        },
        None => seq![s],
    }
}

/// The value of the first `brightness=` parameter: the text between its
/// first `=` and its second `=` or end, if such a parameter exists.
pub open spec fn spec_brightness_value(query: Seq<char>) -> Option<Seq<char>> {
    spec_find_brightness(split_char(query, '&'))
}

/// The first parameter starting `brightness=`, reduced to its value.
pub open spec fn spec_find_brightness(params: Seq<Seq<char>>) -> Option<Seq<char>>
    decreases params.len(),
{
    if params.len() == 0 {
        None
    } else if is_brightness_param(params.first()) {
        Some(param_value(params.first()))
    } else {
        spec_find_brightness(params.drop_first())
    }
}

/// A parameter of the form `brightness=...`.
pub open spec fn is_brightness_param(p: Seq<char>) -> bool {
    p.len() >= 11 && p.take(11) == "brightness="@
}

/// The text after `brightness=` up to the next `=` or the end.
pub open spec fn param_value(p: Seq<char>) -> Seq<char> {
    let rest = p.skip(11);
    match first_index_of(rest, '=') {
        Some(j) => rest.take(j),
        None => rest,
    }
}

/// Splits a string at every occurrence of `c`.
pub fn split_on_char(s: &str, c: char) -> (r: Vec<String>)
    ensures
        r@.map_values(|t: String| t@) == split_char(s@, c),
    decreases s@.len(),
{
    let len = s.unicode_len();
    let mut i: usize = 0;
    while i < len && s.get_char(i) != c
        invariant
            0 <= i <= len,
            len == s@.len(),
            forall|m: int| 0 <= m < i ==> s@[m] != c,
        decreases len - i,
    {
        i = i + 1;
    }
    if i == len {
        proof {
            lemma_first_index_of_none(s@, c);
        }
        let mut r: Vec<String> = Vec::new();
        r.push(String::from_str(s));
        proof {
            assert(r@.map_values(|t: String| t@) =~= split_char(s@, c));
        }
        return r;
    }
    proof {
        lemma_first_index_of_at(s@, c, i as int);
    }
    let head = s.substring_char(0, i);
    let tail = s.substring_char(i + 1, len);
    proof {
        assert(head@ =~= s@.take(i as int));
        assert(tail@ =~= s@.skip(i + 1));
    }
    let rest = split_on_char(tail, c);
    let mut r: Vec<String> = Vec::new();
    r.push(String::from_str(head));
    let mut k: usize = 0;
    while k < rest.len()
        invariant
            0 <= k <= rest@.len(),
            r@.len() == k + 1,
            r@[0]@ == s@.take(i as int),
            forall|m: int| 0 <= m < k ==> r@[m + 1]@ == #[trigger] rest@[m]@,
        decreases rest@.len() - k,
    {
        r.push(rest[k].clone());
        k = k + 1;
    }
    proof {
        assert(r@.map_values(|t: String| t@) =~= seq![s@.take(i as int)] + rest@.map_values(
            |t: String| t@,
        ));
    }
    r
}

/// Extracts the `brightness` parameter's value from a query string, as the
/// set endpoint reads it: the first `brightness=` parameter, its text up to
/// a second `=`. The edge turns the text into a number or answers the bad
/// request.
pub fn brightness_param(query: &str) -> (r: Option<String>)
    ensures
        match r {
            Some(v) => spec_brightness_value(query@) == Some(v@),
            None => spec_brightness_value(query@) is None,
        },
{
    let params = split_on_char(query, '&');
    let ghost pv = params@.map_values(|t: String| t@);
    proof {
        assert(pv.skip(0) =~= pv);
    }
    let mut i: usize = 0;
    while i < params.len()
        invariant
            0 <= i <= params@.len(),
            pv == params@.map_values(|t: String| t@),
            pv == split_char(query@, '&'),
            spec_find_brightness(pv) == spec_find_brightness(pv.skip(i as int)),
        decreases params@.len() - i,
    {
        let p = &params[i];
        proof {
            assert(pv.skip(i as int).first() == pv[i as int]);
            assert(pv.skip(i as int).drop_first() =~= pv.skip(i + 1));
        }
        if crate::imu::str_starts_with(p.as_str(), "brightness=") {
            proof {
                reveal_strlit("brightness=");
                assert(is_brightness_param(pv[i as int]));
            }
            let plen = p.as_str().unicode_len();
            let rest = p.as_str().substring_char(11, plen);
            proof {
                assert(rest@ =~= pv[i as int].skip(11));
            }
            let rlen = rest.unicode_len();
            let mut j: usize = 0;
            while j < rlen && rest.get_char(j) != '='
                invariant
                    0 <= j <= rlen,
                    rlen == rest@.len(),
                    forall|m: int| 0 <= m < j ==> rest@[m] != '=',
                decreases rlen - j,
            {
                j = j + 1;
            }
            if j == rlen {
                proof {
                    lemma_first_index_of_none(rest@, '=');
                }
                return Some(String::from_str(rest));
            }
            proof {
                lemma_first_index_of_at(rest@, '=', j as int);
            }
            let value = rest.substring_char(0, j);
            proof {
                assert(value@ =~= rest@.take(j as int));
            }
            return Some(String::from_str(value));
        }
        proof {
            reveal_strlit("brightness=");
            assert(!is_brightness_param(pv[i as int]));
        }
        i = i + 1;
    }
    proof {
        assert(pv.skip(pv.len() as int) =~= Seq::<Seq<char>>::empty());
    }
    None
}

} // verus!
