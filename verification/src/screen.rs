//! Screen devices: the capability trait, the framebuffer-backed screen, the
//! mock screen, and the data-plane socket core that validates incoming frames
//! and words the status replies.

use vstd::prelude::*;
use crate::json::{json_clean, spec_status_reply, status_reply};
use crate::strutil::{dec_chars, parse_endpoint_port, u64_to_string};

verus! {

/// The byte length a frame must have: `width * height * bpp / 8`.
pub open spec fn spec_frame_size(w: u32, h: u32, bpp: u32) -> int {
    w as int * h as int * bpp as int / 8
}

/// Screen dimensions small enough that the frame size arithmetic stays in
/// `u32`, as the drivers compute it.
pub open spec fn dims_wf(w: u32, h: u32, bpp: u32) -> bool {
    w as int * h as int <= u32::MAX && w as int * h as int * bpp as int <= u32::MAX
}

/// Tests the dimension bound of `dims_wf` in widened arithmetic.
pub fn dims_ok(w: u32, h: u32, bpp: u32) -> (r: bool)
    ensures
        r == dims_wf(w, h, bpp),
{
    proof {
        assert(w as u64 * h as u64 <= 0xFFFF_FFFFu64 * 0xFFFF_FFFFu64) by (nonlinear_arith)
            requires
                w <= u32::MAX,
                h <= u32::MAX,
        ;
    }
    let wh = w as u64 * h as u64;
    if wh > u32::MAX as u64 {
        return false;
    }
    proof {
        assert(wh * (bpp as u64) <= 0xFFFF_FFFFu64 * 0xFFFF_FFFFu64) by (nonlinear_arith)
            requires
                wh <= u32::MAX,
                bpp <= u32::MAX,
        ;
    }
    let whb = wh * (bpp as u64);
    whb <= u32::MAX as u64
}

/// The message sent back for a frame of the wrong length.
pub open spec fn spec_expected_msg(expected: nat, got: nat) -> Seq<char> {
    "Expected "@ + dec_chars(expected) + " bytes, got "@ + dec_chars(got)
}

proof fn lemma_dec_chars_clean(n: nat)
    ensures
        json_clean(dec_chars(n)),
    decreases n,
{
    if n >= 10 {
        lemma_dec_chars_clean(n / 10);
    }
}

proof fn lemma_expected_msg_clean(expected: nat, got: nat)
    ensures
        json_clean(spec_expected_msg(expected, got)),
{
    reveal_strlit("Expected ");
    reveal_strlit(" bytes, got ");
    lemma_dec_chars_clean(expected);
    lemma_dec_chars_clean(got);
}

/// Builds the wrong-length message for the status reply.
pub fn expected_msg(expected: u64, got: u64) -> (r: String)
    ensures
        r@ == spec_expected_msg(expected as nat, got as nat),
        json_clean(r@),
{
    let mut r = String::new();
    r.append("Expected ");
    let e = u64_to_string(expected);
    r.append(e.as_str());
    r.append(" bytes, got ");
    let g = u64_to_string(got);
    r.append(g.as_str());
    proof {
        assert(r@ =~= spec_expected_msg(expected as nat, got as nat));
        lemma_expected_msg_clean(expected as nat, got as nat);
    }
    r
}

/// A screen device: fixed dimensions and format, and a frame acceptor that
/// takes exactly one full frame. The device write behind an accepted frame is
/// the caller's part; acceptance itself only depends on the length.
pub trait Screen: Sized {
    /// The dimensions stay within the `u32` frame arithmetic.
    spec fn wf(&self) -> bool;

    /// The pixel dimensions, width then height.
    spec fn spec_size(&self) -> (u32, u32);

    /// Bits per pixel.
    spec fn spec_bpp(&self) -> u32;

    /// A device type string fit for the info JSON.
    spec fn spec_device_type(&self) -> Seq<char>;

    fn bpp(&self) -> (r: u32)
        requires
            self.wf(),
        ensures
            r == self.spec_bpp(),
    ;

    fn size(&self) -> (r: (u32, u32))
        requires
            self.wf(),
        ensures
            r == self.spec_size(),
    ;

    fn device_type(&self) -> (r: String)
        requires
            self.wf(),
        ensures
            r@ == self.spec_device_type(),
    ;

    /// Accepts a frame exactly when it holds `width * height * bpp / 8`
    /// bytes; otherwise reports the expected and received lengths.
    fn push_frame_buffer(&self, frame_buffer: &[u8]) -> (r: Result<(), String>)
        requires
            self.wf(),
        ensures
            r is Ok <==> frame_buffer@.len() == spec_frame_size(
                self.spec_size().0,
                self.spec_size().1,
                self.spec_bpp(),
            ),
            r is Err ==> r->Err_0@ == spec_expected_msg(
                spec_frame_size(self.spec_size().0, self.spec_size().1, self.spec_bpp()) as nat,
                frame_buffer@.len(),
            ),
    ;
}

/// A screen without hardware: it validates frame lengths and discards the
/// pixels.
pub struct MockScreen {
    /// Bits per pixel.
    pub bpp: u32,
    /// Width and height.
    pub size: (u32, u32),
}

impl MockScreen {
    /// A mock screen of the given dimensions.
    pub fn new(width: u32, height: u32, bpp: u32) -> (r: Self)
        requires
            dims_wf(width, height, bpp),
        ensures
            r.wf(),
            r.spec_size() == (width, height),
            r.spec_bpp() == bpp,
    {
        Self { bpp, size: (width, height) }
    }
}

impl Screen for MockScreen {
    open spec fn wf(&self) -> bool {
        dims_wf(self.size.0, self.size.1, self.bpp)
    }

    open spec fn spec_size(&self) -> (u32, u32) {
        self.size
    }

    open spec fn spec_bpp(&self) -> u32 {
        self.bpp
    }

    open spec fn spec_device_type(&self) -> Seq<char> {
        "mock"@
    }

    fn bpp(&self) -> u32 {
        self.bpp
    }

    fn size(&self) -> (u32, u32) {
        self.size
    }

    fn device_type(&self) -> String {
        let r = String::from_str("mock");
        proof {
            reveal_strlit("mock");
        }
        r
    }

    fn push_frame_buffer(&self, frame_buffer: &[u8]) -> Result<(), String> {
        let expected_len = (self.size.0 * self.size.1 * self.bpp / 8) as usize;
        if frame_buffer.len() != expected_len {
            return Err(expected_msg(expected_len as u64, frame_buffer.len() as u64));
        }
        Ok(())
    }
}

/// The raw attribute texts of one `/sys/class/graphics/fb*` entry, as read
/// from its files; an unreadable attribute is absent.
pub struct FbRecord {
    /// The directory name, such as `fb0`.
    pub dir_name: String,
    /// The `name` attribute, already trimmed.
    pub name: Option<String>,
    /// The raw `bits_per_pixel` text.
    pub bits_per_pixel: Option<String>,
    /// The raw `virtual_size` text, `W,H`.
    pub virtual_size: Option<String>,
    /// The resolved `device` symlink target.
    pub device_path: Option<String>,
}

/// The ghost image of a record: every text as its character sequence.
pub struct FbRecordV {
    pub dir_name: Seq<char>,
    pub name: Option<Seq<char>>,
    pub bits_per_pixel: Option<Seq<char>>,
    pub virtual_size: Option<Seq<char>>,
    pub device_path: Option<Seq<char>>,
}

impl View for FbRecord {
    type V = FbRecordV;

    open spec fn view(&self) -> FbRecordV {
        FbRecordV {
            dir_name: self.dir_name@,
            name: match self.name {
                Some(s) => Some(s@),
                None => None,
            },
            bits_per_pixel: match self.bits_per_pixel {
                Some(s) => Some(s@),
                None => None,
            },
            virtual_size: match self.virtual_size {
                Some(s) => Some(s@),
                None => None,
            },
            device_path: match self.device_path {
                Some(s) => Some(s@),
                None => None,
            },
        }
    }
}

/// The bits-per-pixel value a record's attribute text parses to.
pub open spec fn bpp_of_record(r: FbRecordV) -> Option<u32> {
    match r.bits_per_pixel {
        Some(t) => {
            if crate::strutil::parsed_dec(t) is Some && crate::strutil::parsed_dec(t)->Some_0
                <= u32::MAX {
                Some(crate::strutil::parsed_dec(t)->Some_0 as u32)
            } else {
                None
            }
        },
        None => None,
    }
}

/// The dimensions a record's `virtual_size` text parses to.
pub open spec fn size_of_record(r: FbRecordV) -> Option<(u32, u32)> {
    match r.virtual_size {
        Some(t) => crate::scan::parsed_virtual_size(t),
        None => None,
    }
}

/// The built-in exclusion list hiding the primary display's framebuffer.
pub open spec fn spec_is_excluded(name: Seq<char>) -> bool {
    name == "drm-rp1-dsidrmf"@
}

/// A screen backed by a `/dev/fb*` framebuffer node.
pub struct FrameBufferScreen {
    /// Bits per pixel.
    pub bpp: u32,
    /// Width and height.
    pub size: (u32, u32),
    /// The `/dev/fbN` node the frames go to.
    pub path: String,
    /// The resolved device path, served as the device type.
    pub device_path: String,
}

/// The ghost image of a framebuffer screen.
pub struct FrameBufferScreenV {
    pub bpp: u32,
    pub size: (u32, u32),
    pub path: Seq<char>,
    pub device_path: Seq<char>,
}

impl View for FrameBufferScreen {
    type V = FrameBufferScreenV;

    open spec fn view(&self) -> FrameBufferScreenV {
        FrameBufferScreenV {
            bpp: self.bpp,
            size: self.size,
            path: self.path@,
            device_path: self.device_path@,
        }
    }
}

impl FrameBufferScreen {
    /// Tests a framebuffer name against the exclusion list.
    pub fn is_excluded(name: &str) -> (r: bool)
        ensures
            r == spec_is_excluded(name@),
    {
        crate::strutil::str_eq(name, "drm-rp1-dsidrmf")
    }

    /// The write path of this screen's device node.
    pub fn path(&self) -> &String {
        &self.path
    }

    /// Whether one record yields a screen: every attribute present and well
    /// formed, the name not excluded, and the dimensions within the frame
    /// arithmetic.
    pub open spec fn spec_keep(r: FbRecordV) -> bool {
        &&& r.name is Some
        &&& !spec_is_excluded(r.name->0)
        &&& bpp_of_record(r) is Some
        &&& size_of_record(r) is Some
        &&& r.device_path is Some
        &&& dims_wf((size_of_record(r)->0).0, (size_of_record(r)->0).1, bpp_of_record(r)->0)
    }

    /// The screen a kept record yields.
    pub open spec fn spec_screen_of(r: FbRecordV) -> FrameBufferScreenV {
        FrameBufferScreenV {
            bpp: bpp_of_record(r)->0,
            size: size_of_record(r)->0,
            path: "/dev/"@ + r.dir_name,
            device_path: r.device_path->0,
        }
    }

    /// The screens of a record sequence, in order.
    pub open spec fn spec_scan(s: Seq<FbRecordV>) -> Seq<FrameBufferScreenV>
        decreases s.len(),
    {
        if s.len() == 0 {
            Seq::empty()
        } else {
            Self::spec_scan(s.drop_last()) + if Self::spec_keep(s.last()) {
                seq![Self::spec_screen_of(s.last())]
            } else {
                Seq::empty()
            }
        }
    }

    /// Builds one screen per usable framebuffer record, keeping the record
    /// order; a record with a missing or malformed attribute, or an excluded
    /// name, is skipped.
    pub fn new(records: Vec<FbRecord>) -> (r: Vec<FrameBufferScreen>)
        ensures
            r@.map_values(|s: FrameBufferScreen| s@) == Self::spec_scan(
                records@.map_values(|x: FbRecord| x@),
            ),
            forall|i: int| 0 <= i < r@.len() ==> #[trigger] r@[i].wf(),
    {
        let ghost rv = records@.map_values(|x: FbRecord| x@);
        let mut out: Vec<FrameBufferScreen> = Vec::new();
        let mut i: usize = 0;
        while i < records.len()
            invariant
                0 <= i <= records@.len(),
                rv == records@.map_values(|x: FbRecord| x@),
                out@.map_values(|s: FrameBufferScreen| s@) == Self::spec_scan(rv.take(i as int)),
                forall|k: int| 0 <= k < out@.len() ==> #[trigger] out@[k].wf(),
            decreases records@.len() - i,
        {
            let rec = &records[i];
            let kept = Self::build_one(rec);
            proof {
                assert(rv.take(i + 1).drop_last() =~= rv.take(i as int));
                assert(rv.take(i + 1).last() == rv[i as int]);
            }
            match kept {
                Some(s) => {
                    out.push(s);
                },
                None => {},
            }
            proof {
                assert(out@.map_values(|s: FrameBufferScreen| s@) =~= Self::spec_scan(
                    rv.take(i + 1),
                ));
            }
            i = i + 1;
        }
        proof {
            assert(rv.take(records@.len() as int) =~= rv);
        }
        out
    }

    /// Builds the screen of one record, or nothing when the record is
    /// unusable.
    fn build_one(rec: &FbRecord) -> (r: Option<FrameBufferScreen>)
        ensures
            Self::spec_keep(rec@) ==> r is Some && r->0@ == Self::spec_screen_of(rec@) && r->0.wf(),
            !Self::spec_keep(rec@) ==> r is None,
    {
        let name = match &rec.name {
            Some(n) => n,
            None => {
                return None;
            },
        };
        if Self::is_excluded(name.as_str()) {
            return None;
        }
        let bpp = match &rec.bits_per_pixel {
            Some(t) => match crate::strutil::parse_u32(t.as_str()) {
                Some(v) => v,
                None => {
                    return None;
                },
            },
            None => {
                return None;
            },
        };
        let size = match &rec.virtual_size {
            Some(t) => match crate::scan::parse_virtual_size(t.as_str()) {
                Some(v) => v,
                None => {
                    return None;
                },
            },
            None => {
                return None;
            },
        };
        let device_path = match &rec.device_path {
            Some(p) => p,
            None => {
                return None;
            },
        };
        if !dims_ok(size.0, size.1, bpp) {
            return None;
        }
        let path = String::from_str("/dev/").concat(rec.dir_name.as_str());
        Some(FrameBufferScreen { bpp, size, path, device_path: device_path.clone() })
    }
}

impl Screen for FrameBufferScreen {
    open spec fn wf(&self) -> bool {
        dims_wf(self.size.0, self.size.1, self.bpp)
    }

    open spec fn spec_size(&self) -> (u32, u32) {
        self.size
    }

    open spec fn spec_bpp(&self) -> u32 {
        self.bpp
    }

    open spec fn spec_device_type(&self) -> Seq<char> {
        self.device_path@
    }

    fn bpp(&self) -> u32 {
        self.bpp
    }

    fn size(&self) -> (u32, u32) {
        self.size
    }

    fn device_type(&self) -> String {
        self.device_path.clone()
    }

    /// Validates the frame length; the caller writes an accepted frame to the
    /// device node at `path`.
    fn push_frame_buffer(&self, frame_buffer: &[u8]) -> Result<(), String> {
        let expected_len = (self.size.0 * self.size.1 * self.bpp / 8) as usize;
        if frame_buffer.len() != expected_len {
            return Err(expected_msg(expected_len as u64, frame_buffer.len() as u64));
        }
        Ok(())
    }
}

/// The data-plane core of one screen: it owns the driver, remembers the
/// OS-assigned port, validates each received frame and words the reply.
pub struct ScreenSocket<S: Screen> {
    /// The device id, such as `screen0`.
    pub id: String,
    /// The screen this socket serves.
    pub screen: S,
    /// The data-plane port of the bound socket.
    pub frame_buffer_port: u16,
}

impl<S: Screen> ScreenSocket<S> {
    /// The socket is usable: its screen is, and its id fits the JSON
    /// listings.
    pub open spec fn wf(&self) -> bool {
        self.screen.wf() && json_clean(self.id@)
    }

    /// The port recorded from the bound endpoint.
    pub open spec fn spec_port(&self) -> u16 {
        self.frame_buffer_port
    }

    /// The screen this socket serves.
    pub open spec fn spec_screen(&self) -> S {
        self.screen
    }

    /// Wraps a screen, reading the data-plane port from the endpoint string
    /// the socket bind returned; an unreadable endpoint yields port 0.
    pub fn new(screen: S, id: String, endpoint: &str) -> (r: Self)
        requires
            screen.wf(),
            json_clean(id@),
        ensures
            r.wf(),
            r.spec_screen() == screen,
            r.id@ == id@,
            match crate::strutil::parsed_endpoint_port(endpoint@) {
                Some(p) => r.spec_port() == p,
                None => r.spec_port() == 0,
            },
    {
        let frame_buffer_port = match parse_endpoint_port(endpoint) {
            Some(p) => p,
            None => 0,
        };
        Self { id, screen, frame_buffer_port }
    }

    /// Handles one received frame: pushes it to the screen and words the
    /// reply JSON, `status` 0 on acceptance and 1 with the length complaint
    /// otherwise. The reply is always produced, never an error, so the
    /// request-reply protocol stays in step.
    pub fn handle_frame(&self, data: &[u8]) -> (reply: String)
        requires
            self.wf(),
        ensures
            data@.len() == spec_frame_size(
                self.spec_screen().spec_size().0,
                self.spec_screen().spec_size().1,
                self.spec_screen().spec_bpp(),
            ) ==> reply@ == spec_status_reply(0, "ok"@),
            data@.len() != spec_frame_size(
                self.spec_screen().spec_size().0,
                self.spec_screen().spec_size().1,
                self.spec_screen().spec_bpp(),
            ) ==> reply@ == spec_status_reply(
                1,
                spec_expected_msg(
                    spec_frame_size(
                        self.spec_screen().spec_size().0,
                        self.spec_screen().spec_size().1,
                        self.spec_screen().spec_bpp(),
                    ) as nat,
                    data@.len(),
                ),
            ),
    {
        match self.screen.push_frame_buffer(data) {
            Ok(()) => {
                proof {
                    reveal_strlit("ok");
                }
                status_reply(0, "ok")
            },
            Err(e) => {
                proof {
                    lemma_expected_msg_clean(
                        spec_frame_size(
                            self.screen.spec_size().0,
                            self.screen.spec_size().1,
                            self.screen.spec_bpp(),
                        ) as nat,
                        data@.len(),
                    );
                }
                status_reply(1, e.as_str())
            },
        }
    }

    /// The device info JSON served under `/<id>/info`.
    pub fn get_device_info(&self) -> (r: String)
        requires
            self.wf(),
        ensures
            r@ == spec_screen_info_json(
                self.spec_screen().spec_size().0,
                self.spec_screen().spec_size().1,
                self.spec_screen().spec_bpp(),
                self.spec_port(),
                self.spec_screen().spec_device_type(),
            ),
    {
        let size = self.screen.size();
        let mut r = String::new();
        r.append("{\"screen_size\":[");
        let w = u64_to_string(size.0 as u64);
        r.append(w.as_str());
        r.append(",");
        let h = u64_to_string(size.1 as u64);
        r.append(h.as_str());
        r.append("],\"bits_per_pixel\":");
        let b = u64_to_string(self.screen.bpp() as u64);
        r.append(b.as_str());
        r.append(",\"frame_buffer_port\":");
        let p = u64_to_string(self.frame_buffer_port as u64);
        r.append(p.as_str());
        r.append(",\"device_type\":\"");
        let dt = self.screen.device_type();
        crate::json::append_json_escaped(&mut r, dt.as_str());
        r.append("\",\"description\":\"");
        r.append(screen_description());
        r.append("\"}");
        proof {
            assert(r@ =~= spec_screen_info_json(
                self.spec_screen().spec_size().0,
                self.spec_screen().spec_size().1,
                self.spec_screen().spec_bpp(),
                self.spec_port(),
                self.spec_screen().spec_device_type(),
            ));
        }
        r
    }
}

/// The description line of the screen info JSON.
fn screen_description() -> (r: &'static str)
    ensures
        r@ == spec_screen_description(),
{
    "Render a frame by sending a raw buffer to <frame_buffer_port> via ZMQ REP socket."
}

/// The fixed description text of a screen device.
pub open spec fn spec_screen_description() -> Seq<char> {
    "Render a frame by sending a raw buffer to <frame_buffer_port> via ZMQ REP socket."@
}

/// The screen info JSON text, field by field; the device type, which comes
/// from a sysfs path, is escaped into the string literal.
pub open spec fn spec_screen_info_json(w: u32, h: u32, bpp: u32, port: u16, device_type: Seq<
    char,
>) -> Seq<char> {
    "{\"screen_size\":["@ + dec_chars(w as nat) + ","@ + dec_chars(h as nat)
        + "],\"bits_per_pixel\":"@ + dec_chars(bpp as nat) + ",\"frame_buffer_port\":"@ + dec_chars(
        port as nat,
    ) + ",\"device_type\":\""@ + crate::json::spec_json_escaped(device_type)
        + "\",\"description\":\""@ + spec_screen_description() + "\"}"@
}

} // verus!
