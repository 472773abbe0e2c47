//! The client-side renderer's geometry: the three resize modes, the target
//! rectangle and centering offsets they pick, and the composition of a
//! source picture into a screen-sized RGBA buffer. The decode and the
//! filtered scaling of real media are the subprocess backend's part; the
//! composition here is the reference path, point-sampled.

use vstd::prelude::*;

verus! {

/// How a picture is fitted to the screen.
#[derive(Clone, Copy, Debug, PartialEq, Eq, Structural)]
pub enum ResizeMode {
    /// Resize to the exact screen size, ignoring the aspect ratio.
    Stretch,
    /// Scale so the whole picture fits; center on black; pad the edges.
    Letterbox,
    /// Scale so the picture covers the screen; center; crop the overflow.
    Fill,
}

/// The scaled target rectangle and where its top-left corner lands on the
/// screen; a negative offset crops.
pub struct ResizePlan {
    /// The scaled width.
    pub target_w: u64,
    /// The scaled height.
    pub target_h: u64,
    /// The horizontal placement, `(screen_w - target_w) / 2` toward zero.
    pub offset_x: i64,
    /// The vertical placement, `(screen_h - target_h) / 2` toward zero.
    pub offset_y: i64,
}

/// Division rounded half away from zero, on non-negative values.
pub open spec fn round_div(a: int, b: int) -> int {
    (2 * a + b) / (2 * b)
}

/// The source is proportionally wider than the screen.
pub open spec fn img_wider(img_w: int, img_h: int, screen_w: int, screen_h: int) -> bool {
    img_w * screen_h > screen_w * img_h
}

/// Half the gap between screen and target, truncated toward zero.
pub open spec fn center_offset(screen: int, target: int) -> int {
    if target <= screen {
        (screen - target) / 2
    } else {
        -((target - screen) / 2)
    }
}

/// The plan of each mode. Stretch takes the screen rectangle; letterbox
/// scales by `min(sw/iw, sh/ih)` so the picture fits; fill scales by
/// `max(sw/iw, sh/ih)` so the picture covers the screen; the scaled edge is
/// rounded to the nearest pixel, and the rectangle is centered.
pub open spec fn spec_plan(
    img_w: int,
    img_h: int,
    screen_w: int,
    screen_h: int,
    mode: ResizeMode,
) -> (int, int) {
    match mode {
        ResizeMode::Stretch => (screen_w, screen_h),
        ResizeMode::Letterbox => {
            if img_wider(img_w, img_h, screen_w, screen_h) {
                (screen_w, round_div(screen_w * img_h, img_w))
            } else {
                (round_div(screen_h * img_w, img_h), screen_h)
            }
        },
        ResizeMode::Fill => {
            if img_wider(img_w, img_h, screen_w, screen_h) {
                (round_div(screen_h * img_w, img_h), screen_h)
            } else {
                (screen_w, round_div(screen_w * img_h, img_w))
            }
        },
    }
}

/// Dimensions small enough for the buffer arithmetic: both buffers exist in
/// `u32` bytes and nothing is empty.
pub open spec fn render_dims_wf(img_w: u32, img_h: u32, screen_w: u32, screen_h: u32) -> bool {
    &&& img_w >= 1
    &&& img_h >= 1
    &&& screen_w >= 1
    &&& screen_h >= 1
    &&& img_w * img_h * 4 <= u32::MAX
    &&& screen_w * screen_h * 4 <= u32::MAX
}

/// Computes the plan of one mode.
pub fn plan_resize(img_w: u32, img_h: u32, screen_w: u32, screen_h: u32, mode: ResizeMode) -> (r:
    ResizePlan)
    requires
        render_dims_wf(img_w, img_h, screen_w, screen_h),
    ensures
        (r.target_w as int, r.target_h as int) == spec_plan(
            img_w as int,
            img_h as int,
            screen_w as int,
            screen_h as int,
            mode,
        ),
        r.target_w <= 0x1000_0000_0000_0000,
        r.target_h <= 0x1000_0000_0000_0000,
        r.offset_x == center_offset(screen_w as int, r.target_w as int),
        r.offset_y == center_offset(screen_h as int, r.target_h as int),
        -0x1000_0000_0000_0000 <= r.offset_x <= u32::MAX,
        -0x1000_0000_0000_0000 <= r.offset_y <= u32::MAX,
{
    proof {
        assert(img_w <= 0x4000_0000 && img_h <= 0x4000_0000 && screen_w <= 0x4000_0000 && screen_h
            <= 0x4000_0000) by (nonlinear_arith)
            requires
                img_w as int * img_h as int * 4 <= u32::MAX,
                screen_w as int * screen_h as int * 4 <= u32::MAX,
                img_w >= 1 && img_h >= 1 && screen_w >= 1 && screen_h >= 1,
        ;
        assert(screen_w as int * img_h as int <= 0x4000_0000 * 0x4000_0000 && screen_h as int
            * img_w as int <= 0x4000_0000 * 0x4000_0000) by (nonlinear_arith)
            requires
                img_w <= 0x4000_0000 && img_h <= 0x4000_0000 && screen_w <= 0x4000_0000 && screen_h
                    <= 0x4000_0000,
        ;
        assert(screen_w as int * img_h as int >= 1 && screen_h as int * img_w as int >= 1)
            by (nonlinear_arith)
            requires
                img_w >= 1 && img_h >= 1 && screen_w >= 1 && screen_h >= 1,
        ;
        lemma_round_div_le(screen_w as int * img_h as int, img_w as int);
        lemma_round_div_le(screen_h as int * img_w as int, img_h as int);
    }
    let wider = (img_w as u64) * (screen_h as u64) > (screen_w as u64) * (img_h as u64);
    let (target_w, target_h): (u64, u64) = match mode {
        ResizeMode::Stretch => (screen_w as u64, screen_h as u64),
        ResizeMode::Letterbox => {
            if wider {
                (screen_w as u64, round_div_exec(screen_w as u64 * img_h as u64, img_w as u64))
            } else {
                (round_div_exec(screen_h as u64 * img_w as u64, img_h as u64), screen_h as u64)
            }
        },
        ResizeMode::Fill => {
            if wider {
                (round_div_exec(screen_h as u64 * img_w as u64, img_h as u64), screen_h as u64)
            } else {
                (screen_w as u64, round_div_exec(screen_w as u64 * img_h as u64, img_w as u64))
            }
        },
    };
    let offset_x = half_gap(screen_w as u64, target_w);
    let offset_y = half_gap(screen_h as u64, target_h);
    ResizePlan { target_w, target_h, offset_x, offset_y }
}

proof fn lemma_round_div_le(a: int, b: int)
    requires
        a >= 1,
        b >= 1,
    ensures
        round_div(a, b) <= a,
{
    assert((2 * a + b) / (2 * b) <= a) by (nonlinear_arith)
        requires
            a >= 1,
            b >= 1,
    ;
}

/// `round_div` in executable form.
fn round_div_exec(a: u64, b: u64) -> (r: u64)
    requires
        1 <= b <= 0x2000_0000_0000_0000,
        a <= 0x2000_0000_0000_0000,
    ensures
        r == round_div(a as int, b as int),
{
    (2 * a + b) / (2 * b)
}

/// The centering offset in executable form.
fn half_gap(screen: u64, target: u64) -> (r: i64)
    requires
        screen <= u32::MAX,
        target <= 0x2000_0000_0000_0000,
    ensures
        r == center_offset(screen as int, target as int),
{
    if target <= screen {
        ((screen - target) / 2) as i64
    } else {
        let g = ((target - screen) / 2) as i64;
        -g
    }
}

/// An RGBA picture: its dimensions and `width * height * 4` bytes, rows
/// first.
pub struct RgbaImage {
    /// Width in pixels.
    pub width: u32,
    /// Height in pixels.
    pub height: u32,
    /// The packed RGBA bytes.
    pub data: Vec<u8>,
}

impl RgbaImage {
    /// The buffer belongs to the dimensions.
    pub open spec fn wf(&self) -> bool {
        self.data@.len() == self.width as int * self.height as int * 4
    }
}

/// One byte of the composed screen buffer: inside the placed target
/// rectangle the point-sampled source byte, outside it opaque black.
pub open spec fn spec_render_byte(
    src: Seq<u8>,
    img_w: int,
    img_h: int,
    tw: int,
    th: int,
    ox: int,
    oy: int,
    x: int,
    y: int,
    c: int,
) -> u8 {
    let tx = x - ox;
    let ty = y - oy;
    if 0 <= tx < tw && 0 <= ty < th {
        let sx = tx * img_w / tw;
        let sy = ty * img_h / th;
        src[(sy * img_w + sx) * 4 + c]
    } else {
        if c == 3 {
            255
        } else {
            0
        }
    }
}

/// The composed screen buffer of one mode.
pub open spec fn spec_rendered(
    src: Seq<u8>,
    img_w: int,
    img_h: int,
    screen_w: int,
    screen_h: int,
    mode: ResizeMode,
) -> Seq<u8> {
    let (tw, th) = spec_plan(img_w, img_h, screen_w, screen_h, mode);
    let ox = center_offset(screen_w, tw);
    let oy = center_offset(screen_h, th);
    Seq::new(
        (screen_w * screen_h * 4) as nat,
        |i: int|
            spec_render_byte(
                src,
                img_w,
                img_h,
                tw,
                th,
                ox,
                oy,
                i / 4 % screen_w,
                i / 4 / screen_w,
                i % 4,
            ),
    )
}

/// The still-image and frame renderer.
pub struct ImageRenderer {}

impl ImageRenderer {
    /// Fits a picture to the screen: plans the mode's rectangle, point
    /// -samples the source into it, and pads or crops around the center.
    /// The output always holds exactly `screen_w * screen_h * 4` bytes.
    pub fn resize(img: &RgbaImage, screen_width: u32, screen_height: u32, resize_mode: &ResizeMode)
        -> (r: RgbaImage)
        requires
            img.wf(),
            render_dims_wf(img.width, img.height, screen_width, screen_height),
        ensures
            r.width == screen_width,
            r.height == screen_height,
            r.wf(),
            r.data@ == spec_rendered(
                img.data@,
                img.width as int,
                img.height as int,
                screen_width as int,
                screen_height as int,
                *resize_mode,
            ),
    {
        let plan = plan_resize(img.width, img.height, screen_width, screen_height, *resize_mode);
        let data = render_with_plan(img, screen_width, screen_height, &plan);
        proof {
            assert(data@ =~= spec_rendered(
                img.data@,
                img.width as int,
                img.height as int,
                screen_width as int,
                screen_height as int,
                *resize_mode,
            ));
        }
        RgbaImage { width: screen_width, height: screen_height, data }
    }
}

/// Composes the planned rectangle into a fresh screen buffer.
fn render_with_plan(img: &RgbaImage, screen_w: u32, screen_h: u32, plan: &ResizePlan) -> (r: Vec<
    u8,
>)
    requires
        img.wf(),
        render_dims_wf(img.width, img.height, screen_w, screen_h),
        plan.target_w <= 0x1000_0000_0000_0000,
        plan.target_h <= 0x1000_0000_0000_0000,
        -0x1000_0000_0000_0000 <= plan.offset_x <= u32::MAX,
        -0x1000_0000_0000_0000 <= plan.offset_y <= u32::MAX,
    ensures
        r@.len() == screen_w as int * screen_h as int * 4,
        forall|i: int|
            0 <= i < r@.len() ==> r@[i] == spec_render_byte(
                img.data@,
                img.width as int,
                img.height as int,
                plan.target_w as int,
                plan.target_h as int,
                plan.offset_x as int,
                plan.offset_y as int,
                i / 4 % screen_w as int,
                i / 4 / screen_w as int,
                i % 4,
            ),
{
    let mut out: Vec<u8> = Vec::new();
    let mut y: usize = 0;
    proof {
        assert(screen_w * screen_h * 4 == screen_h * screen_w * 4 >= screen_w * 4)
            by (nonlinear_arith)
            requires
                screen_h >= 1,
                screen_w * screen_h * 4 <= u32::MAX,
        ;
    }
    while y < screen_h as usize
        invariant
            img.wf(),
            render_dims_wf(img.width, img.height, screen_w, screen_h),
            plan.target_w <= 0x1000_0000_0000_0000,
            plan.target_h <= 0x1000_0000_0000_0000,
            -0x1000_0000_0000_0000 <= plan.offset_x <= u32::MAX,
            -0x1000_0000_0000_0000 <= plan.offset_y <= u32::MAX,
            0 <= y <= screen_h,
            out@.len() == y * (screen_w as int) * 4,
            screen_h * screen_w * 4 <= u32::MAX,
            forall|i: int|
                0 <= i < out@.len() ==> out@[i] == spec_render_byte(
                    img.data@,
                    img.width as int,
                    img.height as int,
                    plan.target_w as int,
                    plan.target_h as int,
                    plan.offset_x as int,
                    plan.offset_y as int,
                    i / 4 % screen_w as int,
                    i / 4 / screen_w as int,
                    i % 4,
                ),
        decreases screen_h - y,
    {
        proof {
            assert((y + 1) * (screen_w as int) * 4 <= screen_h * screen_w * 4 && y * (
            screen_w as int) * 4 + screen_w * 4 == (y + 1) * (screen_w as int) * 4)
                by (nonlinear_arith)
                requires
                    y < screen_h,
            ;
        }
        let mut x: usize = 0;
        while x < screen_w as usize
            invariant
                img.wf(),
                render_dims_wf(img.width, img.height, screen_w, screen_h),
                plan.target_w <= 0x1000_0000_0000_0000,
                plan.target_h <= 0x1000_0000_0000_0000,
                -0x1000_0000_0000_0000 <= plan.offset_x <= u32::MAX,
                -0x1000_0000_0000_0000 <= plan.offset_y <= u32::MAX,
                0 <= y < screen_h,
                0 <= x <= screen_w,
                y * (screen_w as int) * 4 + screen_w * 4 <= u32::MAX,
                out@.len() == y * (screen_w as int) * 4 + x * 4,
                forall|i: int|
                    0 <= i < out@.len() ==> out@[i] == spec_render_byte(
                        img.data@,
                        img.width as int,
                        img.height as int,
                        plan.target_w as int,
                        plan.target_h as int,
                        plan.offset_x as int,
                        plan.offset_y as int,
                        i / 4 % screen_w as int,
                        i / 4 / screen_w as int,
                        i % 4,
                    ),
            decreases screen_w - x,
        {
            let tx: i64 = x as i64 - plan.offset_x;
            let ty: i64 = y as i64 - plan.offset_y;
            if 0 <= tx && (tx as u64) < plan.target_w && 0 <= ty && (ty as u64) < plan.target_h {
                proof {
                    assert((tx as int) * (img.width as int) / (plan.target_w as int) < img.width
                        && (tx as int) * (img.width as int) >= 0) by (nonlinear_arith)
                        requires
                            0 <= tx < plan.target_w,
                            img.width >= 1,
                    ;
                    assert((ty as int) * (img.height as int) / (plan.target_h as int) < img.height
                        && (ty as int) * (img.height as int) >= 0) by (nonlinear_arith)
                        requires
                            0 <= ty < plan.target_h,
                            img.height >= 1,
                    ;
                    assert((tx as int) * (img.width as int) <= 0x1000_0000_0000_0000 * 0x1_0000_0000)
                        by (nonlinear_arith)
                        requires
                            0 <= tx < plan.target_w <= 0x1000_0000_0000_0000,
                            img.width <= u32::MAX,
                    ;
                    assert((ty as int) * (img.height as int) <= 0x1000_0000_0000_0000
                        * 0x1_0000_0000) by (nonlinear_arith)
                        requires
                            0 <= ty < plan.target_h <= 0x1000_0000_0000_0000,
                            img.height <= u32::MAX,
                    ;
                }
                let sx: u64 = ((tx as u128) * (img.width as u128) / (plan.target_w as u128)) as u64;
                let sy: u64 = ((ty as u128) * (img.height as u128) / (plan.target_h as u128)) as u64;
                proof {
                    assert((sy as int) * (img.width as int) + (sx as int) < img.height as int
                        * (img.width as int) && ((sy as int) * (img.width as int) + sx) * 4 + 4
                        <= img.width as int * (img.height as int) * 4) by (nonlinear_arith)
                        requires
                            0 <= sx < img.width,
                            0 <= sy < img.height,
                    ;
                }
                let base: usize = ((sy as usize) * (img.width as usize) + (sx as usize)) * 4;
                out.push(img.data[base]);
                out.push(img.data[base + 1]);
                out.push(img.data[base + 2]);
                out.push(img.data[base + 3]);
            } else {
                out.push(0);
                out.push(0);
                out.push(0);
                out.push(255);
            }
            proof {
                let t = y as int * (screen_w as int) + x as int;
                assert(y as int * (screen_w as int) * 4 + x as int * 4 == t * 4)
                    by (nonlinear_arith)
                    requires
                        t == y as int * (screen_w as int) + x as int,
                ;
                assert((t * 4) / 4 == t && (t * 4) % 4 == 0 && (t * 4 + 1) / 4 == t && (t * 4 + 1)
                    % 4 == 1 && (t * 4 + 2) / 4 == t && (t * 4 + 2) % 4 == 2 && (t * 4 + 3) / 4
                    == t && (t * 4 + 3) % 4 == 3) by (nonlinear_arith);
                assert(t % screen_w as int == x as int && t / screen_w as int == y as int)
                    by (nonlinear_arith)
                    requires
                        0 <= x < screen_w,
                        0 <= y,
                        t == y as int * (screen_w as int) + x as int,
                ;
                assert(y as int * (screen_w as int) * 4 + (x as int + 1) * 4 == t * 4 + 4)
                    by (nonlinear_arith)
                    requires
                        t == y as int * (screen_w as int) + x as int,
                ;
            }
            x = x + 1;
        }
        y = y + 1;
    }
    proof {
        assert(out@.len() == screen_h as int * (screen_w as int) * 4);
        assert(screen_h as int * (screen_w as int) * 4 == screen_w as int * (screen_h as int) * 4)
            by (nonlinear_arith);
    }
    out
}

/// Stretch to the exact screen size, ignoring the aspect ratio.
pub fn resize_stretch(img: &RgbaImage, screen_w: u32, screen_h: u32) -> (r: RgbaImage)
    requires
        img.wf(),
        render_dims_wf(img.width, img.height, screen_w, screen_h),
    ensures
        r.wf(),
        r.width == screen_w,
        r.height == screen_h,
        r.data@ == spec_rendered(
            img.data@,
            img.width as int,
            img.height as int,
            screen_w as int,
            screen_h as int,
            ResizeMode::Stretch,
        ),
{
    ImageRenderer::resize(img, screen_w, screen_h, &ResizeMode::Stretch)
}

/// Scale so the whole picture fits, centered on black.
pub fn resize_letterbox(img: &RgbaImage, screen_w: u32, screen_h: u32) -> (r: RgbaImage)
    requires
        img.wf(),
        render_dims_wf(img.width, img.height, screen_w, screen_h),
    ensures
        r.wf(),
        r.width == screen_w,
        r.height == screen_h,
        r.data@ == spec_rendered(
            img.data@,
            img.width as int,
            img.height as int,
            screen_w as int,
            screen_h as int,
            ResizeMode::Letterbox,
        ),
{
    ImageRenderer::resize(img, screen_w, screen_h, &ResizeMode::Letterbox)
}

/// Scale so the picture covers the screen, centered, cropping the overflow.
pub fn resize_fill(img: &RgbaImage, screen_w: u32, screen_h: u32) -> (r: RgbaImage)
    requires
        img.wf(),
        render_dims_wf(img.width, img.height, screen_w, screen_h),
    ensures
        r.wf(),
        r.width == screen_w,
        r.height == screen_h,
        r.data@ == spec_rendered(
            img.data@,
            img.width as int,
            img.height as int,
            screen_w as int,
            screen_h as int,
            ResizeMode::Fill,
        ),
{
    ImageRenderer::resize(img, screen_w, screen_h, &ResizeMode::Fill)
}

/// The animated-picture player's cache: every frame pre-fitted to the
/// screen once, its delay kept, in order.
pub struct GifPlayer {}

impl GifPlayer {
    /// Fits each decoded frame to the screen, keeping order and delays; the
    /// playback loop then alternates pushes and sleeps over this cache.
    pub fn convert_to_image_data_frames(
        frames: &Vec<(RgbaImage, u32)>,
        screen_width: u32,
        screen_height: u32,
        resize_mode: &ResizeMode,
    ) -> (r: Vec<(Vec<u8>, u32)>)
        requires
            forall|i: int|
                0 <= i < frames@.len() ==> (#[trigger] frames@[i].0).wf() && render_dims_wf(
                    frames@[i].0.width,
                    frames@[i].0.height,
                    screen_width,
                    screen_height,
                ),
        ensures
            r@.len() == frames@.len(),
            forall|i: int|
                0 <= i < r@.len() ==> (#[trigger] r@[i].0)@ == spec_rendered(
                    frames@[i].0.data@,
                    frames@[i].0.width as int,
                    frames@[i].0.height as int,
                    screen_width as int,
                    screen_height as int,
                    *resize_mode,
                ) && r@[i].1 == frames@[i].1,
    {
        let mut out: Vec<(Vec<u8>, u32)> = Vec::new();
        let mut i: usize = 0;
        while i < frames.len()
            invariant
                forall|k: int|
                    0 <= k < frames@.len() ==> (#[trigger] frames@[k].0).wf() && render_dims_wf(
                        frames@[k].0.width,
                        frames@[k].0.height,
                        screen_width,
                        screen_height,
                    ),
                0 <= i <= frames@.len(),
                out@.len() == i,
                forall|k: int|
                    0 <= k < out@.len() ==> (#[trigger] out@[k].0)@ == spec_rendered(
                        frames@[k].0.data@,
                        frames@[k].0.width as int,
                        frames@[k].0.height as int,
                        screen_width as int,
                        screen_height as int,
                        *resize_mode,
                    ) && out@[k].1 == frames@[k].1,
            decreases frames@.len() - i,
        {
            let frame = &frames[i];
            let rendered = ImageRenderer::resize(&frame.0, screen_width, screen_height, resize_mode);
            out.push((rendered.data, frame.1));
            i = i + 1;
        }
        out
    }
}

} // verus!
