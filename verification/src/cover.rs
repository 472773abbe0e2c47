//! The player's side of a screen: the cover screen abstraction it renders
//! to, a hardware-less stand-in, and the render paths that push a color bar
//! or a decoded frame. A real screen lives behind a REQ socket; its
//! transport belongs to the edge, which hands complete frames in and takes
//! the accepted ones out.

use vstd::prelude::*;
use crate::colorbar::{spec_colorbar, ColorBar};
use crate::pixel::{self, spec_convert, BppConverter};
use crate::screen::dims_wf;

verus! {

/// A screen the player renders to: fixed dimensions and format, frames
/// accepted whole. `frames` is the abstract history of accepted frames.
pub trait CoverScreen: Sized {
    /// The dimensions stay within the `u32` frame arithmetic.
    spec fn wf(&self) -> bool;

    /// Width in pixels.
    spec fn spec_width(&self) -> u32;

    /// Height in pixels.
    spec fn spec_height(&self) -> u32;

    /// Bits per pixel.
    spec fn spec_bpp(&self) -> u32;

    /// The frames accepted so far, oldest first.
    spec fn frames(&self) -> Seq<Seq<u8>>;

    fn width(&self) -> (r: u32)
        requires
            self.wf(),
        ensures
            r == self.spec_width(),
    ;

    fn height(&self) -> (r: u32)
        requires
            self.wf(),
        ensures
            r == self.spec_height(),
    ;

    fn bpp(&self) -> (r: u32)
        requires
            self.wf(),
        ensures
            r == self.spec_bpp(),
    ;

    /// Pushes one full frame. On success the frame joins the history; on
    /// failure nothing changes but the report.
    fn push_frame(&mut self, frame: &[u8]) -> (r: Result<(), String>)
        requires
            old(self).wf(),
            frame@.len() == old(self).spec_width() as int * old(self).spec_height() as int * old(
                self,
            ).spec_bpp() as int / 8,
        ensures
            final(self).wf(),
            final(self).spec_width() == old(self).spec_width(),
            final(self).spec_height() == old(self).spec_height(),
            final(self).spec_bpp() == old(self).spec_bpp(),
            r is Ok ==> final(self).frames() == old(self).frames().push(frame@),
            r is Err ==> final(self).frames() == old(self).frames(),
    ;
}

/// A cover screen without a socket: it keeps the frames it accepts.
pub struct MockCoverScreen {
    /// Width in pixels.
    pub width: u32,
    /// Height in pixels.
    pub height: u32,
    /// Bits per pixel.
    pub bpp: u32,
    /// The zero-filled working buffer, one frame large.
    pub frame_buffer: Vec<u8>,
    /// Every frame accepted so far.
    pub pushed: Vec<Vec<u8>>,
}

/// A zero-filled frame buffer of exactly `width * height * bpp / 8` bytes.
pub fn create_frame_buffer(width: u32, height: u32, bpp: u32) -> (r: Vec<u8>)
    requires
        dims_wf(width, height, bpp),
    ensures
        r@.len() == width as int * height as int * bpp as int / 8,
        forall|i: int| 0 <= i < r@.len() ==> r@[i] == 0,
{
    let size_in_bytes = (width * height * bpp / 8) as usize;
    let mut r: Vec<u8> = Vec::new();
    let mut i: usize = 0;
    while i < size_in_bytes
        invariant
            0 <= i <= size_in_bytes,
            r@.len() == i,
            forall|m: int| 0 <= m < r@.len() ==> r@[m] == 0,
        decreases size_in_bytes - i,
    {
        r.push(0);
        i = i + 1;
    }
    r
}

impl MockCoverScreen {
    /// A mock cover screen with a zeroed buffer and an empty history.
    pub fn new(width: u32, height: u32, bpp: u32) -> (r: Self)
        requires
            dims_wf(width, height, bpp),
        ensures
            r.wf(),
            r.spec_width() == width,
            r.spec_height() == height,
            r.spec_bpp() == bpp,
            r.frame_buffer@.len() == width as int * height as int * bpp as int / 8,
            forall|i: int| 0 <= i < r.frame_buffer@.len() ==> r.frame_buffer@[i] == 0,
            r.frames() == Seq::<Seq<u8>>::empty(),
    {
        let frame_buffer = create_frame_buffer(width, height, bpp);
        let r = MockCoverScreen { width, height, bpp, frame_buffer, pushed: Vec::new() };
        proof {
            assert(r.frames() =~= Seq::<Seq<u8>>::empty());
        }
        r
    }
}

impl CoverScreen for MockCoverScreen {
    open spec fn wf(&self) -> bool {
        dims_wf(self.width, self.height, self.bpp)
    }

    open spec fn spec_width(&self) -> u32 {
        self.width
    }

    open spec fn spec_height(&self) -> u32 {
        self.height
    }

    open spec fn spec_bpp(&self) -> u32 {
        self.bpp
    }

    open spec fn frames(&self) -> Seq<Seq<u8>> {
        self.pushed@.map_values(|f: Vec<u8>| f@)
    }

    fn width(&self) -> u32 {
        self.width
    }

    fn height(&self) -> u32 {
        self.height
    }

    fn bpp(&self) -> u32 {
        self.bpp
    }

    fn push_frame(&mut self, frame: &[u8]) -> (r: Result<(), String>) {
        self.pushed.push(vstd::slice::slice_to_vec(frame));
        proof {
            assert(self.frames() =~= old(self).frames().push(frame@));
        }
        Ok(())
    }
}

/// Pushes the color bar pattern to a screen: drawn in RGB888, converted to
/// the screen's format, then sent as one frame.
pub fn draw_color_bar<S: CoverScreen>(screen: &mut S) -> (r: Result<(), String>)
    requires
        old(screen).wf(),
        old(screen).spec_width() >= 6,
        old(screen).spec_width() as int * old(screen).spec_height() as int * 4 <= u32::MAX,
        old(screen).spec_bpp() == 16 || old(screen).spec_bpp() == 24 || old(screen).spec_bpp()
            == 32,
    ensures
        final(screen).wf(),
        r is Ok ==> final(screen).frames() == old(screen).frames().push(
            spec_convert(
                spec_colorbar(old(screen).spec_width() as int, old(screen).spec_height() as int),
                24,
                old(screen).spec_bpp() as u8,
            )->0,
        ),
        r is Err ==> final(screen).frames() == old(screen).frames(),
{
    let width = screen.width();
    let height = screen.height();
    let target_bpp = screen.bpp();
    let ghost w = width as int;
    let ghost h = height as int;
    let data = match ColorBar::draw(width, height, target_bpp) {
        Ok(d) => d,
        Err(e) => {
            proof {
                assert(false);
            }
            return Err(String::from_str(e));
        },
    };
    proof {
        let cb = spec_colorbar(w, h);
        assert(cb.len() == w * h * 3);
        if target_bpp == 16 {
            pixel::lemma_conv_24_to_16_len(cb);
            assert(w * h * 3 % 3 == 0 && w * h * 3 / 3 * 2 == w * h * 16 / 8) by (nonlinear_arith);
        } else if target_bpp == 32 {
            pixel::lemma_conv_24_to_32_len(cb);
            assert(w * h * 3 % 3 == 0 && w * h * 3 / 3 * 4 == w * h * 32 / 8) by (nonlinear_arith);
        } else {
            assert(w * h * 3 == w * h * 24 / 8) by (nonlinear_arith);
        }
        assert(data@.len() == w * h * (target_bpp as int) / 8);
    }
    screen.push_frame(data.as_slice())
}

/// The still-image renderer's push path: a decoded RGBA frame of the
/// screen's size, converted to the screen's format and sent whole.
pub fn push_image_data<S: CoverScreen>(screen: &mut S, image_data: &[u8], width: u32, height: u32)
    -> (r: Result<(), String>)
    requires
        old(screen).wf(),
        width == old(screen).spec_width(),
        height == old(screen).spec_height(),
        image_data@.len() == width as int * height as int * 4,
        old(screen).spec_bpp() == 16 || old(screen).spec_bpp() == 24 || old(screen).spec_bpp()
            == 32,
    ensures
        final(screen).wf(),
        r is Ok ==> final(screen).frames() == old(screen).frames().push(
            spec_convert(image_data@, 32, old(screen).spec_bpp() as u8)->0,
        ),
        r is Err ==> final(screen).frames() == old(screen).frames(),
{
    let bpp = screen.bpp();
    let ghost w = width as int;
    let ghost h = height as int;
    proof {
        assert(w * h * 4 % 4 == 0) by (nonlinear_arith);
    }
    let converted = if bpp != 32 {
        match BppConverter::convert(image_data, width, height, 32, bpp as u8) {
            Ok(d) => d,
            Err(e) => {
                proof {
                    assert(false);
                }
                return Err(String::from_str(e));
            },
        }
    } else {
        vstd::slice::slice_to_vec(image_data)
    };
    proof {
        if bpp == 16 {
            pixel::lemma_conv_32_to_16_len(image_data@);
            assert(w * h * 4 / 4 * 2 == w * h * 16 / 8) by (nonlinear_arith);
        } else if bpp == 24 {
            pixel::lemma_conv_32_to_24_len(image_data@);
            assert(w * h * 4 / 4 * 3 == w * h * 24 / 8) by (nonlinear_arith);
        } else {
            assert(w * h * 4 == w * h * 32 / 8) by (nonlinear_arith);
        }
        assert(converted@.len() == w * h * (bpp as int) / 8);
        assert(converted@ == spec_convert(image_data@, 32, bpp as u8)->0);
    }
    screen.push_frame(converted.as_slice())
}

} // verus!
