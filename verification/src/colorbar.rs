//! The SMPTE ECR-1978 color bar test pattern, drawn in 24 bpp RGB888 and
//! convertible to the target screen format.

use vstd::prelude::*;
use crate::pixel;

verus! {

/// The seven 75%-luma bars of the top two thirds: white, yellow, cyan, green,
/// magenta, red, blue.
pub open spec fn spec_top_color(i: int) -> (u8, u8, u8) {
    if i == 0 {
        (192, 192, 192)
    } else if i == 1 {
        (192, 192, 0)
    } else if i == 2 {
        (0, 192, 192)
    } else if i == 3 {
        (0, 192, 0)
    } else if i == 4 {
        (192, 0, 192)
    } else if i == 5 {
        (192, 0, 0)
    } else {
        (0, 0, 192)
    }
}

/// The castellation strip below the bars: blue, black, magenta, black, cyan,
/// black, gray.
pub open spec fn spec_castellation_color(i: int) -> (u8, u8, u8) {
    if i == 0 {
        (0, 0, 255)
    } else if i == 1 {
        (0, 0, 0)
    } else if i == 2 {
        (255, 0, 255)
    } else if i == 3 {
        (0, 0, 0)
    } else if i == 4 {
        (0, 255, 255)
    } else if i == 5 {
        (0, 0, 0)
    } else {
        (192, 192, 192)
    }
}

/// The bottom strip: -I dark blue, white, +Q dark purple, black, then the
/// three PLUGE stripes split in thirds of a block.
pub open spec fn spec_bottom_color(x: int, w: int) -> (u8, u8, u8) {
    let bw = w / 6;
    let block = x / bw;
    let rel_x = x % bw;
    let third = bw / 3;
    if block == 0 {
        (0, 33, 76)
    } else if block == 1 {
        (192, 192, 192)
    } else if block == 2 {
        (50, 0, 106)
    } else if block == 3 {
        (0, 0, 0)
    } else if block <= 6 {
        if rel_x < third {
            (9, 9, 9)
        } else if rel_x < 2 * third {
            (19, 19, 19)
        } else {
            (29, 29, 29)
        }
    } else {
        (0, 0, 0)
    }
}

/// The bar index covering column `x` when the pattern is split in seven:
/// the rightmost bar absorbs the remainder columns.
pub open spec fn spec_bar_index(x: int, w: int) -> int {
    let bw = w / 7;
    if bw == 0 || x / bw > 6 {
        6
    } else {
        x / bw
    }
}

/// The color of the pattern at `(x, y)` on a `w` by `h` canvas.
pub open spec fn spec_colorbar_pixel(x: int, y: int, w: int, h: int) -> (u8, u8, u8) {
    let top_h = h * 2 / 3;
    let mid_h = h / 12;
    if y < top_h {
        spec_top_color(spec_bar_index(x, w))
    } else if y < top_h + mid_h {
        spec_castellation_color(spec_bar_index(x, w))
    } else {
        spec_bottom_color(x, w)
    }
}

/// One channel of a color: red, green, then blue.
pub open spec fn channel(px: (u8, u8, u8), c: int) -> u8 {
    if c == 0 {
        px.0
    } else if c == 1 {
        px.1
    } else {
        px.2
    }
}

/// The whole pattern as packed RGB888 bytes, three per pixel, rows first.
pub open spec fn spec_colorbar(w: int, h: int) -> Seq<u8> {
    Seq::new((w * h * 3) as nat, |i: int| channel(spec_colorbar_pixel(i / 3 % w, i / 3 / w, w, h), i % 3))
}

/// The bottom strip color of column `x`, as the pattern's lowest band shows
/// it.
pub fn get_bottom_bar_color(x: usize, width: usize) -> (r: (u8, u8, u8))
    requires
        width >= 6,
    ensures
        r == spec_bottom_color(x as int, width as int),
{
    let block_width = width / 6;
    let block = x / block_width;
    let rel_x = x % block_width;

    if block == 0 {
        (0, 33, 76)
    } else if block == 1 {
        (192, 192, 192)
    } else if block == 2 {
        (50, 0, 106)
    } else if block == 3 {
        (0, 0, 0)
    } else if block <= 6 {
        let third = block_width / 3;
        if rel_x < third {
            (9, 9, 9)
        } else if rel_x < 2 * third {
            (19, 19, 19)
        } else {
            (29, 29, 29)
        }
    } else {
        (0, 0, 0)
    }
}

/// The color of one column in the seven-bar strips.
fn bar_strip_color(x: usize, width: usize, castellation: bool) -> (r: (u8, u8, u8))
    ensures
        !castellation ==> r == spec_top_color(spec_bar_index(x as int, width as int)),
        castellation ==> r == spec_castellation_color(spec_bar_index(x as int, width as int)),
{
    let bw = width / 7;
    let i: usize = if bw == 0 || x / bw > 6 {
        6
    } else {
        x / bw
    };
    if castellation {
        if i == 0 {
            (0, 0, 255)
        } else if i == 1 {
            (0, 0, 0)
        } else if i == 2 {
            (255, 0, 255)
        } else if i == 3 {
            (0, 0, 0)
        } else if i == 4 {
            (0, 255, 255)
        } else if i == 5 {
            (0, 0, 0)
        } else {
            (192, 192, 192)
        }
    } else {
        if i == 0 {
            (192, 192, 192)
        } else if i == 1 {
            (192, 192, 0)
        } else if i == 2 {
            (0, 192, 192)
        } else if i == 3 {
            (0, 192, 0)
        } else if i == 4 {
            (192, 0, 192)
        } else if i == 5 {
            (192, 0, 0)
        } else {
            (0, 0, 192)
        }
    }
}

/// Draws the full pattern as a fresh RGB888 buffer of `width * height`
/// pixels, rows first.
pub fn draw_smpte_ecr1978_rgb888(width: usize, height: usize) -> (fb: Vec<u8>)
    requires
        width >= 6,
        width * height * 3 <= usize::MAX,
    ensures
        fb@ == spec_colorbar(width as int, height as int),
{
    let mut fb: Vec<u8> = Vec::new();
    proof {
        assert(height * 2 <= usize::MAX) by (nonlinear_arith)
            requires
                width >= 6,
                width * height * 3 <= usize::MAX,
        ;
    }
    let top_height = height * 2 / 3;
    let mid_height = height / 12;
    let mut y: usize = 0;
    while y < height
        invariant
            width >= 6,
            width * height * 3 <= usize::MAX,
            top_height == height * 2 / 3,
            mid_height == height / 12,
            0 <= y <= height,
            fb@.len() == y * width * 3,
            forall|j: int|
                0 <= j < fb@.len() ==> fb@[j] == channel(
                    spec_colorbar_pixel(j / 3 % width as int, j / 3 / width as int, width as int, height as int),
                    j % 3,
                ),
        decreases height - y,
    {
        let mut x: usize = 0;
        proof {
            assert((y + 1) * width * 3 <= height * width * 3 && height * width * 3 == width
                * height * 3 && y * width * 3 + width * 3 == (y + 1) * width * 3)
                by (nonlinear_arith)
                requires
                    y < height,
            ;
        }
        while x < width
            invariant
                width >= 6,
                width * height * 3 <= usize::MAX,
                top_height == height * 2 / 3,
                mid_height == height / 12,
                0 <= y < height,
                0 <= x <= width,
                y * width * 3 + width * 3 <= usize::MAX,
                fb@.len() == y * width * 3 + x * 3,
                forall|j: int|
                    0 <= j < fb@.len() ==> fb@[j] == channel(
                        spec_colorbar_pixel(j / 3 % width as int, j / 3 / width as int, width as int, height as int),
                        j % 3,
                    ),
        decreases width - x,
        {
            let (r, g, b) = if y < top_height {
                bar_strip_color(x, width, false)
            } else if y < top_height + mid_height {
                bar_strip_color(x, width, true)
            } else {
                get_bottom_bar_color(x, width)
            };
            proof {
                assert(x * 3 + 3 <= width * 3) by (nonlinear_arith)
                    requires
                        x < width,
                ;
            }
            fb.push(r);
            fb.push(g);
            fb.push(b);
            proof {
                let t = y as int * width as int + x as int;
                assert(y as int * width as int * 3 + x as int * 3 == t * 3) by (nonlinear_arith)
                    requires
                        t == y as int * width as int + x as int,
                ;
                assert((t * 3) / 3 == t && (t * 3) % 3 == 0 && (t * 3 + 1) / 3 == t && (t * 3 + 1)
                    % 3 == 1 && (t * 3 + 2) / 3 == t && (t * 3 + 2) % 3 == 2) by (nonlinear_arith);
                assert(t % width as int == x as int && t / width as int == y as int)
                    by (nonlinear_arith)
                    requires
                        0 <= x < width,
                        0 <= y,
                        t == y as int * width as int + x as int,
                ;
                assert(fb@[t * 3] == channel(
                    spec_colorbar_pixel(x as int, y as int, width as int, height as int),
                    0,
                ));
                assert(fb@[t * 3 + 1] == channel(
                    spec_colorbar_pixel(x as int, y as int, width as int, height as int),
                    1,
                ));
                assert(fb@[t * 3 + 2] == channel(
                    spec_colorbar_pixel(x as int, y as int, width as int, height as int),
                    2,
                ));
                assert(y as int * width as int * 3 + (x as int + 1) * 3 == t * 3 + 3)
                    by (nonlinear_arith)
                    requires
                        t == y as int * width as int + x as int,
                ;
            }
            x = x + 1;
        }
        y = y + 1;
    }
    proof {
        assert(height as int * width as int * 3 == width as int * height as int * 3)
            by (nonlinear_arith);
        assert(fb@ =~= spec_colorbar(width as int, height as int));
    }
    fb
}

/// The color bar renderer: the pattern above, delivered in the target
/// screen's pixel format.
pub struct ColorBar {}

impl ColorBar {
    /// Draws the pattern for a `width` by `height` screen of `target_bpp`
    /// bits per pixel: the RGB888 pattern, converted when the target format
    /// differs.
    pub fn draw(width: u32, height: u32, target_bpp: u32) -> (r: Result<Vec<u8>, &'static str>)
        requires
            width >= 6,
            width * height * 4 <= u32::MAX,
        ensures
            match r {
                Ok(out) => pixel::spec_convert(
                    spec_colorbar(width as int, height as int),
                    24,
                    target_bpp as u8,
                ) == Some(out@),
                Err(e) => pixel::spec_convert(
                    spec_colorbar(width as int, height as int),
                    24,
                    target_bpp as u8,
                ) is None,
            },
    {
        proof {
            assert(width * height * 3 <= width * height * 4 <= u32::MAX <= usize::MAX)
                by (nonlinear_arith)
                requires
                    width * height * 4 <= u32::MAX,
            ;
        }
        let fb = draw_smpte_ecr1978_rgb888(width as usize, height as usize);
        proof {
            assert(spec_colorbar(width as int, height as int).len() == width * height * 3);
            assert(width as int * (height as int) * 3 % 3 == 0) by (nonlinear_arith);
        }
        if target_bpp == 24 {
            Ok(fb)
        } else {
            pixel::BppConverter::convert(fb.as_slice(), width, height, 24, target_bpp as u8)
        }
    }
}

} // verus!
