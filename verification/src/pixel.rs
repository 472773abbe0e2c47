//! Pixel format conversion between the packed framebuffer formats: 16 bpp
//! little-endian RGB565, 24 bpp RGB888 and 32 bpp RGBA8888.

use vstd::prelude::*;

verus! {

/// RGB565 packing: `((R & 0xF8) << 8) | ((G & 0xFC) << 3) | (B >> 3)`.
pub open spec fn spec_rgb565(r: u8, g: u8, b: u8) -> u16 {
    (((r as u16) & 0xF8) << 8) | (((g as u16) & 0xFC) << 3) | ((b as u16) >> 3)
}

/// The red channel recovered from a packed RGB565 value.
pub open spec fn spec_rgb565_r(x: u16) -> u8 {
    ((x >> 8) & 0xF8) as u8
}

/// The green channel recovered from a packed RGB565 value.
pub open spec fn spec_rgb565_g(x: u16) -> u8 {
    ((x >> 3) & 0xFC) as u8
}

/// The blue channel recovered from a packed RGB565 value.
pub open spec fn spec_rgb565_b(x: u16) -> u8 {
    ((x << 3) & 0xF8) as u8
}

/// Packs one RGB888 pixel into RGB565.
pub fn rgb888_to_rgb565(r: u8, g: u8, b: u8) -> (x: u16)
    ensures
        x == spec_rgb565(r, g, b),
{
    ((r as u16 & 0xF8) << 8) | ((g as u16 & 0xFC) << 3) | (b as u16 >> 3)
}

/// Unpacks one RGB565 pixel into RGB888, widening each channel with zeros.
pub fn rgb565_to_rgb888(rgb565: u16) -> (rgb: (u8, u8, u8))
    ensures
        rgb.0 == spec_rgb565_r(rgb565),
        rgb.1 == spec_rgb565_g(rgb565),
        rgb.2 == spec_rgb565_b(rgb565),
{
    let r = ((rgb565 >> 8) & 0xF8) as u8;
    let g = ((rgb565 >> 3) & 0xFC) as u8;
    let b = ((rgb565 << 3) & 0xF8) as u8;
    (r, g, b)
}

/// Packing the channels recovered from a packed value gives that value back:
/// one RGB565 -> RGB888 -> RGB565 round trip is the identity, so a second
/// conversion of the widened channels is stable.
pub proof fn lemma_rgb565_round_trip(x: u16)
    ensures
        spec_rgb565(spec_rgb565_r(x), spec_rgb565_g(x), spec_rgb565_b(x)) == x,
{
    assert((((((x >> 8) & 0xF8) as u8 as u16) & 0xF8) << 8) | (((((x >> 3) & 0xFC) as u8 as u16)
        & 0xFC) << 3) | ((((x << 3) & 0xF8) as u8 as u16) >> 3) == x) by (bit_vector);
}

/// RGB888 -> RGB565 truncates the low bits of each channel monotonically:
/// channel-wise larger RGB888 pixels never pack to a smaller RGB565 value.
pub proof fn lemma_rgb565_monotone(r1: u8, g1: u8, b1: u8, r2: u8, g2: u8, b2: u8)
    requires
        r1 <= r2,
        g1 <= g2,
        b1 <= b2,
    ensures
        spec_rgb565(r1, g1, b1) <= spec_rgb565(r2, g2, b2),
{
    assert((((r1 as u16) & 0xF8) << 8) | (((g1 as u16) & 0xFC) << 3) | ((b1 as u16) >> 3) <= (((
    r2 as u16) & 0xF8) << 8) | (((g2 as u16) & 0xFC) << 3) | ((b2 as u16) >> 3)) by (bit_vector)
        requires
            r1 <= r2,
            g1 <= g2,
            b1 <= b2,
    ;
}

/// 24 bpp RGB expanded to 32 bpp RGBA with an opaque alpha byte per pixel.
pub open spec fn conv_24_to_32(s: Seq<u8>) -> Seq<u8>
    decreases s.len(),
{
    if s.len() < 3 {
        Seq::empty()
    } else {
        conv_24_to_32(s.take(s.len() - 3)) + seq![
            s[s.len() - 3],
            s[s.len() - 2],
            s[s.len() - 1],
            255u8,
        ]
    }
}

/// 32 bpp RGBA narrowed to 24 bpp RGB, dropping the alpha byte.
pub open spec fn conv_32_to_24(s: Seq<u8>) -> Seq<u8>
    decreases s.len(),
{
    if s.len() < 4 {
        Seq::empty()
    } else {
        conv_32_to_24(s.take(s.len() - 4)) + seq![s[s.len() - 4], s[s.len() - 3], s[s.len() - 2]]
    }
}

/// The two little-endian bytes of one packed RGB565 pixel.
pub open spec fn rgb565_le_bytes(r: u8, g: u8, b: u8) -> Seq<u8> {
    seq![(spec_rgb565(r, g, b) & 0xFF) as u8, (spec_rgb565(r, g, b) >> 8) as u8]
}

/// 24 bpp RGB packed into little-endian RGB565.
pub open spec fn conv_24_to_16(s: Seq<u8>) -> Seq<u8>
    decreases s.len(),
{
    if s.len() < 3 {
        Seq::empty()
    } else {
        conv_24_to_16(s.take(s.len() - 3)) + rgb565_le_bytes(
            s[s.len() - 3],
            s[s.len() - 2],
            s[s.len() - 1],
        )
    }
}

/// 32 bpp RGBA packed into little-endian RGB565, dropping the alpha byte.
pub open spec fn conv_32_to_16(s: Seq<u8>) -> Seq<u8>
    decreases s.len(),
{
    if s.len() < 4 {
        Seq::empty()
    } else {
        conv_32_to_16(s.take(s.len() - 4)) + rgb565_le_bytes(
            s[s.len() - 4],
            s[s.len() - 3],
            s[s.len() - 2],
        )
    }
}

/// Little-endian RGB565 widened to 24 bpp RGB.
pub open spec fn conv_16_to_24(s: Seq<u8>) -> Seq<u8>
    decreases s.len(),
{
    if s.len() < 2 {
        Seq::empty()
    } else {
        let x = (s[s.len() - 2] as u16) | ((s[s.len() - 1] as u16) << 8);
        conv_16_to_24(s.take(s.len() - 2)) + seq![
            spec_rgb565_r(x),
            spec_rgb565_g(x),
            spec_rgb565_b(x),
        ]
    }
}

/// What `BppConverter::convert` yields for each supported combination.
pub open spec fn spec_convert(s: Seq<u8>, src_bpp: u8, dst_bpp: u8) -> Option<Seq<u8>> {
    if src_bpp / 8 == dst_bpp / 8 {
        Some(s)
    } else if src_bpp == 24 && dst_bpp == 32 {
        Some(conv_24_to_32(s))
    } else if src_bpp == 32 && dst_bpp == 24 {
        Some(conv_32_to_24(s))
    } else if src_bpp == 24 && dst_bpp == 16 {
        Some(conv_24_to_16(s))
    } else if src_bpp == 16 && dst_bpp == 24 {
        Some(conv_16_to_24(s))
    } else if src_bpp == 32 && dst_bpp == 16 {
        Some(conv_32_to_16(s))
    } else {
        None
    }
}

pub proof fn lemma_conv_24_to_32_len(s: Seq<u8>)
    requires
        s.len() % 3 == 0,
    ensures
        conv_24_to_32(s).len() == s.len() / 3 * 4,
    decreases s.len(),
{
    if s.len() >= 3 {
        lemma_conv_24_to_32_len(s.take(s.len() - 3));
    }
}

pub proof fn lemma_conv_32_to_24_len(s: Seq<u8>)
    requires
        s.len() % 4 == 0,
    ensures
        conv_32_to_24(s).len() == s.len() / 4 * 3,
    decreases s.len(),
{
    if s.len() >= 4 {
        lemma_conv_32_to_24_len(s.take(s.len() - 4));
    }
}

pub proof fn lemma_conv_24_to_16_len(s: Seq<u8>)
    requires
        s.len() % 3 == 0,
    ensures
        conv_24_to_16(s).len() == s.len() / 3 * 2,
    decreases s.len(),
{
    if s.len() >= 3 {
        lemma_conv_24_to_16_len(s.take(s.len() - 3));
    }
}

pub proof fn lemma_conv_32_to_16_len(s: Seq<u8>)
    requires
        s.len() % 4 == 0,
    ensures
        conv_32_to_16(s).len() == s.len() / 4 * 2,
    decreases s.len(),
{
    if s.len() >= 4 {
        lemma_conv_32_to_16_len(s.take(s.len() - 4));
    }
}

pub proof fn lemma_conv_16_to_24_len(s: Seq<u8>)
    requires
        s.len() % 2 == 0,
    ensures
        conv_16_to_24(s).len() == s.len() / 2 * 3,
    decreases s.len(),
{
    if s.len() >= 2 {
        lemma_conv_16_to_24_len(s.take(s.len() - 2));
    }
}

/// Converter between the packed pixel formats of the framebuffer devices.
pub struct BppConverter {}

impl BppConverter {
    /// Converts raw image data between bits-per-pixel formats. The supported
    /// matrix is {24, 32} -> {16, 24, 32} and 16 -> 24; equal byte widths are
    /// returned as a copy, and any other combination is rejected.
    pub fn convert(data: &[u8], width: u32, height: u32, src_bpp: u8, dst_bpp: u8) -> (r: Result<
        Vec<u8>,
        &'static str,
    >)
        requires
            src_bpp == 24 && (dst_bpp == 32 || dst_bpp == 16) ==> data@.len() % 3 == 0,
            src_bpp == 32 && (dst_bpp == 24 || dst_bpp == 16) ==> data@.len() % 4 == 0,
            src_bpp == 16 && dst_bpp == 24 ==> data@.len() % 2 == 0,
        ensures
            match r {
                Ok(out) => spec_convert(data@, src_bpp, dst_bpp) == Some(out@),
                Err(e) => spec_convert(data@, src_bpp, dst_bpp) is None && e@
                    == "Unsupported bpp conversion"@,
            },
            r is Ok <==> spec_convert(data@, src_bpp, dst_bpp) is Some,
    {
        let src_bytes_per_pixel = src_bpp / 8;
        let dst_bytes_per_pixel = dst_bpp / 8;

        if src_bytes_per_pixel == dst_bytes_per_pixel {
            return Ok(vstd::slice::slice_to_vec(data));
        }

        if src_bpp == 24 && dst_bpp == 32 {
            let mut out: Vec<u8> = Vec::new();
            let mut i: usize = 0;
            while i < data.len()
                invariant
                    i % 3 == 0,
                    i <= data@.len(),
                    data@.len() % 3 == 0,
                    out@ == conv_24_to_32(data@.take(i as int)),
                decreases data@.len() - i,
            {
                out.push(*vstd::slice::slice_index_get(data, i));
                out.push(*vstd::slice::slice_index_get(data, i + 1));
                out.push(*vstd::slice::slice_index_get(data, i + 2));
                out.push(255);
                proof {
                    let t = data@.take(i + 3);
                    assert(t.take(t.len() - 3) =~= data@.take(i as int));
                    assert(out@ =~= conv_24_to_32(data@.take(i + 3)));
                }
                i = i + 3;
            }
            proof {
                assert(data@.take(data@.len() as int) =~= data@);
            }
            Ok(out)
        } else if src_bpp == 32 && dst_bpp == 24 {
            let mut out: Vec<u8> = Vec::new();
            let mut i: usize = 0;
            while i < data.len()
                invariant
                    i % 4 == 0,
                    i <= data@.len(),
                    data@.len() % 4 == 0,
                    out@ == conv_32_to_24(data@.take(i as int)),
                decreases data@.len() - i,
            {
                out.push(*vstd::slice::slice_index_get(data, i));
                out.push(*vstd::slice::slice_index_get(data, i + 1));
                out.push(*vstd::slice::slice_index_get(data, i + 2));
                proof {
                    let t = data@.take(i + 4);
                    assert(t.take(t.len() - 4) =~= data@.take(i as int));
                    assert(out@ =~= conv_32_to_24(data@.take(i + 4)));
                }
                i = i + 4;
            }
            proof {
                assert(data@.take(data@.len() as int) =~= data@);
            }
            Ok(out)
        } else if src_bpp == 24 && dst_bpp == 16 {
            let mut out: Vec<u8> = Vec::new();
            let mut i: usize = 0;
            while i < data.len()
                invariant
                    i % 3 == 0,
                    i <= data@.len(),
                    data@.len() % 3 == 0,
                    out@ == conv_24_to_16(data@.take(i as int)),
                decreases data@.len() - i,
            {
                let r = *vstd::slice::slice_index_get(data, i);
                let g = *vstd::slice::slice_index_get(data, i + 1);
                let b = *vstd::slice::slice_index_get(data, i + 2);
                let rgb565 = rgb888_to_rgb565(r, g, b);
                out.push((rgb565 & 0xFF) as u8);
                out.push((rgb565 >> 8) as u8);
                proof {
                    let t = data@.take(i + 3);
                    assert(t.take(t.len() - 3) =~= data@.take(i as int));
                    assert(out@ =~= conv_24_to_16(data@.take(i + 3)));
                }
                i = i + 3;
            }
            proof {
                assert(data@.take(data@.len() as int) =~= data@);
            }
            Ok(out)
        } else if src_bpp == 16 && dst_bpp == 24 {
            let mut out: Vec<u8> = Vec::new();
            let mut i: usize = 0;
            while i < data.len()
                invariant
                    i % 2 == 0,
                    i <= data@.len(),
                    data@.len() % 2 == 0,
                    out@ == conv_16_to_24(data@.take(i as int)),
                decreases data@.len() - i,
            {
                let lo = *vstd::slice::slice_index_get(data, i);
                let hi = *vstd::slice::slice_index_get(data, i + 1);
                let rgb565 = (lo as u16) | ((hi as u16) << 8);
                let (r, g, b) = rgb565_to_rgb888(rgb565);
                out.push(r);
                out.push(g);
                out.push(b);
                proof {
                    let t = data@.take(i + 2);
                    assert(t.take(t.len() - 2) =~= data@.take(i as int));
                    assert(out@ =~= conv_16_to_24(data@.take(i + 2)));
                }
                i = i + 2;
            }
            proof {
                assert(data@.take(data@.len() as int) =~= data@);
            }
            Ok(out)
        } else if src_bpp == 32 && dst_bpp == 16 {
            let mut out: Vec<u8> = Vec::new();
            let mut i: usize = 0;
            while i < data.len()
                invariant
                    i % 4 == 0,
                    i <= data@.len(),
                    data@.len() % 4 == 0,
                    out@ == conv_32_to_16(data@.take(i as int)),
                decreases data@.len() - i,
            {
                let r = *vstd::slice::slice_index_get(data, i);
                let g = *vstd::slice::slice_index_get(data, i + 1);
                let b = *vstd::slice::slice_index_get(data, i + 2);
                let rgb565 = rgb888_to_rgb565(r, g, b);
                out.push((rgb565 & 0xFF) as u8);
                out.push((rgb565 >> 8) as u8);
                proof {
                    let t = data@.take(i + 4);
                    assert(t.take(t.len() - 4) =~= data@.take(i as int));
                    assert(out@ =~= conv_32_to_16(data@.take(i + 4)));
                }
                i = i + 4;
            }
            proof {
                assert(data@.take(data@.len() as int) =~= data@);
            }
            Ok(out)
        } else {
            Err("Unsupported bpp conversion")
        }
    }
}

} // verus!
