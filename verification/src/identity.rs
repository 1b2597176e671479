//! The identity (GBR) colour path: the only encode path on which an image,
//! not merely its coded planes, can be lossless. Encoding places G, B and R
//! in the Y, U and V planes without a matrix; decoding reads them back,
//! expanding studio range when the stream signals it.

use vstd::prelude::*;
use vstd::arithmetic::power2::{pow2, lemma2_to64, lemma_pow2_adds, lemma_pow2_pos, lemma_pow2_strictly_increases};
use vstd::bits::{lemma_u16_shl_is_mul, lemma_u16_shr_is_div, lemma_u32_shl_is_mul};
use vstd::arithmetic::div_mod::lemma_fundamental_div_mod_converse;
use crate::pixels::{Rgb16, Rgb8, Rgba16, Rgba8};

verus! {

/// An 8-bit sample scaled to `bit_depth` bits by bit replication:
/// `c * 2^s + c / 2^(8 - s)` with `s = bit_depth - 8`, so 0 stays 0 and 255
/// becomes the new maximum.
pub open spec fn scale_8_spec(c: u8, bit_depth: u8) -> int {
    let s = (bit_depth - 8) as nat;
    (c as int) * (pow2(s) as int) + (c as int) / (pow2((8 - s) as nat) as int)
}

/// `2^e` for `e <= 16`: positive, at most `2^16`, and complementary to `2^(k - e)`.
proof fn lemma_pow2_small(e: nat, k: nat)
    requires
        e <= k <= 16,
    ensures
        1 <= pow2(e) <= pow2(k) <= 65536,
        pow2(e) * pow2((k - e) as nat) == pow2(k),
{
    lemma2_to64();
    lemma_pow2_pos(e);
    if e < k {
        lemma_pow2_strictly_increases(e, k);
    }
    if k < 16 {
        lemma_pow2_strictly_increases(k, 16);
    }
    lemma_pow2_adds(e, (k - e) as nat);
}

/// Scale an 8-bit sample to a coded depth of `bit_depth` bits (scaling, not
/// widening: 255 must map to the new maximum for a lossless round trip).
pub fn scale_8_to_depth(c: u8, bit_depth: u8) -> (r: u16)
    requires
        8 <= bit_depth <= 16,
    ensures
        r == scale_8_spec(c, bit_depth),
{
    let shift: u16 = (bit_depth - 8) as u16;
    let c16: u16 = c as u16;
    proof {
        lemma2_to64();
        lemma_pow2_small(shift as nat, 8);
        lemma_pow2_small((8 - shift) as nat, 8);
    }
    if shift == 0 {
        proof {
            lemma2_to64();
            assert((c16 as int) / (pow2(8) as int) == 0);
            assert(scale_8_spec(c, bit_depth) == c);
        }
        c16
    } else {
        proof {
            assert(c16 * pow2(shift as nat) <= 255 * 256) by (nonlinear_arith)
                requires c16 <= 255, pow2(shift as nat) <= 256;
            lemma_u16_shl_is_mul(c16, shift);
            lemma_u16_shr_is_div(c16, (8 - shift) as u16);
            assert((c16 << shift) | (c16 >> ((8 - shift) as u16)) == (c16 << shift) + (c16 >> ((8 - shift) as u16)))
                by (bit_vector)
                requires c16 < 256, 1 <= shift <= 8;
            let r = (c16 << shift) | (c16 >> ((8 - shift) as u16));
            assert(r == (c16 as nat) * pow2(shift as nat) + (c16 as nat) / pow2((8 - shift) as nat));
            assert(scale_8_spec(c, bit_depth) == (c16 as nat) * pow2(shift as nat) + (c16 as nat) / pow2((8 - shift) as nat));
        }
        (c16 << shift) | (c16 >> (8 - shift))
    }
}

/// Scaling is lossless: shifting the coded sample back down recovers the
/// 8-bit value, 0 stays 0, and 255 becomes the coded maximum.
pub proof fn law_scale_8_lossless(c: u8, bit_depth: u8)
    requires
        8 <= bit_depth <= 16,
    ensures
        scale_8_spec(c, bit_depth) / (pow2((bit_depth - 8) as nat) as int) == c,
        scale_8_spec(0, bit_depth) == 0,
        scale_8_spec(255, bit_depth) == pow2(bit_depth as nat) - 1,
        scale_8_spec(c, bit_depth) < pow2(bit_depth as nat),
{
    let s = (bit_depth - 8) as nat;
    let p = pow2(s) as int;
    let q = pow2((8 - s) as nat) as int;
    let ci = c as int;
    lemma_pow2_small(s, 8);
    lemma_pow2_small((8 - s) as nat, 8);
    lemma2_to64();
    assert(p * q == 256);
    assert(ci / q < p) by (nonlinear_arith) requires 0 <= ci <= 255, p * q == 256, q >= 1, p >= 1;
    assert(0 <= ci / q) by (nonlinear_arith) requires 0 <= ci, q >= 1;
    assert((ci * p + ci / q) / p == ci) by (nonlinear_arith)
        requires 0 <= ci / q < p, p >= 1, ci >= 0;
    assert(255int / q == p - 1) by (nonlinear_arith) requires p * q == 256, q >= 1, p >= 1;
    lemma_pow2_adds(s, 8);
    assert(pow2(bit_depth as nat) == p * 256);
    assert(ci * p + ci / q < p * 256) by (nonlinear_arith)
        requires 0 <= ci <= 255, 0 <= ci / q < p;
}

/// Scaling preserves order.
pub proof fn law_scale_8_monotone(a: u8, b: u8, bit_depth: u8)
    requires
        a <= b,
        8 <= bit_depth <= 16,
    ensures
        scale_8_spec(a, bit_depth) <= scale_8_spec(b, bit_depth),
{
    let s = (bit_depth - 8) as nat;
    lemma_pow2_small(s, 8);
    lemma_pow2_small((8 - s) as nat, 8);
    let p = pow2(s) as int;
    let q = pow2((8 - s) as nat) as int;
    let ai = a as int;
    let bi = b as int;
    assert(ai * p + ai / q <= bi * p + bi / q) by (nonlinear_arith)
        requires 0 <= ai <= bi, p >= 1, q >= 1;
}

/// A decoded identity sample: full range passes through; studio range
/// (`16..=235` scaled to the depth) is clamped and expanded to the full
/// `0..=2^bit_depth - 1`, rounding to nearest.
pub open spec fn expand_spec(v: u16, bit_depth: u8, limited: bool) -> int {
    if !limited {
        v as int
    } else {
        let sc = pow2((bit_depth - 8) as nat) as int;
        let smin = 16 * sc;
        let span = 219 * sc;
        let max = pow2(bit_depth as nat) - 1;
        let c: int = if v < smin { 0 } else if v - smin > span { span } else { v - smin };
        (c * max + span / 2) / span
    }
}

/// Expand one decoded identity sample of a `bit_depth`-bit stream.
pub fn expand_identity_sample(v: u16, bit_depth: u8, limited: bool) -> (r: u16)
    requires
        8 <= bit_depth <= 16,
    ensures
        r == expand_spec(v, bit_depth, limited),
{
    if !limited {
        return v;
    }
    let shift: u32 = (bit_depth - 8) as u32;
    proof {
        lemma2_to64();
        lemma_pow2_small(shift as nat, 8);
        lemma_pow2_small(bit_depth as nat, 16);
        lemma_u32_shl_is_mul(1, bit_depth as u32);
        assert(16 * pow2(shift as nat) <= 4096 && 219 * pow2(shift as nat) <= 56064) by (nonlinear_arith)
            requires pow2(shift as nat) <= 256;
        lemma_u32_shl_is_mul(16, shift);
        lemma_u32_shl_is_mul(219, shift);
    }
    let max: u32 = (1u32 << (bit_depth as u32)) - 1;
    let smin: u32 = 16u32 << shift;
    let span: u32 = 219u32 << shift;
    let vv: u32 = v as u32;
    let c0: u32 = if vv > smin { vv - smin } else { 0 };
    let c: u32 = if c0 < span { c0 } else { span };
    proof {
        assert(c * max <= 56064 * 65535) by (nonlinear_arith) requires c <= span, span <= 56064, max <= 65535;
        assert(span >= 219) by (nonlinear_arith) requires span == 219 * pow2(shift as nat), pow2(shift as nat) >= 1;
        let ci = c as int;
        let mi = max as int;
        let si = span as int;
        assert((ci * mi + si / 2) / si <= mi) by (nonlinear_arith)
            requires ci <= si, si >= 219, mi >= 0;
    }
    ((c * max + span / 2) / span) as u16
}

/// Expand one decoded 8-bit identity sample.
pub fn expand_identity_8(v: u8, limited: bool) -> (r: u8)
    ensures
        r == expand_spec(v as u16, 8, limited),
{
    proof {
        lemma2_to64();
    }
    if limited {
        let c0: u32 = if v > 16 { (v - 16) as u32 } else { 0 };
        let c: u32 = if c0 < 219 { c0 } else { 219 };
        ((c * 255 + 109) / 219) as u8
    } else {
        v
    }
}

/// Studio-range expansion maps black to 0, white to the maximum, and
/// preserves order; full range is the identity.
pub proof fn law_expand_endpoints_monotone(a: u16, b: u16, bit_depth: u8)
    requires
        8 <= bit_depth <= 16,
        a <= b,
    ensures
        expand_spec((16 * pow2((bit_depth - 8) as nat)) as u16, bit_depth, true) == 0,
        expand_spec((235 * pow2((bit_depth - 8) as nat)) as u16, bit_depth, true) == pow2(bit_depth as nat) - 1,
        expand_spec(a, bit_depth, true) <= expand_spec(b, bit_depth, true),
        expand_spec(a, bit_depth, false) == a,
{
    let s = (bit_depth - 8) as nat;
    lemma2_to64();
    lemma_pow2_small(s, 8);
    lemma_pow2_small(bit_depth as nat, 16);
    let sc = pow2(s) as int;
    let span = 219 * sc;
    let max = pow2(bit_depth as nat) - 1;
    assert(span >= 219 && span / 2 < span) by (nonlinear_arith) requires span == 219 * sc, sc >= 1;
    assert(235 * sc <= 65535) by (nonlinear_arith) requires sc <= 256;
    assert((span / 2) / span == 0) by (nonlinear_arith) requires span >= 219;
    assert((span * max + span / 2) / span == max) by (nonlinear_arith) requires span >= 219, max >= 0;
    let ca: int = if a < 16 * sc { 0 } else if a - 16 * sc > span { span } else { a - 16 * sc };
    let cb: int = if b < 16 * sc { 0 } else if b - 16 * sc > span { span } else { b - 16 * sc };
    assert(ca <= cb);
    assert((ca * max + span / 2) / span <= (cb * max + span / 2) / span) by (nonlinear_arith)
        requires 0 <= ca <= cb, max >= 0, span > 0;
}

/// The colour source of an encode: packed pixels and the row stride in pixels.
pub enum ColorSource<'a> {
    Rgb8(&'a [Rgb8], usize),
    Rgba8(&'a [Rgba8], usize),
    Rgb16(&'a [Rgb16], usize),
    Rgba16(&'a [Rgba16], usize),
}

/// Number of pixels in the source buffer.
pub open spec fn source_len(src: ColorSource) -> int {
    match src {
        ColorSource::Rgb8(buf, _) => buf@.len() as int,
        ColorSource::Rgba8(buf, _) => buf@.len() as int,
        ColorSource::Rgb16(buf, _) => buf@.len() as int,
        ColorSource::Rgba16(buf, _) => buf@.len() as int,
    }
}

/// Row stride of the source, in pixels.
pub open spec fn source_stride(src: ColorSource) -> int {
    match src {
        ColorSource::Rgb8(_, s) => s as int,
        ColorSource::Rgba8(_, s) => s as int,
        ColorSource::Rgb16(_, s) => s as int,
        ColorSource::Rgba16(_, s) => s as int,
    }
}

/// A 16-bit sample reduced to `bit_depth` bits (dropping the low bits).
pub open spec fn reduce_16_spec(c: u16, bit_depth: u8) -> int {
    (c as int) / (pow2((16 - bit_depth) as nat) as int)
}

/// The identity (Y, U, V) = (G, B, R) samples at `bit_depth` of source
/// pixel `j`; alpha is not part of the colour planes.
pub open spec fn identity_sample(src: ColorSource, j: int, bit_depth: u8) -> (int, int, int) {
    match src {
        ColorSource::Rgb8(buf, _) => (
            scale_8_spec(buf@[j].g, bit_depth), scale_8_spec(buf@[j].b, bit_depth), scale_8_spec(buf@[j].r, bit_depth)),
        ColorSource::Rgba8(buf, _) => (
            scale_8_spec(buf@[j].g, bit_depth), scale_8_spec(buf@[j].b, bit_depth), scale_8_spec(buf@[j].r, bit_depth)),
        ColorSource::Rgb16(buf, _) => (
            reduce_16_spec(buf@[j].g, bit_depth), reduce_16_spec(buf@[j].b, bit_depth), reduce_16_spec(buf@[j].r, bit_depth)),
        ColorSource::Rgba16(buf, _) => (
            reduce_16_spec(buf@[j].g, bit_depth), reduce_16_spec(buf@[j].b, bit_depth), reduce_16_spec(buf@[j].r, bit_depth)),
    }
}

fn reduce_16(c: u16, bit_depth: u8) -> (r: u16)
    requires
        8 <= bit_depth <= 16,
    ensures
        r == reduce_16_spec(c, bit_depth),
{
    let down: u16 = (16 - bit_depth) as u16;
    proof {
        lemma_u16_shr_is_div(c, down);
    }
    c >> down
}

fn identity_sample_at(src: &ColorSource, j: usize, bit_depth: u8) -> (r: (u16, u16, u16))
    requires
        8 <= bit_depth <= 16,
        j < source_len(*src),
    ensures
        (r.0 as int, r.1 as int, r.2 as int) == identity_sample(*src, j as int, bit_depth),
{
    match src {
        ColorSource::Rgb8(buf, _) => {
            let p = buf[j];
            (scale_8_to_depth(p.g, bit_depth), scale_8_to_depth(p.b, bit_depth), scale_8_to_depth(p.r, bit_depth))
        },
        ColorSource::Rgba8(buf, _) => {
            let p = buf[j];
            (scale_8_to_depth(p.g, bit_depth), scale_8_to_depth(p.b, bit_depth), scale_8_to_depth(p.r, bit_depth))
        },
        ColorSource::Rgb16(buf, _) => {
            let p = buf[j];
            (reduce_16(p.g, bit_depth), reduce_16(p.b, bit_depth), reduce_16(p.r, bit_depth))
        },
        ColorSource::Rgba16(buf, _) => {
            let p = buf[j];
            (reduce_16(p.g, bit_depth), reduce_16(p.b, bit_depth), reduce_16(p.r, bit_depth))
        },
    }
}

/// Row `i / width`, column `i % width` of a row-major `width`-wide plane,
/// as an index into a buffer with row stride `stride`.
pub open spec fn strided_index(i: int, width: int, stride: int) -> int {
    (i / width) * stride + i % width
}

/// `width x height` rows of `stride` elements fit in `len` elements.
pub open spec fn rows_fit(len: int, stride: int, width: int, height: int) -> bool {
    height > 0 ==> (height - 1) * stride + width <= len
}

proof fn lemma_row_major(row: int, x: int, width: int)
    requires
        0 <= row,
        0 <= x < width,
    ensures
        (row * width + x) / width == row,
        (row * width + x) % width == x,
{
    lemma_fundamental_div_mod_converse(row * width + x, width, row, x);
}

proof fn lemma_strided_in_bounds(row: int, x: int, width: int, height: int, stride: int, len: int)
    requires
        0 <= row < height,
        0 <= x < width,
        stride >= 0,
        rows_fit(len, stride, width, height),
    ensures
        0 <= row * stride + x < len,
        0 <= row * width + x < width * height,
{
    assert(row * stride <= (height - 1) * stride) by (nonlinear_arith) requires 0 <= row < height, stride >= 0;
    assert(0 <= row * stride) by (nonlinear_arith) requires row >= 0, stride >= 0;
    assert(row * width + x < width * height) by (nonlinear_arith) requires 0 <= row < height, 0 <= x < width;
    assert(0 <= row * width) by (nonlinear_arith) requires row >= 0, width >= 0;
}

/// The identity colour planes of an encode: Y, U and V hold G, B and R of
/// every pixel in row-major order, scaled (8-bit sources) or reduced
/// (16-bit sources) to `bit_depth` bits, with no matrix and no range
/// compression.
pub fn identity_planes(src: ColorSource, width: usize, height: usize, bit_depth: u8) -> (r: (Vec<u16>, Vec<u16>, Vec<u16>))
    requires
        8 <= bit_depth <= 16,
        width * height <= usize::MAX,
        rows_fit(source_len(src), source_stride(src), width as int, height as int),
    ensures
        r.0@.len() == width * height && r.1@.len() == width * height && r.2@.len() == width * height,
        forall|i: int| 0 <= i < width * height ==> (#[trigger] r.0@[i] as int, r.1@[i] as int, r.2@[i] as int)
            == identity_sample(src, strided_index(i, width as int, source_stride(src)), bit_depth),
{
    let stride: usize = match &src {
        ColorSource::Rgb8(_, s) => *s,
        ColorSource::Rgba8(_, s) => *s,
        ColorSource::Rgb16(_, s) => *s,
        ColorSource::Rgba16(_, s) => *s,
    };
    let src_len: usize = match &src {
        ColorSource::Rgb8(b, _) => b.len(),
        ColorSource::Rgba8(b, _) => b.len(),
        ColorSource::Rgb16(b, _) => b.len(),
        ColorSource::Rgba16(b, _) => b.len(),
    };
    let ghost len = source_len(src);
    let ghost w = width as int;
    let mut y: Vec<u16> = Vec::new();
    let mut u: Vec<u16> = Vec::new();
    let mut v: Vec<u16> = Vec::new();
    let mut row: usize = 0;
    while row < height
        invariant
            8 <= bit_depth <= 16,
            row <= height,
            stride == source_stride(src),
            len == source_len(src),
            src_len == len,
            w == width,
            width * height <= usize::MAX,
            rows_fit(len, stride as int, w, height as int),
            y@.len() == row * w && u@.len() == row * w && v@.len() == row * w,
            forall|i: int| 0 <= i < y@.len() ==> (#[trigger] y@[i] as int, u@[i] as int, v@[i] as int)
                == identity_sample(src, strided_index(i, w, stride as int), bit_depth),
        decreases height - row,
    {
        let mut x: usize = 0;
        while x < width
            invariant
                8 <= bit_depth <= 16,
                row < height,
                x <= width,
                stride == source_stride(src),
                len == source_len(src),
                src_len == len,
                w == width,
                width * height <= usize::MAX,
                rows_fit(len, stride as int, w, height as int),
                y@.len() == row * w + x && u@.len() == row * w + x && v@.len() == row * w + x,
                forall|i: int| 0 <= i < y@.len() ==> (#[trigger] y@[i] as int, u@[i] as int, v@[i] as int)
                    == identity_sample(src, strided_index(i, w, stride as int), bit_depth),
            decreases width - x,
        {
            proof {
                lemma_strided_in_bounds(row as int, x as int, w, height as int, stride as int, len);
                lemma_row_major(row as int, x as int, w);
            }
            let j = row * stride + x;
            let (gy, bu, rv) = identity_sample_at(&src, j, bit_depth);
            y.push(gy);
            u.push(bu);
            v.push(rv);
            x = x + 1;
        }
        proof {
            assert((row + 1) * w == row * w + w) by (nonlinear_arith);
        }
        row = row + 1;
    }
    proof {
        assert(height * w == width * height) by (nonlinear_arith) requires w == width;
    }
    (y, u, v)
}

/// Decoded identity pixels, in the layout the caller asked for.
pub enum IdentityPixels {
    Rgb8(Vec<Rgb8>),
    Rgba8(Vec<Rgba8>),
    Rgb16(Vec<Rgb16>),
    Rgba16(Vec<Rgba16>),
}

/// One decoded 8-bit identity pixel: R from plane 2, G from plane 0, B
/// from plane 1, each range-expanded.
pub open spec fn identity_rgb8_at(
    g: Seq<u8>, gs: int, b: Seq<u8>, bs: int, r: Seq<u8>, rs: int, width: int, i: int, limited: bool,
) -> Rgb8 {
    Rgb8 {
        r: expand_spec(r[strided_index(i, width, rs)] as u16, 8, limited) as u8,
        g: expand_spec(g[strided_index(i, width, gs)] as u16, 8, limited) as u8,
        b: expand_spec(b[strided_index(i, width, bs)] as u16, 8, limited) as u8,
    }
}

/// One decoded high-depth identity pixel.
pub open spec fn identity_rgb16_at(
    g: Seq<u16>, gs: int, b: Seq<u16>, bs: int, r: Seq<u16>, rs: int, width: int, i: int, bit_depth: u8, limited: bool,
) -> Rgb16 {
    Rgb16 {
        r: expand_spec(r[strided_index(i, width, rs)], bit_depth, limited) as u16,
        g: expand_spec(g[strided_index(i, width, gs)], bit_depth, limited) as u16,
        b: expand_spec(b[strided_index(i, width, bs)], bit_depth, limited) as u16,
    }
}

/// Convert 8-bit identity (GBR) planes to RGB8, or RGBA8 with opaque
/// alpha (the caller attaches the alpha plane afterwards).
pub fn identity_to_pixels_8(
    g: &[u8], g_stride: usize,
    b: &[u8], b_stride: usize,
    r: &[u8], r_stride: usize,
    width: usize, height: usize,
    limited: bool, has_alpha: bool,
) -> (out: IdentityPixels)
    requires
        width * height <= usize::MAX,
        rows_fit(g@.len() as int, g_stride as int, width as int, height as int),
        rows_fit(b@.len() as int, b_stride as int, width as int, height as int),
        rows_fit(r@.len() as int, r_stride as int, width as int, height as int),
    ensures
        !has_alpha ==> (out matches IdentityPixels::Rgb8(px) && px@.len() == width * height
            && forall|i: int| 0 <= i < width * height ==> #[trigger] px@[i]
                == identity_rgb8_at(g@, g_stride as int, b@, b_stride as int, r@, r_stride as int, width as int, i, limited)),
        has_alpha ==> (out matches IdentityPixels::Rgba8(px) && px@.len() == width * height
            && forall|i: int| 0 <= i < width * height ==> {
                let c = identity_rgb8_at(g@, g_stride as int, b@, b_stride as int, r@, r_stride as int, width as int, i, limited);
                #[trigger] px@[i] == (Rgba8 { r: c.r, g: c.g, b: c.b, a: 255 })
            }),
{
    let ghost w = width as int;
    let gl = g.len();
    let bl = b.len();
    let rl = r.len();
    let mut rgb: Vec<Rgb8> = Vec::new();
    let mut rgba: Vec<Rgba8> = Vec::new();
    let mut row: usize = 0;
    while row < height
        invariant
            row <= height,
            w == width,
            width * height <= usize::MAX,
            gl == g@.len() && bl == b@.len() && rl == r@.len(),
            rows_fit(g@.len() as int, g_stride as int, w, height as int),
            rows_fit(b@.len() as int, b_stride as int, w, height as int),
            rows_fit(r@.len() as int, r_stride as int, w, height as int),
            !has_alpha ==> rgb@.len() == row * w,
            has_alpha ==> rgba@.len() == row * w,
            forall|i: int| 0 <= i < rgb@.len() ==> #[trigger] rgb@[i]
                == identity_rgb8_at(g@, g_stride as int, b@, b_stride as int, r@, r_stride as int, w, i, limited),
            forall|i: int| 0 <= i < rgba@.len() ==> {
                let c = identity_rgb8_at(g@, g_stride as int, b@, b_stride as int, r@, r_stride as int, w, i, limited);
                #[trigger] rgba@[i] == (Rgba8 { r: c.r, g: c.g, b: c.b, a: 255 })
            },
        decreases height - row,
    {
        let mut x: usize = 0;
        while x < width
            invariant
                row < height,
                x <= width,
                w == width,
                width * height <= usize::MAX,
                gl == g@.len() && bl == b@.len() && rl == r@.len(),
                rows_fit(g@.len() as int, g_stride as int, w, height as int),
                rows_fit(b@.len() as int, b_stride as int, w, height as int),
                rows_fit(r@.len() as int, r_stride as int, w, height as int),
                !has_alpha ==> rgb@.len() == row * w + x,
                has_alpha ==> rgba@.len() == row * w + x,
                forall|i: int| 0 <= i < rgb@.len() ==> #[trigger] rgb@[i]
                    == identity_rgb8_at(g@, g_stride as int, b@, b_stride as int, r@, r_stride as int, w, i, limited),
                forall|i: int| 0 <= i < rgba@.len() ==> {
                    let c = identity_rgb8_at(g@, g_stride as int, b@, b_stride as int, r@, r_stride as int, w, i, limited);
                    #[trigger] rgba@[i] == (Rgba8 { r: c.r, g: c.g, b: c.b, a: 255 })
                },
            decreases width - x,
        {
            proof {
                lemma_strided_in_bounds(row as int, x as int, w, height as int, g_stride as int, g@.len() as int);
                lemma_strided_in_bounds(row as int, x as int, w, height as int, b_stride as int, b@.len() as int);
                lemma_strided_in_bounds(row as int, x as int, w, height as int, r_stride as int, r@.len() as int);
                lemma_row_major(row as int, x as int, w);
            }
            let rv = expand_identity_8(r[row * r_stride + x], limited);
            let gv = expand_identity_8(g[row * g_stride + x], limited);
            let bv = expand_identity_8(b[row * b_stride + x], limited);
            if has_alpha {
                rgba.push(Rgba8 { r: rv, g: gv, b: bv, a: 255 });
            } else {
                rgb.push(Rgb8 { r: rv, g: gv, b: bv });
            }
            x = x + 1;
        }
        proof {
            assert((row + 1) * w == row * w + w) by (nonlinear_arith);
        }
        row = row + 1;
    }
    proof {
        assert(height * w == width * height) by (nonlinear_arith) requires w == width;
    }
    if has_alpha {
        IdentityPixels::Rgba8(rgba)
    } else {
        IdentityPixels::Rgb8(rgb)
    }
}

/// The coded maximum `2^bit_depth - 1`.
fn depth_max(bit_depth: u8) -> (r: u16)
    requires
        8 <= bit_depth <= 16,
    ensures
        r == pow2(bit_depth as nat) - 1,
{
    proof {
        lemma2_to64();
        lemma_pow2_small(bit_depth as nat, 16);
        lemma_u32_shl_is_mul(1, bit_depth as u32);
    }
    ((1u32 << (bit_depth as u32)) - 1) as u16
}

/// Convert high-depth identity (GBR) planes to RGB16, or RGBA16 with
/// opaque alpha (`2^bit_depth - 1`; the caller attaches alpha afterwards).
/// Samples stay at the coded depth.
pub fn identity_to_pixels_16(
    g: &[u16], g_stride: usize,
    b: &[u16], b_stride: usize,
    r: &[u16], r_stride: usize,
    width: usize, height: usize,
    bit_depth: u8, limited: bool, has_alpha: bool,
) -> (out: IdentityPixels)
    requires
        8 <= bit_depth <= 16,
        width * height <= usize::MAX,
        rows_fit(g@.len() as int, g_stride as int, width as int, height as int),
        rows_fit(b@.len() as int, b_stride as int, width as int, height as int),
        rows_fit(r@.len() as int, r_stride as int, width as int, height as int),
    ensures
        !has_alpha ==> (out matches IdentityPixels::Rgb16(px) && px@.len() == width * height
            && forall|i: int| 0 <= i < width * height ==> #[trigger] px@[i]
                == identity_rgb16_at(g@, g_stride as int, b@, b_stride as int, r@, r_stride as int, width as int, i, bit_depth, limited)),
        has_alpha ==> (out matches IdentityPixels::Rgba16(px) && px@.len() == width * height
            && forall|i: int| 0 <= i < width * height ==> {
                let c = identity_rgb16_at(g@, g_stride as int, b@, b_stride as int, r@, r_stride as int, width as int, i, bit_depth, limited);
                #[trigger] px@[i] == (Rgba16 { r: c.r, g: c.g, b: c.b, a: (pow2(bit_depth as nat) - 1) as u16 })
            }),
{
    let ghost w = width as int;
    let alpha = depth_max(bit_depth);
    let gl = g.len();
    let bl = b.len();
    let rl = r.len();
    let mut rgb: Vec<Rgb16> = Vec::new();
    let mut rgba: Vec<Rgba16> = Vec::new();
    let mut row: usize = 0;
    while row < height
        invariant
            8 <= bit_depth <= 16,
            alpha == pow2(bit_depth as nat) - 1,
            row <= height,
            w == width,
            width * height <= usize::MAX,
            gl == g@.len() && bl == b@.len() && rl == r@.len(),
            rows_fit(g@.len() as int, g_stride as int, w, height as int),
            rows_fit(b@.len() as int, b_stride as int, w, height as int),
            rows_fit(r@.len() as int, r_stride as int, w, height as int),
            !has_alpha ==> rgb@.len() == row * w,
            has_alpha ==> rgba@.len() == row * w,
            forall|i: int| 0 <= i < rgb@.len() ==> #[trigger] rgb@[i]
                == identity_rgb16_at(g@, g_stride as int, b@, b_stride as int, r@, r_stride as int, w, i, bit_depth, limited),
            forall|i: int| 0 <= i < rgba@.len() ==> {
                let c = identity_rgb16_at(g@, g_stride as int, b@, b_stride as int, r@, r_stride as int, w, i, bit_depth, limited);
                #[trigger] rgba@[i] == (Rgba16 { r: c.r, g: c.g, b: c.b, a: (pow2(bit_depth as nat) - 1) as u16 })
            },
        decreases height - row,
    {
        let mut x: usize = 0;
        while x < width
            invariant
                8 <= bit_depth <= 16,
                alpha == pow2(bit_depth as nat) - 1,
                row < height,
                x <= width,
                w == width,
                width * height <= usize::MAX,
                gl == g@.len() && bl == b@.len() && rl == r@.len(),
                rows_fit(g@.len() as int, g_stride as int, w, height as int),
                rows_fit(b@.len() as int, b_stride as int, w, height as int),
                rows_fit(r@.len() as int, r_stride as int, w, height as int),
                !has_alpha ==> rgb@.len() == row * w + x,
                has_alpha ==> rgba@.len() == row * w + x,
                forall|i: int| 0 <= i < rgb@.len() ==> #[trigger] rgb@[i]
                    == identity_rgb16_at(g@, g_stride as int, b@, b_stride as int, r@, r_stride as int, w, i, bit_depth, limited),
                forall|i: int| 0 <= i < rgba@.len() ==> {
                    let c = identity_rgb16_at(g@, g_stride as int, b@, b_stride as int, r@, r_stride as int, w, i, bit_depth, limited);
                    #[trigger] rgba@[i] == (Rgba16 { r: c.r, g: c.g, b: c.b, a: (pow2(bit_depth as nat) - 1) as u16 })
                },
            decreases width - x,
        {
            proof {
                lemma_strided_in_bounds(row as int, x as int, w, height as int, g_stride as int, g@.len() as int);
                lemma_strided_in_bounds(row as int, x as int, w, height as int, b_stride as int, b@.len() as int);
                lemma_strided_in_bounds(row as int, x as int, w, height as int, r_stride as int, r@.len() as int);
                lemma_row_major(row as int, x as int, w);
            }
            let rv = expand_identity_sample(r[row * r_stride + x], bit_depth, limited);
            let gv = expand_identity_sample(g[row * g_stride + x], bit_depth, limited);
            let bv = expand_identity_sample(b[row * b_stride + x], bit_depth, limited);
            if has_alpha {
                rgba.push(Rgba16 { r: rv, g: gv, b: bv, a: alpha });
            } else {
                rgb.push(Rgb16 { r: rv, g: gv, b: bv });
            }
            x = x + 1;
        }
        proof {
            assert((row + 1) * w == row * w + w) by (nonlinear_arith);
        }
        row = row + 1;
    }
    proof {
        assert(height * w == width * height) by (nonlinear_arith) requires w == width;
    }
    if has_alpha {
        IdentityPixels::Rgba16(rgba)
    } else {
        IdentityPixels::Rgb16(rgb)
    }
}

/// One pixel of the libaom identity path at native depth.
pub open spec fn aom_identity_rgb16_at(y: Seq<u16>, u: Seq<u16>, v: Seq<u16>, i: int, bit_depth: u8, limited: bool) -> Rgb16 {
    Rgb16 {
        r: expand_spec(v[i], bit_depth, limited) as u16,
        g: expand_spec(y[i], bit_depth, limited) as u16,
        b: expand_spec(u[i], bit_depth, limited) as u16,
    }
}

/// One pixel of the libaom identity path narrowed to 8 bits.
pub open spec fn aom_identity_rgb8_at(y: Seq<u16>, u: Seq<u16>, v: Seq<u16>, i: int, bit_depth: u8, limited: bool) -> Rgb8 {
    Rgb8 {
        r: expand_spec(v[i], bit_depth, limited) as u8,
        g: expand_spec(y[i], bit_depth, limited) as u8,
        b: expand_spec(u[i], bit_depth, limited) as u8,
    }
}

/// Convert the libaom decoder's identity (GBR) planes, `width * height`
/// samples each in row-major order, to RGB: at native depth when
/// `wide_out`, else narrowed to 8 bits. `None` when the pixel count
/// overflows.
pub fn aom_identity_to_pixels(
    y: &[u16], u: &[u16], v: &[u16],
    width: usize, height: usize,
    bit_depth: u8, limited: bool, wide_out: bool,
) -> (out: Option<IdentityPixels>)
    requires
        8 <= bit_depth <= 16,
        width * height <= usize::MAX ==> y@.len() >= width * height && u@.len() >= width * height
            && v@.len() >= width * height,
    ensures
        out is None <==> width * height > usize::MAX,
        out is Some && wide_out ==> (out->0 matches IdentityPixels::Rgb16(px) && px@.len() == width * height
            && forall|i: int| 0 <= i < width * height ==> #[trigger] px@[i] == aom_identity_rgb16_at(y@, u@, v@, i, bit_depth, limited)),
        out is Some && !wide_out ==> (out->0 matches IdentityPixels::Rgb8(px) && px@.len() == width * height
            && forall|i: int| 0 <= i < width * height ==> #[trigger] px@[i] == aom_identity_rgb8_at(y@, u@, v@, i, bit_depth, limited)),
{
    let n = match width.checked_mul(height) {
        Some(n) => n,
        None => { return None; },
    };
    let mut wide: Vec<Rgb16> = Vec::new();
    let mut narrow: Vec<Rgb8> = Vec::new();
    let mut i: usize = 0;
    while i < n
        invariant
            8 <= bit_depth <= 16,
            n == width * height,
            i <= n,
            y@.len() >= n && u@.len() >= n && v@.len() >= n,
            wide_out ==> wide@.len() == i,
            !wide_out ==> narrow@.len() == i,
            forall|j: int| 0 <= j < wide@.len() ==> #[trigger] wide@[j] == aom_identity_rgb16_at(y@, u@, v@, j, bit_depth, limited),
            forall|j: int| 0 <= j < narrow@.len() ==> #[trigger] narrow@[j] == aom_identity_rgb8_at(y@, u@, v@, j, bit_depth, limited),
        decreases n - i,
    {
        let rv = expand_identity_sample(v[i], bit_depth, limited);
        let gv = expand_identity_sample(y[i], bit_depth, limited);
        let bv = expand_identity_sample(u[i], bit_depth, limited);
        if wide_out {
            wide.push(Rgb16 { r: rv, g: gv, b: bv });
        } else {
            narrow.push(Rgb8 { r: rv as u8, g: gv as u8, b: bv as u8 });
        }
        i = i + 1;
    }
    if wide_out {
        Some(IdentityPixels::Rgb16(wide))
    } else {
        Some(IdentityPixels::Rgb8(narrow))
    }
}

/// Encoding an 8-bit image through the identity planes and decoding them
/// at 8 bits, full range, gives back every pixel exactly.
pub proof fn law_identity_round_trip_8(src: Seq<Rgb8>, y: Seq<u16>, u: Seq<u16>, v: Seq<u16>, n: int)
    requires
        0 <= n <= src.len(),
        y.len() >= n && u.len() >= n && v.len() >= n,
        forall|i: int| 0 <= i < n ==> #[trigger] y[i] == scale_8_spec(src[i].g, 8)
            && u[i] == scale_8_spec(src[i].b, 8) && v[i] == scale_8_spec(src[i].r, 8),
    ensures
        forall|i: int| 0 <= i < n ==> #[trigger] aom_identity_rgb8_at(y, u, v, i, 8, false) == src[i],
{
    lemma2_to64();
    assert forall|i: int| 0 <= i < n implies #[trigger] aom_identity_rgb8_at(y, u, v, i, 8, false) == src[i] by {
        assert(y[i] == scale_8_spec(src[i].g, 8));
        law_scale_8_lossless(src[i].r, 8);
        law_scale_8_lossless(src[i].g, 8);
        law_scale_8_lossless(src[i].b, 8);
    }
}

/// At a deeper coded depth the round trip is lossless too: the decoded
/// full-range sample, shifted back down by the depth difference, is the
/// source sample.
pub proof fn law_identity_round_trip_deep(src: Seq<Rgb8>, y: Seq<u16>, u: Seq<u16>, v: Seq<u16>, n: int, bit_depth: u8)
    requires
        8 <= bit_depth <= 16,
        0 <= n <= src.len(),
        y.len() >= n && u.len() >= n && v.len() >= n,
        forall|i: int| 0 <= i < n ==> #[trigger] y[i] == scale_8_spec(src[i].g, bit_depth)
            && u[i] == scale_8_spec(src[i].b, bit_depth) && v[i] == scale_8_spec(src[i].r, bit_depth),
    ensures
        forall|i: int| 0 <= i < n ==> {
            let p = #[trigger] aom_identity_rgb16_at(y, u, v, i, bit_depth, false);
            let d = pow2((bit_depth - 8) as nat) as int;
            &&& (p.r as int) / d == src[i].r
            &&& (p.g as int) / d == src[i].g
            &&& (p.b as int) / d == src[i].b
        },
{
    assert forall|i: int| 0 <= i < n implies {
        let p = #[trigger] aom_identity_rgb16_at(y, u, v, i, bit_depth, false);
        let d = pow2((bit_depth - 8) as nat) as int;
        &&& (p.r as int) / d == src[i].r
        &&& (p.g as int) / d == src[i].g
        &&& (p.b as int) / d == src[i].b
    } by {
        law_scale_8_lossless(src[i].r, bit_depth);
        law_scale_8_lossless(src[i].g, bit_depth);
        law_scale_8_lossless(src[i].b, bit_depth);
        assert(y[i] == scale_8_spec(src[i].g, bit_depth));
    }
}

/// Decoding identity planes at full range puts plane 2 (R) in red, plane 0
/// (G) in green and plane 1 (B) in blue, each taken unchanged from the
/// sample at the pixel's row and column.
pub proof fn law_identity_full_range_channels(
    g8: Seq<u8>, b8: Seq<u8>, r8: Seq<u8>,
    g: Seq<u16>, b: Seq<u16>, r: Seq<u16>,
    gs: int, bs: int, rs: int, width: int, i: int, bit_depth: u8,
)
    requires
        8 <= bit_depth <= 16,
        width > 0,
        0 <= i,
    ensures
        identity_rgb8_at(g8, gs, b8, bs, r8, rs, width, i, false) == (Rgb8 {
            r: r8[(i / width) * rs + i % width],
            g: g8[(i / width) * gs + i % width],
            b: b8[(i / width) * bs + i % width],
        }),
        identity_rgb16_at(g, gs, b, bs, r, rs, width, i, bit_depth, false) == (Rgb16 {
            r: r[(i / width) * rs + i % width],
            g: g[(i / width) * gs + i % width],
            b: b[(i / width) * bs + i % width],
        }),
        aom_identity_rgb16_at(g, b, r, i, bit_depth, false) == (Rgb16 { r: r[i], g: g[i], b: b[i] }),
{
}

/// Each decoded channel depends on its own plane only: changing the other
/// two planes never changes it, at any depth and range.
pub proof fn law_identity_channels_independent(
    g1: Seq<u16>, b1: Seq<u16>, r1: Seq<u16>,
    g2: Seq<u16>, b2: Seq<u16>, r2: Seq<u16>,
    gs: int, bs: int, rs: int, width: int, i: int, bit_depth: u8, limited: bool,
)
    ensures
        identity_rgb16_at(g1, gs, b1, bs, r1, rs, width, i, bit_depth, limited).r
            == identity_rgb16_at(g2, gs, b2, bs, r1, rs, width, i, bit_depth, limited).r,
        identity_rgb16_at(g1, gs, b1, bs, r1, rs, width, i, bit_depth, limited).g
            == identity_rgb16_at(g1, gs, b2, bs, r2, rs, width, i, bit_depth, limited).g,
        identity_rgb16_at(g1, gs, b1, bs, r1, rs, width, i, bit_depth, limited).b
            == identity_rgb16_at(g2, gs, b1, bs, r2, rs, width, i, bit_depth, limited).b,
        aom_identity_rgb16_at(g1, b1, r1, i, bit_depth, limited).r == aom_identity_rgb16_at(g2, b2, r1, i, bit_depth, limited).r,
        aom_identity_rgb16_at(g1, b1, r1, i, bit_depth, limited).g == aom_identity_rgb16_at(g1, b2, r2, i, bit_depth, limited).g,
        aom_identity_rgb16_at(g1, b1, r1, i, bit_depth, limited).b == aom_identity_rgb16_at(g2, b1, r2, i, bit_depth, limited).b,
{
}

/// The same, for 8-bit planes.
pub proof fn law_identity_channels_independent_8(
    g1: Seq<u8>, b1: Seq<u8>, r1: Seq<u8>,
    g2: Seq<u8>, b2: Seq<u8>, r2: Seq<u8>,
    gs: int, bs: int, rs: int, width: int, i: int, limited: bool,
)
    ensures
        identity_rgb8_at(g1, gs, b1, bs, r1, rs, width, i, limited).r
            == identity_rgb8_at(g2, gs, b2, bs, r1, rs, width, i, limited).r,
        identity_rgb8_at(g1, gs, b1, bs, r1, rs, width, i, limited).g
            == identity_rgb8_at(g1, gs, b2, bs, r2, rs, width, i, limited).g,
        identity_rgb8_at(g1, gs, b1, bs, r1, rs, width, i, limited).b
            == identity_rgb8_at(g2, gs, b1, bs, r2, rs, width, i, limited).b,
{
}

} // verus!
