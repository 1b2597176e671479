//! Per-pixel kernels: the AV1 compound average, alpha unpremultiply,
//! limited-to-full range expansion for alpha, and alpha attachment.

use vstd::prelude::*;

verus! {

/// An 8-bit RGBA pixel.
#[derive(Debug, Clone, Copy, PartialEq, Eq, Structural)]
pub struct Rgba8 {
    pub r: u8,
    pub g: u8,
    pub b: u8,
    pub a: u8,
}

/// An 8-bit RGB pixel.
#[derive(Debug, Clone, Copy, PartialEq, Eq, Structural)]
pub struct Rgb8 {
    pub r: u8,
    pub g: u8,
    pub b: u8,
}

/// A 16-bit RGB pixel.
#[derive(Debug, Clone, Copy, PartialEq, Eq, Structural)]
pub struct Rgb16 {
    pub r: u16,
    pub g: u16,
    pub b: u16,
}

/// A 16-bit RGBA pixel.
#[derive(Debug, Clone, Copy, PartialEq, Eq, Structural)]
pub struct Rgba16 {
    pub r: u16,
    pub g: u16,
    pub b: u16,
    pub a: u16,
}

/// Two's-complement wrapping of an integer into `i16`.
pub open spec fn wrap_i16(x: int) -> int {
    if x > 32767 { x - 65536 } else if x < -32768 { x + 65536 } else { x }
}

/// One output of the AV1 8-bit compound average: the wrapped 16-bit sum,
/// rounded by `(sum * 1024 + 16384) >> 15` (arithmetic shift, i.e. floor
/// division by 32768) and clamped into `0..=255`.
pub open spec fn avg_px(a: i16, b: i16) -> u8 {
    let x = wrap_i16(a + b) * 1024 + 16384;
    let q = x / 32768;
    if q < 0 { 0 } else if q > 255 { 255 } else { q as u8 }
}

/// One averaged pixel.
pub fn avg_pixel(a: i16, b: i16) -> (r: u8)
    ensures
        r == avg_px(a, b),
{
    let s: i32 = a as i32 + b as i32;
    let w: i32 = if s > 32767 { s - 65536 } else if s < -32768 { s + 65536 } else { s };
    let x: i32 = w * 1024 + 16384;
    if x < 0 {
        assert(x / 32768 < 0);
        0
    } else {
        let q: i32 = x / 32768;
        if q > 255 { 255 } else { q as u8 }
    }
}

/// `dst` with row `row` of the average written at `row * stride`.
pub open spec fn avg_row_spec(dst: Seq<u8>, tmp1: Seq<i16>, tmp2: Seq<i16>, stride: int, w: int, row: int) -> Seq<u8> {
    Seq::new(dst.len(), |k: int|
        if row * stride <= k < row * stride + w {
            avg_px(tmp1[row * w + (k - row * stride)], tmp2[row * w + (k - row * stride)])
        } else {
            dst[k]
        })
}

/// `dst` after writing rows `0..n` of the average, in order.
pub open spec fn avg_rows_spec(dst: Seq<u8>, tmp1: Seq<i16>, tmp2: Seq<i16>, stride: int, w: int, n: int) -> Seq<u8>
    decreases n,
{
    if n <= 0 {
        dst
    } else {
        avg_row_spec(avg_rows_spec(dst, tmp1, tmp2, stride, w, n - 1), tmp1, tmp2, stride, w, n - 1)
    }
}

/// Slice bounds the average needs: every source row and destination row
/// in range (the `w * h` intermediate values are tightly packed).
pub open spec fn avg_bounds(dst_len: int, stride: int, tmp1_len: int, tmp2_len: int, w: int, h: int) -> bool {
    h > 0 ==> {
        &&& h * w <= tmp1_len
        &&& h * w <= tmp2_len
        &&& (h - 1) * stride + w <= dst_len
    }
}

proof fn lemma_row_in_bounds(stride: int, w: int, h: int, row: int, tmp_len: int, dst_len: int)
    requires
        0 <= row < h,
        w >= 0,
        stride >= 0,
        h * w <= tmp_len,
        (h - 1) * stride + w <= dst_len,
    ensures
        row * w + w <= tmp_len,
        row * stride + w <= dst_len,
        0 <= row * w,
        0 <= row * stride,
{
    assert(row * w + w <= h * w) by (nonlinear_arith)
        requires 0 <= row < h, w >= 0;
    assert(row * stride <= (h - 1) * stride) by (nonlinear_arith)
        requires 0 <= row < h, stride >= 0;
    assert(0 <= row * w) by (nonlinear_arith) requires row >= 0, w >= 0;
    assert(0 <= row * stride) by (nonlinear_arith) requires row >= 0, stride >= 0;
}

/// Scalar AV1 8-bit compound average: `dst[row * dst_stride + col] =
/// avg(tmp1[row * w + col], tmp2[row * w + col])` for every row and column,
/// rows written in order.
pub fn avg_8bpc_scalar(dst: &mut [u8], dst_stride: usize, tmp1: &[i16], tmp2: &[i16], w: usize, h: usize)
    requires
        avg_bounds(old(dst)@.len() as int, dst_stride as int, tmp1@.len() as int, tmp2@.len() as int, w as int, h as int),
    ensures
        final(dst)@ == avg_rows_spec(old(dst)@, tmp1@, tmp2@, dst_stride as int, w as int, h as int),
{
    let ghost d0 = dst@;
    let t1len = tmp1.len();
    let t2len = tmp2.len();
    let dlen = dst.len();
    let mut row: usize = 0;
    while row < h
        invariant
            row <= h,
            dst@.len() == d0.len(),
            avg_bounds(d0.len() as int, dst_stride as int, tmp1@.len() as int, tmp2@.len() as int, w as int, h as int),
            t1len == tmp1@.len(),
            t2len == tmp2@.len(),
            dlen == d0.len(),
            dst@ == avg_rows_spec(d0, tmp1@, tmp2@, dst_stride as int, w as int, row as int),
        decreases h - row,
    {
        proof {
            lemma_row_in_bounds(dst_stride as int, w as int, h as int, row as int, tmp1@.len() as int, d0.len() as int);
            lemma_row_in_bounds(dst_stride as int, w as int, h as int, row as int, tmp2@.len() as int, d0.len() as int);
        }
        let src_base: usize = row * w;
        let dst_base: usize = row * dst_stride;
        let ghost before = dst@;
        let mut col: usize = 0;
        while col < w
            invariant
                col <= w,
                src_base == row * w,
                dst_base == row * dst_stride,
                src_base + w <= tmp1@.len(),
                src_base + w <= tmp2@.len(),
                dst_base + w <= dst@.len(),
                dst@.len() == before.len(),
                t1len == tmp1@.len(),
                t2len == tmp2@.len(),
                dlen == dst@.len(),
                forall|k: int| 0 <= k < dst@.len() ==> #[trigger] dst@[k] == (
                    if dst_base <= k < dst_base + col {
                        avg_px(tmp1@[src_base + (k - dst_base)], tmp2@[src_base + (k - dst_base)])
                    } else {
                        before[k]
                    }),
            decreases w - col,
        {
            let v = avg_pixel(tmp1[src_base + col], tmp2[src_base + col]);
            dst[dst_base + col] = v;
            col = col + 1;
        }
        assert(dst@ =~= avg_row_spec(before, tmp1@, tmp2@, dst_stride as int, w as int, row as int));
        row = row + 1;
    }
}

proof fn lemma_avg_rows_len(dst: Seq<u8>, tmp1: Seq<i16>, tmp2: Seq<i16>, stride: int, w: int, n: int)
    ensures
        avg_rows_spec(dst, tmp1, tmp2, stride, w, n).len() == dst.len(),
    decreases n,
{
    if n > 0 {
        lemma_avg_rows_len(dst, tmp1, tmp2, stride, w, n - 1);
    }
}

/// When destination rows do not overlap (`stride >= w`), every output
/// byte of row `row`, column `col` is the average of the matching pair of
/// intermediates, and bytes outside the written rows keep their values.
pub proof fn law_avg_pointwise(dst: Seq<u8>, tmp1: Seq<i16>, tmp2: Seq<i16>, stride: int, w: int, h: int, row: int, col: int)
    requires
        stride >= w >= 0,
        0 <= row < h,
        0 <= col < w,
        (h - 1) * stride + w <= dst.len(),
    ensures
        avg_rows_spec(dst, tmp1, tmp2, stride, w, h)[row * stride + col]
            == avg_px(tmp1[row * w + col], tmp2[row * w + col]),
    decreases h,
{
    lemma_avg_rows_len(dst, tmp1, tmp2, stride, w, h - 1);
    assert(0 <= row * stride) by (nonlinear_arith) requires row >= 0, stride >= 0;
    assert(row * stride + col < dst.len()) by (nonlinear_arith)
        requires 0 <= row < h, 0 <= col < w, stride >= w, (h - 1) * stride + w <= dst.len();
    if row < h - 1 {
        assert((h - 1) * stride >= (row + 1) * stride) by (nonlinear_arith)
            requires row < h - 1, stride >= 0;
        assert((row + 1) * stride == row * stride + stride) by (nonlinear_arith);
        assert((h - 2) * stride + w <= dst.len()) by (nonlinear_arith)
            requires (h - 1) * stride + w <= dst.len(), stride >= 0;
        law_avg_pointwise(dst, tmp1, tmp2, stride, w, h - 1, row, col);
    }
}

/// Runtime-dispatched AV1 8-bit compound average (the portable kernel;
/// vector kernels compute the same values).
pub fn avg_8bpc(dst: &mut [u8], dst_stride: usize, tmp1: &[i16], tmp2: &[i16], w: usize, h: usize)
    requires
        avg_bounds(old(dst)@.len() as int, dst_stride as int, tmp1@.len() as int, tmp2@.len() as int, w as int, h as int),
    ensures
        final(dst)@ == avg_rows_spec(old(dst)@, tmp1@, tmp2@, dst_stride as int, w as int, h as int),
{
    avg_8bpc_scalar(dst, dst_stride, tmp1, tmp2, w, h);
}

/// Unpremultiply one color channel by its pixel's alpha: alpha 0 and 255
/// leave the channel unchanged, otherwise `min(255, (c * 255 + a / 2) / a)`.
pub open spec fn unpremul_channel(c: u8, a: u8) -> u8 {
    if a != 255 && a != 0 {
        let q = (c * 255 + a / 2) / (a as int);
        if q > 255 { 255 } else { q as u8 }
    } else {
        c
    }
}

/// A pixel with its color unpremultiplied and alpha kept.
pub open spec fn unpremul_px(p: Rgba8) -> Rgba8 {
    Rgba8 { r: unpremul_channel(p.r, p.a), g: unpremul_channel(p.g, p.a), b: unpremul_channel(p.b, p.a), a: p.a }
}

fn unpremul_one(c: u8, a: u8) -> (r: u8)
    ensures
        r == unpremul_channel(c, a),
{
    if a != 255 && a != 0 {
        let q: u32 = ((c as u32) * 255 + (a as u32) / 2) / (a as u32);
        if q > 255 { 255 } else { q as u8 }
    } else {
        c
    }
}

/// Unpremultiply a row of 8-bit RGBA pixels in place.
pub fn unpremultiply8_scalar(row: &mut [Rgba8])
    ensures
        final(row)@.len() == old(row)@.len(),
        forall|i: int| 0 <= i < old(row)@.len() ==> #[trigger] final(row)@[i] == unpremul_px(old(row)@[i]),
{
    let ghost r0 = row@;
    let mut i: usize = 0;
    while i < row.len()
        invariant
            row@.len() == r0.len(),
            i <= row@.len(),
            forall|j: int| 0 <= j < i ==> #[trigger] row@[j] == unpremul_px(r0[j]),
            forall|j: int| i <= j < row@.len() ==> #[trigger] row@[j] == r0[j],
        decreases row@.len() - i,
    {
        let p = row[i];
        let q = Rgba8 { r: unpremul_one(p.r, p.a), g: unpremul_one(p.g, p.a), b: unpremul_one(p.b, p.a), a: p.a };
        row[i] = q;
        i = i + 1;
    }
}

/// Unpremultiply dispatch (the portable kernel; vector kernels are
/// bit-identical to it over the whole channel x alpha domain).
pub fn unpremultiply8_dispatch(row: &mut [Rgba8])
    ensures
        final(row)@.len() == old(row)@.len(),
        forall|i: int| 0 <= i < old(row)@.len() ==> #[trigger] final(row)@[i] == unpremul_px(old(row)@[i]),
{
    unpremultiply8_scalar(row);
}

/// Alpha 0 and alpha 255 pixels are left exactly as they were.
pub proof fn law_unpremul_edge_alphas(p: Rgba8)
    requires
        p.a == 0 || p.a == 255,
    ensures
        unpremul_px(p) == p,
{
}

/// Unpremultiplying never changes alpha, and maps a channel no greater
/// than its alpha (a valid premultiplied value) to the rounded quotient.
pub proof fn law_unpremul_valid_premultiplied(c: u8, a: u8)
    requires
        0 < a < 255,
        c <= a,
    ensures
        unpremul_channel(c, a) as int == (c * 255 + a / 2) / (a as int),
{
    assert((c * 255 + a / 2) / (a as int) <= 255) by (nonlinear_arith)
        requires 0 < a, c <= a, a / 2 < a;
}

/// Scale a limited-range 8-bit value to full range:
/// `min(255, max(y - 16, 0) * 255 / 219)`.
pub open spec fn limited_to_full_spec(y: u8) -> u8 {
    let d: int = if y < 16 { 0 } else { y - 16 };
    let q: int = d * 255 / 219;
    if q > 255 { 255 } else { q as u8 }
}

/// Scale a limited-range 8-bit alpha value to full range.
pub fn limited_to_full_8(y: u8) -> (r: u8)
    ensures
        r == limited_to_full_spec(y),
{
    let d: u32 = if y < 16 { 0 } else { (y - 16) as u32 };
    let q: u32 = d * 255 / 219;
    if q > 255 { 255 } else { q as u8 }
}

/// Limited-range expansion maps black (16) to 0, studio white (235) to
/// 255 and preserves order.
pub proof fn law_limited_to_full_endpoints(a: u8, b: u8)
    requires
        a <= b,
    ensures
        limited_to_full_spec(16) == 0,
        limited_to_full_spec(235) == 255,
        limited_to_full_spec(a) <= limited_to_full_spec(b),
{
    let da: int = if a < 16 { 0 } else { a - 16 };
    let db: int = if b < 16 { 0 } else { b - 16 };
    assert(da * 255 / 219 <= db * 255 / 219) by (nonlinear_arith)
        requires 0 <= da <= db;
}

/// The alpha value attached for a decoded alpha sample.
pub open spec fn attached_alpha(a: u8, alpha_limited: bool) -> u8 {
    if alpha_limited { limited_to_full_spec(a) } else { a }
}

/// Overwrite the alpha of each pixel that has an alpha sample (the shorter
/// of the two rows), expanding limited-range samples, then unpremultiply
/// the whole row when the alpha is premultiplied.
pub fn attach_alpha_row(out_row: &mut [Rgba8], alpha_row: &[u8], alpha_limited: bool, premultiplied: bool)
    ensures
        final(out_row)@.len() == old(out_row)@.len(),
        forall|i: int| 0 <= i < old(out_row)@.len() ==> {
            let p = old(out_row)@[i];
            let with_alpha = if i < alpha_row@.len() {
                (Rgba8 { a: attached_alpha(alpha_row@[i], alpha_limited), ..p })
            } else {
                p
            };
            #[trigger] final(out_row)@[i] == if premultiplied { unpremul_px(with_alpha) } else { with_alpha }
        },
{
    let ghost r0 = out_row@;
    let mut i: usize = 0;
    while i < out_row.len() && i < alpha_row.len()
        invariant
            out_row@.len() == r0.len(),
            i <= out_row@.len(),
            i <= alpha_row@.len(),
            forall|j: int| 0 <= j < i ==> #[trigger] out_row@[j] == (Rgba8 { a: attached_alpha(alpha_row@[j], alpha_limited), ..r0[j] }),
            forall|j: int| i <= j < out_row@.len() ==> #[trigger] out_row@[j] == r0[j],
        decreases out_row@.len() - i,
    {
        let a = alpha_row[i];
        let v = if alpha_limited { limited_to_full_8(a) } else { a };
        let mut p = out_row[i];
        p.a = v;
        out_row[i] = p;
        i = i + 1;
    }
    let ghost mid = out_row@;
    assert forall|j: int| 0 <= j < r0.len() implies #[trigger] mid[j] == (if j < alpha_row@.len() {
        (Rgba8 { a: attached_alpha(alpha_row@[j], alpha_limited), ..r0[j] })
    } else {
        r0[j]
    }) by {
        if j < i {
        } else {
            assert(i >= alpha_row@.len() || i >= r0.len());
            assert(mid[j] == r0[j]);
        }
    }
    if premultiplied {
        unpremultiply8_dispatch(out_row);
        assert forall|j: int| 0 <= j < r0.len() implies #[trigger] out_row@[j] == unpremul_px(mid[j]) by {}
    }
}

/// Superblock size of the quantizer scale grid.
pub const SB: usize = 64;

/// Superblock grid dimensions for a `w x h` frame: `(ceil(w/64), ceil(h/64))`.
pub fn sb_grid(w: usize, h: usize) -> (r: (usize, usize))
    ensures
        r.0 == (w + 63) / 64,
        r.1 == (h + 63) / 64,
        r.0 * 64 >= w && (r.0 == 0 || (r.0 - 1) * 64 < w),
        r.1 * 64 >= h && (r.1 == 0 || (r.1 - 1) * 64 < h),
{
    let cols: usize = w / 64 + if w % 64 != 0 { 1 } else { 0 };
    let rows: usize = h / 64 + if h % 64 != 0 { 1 } else { 0 };
    (cols, rows)
}

} // verus!
