//! Strip-wise output of decoded frames: the cache-sized strip height and
//! copying a strip of rows out of an already converted frame.

use vstd::prelude::*;
use crate::cicp::ChromaSampling;
use crate::grid::{lemma_row_fits, PixelImage};
use vstd::arithmetic::div_mod::lemma_fundamental_div_mod_converse;

verus! {

/// Whether a decoded frame can be converted strip by strip: 8-bit colour
/// (not monochrome) whose coded size is its display size and whose matrix
/// has a strip kernel (identity and SMPTE 240M take the full conversion).
pub open spec fn strip_eligible_spec(
    bit_depth: u8,
    chroma: ChromaSampling,
    buffer_width: usize,
    buffer_height: usize,
    display_width: usize,
    display_height: usize,
    matrix_has_kernel: bool,
) -> bool {
    &&& bit_depth == 8
    &&& chroma != ChromaSampling::Monochrome
    &&& buffer_width == display_width
    &&& buffer_height == display_height
    &&& matrix_has_kernel
}

/// Decide whether a decoded frame streams in strips (see
/// [`strip_eligible_spec`]); otherwise it is converted whole first.
pub fn strip_eligible(
    bit_depth: u8,
    chroma: ChromaSampling,
    buffer_width: usize,
    buffer_height: usize,
    display_width: usize,
    display_height: usize,
    matrix_has_kernel: bool,
) -> (r: bool)
    ensures
        r == strip_eligible_spec(bit_depth, chroma, buffer_width, buffer_height, display_width, display_height, matrix_has_kernel),
{
    bit_depth == 8
        && chroma != ChromaSampling::Monochrome
        && buffer_width == display_width
        && buffer_height == display_height
        && matrix_has_kernel
}

/// Working-set target per strip: 256 KiB, which fits in L2.
pub open spec fn strip_target_bytes() -> int {
    262144
}

/// The strip height for a `display_width`-pixel frame of `bytes_per_pixel`
/// output bytes: as many rows as fit the working-set target (output row
/// plus a conservative two bytes of input per pixel), clamped to `2..=64`,
/// rounded down to even for 4:2:0 (two luma rows per chroma row).
pub open spec fn optimal_strip_height_spec(display_width: int, bytes_per_pixel: int, chroma_420: bool) -> int {
    let per_row = display_width * bytes_per_pixel + 2 * display_width;
    let h0 = if per_row > 0 { strip_target_bytes() / per_row } else { 16 };
    let h = if h0 < 2 { 2 } else if h0 > 64 { 64 } else { h0 };
    if chroma_420 { h - h % 2 } else { h }
}

/// Compute the cache-optimal strip height.
pub fn optimal_strip_height(display_width: usize, bytes_per_pixel: usize, chroma_420: bool) -> (r: usize)
    requires
        display_width * bytes_per_pixel + 2 * display_width <= usize::MAX,
    ensures
        r == optimal_strip_height_spec(display_width as int, bytes_per_pixel as int, chroma_420),
        2 <= r <= 64,
        chroma_420 ==> r % 2 == 0,
{
    proof {
        assert(display_width * bytes_per_pixel <= usize::MAX) by (nonlinear_arith)
            requires display_width * bytes_per_pixel + 2 * display_width <= usize::MAX, display_width >= 0;
    }
    let row_bytes_out = display_width * bytes_per_pixel;
    let row_bytes_in = display_width + display_width;
    let total_per_row = row_bytes_out + row_bytes_in;
    let target_bytes: usize = 256 * 1024;
    let h0: usize = if total_per_row > 0 { target_bytes / total_per_row } else { 16 };
    let h: usize = if h0 < 2 { 2 } else if h0 > 64 { 64 } else { h0 };
    if chroma_420 {
        h - h % 2
    } else {
        h
    }
}

/// Copy rows `y_start .. y_start + strip_height` of a converted frame into
/// rows `0 .. strip_height` of the strip buffer, `width` pixels per row;
/// bytes past each copied row are left as they were.
pub fn copy_strip_rows(src: &PixelImage, y_start: usize, strip_height: usize, width: usize, out: &mut PixelImage)
    requires
        src.wf(),
        old(out).wf(),
        y_start + strip_height <= src.height,
        strip_height <= old(out).height,
        width <= src.width,
        width <= old(out).width,
        src.bytes_per_pixel == old(out).bytes_per_pixel,
    ensures
        final(out).width == old(out).width,
        final(out).height == old(out).height,
        final(out).bytes_per_pixel == old(out).bytes_per_pixel,
        final(out).stride == old(out).stride,
        final(out).format == old(out).format,
        final(out).data@.len() == old(out).data@.len(),
        forall|k: int| 0 <= k < old(out).data@.len() ==> #[trigger] final(out).data@[k] == (
            if old(out).stride > 0 && k / (old(out).stride as int) < strip_height
                && k % (old(out).stride as int) < width * src.bytes_per_pixel {
                src.data@[(y_start + k / (old(out).stride as int)) * src.stride + k % (old(out).stride as int)]
            } else {
                old(out).data@[k]
            }),
{
    let ghost d0 = out.data@;
    let ghost os = out.stride as int;
    let bpp = src.bytes_per_pixel;
    proof {
        assert(width * bpp <= src.width * bpp) by (nonlinear_arith) requires width <= src.width;
        assert(width * bpp <= out.width * bpp) by (nonlinear_arith) requires width <= out.width;
    }
    let copy_bytes = width * bpp;
    let out_stride = out.stride;
    let src_stride = src.stride;
    let out_len = out.data.len();
    let src_len = src.data.len();
    let mut row: usize = 0;
    while row < strip_height
        invariant
            row <= strip_height,
            strip_height <= old(out).height,
            y_start + strip_height <= src.height,
            copy_bytes == width * bpp,
            copy_bytes <= src.row_bytes(),
            copy_bytes <= old(out).row_bytes(),
            bpp == src.bytes_per_pixel,
            src.wf(),
            old(out).wf(),
            out_stride == os,
            os == old(out).stride,
            src_stride == src.stride,
            d0 == old(out).data@,
            out_len == d0.len(),
            src_len == src.data@.len(),
            out.width == old(out).width,
            out.height == old(out).height,
            out.bytes_per_pixel == old(out).bytes_per_pixel,
            out.stride == old(out).stride,
            out.format == old(out).format,
            out.data@.len() == d0.len(),
            forall|k: int| 0 <= k < d0.len() ==> #[trigger] out.data@[k] == (
                if os > 0 && k / os < row && k % os < copy_bytes {
                    src.data@[(y_start + k / os) * src.stride + k % os]
                } else {
                    d0[k]
                }),
        decreases strip_height - row,
    {
        proof {
            lemma_row_fits(old(out).height as int, os, old(out).row_bytes(), d0.len() as int, row as int);
            lemma_row_fits(src.height as int, src.stride as int, src.row_bytes(), src.data@.len() as int, (y_start + row) as int);
        }
        let ob: usize = row * out_stride;
        let sb: usize = (y_start + row) * src_stride;
        let ghost before = out.data@;
        let mut c: usize = 0;
        while c < copy_bytes
            invariant
                c <= copy_bytes,
                row < strip_height,
                ob == row * os,
                sb == (y_start + row) * src.stride,
                ob + copy_bytes <= d0.len(),
                sb + copy_bytes <= src.data@.len(),
                out_len == d0.len(),
                src_len == src.data@.len(),
                out.width == old(out).width,
                out.height == old(out).height,
                out.bytes_per_pixel == old(out).bytes_per_pixel,
                out.stride == old(out).stride,
                out.format == old(out).format,
                out.data@.len() == d0.len(),
                forall|k: int| 0 <= k < d0.len() ==> #[trigger] out.data@[k] == (
                    if ob <= k < ob + c { src.data@[sb + (k - ob)] } else { before[k] }),
            decreases copy_bytes - c,
        {
            let v = src.data[sb + c];
            out.data.set(ob + c, v);
            c = c + 1;
        }
        proof {
            assert forall|k: int| 0 <= k < d0.len() implies #[trigger] out.data@[k] == (
                if os > 0 && k / os < row + 1 && k % os < copy_bytes {
                    src.data@[(y_start + k / os) * src.stride + k % os]
                } else {
                    d0[k]
                })
            by {
                if os > 0 {
                    let q = k / os;
                    let rem = k % os;
                    assert(k == q * os + rem && 0 <= rem < os && q >= 0) by (nonlinear_arith)
                        requires os > 0, q == k / os, rem == k % os, k >= 0;
                    if ob <= k < ob + copy_bytes {
                        lemma_fundamental_div_mod_converse(k, os, row as int, k - ob);
                    } else if q == row && rem < copy_bytes {
                        assert(k == row * os + rem);
                        assert(false);
                    }
                } else {
                    assert(copy_bytes == 0);
                }
            }
        }
        row = row + 1;
    }
}

/// The strips a `height`-row frame is delivered in, as `(first_row, rows)`:
/// in order from row 0, each `min(strip_height, rows left)` rows long, so
/// consecutive strips abut and together cover every row exactly once.
pub fn strip_plan(height: usize, strip_height: usize) -> (plan: Vec<(usize, usize)>)
    requires
        strip_height > 0,
    ensures
        plan@.len() == 0 <==> height == 0,
        plan@.len() > 0 ==> plan@[0].0 == 0,
        plan@.len() > 0 ==> plan@.last().0 + plan@.last().1 == height,
        forall|i: int| 0 <= i < plan@.len() ==> {
            let rows_left = height - (#[trigger] plan@[i]).0;
            &&& 0 < plan@[i].1
            &&& plan@[i].1 == (if strip_height < rows_left { strip_height as int } else { rows_left })
        },
        forall|i: int| 0 <= i < plan@.len() - 1 ==> #[trigger] plan@[i].0 + plan@[i].1 == plan@[i + 1].0,
{
    let mut plan: Vec<(usize, usize)> = Vec::new();
    let mut y: usize = 0;
    while y < height
        invariant
            strip_height > 0,
            y <= height,
            plan@.len() == 0 <==> y == 0,
            plan@.len() > 0 ==> plan@[0].0 == 0,
            plan@.len() > 0 ==> plan@.last().0 + plan@.last().1 == y,
            forall|i: int| 0 <= i < plan@.len() ==> {
                let rows_left = height - (#[trigger] plan@[i]).0;
                &&& 0 < plan@[i].1
                &&& plan@[i].1 == (if strip_height < rows_left { strip_height as int } else { rows_left })
            },
            forall|i: int| 0 <= i < plan@.len() - 1 ==> #[trigger] plan@[i].0 + plan@[i].1 == plan@[i + 1].0,
        decreases height - y,
    {
        let left = height - y;
        let h = if strip_height < left { strip_height } else { left };
        let ghost before = plan@;
        plan.push((y, h));
        proof {
            assert forall|i: int| 0 <= i < plan@.len() - 1 implies #[trigger] plan@[i].0 + plan@[i].1 == plan@[i + 1].0 by {
                if i < before.len() - 1 {
                    assert(plan@[i] == before[i] && plan@[i + 1] == before[i + 1]);
                } else {
                    assert(plan@[i] == before.last());
                }
            }
        }
        y = y + h;
    }
    plan
}

} // verus!
