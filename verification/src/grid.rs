//! Grid (tiled) AVIF canvas assembly: validating a decoded tile set against
//! the declared grid geometry and byte-stitching tiles into the canvas.

use vstd::prelude::*;
use vstd::arithmetic::div_mod::lemma_fundamental_div_mod_converse;

verus! {

/// A packed pixel buffer: `height` rows of `width * bytes_per_pixel` bytes,
/// row `r` starting at byte `r * stride`.
#[derive(Debug, Clone)]
pub struct PixelImage {
    pub width: usize,
    pub height: usize,
    pub bytes_per_pixel: usize,
    /// Bytes from the start of one row to the start of the next.
    pub stride: usize,
    /// Identifies the pixel format (layout, channels, depth).
    pub format: u32,
    pub data: Vec<u8>,
}

impl PixelImage {
    /// Bytes of pixel data in one row.
    pub open spec fn row_bytes(self) -> int {
        self.width * self.bytes_per_pixel
    }

    /// Rows do not overlap and every row lies inside the data.
    pub open spec fn wf(self) -> bool {
        &&& self.stride >= self.row_bytes()
        &&& self.height > 0 ==> (self.height - 1) * self.stride + self.row_bytes() <= self.data@.len()
    }

    /// A `width x height` image of the given format filled with `fill`,
    /// tightly packed.
    pub fn filled(width: usize, height: usize, bytes_per_pixel: usize, format: u32, fill: u8) -> (r: Option<Self>)
        ensures
            match r {
                Some(img) => {
                    &&& img.wf()
                    &&& img.width == width && img.height == height
                    &&& img.bytes_per_pixel == bytes_per_pixel && img.format == format
                    &&& img.stride == width * bytes_per_pixel
                    &&& img.data@.len() == width * bytes_per_pixel * height
                    &&& forall|k: int| 0 <= k < img.data@.len() ==> #[trigger] img.data@[k] == fill
                },
                None => width * bytes_per_pixel > usize::MAX || width * bytes_per_pixel * height > usize::MAX,
            },
    {
        let rb = match width.checked_mul(bytes_per_pixel) {
            Some(v) => v,
            None => { return None; },
        };
        let total = match rb.checked_mul(height) {
            Some(v) => v,
            None => { return None; },
        };
        let data = vec![fill; total];
        proof {
            if height > 0 {
                assert((height - 1) * rb + rb == rb * height) by (nonlinear_arith);
            }
        }
        Some(PixelImage { width, height, bytes_per_pixel, stride: rb, format, data })
    }
}

/// Why a decoded tile set cannot be stitched.
#[derive(Debug, Clone, Copy, PartialEq, Eq, Structural)]
pub enum GridError {
    /// Tiles decoded to non-uniform dimensions or formats.
    NonUniformTiles,
    /// Tiles do not cover the declared output dimensions.
    UndersizedCoverage,
    /// The canvas size overflows the address space.
    TooLarge,
}

/// `a * b`, saturating at `usize::MAX`.
pub open spec fn sat_mul_usize(a: int, b: int) -> int {
    if a * b > usize::MAX { usize::MAX as int } else { a * b }
}

/// Tile `i` has the first tile's dimensions and format.
pub open spec fn tile_matches_first(tiles: Seq<PixelImage>, i: int) -> bool {
    &&& tiles[i].width == tiles[0].width
    &&& tiles[i].height == tiles[0].height
    &&& tiles[i].bytes_per_pixel == tiles[0].bytes_per_pixel
    &&& tiles[i].format == tiles[0].format
}

/// Every tile has the first tile's dimensions and format.
pub open spec fn tiles_uniform(tiles: Seq<PixelImage>) -> bool {
    forall|i: int| 0 <= i < tiles.len() ==> #[trigger] tile_matches_first(tiles, i)
}

/// Tiles of the first tile's size, `cols` per row, cover the output canvas.
pub open spec fn tiles_cover(tiles: Seq<PixelImage>, cols: int, output_width: int, output_height: int) -> bool {
    let rows: int = (tiles.len() as int) / cols;
    sat_mul_usize(tiles[0].width as int, cols) >= output_width
        && sat_mul_usize(tiles[0].height as int, rows) >= output_height
}

/// Validate a decoded tile set against the declared grid geometry and
/// return the single authoritative tile size.
pub fn validate_tile_uniformity(tiles: &[PixelImage], cols: usize, output_width: usize, output_height: usize) -> (r: Result<(usize, usize), GridError>)
    requires
        tiles@.len() > 0,
        cols > 0,
    ensures
        !tiles_uniform(tiles@) ==> r == Err::<(usize, usize), GridError>(GridError::NonUniformTiles),
        tiles_uniform(tiles@) && !tiles_cover(tiles@, cols as int, output_width as int, output_height as int)
            ==> r == Err::<(usize, usize), GridError>(GridError::UndersizedCoverage),
        tiles_uniform(tiles@) && tiles_cover(tiles@, cols as int, output_width as int, output_height as int)
            ==> r == Ok::<(usize, usize), GridError>((tiles@[0].width, tiles@[0].height)),
{
    let tile_w = tiles[0].width;
    let tile_h = tiles[0].height;
    let bpp = tiles[0].bytes_per_pixel;
    let format = tiles[0].format;
    let mut i: usize = 0;
    while i < tiles.len()
        invariant
            i <= tiles@.len(),
            tile_w == tiles@[0].width && tile_h == tiles@[0].height,
            bpp == tiles@[0].bytes_per_pixel && format == tiles@[0].format,
            forall|j: int| 0 <= j < i ==> #[trigger] tile_matches_first(tiles@, j),
        decreases tiles@.len() - i,
    {
        if tiles[i].width != tile_w || tiles[i].height != tile_h || tiles[i].bytes_per_pixel != bpp
            || tiles[i].format != format {
            proof {
                assert(!tiles_uniform(tiles@)) by {
                    assert(!tile_matches_first(tiles@, i as int));
                }
            }
            return Err(GridError::NonUniformTiles);
        }
        assert(tile_matches_first(tiles@, i as int));
        i = i + 1;
    }
    let rows = tiles.len() / cols;
    let cover_w: usize = match tile_w.checked_mul(cols) { Some(v) => v, None => usize::MAX };
    let cover_h: usize = match tile_h.checked_mul(rows) { Some(v) => v, None => usize::MAX };
    if cover_w < output_width || cover_h < output_height {
        return Err(GridError::UndersizedCoverage);
    }
    Ok((tile_w, tile_h))
}

/// Rows of a tile placed at `dst_y` that land inside an `output_height` canvas.
pub open spec fn copied_rows(tile_h: int, dst_y: int, output_height: int) -> int {
    let avail = if output_height > dst_y { output_height - dst_y } else { 0 };
    if tile_h < avail { tile_h } else { avail }
}

/// Pixels per row of a tile placed at `dst_x` that land inside an
/// `output_width` canvas.
pub open spec fn copied_cols(tile_w: int, dst_x: int, output_width: int) -> int {
    let avail = if output_width > dst_x { output_width - dst_x } else { 0 };
    if tile_w < avail { tile_w } else { avail }
}

/// Byte `k` of the output lies in the region the tile is copied to.
pub open spec fn in_copy_region(k: int, stride: int, dst_y: int, nrows: int, x0: int, nbytes: int) -> bool {
    &&& stride > 0
    &&& 0 <= k
    &&& dst_y <= k / stride < dst_y + nrows
    &&& x0 <= k % stride < x0 + nbytes
}

/// Output byte `k` after copying the tile: bytes in the copy region come
/// from the corresponding tile byte, all others keep their value.
pub open spec fn stitched_byte(out: Seq<u8>, stride: int, tile: Seq<u8>, tile_stride: int, dst_y: int, nrows: int, x0: int, nbytes: int, k: int) -> u8 {
    if in_copy_region(k, stride, dst_y, nrows, x0, nbytes) {
        tile[(k / stride - dst_y) * tile_stride + (k % stride - x0)]
    } else {
        out[k]
    }
}

pub(crate) proof fn lemma_row_fits(height: int, stride: int, row_bytes: int, len: int, r: int)
    requires
        0 <= r < height,
        stride >= row_bytes >= 0,
        (height - 1) * stride + row_bytes <= len,
    ensures
        0 <= r * stride,
        r * stride + row_bytes <= len,
{
    assert(0 <= r * stride) by (nonlinear_arith) requires r >= 0, stride >= 0;
    assert(r * stride <= (height - 1) * stride) by (nonlinear_arith) requires r <= height - 1, stride >= 0;
}

/// Copy one tile's pixels into the stitched output at `(dst_x, dst_y)`,
/// clipped to the declared `output_width x output_height` canvas; tiles
/// that start outside the canvas copy nothing.
pub fn stitch_tile_into_buffer(
    tile: &PixelImage,
    output: &mut PixelImage,
    dst_x: usize,
    dst_y: usize,
    output_width: usize,
    output_height: usize,
    bpp: usize,
)
    requires
        tile.wf(),
        old(output).wf(),
        tile.bytes_per_pixel == bpp,
        old(output).bytes_per_pixel == bpp,
        output_width <= old(output).width,
        output_height <= old(output).height,
    ensures
        final(output).width == old(output).width,
        final(output).height == old(output).height,
        final(output).bytes_per_pixel == old(output).bytes_per_pixel,
        final(output).stride == old(output).stride,
        final(output).format == old(output).format,
        final(output).data@.len() == old(output).data@.len(),
        forall|k: int| 0 <= k < old(output).data@.len() ==> #[trigger] final(output).data@[k] == stitched_byte(
            old(output).data@,
            old(output).stride as int,
            tile.data@,
            tile.stride as int,
            dst_y as int,
            copied_rows(tile.height as int, dst_y as int, output_height as int),
            dst_x * bpp,
            copied_cols(tile.width as int, dst_x as int, output_width as int) * bpp,
            k,
        ),
{
    let ghost d0 = output.data@;
    let ghost os = output.stride as int;
    let ghost nrows = copied_rows(tile.height as int, dst_y as int, output_height as int);
    let ghost ncols = copied_cols(tile.width as int, dst_x as int, output_width as int);
    let avail_h: usize = if output_height > dst_y { output_height - dst_y } else { 0 };
    let avail_w: usize = if output_width > dst_x { output_width - dst_x } else { 0 };
    if avail_h == 0 || avail_w == 0 {
        assert forall|k: int| 0 <= k < d0.len() implies #[trigger] output.data@[k] == stitched_byte(
            d0, os, tile.data@, tile.stride as int, dst_y as int, nrows, dst_x * bpp, ncols * bpp, k)
        by {
            assert(nrows == 0 || ncols == 0);
            assert(ncols * bpp == 0 || nrows == 0) by (nonlinear_arith) requires ncols == 0 || nrows == 0;
        }
        return;
    }
    let rows: usize = if tile.height < avail_h { tile.height } else { avail_h };
    let copy_w: usize = if tile.width < avail_w { tile.width } else { avail_w };
    proof {
        assert(copy_w * bpp <= tile.width * bpp) by (nonlinear_arith) requires copy_w <= tile.width;
        assert(dst_x * bpp + copy_w * bpp == (dst_x + copy_w) * bpp) by (nonlinear_arith);
        assert((dst_x + copy_w) * bpp <= output.width * bpp) by (nonlinear_arith)
            requires dst_x + copy_w <= output.width;
    }
    let copy_bytes: usize = copy_w * bpp;
    let x0: usize = dst_x * bpp;
    let out_stride = output.stride;
    let tile_stride = tile.stride;
    let out_len = output.data.len();
    let tile_len = tile.data.len();
    let mut y: usize = 0;
    while y < rows
        invariant
            y <= rows,
            rows == nrows,
            copy_w == ncols,
            copy_bytes == copy_w * bpp,
            x0 == dst_x * bpp,
            x0 + copy_bytes <= old(output).row_bytes(),
            copy_bytes <= tile.row_bytes(),
            rows <= tile.height,
            dst_y + rows <= old(output).height,
            out_stride == os,
            out_stride == old(output).stride,
            out_len == d0.len(),
            tile_len == tile.data@.len(),
            tile_stride == tile.stride,
            tile.wf(),
            old(output).wf(),
            output.width == old(output).width,
            output.height == old(output).height,
            output.bytes_per_pixel == old(output).bytes_per_pixel,
            output.stride == old(output).stride,
            output.format == old(output).format,
            output.data@.len() == d0.len(),
            d0 == old(output).data@,
            forall|k: int| 0 <= k < d0.len() ==> #[trigger] output.data@[k] == stitched_byte(
                d0, os, tile.data@, tile.stride as int, dst_y as int, y as int, x0 as int, copy_bytes as int, k),
        decreases rows - y,
    {
        proof {
            lemma_row_fits(old(output).height as int, os, old(output).row_bytes(), d0.len() as int, (dst_y + y) as int);
            lemma_row_fits(tile.height as int, tile.stride as int, tile.row_bytes(), tile.data@.len() as int, y as int);
        }
        let ob: usize = (dst_y + y) * out_stride + x0;
        let tb: usize = y * tile_stride;
        let ghost before = output.data@;
        let mut c: usize = 0;
        while c < copy_bytes
            invariant
                c <= copy_bytes,
                y < rows,
                rows == nrows,
                copy_bytes == copy_w * bpp,
                x0 == dst_x * bpp,
                x0 + copy_bytes <= old(output).row_bytes(),
                copy_bytes <= tile.row_bytes(),
                out_stride == os,
                os >= old(output).row_bytes(),
                out_len == d0.len(),
                tile_len == tile.data@.len(),
                ob == (dst_y + y) * os + x0,
                tb == y * tile.stride,
                ob + copy_bytes <= d0.len(),
                tb + copy_bytes <= tile.data@.len(),
                output.width == old(output).width,
                output.height == old(output).height,
                output.bytes_per_pixel == old(output).bytes_per_pixel,
                output.stride == old(output).stride,
                output.format == old(output).format,
                output.data@.len() == d0.len(),
                forall|k: int| 0 <= k < d0.len() ==> #[trigger] output.data@[k] == (
                    if ob <= k < ob + c { tile.data@[tb + (k - ob)] } else { before[k] }),
            decreases copy_bytes - c,
        {
            let v = tile.data[tb + c];
            output.data.set(ob + c, v);
            c = c + 1;
        }
        proof {
            assert forall|k: int| 0 <= k < d0.len() implies #[trigger] output.data@[k] == stitched_byte(
                d0, os, tile.data@, tile.stride as int, dst_y as int, y + 1, x0 as int, copy_bytes as int, k)
            by {
                if copy_bytes > 0 {
                    assert(os > 0);
                    let q = k / os;
                    let rem = k % os;
                    assert(k == q * os + rem && 0 <= rem < os) by (nonlinear_arith)
                        requires os > 0, q == k / os, rem == k % os;
                    if ob <= k < ob + copy_bytes {
                        lemma_fundamental_div_mod_converse(k, os, (dst_y + y) as int, x0 + (k - ob));
                    } else if q == dst_y + y && x0 <= rem < x0 + copy_bytes {
                        assert(k == (dst_y + y) * os + rem);
                        assert(false);
                    }
                } else {
                    assert(!in_copy_region(k, os, dst_y as int, y + 1, x0 as int, 0));
                    assert(!in_copy_region(k, os, dst_y as int, y as int, x0 as int, 0));
                }
            }
        }
        y = y + 1;
    }
}

/// The grid tile that covers output byte `k`, for `tw x th` tiles laid out
/// `cols` per row on a canvas whose rows are `stride` bytes long.
pub open spec fn covering_tile(k: int, stride: int, cols: int, tw: int, th: int, bpp: int) -> int {
    (k / stride / th) * cols + (k % stride) / (tw * bpp)
}

/// Byte `k` of the stitched canvas (`output_width` pixels of `bpp` bytes per
/// row): the byte at the same position inside the tile that covers it.
pub open spec fn grid_byte(tiles: Seq<PixelImage>, cols: int, output_width: int, bpp: int, k: int) -> u8 {
    let stride = output_width * bpp;
    let tw = tiles[0].width as int;
    let th = tiles[0].height as int;
    let t = covering_tile(k, stride, cols, tw, th, bpp);
    tiles[t].data@[((k / stride) % th) * tiles[t].stride + (k % stride) % (tw * bpp)]
}

/// Tile `a * cols + b` is copied exactly onto the canvas bytes it covers,
/// and each such byte comes from the same position inside the tile.
proof fn lemma_tile_region(k: int, ow: int, oh: int, bpp: int, cols: int, tw: int, th: int, a: int, b: int)
    requires
        ow > 0,
        oh > 0,
        bpp > 0,
        cols > 0,
        tw > 0,
        th > 0,
        tw * cols >= ow,
        0 <= k < (ow * bpp) * oh,
        a >= 0,
        0 <= b < cols,
    ensures
        in_copy_region(k, ow * bpp, a * th, copied_rows(th, a * th, oh), (b * tw) * bpp, copied_cols(tw, b * tw, ow) * bpp)
            <==> covering_tile(k, ow * bpp, cols, tw, th, bpp) == a * cols + b,
        in_copy_region(k, ow * bpp, a * th, copied_rows(th, a * th, oh), (b * tw) * bpp, copied_cols(tw, b * tw, ow) * bpp)
            ==> (k / (ow * bpp) - a * th == (k / (ow * bpp)) % th
                && k % (ow * bpp) - (b * tw) * bpp == (k % (ow * bpp)) % (tw * bpp)),
{
    let stride = ow * bpp;
    assert(stride > 0) by (nonlinear_arith) requires ow > 0, bpp > 0, stride == ow * bpp;
    let w = tw * bpp;
    assert(w > 0) by (nonlinear_arith) requires tw > 0, bpp > 0, w == tw * bpp;
    let y = k / stride;
    let rem = k % stride;
    assert(k == y * stride + rem && 0 <= rem < stride) by (nonlinear_arith)
        requires stride > 0, y == k / stride, rem == k % stride;
    assert(0 <= y < oh) by (nonlinear_arith)
        requires k == y * stride + rem, 0 <= rem < stride, 0 <= k < stride * oh, stride > 0;
    let qy = y / th;
    let ry = y % th;
    assert(y == qy * th + ry && 0 <= ry < th && qy >= 0) by (nonlinear_arith)
        requires th > 0, qy == y / th, ry == y % th, y >= 0;
    let q2 = rem / w;
    let r2 = rem % w;
    assert(rem == q2 * w + r2 && 0 <= r2 < w && q2 >= 0) by (nonlinear_arith)
        requires w > 0, q2 == rem / w, r2 == rem % w, rem >= 0;
    assert(stride <= w * cols) by (nonlinear_arith)
        requires stride == ow * bpp, w == tw * bpp, tw * cols >= ow, bpp > 0;
    assert(q2 < cols) by (nonlinear_arith)
        requires rem == q2 * w + r2, r2 >= 0, rem < stride, stride <= w * cols, w > 0;
    let x0 = (b * tw) * bpp;
    assert(x0 == b * w) by (nonlinear_arith) requires x0 == (b * tw) * bpp, w == tw * bpp;
    let nrows = copied_rows(th, a * th, oh);
    let ncols = copied_cols(tw, b * tw, ow);
    let in_region = in_copy_region(k, stride, a * th, nrows, x0, ncols * bpp);
    assert(covering_tile(k, stride, cols, tw, th, bpp) == qy * cols + q2);
    if in_region {
        assert(a * th <= y < a * th + th);
        assert(b * w <= rem < b * w + w) by (nonlinear_arith)
            requires x0 <= rem < x0 + ncols * bpp, x0 == b * w, ncols <= tw, w == tw * bpp, bpp > 0;
        lemma_fundamental_div_mod_converse(y, th, a, y - a * th);
        lemma_fundamental_div_mod_converse(rem, w, b, rem - b * w);
    }
    if qy * cols + q2 == a * cols + b {
        assert(qy == a && q2 == b) by (nonlinear_arith)
            requires qy * cols + q2 == a * cols + b, 0 <= q2 < cols, 0 <= b < cols, cols > 0;
        assert(a * th <= y < a * th + th) by (nonlinear_arith)
            requires y == qy * th + ry, 0 <= ry < th, qy == a;
        assert(b * w <= rem < b * w + w) by (nonlinear_arith)
            requires rem == q2 * w + r2, 0 <= r2 < w, q2 == b;
        assert(y < a * th + nrows);
        assert(b * tw < ow) by (nonlinear_arith)
            requires b * w <= rem, rem < stride, stride == ow * bpp, w == tw * bpp, bpp > 0;
        assert(rem < x0 + ncols * bpp) by (nonlinear_arith)
            requires rem < b * w + w, rem < ow * bpp, x0 == b * w, w == tw * bpp,
                ncols == (if tw < ow - b * tw { tw } else { ow - b * tw }), bpp > 0;
        assert(in_region);
    }
}

/// A tile whose origin lies at or past the canvas edge covers no canvas byte.
proof fn lemma_far_tile_uncovered(k: int, ow: int, oh: int, bpp: int, cols: int, tw: int, th: int, a: int, b: int)
    requires
        ow > 0,
        oh > 0,
        bpp > 0,
        cols > 0,
        tw > 0,
        th > 0,
        tw * cols >= ow,
        0 <= k < (ow * bpp) * oh,
        a >= 0,
        0 <= b < cols,
        a * th >= oh || b * tw >= ow,
    ensures
        covering_tile(k, ow * bpp, cols, tw, th, bpp) != a * cols + b,
{
    lemma_tile_region(k, ow, oh, bpp, cols, tw, th, a, b);
    let nrows = copied_rows(th, a * th, oh);
    let ncols = copied_cols(tw, b * tw, ow);
    if a * th >= oh {
        assert(nrows == 0);
    } else {
        assert(ncols == 0);
        assert(ncols * bpp == 0) by (nonlinear_arith) requires ncols == 0;
    }
    assert(!in_copy_region(k, ow * bpp, a * th, nrows, (b * tw) * bpp, ncols * bpp));
}

/// Stitch converted tile images into one canvas of the declared output
/// size: validates the tile set, allocates a zeroed canvas, then copies
/// each tile to its grid position, cropping at the right and bottom edges.
pub fn stitch_tile_images(tiles: &[PixelImage], cols: usize, output_width: usize, output_height: usize) -> (r: Result<PixelImage, GridError>)
    requires
        tiles@.len() > 0,
        cols > 0,
        forall|i: int| 0 <= i < tiles@.len() ==> #[trigger] tiles@[i].wf(),
    ensures
        !tiles_uniform(tiles@) ==> r == Err::<PixelImage, GridError>(GridError::NonUniformTiles),
        tiles_uniform(tiles@) && !tiles_cover(tiles@, cols as int, output_width as int, output_height as int)
            ==> r == Err::<PixelImage, GridError>(GridError::UndersizedCoverage),
        tiles_uniform(tiles@) && tiles_cover(tiles@, cols as int, output_width as int, output_height as int) ==> {
            let bpp = tiles@[0].bytes_per_pixel as int;
            let ow = output_width as int;
            let oh = output_height as int;
            if ow * oh > usize::MAX || ow * oh * bpp > usize::MAX || ow * bpp > usize::MAX {
                r == Err::<PixelImage, GridError>(GridError::TooLarge)
            } else {
                r matches Ok(img) && {
                    &&& img.wf()
                    &&& img.width == output_width && img.height == output_height
                    &&& img.bytes_per_pixel == bpp && img.format == tiles@[0].format
                    &&& img.stride == ow * bpp
                    &&& img.data@.len() == ow * oh * bpp
                    &&& forall|k: int| 0 <= k < img.data@.len() ==> #[trigger] img.data@[k] == grid_byte(tiles@, cols as int, ow, bpp, k)
                }
            }
        },
{
    let (tile_w, tile_h) = match validate_tile_uniformity(tiles, cols, output_width, output_height) {
        Ok(dims) => dims,
        Err(e) => { return Err(e); },
    };
    let bpp = tiles[0].bytes_per_pixel;
    let format = tiles[0].format;
    let ghost ow = output_width as int;
    let ghost oh = output_height as int;
    let n = match output_width.checked_mul(output_height) {
        Some(n) => n,
        None => { return Err(GridError::TooLarge); },
    };
    let total = match n.checked_mul(bpp) {
        Some(t) => t,
        None => { return Err(GridError::TooLarge); },
    };
    proof {
        assert(ow * oh * bpp == ow * bpp * oh) by (nonlinear_arith);
    }
    let mut output = match PixelImage::filled(output_width, output_height, bpp, format, 0) {
        Some(img) => img,
        None => { return Err(GridError::TooLarge); },
    };
    let ghost ts = tiles@;
    let ghost stride = ow * bpp;
    let ghost tw = tile_w as int;
    let ghost th = tile_h as int;
    let ghost rows: int = (ts.len() as int) / (cols as int);
    proof {
        assert(total == stride * oh) by (nonlinear_arith) requires total == ow * oh * bpp, stride == ow * bpp;
        assert(forall|j: int| 0 <= j < ts.len() ==> #[trigger] tile_matches_first(ts, j));
        assert forall|k: int| 0 <= k < total implies #[trigger] output.data@[k] == (
            if covering_tile(k, stride, cols as int, tw, th, bpp as int) < 0 {
                grid_byte(ts, cols as int, ow, bpp as int, k)
            } else {
                0u8
            })
        by {
            lemma_pixels_positive(k, ow, oh, bpp as int, stride, total as int);
            lemma_tiles_positive(ts, cols as int, ow, oh, tw, th);
            lemma_covering_in_range(k, ow, oh, bpp as int, cols as int, tw, th, rows, ts.len() as int);
        }
    }
    let len = tiles.len();
    let mut i: usize = 0;
    while i < len
        invariant
            i <= len,
            len == ts.len(),
            ts == tiles@,
            tiles_uniform(ts),
            tiles_cover(ts, cols as int, ow, oh),
            forall|j: int| 0 <= j < ts.len() ==> #[trigger] ts[j].wf(),
            cols > 0,
            tile_w == ts[0].width && tile_h == ts[0].height,
            tw == tile_w && th == tile_h,
            bpp == ts[0].bytes_per_pixel,
            ow == output_width && oh == output_height,
            stride == ow * bpp,
            rows == (ts.len() as int) / (cols as int),
            total == stride * oh,
            output.wf(),
            output.width == output_width && output.height == output_height,
            output.bytes_per_pixel == bpp && output.format == format,
            output.stride == stride,
            output.data@.len() == total,
            forall|k: int| 0 <= k < total ==> #[trigger] output.data@[k] == (
                if covering_tile(k, stride, cols as int, tw, th, bpp as int) < i {
                    grid_byte(ts, cols as int, ow, bpp as int, k)
                } else {
                    0u8
                }),
        decreases len - i,
    {
        let row = i / cols;
        let col = i % cols;
        let ghost before = output.data@;
        proof {
            assert(i == row * cols + col && 0 <= col < cols) by (nonlinear_arith)
                requires cols > 0, row == i / cols, col == i % cols, i >= 0;
            assert(tile_matches_first(ts, i as int));
        }
        let dx = col.checked_mul(tile_w);
        let dy = row.checked_mul(tile_h);
        if dx.is_some() && dy.is_some() {
            let dst_x = dx.unwrap();
            let dst_y = dy.unwrap();
            stitch_tile_into_buffer(&tiles[i], &mut output, dst_x, dst_y, output_width, output_height, bpp);
            proof {
                assert forall|k: int| 0 <= k < total implies #[trigger] output.data@[k] == (
                    if covering_tile(k, stride, cols as int, tw, th, bpp as int) < i + 1 {
                        grid_byte(ts, cols as int, ow, bpp as int, k)
                    } else {
                        0u8
                    })
                by {
                    lemma_pixels_positive(k, ow, oh, bpp as int, stride, total as int);
                    lemma_tiles_positive(ts, cols as int, ow, oh, tw, th);
                    lemma_tile_region(k, ow, oh, bpp as int, cols as int, tw, th, row as int, col as int);
                }
            }
        } else {
            proof {
                assert forall|k: int| 0 <= k < total implies #[trigger] output.data@[k] == (
                    if covering_tile(k, stride, cols as int, tw, th, bpp as int) < i + 1 {
                        grid_byte(ts, cols as int, ow, bpp as int, k)
                    } else {
                        0u8
                    })
                by {
                    lemma_pixels_positive(k, ow, oh, bpp as int, stride, total as int);
                    lemma_tiles_positive(ts, cols as int, ow, oh, tw, th);
                    assert(row * th >= oh || col * tw >= ow);
                    lemma_far_tile_uncovered(k, ow, oh, bpp as int, cols as int, tw, th, row as int, col as int);
                }
            }
        }
        i = i + 1;
    }
    proof {
        assert forall|k: int| 0 <= k < total implies #[trigger] output.data@[k] == grid_byte(ts, cols as int, ow, bpp as int, k) by {
            lemma_pixels_positive(k, ow, oh, bpp as int, stride, total as int);
            lemma_tiles_positive(ts, cols as int, ow, oh, tw, th);
            lemma_covering_in_range(k, ow, oh, bpp as int, cols as int, tw, th, rows, ts.len() as int);
        }
    }
    Ok(output)
}

/// A byte inside a non-empty canvas means every canvas dimension is positive.
proof fn lemma_pixels_positive(k: int, ow: int, oh: int, bpp: int, stride: int, total: int)
    requires
        ow >= 0,
        oh >= 0,
        bpp >= 0,
        stride == ow * bpp,
        total == stride * oh,
        0 <= k < total,
    ensures
        ow > 0 && oh > 0 && bpp > 0 && stride > 0,
{
    assert(ow > 0 && oh > 0 && bpp > 0 && stride > 0) by (nonlinear_arith)
        requires ow >= 0, oh >= 0, bpp >= 0, stride == ow * bpp, total == stride * oh, 0 <= k < total;
}

/// Covering a non-empty canvas needs tiles of positive size.
proof fn lemma_tiles_positive(ts: Seq<PixelImage>, cols: int, ow: int, oh: int, tw: int, th: int)
    requires
        ts.len() > 0,
        cols > 0,
        tw == ts[0].width,
        th == ts[0].height,
        tiles_cover(ts, cols, ow, oh),
        ow > 0,
        oh > 0,
    ensures
        tw > 0,
        th > 0,
        tw * cols >= ow,
        th * ((ts.len() as int) / cols) >= oh,
{
    let rows: int = (ts.len() as int) / cols;
    assert(rows >= 0) by (nonlinear_arith) requires rows == (ts.len() as int) / cols, cols > 0, ts.len() >= 0;
    assert(tw * cols >= 0 && th * rows >= 0) by (nonlinear_arith) requires tw >= 0, th >= 0, cols > 0, rows >= 0;
    assert(tw * cols >= ow);
    assert(th * rows >= oh);
    assert(tw > 0) by (nonlinear_arith) requires tw >= 0, tw * cols >= ow, ow > 0;
    assert(th > 0) by (nonlinear_arith) requires th >= 0, th * rows >= oh, oh > 0;
}

/// Every canvas byte is covered by one of the tiles.
proof fn lemma_covering_in_range(k: int, ow: int, oh: int, bpp: int, cols: int, tw: int, th: int, rows: int, n: int)
    requires
        ow > 0,
        oh > 0,
        bpp > 0,
        cols > 0,
        tw > 0,
        th > 0,
        tw * cols >= ow,
        th * rows >= oh,
        rows == n / cols,
        n >= 0,
        0 <= k < (ow * bpp) * oh,
    ensures
        0 <= covering_tile(k, ow * bpp, cols, tw, th, bpp) < n,
{
    let stride = ow * bpp;
    let w = tw * bpp;
    assert(stride > 0 && w > 0) by (nonlinear_arith) requires ow > 0, bpp > 0, tw > 0, stride == ow * bpp, w == tw * bpp;
    let y = k / stride;
    let rem = k % stride;
    assert(k == y * stride + rem && 0 <= rem < stride) by (nonlinear_arith)
        requires stride > 0, y == k / stride, rem == k % stride;
    assert(0 <= y < oh) by (nonlinear_arith)
        requires k == y * stride + rem, 0 <= rem < stride, 0 <= k < stride * oh, stride > 0;
    let qy = y / th;
    assert(0 <= qy < rows) by (nonlinear_arith)
        requires th > 0, qy == y / th, 0 <= y < oh, th * rows >= oh;
    let q2 = rem / w;
    assert(0 <= q2 < cols) by (nonlinear_arith)
        requires w > 0, q2 == rem / w, 0 <= rem < stride, stride == ow * bpp, w == tw * bpp, tw * cols >= ow, bpp > 0;
    assert(rows * cols <= n) by (nonlinear_arith) requires rows == n / cols, cols > 0, n >= 0;
    assert(0 <= qy * cols + q2 < n) by (nonlinear_arith)
        requires 0 <= qy < rows, 0 <= q2 < cols, rows * cols <= n;
}

/// Byte `k` of `img` cropped (or zero-padded) to `width` pixels per row:
/// rows and columns inside both the source and the crop are copied, every
/// other byte is zero.
pub open spec fn cropped_byte(img: PixelImage, width: int, k: int) -> u8 {
    let stride = width * img.bytes_per_pixel;
    let y = k / stride;
    let j = k % stride;
    let copy_w = if img.width < width { img.width as int } else { width };
    if y < img.height && j < copy_w * img.bytes_per_pixel {
        img.data@[y * img.stride + j]
    } else {
        0
    }
}

/// Crop a decoded image to its display size `width x height` (zero-padding
/// any part the image does not cover); `None` when the cropped buffer's
/// size overflows the address space.
pub fn crop_image(image: &PixelImage, width: usize, height: usize) -> (r: Option<PixelImage>)
    requires
        image.wf(),
    ensures
        r is None <==> (width * height > usize::MAX || width * height * image.bytes_per_pixel > usize::MAX
            || width * image.bytes_per_pixel > usize::MAX),
        r matches Some(out) ==> {
            &&& out.wf()
            &&& out.width == width && out.height == height
            &&& out.bytes_per_pixel == image.bytes_per_pixel && out.format == image.format
            &&& out.stride == width * image.bytes_per_pixel
            &&& out.data@.len() == width * height * image.bytes_per_pixel
            &&& forall|k: int| 0 <= k < out.data@.len() ==> #[trigger] out.data@[k] == cropped_byte(*image, width as int, k)
        },
{
    let bpp = image.bytes_per_pixel;
    let ghost w = width as int;
    let ghost h = height as int;
    let ghost b = bpp as int;
    proof {
        assert(w * h * b == w * b * h) by (nonlinear_arith);
    }
    let n = match width.checked_mul(height) {
        Some(n) => n,
        None => { return None; },
    };
    if n.checked_mul(bpp).is_none() {
        return None;
    }
    let mut out = match PixelImage::filled(width, height, bpp, image.format, 0) {
        Some(img) => img,
        None => { return None; },
    };
    let ghost zeros = out.data@;
    stitch_tile_into_buffer(image, &mut out, 0, 0, width, height, bpp);
    proof {
        let stride = w * b;
        let nrows = copied_rows(image.height as int, 0, h);
        let ncols = copied_cols(image.width as int, 0, w);
        assert forall|k: int| 0 <= k < out.data@.len() implies #[trigger] out.data@[k] == cropped_byte(*image, w, k) by {
            assert(stride > 0 && h > 0) by (nonlinear_arith)
                requires stride == w * b, 0 <= k < w * b * h, w >= 0, b >= 0, h >= 0;
            let y = k / stride;
            let j = k % stride;
            assert(k == y * stride + j && 0 <= j < stride) by (nonlinear_arith)
                requires stride > 0, y == k / stride, j == k % stride;
            assert(0 <= y < h) by (nonlinear_arith)
                requires k == y * stride + j, 0 <= j < stride, 0 <= k < stride * h, stride > 0;
            assert(ncols * b == (if image.width < w { image.width as int } else { w }) * b);
            assert(zeros[k] == 0u8);
        }
    }
    Some(out)
}

/// Byte `k` of a strip buffer (rows of `stride` bytes) lies under tile
/// `k % stride / (tw * bpp)` of a row of `n` tiles of `tw x th` pixels,
/// within the first `strip_height` rows and `output_width` pixels.
pub open spec fn strip_covered(k: int, stride: int, n: int, tw: int, th: int, bpp: int, strip_height: int, output_width: int) -> bool {
    &&& stride > 0
    &&& tw * bpp > 0
    &&& 0 <= k
    &&& k / stride < th
    &&& k / stride < strip_height
    &&& k % stride < output_width * bpp
    &&& (k % stride) / (tw * bpp) < n
}

/// The tile byte that covers strip byte `k`.
pub open spec fn strip_byte(tiles: Seq<PixelImage>, stride: int, k: int) -> u8 {
    let w = tiles[0].width * tiles[0].bytes_per_pixel;
    let t = (k % stride) / w;
    tiles[t].data@[(k / stride) * tiles[t].stride + (k % stride) % w]
}

/// Every tile has the first tile's width, height and pixel size.
pub open spec fn tiles_same_size(tiles: Seq<PixelImage>) -> bool {
    forall|i: int| 0 <= i < tiles.len() ==> {
        &&& (#[trigger] tiles[i]).width == tiles[0].width
        &&& tiles[i].height == tiles[0].height
        &&& tiles[i].bytes_per_pixel == tiles[0].bytes_per_pixel
    }
}

proof fn lemma_strip_tile_region(k: int, stride: int, ow: int, sh: int, th: int, tw: int, bpp: int, t: int)
    requires
        stride > 0,
        tw > 0,
        bpp > 0,
        t >= 0,
        k >= 0,
        sh >= 0,
        th >= 0,
        ow >= 0,
    ensures
        in_copy_region(k, stride, 0, copied_rows(th, 0, sh), (t * tw) * bpp, copied_cols(tw, t * tw, ow) * bpp)
            <==> (k / stride < th && k / stride < sh && k % stride < ow * bpp && (k % stride) / (tw * bpp) == t),
        in_copy_region(k, stride, 0, copied_rows(th, 0, sh), (t * tw) * bpp, copied_cols(tw, t * tw, ow) * bpp)
            ==> k % stride - (t * tw) * bpp == (k % stride) % (tw * bpp),
{
    let w = tw * bpp;
    assert(w > 0) by (nonlinear_arith) requires tw > 0, bpp > 0, w == tw * bpp;
    let y = k / stride;
    let rem = k % stride;
    assert(y >= 0 && 0 <= rem < stride) by (nonlinear_arith)
        requires stride > 0, y == k / stride, rem == k % stride, k >= 0;
    let x0 = (t * tw) * bpp;
    assert(x0 == t * w) by (nonlinear_arith) requires x0 == (t * tw) * bpp, w == tw * bpp;
    let ncols = copied_cols(tw, t * tw, ow);
    let q = rem / w;
    let r = rem % w;
    assert(rem == q * w + r && 0 <= r < w && q >= 0) by (nonlinear_arith)
        requires w > 0, q == rem / w, r == rem % w, rem >= 0;
    let region = in_copy_region(k, stride, 0, copied_rows(th, 0, sh), x0, ncols * bpp);
    if region {
        assert(t * w <= rem < t * w + w) by (nonlinear_arith)
            requires x0 <= rem < x0 + ncols * bpp, x0 == t * w, ncols <= tw, w == tw * bpp, bpp > 0;
        assert(ncols > 0) by (nonlinear_arith)
            requires x0 <= rem < x0 + ncols * bpp, bpp > 0;
        assert(ncols <= ow - t * tw);
        assert(rem < ow * bpp) by (nonlinear_arith)
            requires rem < x0 + ncols * bpp, x0 == t * w, w == tw * bpp,
                ncols <= ow - t * tw, bpp > 0;
        lemma_fundamental_div_mod_converse(rem, w, t, rem - t * w);
    }
    if y < th && y < sh && rem < ow * bpp && q == t {
        assert(t * w <= rem < t * w + w) by (nonlinear_arith)
            requires rem == q * w + r, 0 <= r < w, q == t;
        assert(t * tw < ow) by (nonlinear_arith)
            requires t * w <= rem, rem < ow * bpp, w == tw * bpp, bpp > 0;
        assert(rem < x0 + ncols * bpp) by (nonlinear_arith)
            requires rem < t * w + w, rem < ow * bpp, x0 == t * w, w == tw * bpp,
                ncols == (if tw < ow - t * tw { tw } else { ow - t * tw }), bpp > 0;
        assert(region);
    }
}

/// Streaming a grid tile row into a strip gives, byte for byte, the rows of
/// the fully stitched canvas that the tile row covers: strip byte `k` of tile
/// row `r` equals canvas byte `r * tile_height * stride + k`.
pub proof fn law_strip_row_matches_canvas(tiles: Seq<PixelImage>, cols: int, output_width: int, bpp: int, r: int, k: int)
    requires
        cols > 0,
        bpp > 0,
        output_width > 0,
        0 <= r,
        (r + 1) * cols <= tiles.len(),
        tiles_same_size(tiles),
        tiles[0].bytes_per_pixel == bpp,
        tiles[0].width > 0,
        tiles[0].height > 0,
        strip_covered(k, output_width * bpp, cols, tiles[0].width as int, tiles[0].height as int, bpp,
            tiles[0].height as int, output_width),
    ensures
        strip_byte(tiles.subrange(r * cols, (r + 1) * cols), output_width * bpp, k)
            == grid_byte(tiles, cols, output_width, bpp, r * tiles[0].height * (output_width * bpp) + k),
{
    let stride = output_width * bpp;
    let tw = tiles[0].width as int;
    let th = tiles[0].height as int;
    let row = tiles.subrange(r * cols, (r + 1) * cols);
    let y = k / stride;
    let x = k % stride;
    let kk = r * th * stride + k;
    assert(stride > 0) by (nonlinear_arith) requires stride == output_width * bpp, output_width > 0, bpp > 0;
    assert(tw * bpp > 0) by (nonlinear_arith) requires tw > 0, bpp > 0;
    assert(r * cols >= 0) by (nonlinear_arith) requires r >= 0, cols > 0;
    assert((r + 1) * cols == r * cols + cols) by (nonlinear_arith);
    assert(row.len() == cols);
    assert(k == y * stride + x) by (nonlinear_arith) requires stride > 0, y == k / stride, x == k % stride;
    assert(kk == (r * th + y) * stride + x) by (nonlinear_arith)
        requires kk == r * th * stride + k, k == y * stride + x;
    lemma_fundamental_div_mod_converse(kk, stride, r * th + y, x);
    lemma_fundamental_div_mod_converse(r * th + y, th, r, y);
    let j = x / (tw * bpp);
    let t = r * cols + j;
    assert(0 <= x) by (nonlinear_arith) requires stride > 0, x == k % stride;
    assert(0 <= j < cols) by (nonlinear_arith) requires j == x / (tw * bpp), tw * bpp > 0, x >= 0, j < cols;
    assert(covering_tile(kk, stride, cols, tw, th, bpp) == t);
    assert(row[j] == tiles[t]);
    assert(row[0] == tiles[r * cols]);
}

/// Assemble one strip of a grid row for a row sink: the tiles of the row,
/// placed left to right, have their first `strip_height` rows copied into
/// the strip buffer, cropped at `output_width` pixels; bytes no tile
/// covers keep their value.
pub fn assemble_grid_strip(row_tiles: &[PixelImage], strip_height: usize, output_width: usize, bpp: usize, dst: &mut PixelImage)
    requires
        row_tiles@.len() > 0,
        tiles_same_size(row_tiles@),
        forall|i: int| 0 <= i < row_tiles@.len() ==> #[trigger] row_tiles@[i].wf(),
        row_tiles@[0].bytes_per_pixel == bpp,
        old(dst).wf(),
        old(dst).bytes_per_pixel == bpp,
        output_width <= old(dst).width,
        strip_height <= old(dst).height,
    ensures
        final(dst).width == old(dst).width,
        final(dst).height == old(dst).height,
        final(dst).bytes_per_pixel == old(dst).bytes_per_pixel,
        final(dst).stride == old(dst).stride,
        final(dst).format == old(dst).format,
        final(dst).data@.len() == old(dst).data@.len(),
        forall|k: int| 0 <= k < old(dst).data@.len() ==> #[trigger] final(dst).data@[k] == (
            if strip_covered(k, old(dst).stride as int, row_tiles@.len() as int, row_tiles@[0].width as int,
                row_tiles@[0].height as int, bpp as int, strip_height as int, output_width as int) {
                strip_byte(row_tiles@, old(dst).stride as int, k)
            } else {
                old(dst).data@[k]
            }),
{
    let ghost d0 = dst.data@;
    let ghost ds = dst.stride as int;
    let ghost ts = row_tiles@;
    let tile_w = row_tiles[0].width;
    let tile_h = row_tiles[0].height;
    let ghost tw = tile_w as int;
    let ghost th = tile_h as int;
    let ghost n = ts.len() as int;
    let len = row_tiles.len();
    let mut i: usize = 0;
    while i < len
        invariant
            i <= len,
            len == ts.len(),
            ts == row_tiles@,
            tiles_same_size(ts),
            forall|j: int| 0 <= j < ts.len() ==> #[trigger] ts[j].wf(),
            tile_w == ts[0].width && tile_h == ts[0].height,
            tw == tile_w && th == tile_h && n == ts.len(),
            bpp == ts[0].bytes_per_pixel,
            old(dst).wf(),
            old(dst).bytes_per_pixel == bpp,
            output_width <= old(dst).width,
            strip_height <= old(dst).height,
            d0 == old(dst).data@,
            ds == old(dst).stride,
            dst.width == old(dst).width,
            dst.height == old(dst).height,
            dst.bytes_per_pixel == old(dst).bytes_per_pixel,
            dst.stride == old(dst).stride,
            dst.format == old(dst).format,
            dst.data@.len() == d0.len(),
            dst.wf(),
            forall|k: int| 0 <= k < d0.len() ==> #[trigger] dst.data@[k] == (
                if strip_covered(k, ds, i as int, tw, th, bpp as int, strip_height as int, output_width as int) {
                    strip_byte(ts, ds, k)
                } else {
                    d0[k]
                }),
        decreases len - i,
    {
        let ghost before = dst.data@;
        proof {
            let tile_i = ts[i as int];
            assert(tile_i.width == tw && tile_i.height == th && tile_i.bytes_per_pixel == bpp);
        }
        let dx = i.checked_mul(tile_w);
        if dx.is_some() {
            let dst_x = dx.unwrap();
            stitch_tile_into_buffer(&row_tiles[i], dst, dst_x, 0, output_width, strip_height, bpp);
        }
        proof {
            assert forall|k: int| 0 <= k < d0.len() implies #[trigger] dst.data@[k] == (
                if strip_covered(k, ds, i + 1, tw, th, bpp as int, strip_height as int, output_width as int) {
                    strip_byte(ts, ds, k)
                } else {
                    d0[k]
                })
            by {
                if ds > 0 && tw * bpp > 0 {
                    assert(tw > 0 && bpp > 0) by (nonlinear_arith) requires tw * bpp > 0, tw >= 0, bpp >= 0;
                    lemma_strip_tile_region(k, ds, output_width as int, strip_height as int, th, tw, bpp as int, i as int);
                    let rem = k % ds;
                    let w = tw * bpp;
                    if dx.is_none() {
                        assert(rem / w != i) by (nonlinear_arith)
                            requires i * tw > usize::MAX, rem < ds, ds <= usize::MAX, w == tw * bpp, bpp >= 1,
                                rem >= 0, w > 0;
                    }
                } else {
                    assert(!strip_covered(k, ds, i + 1, tw, th, bpp as int, strip_height as int, output_width as int));
                    assert(!strip_covered(k, ds, i as int, tw, th, bpp as int, strip_height as int, output_width as int));
                    if dx.is_some() {
                        if ds == 0 {
                            assert(!in_copy_region(k, ds, 0, copied_rows(th, 0, strip_height as int),
                                dx.unwrap() * bpp, copied_cols(tw, dx.unwrap() as int, output_width as int) * bpp));
                        } else {
                            let ncols = copied_cols(tw, dx.unwrap() as int, output_width as int);
                            assert(ncols * bpp == 0) by (nonlinear_arith)
                                requires tw * bpp <= 0, 0 <= ncols <= tw, tw >= 0, bpp >= 0;
                        }
                    }
                }
            }
        }
        i = i + 1;
    }
}

} // verus!
