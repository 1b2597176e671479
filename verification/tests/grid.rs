use zenavif::grid::{
    assemble_grid_strip, crop_image, stitch_tile_images, stitch_tile_into_buffer,
    validate_tile_uniformity, GridError,
    PixelImage,
};

/// Identifier of RGBA8 sRGB pixels in these tests.
const RGBA8: u32 = 1;

fn make_buffer(w: usize, h: usize, fill: u8) -> PixelImage {
    PixelImage::filled(w, h, 4, RGBA8, fill).expect("buffer alloc")
}

#[test]
fn stitch_does_not_panic_when_tile_origin_exceeds_output() {
    let tile = make_buffer(64, 64, 0xAB);
    let mut output = make_buffer(32, 32, 0);
    stitch_tile_into_buffer(&tile, &mut output, 0, 64, 32, 32, 4);
    assert_eq!(output.data[0], 0);
}

#[test]
fn stitch_does_not_panic_when_tile_x_exceeds_output() {
    let tile = make_buffer(64, 64, 0xCD);
    let mut output = make_buffer(32, 32, 0);
    stitch_tile_into_buffer(&tile, &mut output, 64, 0, 32, 32, 4);
    assert_eq!(output.data[0], 0);
}

#[test]
fn stitch_zero_avail_at_exact_edge() {
    let tile = make_buffer(16, 16, 0xEE);
    let mut output = make_buffer(32, 32, 0);
    stitch_tile_into_buffer(&tile, &mut output, 32, 0, 32, 32, 4);
    stitch_tile_into_buffer(&tile, &mut output, 0, 32, 32, 32, 4);
    assert_eq!(output.data[0], 0);
}

#[test]
fn uniformity_rejects_mismatched_tile() {
    let tiles = vec![
        make_buffer(64, 64, 1),
        make_buffer(64, 64, 2),
        make_buffer(32, 32, 3),
        make_buffer(64, 64, 4),
    ];
    assert!(validate_tile_uniformity(&tiles, 2, 128, 128).is_err());
    assert_eq!(validate_tile_uniformity(&tiles, 2, 128, 128), Err(GridError::NonUniformTiles));
}

#[test]
fn uniformity_rejects_undersized_coverage() {
    let tiles = vec![make_buffer(32, 32, 1), make_buffer(32, 32, 2)];
    // 2 cols x 1 row of 32px tiles cannot cover a declared 128x32 canvas.
    assert!(validate_tile_uniformity(&tiles, 2, 128, 32).is_err());
    assert_eq!(validate_tile_uniformity(&tiles, 2, 128, 32), Err(GridError::UndersizedCoverage));
}

#[test]
fn uniformity_accepts_uniform_tiles_with_edge_crop() {
    let tiles = vec![
        make_buffer(64, 64, 1),
        make_buffer(64, 64, 2),
        make_buffer(64, 64, 3),
        make_buffer(64, 64, 4),
    ];
    let (w, h) = validate_tile_uniformity(&tiles, 2, 100, 100).expect("legal grid");
    assert_eq!((w, h), (64, 64));
}

#[test]
fn uniformity_rejects_format_mismatch() {
    let other = PixelImage::filled(64, 64, 4, RGBA8 + 1, 0).unwrap();
    let tiles = vec![make_buffer(64, 64, 1), other];
    assert_eq!(validate_tile_uniformity(&tiles, 2, 128, 64), Err(GridError::NonUniformTiles));
}

#[test]
fn stitch_copies_within_bounds() {
    let tile = make_buffer(8, 8, 0x42);
    let mut output = make_buffer(16, 16, 0);
    stitch_tile_into_buffer(&tile, &mut output, 0, 0, 16, 16, 4);
    assert_eq!(output.data[0], 0x42);
}

#[test]
fn stitch_clips_at_right_and_bottom_edges() {
    // A 16x16 tile placed at (8, 8) on a 16x16 canvas copies only its
    // top-left 8x8 quarter.
    let tile = make_buffer(16, 16, 7);
    let mut output = make_buffer(16, 16, 0);
    stitch_tile_into_buffer(&tile, &mut output, 8, 8, 16, 16, 4);
    let stride = 16 * 4;
    for y in 0..16 {
        for x in 0..16 {
            let v = output.data[y * stride + x * 4];
            let inside = x >= 8 && y >= 8;
            assert_eq!(v, if inside { 7 } else { 0 }, "pixel ({x},{y})");
        }
    }
}

#[test]
fn stitch_respects_declared_output_size() {
    // Declared canvas 10x10 inside a 16x16 buffer: columns/rows past 10
    // stay untouched.
    let tile = make_buffer(16, 16, 9);
    let mut output = make_buffer(16, 16, 0);
    stitch_tile_into_buffer(&tile, &mut output, 0, 0, 10, 10, 4);
    let stride = 16 * 4;
    assert_eq!(output.data[9 * stride + 9 * 4 + 3], 9);
    assert_eq!(output.data[9 * stride + 10 * 4], 0);
    assert_eq!(output.data[10 * stride], 0);
}

#[test]
fn filled_reports_overflow() {
    assert!(PixelImage::filled(usize::MAX, 2, 4, RGBA8, 0).is_none());
    let img = PixelImage::filled(3, 2, 4, RGBA8, 5).unwrap();
    assert_eq!(img.data.len(), 24);
    assert_eq!(img.stride, 12);
}

fn patterned(w: usize, h: usize, seed: u8) -> PixelImage {
    let mut img = PixelImage::filled(w, h, 4, RGBA8, 0).unwrap();
    for (i, b) in img.data.iter_mut().enumerate() {
        *b = seed.wrapping_add(i as u8);
    }
    img
}

#[test]
fn stitch_tile_images_places_each_tile() {
    // 2x2 grid of 4x3 tiles, output 7x5 (right/bottom crop).
    let tiles: Vec<PixelImage> = (0..4).map(|t| patterned(4, 3, (t * 50) as u8)).collect();
    let out = stitch_tile_images(&tiles, 2, 7, 5).unwrap();
    assert_eq!((out.width, out.height, out.stride), (7, 5, 28));
    assert_eq!(out.data.len(), 7 * 5 * 4);
    for y in 0..5 {
        for x in 0..7 {
            let t = (y / 3) * 2 + x / 4;
            for c in 0..4 {
                let expect = tiles[t].data[(y % 3) * tiles[t].stride + (x % 4) * 4 + c];
                assert_eq!(out.data[y * 28 + x * 4 + c], expect, "({x},{y},{c})");
            }
        }
    }
}

#[test]
fn stitch_tile_images_errors() {
    let tiles = vec![make_buffer(4, 4, 1), make_buffer(4, 4, 2)];
    assert_eq!(stitch_tile_images(&tiles, 2, 9, 4).unwrap_err(), GridError::UndersizedCoverage);
    let tiles = vec![make_buffer(4, 4, 1), make_buffer(4, 5, 2)];
    assert_eq!(stitch_tile_images(&tiles, 2, 8, 4).unwrap_err(), GridError::NonUniformTiles);
}

#[test]
fn stitch_tile_images_too_large() {
    let tiles = vec![PixelImage { width: usize::MAX, height: usize::MAX, bytes_per_pixel: 0, stride: 0, format: RGBA8, data: vec![] }];
    assert_eq!(stitch_tile_images(&tiles, 1, usize::MAX, 2).unwrap_err(), GridError::TooLarge);
}

#[test]
fn crop_pads_and_crops() {
    let img = patterned(3, 2, 10);
    // Crop to 2x3: narrower, taller (third row zero).
    let out = crop_image(&img, 2, 3).unwrap();
    assert_eq!((out.width, out.height, out.stride), (2, 3, 8));
    assert_eq!(&out.data[0..8], &img.data[0..8]);
    assert_eq!(&out.data[8..16], &img.data[12..20]);
    assert!(out.data[16..24].iter().all(|&b| b == 0));
    assert!(crop_image(&img, usize::MAX, 2).is_none());
}

#[test]
fn grid_strip_places_row_tiles() {
    // Three 4x3 tiles in a row, output 10 px wide, strip of 2 rows, into a
    // 12-pixel-wide sink buffer.
    let tiles: Vec<PixelImage> = (0..3).map(|t| patterned(4, 3, (t * 60) as u8)).collect();
    let mut dst = PixelImage::filled(12, 2, 4, RGBA8, 0xEE).unwrap();
    assemble_grid_strip(&tiles, 2, 10, 4, &mut dst);
    for y in 0..2 {
        for x in 0..12 {
            for c in 0..4 {
                let got = dst.data[y * 48 + x * 4 + c];
                if x < 10 {
                    let t = x / 4;
                    assert_eq!(got, tiles[t].data[y * 16 + (x % 4) * 4 + c], "({x},{y},{c})");
                } else {
                    assert_eq!(got, 0xEE);
                }
            }
        }
    }
}

#[test]
fn streamed_tile_rows_equal_the_stitched_canvas() {
    // 2x2 grid of 4x3 tiles, canvas 7x5 (cropped at the right and bottom).
    let tiles: Vec<PixelImage> = (0..4).map(|t| patterned(4, 3, (t * 37) as u8)).collect();
    let canvas = stitch_tile_images(&tiles, 2, 7, 5).unwrap();
    for r in 0..2usize {
        let rows_here = if r == 0 { 3 } else { 2 };
        let mut strip = PixelImage::filled(7, 3, 4, RGBA8, 0).unwrap();
        assemble_grid_strip(&tiles[r * 2..r * 2 + 2], rows_here, 7, 4, &mut strip);
        for y in 0..rows_here {
            let canvas_row = &canvas.data[(r * 3 + y) * 28..(r * 3 + y + 1) * 28];
            assert_eq!(&strip.data[y * 28..(y + 1) * 28], canvas_row, "tile row {r}, row {y}");
        }
    }
}
