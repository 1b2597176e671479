use zenavif::pixels::{
    attach_alpha_row, avg_8bpc, avg_8bpc_scalar, avg_pixel, limited_to_full_8, sb_grid,
    unpremultiply8_dispatch, unpremultiply8_scalar, Rgba8,
};

#[test]
fn grid_covers_ragged_frames() {
    assert_eq!(sb_grid(64, 64), (1, 1));
    assert_eq!(sb_grid(65, 64), (2, 1));
    assert_eq!(sb_grid(130, 70), (3, 2));
    assert_eq!(sb_grid(1, 1), (1, 1));
}

#[test]
fn sb_grid_of_empty_frame_is_empty() {
    assert_eq!(sb_grid(0, 0), (0, 0));
    assert_eq!(sb_grid(128, 0), (2, 0));
}

#[test]
fn test_avg_avx2_matches_scalar() {
    let test_values: Vec<i16> = vec![
        0, 1, 2, 127, 128, 255, 256, 511, 512, 1023, 1024, 2047, 2048, 4095, 4096, 8191, 8192,
        16383, 16384, -1, -128, -256, -512, -1024, -2048, -4096, i16::MIN, i16::MAX,
    ];
    let w = 64;
    let h = 2;
    let mut tmp1 = vec![0i16; w * h];
    let mut tmp2 = vec![0i16; w * h];
    let mut dst_vec = vec![0u8; w * h];
    let mut dst_scalar = vec![0u8; w * h];
    for &v1 in &test_values {
        for &v2 in &test_values {
            tmp1.fill(v1);
            tmp2.fill(v2);
            dst_vec.fill(0);
            dst_scalar.fill(0);
            avg_8bpc_scalar(&mut dst_scalar, w, &tmp1, &tmp2, w, h);
            avg_8bpc(&mut dst_vec, w, &tmp1, &tmp2, w, h);
            assert_eq!(dst_vec, dst_scalar, "Mismatch for v1={}, v2={}", v1, v2);
        }
    }
}

#[test]
fn test_avg_varying_data() {
    let w = 128;
    let h = 4;
    let tmp1: Vec<i16> = (0..w * h).map(|i| ((i * 37) % 8192) as i16).collect();
    let tmp2: Vec<i16> = (0..w * h).map(|i| ((i * 73 + 1000) % 8192) as i16).collect();
    let mut dst_vec = vec![0u8; w * h];
    let mut dst_scalar = vec![0u8; w * h];
    avg_8bpc_scalar(&mut dst_scalar, w, &tmp1, &tmp2, w, h);
    avg_8bpc(&mut dst_vec, w, &tmp1, &tmp2, w, h);
    assert_eq!(dst_vec, dst_scalar, "Results differ for varying data pattern");
}

#[test]
fn test_avg_rounding() {
    let w = 32;
    let h = 1;

    let tmp1 = vec![1i16; w];
    let tmp2 = vec![0i16; w];
    let mut dst = vec![255u8; w];
    avg_8bpc(&mut dst, w, &tmp1, &tmp2, w, h);
    assert_eq!(dst[0], 0, "sum=1 should round to 0");

    let tmp1 = vec![16i16; w];
    let tmp2 = vec![16i16; w];
    let mut dst = vec![0u8; w];
    avg_8bpc(&mut dst, w, &tmp1, &tmp2, w, h);
    assert_eq!(dst[0], 1, "sum=32 should round to 1");

    let tmp1 = vec![255i16; w];
    let tmp2 = vec![255i16; w];
    let mut dst = vec![0u8; w];
    avg_8bpc(&mut dst, w, &tmp1, &tmp2, w, h);
    assert_eq!(dst[0], 16, "sum=510 should give 16");

    let tmp1 = vec![8192i16; w];
    let tmp2 = vec![8192i16; w];
    let mut dst = vec![0u8; w];
    avg_8bpc(&mut dst, w, &tmp1, &tmp2, w, h);
    assert_eq!(dst[0], 255, "sum=16384 should saturate to 255");
}

#[test]
fn avg_wraps_like_sixteen_bit_lanes() {
    // i16::MAX + 1 wraps to i16::MIN, which clamps to 0.
    assert_eq!(avg_pixel(i16::MAX, 1), 0);
    // -32 * 1024 + 16384 = -16384 floors to -1 -> 0.
    assert_eq!(avg_pixel(-16, -16), 0);
    assert_eq!(avg_pixel(48, 48), 3);
}

#[test]
fn avg_honours_destination_stride() {
    // Two rows of 2 into a stride-4 destination: bytes 2,3 and 6,7 untouched.
    let tmp1 = vec![32i16, 64, 96, 128];
    let tmp2 = vec![32i16, 64, 96, 128];
    let mut dst = vec![99u8; 8];
    avg_8bpc(&mut dst, 4, &tmp1, &tmp2, 2, 2);
    assert_eq!(dst, vec![2, 4, 99, 99, 6, 8, 99, 99]);
}

/// The original scalar formula, kept as the oracle.
fn reference(c: u8, a: u8) -> u8 {
    if a != 255 && a != 0 {
        ((c as u16 * 255 + a as u16 / 2) / a as u16).min(255) as u8
    } else {
        c
    }
}

fn expect_of(row: &[Rgba8]) -> Vec<Rgba8> {
    row.iter()
        .map(|p| Rgba8 { r: reference(p.r, p.a), g: reference(p.g, p.a), b: reference(p.b, p.a), a: p.a })
        .collect()
}

#[test]
fn exact_over_complete_domain() {
    let mut row: Vec<Rgba8> = Vec::with_capacity(256 * 256);
    for a in 0..=255u16 {
        for c in 0..=255u16 {
            row.push(Rgba8 { r: c as u8, g: (255 - c) as u8, b: ((c * 7) % 256) as u8, a: a as u8 });
        }
    }
    let expect = expect_of(&row);
    let mut got = row.clone();
    unpremultiply8_dispatch(&mut got);
    for (i, (g, e)) in got.iter().zip(expect.iter()).enumerate() {
        assert_eq!((g.r, g.g, g.b, g.a), (e.r, e.g, e.b, e.a), "pixel {i} diverged; input {:?}", row[i]);
    }
    assert_eq!(got.len(), 256 * 256, "domain not fully enumerated");
}

#[test]
fn tail_lengths_exact() {
    for px in 0..=40usize {
        let row: Vec<Rgba8> = (0..px)
            .map(|i| Rgba8 { r: (i * 13 % 256) as u8, g: (i * 91 % 256) as u8, b: 200, a: ((i * 37) % 256) as u8 })
            .collect();
        let expect = expect_of(&row);
        let mut got = row.clone();
        unpremultiply8_dispatch(&mut got);
        for (i, (g, e)) in got.iter().zip(expect.iter()).enumerate() {
            assert_eq!((g.r, g.g, g.b, g.a), (e.r, e.g, e.b, e.a), "tail len {px}, pixel {i}");
        }
    }
}

#[test]
fn edge_alpha_semantics() {
    let row = vec![Rgba8 { r: 10, g: 20, b: 30, a: 0 }, Rgba8 { r: 40, g: 50, b: 60, a: 255 }];
    let mut got = row.clone();
    unpremultiply8_dispatch(&mut got);
    assert_eq!((got[0].r, got[0].g, got[0].b, got[0].a), (10, 20, 30, 0), "a == 0 must leave the pixel untouched");
    assert_eq!((got[1].r, got[1].g, got[1].b, got[1].a), (40, 50, 60, 255), "a == 255 must be identity");
}

#[test]
fn unpremultiply_scalar_exact_values() {
    let mut row = vec![Rgba8 { r: 64, g: 128, b: 200, a: 128 }];
    unpremultiply8_scalar(&mut row);
    // (64*255+64)/128 = 128, (128*255+64)/128 = 255, 200 saturates.
    assert_eq!(row[0], Rgba8 { r: 128, g: 255, b: 255, a: 128 });
}

#[test]
fn limited_range_alpha_expands() {
    assert_eq!(limited_to_full_8(0), 0);
    assert_eq!(limited_to_full_8(16), 0);
    assert_eq!(limited_to_full_8(235), 255);
    assert_eq!(limited_to_full_8(255), 255);
    assert_eq!(limited_to_full_8(126), 128);
}

#[test]
fn attach_alpha_overwrites_expands_and_unpremultiplies() {
    let mut row = vec![Rgba8 { r: 64, g: 64, b: 64, a: 255 }, Rgba8 { r: 1, g: 2, b: 3, a: 4 }];
    // Shorter alpha row: only the first pixel gets a new alpha.
    attach_alpha_row(&mut row, &[126], true, false);
    assert_eq!(row[0], Rgba8 { r: 64, g: 64, b: 64, a: 128 });
    assert_eq!(row[1], Rgba8 { r: 1, g: 2, b: 3, a: 4 });
    let mut row = vec![Rgba8 { r: 64, g: 64, b: 64, a: 255 }];
    attach_alpha_row(&mut row, &[128], false, true);
    assert_eq!(row[0], Rgba8 { r: 128, g: 128, b: 128, a: 128 });
}
