use zenavif::identity::{
    aom_identity_to_pixels, expand_identity_8, expand_identity_sample, identity_planes,
    identity_to_pixels_16, identity_to_pixels_8, scale_8_to_depth, ColorSource, IdentityPixels,
};
use zenavif::pixels::{Rgb16, Rgb8, Rgba16, Rgba8};

#[test]
fn scale_replicates_bits() {
    assert_eq!(scale_8_to_depth(0, 10), 0);
    assert_eq!(scale_8_to_depth(255, 10), 1023);
    assert_eq!(scale_8_to_depth(255, 12), 4095);
    assert_eq!(scale_8_to_depth(128, 10), 514);
    assert_eq!(scale_8_to_depth(128, 12), 2056);
    assert_eq!(scale_8_to_depth(77, 8), 77);
    for c in 0..=255u8 {
        assert_eq!(scale_8_to_depth(c, 10) >> 2, c as u16);
        assert_eq!(scale_8_to_depth(c, 12) >> 4, c as u16);
    }
}

#[test]
fn expand_studio_range() {
    assert_eq!(expand_identity_8(16, true), 0);
    assert_eq!(expand_identity_8(235, true), 255);
    assert_eq!(expand_identity_8(0, true), 0);
    assert_eq!(expand_identity_8(250, true), 255);
    assert_eq!(expand_identity_8(126, true), 128);
    assert_eq!(expand_identity_8(126, false), 126);
    assert_eq!(expand_identity_sample(64, 10, true), 0);
    assert_eq!(expand_identity_sample(940, 10, true), 1023);
    assert_eq!(expand_identity_sample(500, 10, false), 500);
    for v in 0..=255u8 {
        assert_eq!(expand_identity_sample(v as u16, 8, true), expand_identity_8(v, true) as u16);
    }
}

#[test]
fn identity_planes_are_gbr() {
    // 2x2 image in a stride-3 buffer.
    let px = vec![
        Rgb8 { r: 1, g: 2, b: 3 }, Rgb8 { r: 4, g: 5, b: 6 }, Rgb8 { r: 99, g: 99, b: 99 },
        Rgb8 { r: 7, g: 8, b: 9 }, Rgb8 { r: 10, g: 11, b: 12 },
    ];
    let (y, u, v) = identity_planes(ColorSource::Rgb8(&px, 3), 2, 2, 8);
    assert_eq!(y, vec![2, 5, 8, 11]);
    assert_eq!(u, vec![3, 6, 9, 12]);
    assert_eq!(v, vec![1, 4, 7, 10]);
    let deep = vec![Rgba16 { r: 0xFFFF, g: 0x8000, b: 0x0040, a: 7 }];
    let (y, u, v) = identity_planes(ColorSource::Rgba16(&deep, 1), 1, 1, 10);
    assert_eq!((y[0], u[0], v[0]), (0x200, 0x001, 0x3FF));
    let px8 = vec![Rgba8 { r: 255, g: 0, b: 128, a: 9 }];
    let (y, u, v) = identity_planes(ColorSource::Rgba8(&px8, 1), 1, 1, 12);
    assert_eq!((y[0], u[0], v[0]), (0, 2056, 4095));
    let px16 = vec![Rgb16 { r: 1, g: 2, b: 3 }];
    let (y, _, _) = identity_planes(ColorSource::Rgb16(&px16, 1), 1, 1, 16);
    assert_eq!(y[0], 2);
}

#[test]
fn identity_round_trip_is_lossless() {
    let src: Vec<Rgb8> = (0..64u32)
        .map(|i| Rgb8 { r: (i * 4) as u8, g: (255 - i * 3) as u8, b: (i * 37 % 256) as u8 })
        .collect();
    let (y, u, v) = identity_planes(ColorSource::Rgb8(&src, 8), 8, 8, 8);
    match aom_identity_to_pixels(&y, &u, &v, 8, 8, 8, false, false) {
        Some(IdentityPixels::Rgb8(out)) => assert_eq!(out, src),
        _ => panic!("expected 8-bit pixels"),
    }
    let (y, u, v) = identity_planes(ColorSource::Rgb8(&src, 8), 8, 8, 10);
    match aom_identity_to_pixels(&y, &u, &v, 8, 8, 10, false, true) {
        Some(IdentityPixels::Rgb16(out)) => {
            for (o, s) in out.iter().zip(src.iter()) {
                assert_eq!((o.r >> 2, o.g >> 2, o.b >> 2), (s.r as u16, s.g as u16, s.b as u16));
            }
        }
        _ => panic!("expected wide pixels"),
    }
    assert!(aom_identity_to_pixels(&[], &[], &[], usize::MAX, 2, 8, false, false).is_none());
}

#[test]
fn strided_identity_decode() {
    // 2x2 planes with stride 3; limited range 8-bit.
    let g = [16u8, 235, 0, 126, 16, 0];
    let b = [235u8, 16, 0, 16, 235, 0];
    let r = [126u8, 126, 0, 235, 235, 0];
    match identity_to_pixels_8(&g, 3, &b, 3, &r, 3, 2, 2, true, false) {
        IdentityPixels::Rgb8(px) => {
            assert_eq!(px[0], Rgb8 { r: 128, g: 0, b: 255 });
            assert_eq!(px[1], Rgb8 { r: 128, g: 255, b: 0 });
            assert_eq!(px[2], Rgb8 { r: 255, g: 128, b: 0 });
            assert_eq!(px[3], Rgb8 { r: 255, g: 0, b: 255 });
        }
        _ => panic!("expected RGB8"),
    }
    match identity_to_pixels_8(&g, 3, &b, 3, &r, 3, 2, 2, false, true) {
        IdentityPixels::Rgba8(px) => assert_eq!(px[3], Rgba8 { r: 235, g: 16, b: 235, a: 255 }),
        _ => panic!("expected RGBA8"),
    }
    let g16 = [64u16, 940];
    let b16 = [940u16, 64];
    let r16 = [500u16, 500];
    match identity_to_pixels_16(&g16, 2, &b16, 2, &r16, 2, 2, 1, 10, true, true) {
        IdentityPixels::Rgba16(px) => {
            assert_eq!(px[0].g, 0);
            assert_eq!(px[0].b, 1023);
            assert_eq!(px[1].g, 1023);
            assert_eq!(px[0].a, 1023);
        }
        _ => panic!("expected RGBA16"),
    }
}
