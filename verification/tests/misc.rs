use zenavif::cicp::{
    convert_chroma_sampling, convert_color_primaries, convert_matrix, convert_transfer,
    encoder_primaries, encoder_transfer, serialize_primaries, serialize_transfer, to_our_yuv_range,
    ChromaSampling, ColorRange, PixelLayout, YuvRange,
};
use zenavif::knobs::{total_duration_ms, FastTierBudgets, InternalParams, PalettePreference};
use zenavif::route::{
    cache_key_for_record, check_portable, check_replay_record, enhancement_bits, enhancements_from_bits, ReplayRefusal,
    ZenEnhancements,
};
use zenavif::settings::SpeedOverrides;

#[test]
fn cicp_normalization() {
    assert_eq!(convert_color_primaries(9).0, 9);
    assert_eq!(convert_color_primaries(12).0, 2);
    assert_eq!(convert_transfer(16).0, 16);
    assert_eq!(convert_transfer(8).0, 2);
    assert_eq!(convert_matrix(0).0, 0);
    assert_eq!(convert_matrix(5).0, 2);
    assert_eq!(convert_chroma_sampling(PixelLayout::I400), ChromaSampling::Monochrome);
    assert_eq!(convert_chroma_sampling(PixelLayout::I422), ChromaSampling::Cs422);
    assert_eq!(to_our_yuv_range(ColorRange::Full), YuvRange::Full);
    assert_eq!(to_our_yuv_range(ColorRange::Limited), YuvRange::Limited);
    assert_eq!(serialize_primaries(12), 12);
    assert_eq!(serialize_primaries(22), 2);
    assert_eq!(serialize_transfer(3), 2);
    assert_eq!(serialize_transfer(18), 18);
    assert_eq!(encoder_primaries(22), 22);
    assert_eq!(encoder_primaries(2), 2);
    assert_eq!(encoder_transfer(17), 2);
    assert_eq!(encoder_transfer(18), 18);
}

#[test]
fn cache_key_is_sha256_of_prefixed_message() {
    let key = cache_key_for_record(b"{}", [0u8; 32]);
    assert_eq!(
        key,
        [218, 161, 38, 110, 10, 179, 126, 221, 143, 172, 220, 55, 105, 39, 119, 250, 208, 11, 4, 33, 99, 51, 12,
            150, 42, 11, 28, 35, 185, 157, 168, 202]
    );
    let mut digest = [0u8; 32];
    for (i, d) in digest.iter_mut().enumerate() {
        *d = i as u8;
    }
    let key2 = cache_key_for_record(b"{\"speed\":6}", digest);
    assert_eq!(
        key2,
        [104, 182, 67, 116, 17, 96, 201, 149, 37, 9, 178, 38, 67, 42, 144, 115, 244, 116, 123, 37, 114, 126, 33,
            20, 163, 198, 166, 79, 229, 57, 122, 230]
    );
    assert_ne!(cache_key_for_record(b"{}", digest), key);
}

#[test]
fn enhancement_bits_round_trip() {
    for bits in 0..4u8 {
        let set = enhancements_from_bits(bits).unwrap();
        assert_eq!(enhancement_bits(set), bits);
    }
    assert!(enhancements_from_bits(4).is_err());
    assert!(enhancements_from_bits(255).is_err());
    let both = ZenEnhancements { aom_intra_edge_filter: true, aom_restoration_unit_search: true };
    assert_eq!(enhancement_bits(both), 3);
}

#[test]
fn animation_duration_in_ms() {
    assert_eq!(total_duration_ms(90_000, 90_000), Some(1000));
    assert_eq!(total_duration_ms(1, 3), Some(333));
    assert_eq!(total_duration_ms(1, 3000), Some(0));
    assert_eq!(total_duration_ms(2, 3), Some(666));
    assert_eq!(total_duration_ms(u64::MAX, 1), None);
    assert_eq!(total_duration_ms(u64::MAX, 1000), Some(u64::MAX));
    assert_eq!(total_duration_ms(u64::MAX / 1000, 1), Some(u64::MAX / 1000 * 1000));
}

#[test]
fn internal_params_default_to_no_change() {
    let p = InternalParams::new();
    let o = SpeedOverrides::none().with_internal_params(p);
    assert_eq!(o, SpeedOverrides::none());
    let mut p = InternalParams::new();
    p.lrf = Some(false);
    let o = SpeedOverrides::none().with_internal_params(p);
    assert_eq!(o.lrf, Some(false));
    assert_eq!(o.cdef, None);
    assert_eq!(PalettePreference::default_value(), PalettePreference::Auto);
    let b = FastTierBudgets::defaults();
    assert_eq!(b, FastTierBudgets::defaults());
}

#[test]
fn replay_record_checks_in_order() {
    assert_eq!(check_replay_record(2, false, true, None, false, false), Err(ReplayRefusal::UnsupportedSchema));
    assert_eq!(check_replay_record(1, false, true, None, false, false), Err(ReplayRefusal::IdentityChanged));
    assert_eq!(check_replay_record(1, true, true, Some(4), true, true), Err(ReplayRefusal::MissingIdentity));
    assert_eq!(check_replay_record(1, true, false, Some(0), true, true), Err(ReplayRefusal::ThreadsNotPinned));
    assert_eq!(check_replay_record(1, true, false, None, true, true), Err(ReplayRefusal::ThreadsNotPinned));
    assert_eq!(check_replay_record(1, true, false, Some(2), false, false), Err(ReplayRefusal::NonFiniteQuality));
    assert_eq!(check_replay_record(1, true, false, Some(2), true, false), Err(ReplayRefusal::NonFiniteControls));
    assert_eq!(check_replay_record(1, true, false, Some(2), true, true), Ok(()));
    assert_eq!(check_portable(false, Some(1), true, true), Ok(()));
    assert_eq!(ReplayRefusal::UnsupportedSchema.message(), "unsupported route replay schema");
    assert_eq!(ReplayRefusal::ThreadsNotPinned.message(), "portable replay requires a pinned positive thread count");
}
