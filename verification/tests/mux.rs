use zenavif::mux::{aom_mux_plan, svt_mux_plan, MuxPlan, MuxRefusal};
use zenavif::settings::{EncodeAlphaMode, EncodeColorModel, EncodeSettings};

#[test]
fn aom_plan_keeps_header_facts_and_uses_bt601_matrix_for_ycbcr() {
    let cfg = EncodeSettings::new();
    let plan = aom_mux_plan(&cfg, 64, 48, 1, 10, 9, 16, false, (false, false), true).unwrap();
    assert_eq!(
        plan,
        MuxPlan {
            width: 64,
            height: 48,
            bit_depth: 10,
            seq_profile: 1,
            chroma_subsampling: (false, false),
            monochrome: false,
            full_range: true,
            color_primaries: 9,
            transfer_characteristics: 16,
            matrix_coefficients: 6,
            premultiplied_alpha: false,
        }
    );
}

#[test]
fn aom_plan_signals_identity_matrix_for_rgb_model() {
    let mut cfg = EncodeSettings::new();
    cfg.color_model = EncodeColorModel::Rgb;
    let plan = aom_mux_plan(&cfg, 8, 8, 1, 8, 1, 13, false, (false, false), true).unwrap();
    assert_eq!(plan.matrix_coefficients, 0);
}

#[test]
fn aom_plan_monochrome_matrix_is_unspecified() {
    let mut cfg = EncodeSettings::new();
    cfg.color_model = EncodeColorModel::Rgb;
    let plan = aom_mux_plan(&cfg, 8, 8, 0, 8, 1, 13, true, (true, true), false).unwrap();
    assert_eq!(plan.matrix_coefficients, 2);
    assert!(plan.monochrome);
}

#[test]
fn aom_plan_maps_unnameable_codes_to_unspecified() {
    let cfg = EncodeSettings::new();
    // Primaries 7 (SMPTE 240) and transfer 3 (reserved) are not nameable.
    let plan = aom_mux_plan(&cfg, 8, 8, 0, 8, 7, 3, false, (true, true), false).unwrap();
    assert_eq!(plan.color_primaries, 2);
    assert_eq!(plan.transfer_characteristics, 2);
    let plan = aom_mux_plan(&cfg, 8, 8, 0, 8, 12, 18, false, (true, true), false).unwrap();
    assert_eq!(plan.color_primaries, 12);
    assert_eq!(plan.transfer_characteristics, 18);
}

#[test]
fn mux_plans_refuse_dimensions_beyond_u32() {
    let cfg = EncodeSettings::new();
    if usize::BITS > 32 {
        let big = (u32::MAX as usize) + 1;
        assert_eq!(
            aom_mux_plan(&cfg, big, 8, 0, 8, 1, 13, false, (true, true), false),
            Err(MuxRefusal::WidthExceedsU32)
        );
        assert_eq!(
            aom_mux_plan(&cfg, 8, big, 0, 8, 1, 13, false, (true, true), false),
            Err(MuxRefusal::HeightExceedsU32)
        );
        assert_eq!(
            svt_mux_plan(&cfg, big, big, 8, 1, 13, false, false),
            Err(MuxRefusal::WidthExceedsU32)
        );
        assert_eq!(
            svt_mux_plan(&cfg, 8, big, 8, 1, 13, false, false),
            Err(MuxRefusal::HeightExceedsU32)
        );
    }
    assert_eq!(MuxRefusal::WidthExceedsU32.message(), "width exceeds u32");
    assert_eq!(MuxRefusal::HeightExceedsU32.message(), "height exceeds u32");
}

#[test]
fn svt_plan_is_profile0_420_full_range() {
    let cfg = EncodeSettings::new();
    let plan = svt_mux_plan(&cfg, 100, 50, 10, 1, 13, false, false).unwrap();
    assert_eq!(
        plan,
        MuxPlan {
            width: 100,
            height: 50,
            bit_depth: 10,
            seq_profile: 0,
            chroma_subsampling: (true, true),
            monochrome: false,
            full_range: true,
            color_primaries: 1,
            transfer_characteristics: 13,
            matrix_coefficients: 6,
            premultiplied_alpha: false,
        }
    );
    let mono = svt_mux_plan(&cfg, 100, 50, 8, 1, 13, true, false).unwrap();
    assert_eq!(mono.matrix_coefficients, 2);
}

#[test]
fn svt_plan_flags_premultiplied_only_with_alpha() {
    let mut cfg = EncodeSettings::new();
    cfg.alpha_color_mode = EncodeAlphaMode::Premultiplied;
    assert!(svt_mux_plan(&cfg, 4, 4, 8, 1, 13, false, true).unwrap().premultiplied_alpha);
    assert!(!svt_mux_plan(&cfg, 4, 4, 8, 1, 13, false, false).unwrap().premultiplied_alpha);
    let clean = EncodeSettings::new();
    assert!(!svt_mux_plan(&clean, 4, 4, 8, 1, 13, false, true).unwrap().premultiplied_alpha);
}
