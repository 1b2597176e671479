use zenavif::backend::{
    aom_depth_error, aom_reject_unsupported_config, coded_matrix_coefficients, key_frame_params,
    resolve_aom_depth, speed_to_cpu_used, speed_to_svt_preset, svt_reject_unsupported_config,
    svt_resolved_identity, svt_rs_depth_error, svt_rs_dims_error, widen_8_to_10, AomRefusal,
    SvtRefusal,
};
use zenavif::settings::{
    EncodeBitDepth, EncodeChromaSubsampling, EncodeColorModel, EncodePixelRange, EncodeSettings,
};
use zenavif::svt_params::{SvtParams, AC_BIAS_MAX_BITS, AC_BIAS_NEG_ZERO_BITS};

#[test]
fn speed_to_preset_matches_upstream_boundaries() {
    assert_eq!(speed_to_svt_preset(1), 0);
    assert_eq!(speed_to_svt_preset(10), 9);
    assert_eq!(speed_to_svt_preset(5), 6);
    for s in [7u8, 8, 9, 10] {
        assert_eq!(speed_to_svt_preset(s), 9, "speed {s} must resolve to M9");
    }
    let mut prev = 0u8;
    for s in 1..=10u8 {
        let p = speed_to_svt_preset(s);
        assert!(p >= prev, "not monotonic at speed {s}");
        prev = p;
    }
}

#[test]
fn speed_to_preset_clamps_out_of_range_speeds() {
    assert_eq!(speed_to_svt_preset(0), 0);
    assert_eq!(speed_to_svt_preset(255), 9);
    assert_eq!(speed_to_svt_preset(2), 1);
    assert_eq!(speed_to_svt_preset(4), 4);
    assert_eq!(speed_to_svt_preset(6), 7);
}

#[test]
fn cpu_used_maps_one_to_one() {
    assert_eq!(speed_to_cpu_used(1), 0);
    assert_eq!(speed_to_cpu_used(10), 9);
    assert_eq!(speed_to_cpu_used(0), 0);
    assert_eq!(speed_to_cpu_used(200), 9);
}

#[test]
fn widen_matches_rounded_scaling() {
    assert_eq!(widen_8_to_10(0), 0);
    assert_eq!(widen_8_to_10(255), 1023);
    assert_eq!(widen_8_to_10(128), 514);
    for v in 0..=255u32 {
        let exact = ((v * 1023) as f64 / 255.0).round() as u16;
        assert_eq!(widen_8_to_10(v as u8), exact, "v={v}");
    }
}

#[test]
fn depth_and_dims_errors() {
    assert!(svt_rs_dims_error(0, 10, 6, false).is_some());
    assert!(svt_rs_dims_error(10, 0, 6, false).is_some());
    assert!(svt_rs_dims_error(10, 10, 6, false).is_none());
    assert!(svt_rs_depth_error(8, 6, false).is_none());
    assert!(svt_rs_depth_error(10, 6, true).is_none());
    assert!(svt_rs_depth_error(12, 6, false).is_some());
    assert!(aom_depth_error(12, false).is_none());
    assert!(aom_depth_error(9, false).is_some());
    let mut c = EncodeSettings::new();
    c.bit_depth = EncodeBitDepth::Ten;
    assert_eq!(resolve_aom_depth(&c, false, false), Ok(10));
    c.bit_depth = EncodeBitDepth::Auto;
    assert_eq!(resolve_aom_depth(&c, true, false), Ok(10));
    assert_eq!(resolve_aom_depth(&c, false, false), Ok(8));
}

#[test]
fn aom_refusals_in_order() {
    let mut c = EncodeSettings::new();
    assert_eq!(aom_reject_unsupported_config(&c), Ok(()));
    c.color_model = EncodeColorModel::Rgb;
    c.chroma_subsampling = EncodeChromaSubsampling::Yuv420;
    assert_eq!(aom_reject_unsupported_config(&c), Err(AomRefusal::IdentityNeeds444));
    let mut c = EncodeSettings::new();
    c.has_gain_map = true;
    assert_eq!(aom_reject_unsupported_config(&c), Err(AomRefusal::GainMap));
    let mut c = EncodeSettings::new();
    c.lossless = true;
    c.chroma_subsampling = EncodeChromaSubsampling::Yuv420;
    assert_eq!(aom_reject_unsupported_config(&c), Err(AomRefusal::LosslessNeeds444));
    c.chroma_subsampling = EncodeChromaSubsampling::Yuv444;
    assert_eq!(aom_reject_unsupported_config(&c), Err(AomRefusal::LosslessNeedsRgb));
    c.color_model = EncodeColorModel::Rgb;
    c.pixel_range = Some(EncodePixelRange::Limited);
    assert_eq!(aom_reject_unsupported_config(&c), Err(AomRefusal::LosslessNeedsFullRange));
    assert!(AomRefusal::LosslessNeedsFullRange.message().contains("full pixel range"));
    c.pixel_range = None;
    assert_eq!(aom_reject_unsupported_config(&c), Ok(()));
}

#[test]
fn svt_refusals_in_order() {
    let mut c = EncodeSettings::new();
    assert_eq!(svt_reject_unsupported_config(&c), Err(SvtRefusal::Needs420));
    c.chroma_subsampling = EncodeChromaSubsampling::Yuv420;
    assert_eq!(svt_reject_unsupported_config(&c), Ok(()));
    c.color_model = EncodeColorModel::Rgb;
    assert_eq!(svt_reject_unsupported_config(&c), Err(SvtRefusal::NeedsYCbCr));
    c.color_model = EncodeColorModel::YCbCr;
    c.pixel_range = Some(EncodePixelRange::Limited);
    assert_eq!(svt_reject_unsupported_config(&c), Err(SvtRefusal::NeedsFullRange));
    c.pixel_range = Some(EncodePixelRange::Full);
    c.has_gain_map = true;
    assert_eq!(svt_reject_unsupported_config(&c), Err(SvtRefusal::GainMap));
    c.has_gain_map = false;
    c.lossless = true;
    assert_eq!(svt_reject_unsupported_config(&c), Err(SvtRefusal::Lossless));
    assert!(SvtRefusal::Needs420.message().contains("4:2:0"));
}

#[test]
fn key_frame_params_follow_settings() {
    let mut c = EncodeSettings::new();
    c.speed = 6;
    let p = key_frame_params(&c, 640, 480, 8, false, 30);
    assert_eq!((p.width, p.height, p.bit_depth), (640, 480, 8));
    assert_eq!((p.ss_x, p.ss_y), (0, 0));
    assert_eq!(p.cq_level, 30);
    assert_eq!(p.cpu_used, 5);
    assert_eq!(p.usage, 2);
    assert!(!p.enable_cdef && p.enable_restoration);
    assert!(!p.full_range);
    assert_eq!(p.matrix_coefficients, 2);
    c.lossless = true;
    c.color_model = EncodeColorModel::Rgb;
    let p = key_frame_params(&c, 16, 16, 10, false, 30);
    assert_eq!(p.cq_level, 0);
    assert!(p.full_range);
    assert_eq!(p.matrix_coefficients, 0);
    let p = key_frame_params(&c, 16, 16, 8, true, 30);
    assert_eq!((p.ss_x, p.ss_y), (1, 1));
    assert_eq!(coded_matrix_coefficients(&c, true), 2);
    assert_eq!(coded_matrix_coefficients(&c, false), 0);
    assert_eq!(coded_matrix_coefficients(&EncodeSettings::new(), false), 6);
}

#[test]
fn resolved_matches_the_port_tune_overrides() {
    for tune in [0u8, 1, 2, 3, 4] {
        for qp in [10u8, 45, 46, 63] {
            let mut ours = SvtParams::new();
            ours.tune = tune;
            let ours = ours.resolved(qp);
            let iq_like = tune == 3 || tune == 4;
            assert_eq!(ours.enable_qm, iq_like, "tune {tune} qp {qp}: enable_qm");
            assert_eq!(ours.min_qm_level, if iq_like { 4 } else { 8 }, "tune {tune} qp {qp}: qm_min");
            assert_eq!(ours.max_qm_level, if iq_like { 10 } else { 15 }, "tune {tune} qp {qp}: qm_max");
            assert_eq!(ours.sharpness, if iq_like { 7 } else { 0 }, "tune {tune} qp {qp}: sharpness");
            assert_eq!(ours.enable_variance_boost, iq_like, "tune {tune} qp {qp}: variance boost");
            assert_eq!(ours.variance_boost_strength, if iq_like { 3 } else { 2 }, "tune {tune} qp {qp}: vb strength");
            let tx = if tune == 3 && qp <= 45 { 32 } else { 64 };
            assert_eq!(ours.max_tx_size, tx, "tune {tune} qp {qp}: max_tx_size");
            let sc = if tune == 3 { Some(3) } else { None };
            assert_eq!(ours.force_screen_content_mode, sc, "tune {tune} qp {qp}: screen_content_mode");
        }
    }
}

#[test]
fn svt_params_default_and_deviations() {
    let d = SvtParams::new();
    assert!(d.is_default());
    assert_eq!(d.deviations(), 0);
    let mut p = d;
    p.ac_bias_bits = AC_BIAS_NEG_ZERO_BITS;
    assert!(p.is_default());
    p.tune = 3;
    p.variance_octile = 7;
    p.min_qm_level = 4;
    p.max_qm_level = 10;
    p.tile_cols_log2 = 1;
    assert_eq!(p.deviations(), 4);
    assert!(!p.is_default());
}

#[test]
fn svt_params_clamp_and_validate() {
    let mut p = SvtParams::new();
    p.variance_boost_strength = 0;
    p.variance_octile = 20;
    p.min_qm_level = 99;
    p.max_tx_size = 48;
    p.sharpness = -3;
    let c = p.clamped();
    assert_eq!(c.variance_boost_strength, 1);
    assert_eq!(c.variance_octile, 8);
    assert_eq!(c.min_qm_level, 15);
    assert_eq!(c.max_tx_size, 64);
    assert_eq!(c.sharpness, 0);
    assert_eq!(c.clamped(), c);
    let mut v = SvtParams::new();
    assert!(v.validate_controls().is_ok());
    v.ac_bias_bits = AC_BIAS_MAX_BITS;
    assert!(v.validate_controls().is_ok());
    v.ac_bias_bits = AC_BIAS_MAX_BITS + 1;
    assert!(v.validate_controls().is_err());
    v.ac_bias_bits = 0xBFF0_0000_0000_0000; // -1.0
    assert!(v.validate_controls().is_err());
}

#[test]
fn svt_identity_prefers_route_preset() {
    let mut c = EncodeSettings::new();
    c.speed = 5;
    assert_eq!(svt_resolved_identity(None, &c, 30, 20), (6, 30, 20));
    assert_eq!(svt_resolved_identity(Some(11), &c, 30, 20), (11, 30, 20));
    c.lossless = true;
    c.speed = 1;
    // Lossless clamps the effective speed to 6 -> preset 7.
    assert_eq!(svt_resolved_identity(None, &c, 1, 1).0, 7);
}
