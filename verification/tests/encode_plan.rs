use zenavif::plan::{resolve_bit_depth, speed_derived, tiles_for, PlanInput, TilesResolution};
use zenavif::settings::{EncodeBitDepth, EncodeColorModel, EncodeSettings};

fn settings(speed: u8) -> EncodeSettings {
    let mut s = EncodeSettings::new();
    s.speed = speed;
    s
}

#[test]
fn speed_thresholds_match_zenravif_design() {
    // low_quality <=> quantizer > 150; high_quality <=> quantizer < 80.
    let lo = speed_derived(6, 194); // ~q30
    assert!(lo.cdef && lo.lrf);
    assert_eq!(lo.min_tile_size, 128);
    let hi = speed_derived(6, 54); // ~q85
    assert!(!hi.cdef && !hi.lrf);
    assert_eq!(hi.min_tile_size, 256); // x2 at high quality
    assert_eq!(hi.partition_range, (8, 16));
    let s2_lo = speed_derived(2, 194);
    assert_eq!(s2_lo.partition_range, (4, 32));
    assert!(s2_lo.segmentation_complex && s2_lo.sgr_complexity_full);
}

#[test]
fn tiles_resolution() {
    // 512x512 at min_tile 128 -> cap 16.
    assert_eq!(tiles_for(Some(2), 512, 512, 128), TilesResolution::Fixed(2));
    assert_eq!(tiles_for(Some(32), 512, 512, 128), TilesResolution::Fixed(16));
    assert_eq!(tiles_for(None, 512, 512, 128), TilesResolution::MachineDependent { cap: 16 });
    // Tiny image: cap 0 regardless of threads.
    assert_eq!(tiles_for(Some(8), 64, 64, 128), TilesResolution::Fixed(0));
}

#[test]
fn plan_resolves_through_shared_functions() {
    // Quality 80 maps to quantizer 71.
    let cfg = settings(6);
    let plan = cfg.resolve_plan(PlanInput::rgb8(1024, 768), 71, 71);
    assert_eq!(plan.quantizer, 71);
    assert_eq!(plan.alpha_quantizer, None);
    assert_eq!(plan.bit_depth, 8);
    assert_eq!(plan.matrix_coefficients_cicp, 6);
    assert_eq!(plan.speed_preset, 6);
    assert!(!plan.speed.cdef, "cdef off at high quality");

    // Alpha follows color quality when unset.
    let plan_a = cfg.resolve_plan(PlanInput::rgba8(1024, 768), 71, 71);
    assert_eq!(plan_a.alpha_quantizer, Some(71));
    assert!(plan_a.alpha_speed.is_some());

    // 16-bit input forces 10-bit identity-RGB.
    let plan16 = cfg.resolve_plan(
        PlanInput { width: 64, height: 64, input_is_16bit: true, input_has_alpha: false },
        71,
        71,
    );
    assert_eq!(plan16.bit_depth, 10);
    assert_eq!(plan16.color_model, EncodeColorModel::Rgb);
    assert_eq!(plan16.matrix_coefficients_cicp, 0);
}

#[test]
fn lossless_gates_qm_and_quantizer() {
    // Quality 50 maps to quantizer 150; lossless overrides it.
    let mut cfg = EncodeSettings::new();
    cfg.lossless = true;
    let plan = cfg.resolve_plan(PlanInput::rgb8(256, 256), 150, 150);
    assert_eq!(plan.quantizer, 0);
    assert!(!plan.qm, "lossless forces QM off");
    assert!(plan.lossless);
}

#[test]
fn lossless_clamps_speed_into_registry_band() {
    let (lo, hi) = (6u8, 8u8);
    let input = PlanInput::rgb8(256, 256);

    // Below the band -> floor.
    let mut slow = settings(1);
    slow.lossless = true;
    assert_eq!(slow.resolve_plan(input, 0, 0).speed_preset, lo);
    // Above the band -> ceiling.
    let mut fast = settings(10);
    fast.lossless = true;
    assert_eq!(fast.resolve_plan(input, 0, 0).speed_preset, hi);
    // Interior of the band -> untouched.
    let mut mid = settings(hi);
    mid.lossless = true;
    assert_eq!(mid.resolve_plan(input, 0, 0).speed_preset, hi);

    // Lossy encodes never clamp (quality 80 -> quantizer 71).
    let lossy = settings(1);
    assert_eq!(lossy.resolve_plan(input, 71, 71).speed_preset, 1);

    // The derived search settings follow the effective preset.
    let mut at_lo = settings(lo);
    at_lo.lossless = true;
    assert_eq!(
        slow.resolve_plan(input, 0, 0).speed.encode_bottomup,
        at_lo.resolve_plan(input, 0, 0).speed.encode_bottomup
    );
    assert_eq!(slow.resolve_plan(input, 0, 0).speed, at_lo.resolve_plan(input, 0, 0).speed);
}

#[test]
fn override_patches_speed_derived() {
    // Quality 30 maps to quantizer 194.
    let base = settings(6);
    let plan = base.resolve_plan(PlanInput::rgb8(256, 256), 194, 194);
    assert!(plan.speed.cdef, "preset: cdef on at low quality");
    let mut forced = base;
    forced.overrides.cdef = Some(false);
    let plan2 = forced.resolve_plan(PlanInput::rgb8(256, 256), 194, 194);
    assert!(!plan2.speed.cdef);
    // Everything but the overridden knob is the preset's.
    assert_eq!(plan2.speed.lrf, plan.speed.lrf);
    assert_eq!(plan2.speed.min_tile_size, plan.speed.min_tile_size);
}

#[test]
fn speed_derived_preset_table_edges() {
    let s0 = speed_derived(0, 100);
    assert_eq!(s0.partition_range, (4, 64));
    assert_eq!(s0.min_tile_size, 4096);
    assert_eq!(s0.non_square_partition_max, 64);
    assert!(s0.lru_on_skip);
    let s0_hi = speed_derived(0, 10);
    assert_eq!(s0_hi.partition_range, (4, 16));
    assert_eq!(s0_hi.min_tile_size, 8192);
    let s10 = speed_derived(10, 200);
    assert_eq!(s10.partition_range, (16, 16));
    assert!(s10.tx_domain_rate && s10.inter_tx_split && s10.reduced_tx_set);
    assert!(!s10.cdef && !s10.lrf);
    let s9 = speed_derived(9, 200);
    assert!(s9.cdef && !s9.lrf);
    // Boundaries of the quality classes.
    assert!(!speed_derived(6, 150).cdef);
    assert!(speed_derived(6, 151).cdef);
    assert_eq!(speed_derived(6, 79).min_tile_size, 256);
    assert_eq!(speed_derived(6, 80).min_tile_size, 128);
}

#[test]
fn resolve_bit_depth_follows_configuration() {
    assert_eq!(resolve_bit_depth(EncodeBitDepth::Eight, true), 8);
    assert_eq!(resolve_bit_depth(EncodeBitDepth::Ten, false), 10);
    assert_eq!(resolve_bit_depth(EncodeBitDepth::Auto, false), 8);
    assert_eq!(resolve_bit_depth(EncodeBitDepth::Auto, true), 10);
}

#[test]
fn plan_tiles_follow_pinned_threads() {
    let mut cfg = settings(6);
    cfg.threads = Some(4);
    // 1024x1024, quantizer 194 -> min tile 128 -> cap 64.
    let plan = cfg.resolve_plan(PlanInput::rgb8(1024, 1024), 194, 194);
    assert_eq!(plan.tiles, TilesResolution::Fixed(4));
    cfg.threads = None;
    let plan = cfg.resolve_plan(PlanInput::rgb8(1024, 1024), 194, 194);
    assert_eq!(plan.tiles, TilesResolution::MachineDependent { cap: 64 });
}

#[test]
fn override_equal_to_preset_value_aliases_the_unset_plan() {
    let base = settings(6);
    let q = 194u8;
    let preset = speed_derived(6, q);
    let mut aliased = base;
    aliased.overrides.cdef = Some(preset.cdef);
    aliased.overrides.partition_range = Some(preset.partition_range);
    aliased.overrides.lrf = Some(preset.lrf);
    let input = PlanInput::rgb8(256, 256);
    assert_eq!(aliased.resolve_plan(input, q, q), base.resolve_plan(input, q, q));
    // A differing override does change the plan.
    let mut changed = base;
    changed.overrides.cdef = Some(!preset.cdef);
    assert_ne!(changed.resolve_plan(input, q, q), base.resolve_plan(input, q, q));
}

#[test]
fn defaults_enable_qm_vaq_and_still_image_tuning() {
    let s = EncodeSettings::new();
    assert!(s.enable_qm && s.enable_vaq && s.tune_still_image && !s.lossless);
    let plan = s.resolve_plan(PlanInput::rgb8(64, 64), 60, 60);
    assert!(plan.tune_still_image && plan.qm);
}
