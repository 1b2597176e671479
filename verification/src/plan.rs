//! Static encode-plan resolution: what a configuration will actually do
//! for a given input shape, before any encode is spent.

use vstd::prelude::*;
use crate::settings::{
    Av1Backend, EncodeAlphaMode, EncodeBitDepth, EncodeChromaSubsampling, EncodeColorModel,
    EncodePixelRange, EncodeSettings, SpeedOverrides,
};

verus! {

/// Input facts the plan needs about the image to be encoded.
#[derive(Debug, Clone, Copy, PartialEq, Eq, Structural)]
pub struct PlanInput {
    /// Image width in pixels.
    pub width: u32,
    /// Image height in pixels.
    pub height: u32,
    /// True for the 16-bit entry points.
    pub input_is_16bit: bool,
    /// True when the caller passes RGBA.
    pub input_has_alpha: bool,
}

impl PlanInput {
    /// Plan input for an 8-bit RGB image.
    pub fn rgb8(width: u32, height: u32) -> (r: Self)
        ensures
            r == (PlanInput { width, height, input_is_16bit: false, input_has_alpha: false }),
    {
        PlanInput { width, height, input_is_16bit: false, input_has_alpha: false }
    }

    /// Plan input for an 8-bit RGBA image.
    pub fn rgba8(width: u32, height: u32) -> (r: Self)
        ensures
            r == (PlanInput { width, height, input_is_16bit: false, input_has_alpha: true }),
    {
        PlanInput { width, height, input_is_16bit: false, input_has_alpha: true }
    }
}

/// How many AV1 tiles the encode will request.
#[derive(Debug, Clone, Copy, PartialEq, Eq, Structural)]
pub enum TilesResolution {
    /// Threads are pinned: `min(threads, w*h / min_tile_size^2)`.
    Fixed(usize),
    /// Threads are unpinned: the count is `min(host_threads, cap)`.
    MachineDependent { cap: usize },
}

/// Speed-preset-derived AV1 search settings, after overrides.
#[derive(Debug, Clone, Copy, PartialEq, Eq)]
pub struct SpeedDerived {
    pub partition_range: (u8, u8),
    pub complex_prediction_modes: bool,
    pub sgr_complexity_full: bool,
    pub encode_bottomup: bool,
    pub rdo_tx_decision: bool,
    pub reduced_tx_set: bool,
    pub fine_directional_intra: bool,
    pub fast_deblock: bool,
    pub lrf: bool,
    pub cdef: bool,
    pub inter_tx_split: bool,
    pub tx_domain_rate: bool,
    pub segmentation_complex: bool,
    pub lru_on_skip: bool,
    pub non_square_partition_max: u8,
    pub min_tile_size: u16,
}

/// Quantizers above this are "low quality" (about Q50 and below).
pub open spec fn is_low_quality(quantizer: u8) -> bool {
    quantizer > 150
}

/// Quantizers below this are "high quality" (about Q80 and above).
pub open spec fn is_high_quality(quantizer: u8) -> bool {
    quantizer < 80
}

/// Partition block-size search range for a speed preset and quantizer.
pub open spec fn partition_range_for(speed: u8, quantizer: u8) -> (u8, u8) {
    let max_block: u8 = if is_high_quality(quantizer) { 16 } else { 64 };
    if speed == 0 {
        (4, max_block)
    } else if speed == 1 && is_low_quality(quantizer) {
        (4, max_block)
    } else if speed == 2 && is_low_quality(quantizer) {
        (4, if max_block < 32 { max_block } else { 32 })
    } else if speed <= 4 {
        (4, 16)
    } else if speed <= 8 {
        (8, 16)
    } else {
        (16, 16)
    }
}

/// Minimum tile edge: halves per speed step down to 128, doubled at high quality.
pub open spec fn min_tile_size_for(speed: u8, quantizer: u8) -> u16 {
    let base: u16 = if speed == 0 { 4096 } else if speed == 1 { 2048 } else if speed == 2 {
        1024
    } else if speed == 3 {
        512
    } else if speed == 4 {
        256
    } else {
        128
    };
    if is_high_quality(quantizer) { (base * 2) as u16 } else { base }
}

/// Non-square partition threshold by speed.
pub open spec fn non_square_max_for(speed: u8) -> u8 {
    if speed <= 1 { 64 } else if speed <= 3 { 32 } else { 8 }
}

/// The preset's search settings for a speed and quantizer (no overrides).
pub open spec fn speed_derived_spec(speed: u8, quantizer: u8) -> SpeedDerived {
    let low = is_low_quality(quantizer);
    let high = is_high_quality(quantizer);
    SpeedDerived {
        partition_range: partition_range_for(speed, quantizer),
        complex_prediction_modes: false,
        sgr_complexity_full: speed <= 2,
        encode_bottomup: false,
        rdo_tx_decision: speed <= 4 && !high,
        reduced_tx_set: speed == 4 || speed >= 9,
        fine_directional_intra: speed <= 6,
        fast_deblock: speed >= 7 && !high,
        lrf: low && speed <= 8,
        cdef: low && speed <= 9,
        inter_tx_split: speed >= 9,
        tx_domain_rate: speed >= 10,
        segmentation_complex: speed <= 2,
        lru_on_skip: speed <= 1,
        non_square_partition_max: non_square_max_for(speed),
        min_tile_size: min_tile_size_for(speed, quantizer),
    }
}

/// An override, when set, replaces the preset value.
pub open spec fn pick<T>(ov: Option<T>, preset: T) -> T {
    match ov {
        Some(v) => v,
        None => preset,
    }
}

/// The search settings after applying the override knobs.
pub open spec fn apply_overrides_spec(d: SpeedDerived, ov: SpeedOverrides) -> SpeedDerived {
    SpeedDerived {
        cdef: pick(ov.cdef, d.cdef),
        rdo_tx_decision: pick(ov.rdo_tx_decision, d.rdo_tx_decision),
        sgr_complexity_full: pick(ov.sgr_full, d.sgr_complexity_full),
        lru_on_skip: pick(ov.lru_on_skip, d.lru_on_skip),
        segmentation_complex: pick(ov.segmentation_complex, d.segmentation_complex),
        encode_bottomup: pick(ov.encode_bottomup, d.encode_bottomup),
        partition_range: pick(ov.partition_range, d.partition_range),
        complex_prediction_modes: pick(ov.complex_prediction_modes, d.complex_prediction_modes),
        lrf: pick(ov.lrf, d.lrf),
        fast_deblock: pick(ov.fast_deblock, d.fast_deblock),
        ..d
    }
}

/// Every override that is set names the value the preset already has.
pub open spec fn overrides_agree(ov: SpeedOverrides, d: SpeedDerived) -> bool {
    &&& ov.cdef matches Some(v) ==> v == d.cdef
    &&& ov.rdo_tx_decision matches Some(v) ==> v == d.rdo_tx_decision
    &&& ov.sgr_full matches Some(v) ==> v == d.sgr_complexity_full
    &&& ov.lru_on_skip matches Some(v) ==> v == d.lru_on_skip
    &&& ov.segmentation_complex matches Some(v) ==> v == d.segmentation_complex
    &&& ov.encode_bottomup matches Some(v) ==> v == d.encode_bottomup
    &&& ov.partition_range matches Some(v) ==> v == d.partition_range
    &&& ov.complex_prediction_modes matches Some(v) ==> v == d.complex_prediction_modes
    &&& ov.lrf matches Some(v) ==> v == d.lrf
    &&& ov.fast_deblock matches Some(v) ==> v == d.fast_deblock
}

/// An override equal to the preset's own value changes nothing.
pub proof fn law_override_matching_preset_is_noop(d: SpeedDerived, ov: SpeedOverrides)
    requires
        overrides_agree(ov, d),
    ensures
        apply_overrides_spec(d, ov) == d,
{
}

/// Applying the same overrides twice is the same as applying them once.
pub proof fn law_overrides_idempotent(d: SpeedDerived, ov: SpeedOverrides)
    ensures
        apply_overrides_spec(apply_overrides_spec(d, ov), ov) == apply_overrides_spec(d, ov),
{
}

/// A plan whose overrides each repeat the preset's value equals the plan of
/// the same settings with no overrides at all.
pub proof fn law_plan_override_alias(s: EncodeSettings, input: PlanInput, color_q: u8, alpha_q: u8)
    requires
        overrides_agree(
            s.overrides,
            speed_derived_spec(speed_effective_spec(s), if s.lossless { 0u8 } else { color_q }),
        ),
        input.input_has_alpha ==> overrides_agree(
            s.overrides,
            speed_derived_spec(speed_effective_spec(s), if s.lossless { 0u8 } else { alpha_q }),
        ),
    ensures
        plan_spec(s, input, color_q, alpha_q)
            == plan_spec(EncodeSettings { overrides: empty_overrides(), ..s }, input, color_q, alpha_q),
{
}

/// The override set with nothing set.
pub open spec fn empty_overrides() -> SpeedOverrides {
    SpeedOverrides {
        cdef: None,
        rdo_tx_decision: None,
        sgr_full: None,
        lru_on_skip: None,
        segmentation_complex: None,
        encode_bottomup: None,
        partition_range: None,
        complex_prediction_modes: None,
        lrf: None,
        fast_deblock: None,
    }
}

/// Derive the per-speed search settings (the preset table, no overrides).
pub fn speed_derived(speed: u8, quantizer: u8) -> (r: SpeedDerived)
    ensures
        r == speed_derived_spec(speed, quantizer),
{
    let low_quality = quantizer > 150;
    let high_quality = quantizer < 80;
    let max_block_size: u8 = if high_quality { 16 } else { 64 };
    let partition_range: (u8, u8) = if speed == 0 {
        (4, max_block_size)
    } else if speed == 1 && low_quality {
        (4, max_block_size)
    } else if speed == 2 && low_quality {
        (4, if max_block_size < 32 { max_block_size } else { 32 })
    } else if speed <= 4 {
        (4, 16)
    } else if speed <= 8 {
        (8, 16)
    } else {
        (16, 16)
    };
    let non_square_partition_max: u8 = if speed <= 1 { 64 } else if speed <= 3 { 32 } else { 8 };
    let base_tile: u16 = if speed == 0 { 4096 } else if speed == 1 { 2048 } else if speed == 2 {
        1024
    } else if speed == 3 {
        512
    } else if speed == 4 {
        256
    } else {
        128
    };
    let min_tile_size: u16 = if high_quality { base_tile * 2 } else { base_tile };
    SpeedDerived {
        partition_range,
        complex_prediction_modes: false,
        sgr_complexity_full: speed <= 2,
        encode_bottomup: false,
        rdo_tx_decision: speed <= 4 && !high_quality,
        reduced_tx_set: speed == 4 || speed >= 9,
        fine_directional_intra: speed <= 6,
        fast_deblock: speed >= 7 && !high_quality,
        lrf: low_quality && speed <= 8,
        cdef: low_quality && speed <= 9,
        inter_tx_split: speed >= 9,
        tx_domain_rate: speed >= 10,
        segmentation_complex: speed <= 2,
        lru_on_skip: speed <= 1,
        non_square_partition_max,
        min_tile_size,
    }
}

/// Apply the override knobs onto preset-derived settings.
pub fn apply_overrides(derived: &mut SpeedDerived, overrides: &SpeedOverrides)
    ensures
        *final(derived) == apply_overrides_spec(*old(derived), *overrides),
{
    let d = *derived;
    let cdef = match overrides.cdef { Some(v) => v, None => d.cdef };
    let rdo_tx_decision = match overrides.rdo_tx_decision { Some(v) => v, None => d.rdo_tx_decision };
    let sgr_complexity_full = match overrides.sgr_full { Some(v) => v, None => d.sgr_complexity_full };
    let lru_on_skip = match overrides.lru_on_skip { Some(v) => v, None => d.lru_on_skip };
    let segmentation_complex = match overrides.segmentation_complex {
        Some(v) => v,
        None => d.segmentation_complex,
    };
    let encode_bottomup = match overrides.encode_bottomup { Some(v) => v, None => d.encode_bottomup };
    let partition_range = match overrides.partition_range { Some(v) => v, None => d.partition_range };
    let complex_prediction_modes = match overrides.complex_prediction_modes {
        Some(v) => v,
        None => d.complex_prediction_modes,
    };
    let lrf = match overrides.lrf { Some(v) => v, None => d.lrf };
    let fast_deblock = match overrides.fast_deblock { Some(v) => v, None => d.fast_deblock };
    *derived = SpeedDerived {
        partition_range,
        complex_prediction_modes,
        sgr_complexity_full,
        encode_bottomup,
        rdo_tx_decision,
        reduced_tx_set: d.reduced_tx_set,
        fine_directional_intra: d.fine_directional_intra,
        fast_deblock,
        lrf,
        cdef,
        inter_tx_split: d.inter_tx_split,
        tx_domain_rate: d.tx_domain_rate,
        segmentation_complex,
        lru_on_skip,
        non_square_partition_max: d.non_square_partition_max,
        min_tile_size: d.min_tile_size,
    };
}

/// Image-size bound on the tile count: `w*h / min_tile_size^2`.
pub open spec fn tile_cap(width: u32, height: u32, min_tile_size: u16) -> int {
    (width * height) / (min_tile_size * min_tile_size)
}

/// The tile count request for a thread setting and image size.
pub open spec fn tiles_spec(threads: Option<usize>, width: u32, height: u32, min_tile_size: u16) -> TilesResolution {
    let cap = tile_cap(width, height, min_tile_size);
    match threads {
        Some(t) => TilesResolution::Fixed(if t < cap { t } else { cap as usize }),
        None => TilesResolution::MachineDependent { cap: cap as usize },
    }
}

/// Tile count for the given thread setting and image size.
pub fn tiles_for(threads: Option<usize>, width: u32, height: u32, min_tile_size: u16) -> (r: TilesResolution)
    requires
        min_tile_size > 0,
        tile_cap(width, height, min_tile_size) <= usize::MAX,
    ensures
        r == tiles_spec(threads, width, height, min_tile_size),
{
    let w: u64 = width as u64;
    let h: u64 = height as u64;
    let m: u64 = min_tile_size as u64;
    assert(w * h <= 0xffff_ffffu64 * 0xffff_ffffu64) by (nonlinear_arith)
        requires w <= 0xffff_ffffu64, h <= 0xffff_ffffu64;
    assert(0 < m * m <= 0xffffu64 * 0xffffu64) by (nonlinear_arith)
        requires 0 < m <= 0xffffu64;
    let area: u64 = w * h;
    let tile_area: u64 = m * m;
    let cap64: u64 = area / tile_area;
    let cap: usize = cap64 as usize;
    match threads {
        Some(t) => TilesResolution::Fixed(if t < cap { t } else { cap }),
        None => TilesResolution::MachineDependent { cap },
    }
}

/// Inclusive speed band that lossless encodes are clamped into.
pub open spec fn lossless_speed_band() -> (u8, u8) {
    (6, 8)
}

/// The speed preset the encode will actually run: the configured speed,
/// clamped into the lossless band when lossless is requested.
pub open spec fn speed_effective_spec(s: EncodeSettings) -> u8 {
    if s.lossless {
        if s.speed < 6 { 6 } else if s.speed > 8 { 8 } else { s.speed }
    } else {
        s.speed
    }
}

/// Output bit depth: explicit depths win, `Auto` follows the input.
pub open spec fn bit_depth_spec(configured: EncodeBitDepth, input_is_16bit: bool) -> u8 {
    match configured {
        EncodeBitDepth::Eight => 8,
        EncodeBitDepth::Ten => 10,
        EncodeBitDepth::Auto => if input_is_16bit { 10 } else { 8 },
    }
}

impl EncodeSettings {
    /// The speed preset the encode will actually run.
    pub fn speed_effective(&self) -> (r: u8)
        ensures
            r == speed_effective_spec(*self),
    {
        if self.lossless {
            if self.speed < 6 { 6 } else if self.speed > 8 { 8 } else { self.speed }
        } else {
            self.speed
        }
    }

    /// Quantization matrices after the lossless gate.
    pub fn qm_effective(&self) -> (r: bool)
        ensures
            r == (self.enable_qm && !self.lossless),
    {
        self.enable_qm && !self.lossless
    }

    /// Trellis quantization, off unless requested.
    pub fn trellis_effective(&self) -> (r: bool)
        ensures
            r == pick(self.trellis, false),
    {
        match self.trellis {
            Some(t) => t,
            None => false,
        }
    }
}

/// Resolve the configured bit depth against the input's bitness.
pub fn resolve_bit_depth(configured: EncodeBitDepth, input_is_16bit: bool) -> (r: u8)
    ensures
        r == bit_depth_spec(configured, input_is_16bit),
{
    match configured {
        EncodeBitDepth::Eight => 8,
        EncodeBitDepth::Ten => 10,
        EncodeBitDepth::Auto => if input_is_16bit { 10 } else { 8 },
    }
}

/// The resolved encode plan: every integer and boolean knob after defaults,
/// gates and overrides.
#[derive(Debug, Clone, Copy, PartialEq, Eq)]
pub struct EncodePlanCore {
    pub backend: Av1Backend,
    /// Color quantizer (0-255; lossless forces 0).
    pub quantizer: u8,
    /// Alpha quantizer; `None` when the input declares no alpha.
    pub alpha_quantizer: Option<u8>,
    /// Output bit depth (8 or 10).
    pub bit_depth: u8,
    pub color_model: EncodeColorModel,
    /// CICP matrix coefficients signalled: YCbCr gives 6, RGB gives 0.
    pub matrix_coefficients_cicp: u8,
    pub chroma_subsampling: EncodeChromaSubsampling,
    pub pixel_range: EncodePixelRange,
    pub alpha_color_mode: EncodeAlphaMode,
    pub qm: bool,
    pub tune_still_image: bool,
    pub lossless: bool,
    pub trellis: bool,
    pub speed_preset: u8,
    pub speed: SpeedDerived,
    pub alpha_speed: Option<SpeedDerived>,
    pub tiles: TilesResolution,
    pub has_icc: bool,
    pub has_exif: bool,
    pub has_xmp: bool,
    pub has_gain_map: bool,
}

/// The full plan for settings, an input shape, and the quantizers that the
/// color and alpha qualities map to.
pub open spec fn plan_spec(s: EncodeSettings, input: PlanInput, color_q: u8, alpha_q: u8) -> EncodePlanCore {
    let quantizer: u8 = if s.lossless { 0 } else { color_q };
    let aq: u8 = if s.lossless { 0 } else { alpha_q };
    let preset = speed_effective_spec(s);
    let speed = apply_overrides_spec(speed_derived_spec(preset, quantizer), s.overrides);
    let color_model = if input.input_is_16bit { EncodeColorModel::Rgb } else { s.color_model };
    EncodePlanCore {
        backend: s.backend,
        quantizer,
        alpha_quantizer: if input.input_has_alpha { Some(aq) } else { None },
        bit_depth: bit_depth_spec(s.bit_depth, input.input_is_16bit),
        color_model,
        matrix_coefficients_cicp: match color_model {
            EncodeColorModel::YCbCr => 6,
            EncodeColorModel::Rgb => 0,
        },
        chroma_subsampling: s.chroma_subsampling,
        pixel_range: pick(s.pixel_range, EncodePixelRange::Full),
        alpha_color_mode: s.alpha_color_mode,
        qm: s.enable_qm && !s.lossless,
        tune_still_image: s.tune_still_image,
        lossless: s.lossless,
        trellis: pick(s.trellis, false),
        speed_preset: preset,
        speed,
        alpha_speed: if input.input_has_alpha {
            Some(apply_overrides_spec(speed_derived_spec(preset, aq), s.overrides))
        } else {
            None
        },
        tiles: tiles_spec(s.threads, input.width, input.height, speed.min_tile_size),
        has_icc: s.has_icc,
        has_exif: s.has_exif,
        has_xmp: s.has_xmp,
        has_gain_map: s.has_gain_map,
    }
}

/// Whether the tile-count bound of a plan fits the platform's `usize`
/// (always true on 64-bit targets).
pub open spec fn plan_fits(s: EncodeSettings, input: PlanInput, color_q: u8) -> bool {
    let quantizer: u8 = if s.lossless { 0 } else { color_q };
    let speed = apply_overrides_spec(speed_derived_spec(speed_effective_spec(s), quantizer), s.overrides);
    speed.min_tile_size > 0 && tile_cap(input.width, input.height, speed.min_tile_size) <= usize::MAX
}

impl EncodeSettings {
    /// Resolve every knob of these settings against a concrete input shape.
    ///
    /// `color_quantizer` and `alpha_quantizer` are the quantizers that the
    /// configured color and alpha qualities map to; lossless overrides both.
    pub fn resolve_plan(&self, input: PlanInput, color_quantizer: u8, alpha_quantizer: u8) -> (r: EncodePlanCore)
        requires
            plan_fits(*self, input, color_quantizer),
        ensures
            r == plan_spec(*self, input, color_quantizer, alpha_quantizer),
    {
        let quantizer: u8 = if self.lossless { 0 } else { color_quantizer };
        let aq: u8 = if self.lossless { 0 } else { alpha_quantizer };
        let speed_preset = self.speed_effective();
        let mut speed = speed_derived(speed_preset, quantizer);
        apply_overrides(&mut speed, &self.overrides);
        let alpha_speed = if input.input_has_alpha {
            let mut a = speed_derived(speed_preset, aq);
            apply_overrides(&mut a, &self.overrides);
            Some(a)
        } else {
            None
        };
        let bit_depth = resolve_bit_depth(self.bit_depth, input.input_is_16bit);
        let color_model = if input.input_is_16bit { EncodeColorModel::Rgb } else { self.color_model };
        let matrix_coefficients_cicp: u8 = match color_model {
            EncodeColorModel::YCbCr => 6,
            EncodeColorModel::Rgb => 0,
        };
        let pixel_range = match self.pixel_range {
            Some(p) => p,
            None => EncodePixelRange::Full,
        };
        let tiles = tiles_for(self.threads, input.width, input.height, speed.min_tile_size);
        EncodePlanCore {
            backend: self.backend,
            quantizer,
            alpha_quantizer: if input.input_has_alpha { Some(aq) } else { None },
            bit_depth,
            color_model,
            matrix_coefficients_cicp,
            chroma_subsampling: self.chroma_subsampling,
            pixel_range,
            alpha_color_mode: self.alpha_color_mode,
            qm: self.qm_effective(),
            tune_still_image: self.tune_still_image,
            lossless: self.lossless,
            trellis: self.trellis_effective(),
            speed_preset,
            speed,
            alpha_speed,
            tiles,
            has_icc: self.has_icc,
            has_exif: self.has_exif,
            has_xmp: self.has_xmp,
            has_gain_map: self.has_gain_map,
        }
    }
}

/// With an alpha plane and a lossy configuration, the plan codes alpha at
/// the alpha quantizer given, with the search settings of that quantizer,
/// and colour at the colour quantizer; neither depends on the other's
/// quantizer. Lossless codes both at 0; without alpha there is no alpha plan.
pub proof fn law_plan_quantizers(s: EncodeSettings, input: PlanInput, color_q: u8, alpha_q: u8, other_q: u8)
    ensures
        input.input_has_alpha && !s.lossless ==> {
            &&& plan_spec(s, input, color_q, alpha_q).alpha_quantizer == Some(alpha_q)
            &&& plan_spec(s, input, color_q, alpha_q).alpha_speed
                == Some(apply_overrides_spec(speed_derived_spec(speed_effective_spec(s), alpha_q), s.overrides))
        },
        !s.lossless ==> plan_spec(s, input, color_q, alpha_q).quantizer == color_q,
        s.lossless ==> plan_spec(s, input, color_q, alpha_q).quantizer == 0
            && (input.input_has_alpha ==> plan_spec(s, input, color_q, alpha_q).alpha_quantizer == Some(0u8)),
        !input.input_has_alpha ==> plan_spec(s, input, color_q, alpha_q).alpha_quantizer is None
            && plan_spec(s, input, color_q, alpha_q).alpha_speed is None,
        plan_spec(s, input, color_q, alpha_q).alpha_quantizer == plan_spec(s, input, other_q, alpha_q).alpha_quantizer,
        plan_spec(s, input, color_q, alpha_q).alpha_speed == plan_spec(s, input, other_q, alpha_q).alpha_speed,
        plan_spec(s, input, color_q, alpha_q).quantizer == plan_spec(s, input, color_q, other_q).quantizer,
        plan_spec(s, input, color_q, alpha_q).speed == plan_spec(s, input, color_q, other_q).speed,
{
}

} // verus!
