//! Backend policy for the SVT-AV1 and libaom seams: speed and depth
//! mappings, the configuration slice each backend implements, and the
//! key-frame parameters derived from encoder settings.

use vstd::prelude::*;
use crate::settings::{
    EncodeChromaSubsampling, EncodeColorModel, EncodePixelRange, EncodeSettings,
};
use crate::plan::{bit_depth_spec, speed_effective_spec};

verus! {

/// The SVT preset for a zenavif speed: speeds clamp to `1..=10`, map
/// linearly with rounding onto `0..=13`, then clamp to preset 9 (the
/// encoder remaps every all-intra preset above 9 down to 9).
pub open spec fn svt_preset_spec(speed: u8) -> int {
    let c: int = if speed < 1 { 1 } else if speed > 10 { 10 } else { speed as int };
    let p: int = ((c - 1) * 13 + 4) / 9;
    if p < 9 { p } else { 9 }
}

/// Map speed 1..=10 to an SVT-AV1 preset 0..=9.
pub fn speed_to_svt_preset(speed: u8) -> (r: u8)
    ensures
        r == svt_preset_spec(speed),
{
    let clamped: u32 = if speed < 1 { 1 } else if speed > 10 { 10 } else { speed as u32 };
    let p: u32 = ((clamped - 1) * 13 + 4) / 9;
    if p < 9 { p as u8 } else { 9 }
}

/// Faster speeds never select a slower SVT preset.
pub proof fn law_svt_preset_monotone(a: u8, b: u8)
    requires
        a <= b,
    ensures
        svt_preset_spec(a) <= svt_preset_spec(b),
{
    let ca: int = if a < 1 { 1 } else if a > 10 { 10 } else { a as int };
    let cb: int = if b < 1 { 1 } else if b > 10 { 10 } else { b as int };
    assert(ca <= cb);
    assert(((ca - 1) * 13 + 4) / 9 <= ((cb - 1) * 13 + 4) / 9) by (nonlinear_arith)
        requires 1 <= ca <= cb;
}

/// Every speed maps into the preset range 0..=9, speed 1 is the slowest
/// preset and speeds 7..=10 are all preset 9.
pub proof fn law_svt_preset_range(speed: u8)
    ensures
        0 <= svt_preset_spec(speed) <= 9,
        speed <= 1 ==> svt_preset_spec(speed) == 0,
        speed >= 7 ==> svt_preset_spec(speed) == 9,
{
}

/// Why the SVT seam cannot encode an image of these dimensions, if it cannot.
pub fn svt_rs_dims_error(width: usize, height: usize, speed: u8, mono_plane: bool) -> (r: Option<&'static str>)
    ensures
        r is Some <==> (width == 0 || height == 0),
{
    if width == 0 || height == 0 {
        Some("cannot encode an empty image")
    } else {
        None
    }
}

/// Why the SVT seam cannot code this bit depth, if it cannot (8 and 10 only).
pub fn svt_rs_depth_error(bit_depth: u8, speed: u8, mono_plane: bool) -> (r: Option<&'static str>)
    ensures
        r is Some <==> !(bit_depth == 8 || bit_depth == 10),
{
    if !(bit_depth == 8 || bit_depth == 10) {
        Some(
            "Av1Backend::Zenav1Svt codes 8- and 10-bit only; zenav1-svt has no 12-bit \
             encode. Only Av1Backend::Zenav1Aom codes EncodeBitDepth::Twelve",
        )
    } else {
        None
    }
}

/// Exact 8 to 10 bit sample scaling: `round(v * 1023 / 255)`.
pub fn widen_8_to_10(v: u8) -> (r: u16)
    ensures
        r == (v * 1023 + 127) / 255,
        r <= 1023,
{
    (((v as u32) * 1023 + 127) / 255) as u16
}

/// Widening is rounding to nearest: the result is within half a step of
/// `v * 1023 / 255`, and the endpoints are preserved.
pub proof fn law_widen_8_to_10_rounds(v: u8)
    ensures
        -127 <= ((v * 1023 + 127) / 255) * 255 - v * 1023 <= 127,
        v == 0 ==> (v * 1023 + 127) / 255 == 0,
        v == 255 ==> (v * 1023 + 127) / 255 == 1023,
{
    let x: int = v * 1023 + 127;
    assert(x / 255 * 255 <= x < x / 255 * 255 + 255) by (nonlinear_arith)
        requires x >= 0;
}

/// Widening preserves order.
pub proof fn law_widen_8_to_10_monotone(a: u8, b: u8)
    requires
        a <= b,
    ensures
        (a * 1023 + 127) / 255 <= (b * 1023 + 127) / 255,
{
    assert((a * 1023 + 127) / 255 <= (b * 1023 + 127) / 255) by (nonlinear_arith)
        requires 0 <= a <= b;
}

/// Map speed 1..=10 to aomenc `--cpu-used` 0..=9, one to one.
pub fn speed_to_cpu_used(speed: u8) -> (r: i32)
    ensures
        r == (if speed < 1 { 1int } else if speed > 10 { 10int } else { speed as int }) - 1,
{
    let c: i32 = if speed < 1 { 1 } else if speed > 10 { 10 } else { speed as i32 };
    c - 1
}

/// Why the libaom seam cannot code this bit depth, if it cannot (8, 10 and 12 code).
pub fn aom_depth_error(bit_depth: u8, monochrome: bool) -> (r: Option<&'static str>)
    ensures
        r is Some <==> !(bit_depth == 8 || bit_depth == 10 || bit_depth == 12),
{
    if !(bit_depth == 8 || bit_depth == 10 || bit_depth == 12) {
        Some(
            "Av1Backend::Zenav1Aom codes 8, 10 or 12 bits (aom_encode::key_frame gates \
             exactly those three); use EncodeBitDepth::Eight, ::Ten or ::Twelve",
        )
    } else {
        None
    }
}

/// The depth the libaom seam codes at, or the reason it refuses.
pub fn resolve_aom_depth(config: &EncodeSettings, input_is_16bit: bool, monochrome: bool) -> (r: Result<u8, &'static str>)
    ensures
        r == Ok::<u8, &'static str>(bit_depth_spec(config.bit_depth, input_is_16bit)),
{
    let bit_depth = crate::plan::resolve_bit_depth(config.bit_depth, input_is_16bit);
    match aom_depth_error(bit_depth, monochrome) {
        None => Ok(bit_depth),
        Some(reason) => Err(reason),
    }
}

/// Whether the identity (GBR) matrix is used: the RGB color model.
pub open spec fn wants_identity(c: EncodeSettings) -> bool {
    c.color_model == EncodeColorModel::Rgb
}

/// Whether full pixel range is signalled: always for identity, otherwise
/// only when full range is explicitly requested.
pub open spec fn wants_full_range(c: EncodeSettings) -> bool {
    wants_identity(c) || c.pixel_range == Some(EncodePixelRange::Full)
}

/// The CICP matrix the libaom backend signals in the container: 2 for
/// monochrome, 0 for identity, 6 (BT.601) otherwise.
pub fn coded_matrix_coefficients(config: &EncodeSettings, monochrome: bool) -> (r: u8)
    ensures
        r == (if monochrome { 2u8 } else if wants_identity(*config) { 0u8 } else { 6u8 }),
{
    if monochrome {
        2
    } else if config.color_model == EncodeColorModel::Rgb {
        0
    } else {
        6
    }
}

/// Why the libaom seam refuses these settings, if it does.
pub open spec fn aom_refusal(c: EncodeSettings) -> Option<AomRefusal> {
    if c.color_model != EncodeColorModel::YCbCr && c.chroma_subsampling != EncodeChromaSubsampling::Yuv444 {
        Some(AomRefusal::IdentityNeeds444)
    } else if c.has_gain_map {
        Some(AomRefusal::GainMap)
    } else if c.lossless && c.chroma_subsampling != EncodeChromaSubsampling::Yuv444 {
        Some(AomRefusal::LosslessNeeds444)
    } else if c.lossless && c.color_model != EncodeColorModel::Rgb {
        Some(AomRefusal::LosslessNeedsRgb)
    } else if c.lossless && c.pixel_range == Some(EncodePixelRange::Limited) {
        Some(AomRefusal::LosslessNeedsFullRange)
    } else {
        None
    }
}

/// The configurations the libaom seam refuses by name.
#[derive(Debug, Clone, Copy, PartialEq, Eq, Structural)]
pub enum AomRefusal {
    IdentityNeeds444,
    GainMap,
    LosslessNeeds444,
    LosslessNeedsRgb,
    LosslessNeedsFullRange,
}

impl AomRefusal {
    /// The text reported for each refusal.
    pub open spec fn text(self) -> Seq<char> {
        match self {
            AomRefusal::IdentityNeeds444 => "Av1Backend::Zenav1Aom: the RGB (identity) colour model requires \
                 4:4:4 — subsampling G/B/R planes is not defined in AV1. \
                 Use .chroma_subsampling(EncodeChromaSubsampling::Yuv444)"@,
            AomRefusal::GainMap => "Av1Backend::Zenav1Aom does not support gain maps \
             (use the zenravif backend)"@,
            AomRefusal::LosslessNeeds444 => "Av1Backend::Zenav1Aom: lossless requires 4:4:4 — 4:2:0 discards \
                 three quarters of the chroma before the encoder sees it. \
                 Use .chroma_subsampling(EncodeChromaSubsampling::Yuv444)"@,
            AomRefusal::LosslessNeedsRgb => "Av1Backend::Zenav1Aom: mathematically lossless requires the RGB \
                 (identity/GBR) colour model — a YCbCr matrix round trip is not \
                 exactly invertible in integer samples. \
                 Use .color_model(EncodeColorModel::Rgb)"@,
            AomRefusal::LosslessNeedsFullRange => "Av1Backend::Zenav1Aom: lossless requires full pixel range — the \
                 studio swing (16..235) cannot represent every input code point. \
                 Use .pixel_range(EncodePixelRange::Full)"@,
        }
    }

    /// The message reported for the refusal.
    pub fn message(&self) -> (r: &'static str)
        ensures
            r@ == self.text(),
    {
        match self {
            AomRefusal::IdentityNeeds444 => "Av1Backend::Zenav1Aom: the RGB (identity) colour model requires \
                 4:4:4 — subsampling G/B/R planes is not defined in AV1. \
                 Use .chroma_subsampling(EncodeChromaSubsampling::Yuv444)",
            AomRefusal::GainMap => "Av1Backend::Zenav1Aom does not support gain maps \
             (use the zenravif backend)",
            AomRefusal::LosslessNeeds444 => "Av1Backend::Zenav1Aom: lossless requires 4:4:4 — 4:2:0 discards \
                 three quarters of the chroma before the encoder sees it. \
                 Use .chroma_subsampling(EncodeChromaSubsampling::Yuv444)",
            AomRefusal::LosslessNeedsRgb => "Av1Backend::Zenav1Aom: mathematically lossless requires the RGB \
                 (identity/GBR) colour model — a YCbCr matrix round trip is not \
                 exactly invertible in integer samples. \
                 Use .color_model(EncodeColorModel::Rgb)",
            AomRefusal::LosslessNeedsFullRange => "Av1Backend::Zenav1Aom: lossless requires full pixel range — the \
                 studio swing (16..235) cannot represent every input code point. \
                 Use .pixel_range(EncodePixelRange::Full)",
        }
    }
}

/// Check the configuration slice the libaom seam implements.
pub fn aom_reject_unsupported_config(config: &EncodeSettings) -> (r: Result<(), AomRefusal>)
    ensures
        match aom_refusal(*config) {
            None => r is Ok,
            Some(why) => r == Err::<(), AomRefusal>(why),
        },
{
    if config.color_model != EncodeColorModel::YCbCr {
        if config.chroma_subsampling != EncodeChromaSubsampling::Yuv444 {
            return Err(AomRefusal::IdentityNeeds444);
        }
    }
    if config.has_gain_map {
        return Err(AomRefusal::GainMap);
    }
    if config.lossless {
        if config.chroma_subsampling != EncodeChromaSubsampling::Yuv444 {
            return Err(AomRefusal::LosslessNeeds444);
        }
        if config.color_model != EncodeColorModel::Rgb {
            return Err(AomRefusal::LosslessNeedsRgb);
        }
        if config.pixel_range == Some(EncodePixelRange::Limited) {
            return Err(AomRefusal::LosslessNeedsFullRange);
        }
    }
    Ok(())
}

/// Every lossless configuration the libaom seam accepts is image-lossless
/// end to end: 4:4:4, identity (GBR) planes, full range.
pub proof fn law_aom_lossless_accepts_only_exact_paths(c: EncodeSettings)
    requires
        c.lossless,
        aom_refusal(c) is None,
    ensures
        c.chroma_subsampling == EncodeChromaSubsampling::Yuv444,
        wants_identity(c),
        wants_full_range(c),
{
}

/// The libaom key-frame parameters derived from settings.
#[derive(Debug, Clone, Copy, PartialEq, Eq)]
pub struct AomKeyFrameParams {
    pub width: usize,
    pub height: usize,
    pub bit_depth: u8,
    pub monochrome: bool,
    pub ss_x: u8,
    pub ss_y: u8,
    pub cq_level: i32,
    pub cpu_used: i32,
    pub usage: u32,
    pub enable_cdef: bool,
    pub enable_restoration: bool,
    pub full_range: bool,
    /// Sequence-header matrix: 0 (identity) or 2 (unspecified).
    pub matrix_coefficients: u8,
}

/// Build the key-frame parameters for one still. `cq_level` is what the
/// configured quality maps to; lossless overrides it with 0.
pub fn key_frame_params(
    config: &EncodeSettings,
    width: usize,
    height: usize,
    bit_depth: u8,
    monochrome: bool,
    cq_level: i32,
) -> (r: AomKeyFrameParams)
    ensures
        r.width == width && r.height == height && r.bit_depth == bit_depth,
        r.monochrome == monochrome,
        (r.ss_x, r.ss_y) == (if monochrome { (1u8, 1u8) } else if config.chroma_subsampling
            == EncodeChromaSubsampling::Yuv444 { (0u8, 0u8) } else { (1u8, 1u8) }),
        r.cq_level == (if config.lossless { 0 } else { cq_level }),
        r.cpu_used == (if config.speed < 1 { 1int } else if config.speed > 10 { 10int } else { config.speed as int }) - 1,
        r.usage == 2,
        !r.enable_cdef && r.enable_restoration,
        r.full_range == wants_full_range(*config),
        r.matrix_coefficients == (if wants_identity(*config) { 0u8 } else { 2u8 }),
{
    let (ss_x, ss_y): (u8, u8) = if monochrome {
        (1, 1)
    } else {
        match config.chroma_subsampling {
            EncodeChromaSubsampling::Yuv444 => (0, 0),
            EncodeChromaSubsampling::Yuv420 => (1, 1),
        }
    };
    let identity = config.color_model == EncodeColorModel::Rgb;
    let full_range = identity || config.pixel_range == Some(EncodePixelRange::Full);
    AomKeyFrameParams {
        width,
        height,
        bit_depth,
        monochrome,
        ss_x,
        ss_y,
        cq_level: if config.lossless { 0 } else { cq_level },
        cpu_used: speed_to_cpu_used(config.speed),
        usage: 2,
        enable_cdef: false,
        enable_restoration: true,
        full_range,
        matrix_coefficients: if identity { 0 } else { 2 },
    }
}

/// Why the SVT seam refuses these settings, if it does.
pub open spec fn svt_refusal(c: EncodeSettings) -> Option<SvtRefusal> {
    if c.chroma_subsampling != EncodeChromaSubsampling::Yuv420 {
        Some(SvtRefusal::Needs420)
    } else if c.color_model != EncodeColorModel::YCbCr {
        Some(SvtRefusal::NeedsYCbCr)
    } else if c.pixel_range == Some(EncodePixelRange::Limited) {
        Some(SvtRefusal::NeedsFullRange)
    } else if c.has_gain_map {
        Some(SvtRefusal::GainMap)
    } else if c.lossless {
        Some(SvtRefusal::Lossless)
    } else {
        None
    }
}

/// The configurations the SVT seam refuses by name.
#[derive(Debug, Clone, Copy, PartialEq, Eq, Structural)]
pub enum SvtRefusal {
    Needs420,
    NeedsYCbCr,
    NeedsFullRange,
    GainMap,
    Lossless,
}

impl SvtRefusal {
    /// The text reported for each refusal.
    pub open spec fn text(self) -> Seq<char> {
        match self {
            SvtRefusal::Needs420 => "Av1Backend::Zenav1Svt encodes 4:2:0 only: set \
             .chroma_subsampling(EncodeChromaSubsampling::Yuv420) \
             (the 4:4:4 default is zenravif-only for now)"@,
            SvtRefusal::NeedsYCbCr => "Av1Backend::Zenav1Svt supports the YCbCr color model only \
             (identity/RGB has no defined 4:2:0 subsampling)"@,
            SvtRefusal::NeedsFullRange => "Av1Backend::Zenav1Svt signals full pixel range only \
             (the zenav1-svt sequence header pins color_range=1)"@,
            SvtRefusal::GainMap => "Av1Backend::Zenav1Svt does not support gain maps yet \
             (use the zenravif backend)"@,
            SvtRefusal::Lossless => "Av1Backend::Zenav1Svt does not expose image-lossless encoding; \
             use the zenravif backend for lossless"@,
        }
    }

    /// The message reported for the refusal.
    pub fn message(&self) -> (r: &'static str)
        ensures
            r@ == self.text(),
    {
        match self {
            SvtRefusal::Needs420 => "Av1Backend::Zenav1Svt encodes 4:2:0 only: set \
             .chroma_subsampling(EncodeChromaSubsampling::Yuv420) \
             (the 4:4:4 default is zenravif-only for now)",
            SvtRefusal::NeedsYCbCr => "Av1Backend::Zenav1Svt supports the YCbCr color model only \
             (identity/RGB has no defined 4:2:0 subsampling)",
            SvtRefusal::NeedsFullRange => "Av1Backend::Zenav1Svt signals full pixel range only \
             (the zenav1-svt sequence header pins color_range=1)",
            SvtRefusal::GainMap => "Av1Backend::Zenav1Svt does not support gain maps yet \
             (use the zenravif backend)",
            SvtRefusal::Lossless => "Av1Backend::Zenav1Svt does not expose image-lossless encoding; \
             use the zenravif backend for lossless",
        }
    }
}

/// Check the configuration slice the SVT seam implements.
pub fn svt_reject_unsupported_config(config: &EncodeSettings) -> (r: Result<(), SvtRefusal>)
    ensures
        match svt_refusal(*config) {
            None => r is Ok,
            Some(why) => r == Err::<(), SvtRefusal>(why),
        },
{
    if config.chroma_subsampling != EncodeChromaSubsampling::Yuv420 {
        return Err(SvtRefusal::Needs420);
    }
    if config.color_model != EncodeColorModel::YCbCr {
        return Err(SvtRefusal::NeedsYCbCr);
    }
    if config.pixel_range == Some(EncodePixelRange::Limited) {
        return Err(SvtRefusal::NeedsFullRange);
    }
    if config.has_gain_map {
        return Err(SvtRefusal::GainMap);
    }
    if config.lossless {
        return Err(SvtRefusal::Lossless);
    }
    Ok(())
}

/// The SVT preset, quantizer and alpha quantizer a configuration encodes
/// with: an explicit route preset wins over the speed mapping (applied to
/// the effective speed). `qp` and `alpha_qp` are what the configured color
/// and alpha qualities map to.
pub fn svt_resolved_identity(route_preset: Option<i8>, config: &EncodeSettings, qp: u8, alpha_qp: u8) -> (r: (i8, u8, u8))
    ensures
        r.0 == (match route_preset {
            Some(p) => p as int,
            None => svt_preset_spec(speed_effective_spec(*config)),
        }),
        r.1 == qp,
        r.2 == alpha_qp,
{
    let preset: i8 = match route_preset {
        Some(p) => p,
        None => speed_to_svt_preset(config.speed_effective()) as i8,
    };
    (preset, qp, alpha_qp)
}

} // verus!
