//! Encoder settings: the enums callers choose from and the integer/boolean
//! knobs that the planning and backend policy logic reads.

use vstd::prelude::*;

verus! {

/// Bit depth for encoding.
#[derive(Debug, Clone, Copy, PartialEq, Eq, Structural)]
pub enum EncodeBitDepth {
    /// 8 bits per channel.
    Eight,
    /// 10 bits per channel.
    Ten,
    /// Match input depth: 8-bit input gives 8-bit AV1, 16-bit input gives 10-bit AV1.
    Auto,
}

/// Internal color model for encoding.
#[derive(Debug, Clone, Copy, PartialEq, Eq, Structural)]
pub enum EncodeColorModel {
    /// YCbCr (smaller files, standard).
    YCbCr,
    /// RGB through the identity matrix (lossless-friendly).
    Rgb,
}

/// Alpha channel handling mode.
#[derive(Debug, Clone, Copy, PartialEq, Eq, Structural)]
pub enum EncodeAlphaMode {
    /// Unassociated alpha, color cleaned under transparent pixels.
    UnassociatedClean,
    /// Unassociated alpha, original color kept under transparent pixels.
    UnassociatedDirty,
    /// Premultiplied alpha.
    Premultiplied,
}

/// Pixel value range for AV1 encoding.
#[derive(Debug, Clone, Copy, PartialEq, Eq, Structural)]
pub enum EncodePixelRange {
    /// Full range (0-255 / 0-1023).
    Full,
    /// Limited / studio range (16-235 / 64-940).
    Limited,
}

/// Chroma subsampling of the encoded color image.
#[derive(Debug, Clone, Copy, PartialEq, Eq, Structural)]
pub enum EncodeChromaSubsampling {
    /// Full-resolution chroma.
    Yuv444,
    /// Quarter-resolution chroma.
    Yuv420,
}

/// AV1 encoder backend.
#[derive(Debug, Clone, Copy, PartialEq, Eq, Structural)]
pub enum Av1Backend {
    /// The rav1e-derived backend (default).
    Zenravif,
    /// The pure-Rust SVT-AV1 encoder (4:2:0 YCbCr only).
    Zenav1Svt,
    /// The libaom-derived backend.
    Zenav1Aom,
}

impl EncodeBitDepth {
    /// Default bit depth: `Auto`.
    pub fn default_value() -> (r: Self)
        ensures
            r == EncodeBitDepth::Auto,
    {
        EncodeBitDepth::Auto
    }
}

/// Mastering display metadata (SMPTE ST 2086), in `mdcv` box units.
#[derive(Debug, Clone, Copy, PartialEq, Eq)]
pub struct MasteringDisplayConfig {
    /// Display primaries `(x, y)` in 0.00002 units, wire order green, blue, red.
    pub primaries: [(u16, u16); 3],
    /// White point `(x, y)` in 0.00002 units.
    pub white_point: (u16, u16),
    /// Maximum display luminance in 0.0001 cd/m² units.
    pub max_luminance: u32,
    /// Minimum display luminance in 0.0001 cd/m² units.
    pub min_luminance: u32,
}

/// Pre-encoded gain map data for embedding in an AVIF file.
#[derive(Debug, Clone)]
pub struct GainMapConfig {
    /// Pre-encoded AV1 bitstream of the gain map image.
    pub av1_data: Vec<u8>,
    /// Width of the gain map image in pixels.
    pub width: u32,
    /// Height of the gain map image in pixels.
    pub height: u32,
    /// Bit depth of the gain map AV1 data.
    pub bit_depth: u8,
    /// ISO 21496-1 binary metadata blob.
    pub metadata: Vec<u8>,
}

/// Encoded AVIF image output.
#[derive(Debug, Clone)]
pub struct EncodedImage {
    /// The complete AVIF file bytes.
    pub avif_file: Vec<u8>,
    /// Bytes used for the color AV1 payload.
    pub color_byte_size: usize,
    /// Bytes used for the alpha AV1 payload.
    pub alpha_byte_size: usize,
}

/// Encoded animated AVIF output.
#[derive(Debug, Clone)]
pub struct EncodedAnimation {
    /// The complete AVIF file bytes.
    pub avif_file: Vec<u8>,
    /// Number of frames encoded.
    pub frame_count: usize,
    /// Total duration in milliseconds.
    pub total_duration_ms: u64,
}

/// Overrides of the speed-preset-derived search settings (`None` keeps the
/// preset's value).
#[derive(Debug, Clone, Copy, PartialEq, Eq)]
pub struct SpeedOverrides {
    pub cdef: Option<bool>,
    pub rdo_tx_decision: Option<bool>,
    pub sgr_full: Option<bool>,
    pub lru_on_skip: Option<bool>,
    pub segmentation_complex: Option<bool>,
    pub encode_bottomup: Option<bool>,
    pub partition_range: Option<(u8, u8)>,
    pub complex_prediction_modes: Option<bool>,
    pub lrf: Option<bool>,
    pub fast_deblock: Option<bool>,
}

impl SpeedOverrides {
    /// No overrides at all.
    pub fn none() -> (r: Self)
        ensures
            r.is_empty(),
    {
        SpeedOverrides {
            cdef: None,
            rdo_tx_decision: None,
            sgr_full: None,
            lru_on_skip: None,
            segmentation_complex: None,
            encode_bottomup: None,
            partition_range: None,
            complex_prediction_modes: None,
            lrf: None,
            fast_deblock: None,
        }
    }

    /// Every override is unset.
    pub open spec fn is_empty(self) -> bool {
        &&& self.cdef is None
        &&& self.rdo_tx_decision is None
        &&& self.sgr_full is None
        &&& self.lru_on_skip is None
        &&& self.segmentation_complex is None
        &&& self.encode_bottomup is None
        &&& self.partition_range is None
        &&& self.complex_prediction_modes is None
        &&& self.lrf is None
        &&& self.fast_deblock is None
    }
}

/// The integer and boolean part of an encoder configuration: everything
/// the planning and backend-policy logic reads. (Quality values are
/// floating point and are resolved to quantizers before they reach here.)
#[derive(Debug, Clone, Copy, PartialEq, Eq)]
pub struct EncodeSettings {
    pub backend: Av1Backend,
    /// Speed preset 1 (slowest) ..= 10 (fastest).
    pub speed: u8,
    pub bit_depth: EncodeBitDepth,
    pub color_model: EncodeColorModel,
    pub chroma_subsampling: EncodeChromaSubsampling,
    pub alpha_color_mode: EncodeAlphaMode,
    /// Pinned encoder thread count; `None` uses the machine's pool.
    pub threads: Option<usize>,
    pub pixel_range: Option<EncodePixelRange>,
    pub has_icc: bool,
    pub has_exif: bool,
    pub has_xmp: bool,
    pub has_gain_map: bool,
    pub enable_qm: bool,
    pub enable_vaq: bool,
    pub tune_still_image: bool,
    pub lossless: bool,
    pub trellis: Option<bool>,
    pub overrides: SpeedOverrides,
}

impl EncodeSettings {
    /// Library defaults: zenravif backend, speed 4, automatic bit depth,
    /// YCbCr 4:4:4, clean unassociated alpha, QM, variance adaptive
    /// quantization and still-image tuning on, nothing else set.
    pub fn new() -> (r: Self)
        ensures
            r.backend == Av1Backend::Zenravif,
            r.speed == 4,
            r.bit_depth == EncodeBitDepth::Auto,
            r.color_model == EncodeColorModel::YCbCr,
            r.chroma_subsampling == EncodeChromaSubsampling::Yuv444,
            r.alpha_color_mode == EncodeAlphaMode::UnassociatedClean,
            r.threads is None,
            r.pixel_range is None,
            !r.has_icc && !r.has_exif && !r.has_xmp && !r.has_gain_map,
            r.enable_qm,
            r.enable_vaq && r.tune_still_image && !r.lossless,
            r.trellis is None,
            r.overrides.is_empty(),
    {
        EncodeSettings {
            backend: Av1Backend::Zenravif,
            speed: 4,
            bit_depth: EncodeBitDepth::Auto,
            color_model: EncodeColorModel::YCbCr,
            chroma_subsampling: EncodeChromaSubsampling::Yuv444,
            alpha_color_mode: EncodeAlphaMode::UnassociatedClean,
            threads: None,
            pixel_range: None,
            has_icc: false,
            has_exif: false,
            has_xmp: false,
            has_gain_map: false,
            enable_qm: true,
            enable_vaq: true,
            tune_still_image: true,
            lossless: false,
            trellis: None,
            overrides: SpeedOverrides::none(),
        }
    }
}

} // verus!
