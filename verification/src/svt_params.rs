//! SVT-AV1 still-image encoder knobs.
//!
//! The RD AC bias is a floating-point knob; it is held here as its IEEE-754
//! bit pattern so that the knob logic (defaults, deviation counting,
//! validation) can be stated exactly over integers.

use vstd::prelude::*;

verus! {

/// Bit pattern of `+0.0`.
pub const AC_BIAS_ZERO_BITS: u64 = 0;
/// Bit pattern of `-0.0`.
pub const AC_BIAS_NEG_ZERO_BITS: u64 = 0x8000_0000_0000_0000;
/// Bit pattern of `8.0`, the largest accepted AC bias.
pub const AC_BIAS_MAX_BITS: u64 = 0x4020_0000_0000_0000;

/// Still-image encoder knobs for the SVT backend.
#[derive(Clone, Copy, Debug, PartialEq, Eq)]
pub struct SvtParams {
    /// 0 = VQ, 1 = PSNR (default), 2 = SSIM, 3 = IQ, 4 = MS-SSIM.
    pub tune: u8,
    pub enable_variance_boost: bool,
    /// 1..=4.
    pub variance_boost_strength: u8,
    /// 1..=8.
    pub variance_octile: u8,
    pub enable_qm: bool,
    /// 0..=15.
    pub min_qm_level: u8,
    /// 0..=15.
    pub max_qm_level: u8,
    /// 0..=7 at use.
    pub sharpness: i8,
    /// `None` derives screen-content mode from the preset.
    pub force_screen_content_mode: Option<u8>,
    /// IEEE-754 bits of the RD AC bias (0.0..=8.0).
    pub ac_bias_bits: u64,
    /// 32 or 64.
    pub max_tx_size: u8,
    pub tile_cols_log2: u8,
    pub tile_rows_log2: u8,
}

/// The mainline defaults.
pub open spec fn default_params() -> SvtParams {
    SvtParams {
        tune: 1,
        enable_variance_boost: false,
        variance_boost_strength: 2,
        variance_octile: 5,
        enable_qm: false,
        min_qm_level: 8,
        max_qm_level: 15,
        sharpness: 0,
        force_screen_content_mode: None,
        ac_bias_bits: 0,
        max_tx_size: 64,
        tile_cols_log2: 0,
        tile_rows_log2: 0,
    }
}

/// The AC bias compares equal to `0.0` exactly when it is `+0.0` or `-0.0`.
pub open spec fn ac_bias_is_zero(bits: u64) -> bool {
    bits == 0 || bits == 0x8000_0000_0000_0000u64
}

/// The AC bias is a finite value in `0.0..=8.0` (`-0.0` included): for
/// non-negative IEEE-754 doubles the bit pattern orders like the value.
pub open spec fn ac_bias_in_range(bits: u64) -> bool {
    bits <= 0x4020_0000_0000_0000u64 || bits == 0x8000_0000_0000_0000u64
}

/// `p` asks for exactly the defaults.
pub open spec fn is_default_spec(p: SvtParams) -> bool {
    let d = default_params();
    &&& p.tune == d.tune
    &&& p.enable_variance_boost == d.enable_variance_boost
    &&& p.variance_boost_strength == d.variance_boost_strength
    &&& p.variance_octile == d.variance_octile
    &&& p.enable_qm == d.enable_qm
    &&& p.min_qm_level == d.min_qm_level
    &&& p.max_qm_level == d.max_qm_level
    &&& p.sharpness == d.sharpness
    &&& p.force_screen_content_mode == d.force_screen_content_mode
    &&& ac_bias_is_zero(p.ac_bias_bits)
    &&& p.max_tx_size == d.max_tx_size
    &&& p.tile_cols_log2 == d.tile_cols_log2
    &&& p.tile_rows_log2 == d.tile_rows_log2
}

/// 1 when `b` holds, else 0.
pub open spec fn ind(b: bool) -> int {
    if b { 1 } else { 0 }
}

/// Deviating knobs, counting the variance-boost trio, the QM triple and
/// the tile pair as one knob each.
pub open spec fn deviations_spec(p: SvtParams) -> int {
    let d = default_params();
    ind(p.tune != d.tune)
        + ind(p.enable_variance_boost != d.enable_variance_boost
            || p.variance_boost_strength != d.variance_boost_strength
            || p.variance_octile != d.variance_octile)
        + ind(p.enable_qm != d.enable_qm || p.min_qm_level != d.min_qm_level
            || p.max_qm_level != d.max_qm_level)
        + ind(p.sharpness != d.sharpness)
        + ind(p.force_screen_content_mode != d.force_screen_content_mode)
        + ind(!ac_bias_is_zero(p.ac_bias_bits))
        + ind(p.max_tx_size != d.max_tx_size)
        + ind(p.tile_cols_log2 != d.tile_cols_log2 || p.tile_rows_log2 != d.tile_rows_log2)
}

/// The knobs clamped into the ranges the encoder guards only in debug builds.
pub open spec fn clamped_spec(p: SvtParams) -> SvtParams {
    SvtParams {
        variance_boost_strength: if p.variance_boost_strength < 1 { 1 } else if p.variance_boost_strength > 4 { 4 } else { p.variance_boost_strength },
        variance_octile: if p.variance_octile < 1 { 1 } else if p.variance_octile > 8 { 8 } else { p.variance_octile },
        min_qm_level: if p.min_qm_level > 15 { 15 } else { p.min_qm_level },
        max_qm_level: if p.max_qm_level > 15 { 15 } else { p.max_qm_level },
        max_tx_size: if p.max_tx_size == 32 { 32 } else { 64 },
        sharpness: if p.sharpness < 0 { 0 } else if p.sharpness > 7 { 7 } else { p.sharpness },
        ..p
    }
}

/// The configuration the encoder runs: clamped, then the IQ / MS-SSIM tune
/// overrides for the given quantizer.
pub open spec fn resolved_spec(p: SvtParams, qp: u8) -> SvtParams {
    let r = clamped_spec(p);
    let r2 = if r.tune == 3 || r.tune == 4 {
        SvtParams {
            enable_qm: true,
            min_qm_level: 4,
            max_qm_level: 10,
            sharpness: 7,
            enable_variance_boost: true,
            variance_boost_strength: 3,
            ..r
        }
    } else {
        r
    };
    if r2.tune == 3 {
        SvtParams {
            max_tx_size: if qp <= 45 { 32 } else { 64 },
            force_screen_content_mode: Some(3u8),
            ..r2
        }
    } else {
        r2
    }
}

impl SvtParams {
    /// The mainline defaults.
    pub fn new() -> (r: Self)
        ensures
            r == default_params(),
    {
        SvtParams {
            tune: 1,
            enable_variance_boost: false,
            variance_boost_strength: 2,
            variance_octile: 5,
            enable_qm: false,
            min_qm_level: 8,
            max_qm_level: 15,
            sharpness: 0,
            force_screen_content_mode: None,
            ac_bias_bits: 0,
            max_tx_size: 64,
            tile_cols_log2: 0,
            tile_rows_log2: 0,
        }
    }

    /// `true` when every knob is at its default.
    pub fn is_default(&self) -> (r: bool)
        ensures
            r == is_default_spec(*self),
    {
        let scm_default = match self.force_screen_content_mode {
            None => true,
            Some(_) => false,
        };
        self.tune == 1 && !self.enable_variance_boost && self.variance_boost_strength == 2
            && self.variance_octile == 5 && !self.enable_qm && self.min_qm_level == 8
            && self.max_qm_level == 15 && self.sharpness == 0 && scm_default
            && (self.ac_bias_bits == 0 || self.ac_bias_bits == 0x8000_0000_0000_0000u64)
            && self.max_tx_size == 64 && self.tile_cols_log2 == 0 && self.tile_rows_log2 == 0
    }

    /// How many knobs deviate from the default (compound knobs count once).
    pub fn deviations(&self) -> (r: u8)
        ensures
            r == deviations_spec(*self),
    {
        let scm_dev: u8 = match self.force_screen_content_mode {
            None => 0,
            Some(_) => 1,
        };
        let a: u8 = if self.tune != 1 { 1 } else { 0 };
        let b: u8 = if self.enable_variance_boost || self.variance_boost_strength != 2
            || self.variance_octile != 5 { 1 } else { 0 };
        let c: u8 = if self.enable_qm || self.min_qm_level != 8 || self.max_qm_level != 15 { 1 } else { 0 };
        let d: u8 = if self.sharpness != 0 { 1 } else { 0 };
        let f: u8 = if !(self.ac_bias_bits == 0 || self.ac_bias_bits == 0x8000_0000_0000_0000u64) { 1 } else { 0 };
        let g: u8 = if self.max_tx_size != 64 { 1 } else { 0 };
        let h: u8 = if self.tile_cols_log2 != 0 || self.tile_rows_log2 != 0 { 1 } else { 0 };
        a + b + c + d + scm_dev + f + g + h
    }

    /// Clamp the knobs the encoder guards only in debug builds.
    pub fn clamped(self) -> (r: Self)
        ensures
            r == clamped_spec(self),
    {
        let mut s = self;
        s.variance_boost_strength = if s.variance_boost_strength < 1 { 1 } else if s.variance_boost_strength > 4 { 4 } else { s.variance_boost_strength };
        s.variance_octile = if s.variance_octile < 1 { 1 } else if s.variance_octile > 8 { 8 } else { s.variance_octile };
        s.min_qm_level = if s.min_qm_level > 15 { 15 } else { s.min_qm_level };
        s.max_qm_level = if s.max_qm_level > 15 { 15 } else { s.max_qm_level };
        s.max_tx_size = if s.max_tx_size == 32 { 32 } else { 64 };
        s.sharpness = if s.sharpness < 0 { 0 } else if s.sharpness > 7 { 7 } else { s.sharpness };
        s
    }

    /// The configuration the encoder will run for quantizer `qp`.
    pub fn resolved(self, qp: u8) -> (r: Self)
        ensures
            r == resolved_spec(self, qp),
    {
        let mut r = self.clamped();
        if r.tune == 3 || r.tune == 4 {
            r.enable_qm = true;
            r.min_qm_level = 4;
            r.max_qm_level = 10;
            r.sharpness = 7;
            r.enable_variance_boost = true;
            r.variance_boost_strength = 3;
        }
        if r.tune == 3 {
            r.max_tx_size = if qp <= 45 { 32 } else { 64 };
            r.force_screen_content_mode = Some(3);
        }
        r
    }

    /// Validate the knobs the adapter checks before encoding.
    pub fn validate_controls(&self) -> (r: Result<(), &'static str>)
        ensures
            r is Ok <==> (self.tune <= 5 && ac_bias_in_range(self.ac_bias_bits)
                && match self.force_screen_content_mode { Some(m) => m <= 3, None => true }),
    {
        if self.tune > 5 {
            return Err("SVT adapter tune must be 0..=5; its legacy slot 5 means film grain, not C VMAF");
        }
        if !(self.ac_bias_bits <= AC_BIAS_MAX_BITS || self.ac_bias_bits == AC_BIAS_NEG_ZERO_BITS) {
            return Err("SVT AC bias must be finite and in 0..=8");
        }
        match self.force_screen_content_mode {
            Some(m) => if m > 3 {
                return Err("SVT screen-content mode must be 0..=3");
            },
            None => {},
        }
        Ok(())
    }
}

/// The defaults deviate nowhere and are recognised as default.
pub proof fn law_default_is_default()
    ensures
        is_default_spec(default_params()),
        deviations_spec(default_params()) == 0,
{
}

/// A configuration is default exactly when no knob deviates.
pub proof fn law_default_iff_no_deviation(p: SvtParams)
    ensures
        is_default_spec(p) <==> deviations_spec(p) == 0,
{
}

/// Clamping is idempotent.
pub proof fn law_clamped_idempotent(p: SvtParams)
    ensures
        clamped_spec(clamped_spec(p)) == clamped_spec(p),
{
}

/// Resolving is idempotent: the tune overrides land inside the clamped
/// ranges, so resolving a resolved configuration changes nothing.
pub proof fn law_resolved_idempotent(p: SvtParams, qp: u8)
    ensures
        resolved_spec(resolved_spec(p, qp), qp) == resolved_spec(p, qp),
{
}

/// Tunes other than IQ and MS-SSIM resolve to the clamped knobs unchanged.
pub proof fn law_resolved_plain_tunes_only_clamp(p: SvtParams, qp: u8)
    requires
        p.tune != 3 && p.tune != 4,
    ensures
        resolved_spec(p, qp) == clamped_spec(p),
{
}

/// Tune IQ selects 32-point maximum transforms exactly at quantizers up to 45.
pub proof fn law_resolved_iq_tx_by_qp(p: SvtParams, qp: u8)
    requires
        p.tune == 3,
    ensures
        resolved_spec(p, qp).max_tx_size == (if qp <= 45 { 32u8 } else { 64u8 }),
        resolved_spec(p, qp).force_screen_content_mode == Some(3u8),
{
}

} // verus!
