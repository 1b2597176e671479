//! Expert and per-image encoder knobs: fast-tier search budgets, the
//! palette-mode preference, the internal search-parameter overrides, and
//! animation metadata.

use vstd::prelude::*;
use crate::settings::SpeedOverrides;

verus! {

/// Per-image transform-search budget for the fast tier.
#[derive(Debug, Clone, Copy, PartialEq, Eq, Structural)]
pub enum TxBudget {
    /// Withhold tx-size RDO entirely.
    Largest,
    /// Depth-1 tx-size RDO, DCT-only (the default).
    Size1,
    /// Size1 plus tx-type RDO over the reduced set.
    Min,
}

/// Per-image partition-search budget for the fast tier.
#[derive(Debug, Clone, Copy, PartialEq, Eq, Structural)]
pub enum PartitionBudget {
    /// The pruned-liveness point (the default).
    Ship,
    /// Partition max 16 to 32 with 4-ways live (flat/synthetic content only).
    Max32,
}

/// The composed per-image fast-tier recommendation.
#[derive(Debug, Clone, Copy, PartialEq, Eq, Structural)]
pub struct FastTierBudgets {
    pub tx: TxBudget,
    pub partition: PartitionBudget,
}

impl FastTierBudgets {
    /// The global defaults: `Size1` and `Ship`.
    pub fn defaults() -> (r: Self)
        ensures
            r == (FastTierBudgets { tx: TxBudget::Size1, partition: PartitionBudget::Ship }),
    {
        FastTierBudgets { tx: TxBudget::Size1, partition: PartitionBudget::Ship }
    }
}

/// Palette-mode preference for the AV1 screen-content palette tool.
#[derive(Debug, Clone, Copy, PartialEq, Eq, Structural)]
pub enum PalettePreference {
    /// The encoder's own screen-content detection decides (the default).
    Auto,
    /// Arm the palette search on every keyframe.
    Always,
    /// Never search palette modes.
    Off,
}

impl PalettePreference {
    /// The default preference.
    pub fn default_value() -> (r: Self)
        ensures
            r == PalettePreference::Auto,
    {
        PalettePreference::Auto
    }
}

/// Expert overrides of the deepest search parameters (`None` keeps the
/// speed preset's value).
#[derive(Debug, Clone, Copy, PartialEq, Eq)]
pub struct InternalParams {
    /// Partition block-size search range `(min, max)` in pixels.
    pub partition_range: Option<(u8, u8)>,
    /// `Some(true)` searches all intra modes, `Some(false)` the reduced set.
    pub complex_prediction_modes: Option<bool>,
    /// Loop restoration filter on/off.
    pub lrf: Option<bool>,
    /// Fast (closed-form) vs searched deblocking.
    pub fast_deblock: Option<bool>,
}

impl InternalParams {
    /// No overrides.
    pub fn new() -> (r: Self)
        ensures
            r.partition_range is None && r.complex_prediction_modes is None,
            r.lrf is None && r.fast_deblock is None,
    {
        InternalParams { partition_range: None, complex_prediction_modes: None, lrf: None, fast_deblock: None }
    }
}

impl SpeedOverrides {
    /// Apply internal parameters: the four expert overrides are replaced
    /// wholesale (the struct is the unit of configuration), the rest kept.
    pub fn with_internal_params(self, params: InternalParams) -> (r: Self)
        ensures
            r == (SpeedOverrides {
                partition_range: params.partition_range,
                complex_prediction_modes: params.complex_prediction_modes,
                lrf: params.lrf,
                fast_deblock: params.fast_deblock,
                ..self
            }),
    {
        SpeedOverrides {
            partition_range: params.partition_range,
            complex_prediction_modes: params.complex_prediction_modes,
            lrf: params.lrf,
            fast_deblock: params.fast_deblock,
            ..self
        }
    }
}

/// Metadata about a decoded animation.
#[derive(Debug, Clone, Copy, PartialEq, Eq, Structural)]
pub struct DecodedAnimationInfo {
    /// Number of frames.
    pub frame_count: usize,
    /// Number of loops (0 = infinite).
    pub loop_count: u32,
    /// Whether the animation has alpha.
    pub has_alpha: bool,
    /// Media timescale (ticks per second) of the color track.
    pub timescale: u32,
}

/// Total animation duration in milliseconds for a duration in media ticks:
/// `ticks * 1000 / timescale`, or `None` when it does not fit 64 bits.
pub fn total_duration_ms(total_ticks: u64, timescale: u32) -> (r: Option<u64>)
    requires
        timescale > 0,
    ensures
        match r {
            Some(ms) => ms == total_ticks * 1000 / (timescale as int),
            None => total_ticks * 1000 / (timescale as int) > u64::MAX,
        },
{
    let ts: u64 = timescale as u64;
    // ticks * 1000 / ts computed without a 128-bit intermediate:
    // ticks = q * ts + rem, so ticks * 1000 / ts = q * 1000 + rem * 1000 / ts.
    let q: u64 = total_ticks / ts;
    let rem: u64 = total_ticks % ts;
    assert(rem * 1000 <= 0xffff_ffffu64 * 1000) by (nonlinear_arith) requires rem < ts, ts <= 0xffff_ffffu64;
    let tail: u64 = rem * 1000 / ts;
    proof {
        assert(total_ticks == q * ts + rem) by (nonlinear_arith) requires q == total_ticks / ts, rem == total_ticks % ts, ts > 0;
        assert(total_ticks * 1000 == (q * 1000) * ts + rem * 1000) by (nonlinear_arith) requires total_ticks == q * ts + rem;
        let b: int = (rem * 1000) as int;
        let t: int = b / (ts as int);
        let sm: int = b % (ts as int);
        assert(b == t * ts + sm && 0 <= sm < ts) by (nonlinear_arith) requires t == b / (ts as int), sm == b % (ts as int), ts > 0;
        assert(total_ticks * 1000 == (q * 1000 + t) * ts + sm) by (nonlinear_arith)
            requires total_ticks * 1000 == (q * 1000) * ts + b, b == t * ts + sm;
        vstd::arithmetic::div_mod::lemma_fundamental_div_mod_converse(total_ticks * 1000, ts as int, q * 1000 + t, sm);
    }
    if q > (u64::MAX - tail) / 1000 {
        assert(q * 1000 + tail > u64::MAX) by (nonlinear_arith) requires q > (u64::MAX - tail) / 1000, tail <= u64::MAX;
        return None;
    }
    assert(q * 1000 + tail <= u64::MAX) by (nonlinear_arith) requires q <= (u64::MAX - tail) / 1000, tail <= u64::MAX;
    Some(q * 1000 + tail)
}

} // verus!
