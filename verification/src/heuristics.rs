//! Resource-model integer logic: which measured memory arm an encode runs
//! on, how many threads usefully work, and fitting the encoder thread count
//! to a memory budget.

use vstd::prelude::*;
use crate::settings::{Av1Backend, EncodeChromaSubsampling, EncodeSettings};

verus! {

/// The measured (backend x subsampling) arms of the encode memory model.
#[derive(Debug, Clone, Copy, PartialEq, Eq, Structural)]
pub enum EstimateArm {
    /// rav1e-derived backend at 4:4:4 (the calibration arm, default).
    Zenravif444,
    /// rav1e-derived backend at 4:2:0.
    Zenravif420,
    /// The pure-Rust SVT-AV1 encoder, which is 4:2:0 only.
    Zenav1Svt420,
}

impl EstimateArm {
    /// The default arm.
    pub fn default_arm() -> (r: Self)
        ensures
            r == EstimateArm::Zenravif444,
    {
        EstimateArm::Zenravif444
    }

    /// Pick the arm that encoder settings will actually encode on.
    pub fn for_config(config: &EncodeSettings) -> (r: Self)
        ensures
            config.backend == Av1Backend::Zenav1Svt ==> r == EstimateArm::Zenav1Svt420,
            config.backend != Av1Backend::Zenav1Svt ==> r == (match config.chroma_subsampling {
                EncodeChromaSubsampling::Yuv444 => EstimateArm::Zenravif444,
                EncodeChromaSubsampling::Yuv420 => EstimateArm::Zenravif420,
            }),
    {
        if config.backend == Av1Backend::Zenav1Svt {
            return EstimateArm::Zenav1Svt420;
        }
        match config.chroma_subsampling {
            EncodeChromaSubsampling::Yuv444 => EstimateArm::Zenravif444,
            EncodeChromaSubsampling::Yuv420 => EstimateArm::Zenravif420,
        }
    }
}

/// How an encode or decode scales across CPU cores.
#[derive(Debug, Clone, Copy, PartialEq, Eq, Structural)]
pub struct ThreadingInfo {
    /// Whether the work uses more than one core at all.
    pub parallel: bool,
    /// Threads beyond this yield no further speedup.
    pub max_useful_threads: u32,
    /// Amdahl parallel fraction, in percent.
    pub parallel_fraction_percent: u8,
    /// Extra peak working set per added worker thread, bytes.
    pub mem_bytes_per_thread: u64,
}

/// `v` clamped into `[lo, hi]`.
pub open spec fn clamp_int(v: int, lo: int, hi: int) -> int {
    if v < lo { lo } else if v > hi { hi } else { v }
}

/// Useful encode threads: the AV1 tile bound `pixels / 65536` in `[4, 32]`.
pub open spec fn encode_tiles(pixels: u64) -> int {
    clamp_int((pixels / 65536) as int, 4, 32)
}

/// Useful decode threads: `pixels / 262144` in `[1, 8]`.
pub open spec fn decode_knee(pixels: u64) -> int {
    clamp_int((pixels / 262144) as int, 1, 8)
}

/// Threading characterisation for an AV1 encode (tile-parallel).
pub fn encode_threading_info(pixels: u64) -> (r: ThreadingInfo)
    ensures
        r.parallel,
        r.max_useful_threads == encode_tiles(pixels),
        r.parallel_fraction_percent == 93,
        r.mem_bytes_per_thread == 1_000_000,
{
    let t: u64 = pixels / 65536;
    let tiles: u32 = if t < 4 { 4 } else if t > 32 { 32 } else { t as u32 };
    ThreadingInfo {
        parallel: true,
        max_useful_threads: tiles,
        parallel_fraction_percent: 93,
        mem_bytes_per_thread: 1_000_000,
    }
}

/// Threading characterisation for an AVIF decode (conservative).
pub fn decode_threading_info(pixels: u64) -> (r: ThreadingInfo)
    ensures
        r.max_useful_threads == decode_knee(pixels),
        r.parallel == (decode_knee(pixels) > 1),
        r.parallel_fraction_percent == 50,
        r.mem_bytes_per_thread == 0,
{
    let k: u64 = pixels / 262144;
    let knee: u32 = if k < 1 { 1 } else if k > 8 { 8 } else { k as u32 };
    ThreadingInfo {
        parallel: knee > 1,
        max_useful_threads: knee,
        parallel_fraction_percent: 50,
        mem_bytes_per_thread: 0,
    }
}

/// Threads that do work with `cores` available: `min(max(cores, 1), max(max_useful, 1))`.
pub open spec fn effective_threads_spec(max_useful: u32, cores: usize) -> int {
    let c: int = if cores < 1 { 1 } else { cores as int };
    let m: int = if max_useful < 1 { 1 } else { max_useful as int };
    if c < m { c } else { m }
}

impl ThreadingInfo {
    /// Threads that actually do work given `cores` available.
    pub fn effective_threads(&self, cores: usize) -> (r: u64)
        ensures
            r == effective_threads_spec(self.max_useful_threads, cores),
    {
        let c: u64 = if cores < 1 { 1 } else { cores as u64 };
        let m: u64 = if self.max_useful_threads < 1 { 1 } else { self.max_useful_threads as u64 };
        if c < m { c } else { m }
    }
}

/// `a + b`, saturating at `u64::MAX`.
pub open spec fn sat_add(a: int, b: int) -> int {
    if a + b > u64::MAX { u64::MAX as int } else { a + b }
}

/// `a * b`, saturating at `u64::MAX`.
pub open spec fn sat_mul(a: int, b: int) -> int {
    if a * b > u64::MAX { u64::MAX as int } else { a * b }
}

/// The conservative (max-tier) peak at `n` encoder threads, given the
/// single-thread conservative peak and the image's pixel count: each
/// effective thread beyond the first adds one per-thread working set.
pub open spec fn threaded_peak_max(single_peak: u64, pixels: u64, n: int) -> int {
    let eff = effective_threads_spec(encode_tiles(pixels) as u32, n as usize);
    sat_add(single_peak as int, sat_mul(1_000_000, eff - 1))
}

/// The thread count the encoder uses absent a positive explicit request.
pub open spec fn start_threads(requested: Option<usize>, default_threads: usize) -> int {
    match requested {
        Some(n) => if n > 0 { n as int } else { default_threads as int },
        None => default_threads as int,
    }
}

/// The explicit request wins when positive; otherwise the machine default.
pub fn requested_or_default_threads(requested: Option<usize>, default_threads: usize) -> (r: usize)
    ensures
        r == start_threads(requested, default_threads),
{
    match requested {
        Some(n) => if n > 0 { n } else { default_threads },
        None => default_threads,
    }
}

/// The conservative peak at `n` threads.
pub fn threaded_peak(single_peak: u64, pixels: u64, n: usize) -> (r: u64)
    ensures
        r == threaded_peak_max(single_peak, pixels, n as int),
{
    let info = encode_threading_info(pixels);
    let eff = info.effective_threads(n);
    let m: u64 = eff - 1;
    let extra: u64 = if m <= u64::MAX / 1_000_000 { 1_000_000 * m } else { u64::MAX };
    assert(m <= u64::MAX / 1_000_000 ==> 1_000_000 * m <= u64::MAX) by (nonlinear_arith)
        requires m >= 0;
    assert(m > u64::MAX / 1_000_000 ==> 1_000_000 * m > u64::MAX) by (nonlinear_arith)
        requires m >= 0;
    if extra <= u64::MAX - single_peak { single_peak + extra } else { u64::MAX }
}

/// `n` is the fitted thread count: the largest count in `[1, start]` whose
/// conservative peak fits the budget, or 1 when none does.
pub open spec fn is_fitted_count(single_peak: u64, pixels: u64, start: int, budget: u64, n: int) -> bool {
    &&& 1 <= n <= start
    &&& (threaded_peak_max(single_peak, pixels, n) <= budget || n == 1)
    &&& forall|k: int| n < k <= start ==> threaded_peak_max(single_peak, pixels, k) > budget
}

/// How a thread reduction is reported (reductions are never silent).
#[derive(Debug, Clone, Copy, PartialEq, Eq, Structural)]
pub enum FitNote {
    /// Threads were reduced from `from` to `to`, which fits the budget.
    Reduced { from: usize, to: usize, budget: u64 },
    /// Threads were reduced to the floor of 1, and even that exceeds the budget.
    FloorStillOver { from: usize, budget: u64 },
}

/// Fit the encoder thread count to a memory budget.
///
/// `single_thread_peak_max` is the conservative single-thread peak estimate
/// for the encode (`None` when the dimensions overflow the estimate);
/// `default_threads` is the machine parallelism used when no positive
/// thread count is requested. Returns the count to pin (only when the budget
/// requires fewer threads than would otherwise run) and the note recording
/// the reduction.
pub fn fit_threads_to_budget(
    width: u32,
    height: u32,
    requested: Option<usize>,
    default_threads: usize,
    single_thread_peak_max: Option<u64>,
    budget: Option<u64>,
) -> (r: (Option<usize>, Option<FitNote>))
    requires
        default_threads >= 1,
    ensures
        budget is None ==> r == (None::<usize>, None::<FitNote>),
        single_thread_peak_max is None ==> r == (None::<usize>, None::<FitNote>),
        r.0 is None <==> r.1 is None,
        (budget is Some && single_thread_peak_max is Some) ==> {
            let p = single_thread_peak_max->0;
            let b = budget->0;
            let px = (width * height) as u64;
            let start = start_threads(requested, default_threads);
            match r.0 {
                None => is_fitted_count(p, px, start, b, start),
                Some(n) => {
                    &&& n < start
                    &&& is_fitted_count(p, px, start, b, n as int)
                    &&& r.1 == Some(if threaded_peak_max(p, px, n as int) > b {
                        FitNote::FloorStillOver { from: start as usize, budget: b }
                    } else {
                        FitNote::Reduced { from: start as usize, to: n, budget: b }
                    })
                },
            }
        },
{
    let b = match budget {
        Some(b) => b,
        None => { return (None, None); },
    };
    let p = match single_thread_peak_max {
        Some(p) => p,
        None => { return (None, None); },
    };
    assert((width as u64) * (height as u64) <= 0xffff_ffffu64 * 0xffff_ffffu64) by (nonlinear_arith)
        requires width <= 0xffff_ffffu32, height <= 0xffff_ffffu32;
    let pixels: u64 = (width as u64) * (height as u64);
    let start = requested_or_default_threads(requested, default_threads);
    let mut n: usize = start;
    loop
        invariant
            1 <= n <= start,
            start == start_threads(requested, default_threads),
            pixels == (width * height) as u64,
            forall|k: int| n < k <= start ==> threaded_peak_max(p, pixels, k) > b,
        ensures
            1 <= n <= start,
            threaded_peak_max(p, pixels, n as int) <= b || n == 1,
            forall|k: int| n < k <= start ==> threaded_peak_max(p, pixels, k) > b,
        decreases n,
    {
        let peak = threaded_peak(p, pixels, n);
        if peak <= b {
            break;
        }
        if n == 1 {
            break;
        }
        n = n - 1;
    }
    if n == start {
        return (None, None);
    }
    let over = threaded_peak(p, pixels, n) > b;
    let note = if over {
        FitNote::FloorStillOver { from: start, budget: b }
    } else {
        FitNote::Reduced { from: start, to: n, budget: b }
    };
    (Some(n), Some(note))
}

/// A larger memory budget never fits fewer encoder threads: the fitted
/// count is monotone in the budget.
pub proof fn law_fit_monotone_in_budget(
    single_peak: u64,
    pixels: u64,
    start: int,
    b1: u64,
    b2: u64,
    n1: int,
    n2: int,
)
    requires
        b1 <= b2,
        is_fitted_count(single_peak, pixels, start, b1, n1),
        is_fitted_count(single_peak, pixels, start, b2, n2),
    ensures
        n1 <= n2,
{
    if n1 > n2 {
        assert(threaded_peak_max(single_peak, pixels, n1) > b2);
    }
}

/// Each added thread never lowers the conservative peak estimate.
pub proof fn law_threaded_peak_monotone(single_peak: u64, pixels: u64, n: int, m: int)
    requires
        1 <= n <= m <= usize::MAX,
    ensures
        threaded_peak_max(single_peak, pixels, n) <= threaded_peak_max(single_peak, pixels, m),
{
    let t = encode_tiles(pixels) as u32;
    let en = effective_threads_spec(t, n as usize);
    let em = effective_threads_spec(t, m as usize);
    assert(en <= em);
    assert(sat_mul(1_000_000, en - 1) <= sat_mul(1_000_000, em - 1)) by (nonlinear_arith)
        requires 1 <= en <= em;
}

/// The fitted thread count is unique for given inputs.
pub proof fn law_fitted_count_unique(single_peak: u64, pixels: u64, start: int, budget: u64, n1: int, n2: int)
    requires
        is_fitted_count(single_peak, pixels, start, budget, n1),
        is_fitted_count(single_peak, pixels, start, budget, n2),
    ensures
        n1 == n2,
{
    law_fit_monotone_in_budget(single_peak, pixels, start, budget, budget, n1, n2);
    law_fit_monotone_in_budget(single_peak, pixels, start, budget, budget, n2, n1);
}

} // verus!
