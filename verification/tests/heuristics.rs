use zenavif::heuristics::{
    decode_threading_info, encode_threading_info, fit_threads_to_budget,
    requested_or_default_threads, threaded_peak, EstimateArm, FitNote,
};
use zenavif::settings::{Av1Backend, EncodeChromaSubsampling, EncodeSettings};

/// Conservative single-thread peak of a 2048x2048 RGB8 speed-6 encode on
/// the default arm: fixed overhead + input + 1.8 x 37 B/px working set.
const PEAK_2048_S6: u64 = 297_690_726;
/// Same for 5000x4000 (20 MP).
const PEAK_20MP_S6: u64 = 1_397_767_168;
/// Machine parallelism used where the original asks the OS.
const MACHINE: usize = 8;

#[test]
fn fit_walks_down_to_largest_fitting_count() {
    let (w, h) = (2048u32, 2048u32);
    let px = (w as u64) * (h as u64);
    let e1 = threaded_peak(PEAK_2048_S6, px, 1);
    let e3 = threaded_peak(PEAK_2048_S6, px, 3);
    let e4 = threaded_peak(PEAK_2048_S6, px, 4);
    // Sanity: the per-thread term is strictly monotone in this range.
    assert!(e3 > e1);
    assert!(e4 > e3);
    // Budget admits exactly 3 threads: e3 fits, e4 does not.
    let budget = e3;
    let (pin, note) = fit_threads_to_budget(w, h, Some(32), MACHINE, Some(PEAK_2048_S6), Some(budget));
    assert_eq!(pin, Some(3), "expected walk-down 32 -> 3");
    let note = note.expect("reduction must be recorded, never silent");
    assert_eq!(note, FitNote::Reduced { from: 32, to: 3, budget });
}

#[test]
fn fit_floors_at_one_thread() {
    let (w, h) = (2048u32, 2048u32);
    let e1 = threaded_peak(PEAK_2048_S6, 2048 * 2048, 1);
    let (pin, note) = fit_threads_to_budget(w, h, Some(32), MACHINE, Some(PEAK_2048_S6), Some(e1));
    assert_eq!(pin, Some(1));
    assert!(note.is_some());
}

#[test]
fn fit_at_floor_still_over_budget_reports_floor() {
    let (w, h) = (2048u32, 2048u32);
    let e1 = threaded_peak(PEAK_2048_S6, 2048 * 2048, 1);
    let (pin, note) = fit_threads_to_budget(w, h, Some(32), MACHINE, Some(PEAK_2048_S6), Some(e1 - 1));
    assert_eq!(pin, Some(1));
    assert_eq!(note, Some(FitNote::FloorStillOver { from: 32, budget: e1 - 1 }), "floor-exceeded note must be explicit");
    assert!(e1 > e1 - 1);
}

#[test]
fn fit_without_budget_is_inert() {
    assert_eq!(
        fit_threads_to_budget(2048, 2048, Some(32), MACHINE, Some(PEAK_2048_S6), None),
        (None, None)
    );
}

#[test]
fn fit_no_reduction_when_request_fits() {
    let (w, h) = (2048u32, 2048u32);
    let e4 = threaded_peak(PEAK_2048_S6, 2048 * 2048, 4);
    assert_eq!(
        fit_threads_to_budget(w, h, Some(4), MACHINE, Some(PEAK_2048_S6), Some(e4)),
        (None, None)
    );
}

#[test]
fn requested_or_default_semantics() {
    assert_eq!(requested_or_default_threads(Some(7), MACHINE), 7);
    let auto = requested_or_default_threads(None, MACHINE);
    assert!(auto >= 1);
    assert_eq!(requested_or_default_threads(Some(0), MACHINE), auto);
}

#[test]
fn fit_twenty_megapixel_two_gib_example() {
    let (w, h) = (5000u32, 4000u32);
    let px = 20_000_000u64;
    let e1 = threaded_peak(PEAK_20MP_S6, px, 1);
    let e32 = threaded_peak(PEAK_20MP_S6, px, 32);
    assert_eq!(e1, 1_397_767_168);
    assert_eq!(e32, 1_428_767_168);

    let two_gib = 2u64 << 30;
    assert!(e32 < two_gib);
    assert_eq!(
        fit_threads_to_budget(w, h, Some(32), MACHINE, Some(PEAK_20MP_S6), Some(two_gib)),
        (None, None)
    );

    let (pin, note) = fit_threads_to_budget(w, h, Some(32), MACHINE, Some(PEAK_20MP_S6), Some(e1 + 5_000_000));
    assert_eq!(pin, Some(6));
    assert!(note.is_some());

    let (pin, note) = fit_threads_to_budget(w, h, Some(32), MACHINE, Some(PEAK_20MP_S6), Some(e1 - 1));
    assert_eq!(pin, Some(1));
    assert!(matches!(note, Some(FitNote::FloorStillOver { .. })));
}

#[test]
fn fit_without_estimate_is_inert() {
    assert_eq!(
        fit_threads_to_budget(u32::MAX, u32::MAX, Some(32), MACHINE, None, Some(1)),
        (None, None)
    );
}

#[test]
fn fit_uses_machine_default_when_unrequested() {
    // No request: start from the machine default (8), fit 5.
    let px = 2048u64 * 2048;
    let b = threaded_peak(PEAK_2048_S6, px, 5);
    let (pin, note) = fit_threads_to_budget(2048, 2048, None, MACHINE, Some(PEAK_2048_S6), Some(b));
    assert_eq!(pin, Some(5));
    assert_eq!(note, Some(FitNote::Reduced { from: 8, to: 5, budget: b }));
}

#[test]
fn threading_info_bounds() {
    let small = encode_threading_info(1000);
    assert_eq!(small.max_useful_threads, 4);
    assert_eq!(small.mem_bytes_per_thread, 1_000_000);
    assert_eq!(encode_threading_info(2048 * 2048).max_useful_threads, 32);
    assert_eq!(encode_threading_info(65536 * 10).max_useful_threads, 10);
    let d = decode_threading_info(100);
    assert_eq!(d.max_useful_threads, 1);
    assert!(!d.parallel);
    let d = decode_threading_info(262144 * 3);
    assert_eq!(d.max_useful_threads, 3);
    assert!(d.parallel);
    assert_eq!(decode_threading_info(u64::MAX).max_useful_threads, 8);
    assert_eq!(small.effective_threads(0), 1);
    assert_eq!(small.effective_threads(2), 2);
    assert_eq!(small.effective_threads(64), 4);
}

#[test]
fn threaded_peak_saturates() {
    assert_eq!(threaded_peak(u64::MAX - 5, 2048 * 2048, 32), u64::MAX);
    assert_eq!(threaded_peak(100, 2048 * 2048, 0), 100);
}

#[test]
fn arm_follows_backend_and_subsampling() {
    let mut c = EncodeSettings::new();
    assert_eq!(EstimateArm::for_config(&c), EstimateArm::Zenravif444);
    c.chroma_subsampling = EncodeChromaSubsampling::Yuv420;
    assert_eq!(EstimateArm::for_config(&c), EstimateArm::Zenravif420);
    c.backend = Av1Backend::Zenav1Svt;
    c.chroma_subsampling = EncodeChromaSubsampling::Yuv444;
    assert_eq!(EstimateArm::for_config(&c), EstimateArm::Zenav1Svt420);
    assert_eq!(EstimateArm::default_arm(), EstimateArm::Zenravif444);
}
