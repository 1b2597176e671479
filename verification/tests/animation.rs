use zenavif::animation::{validate_animation_frames, AnimationRefusal, AnimationTiming, FrameLayout};
use zenavif::knobs::total_duration_ms;

fn f(width: usize, height: usize, duration: u32) -> FrameLayout {
    FrameLayout { width, height, duration }
}

#[test]
fn animation_timing_of_valid_frames() {
    let frames = [f(64, 48, 30), f(64, 48, 10), f(64, 48, 20)];
    let t = validate_animation_frames(&frames).unwrap();
    assert_eq!(t, AnimationTiming { width: 64, height: 48, shortest_duration: 10, total_duration_ticks: 60 });
    // 60 ticks at 1000 ticks/s is 60 ms.
    assert_eq!(total_duration_ms(t.total_duration_ticks, 1000), Some(60));
    let one = [f(1, 1, u32::MAX)];
    let t = validate_animation_frames(&one).unwrap();
    assert_eq!(t.shortest_duration, u32::MAX);
    assert_eq!(t.total_duration_ticks, u32::MAX as u64);
}

#[test]
fn animation_refusals() {
    assert_eq!(validate_animation_frames(&[]), Err(AnimationRefusal::NoFrames));
    assert_eq!(validate_animation_frames(&[f(0, 4, 1)]), Err(AnimationRefusal::BadDimensions));
    assert_eq!(validate_animation_frames(&[f(65536, 4, 1)]), Err(AnimationRefusal::BadDimensions));
    assert_eq!(validate_animation_frames(&[f(65535, 65535, 1)]).map(|t| t.width), Ok(65535));
    assert_eq!(
        validate_animation_frames(&[f(8, 8, 1), f(8, 9, 1)]),
        Err(AnimationRefusal::InconsistentFrame)
    );
    assert_eq!(
        validate_animation_frames(&[f(8, 8, 1), f(8, 8, 0)]),
        Err(AnimationRefusal::InconsistentFrame)
    );
    assert_eq!(AnimationRefusal::NoFrames.message(), "animation needs at least one frame");
}
