//! Validation of an animation's frame list before any frame is encoded:
//! one frame size for the whole sequence, positive durations, and the
//! timing facts the muxer needs.

use vstd::prelude::*;

verus! {

/// What the encoder reads of one input frame: its size and its duration
/// in media-timescale ticks.
#[derive(Debug, Clone, Copy, PartialEq, Eq, Structural)]
pub struct FrameLayout {
    pub width: usize,
    pub height: usize,
    pub duration: u32,
}

/// Why a frame list cannot be encoded as an animation.
#[derive(Debug, Clone, Copy, PartialEq, Eq, Structural)]
pub enum AnimationRefusal {
    /// The list is empty.
    NoFrames,
    /// The first frame's size is outside `1..=65535` in either dimension.
    BadDimensions,
    /// More frames than a `u32` counts.
    TooManyFrames,
    /// A frame's size differs from the first frame's, or its duration is zero.
    InconsistentFrame,
}

impl AnimationRefusal {
    /// The text reported for each refusal.
    pub open spec fn text(self) -> Seq<char> {
        match self {
            AnimationRefusal::NoFrames => "animation needs at least one frame"@,
            AnimationRefusal::BadDimensions => "animation dimensions must be in 1..=65535"@,
            AnimationRefusal::TooManyFrames => "animation frame count exceeds u32"@,
            AnimationRefusal::InconsistentFrame => "animation frames need equal dimensions and positive durations"@,
        }
    }

    /// The message reported for the refusal.
    pub fn message(&self) -> (r: &'static str)
        ensures
            r@ == self.text(),
    {
        match self {
            AnimationRefusal::NoFrames => "animation needs at least one frame",
            AnimationRefusal::BadDimensions => "animation dimensions must be in 1..=65535",
            AnimationRefusal::TooManyFrames => "animation frame count exceeds u32",
            AnimationRefusal::InconsistentFrame => "animation frames need equal dimensions and positive durations",
        }
    }
}

/// Timing facts of a valid frame list.
#[derive(Debug, Clone, Copy, PartialEq, Eq, Structural)]
pub struct AnimationTiming {
    pub width: usize,
    pub height: usize,
    /// The shortest frame duration, in ticks (sets the nominal frame rate).
    pub shortest_duration: u32,
    /// The sum of all frame durations, in ticks.
    pub total_duration_ticks: u64,
}

/// Sum of the first `n` frame durations.
pub open spec fn duration_sum(frames: Seq<FrameLayout>, n: int) -> int
    decreases n,
{
    if n <= 0 { 0 } else { duration_sum(frames, n - 1) + frames[n - 1].duration }
}

/// Frame `i` has the first frame's size and a positive duration.
pub open spec fn frame_consistent(frames: Seq<FrameLayout>, i: int) -> bool {
    &&& frames[i].width == frames[0].width
    &&& frames[i].height == frames[0].height
    &&& frames[i].duration > 0
}

/// The refusal for a frame list, if any, checked in order.
pub open spec fn animation_refusal(frames: Seq<FrameLayout>) -> Option<AnimationRefusal> {
    if frames.len() == 0 {
        Some(AnimationRefusal::NoFrames)
    } else if frames[0].width == 0 || frames[0].height == 0 || frames[0].width > 65535 || frames[0].height > 65535 {
        Some(AnimationRefusal::BadDimensions)
    } else if frames.len() > u32::MAX {
        Some(AnimationRefusal::TooManyFrames)
    } else if exists|i: int| 0 <= i < frames.len() && !#[trigger] frame_consistent(frames, i) {
        Some(AnimationRefusal::InconsistentFrame)
    } else {
        None
    }
}

proof fn lemma_duration_sum_bound(frames: Seq<FrameLayout>, n: int)
    requires
        0 <= n <= frames.len(),
    ensures
        0 <= duration_sum(frames, n) <= n * 0xffff_ffff,
    decreases n,
{
    if n > 0 {
        lemma_duration_sum_bound(frames, n - 1);
    }
}

/// Check a frame list and compute its timing: the first frame fixes the
/// size, every frame must match it and have a positive duration.
pub fn validate_animation_frames(frames: &[FrameLayout]) -> (r: Result<AnimationTiming, AnimationRefusal>)
    ensures
        match animation_refusal(frames@) {
            Some(why) => r == Err::<AnimationTiming, AnimationRefusal>(why),
            None => r matches Ok(t) && {
                &&& t.width == frames@[0].width && t.height == frames@[0].height
                &&& t.total_duration_ticks == duration_sum(frames@, frames@.len() as int)
                &&& exists|i: int| 0 <= i < frames@.len() && t.shortest_duration == #[trigger] frames@[i].duration
                &&& forall|i: int| 0 <= i < frames@.len() ==> t.shortest_duration <= #[trigger] frames@[i].duration
            },
        },
{
    let n = frames.len();
    if n == 0 {
        return Err(AnimationRefusal::NoFrames);
    }
    let width = frames[0].width;
    let height = frames[0].height;
    if width == 0 || height == 0 || width > 65535 || height > 65535 {
        return Err(AnimationRefusal::BadDimensions);
    }
    if n > 0xffff_ffffusize {
        return Err(AnimationRefusal::TooManyFrames);
    }
    let mut shortest: u32 = u32::MAX;
    let mut total: u64 = 0;
    let mut i: usize = 0;
    while i < n
        invariant
            n == frames@.len(),
            n <= 0xffff_ffff,
            0 < n,
            i <= n,
            width == frames@[0].width && height == frames@[0].height,
            0 < width <= 65535 && 0 < height <= 65535,
            total == duration_sum(frames@, i as int),
            forall|j: int| 0 <= j < i ==> #[trigger] frame_consistent(frames@, j),
            forall|j: int| 0 <= j < i ==> shortest <= #[trigger] frames@[j].duration,
            i > 0 ==> exists|j: int| 0 <= j < i && shortest == #[trigger] frames@[j].duration,
            i == 0 ==> shortest == u32::MAX,
        decreases n - i,
    {
        let f = frames[i];
        if f.width != width || f.height != height || f.duration == 0 {
            proof {
                assert(!frame_consistent(frames@, i as int));
                assert(exists|j: int| 0 <= j < frames@.len() && !#[trigger] frame_consistent(frames@, j));
            }
            return Err(AnimationRefusal::InconsistentFrame);
        }
        assert(frame_consistent(frames@, i as int));
        proof {
            lemma_duration_sum_bound(frames@, i as int);
            assert(i * 0xffff_ffff + 0xffff_ffff <= 0xffff_ffffu64 * 0xffff_ffffu64 + 0xffff_ffffu64) by (nonlinear_arith)
                requires i < 0xffff_ffff;
        }
        total = total + f.duration as u64;
        let ghost old_shortest = shortest;
        if f.duration < shortest {
            shortest = f.duration;
        }
        proof {
            assert(f.duration == frames@[i as int].duration);
            if shortest == f.duration {
                assert(exists|j: int| 0 <= j < i + 1 && shortest == #[trigger] frames@[j].duration);
            } else {
                assert(i > 0);
                assert(old_shortest == shortest);
                let w = choose|j: int| 0 <= j < i && old_shortest == #[trigger] frames@[j].duration;
                assert(0 <= w < i + 1 && shortest == frames@[w].duration);
            }
        }
        i = i + 1;
    }
    proof {
        assert(!exists|j: int| 0 <= j < frames@.len() && !#[trigger] frame_consistent(frames@, j));
    }
    Ok(AnimationTiming { width, height, shortest_duration: shortest, total_duration_ticks: total })
}

/// A frame list is accepted only when it is non-empty, its first frame is
/// `1..=65535` in both dimensions, and every frame has exactly the first
/// frame's width and height and a positive duration; every such list of at
/// most `u32::MAX` frames is accepted.
pub proof fn law_accepted_frames_are_uniform(frames: Seq<FrameLayout>)
    ensures
        animation_refusal(frames) is None ==> {
            &&& frames.len() > 0
            &&& 0 < frames[0].width <= 65535 && 0 < frames[0].height <= 65535
            &&& forall|i: int| 0 <= i < frames.len() ==> {
                &&& #[trigger] frames[i].width == frames[0].width
                &&& frames[i].height == frames[0].height
                &&& frames[i].duration > 0
            }
        },
        (frames.len() > 0 && frames.len() <= u32::MAX
            && 0 < frames[0].width <= 65535 && 0 < frames[0].height <= 65535
            && forall|i: int| 0 <= i < frames.len() ==> {
                &&& #[trigger] frames[i].width == frames[0].width
                &&& frames[i].height == frames[0].height
                &&& frames[i].duration > 0
            }) ==> animation_refusal(frames) is None,
        forall|i: int, j: int| 0 <= i < frames.len() && 0 <= j < frames.len()
            && (#[trigger] frames[i].width != #[trigger] frames[j].width || frames[i].height != frames[j].height)
            ==> animation_refusal(frames) is Some,
{
    if animation_refusal(frames) is None {
        assert forall|i: int| 0 <= i < frames.len() implies {
            &&& #[trigger] frames[i].width == frames[0].width
            &&& frames[i].height == frames[0].height
            &&& frames[i].duration > 0
        } by {
            assert(frame_consistent(frames, i));
        }
    }
    if frames.len() > 0 && frames.len() <= u32::MAX
        && 0 < frames[0].width <= 65535 && 0 < frames[0].height <= 65535
        && forall|i: int| 0 <= i < frames.len() ==> {
            &&& #[trigger] frames[i].width == frames[0].width
            &&& frames[i].height == frames[0].height
            &&& frames[i].duration > 0
        }
    {
        assert forall|i: int| 0 <= i < frames.len() implies #[trigger] frame_consistent(frames, i) by {
            assert(frames[i].width == frames[0].width);
        }
    }
    assert forall|i: int, j: int| 0 <= i < frames.len() && 0 <= j < frames.len()
        && (#[trigger] frames[i].width != #[trigger] frames[j].width || frames[i].height != frames[j].height)
        implies animation_refusal(frames) is Some by {
        if animation_refusal(frames) is None {
            assert(frame_consistent(frames, i));
            assert(frame_consistent(frames, j));
        }
    }
}

} // verus!
