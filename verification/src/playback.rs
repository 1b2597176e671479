//! Decoder-side decisions that sit between the container parser and the
//! AV1 decoder: admitting a file under a frame-size limit before any decode
//! work, and stepping through an animation's frames exactly once, in order.

use vstd::prelude::*;

verus! {

/// The dimensions a file is admitted by: the grid canvas when the file is a
/// grid, else the primary item's largest coded frame, else unknown (`0 x 0`).
pub open spec fn declared_dimensions_spec(grid: Option<(u32, u32)>, primary: Option<(u32, u32)>) -> (u32, u32) {
    match grid {
        Some(d) => d,
        None => match primary {
            Some(d) => d,
            None => (0, 0),
        },
    }
}

/// Pick the dimensions a file is admitted by (see
/// [`declared_dimensions_spec`]).
pub fn declared_dimensions(grid: Option<(u32, u32)>, primary: Option<(u32, u32)>) -> (r: (u32, u32))
    ensures
        r == declared_dimensions_spec(grid, primary),
{
    match grid {
        Some(d) => d,
        None => match primary {
            Some(d) => d,
            None => (0, 0),
        },
    }
}

/// `width * height`, saturated at `u32::MAX`.
pub open spec fn saturated_area(width: u32, height: u32) -> int {
    if width * height > u32::MAX { u32::MAX as int } else { width * height }
}

/// Whether a frame-size limit refuses a `width x height` image: a limit of
/// zero means no limit; otherwise the saturated pixel count must not
/// exceed it.
pub open spec fn exceeds_frame_size_limit(limit: u32, width: u32, height: u32) -> bool {
    limit > 0 && saturated_area(width, height) > limit
}

/// Admit an image under a frame-size limit before any decode work. A
/// refusal carries the offending dimensions.
pub fn admit_frame_size(limit: u32, width: u32, height: u32) -> (r: Result<(), (u32, u32)>)
    ensures
        r is Err <==> exceeds_frame_size_limit(limit, width, height),
        r matches Err(d) ==> d == (width, height),
{
    if limit == 0 {
        return Ok(());
    }
    assert((width as u64) * (height as u64) <= u64::MAX) by (nonlinear_arith)
        requires width <= u32::MAX, height <= u32::MAX;
    let area: u64 = (width as u64) * (height as u64);
    let saturated: u64 = if area > 0xffff_ffffu64 { 0xffff_ffffu64 } else { area };
    if saturated > limit as u64 {
        Err((width, height))
    } else {
        Ok(())
    }
}

/// The position of an animation decode: how many frames the container
/// declares and how many have been handed out. Frames are handed out
/// exactly once each, in container order.
#[derive(Debug, Clone, Copy)]
pub struct FrameCursor {
    frame_count: usize,
    frame_index: usize,
}

impl FrameCursor {
    #[verifier::type_invariant]
    spec fn inv(self) -> bool {
        self.frame_index <= self.frame_count
    }

    /// Frames the container declares.
    pub closed spec fn count(self) -> nat {
        self.frame_count as nat
    }

    /// Frames handed out so far.
    pub closed spec fn index(self) -> nat {
        self.frame_index as nat
    }

    /// A cursor before the first frame of an animation of `frame_count` frames.
    pub fn new(frame_count: usize) -> (r: Self)
        ensures
            r.count() == frame_count,
            r.index() == 0,
    {
        FrameCursor { frame_count, frame_index: 0 }
    }

    /// Frames handed out so far (the index of the next frame).
    pub fn frame_index(&self) -> (r: usize)
        ensures
            r == self.index(),
            r <= self.count(),
    {
        proof { use_type_invariant(self); }
        self.frame_index
    }

    /// Frames not yet handed out.
    pub fn remaining_frames(&self) -> (r: usize)
        ensures
            r == self.count() - self.index(),
            r + self.index() == self.count(),
    {
        proof { use_type_invariant(self); }
        self.frame_count - self.frame_index
    }

    /// The index of the next frame to decode, or `None` once every declared
    /// frame has been decoded. The cursor does not move: it moves only when
    /// the frame's decode succeeded and is committed.
    pub fn peek(&self) -> (r: Option<usize>)
        ensures
            match next_index(self.count(), self.index()) {
                Some(i) => r == Some(i as usize),
                None => r is None,
            },
    {
        proof { use_type_invariant(self); }
        if self.frame_index >= self.frame_count {
            None
        } else {
            Some(self.frame_index)
        }
    }

    /// Record that the frame [`peek`](Self::peek) named was decoded: the
    /// cursor moves past it (and stays put once every frame is done).
    pub fn commit(&mut self)
        ensures
            final(self).count() == old(self).count(),
            final(self).index() == index_after_commit(old(self).count(), old(self).index()),
    {
        proof { use_type_invariant(&*self); }
        if self.frame_index < self.frame_count {
            self.frame_index = self.frame_index + 1;
        }
    }
}

/// The frame a peek names at position `index` of `count` frames.
pub open spec fn next_index(count: nat, index: nat) -> Option<nat> {
    if index < count { Some(index) } else { None }
}

/// The position after one commit.
pub open spec fn index_after_commit(count: nat, index: nat) -> nat {
    if index < count { index + 1 } else { index }
}

/// The position after `calls` commits from the start.
pub open spec fn index_after_calls(count: nat, calls: nat) -> nat
    decreases calls,
{
    if calls == 0 { 0 } else { index_after_commit(count, index_after_calls(count, (calls - 1) as nat)) }
}

/// After `k` successful decodes committed from the first frame, the next
/// peek names frame `k` while `k` is below the frame count and nothing after
/// that: every declared frame exactly once, in container order, and a frame
/// whose decode failed (not committed) is named again.
pub proof fn law_frames_handed_out_once_in_order(count: nat, k: nat)
    ensures
        index_after_calls(count, k) == if k < count { k } else { count },
        next_index(count, index_after_calls(count, k)) == if k < count { Some(k) } else { None::<nat> },
    decreases k,
{
    if k > 0 {
        law_frames_handed_out_once_in_order(count, (k - 1) as nat);
    }
}

} // verus!
