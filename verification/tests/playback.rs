use zenavif::playback::{admit_frame_size, declared_dimensions, FrameCursor};

#[test]
fn admission_prefers_grid_then_primary_then_unknown() {
    assert_eq!(declared_dimensions(Some((800, 600)), Some((400, 300))), (800, 600));
    assert_eq!(declared_dimensions(None, Some((400, 300))), (400, 300));
    assert_eq!(declared_dimensions(None, None), (0, 0));
}

#[test]
fn frame_size_limit_zero_means_unlimited() {
    assert_eq!(admit_frame_size(0, u32::MAX, u32::MAX), Ok(()));
}

#[test]
fn frame_size_limit_refuses_only_above_the_limit() {
    assert_eq!(admit_frame_size(100, 10, 10), Ok(()));
    assert_eq!(admit_frame_size(99, 10, 10), Err((10, 10)));
    // Unknown dimensions are never refused.
    assert_eq!(admit_frame_size(1, 0, 0), Ok(()));
}

#[test]
fn frame_size_limit_saturates_the_pixel_count() {
    // The product saturates at u32::MAX, which does not exceed a u32::MAX limit.
    assert_eq!(admit_frame_size(u32::MAX, 70_000, 70_000), Ok(()));
    assert_eq!(admit_frame_size(u32::MAX - 1, 70_000, 70_000), Err((70_000, 70_000)));
}

#[test]
fn cursor_names_each_frame_once_in_order() {
    let mut c = FrameCursor::new(3);
    assert_eq!(c.remaining_frames(), 3);
    assert_eq!(c.peek(), Some(0));
    c.commit();
    assert_eq!(c.peek(), Some(1));
    c.commit();
    assert_eq!(c.frame_index(), 2);
    assert_eq!(c.remaining_frames(), 1);
    assert_eq!(c.peek(), Some(2));
    c.commit();
    assert_eq!(c.peek(), None);
    c.commit();
    assert_eq!(c.peek(), None);
    assert_eq!(c.frame_index(), 3);
    assert_eq!(c.remaining_frames(), 0);
}

#[test]
fn uncommitted_frame_is_named_again() {
    let c = FrameCursor::new(2);
    // A failed decode does not commit: the same frame is offered again.
    assert_eq!(c.peek(), Some(0));
    assert_eq!(c.peek(), Some(0));
    assert_eq!(c.remaining_frames(), 2);
}

#[test]
fn empty_animation_cursor_is_exhausted() {
    let mut c = FrameCursor::new(0);
    assert_eq!(c.peek(), None);
    c.commit();
    assert_eq!(c.remaining_frames(), 0);
}
