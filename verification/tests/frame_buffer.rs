use wasi_graphics::error::GfxError;
use wasi_graphics::frame_buffer::FrameBuffer;

#[test]
fn length_reports_element_count() {
    let fb = FrameBuffer::new(vec![1, 2, 3]);
    assert_eq!(fb.length(), Ok(3));
}

#[test]
fn bounds_fail_at_length_succeed_below() {
    // A buffer of length n fails get/set at index n and succeeds at n - 1.
    let n: u32 = 5;
    let mut fb = FrameBuffer::new(vec![0; n as usize]);
    assert_eq!(fb.get(n), Err(GfxError::IndexOutOfRange));
    assert_eq!(fb.set(n, 7), Err(GfxError::IndexOutOfRange));
    assert_eq!(fb.get(n + 100), Err(GfxError::IndexOutOfRange));
    assert_eq!(fb.set(n - 1, 7), Ok(()));
    assert_eq!(fb.get(n - 1), Ok(7));
}

#[test]
fn bounds_on_empty_buffer() {
    // The n = 0 case: every index is out of range.
    let mut fb = FrameBuffer::new(vec![]);
    assert_eq!(fb.length(), Ok(0));
    assert_eq!(fb.get(0), Err(GfxError::IndexOutOfRange));
    assert_eq!(fb.set(0, 1), Err(GfxError::IndexOutOfRange));
}

#[test]
fn set_get_round_trip() {
    let mut fb = FrameBuffer::new(vec![0; 4]);
    assert_eq!(fb.set(2, 0xFF00FF), Ok(()));
    assert_eq!(fb.get(2), Ok(0xFF00FF));
    // Other words are untouched.
    assert_eq!(fb.get(0), Ok(0));
    assert_eq!(fb.get(3), Ok(0));
}

#[test]
fn release_ends_all_access() {
    let mut fb = FrameBuffer::new(vec![9, 9]);
    assert_eq!(fb.release(), Ok(()));
    assert_eq!(fb.length(), Err(GfxError::AlreadyReleased));
    assert_eq!(fb.get(0), Err(GfxError::AlreadyReleased));
    assert_eq!(fb.set(0, 1), Err(GfxError::AlreadyReleased));
}

#[test]
fn double_release_is_reported_not_fatal() {
    let mut fb = FrameBuffer::new(vec![1]);
    assert_eq!(fb.release(), Ok(()));
    // A second release must not abort the host: it reports AlreadyReleased.
    assert_eq!(fb.release(), Err(GfxError::AlreadyReleased));
    assert_eq!(fb.release(), Err(GfxError::AlreadyReleased));
}
