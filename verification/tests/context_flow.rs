use wasi_graphics::context::{BufferKind, ConfigureContextDesc, GraphicsContextBuffer};
use wasi_graphics::frame_buffer::FrameBuffer;
use wasi_graphics::display::{DisplayApi, DisplayHandle, WindowHandle};
use wasi_graphics::error::GfxError;
use wasi_graphics::host::HostState;

fn display(width: u32, height: u32) -> DisplayApi {
    DisplayApi::new(width, height, DisplayHandle::new(11), WindowHandle::new(22))
}

#[test]
fn connect_order_draw_then_display() {
    let mut hs = HostState::new();
    let ctx = hs.new_graphics_context();
    hs.connect_graphics_context(ctx).unwrap();
    hs.connect_display_api(ctx, display(64, 48)).unwrap();
    assert!(hs.get_current_buffer(ctx).is_ok());
}

#[test]
fn connect_order_display_then_draw() {
    let mut hs = HostState::new();
    let ctx = hs.new_graphics_context();
    hs.connect_display_api(ctx, display(64, 48)).unwrap();
    hs.connect_graphics_context(ctx).unwrap();
    // The reverse order binds the backend all the same.
    assert!(hs.get_current_buffer(ctx).is_ok());
}

#[test]
fn orders_yield_equal_frames() {
    // Both orders produce a frame of the same size with the same contents.
    let mut a = HostState::new();
    let ca = a.new_graphics_context();
    a.connect_graphics_context(ca).unwrap();
    a.connect_display_api(ca, display(10, 4)).unwrap();
    let ba = a.get_current_buffer(ca).unwrap();
    let ba = a.from_graphics_buffer(ba).unwrap();

    let mut b = HostState::new();
    let cb = b.new_graphics_context();
    b.connect_display_api(cb, display(10, 4)).unwrap();
    b.connect_graphics_context(cb).unwrap();
    let bb = b.get_current_buffer(cb).unwrap();
    let bb = b.from_graphics_buffer(bb).unwrap();

    assert_eq!(a.length(ba), Ok(40));
    assert_eq!(b.length(bb), Ok(40));
    for i in 0..40 {
        assert_eq!(a.get(ba, i), b.get(bb, i));
    }
}

#[test]
fn software_frame_rejects_gpu_conversion() {
    let mut hs = HostState::new();
    let ctx = hs.new_graphics_context();
    hs.connect_display_api(ctx, display(10, 4)).unwrap();
    hs.connect_graphics_context(ctx).unwrap();
    let gb = hs.get_current_buffer(ctx).unwrap();
    // A software frame converts only through the software conversion.
    assert_eq!(hs.texture_from_graphics_buffer(gb).err(), Some(GfxError::BackendMismatch));
    // The failed conversion left the frame live: the cycle is still open.
    assert_eq!(hs.get_current_buffer(ctx).err(), Some(GfxError::AlreadyReleased));
}

#[test]
fn configure_is_a_no_op_that_accepts_all() {
    let mut hs = HostState::new();
    let ctx = hs.new_graphics_context();
    let desc = ConfigureContextDesc { desired_width: None, desired_height: Some(0) };
    assert_eq!(hs.configure(ctx, desc), Ok(()));
    assert_eq!(
        hs.configure(ctx + 1, desc),
        Err(GfxError::HandleNotFound)
    );
}

#[test]
fn software_scenario_full_cycle() {
    let mut hs = HostState::new();
    let ctx = hs.new_graphics_context();
    hs.connect_graphics_context(ctx).unwrap();

    // Before any display is attached the backend is not usable.
    assert_eq!(hs.get_current_buffer(ctx).err(), Some(GfxError::BackendNotAttached));
    assert_eq!(hs.present(ctx).err(), Some(GfxError::BackendNotAttached));

    // Attaching an 800x600 display auto-binds the backend at that size.
    hs.connect_display_api(ctx, display(800, 600)).unwrap();
    let gb = hs.get_current_buffer(ctx).unwrap();
    let fb = hs.from_graphics_buffer(gb).unwrap();
    assert_eq!(hs.length(fb), Ok(800 * 600));

    assert_eq!(hs.set(fb, 0, 0xFF00FF), Ok(()));
    assert_eq!(hs.get(fb, 0), Ok(0xFF00FF));

    // Present hands the flushed frame over and auto-releases it.
    let flushed = hs.present(ctx).unwrap().unwrap();
    assert_eq!(flushed.len(), 800 * 600);
    assert_eq!(flushed[0], 0xFF00FF);
    assert_eq!(flushed[1], 0);
    assert_eq!(hs.get(fb, 0), Err(GfxError::AlreadyReleased));
    assert_eq!(hs.set(fb, 0, 1), Err(GfxError::AlreadyReleased));

    // The next cycle hands out a fresh frame.
    assert!(hs.get_current_buffer(ctx).is_ok());
}

#[test]
fn zero_sized_display_clamps_to_one() {
    let mut hs = HostState::new();
    let ctx = hs.new_graphics_context();
    hs.connect_graphics_context(ctx).unwrap();
    hs.connect_display_api(ctx, display(0, 0)).unwrap();
    let gb = hs.get_current_buffer(ctx).unwrap();
    let fb = hs.from_graphics_buffer(gb).unwrap();
    assert_eq!(hs.length(fb), Ok(1));
}

#[test]
fn present_without_a_frame_fails() {
    let mut hs = HostState::new();
    let ctx = hs.new_graphics_context();
    hs.connect_graphics_context(ctx).unwrap();
    hs.connect_display_api(ctx, display(8, 8)).unwrap();
    // No frame was obtained this cycle.
    assert_eq!(hs.present(ctx).err(), Some(GfxError::AlreadyReleased));
    let gb = hs.get_current_buffer(ctx).unwrap();
    let _ = gb;
    assert!(matches!(hs.present(ctx), Ok(Some(_))));
    // The cycle ended: presenting again needs a new frame first.
    assert_eq!(hs.present(ctx).err(), Some(GfxError::AlreadyReleased));
}

#[test]
fn acquire_blocked_until_frame_released() {
    let mut hs = HostState::new();
    let ctx = hs.new_graphics_context();
    hs.connect_graphics_context(ctx).unwrap();
    hs.connect_display_api(ctx, display(4, 4)).unwrap();
    let gb = hs.get_current_buffer(ctx).unwrap();
    let fb = hs.from_graphics_buffer(gb).unwrap();
    // The previous frame is still held: the backend cannot lend the next.
    assert_eq!(hs.get_current_buffer(ctx).err(), Some(GfxError::AlreadyReleased));
    // Releasing it explicitly reopens the cycle.
    assert_eq!(hs.drop_frame_buffer(fb), Ok(()));
    assert!(hs.get_current_buffer(ctx).is_ok());
}

#[test]
fn drop_frame_buffer_is_idempotent_safe() {
    let mut hs = HostState::new();
    let ctx = hs.new_graphics_context();
    hs.connect_graphics_context(ctx).unwrap();
    hs.connect_display_api(ctx, display(2, 2)).unwrap();
    let gb = hs.get_current_buffer(ctx).unwrap();
    let fb = hs.from_graphics_buffer(gb).unwrap();
    assert_eq!(hs.drop_frame_buffer(fb), Ok(()));
    // A second drop is reported, never a host abort.
    assert_eq!(hs.drop_frame_buffer(fb), Err(GfxError::AlreadyReleased));
}

#[test]
fn resize_applies_at_next_acquire() {
    let mut hs = HostState::new();
    let ctx = hs.new_graphics_context();
    hs.connect_graphics_context(ctx).unwrap();
    hs.connect_display_api(ctx, display(4, 4)).unwrap();
    let gb = hs.get_current_buffer(ctx).unwrap();
    let fb = hs.from_graphics_buffer(gb).unwrap();
    // A resize between acquire and present leaves the in-flight frame alone.
    assert_eq!(hs.resize_surface(ctx, 10, 10), Ok(()));
    assert_eq!(hs.length(fb), Ok(16));
    assert!(hs.present(ctx).is_ok());
    let gb2 = hs.get_current_buffer(ctx).unwrap();
    let fb2 = hs.from_graphics_buffer(gb2).unwrap();
    assert_eq!(hs.length(fb2), Ok(100));
}

#[test]
fn reattaching_a_display_rebinds_the_backend() {
    let mut hs = HostState::new();
    let ctx = hs.new_graphics_context();
    hs.connect_graphics_context(ctx).unwrap();
    hs.connect_display_api(ctx, display(4, 4)).unwrap();
    assert_eq!(hs.present(ctx).err(), Some(GfxError::AlreadyReleased));
    // Attaching a new display after both sides exist re-triggers the ready
    // notification: the backend rebinds at the new size, in a fresh cycle.
    hs.connect_display_api(ctx, display(6, 5)).unwrap();
    let gb = hs.get_current_buffer(ctx).unwrap();
    let fb = hs.from_graphics_buffer(gb).unwrap();
    assert_eq!(hs.length(fb), Ok(30));
}

#[test]
fn buffer_kind_is_reported() {
    let b = GraphicsContextBuffer::FrameBuffer(FrameBuffer::new(vec![0]));
    assert_eq!(b.inner_type(), BufferKind::FrameBuffer);
}

#[test]
fn stale_context_handle_fails() {
    let mut hs = HostState::new();
    let ctx = hs.new_graphics_context();
    assert_eq!(hs.drop_graphics_context(ctx), Ok(()));
    assert_eq!(hs.present(ctx).err(), Some(GfxError::HandleNotFound));
    assert_eq!(hs.get_current_buffer(ctx).err(), Some(GfxError::HandleNotFound));
}

#[test]
fn wrong_kind_handle_is_type_mismatch() {
    let mut hs = HostState::new();
    let ctx = hs.new_graphics_context();
    hs.connect_graphics_context(ctx).unwrap();
    hs.connect_display_api(ctx, display(2, 2)).unwrap();
    let gb = hs.get_current_buffer(ctx).unwrap();
    // A buffer handle is not a context.
    assert_eq!(hs.present(gb).err(), Some(GfxError::TypeMismatch));
    // A context handle is not a frame buffer.
    assert_eq!(hs.length(ctx).err(), Some(GfxError::TypeMismatch));
}
