use wasi_graphics::error::GfxError;
use wasi_graphics::host::HostState;
use wasi_graphics::key_events::KeyEvent;

#[test]
fn listener_hands_out_latest_event_once() {
    let mut hs = HostState::new();
    let l = hs.up_listener();
    assert_eq!(hs.key_up_get(l), Ok(None));
    hs.key_up_ready(l, KeyEvent { code: 65, modifier: false }).unwrap();
    assert_eq!(hs.key_up_get(l), Ok(Some(KeyEvent { code: 65, modifier: false })));
    // An event is observed at most once.
    assert_eq!(hs.key_up_get(l), Ok(None));
}

#[test]
fn unpolled_events_are_dropped_not_queued() {
    let mut hs = HostState::new();
    let l = hs.down_listener();
    hs.key_down_ready(l, KeyEvent { code: 1, modifier: false }).unwrap();
    hs.key_down_ready(l, KeyEvent { code: 2, modifier: true }).unwrap();
    // Only the most recent unread event remains.
    assert_eq!(hs.key_down_get(l), Ok(Some(KeyEvent { code: 2, modifier: true })));
    assert_eq!(hs.key_down_get(l), Ok(None));
}

#[test]
fn listeners_are_kind_checked() {
    let mut hs = HostState::new();
    let up = hs.up_listener();
    let down = hs.down_listener();
    assert_eq!(
        hs.key_up_get(down).err(),
        Some(GfxError::TypeMismatch)
    );
    assert_eq!(
        hs.key_down_get(up).err(),
        Some(GfxError::TypeMismatch)
    );
    assert_eq!(hs.key_up_get(down + 10).err(), Some(GfxError::HandleNotFound));
}
