use wasi_graphics::error::GfxError;
use wasi_graphics::gpu::{Adapter, AlphaMode, CommandEncoderWithRenderPass, DeviceAndQueue,
    GpuTextureFormat, SurfaceCapabilities};
use wasi_graphics::table::{HostObject, ResourceTable, TableEntry};

fn adapter() -> HostObject {
    HostObject::Adapter(Adapter {
        capabilities: SurfaceCapabilities {
            formats: vec![GpuTextureFormat::Bgra8UnormSrgb],
            alpha_modes: vec![AlphaMode::Opaque],
        },
    })
}

#[test]
fn push_then_get_then_delete() {
    let mut t = ResourceTable::new();
    let h = t.push(adapter());
    assert!(t.get(h).is_some());
    assert!(matches!(t.get(h).unwrap().value, HostObject::Adapter(_)));
    let deleted = t.delete(h);
    assert!(deleted.is_ok());
    // The handle is spent: it keeps failing.
    assert!(t.get(h).is_none());
    assert_eq!(t.delete(h).err(), Some(GfxError::HandleNotFound));
}

#[test]
fn handles_are_never_reused() {
    let mut t = ResourceTable::new();
    let h1 = t.push(adapter());
    let _ = t.delete(h1);
    let h2 = t.push(adapter());
    assert_ne!(h1, h2);
    assert!(t.get(h1).is_none());
    assert!(t.get(h2).is_some());
}

#[test]
fn push_child_records_parent_link() {
    let mut t = ResourceTable::new();
    let a = t.push(adapter());
    let d = t.push_child(
        HostObject::DeviceAndQueue(DeviceAndQueue { adapter: a, submitted: vec![] }),
        a,
    );
    assert_eq!(t.get(d).unwrap().parent, Some(a));
    assert_eq!(t.get(a).unwrap().parent, None);
}

#[test]
fn batched_lookup_one_entry_per_handle() {
    // Interleaved parent/child relationships: adapter -> device -> encoder,
    // requested out of order in one batch.
    let mut t = ResourceTable::new();
    let a = t.push(adapter());
    let d = t.push_child(
        HostObject::DeviceAndQueue(DeviceAndQueue { adapter: a, submitted: vec![] }),
        a,
    );
    let c = t.push_child(
        HostObject::CommandEncoder(CommandEncoderWithRenderPass::new()),
        d,
    );
    let handles = vec![c, a, d];
    let es = t.take_entries(&handles).unwrap();
    // Exactly one entry per requested handle, position for position.
    assert_eq!(es.len(), 3);
    assert!(matches!(es[0].value, HostObject::CommandEncoder(_)));
    assert!(matches!(es[1].value, HostObject::Adapter(_)));
    assert!(matches!(es[2].value, HostObject::DeviceAndQueue(_)));
    assert_eq!(es[0].parent, Some(d));
    assert_eq!(es[1].parent, None);
    assert_eq!(es[2].parent, Some(a));
    // Checked out: the slots are empty until checked back in.
    assert!(t.get(a).is_none());
    t.restore_entries(&handles, es);
    assert!(matches!(t.get(a).unwrap().value, HostObject::Adapter(_)));
    assert!(matches!(t.get(c).unwrap().value, HostObject::CommandEncoder(_)));
}

#[test]
fn batched_lookup_missing_handle_fails_clean() {
    let mut t = ResourceTable::new();
    let a = t.push(adapter());
    let r = t.take_entries(&vec![a, a + 1]);
    assert_eq!(r.err(), Some(GfxError::HandleNotFound));
    // Nothing was checked out.
    assert!(t.get(a).is_some());
}

#[test]
fn batched_lookup_rejects_repeated_handle() {
    let mut t = ResourceTable::new();
    let a = t.push(adapter());
    // A slot can be checked out only once per batch.
    let r = t.take_entries(&vec![a, a]);
    assert_eq!(r.err(), Some(GfxError::HandleNotFound));
    assert!(t.get(a).is_some());
}

#[test]
fn delete_returns_ownership() {
    let mut t = ResourceTable::new();
    let a = t.push(adapter());
    let e: TableEntry = t.delete(a).unwrap();
    match e.value {
        HostObject::Adapter(ad) => {
            assert_eq!(ad.capabilities.formats, vec![GpuTextureFormat::Bgra8UnormSrgb]);
        },
        _ => panic!("wrong kind came back"),
    }
}
