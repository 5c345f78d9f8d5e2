use wasi_graphics::display::{DisplayApi, DisplayHandle, WindowHandle};
use wasi_graphics::error::GfxError;
use wasi_graphics::gpu::{AlphaMode, GpuRenderPipelineDescriptor, GpuShaderModuleDescriptor,
    GpuStageDescriptor, GpuTextureFormat, SurfaceCapabilities};
use wasi_graphics::host::HostState;
use wasi_graphics::table::HostObject;

fn caps() -> SurfaceCapabilities {
    SurfaceCapabilities {
        formats: vec![GpuTextureFormat::Bgra8UnormSrgb, GpuTextureFormat::Rgba8UnormSrgb],
        alpha_modes: vec![AlphaMode::Opaque, AlphaMode::Auto],
    }
}

fn shader_desc(code: &str) -> GpuShaderModuleDescriptor {
    GpuShaderModuleDescriptor { label: None, code: String::from(code) }
}

fn pipeline_desc(vm: u32, fm: u32) -> GpuRenderPipelineDescriptor {
    GpuRenderPipelineDescriptor {
        vertex: GpuStageDescriptor { module: vm, entry_point: String::from("vs_main") },
        fragment: GpuStageDescriptor { module: fm, entry_point: String::from("fs_main") },
        targets: vec![GpuTextureFormat::Bgra8UnormSrgb],
    }
}

#[test]
fn device_is_child_of_adapter() {
    let mut hs = HostState::new();
    let adapter = hs.request_adapter(caps());
    let daq = hs.request_device(adapter).unwrap();
    assert_eq!(hs.table.get(daq).unwrap().parent, Some(adapter));
    // The queue lives in the same entry as the device.
    assert_eq!(hs.queue(daq), Ok(daq));
}

#[test]
fn pipeline_with_absent_module_fails_without_corrupting_table() {
    let mut hs = HostState::new();
    let adapter = hs.request_adapter(caps());
    let daq = hs.request_device(adapter).unwrap();
    let module = hs.create_shader_module(daq, shader_desc("@vertex fn vs_main() {}")).unwrap();

    // Reference a module handle that was never issued.
    let bad = hs.create_render_pipeline(daq, pipeline_desc(module, module + 100));
    assert_eq!(bad.err(), Some(GfxError::HandleNotFound));

    // The failure left the table intact: the same call with sound handles
    // succeeds, and the module is still readable.
    let pipeline = hs.create_render_pipeline(daq, pipeline_desc(module, module)).unwrap();
    assert_eq!(hs.table.get(pipeline).unwrap().parent, Some(daq));
    assert!(matches!(hs.table.get(module).unwrap().value, HostObject::ShaderModule(_)));
}

#[test]
fn pipeline_with_wrong_kind_module_fails() {
    let mut hs = HostState::new();
    let adapter = hs.request_adapter(caps());
    let daq = hs.request_device(adapter).unwrap();
    // The adapter handle is not a shader module.
    let bad = hs.create_render_pipeline(daq, pipeline_desc(adapter, adapter));
    assert_eq!(bad.err(), Some(GfxError::TypeMismatch));
}

fn gpu_context(hs: &mut HostState) -> (u32, u32) {
    let adapter = hs.request_adapter(caps());
    let daq = hs.request_device(adapter).unwrap();
    let ctx = hs.new_graphics_context();
    hs.connect_gpu_graphics_context(daq, ctx).unwrap();
    hs.connect_display_api(
        ctx,
        DisplayApi::new(640, 480, DisplayHandle::new(1), WindowHandle::new(2)),
    )
    .unwrap();
    (daq, ctx)
}

#[test]
fn gpu_connect_in_either_order_serves_textures() {
    let mut hs = HostState::new();
    let (_daq, ctx) = gpu_context(&mut hs);
    let gb = hs.get_current_buffer(ctx).unwrap();
    // A GPU frame converts only through the GPU conversion.
    let mut hs2 = HostState::new();
    let adapter = hs2.request_adapter(caps());
    let daq2 = hs2.request_device(adapter).unwrap();
    let ctx2 = hs2.new_graphics_context();
    hs2.connect_display_api(
        ctx2,
        DisplayApi::new(640, 480, DisplayHandle::new(1), WindowHandle::new(2)),
    )
    .unwrap();
    hs2.connect_gpu_graphics_context(daq2, ctx2).unwrap();
    let gb2 = hs2.get_current_buffer(ctx2).unwrap();
    assert_eq!(hs2.from_graphics_buffer(gb2).err(), Some(GfxError::BackendMismatch));
    let tex = hs.texture_from_graphics_buffer(gb).unwrap();
    // The texture reflects the negotiated configuration: the first reported
    // format, at the display's size.
    match &hs.table.get(tex).unwrap().value {
        HostObject::SurfaceTexture(t) => {
            assert_eq!(t.format, GpuTextureFormat::Bgra8UnormSrgb);
            assert_eq!((t.width, t.height), (640, 480));
        },
        _ => panic!("conversion produced the wrong kind"),
    }
}

#[test]
fn render_pass_over_two_attachments_in_one_batched_lookup() {
    let mut hs = HostState::new();
    let (daq, ctx) = gpu_context(&mut hs);

    let module = hs.create_shader_module(daq, shader_desc("@vertex fn vs_main() {}")).unwrap();
    let pipeline = hs.create_render_pipeline(daq, pipeline_desc(module, module)).unwrap();

    let gb = hs.get_current_buffer(ctx).unwrap();
    let tex = hs.texture_from_graphics_buffer(gb).unwrap();
    let view1 = hs.create_view(tex).unwrap();
    let view2 = hs.create_view(tex).unwrap();

    let cwr = hs.create_command_encoder(daq).unwrap();
    // The encoder handle and both attachment views resolve in one call.
    let pass = hs.begin_render_pass(cwr, &vec![view1, view2]).unwrap();
    assert_eq!(pass, cwr);

    assert_eq!(hs.set_pipeline(cwr, pipeline), Ok(()));
    assert_eq!(hs.draw(cwr, 3), Ok(()));
    assert_eq!(hs.end(cwr), Ok(()));
    // Drawing after the pass ended is a release-class failure, not an abort.
    assert_eq!(hs.draw(cwr, 3).err(), Some(GfxError::AlreadyReleased));

    let cb = hs.finish(cwr).unwrap();
    // The finished encoder's handle is spent.
    assert_eq!(hs.draw(cwr, 1).err(), Some(GfxError::HandleNotFound));

    assert_eq!(hs.submit(daq, &vec![cb]), Ok(()));
    // A command buffer submits exactly once.
    assert_eq!(hs.submit(daq, &vec![cb]).err(), Some(GfxError::HandleNotFound));

    // The presented texture handle is consumed by the non-standard path.
    assert_eq!(hs.non_standard_present(tex), Ok(()));
    assert_eq!(hs.non_standard_present(tex).err(), Some(GfxError::HandleNotFound));
}

#[test]
fn begin_render_pass_rejects_wrong_kinds_cleanly() {
    let mut hs = HostState::new();
    let (daq, ctx) = gpu_context(&mut hs);
    let gb = hs.get_current_buffer(ctx).unwrap();
    let tex = hs.texture_from_graphics_buffer(gb).unwrap();
    let view = hs.create_view(tex).unwrap();
    let cwr = hs.create_command_encoder(daq).unwrap();
    // The texture itself is not a view.
    assert_eq!(hs.begin_render_pass(cwr, &vec![tex]).err(), Some(GfxError::TypeMismatch));
    // The failure left everything in place.
    assert_eq!(hs.begin_render_pass(cwr, &vec![view]), Ok(cwr));
}

#[test]
fn end_twice_reports_already_released() {
    let mut hs = HostState::new();
    let (daq, ctx) = gpu_context(&mut hs);
    let gb = hs.get_current_buffer(ctx).unwrap();
    let tex = hs.texture_from_graphics_buffer(gb).unwrap();
    let view = hs.create_view(tex).unwrap();
    let cwr = hs.create_command_encoder(daq).unwrap();
    hs.begin_render_pass(cwr, &vec![view]).unwrap();
    assert_eq!(hs.end(cwr), Ok(()));
    assert_eq!(hs.end(cwr).err(), Some(GfxError::AlreadyReleased));
    // Dropping the (already ended) pass stays a no-op.
    assert_eq!(hs.drop_render_pass(cwr), Ok(()));
}

#[test]
fn set_pipeline_without_open_pass_fails() {
    let mut hs = HostState::new();
    let (daq, _ctx) = gpu_context(&mut hs);
    let module = hs.create_shader_module(daq, shader_desc("@vertex fn vs_main() {}")).unwrap();
    let pipeline = hs.create_render_pipeline(daq, pipeline_desc(module, module)).unwrap();
    let cwr = hs.create_command_encoder(daq).unwrap();
    assert_eq!(hs.set_pipeline(cwr, pipeline).err(), Some(GfxError::AlreadyReleased));
}

#[test]
fn submit_rejects_mixed_kinds_without_consuming() {
    let mut hs = HostState::new();
    let (daq, _ctx) = gpu_context(&mut hs);
    let cwr = hs.create_command_encoder(daq).unwrap();
    let cb = hs.finish(cwr).unwrap();
    let module = hs.create_shader_module(daq, shader_desc("x")).unwrap();
    // One good command buffer, one shader module: nothing is consumed.
    assert_eq!(hs.submit(daq, &vec![cb, module]).err(), Some(GfxError::TypeMismatch));
    assert_eq!(hs.submit(daq, &vec![cb]), Ok(()));
}

#[test]
fn adapter_drop_consumes_the_handle() {
    let mut hs = HostState::new();
    let adapter = hs.request_adapter(caps());
    assert_eq!(hs.drop_adapter(adapter), Ok(()));
    assert_eq!(hs.request_device(adapter).err(), Some(GfxError::HandleNotFound));
}
