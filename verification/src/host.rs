//! The host state: the resource table plus every guest-facing operation,
//! each a transition on the table with an exact contract.
//!
//! Native work — binding a real window, compiling a shader, presenting to a
//! screen — happens outside; its observable outcome enters these operations
//! as plain values.

use vstd::pervasive::unreached;
use vstd::prelude::*;

use crate::context::{ConfigureContextDesc, DrawApi, GraphicsContext, GraphicsContextBuffer};
use crate::display::DisplayApi;
use crate::error::GfxError;
use crate::gpu::{
    Adapter,
    CommandBuffer,
    CommandEncoderWithRenderPass,
    DeviceAndQueue,
    GpuRenderPipelineDescriptor,
    GpuShaderModuleDescriptor,
    GpuSurface,
    RenderPipeline,
    ShaderModule,
    SurfaceCapabilities,
    PassCommand,
    TextureView,
    copy_vec,
    spec_negotiate_config,
};
use crate::key_events::{KeyDownListener, KeyEvent, KeyUpListener};
use crate::surface::Surface;
use crate::table::{HostObject, ResourceTable, TableEntry};

verus! {

/// Two table states agree on every handle.
pub open spec fn table_unchanged(pre: ResourceTable, post: ResourceTable) -> bool {
    &&& post.spec_len() == pre.spec_len()
    &&& forall|g: u32| post.lookup(g) == pre.lookup(g)
}

/// Two table states agree on every handle but `h`.
pub open spec fn unchanged_except(pre: ResourceTable, post: ResourceTable, h: u32) -> bool {
    forall|g: u32| g != h ==> post.lookup(g) == pre.lookup(g)
}

/// Two table states agree on every handle but `h1` and `h2`.
pub open spec fn unchanged_except2(
    pre: ResourceTable,
    post: ResourceTable,
    h1: u32,
    h2: u32,
) -> bool {
    forall|g: u32| g != h1 && g != h2 ==> post.lookup(g) == pre.lookup(g)
}

/// The handle resolves to a graphics context.
pub open spec fn is_context_at(t: ResourceTable, h: u32) -> bool {
    t.lookup(h) matches Some(e) && e.value is GraphicsContext
}

/// The context stored behind the handle.
pub open spec fn context_at(t: ResourceTable, h: u32) -> GraphicsContext
    recommends
        is_context_at(t, h),
{
    t.lookup(h)->0.value->GraphicsContext_0
}

/// The parent link stored behind the handle.
pub open spec fn parent_at(t: ResourceTable, h: u32) -> Option<u32>
    recommends
        t.contains(h),
{
    t.lookup(h)->0.parent
}

/// The error for a handle that is absent or holds the wrong kind of object:
/// `HandleNotFound` when absent, `TypeMismatch` otherwise.
pub open spec fn lookup_error(t: ResourceTable, h: u32) -> GfxError {
    if t.lookup(h) is None {
        GfxError::HandleNotFound
    } else {
        GfxError::TypeMismatch
    }
}

/// The handle of the frame the context's backend lent out this cycle.
pub open spec fn context_live(c: GraphicsContext) -> Option<u32> {
    match c.draw_api {
        Some(d) => d.spec_live(),
        None => None,
    }
}

/// This cycle's frame, if any, no longer holds its pixels (or its texture):
/// the condition for the backend to lend out the next frame.
pub open spec fn prev_frame_released(t: ResourceTable, live: Option<u32>) -> bool {
    match live {
        None => true,
        Some(bh) => match t.lookup(bh) {
            None => true,
            Some(e) => match e.value {
                HostObject::ContextBuffer(GraphicsContextBuffer::FrameBuffer(fb)) => !fb.is_live(),
                HostObject::FrameBuffer(fb) => !fb.is_live(),
                HostObject::ContextBuffer(GraphicsContextBuffer::Webgpu(_)) => false,
                HostObject::SurfaceTexture(_) => false,
                _ => true,
            },
        },
    }
}

/// What a freshly acquired frame holds, given the backend that produced it:
/// a zeroed software frame covering the surface, or a texture under the
/// negotiated configuration.
pub open spec fn fresh_buffer_matches(c: GraphicsContext, b: GraphicsContextBuffer) -> bool
    recommends
        c.spec_can_draw(),
{
    match c.draw_api->0 {
        DrawApi::FrameBuffer(s) => b matches GraphicsContextBuffer::FrameBuffer(fb)
            && fb.is_live() && fb.spec_pixels() == Seq::new(
            (s.spec_bound()->0.width * s.spec_bound()->0.height) as nat,
            |i: int| 0u32,
        ),
        DrawApi::Webgpu(g) => b == GraphicsContextBuffer::Webgpu(
            (crate::gpu::SurfaceTexture {
                width: g.config->0.width,
                height: g.config->0.height,
                format: g.config->0.format,
            }),
        ),
    }
}

/// How presenting transforms the live frame's slot: a software frame (in
/// either its erased or converted form) empties in place, an unconverted GPU
/// frame is consumed, anything else — including an already empty slot — is
/// untouched.
pub open spec fn present_releases(pre: Option<TableEntry>, post: Option<TableEntry>) -> bool {
    match pre {
        None => post is None,
        Some(e) => match e.value {
            HostObject::ContextBuffer(GraphicsContextBuffer::FrameBuffer(_)) => {
                &&& post matches Some(e2)
                &&& e2.parent == e.parent
                &&& e2.value matches HostObject::ContextBuffer(
                    GraphicsContextBuffer::FrameBuffer(fb2),
                )
                &&& !fb2.is_live()
            },
            HostObject::FrameBuffer(_) => {
                &&& post matches Some(e2)
                &&& e2.parent == e.parent
                &&& e2.value matches HostObject::FrameBuffer(fb2)
                &&& !fb2.is_live()
            },
            HostObject::ContextBuffer(GraphicsContextBuffer::Webgpu(_)) => post is None,
            _ => post == pre,
        },
    }
}

/// What presenting hands back for the embedder to flush: the pixel words of
/// a still-live software frame, and nothing for a released, converted-to-GPU
/// or missing one (a GPU texture is the driver's to present).
pub open spec fn presented_pixels(pre: Option<TableEntry>, r: Option<Vec<u32>>) -> bool {
    match pre {
        Some(e) => match e.value {
            HostObject::ContextBuffer(GraphicsContextBuffer::FrameBuffer(fb)) => if fb.is_live() {
                r matches Some(p) && p@ == fb.spec_pixels()
            } else {
                r is None
            },
            HostObject::FrameBuffer(fb) => if fb.is_live() {
                r matches Some(p) && p@ == fb.spec_pixels()
            } else {
                r is None
            },
            _ => r is None,
        },
        None => r is None,
    }
}

/// The handle resolves to a device-and-queue.
pub open spec fn is_daq_at(t: ResourceTable, h: u32) -> bool {
    t.lookup(h) matches Some(e) && e.value is DeviceAndQueue
}

/// The device-and-queue stored behind the handle.
pub open spec fn daq_at(t: ResourceTable, h: u32) -> DeviceAndQueue
    recommends
        is_daq_at(t, h),
{
    t.lookup(h)->0.value->DeviceAndQueue_0
}

/// The handle resolves to an adapter.
pub open spec fn is_adapter_at(t: ResourceTable, h: u32) -> bool {
    t.lookup(h) matches Some(e) && e.value is Adapter
}

/// The adapter stored behind the handle.
pub open spec fn adapter_at(t: ResourceTable, h: u32) -> Adapter
    recommends
        is_adapter_at(t, h),
{
    t.lookup(h)->0.value->Adapter_0
}

/// The handle resolves to a shader module.
pub open spec fn is_shader_at(t: ResourceTable, h: u32) -> bool {
    t.lookup(h) matches Some(e) && e.value is ShaderModule
}

/// The handle resolves to a command encoder.
pub open spec fn is_encoder_at(t: ResourceTable, h: u32) -> bool {
    t.lookup(h) matches Some(e) && e.value is CommandEncoder
}

/// The encoder stored behind the handle.
pub open spec fn encoder_at(t: ResourceTable, h: u32) -> CommandEncoderWithRenderPass
    recommends
        is_encoder_at(t, h),
{
    t.lookup(h)->0.value->CommandEncoder_0
}

/// The handle resolves to a surface texture.
pub open spec fn is_texture_at(t: ResourceTable, h: u32) -> bool {
    t.lookup(h) matches Some(e) && e.value is SurfaceTexture
}

/// The handle resolves to a texture view.
pub open spec fn is_view_at(t: ResourceTable, h: u32) -> bool {
    t.lookup(h) matches Some(e) && e.value is TextureView
}

/// The handle resolves to a command buffer.
pub open spec fn is_command_buffer_at(t: ResourceTable, h: u32) -> bool {
    t.lookup(h) matches Some(e) && e.value is CommandBuffer
}

/// The handle resolves to a render pipeline.
pub open spec fn is_pipeline_at(t: ResourceTable, h: u32) -> bool {
    t.lookup(h) matches Some(e) && e.value is RenderPipeline
}

/// The command buffers stored behind a batch of handles, in batch order.
pub open spec fn command_buffers_at(t: ResourceTable, handles: Seq<u32>) -> Seq<CommandBuffer> {
    Seq::new(handles.len(), |i: int| t.lookup(handles[i])->0.value->CommandBuffer_0)
}

/// Checking a batch out of a table and straight back in leaves the table as
/// it was.
proof fn lemma_take_restore_unchanged(
    pre: ResourceTable,
    mid: ResourceTable,
    post: ResourceTable,
    handles: Seq<u32>,
    es: Seq<TableEntry>,
)
    requires
        es.len() == handles.len(),
        forall|i: int| 0 <= i < handles.len() ==> pre.lookup(#[trigger] handles[i]) == Some(es[i]),
        forall|g: u32| !handles.contains(g) ==> mid.lookup(g) == pre.lookup(g),
        forall|i: int| 0 <= i < handles.len() ==> post.lookup(#[trigger] handles[i]) == Some(es[i]),
        forall|g: u32| !handles.contains(g) ==> post.lookup(g) == mid.lookup(g),
        post.spec_len() == pre.spec_len(),
    ensures
        table_unchanged(pre, post),
{
    assert forall|g: u32| post.lookup(g) == pre.lookup(g) by {
        if handles.contains(g) {
            let i = choose|i: int| 0 <= i < handles.len() && handles[i] == g;
            assert(pre.lookup(handles[i]) == Some(es[i]));
            assert(post.lookup(handles[i]) == Some(es[i]));
        }
    }
}

/// The host: one resource table driven by guest calls.
pub struct HostState {
    pub table: ResourceTable,
}

impl HostState {
    pub open spec fn wf(&self) -> bool {
        self.table.wf()
    }

    /// A fresh host with an empty table.
    pub fn new() -> (r: HostState)
        ensures
            r.wf(),
            r.table.spec_len() == 0,
            forall|h: u32| r.table.lookup(h) is None,
    {
        HostState { table: ResourceTable::new() }
    }

    /// Create an empty graphics context and hand out its handle.
    pub fn new_graphics_context(&mut self) -> (h: u32)
        requires
            old(self).wf(),
            old(self).table.spec_len() < u32::MAX,
        ensures
            final(self).wf(),
            h == old(self).table.spec_len(),
            final(self).table.spec_len() == old(self).table.spec_len() + 1,
            final(self).table.lookup(h) == Some(
                (TableEntry {
                    parent: None,
                    value: HostObject::GraphicsContext(GraphicsContext::spec_empty()),
                }),
            ),
            unchanged_except(old(self).table, final(self).table, h),
    {
        self.table.push(HostObject::GraphicsContext(GraphicsContext::new()))
    }

    /// The reserved configuration hook: succeeds for every descriptor a
    /// guest can construct on a handle that resolves to a context, and
    /// changes nothing.
    pub fn configure(&mut self, context: u32, desc: ConfigureContextDesc) -> (r: Result<
        (),
        GfxError,
    >)
        requires
            old(self).wf(),
        ensures
            final(self).wf(),
            *final(self) == *old(self),
            match r {
                Ok(()) => is_context_at(old(self).table, context),
                Err(e) => !is_context_at(old(self).table, context) && e == lookup_error(
                    old(self).table,
                    context,
                ),
            },
    {
        let _ = desc;
        match self.table.get(context) {
            Some(e) => match &e.value {
                HostObject::GraphicsContext(_) => Ok(()),
                _ => Err(GfxError::TypeMismatch),
            },
            None => Err(GfxError::HandleNotFound),
        }
    }

    /// Attach (or replace) the display capability of a context. If a draw
    /// backend is already attached, it binds to the new display before the
    /// call returns.
    pub fn connect_display_api(&mut self, context: u32, display: DisplayApi) -> (r: Result<
        (),
        GfxError,
    >)
        requires
            old(self).wf(),
            display.area_fits(),
        ensures
            final(self).wf(),
            unchanged_except(old(self).table, final(self).table, context),
            final(self).table.spec_len() == old(self).table.spec_len(),
            match r {
                Ok(()) => {
                    &&& is_context_at(old(self).table, context)
                    &&& final(self).table.lookup(context) == Some(
                        (TableEntry {
                            parent: parent_at(old(self).table, context),
                            value: HostObject::GraphicsContext(
                                context_at(old(self).table, context).spec_connect_display_api(
                                    display,
                                ),
                            ),
                        }),
                    )
                },
                Err(e) => {
                    &&& !is_context_at(old(self).table, context)
                    &&& e == lookup_error(old(self).table, context)
                    &&& final(self).table.lookup(context) == old(self).table.lookup(context)
                },
            },
    {
        let entry = match self.table.remove(context) {
            Some(e) => e,
            None => {
                return Err(GfxError::HandleNotFound);
            },
        };
        match entry.value {
            HostObject::GraphicsContext(mut ctx) => {
                ctx.connect_display_api(display);
                self.table.put(
                    context,
                    TableEntry { parent: entry.parent, value: HostObject::GraphicsContext(ctx) },
                );
                Ok(())
            },
            value => {
                self.table.put(context, TableEntry { parent: entry.parent, value });
                Err(GfxError::TypeMismatch)
            },
        }
    }

    /// Attach (or replace) a context's draw backend with the given one. If
    /// a display is already attached, the backend binds to it before the
    /// call returns — the mirror image of `connect_display_api`.
    fn connect_draw_backend(&mut self, context: u32, draw: DrawApi) -> (r: Result<(), GfxError>)
        requires
            old(self).wf(),
            draw.wf(),
        ensures
            final(self).wf(),
            unchanged_except(old(self).table, final(self).table, context),
            final(self).table.spec_len() == old(self).table.spec_len(),
            match r {
                Ok(()) => {
                    &&& is_context_at(old(self).table, context)
                    &&& final(self).table.lookup(context) == Some(
                        (TableEntry {
                            parent: parent_at(old(self).table, context),
                            value: HostObject::GraphicsContext(
                                context_at(old(self).table, context).spec_connect_draw_api(draw),
                            ),
                        }),
                    )
                },
                Err(e) => {
                    &&& !is_context_at(old(self).table, context)
                    &&& e == lookup_error(old(self).table, context)
                    &&& final(self).table.lookup(context) == old(self).table.lookup(context)
                },
            },
    {
        let entry = match self.table.remove(context) {
            Some(e) => e,
            None => {
                return Err(GfxError::HandleNotFound);
            },
        };
        match entry.value {
            HostObject::GraphicsContext(mut ctx) => {
                ctx.connect_draw_api(draw);
                self.table.put(
                    context,
                    TableEntry { parent: entry.parent, value: HostObject::GraphicsContext(ctx) },
                );
                Ok(())
            },
            value => {
                self.table.put(context, TableEntry { parent: entry.parent, value });
                Err(GfxError::TypeMismatch)
            },
        }
    }

    /// Wire a fresh software surface into a context as its draw backend.
    /// If the display capability is already attached, the surface binds to
    /// it immediately; otherwise it waits, unbound, for the display.
    pub fn connect_graphics_context(&mut self, context: u32) -> (r: Result<(), GfxError>)
        requires
            old(self).wf(),
        ensures
            final(self).wf(),
            unchanged_except(old(self).table, final(self).table, context),
            final(self).table.spec_len() == old(self).table.spec_len(),
            match r {
                Ok(()) => {
                    &&& is_context_at(old(self).table, context)
                    &&& final(self).table.lookup(context) == Some(
                        (TableEntry {
                            parent: parent_at(old(self).table, context),
                            value: HostObject::GraphicsContext(
                                context_at(old(self).table, context).spec_connect_draw_api(
                                    DrawApi::FrameBuffer((Surface { bound: None })),
                                ),
                            ),
                        }),
                    )
                },
                Err(e) => {
                    &&& !is_context_at(old(self).table, context)
                    &&& e == lookup_error(old(self).table, context)
                    &&& final(self).table.lookup(context) == old(self).table.lookup(context)
                },
            },
    {
        self.connect_draw_backend(context, DrawApi::FrameBuffer(Surface::new()))
    }

    /// Borrow the next frame from the backend attached to a context.
    ///
    /// The frame is stored in the table and its fresh handle returned; the
    /// backend remembers it as this cycle's live frame. Fails with
    /// `BackendNotAttached` when no bound backend is attached, and with
    /// `AlreadyReleased` while the previous cycle's frame is still held: a
    /// frame must be released (dropped or presented) before the backend can
    /// lend out the next one.
    pub fn get_current_buffer(&mut self, context: u32) -> (r: Result<u32, GfxError>)
        requires
            old(self).wf(),
            old(self).table.spec_len() < u32::MAX,
        ensures
            final(self).wf(),
            match r {
                Ok(bh) => {
                    &&& is_context_at(old(self).table, context)
                    &&& context_at(old(self).table, context).spec_can_draw()
                    &&& prev_frame_released(
                        old(self).table,
                        context_live(context_at(old(self).table, context)),
                    )
                    &&& bh == old(self).table.spec_len()
                    &&& final(self).table.spec_len() == old(self).table.spec_len() + 1
                    &&& unchanged_except2(old(self).table, final(self).table, context, bh)
                    &&& final(self).table.lookup(context) == Some(
                        (TableEntry {
                            parent: parent_at(old(self).table, context),
                            value: HostObject::GraphicsContext(
                                context_at(old(self).table, context).spec_record_live(Some(bh)),
                            ),
                        }),
                    )
                    &&& ({
                        &&& final(self).table.lookup(bh) matches Some(e)
                        &&& e.parent is None
                        &&& e.value matches HostObject::ContextBuffer(b)
                        &&& fresh_buffer_matches(context_at(old(self).table, context), b)
                    })
                },
                Err(e) => {
                    &&& table_unchanged(old(self).table, final(self).table)
                    &&& if !is_context_at(old(self).table, context) {
                        e == lookup_error(old(self).table, context)
                    } else if !context_at(old(self).table, context).spec_can_draw() {
                        e == GfxError::BackendNotAttached
                    } else {
                        &&& e == GfxError::AlreadyReleased
                        &&& !prev_frame_released(
                            old(self).table,
                            context_live(context_at(old(self).table, context)),
                        )
                    }
                },
            },
    {
        let entry = match self.table.remove(context) {
            Some(e) => e,
            None => {
                return Err(GfxError::HandleNotFound);
            },
        };
        let mut ctx = match entry.value {
            HostObject::GraphicsContext(c) => c,
            value => {
                self.table.put(context, TableEntry { parent: entry.parent, value });
                return Err(GfxError::TypeMismatch);
            },
        };
        if !ctx.can_draw() {
            self.table.put(
                context,
                TableEntry { parent: entry.parent, value: HostObject::GraphicsContext(ctx) },
            );
            return Err(GfxError::BackendNotAttached);
        }
        let released = match ctx.live_handle() {
            None => true,
            Some(bh) => match self.table.get(bh) {
                None => true,
                Some(e2) => match &e2.value {
                    HostObject::ContextBuffer(GraphicsContextBuffer::FrameBuffer(fb)) => !fb.is_live_exec(),
                    HostObject::FrameBuffer(fb) => !fb.is_live_exec(),
                    HostObject::ContextBuffer(GraphicsContextBuffer::Webgpu(_)) => false,
                    HostObject::SurfaceTexture(_) => false,
                    _ => true,
                },
            },
        };
        if !released {
            self.table.put(
                context,
                TableEntry { parent: entry.parent, value: HostObject::GraphicsContext(ctx) },
            );
            return Err(GfxError::AlreadyReleased);
        }
        let buf = match ctx.get_current_buffer() {
            Ok(b) => b,
            // A bound backend never refuses a frame.
            Err(_) => unreached(),
        };
        let bh = self.table.push(HostObject::ContextBuffer(buf));
        ctx.record_live(bh);
        self.table.put(
            context,
            TableEntry { parent: entry.parent, value: HostObject::GraphicsContext(ctx) },
        );
        Ok(bh)
    }

    /// Flush this cycle's frame: the backend forgets its live frame, and the
    /// frame's table entry is released (a software frame empties in place; an
    /// unconverted GPU frame is consumed) so stale access fails from then on.
    /// A software frame's pixel words come back for the embedder to blit to
    /// the screen; a GPU frame yields nothing, the driver presenting its own
    /// texture.
    ///
    /// Fails with `BackendNotAttached` when no bound backend is attached and
    /// with `AlreadyReleased` when no frame was obtained this cycle.
    pub fn present(&mut self, context: u32) -> (r: Result<Option<Vec<u32>>, GfxError>)
        requires
            old(self).wf(),
        ensures
            final(self).wf(),
            final(self).table.spec_len() == old(self).table.spec_len(),
            match r {
                Ok(po) => {
                    let c = context_at(old(self).table, context);
                    let bh = context_live(c)->0;
                    &&& is_context_at(old(self).table, context)
                    &&& c.spec_can_draw()
                    &&& context_live(c) is Some
                    &&& unchanged_except2(old(self).table, final(self).table, context, bh)
                    &&& final(self).table.lookup(context) == Some(
                        (TableEntry {
                            parent: parent_at(old(self).table, context),
                            value: HostObject::GraphicsContext(c.spec_record_live(None)),
                        }),
                    )
                    &&& (bh != context ==> present_releases(
                        old(self).table.lookup(bh),
                        final(self).table.lookup(bh),
                    ))
                    &&& (bh != context ==> presented_pixels(old(self).table.lookup(bh), po))
                    &&& (bh == context ==> po is None)
                },
                Err(e) => {
                    &&& table_unchanged(old(self).table, final(self).table)
                    &&& if !is_context_at(old(self).table, context) {
                        e == lookup_error(old(self).table, context)
                    } else if !context_at(old(self).table, context).spec_can_draw() {
                        e == GfxError::BackendNotAttached
                    } else {
                        &&& e == GfxError::AlreadyReleased
                        &&& context_live(context_at(old(self).table, context)) is None
                    }
                },
            },
    {
        let entry = match self.table.remove(context) {
            Some(e) => e,
            None => {
                return Err(GfxError::HandleNotFound);
            },
        };
        let mut ctx = match entry.value {
            HostObject::GraphicsContext(c) => c,
            value => {
                self.table.put(context, TableEntry { parent: entry.parent, value });
                return Err(GfxError::TypeMismatch);
            },
        };
        if !ctx.can_draw() {
            self.table.put(
                context,
                TableEntry { parent: entry.parent, value: HostObject::GraphicsContext(ctx) },
            );
            return Err(GfxError::BackendNotAttached);
        }
        let live = ctx.take_live();
        match live {
            None => {
                self.table.put(
                    context,
                    TableEntry { parent: entry.parent, value: HostObject::GraphicsContext(ctx) },
                );
                Err(GfxError::AlreadyReleased)
            },
            Some(bh) => {
                let presented: Option<Vec<u32>> = match self.table.remove(bh) {
                    None => None,
                    Some(be) => match be.value {
                        HostObject::ContextBuffer(GraphicsContextBuffer::FrameBuffer(mut fb)) => {
                            let p = fb.take_pixels();
                            self.table.put(
                                bh,
                                TableEntry {
                                    parent: be.parent,
                                    value: HostObject::ContextBuffer(
                                        GraphicsContextBuffer::FrameBuffer(fb),
                                    ),
                                },
                            );
                            p
                        },
                        HostObject::FrameBuffer(mut fb) => {
                            let p = fb.take_pixels();
                            self.table.put(
                                bh,
                                TableEntry {
                                    parent: be.parent,
                                    value: HostObject::FrameBuffer(fb),
                                },
                            );
                            p
                        },
                        HostObject::ContextBuffer(GraphicsContextBuffer::Webgpu(_)) => None,
                        value => {
                            self.table.put(bh, TableEntry { parent: be.parent, value });
                            None
                        },
                    },
                };
                self.table.put(
                    context,
                    TableEntry { parent: entry.parent, value: HostObject::GraphicsContext(ctx) },
                );
                Ok(presented)
            },
        }
    }

    /// Convert a context buffer into a plain frame buffer, in place: the
    /// slot is rebound under the same handle, so the backend's live-frame
    /// record keeps pointing at it.
    ///
    /// Fails with `BackendMismatch`, leaving the slot untouched, when the
    /// buffer came from the GPU backend.
    pub fn from_graphics_buffer(&mut self, buffer: u32) -> (r: Result<u32, GfxError>)
        requires
            old(self).wf(),
        ensures
            final(self).wf(),
            final(self).table.spec_len() == old(self).table.spec_len(),
            unchanged_except(old(self).table, final(self).table, buffer),
            match r {
                Ok(h) => {
                    &&& h == buffer
                    &&& old(self).table.lookup(buffer) matches Some(e)
                    &&& e.value matches HostObject::ContextBuffer(
                        GraphicsContextBuffer::FrameBuffer(fb),
                    )
                    &&& final(self).table.lookup(buffer) == Some(
                        (TableEntry { parent: e.parent, value: HostObject::FrameBuffer(fb) }),
                    )
                },
                Err(e) => {
                    &&& final(self).table.lookup(buffer) == old(self).table.lookup(buffer)
                    &&& match old(self).table.lookup(buffer) {
                        None => e == GfxError::HandleNotFound,
                        Some(en) => match en.value {
                            HostObject::ContextBuffer(GraphicsContextBuffer::Webgpu(_)) => e
                                == GfxError::BackendMismatch,
                            HostObject::ContextBuffer(GraphicsContextBuffer::FrameBuffer(_)) => false,
                            _ => e == GfxError::TypeMismatch,
                        },
                    }
                },
            },
    {
        let entry = match self.table.remove(buffer) {
            Some(e) => e,
            None => {
                return Err(GfxError::HandleNotFound);
            },
        };
        match entry.value {
            HostObject::ContextBuffer(b) => match b.into_frame_buffer() {
                Ok(fb) => {
                    self.table.put(
                        buffer,
                        TableEntry { parent: entry.parent, value: HostObject::FrameBuffer(fb) },
                    );
                    Ok(buffer)
                },
                Err((b, e)) => {
                    self.table.put(
                        buffer,
                        TableEntry { parent: entry.parent, value: HostObject::ContextBuffer(b) },
                    );
                    Err(e)
                },
            },
            value => {
                self.table.put(buffer, TableEntry { parent: entry.parent, value });
                Err(GfxError::TypeMismatch)
            },
        }
    }

    /// Convert a context buffer into a surface texture, in place under the
    /// same handle — the GPU-side mirror of `from_graphics_buffer`.
    ///
    /// Fails with `BackendMismatch`, leaving the slot untouched, when the
    /// buffer came from the software backend.
    pub fn texture_from_graphics_buffer(&mut self, buffer: u32) -> (r: Result<u32, GfxError>)
        requires
            old(self).wf(),
        ensures
            final(self).wf(),
            final(self).table.spec_len() == old(self).table.spec_len(),
            unchanged_except(old(self).table, final(self).table, buffer),
            match r {
                Ok(h) => {
                    &&& h == buffer
                    &&& old(self).table.lookup(buffer) matches Some(e)
                    &&& e.value matches HostObject::ContextBuffer(GraphicsContextBuffer::Webgpu(t))
                    &&& final(self).table.lookup(buffer) == Some(
                        (TableEntry { parent: e.parent, value: HostObject::SurfaceTexture(t) }),
                    )
                },
                Err(e) => {
                    &&& final(self).table.lookup(buffer) == old(self).table.lookup(buffer)
                    &&& match old(self).table.lookup(buffer) {
                        None => e == GfxError::HandleNotFound,
                        Some(en) => match en.value {
                            HostObject::ContextBuffer(GraphicsContextBuffer::FrameBuffer(_)) => e
                                == GfxError::BackendMismatch,
                            HostObject::ContextBuffer(GraphicsContextBuffer::Webgpu(_)) => false,
                            _ => e == GfxError::TypeMismatch,
                        },
                    }
                },
            },
    {
        let entry = match self.table.remove(buffer) {
            Some(e) => e,
            None => {
                return Err(GfxError::HandleNotFound);
            },
        };
        match entry.value {
            HostObject::ContextBuffer(b) => match b.into_texture() {
                Ok(t) => {
                    self.table.put(
                        buffer,
                        TableEntry { parent: entry.parent, value: HostObject::SurfaceTexture(t) },
                    );
                    Ok(buffer)
                },
                Err((b, e)) => {
                    self.table.put(
                        buffer,
                        TableEntry { parent: entry.parent, value: HostObject::ContextBuffer(b) },
                    );
                    Err(e)
                },
            },
            value => {
                self.table.put(buffer, TableEntry { parent: entry.parent, value });
                Err(GfxError::TypeMismatch)
            },
        }
    }

    /// The element count of a converted frame buffer, failing with
    /// `AlreadyReleased` once the buffer was released.
    pub fn length(&self, buffer: u32) -> (r: Result<u32, GfxError>)
        requires
            self.wf(),
        ensures
            match r {
                Ok(n) => {
                    &&& self.table.lookup(buffer) matches Some(e)
                    &&& e.value matches HostObject::FrameBuffer(fb)
                    &&& fb.is_live()
                    &&& n == fb.spec_pixels().len()
                },
                Err(e) => match self.table.lookup(buffer) {
                    None => e == GfxError::HandleNotFound,
                    Some(en) => match en.value {
                        HostObject::FrameBuffer(fb) => !fb.is_live() && e
                            == GfxError::AlreadyReleased,
                        _ => e == GfxError::TypeMismatch,
                    },
                },
            },
    {
        match self.table.get(buffer) {
            Some(e) => match &e.value {
                HostObject::FrameBuffer(fb) => fb.length(),
                _ => Err(GfxError::TypeMismatch),
            },
            None => Err(GfxError::HandleNotFound),
        }
    }

    /// Read the pixel word at `i` of a converted frame buffer.
    ///
    /// Fails with `AlreadyReleased` once the buffer was released and with
    /// `IndexOutOfRange` for every index at or past the length.
    pub fn get(&self, buffer: u32, i: u32) -> (r: Result<u32, GfxError>)
        requires
            self.wf(),
        ensures
            match r {
                Ok(v) => {
                    &&& self.table.lookup(buffer) matches Some(e)
                    &&& e.value matches HostObject::FrameBuffer(fb)
                    &&& fb.is_live()
                    &&& i < fb.spec_pixels().len()
                    &&& v == fb.spec_pixels()[i as int]
                },
                Err(e) => match self.table.lookup(buffer) {
                    None => e == GfxError::HandleNotFound,
                    Some(en) => match en.value {
                        HostObject::FrameBuffer(fb) => if !fb.is_live() {
                            e == GfxError::AlreadyReleased
                        } else {
                            i >= fb.spec_pixels().len() && e == GfxError::IndexOutOfRange
                        },
                        _ => e == GfxError::TypeMismatch,
                    },
                },
            },
    {
        match self.table.get(buffer) {
            Some(e) => match &e.value {
                HostObject::FrameBuffer(fb) => fb.get(i),
                _ => Err(GfxError::TypeMismatch),
            },
            None => Err(GfxError::HandleNotFound),
        }
    }

    /// Write `v` at index `i` of a converted frame buffer, with the same
    /// failure kinds as `get`. On failure nothing changes.
    pub fn set(&mut self, buffer: u32, i: u32, v: u32) -> (r: Result<(), GfxError>)
        requires
            old(self).wf(),
        ensures
            final(self).wf(),
            final(self).table.spec_len() == old(self).table.spec_len(),
            unchanged_except(old(self).table, final(self).table, buffer),
            match r {
                Ok(()) => {
                    &&& old(self).table.lookup(buffer) matches Some(e)
                    &&& e.value matches HostObject::FrameBuffer(fb)
                    &&& fb.is_live()
                    &&& i < fb.spec_pixels().len()
                    &&& ({
                        &&& final(self).table.lookup(buffer) matches Some(e2)
                        &&& e2.parent == e.parent
                        &&& e2.value matches HostObject::FrameBuffer(fb2)
                        &&& fb2.is_live()
                        &&& fb2.spec_pixels() == fb.spec_pixels().update(i as int, v)
                    })
                },
                Err(e) => {
                    &&& table_unchanged(old(self).table, final(self).table)
                    &&& match old(self).table.lookup(buffer) {
                        None => e == GfxError::HandleNotFound,
                        Some(en) => match en.value {
                            HostObject::FrameBuffer(fb) => if !fb.is_live() {
                                e == GfxError::AlreadyReleased
                            } else {
                                i >= fb.spec_pixels().len() && e == GfxError::IndexOutOfRange
                            },
                            _ => e == GfxError::TypeMismatch,
                        },
                    }
                },
            },
    {
        let entry = match self.table.remove(buffer) {
            Some(e) => e,
            None => {
                return Err(GfxError::HandleNotFound);
            },
        };
        match entry.value {
            HostObject::FrameBuffer(mut fb) => {
                let r = fb.set(i, v);
                self.table.put(
                    buffer,
                    TableEntry { parent: entry.parent, value: HostObject::FrameBuffer(fb) },
                );
                r
            },
            value => {
                self.table.put(buffer, TableEntry { parent: entry.parent, value });
                Err(GfxError::TypeMismatch)
            },
        }
    }

    /// Release a converted frame buffer: its slot empties in place, so every
    /// later access — including a second release — reports `AlreadyReleased`
    /// instead of aborting the host.
    pub fn drop_frame_buffer(&mut self, buffer: u32) -> (r: Result<(), GfxError>)
        requires
            old(self).wf(),
        ensures
            final(self).wf(),
            final(self).table.spec_len() == old(self).table.spec_len(),
            unchanged_except(old(self).table, final(self).table, buffer),
            match r {
                Ok(()) => {
                    &&& old(self).table.lookup(buffer) matches Some(e)
                    &&& e.value matches HostObject::FrameBuffer(fb)
                    &&& fb.is_live()
                    &&& ({
                        &&& final(self).table.lookup(buffer) matches Some(e2)
                        &&& e2.parent == e.parent
                        &&& e2.value matches HostObject::FrameBuffer(fb2)
                        &&& !fb2.is_live()
                    })
                },
                Err(e) => {
                    &&& table_unchanged(old(self).table, final(self).table)
                    &&& match old(self).table.lookup(buffer) {
                        None => e == GfxError::HandleNotFound,
                        Some(en) => match en.value {
                            HostObject::FrameBuffer(fb) => !fb.is_live() && e
                                == GfxError::AlreadyReleased,
                            _ => e == GfxError::TypeMismatch,
                        },
                    }
                },
            },
    {
        let entry = match self.table.remove(buffer) {
            Some(e) => e,
            None => {
                return Err(GfxError::HandleNotFound);
            },
        };
        match entry.value {
            HostObject::FrameBuffer(mut fb) => {
                let r = fb.release();
                self.table.put(
                    buffer,
                    TableEntry { parent: entry.parent, value: HostObject::FrameBuffer(fb) },
                );
                r
            },
            value => {
                self.table.put(buffer, TableEntry { parent: entry.parent, value });
                Err(GfxError::TypeMismatch)
            },
        }
    }

    /// Apply a resize request from the window layer to a context's software
    /// surface. Dimensions clamp to at least one on each axis; the size
    /// takes effect at the next acquired frame, never corrupting an
    /// in-flight one.
    pub fn resize_surface(&mut self, context: u32, width: u32, height: u32) -> (r: Result<
        (),
        GfxError,
    >)
        requires
            old(self).wf(),
            crate::display::spec_clamp_dim(width) * crate::display::spec_clamp_dim(height)
                <= u32::MAX,
        ensures
            final(self).wf(),
            final(self).table.spec_len() == old(self).table.spec_len(),
            unchanged_except(old(self).table, final(self).table, context),
            match r {
                Ok(()) => {
                    &&& old(self).table.lookup(context) matches Some(e)
                    &&& e.value matches HostObject::GraphicsContext(c)
                    &&& c.draw_api matches Some(DrawApi::FrameBuffer(s))
                    &&& s.is_bound()
                    &&& final(self).table.lookup(context) == Some(
                        (TableEntry {
                            parent: e.parent,
                            value: HostObject::GraphicsContext(
                                (GraphicsContext {
                                    draw_api: Some(
                                        DrawApi::FrameBuffer(
                                            (Surface {
                                                bound: Some(
                                                    (crate::surface::BoundSurface {
                                                        width: crate::display::spec_clamp_dim(
                                                            width,
                                                        ),
                                                        height: crate::display::spec_clamp_dim(
                                                            height,
                                                        ),
                                                        live: s.spec_bound()->0.live,
                                                    }),
                                                ),
                                            }),
                                        ),
                                    ),
                                    display_api: c.display_api,
                                }),
                            ),
                        }),
                    )
                },
                Err(e) => {
                    &&& table_unchanged(old(self).table, final(self).table)
                    &&& match old(self).table.lookup(context) {
                        None => e == GfxError::HandleNotFound,
                        Some(en) => match en.value {
                            HostObject::GraphicsContext(c) => match c.draw_api {
                                Some(DrawApi::FrameBuffer(s)) => !s.is_bound() && e
                                    == GfxError::BackendNotAttached,
                                _ => e == GfxError::TypeMismatch,
                            },
                            _ => e == GfxError::TypeMismatch,
                        },
                    }
                },
            },
    {
        let entry = match self.table.remove(context) {
            Some(e) => e,
            None => {
                return Err(GfxError::HandleNotFound);
            },
        };
        match entry.value {
            HostObject::GraphicsContext(mut ctx) => {
                let r = match &mut ctx.draw_api {
                    Some(DrawApi::FrameBuffer(s)) => {
                        if s.is_bound_exec() {
                            s.resize(
                                crate::display::clamp_dim(width),
                                crate::display::clamp_dim(height),
                            );
                            Ok(())
                        } else {
                            Err(GfxError::BackendNotAttached)
                        }
                    },
                    Some(DrawApi::Webgpu(_)) => Err(GfxError::TypeMismatch),
                    None => Err(GfxError::TypeMismatch),
                };
                self.table.put(
                    context,
                    TableEntry { parent: entry.parent, value: HostObject::GraphicsContext(ctx) },
                );
                r
            },
            value => {
                self.table.put(context, TableEntry { parent: entry.parent, value });
                Err(GfxError::TypeMismatch)
            },
        }
    }

    /// Destroy a context: the guest's explicit release of its handle.
    pub fn drop_graphics_context(&mut self, context: u32) -> (r: Result<(), GfxError>)
        requires
            old(self).wf(),
        ensures
            final(self).wf(),
            unchanged_except(old(self).table, final(self).table, context),
            final(self).table.spec_len() == old(self).table.spec_len(),
            match r {
                Ok(()) => is_context_at(old(self).table, context) && final(self).table.lookup(
                    context,
                ) is None,
                Err(e) => {
                    &&& !is_context_at(old(self).table, context)
                    &&& e == lookup_error(old(self).table, context)
                    &&& final(self).table.lookup(context) == old(self).table.lookup(context)
                },
            },
    {
        let entry = match self.table.remove(context) {
            Some(e) => e,
            None => {
                return Err(GfxError::HandleNotFound);
            },
        };
        match entry.value {
            HostObject::GraphicsContext(_) => Ok(()),
            value => {
                self.table.put(context, TableEntry { parent: entry.parent, value });
                Err(GfxError::TypeMismatch)
            },
        }
    }

    /// Register an adapter the driver found, together with the surface
    /// capabilities it reported, and hand out its handle. An adapter
    /// compatible with the surface reports at least one format and one
    /// alpha mode.
    pub fn request_adapter(&mut self, capabilities: SurfaceCapabilities) -> (h: u32)
        requires
            old(self).wf(),
            old(self).table.spec_len() < u32::MAX,
            capabilities.wf(),
        ensures
            final(self).wf(),
            h == old(self).table.spec_len(),
            final(self).table.spec_len() == old(self).table.spec_len() + 1,
            final(self).table.lookup(h) == Some(
                (TableEntry { parent: None, value: HostObject::Adapter((Adapter { capabilities })) }),
            ),
            unchanged_except(old(self).table, final(self).table, h),
    {
        self.table.push(HostObject::Adapter(Adapter { capabilities }))
    }

    /// Destroy an adapter: the guest's explicit release of its handle.
    pub fn drop_adapter(&mut self, adapter: u32) -> (r: Result<(), GfxError>)
        requires
            old(self).wf(),
        ensures
            final(self).wf(),
            final(self).table.spec_len() == old(self).table.spec_len(),
            unchanged_except(old(self).table, final(self).table, adapter),
            match r {
                Ok(()) => is_adapter_at(old(self).table, adapter) && final(self).table.lookup(
                    adapter,
                ) is None,
                Err(e) => {
                    &&& !is_adapter_at(old(self).table, adapter)
                    &&& e == lookup_error(old(self).table, adapter)
                    &&& final(self).table.lookup(adapter) == old(self).table.lookup(adapter)
                },
            },
    {
        let entry = match self.table.remove(adapter) {
            Some(e) => e,
            None => {
                return Err(GfxError::HandleNotFound);
            },
        };
        match entry.value {
            HostObject::Adapter(_) => Ok(()),
            value => {
                self.table.put(adapter, TableEntry { parent: entry.parent, value });
                Err(GfxError::TypeMismatch)
            },
        }
    }

    /// Derive a device and its queue from an adapter. The new entry is a
    /// child of the adapter, and remembers the adapter's handle so
    /// capability lookups can reach it through the device.
    pub fn request_device(&mut self, adapter: u32) -> (r: Result<u32, GfxError>)
        requires
            old(self).wf(),
            old(self).table.spec_len() < u32::MAX,
        ensures
            final(self).wf(),
            match r {
                Ok(h) => {
                    &&& is_adapter_at(old(self).table, adapter)
                    &&& h == old(self).table.spec_len()
                    &&& final(self).table.spec_len() == old(self).table.spec_len() + 1
                    &&& unchanged_except(old(self).table, final(self).table, h)
                    &&& ({
                        &&& final(self).table.lookup(h) matches Some(e)
                        &&& e.parent == Some(adapter)
                        &&& e.value matches HostObject::DeviceAndQueue(dq)
                        &&& dq.adapter == adapter
                        &&& dq.submitted@ =~= Seq::<crate::gpu::CommandBuffer>::empty()
                    })
                },
                Err(e) => {
                    &&& table_unchanged(old(self).table, final(self).table)
                    &&& !is_adapter_at(old(self).table, adapter)
                    &&& e == lookup_error(old(self).table, adapter)
                },
            },
    {
        match self.table.get(adapter) {
            Some(e) => match &e.value {
                HostObject::Adapter(_) => {},
                _ => {
                    return Err(GfxError::TypeMismatch);
                },
            },
            None => {
                return Err(GfxError::HandleNotFound);
            },
        }
        let h = self.table.push_child(
            HostObject::DeviceAndQueue(DeviceAndQueue { adapter, submitted: Vec::new() }),
            adapter,
        );
        Ok(h)
    }

    /// The queue of a device: device and queue share one table entry, so
    /// the queue answers to the device's own handle.
    pub fn queue(&mut self, daq: u32) -> (r: Result<u32, GfxError>)
        requires
            old(self).wf(),
        ensures
            final(self).wf(),
            *final(self) == *old(self),
            match r {
                Ok(h) => h == daq && is_daq_at(old(self).table, daq),
                Err(e) => !is_daq_at(old(self).table, daq) && e == lookup_error(
                    old(self).table,
                    daq,
                ),
            },
    {
        match self.table.get(daq) {
            Some(e) => match &e.value {
                HostObject::DeviceAndQueue(_) => Ok(daq),
                _ => Err(GfxError::TypeMismatch),
            },
            None => Err(GfxError::HandleNotFound),
        }
    }

    /// Create a command encoder on a device: a fresh recording with no open
    /// pass, stored as a child of the device.
    pub fn create_command_encoder(&mut self, daq: u32) -> (r: Result<u32, GfxError>)
        requires
            old(self).wf(),
            old(self).table.spec_len() < u32::MAX,
        ensures
            final(self).wf(),
            match r {
                Ok(h) => {
                    &&& is_daq_at(old(self).table, daq)
                    &&& h == old(self).table.spec_len()
                    &&& final(self).table.spec_len() == old(self).table.spec_len() + 1
                    &&& unchanged_except(old(self).table, final(self).table, h)
                    &&& ({
                        &&& final(self).table.lookup(h) matches Some(e)
                        &&& e.parent == Some(daq)
                        &&& e.value matches HostObject::CommandEncoder(c)
                        &&& !c.has_render_pass()
                        &&& c.command_encoder.recorded@ =~= Seq::<crate::gpu::RenderPass>::empty()
                    })
                },
                Err(e) => {
                    &&& table_unchanged(old(self).table, final(self).table)
                    &&& !is_daq_at(old(self).table, daq)
                    &&& e == lookup_error(old(self).table, daq)
                },
            },
    {
        match self.table.get(daq) {
            Some(e) => match &e.value {
                HostObject::DeviceAndQueue(_) => {},
                _ => {
                    return Err(GfxError::TypeMismatch);
                },
            },
            None => {
                return Err(GfxError::HandleNotFound);
            },
        }
        let h = self.table.push_child(
            HostObject::CommandEncoder(CommandEncoderWithRenderPass::new()),
            daq,
        );
        Ok(h)
    }

    /// Store a shader module handed over by the guest. The driver judges
    /// the source when a pipeline is built from it; the table only keeps it.
    pub fn create_shader_module(&mut self, daq: u32, desc: GpuShaderModuleDescriptor) -> (r: Result<
        u32,
        GfxError,
    >)
        requires
            old(self).wf(),
            old(self).table.spec_len() < u32::MAX,
        ensures
            final(self).wf(),
            match r {
                Ok(h) => {
                    &&& is_daq_at(old(self).table, daq)
                    &&& h == old(self).table.spec_len()
                    &&& final(self).table.spec_len() == old(self).table.spec_len() + 1
                    &&& unchanged_except(old(self).table, final(self).table, h)
                    &&& final(self).table.lookup(h) == Some(
                        (TableEntry {
                            parent: None,
                            value: HostObject::ShaderModule(
                                (ShaderModule { label: desc.label, code: desc.code }),
                            ),
                        }),
                    )
                },
                Err(e) => {
                    &&& table_unchanged(old(self).table, final(self).table)
                    &&& !is_daq_at(old(self).table, daq)
                    &&& e == lookup_error(old(self).table, daq)
                },
            },
    {
        match self.table.get(daq) {
            Some(e) => match &e.value {
                HostObject::DeviceAndQueue(_) => {},
                _ => {
                    return Err(GfxError::TypeMismatch);
                },
            },
            None => {
                return Err(GfxError::HandleNotFound);
            },
        }
        let h = self.table.push(
            HostObject::ShaderModule(ShaderModule { label: desc.label, code: desc.code }),
        );
        Ok(h)
    }

    /// Create a view onto a surface texture, covering the whole texture.
    pub fn create_view(&mut self, texture: u32) -> (r: Result<u32, GfxError>)
        requires
            old(self).wf(),
            old(self).table.spec_len() < u32::MAX,
        ensures
            final(self).wf(),
            match r {
                Ok(h) => {
                    &&& old(self).table.lookup(texture) matches Some(e)
                    &&& e.value matches HostObject::SurfaceTexture(t)
                    &&& h == old(self).table.spec_len()
                    &&& final(self).table.spec_len() == old(self).table.spec_len() + 1
                    &&& unchanged_except(old(self).table, final(self).table, h)
                    &&& final(self).table.lookup(h) == Some(
                        (TableEntry {
                            parent: None,
                            value: HostObject::TextureView(
                                (TextureView { width: t.width, height: t.height, format: t.format }),
                            ),
                        }),
                    )
                },
                Err(e) => {
                    &&& table_unchanged(old(self).table, final(self).table)
                    &&& !is_texture_at(old(self).table, texture)
                    &&& e == lookup_error(old(self).table, texture)
                },
            },
    {
        let (w, h0, f) = match self.table.get(texture) {
            Some(e) => match &e.value {
                HostObject::SurfaceTexture(t) => (t.width, t.height, t.format),
                _ => {
                    return Err(GfxError::TypeMismatch);
                },
            },
            None => {
                return Err(GfxError::HandleNotFound);
            },
        };
        let h = self.table.push(
            HostObject::TextureView(TextureView { width: w, height: h0, format: f }),
        );
        Ok(h)
    }

    /// Consume a surface texture for direct presentation, bypassing the
    /// acquire/present cycle — the backend-specific "non-standard" path.
    /// The handle is spent: the slot stays permanently empty.
    pub fn non_standard_present(&mut self, texture: u32) -> (r: Result<(), GfxError>)
        requires
            old(self).wf(),
        ensures
            final(self).wf(),
            final(self).table.spec_len() == old(self).table.spec_len(),
            unchanged_except(old(self).table, final(self).table, texture),
            match r {
                Ok(()) => is_texture_at(old(self).table, texture) && final(self).table.lookup(
                    texture,
                ) is None,
                Err(e) => {
                    &&& !is_texture_at(old(self).table, texture)
                    &&& e == lookup_error(old(self).table, texture)
                    &&& final(self).table.lookup(texture) == old(self).table.lookup(texture)
                },
            },
    {
        let entry = match self.table.remove(texture) {
            Some(e) => e,
            None => {
                return Err(GfxError::HandleNotFound);
            },
        };
        match entry.value {
            HostObject::SurfaceTexture(_) => Ok(()),
            value => {
                self.table.put(texture, TableEntry { parent: entry.parent, value });
                Err(GfxError::TypeMismatch)
            },
        }
    }

    /// Wire the GPU backend into a context: the adapter is reached through
    /// the device's remembered handle, its reported capabilities seed the
    /// backend, and the context binds it to the display if one is attached
    /// (negotiating the first reported format and alpha mode, `Fifo`
    /// presentation, render-attachment usage, size clamped to at least one).
    pub fn connect_gpu_graphics_context(&mut self, daq: u32, context: u32) -> (r: Result<
        (),
        GfxError,
    >)
        requires
            old(self).wf(),
        ensures
            final(self).wf(),
            final(self).table.spec_len() == old(self).table.spec_len(),
            unchanged_except(old(self).table, final(self).table, context),
            match r {
                Ok(()) => {
                    let a = adapter_at(old(self).table, daq_at(old(self).table, daq).adapter);
                    let c = context_at(old(self).table, context);
                    &&& is_daq_at(old(self).table, daq)
                    &&& is_adapter_at(old(self).table, daq_at(old(self).table, daq).adapter)
                    &&& is_context_at(old(self).table, context)
                    &&& ({
                        &&& final(self).table.lookup(context) matches Some(e2)
                        &&& e2.parent == parent_at(old(self).table, context)
                        &&& e2.value matches HostObject::GraphicsContext(c2)
                        &&& c2.display_api == c.display_api
                        &&& c2.draw_api matches Some(DrawApi::Webgpu(g))
                        &&& g.capabilities.formats@ == a.capabilities.formats@
                        &&& g.capabilities.alpha_modes@ == a.capabilities.alpha_modes@
                        &&& g.live is None
                        &&& match c.display_api {
                            Some(d) => g.config == Some(
                                spec_negotiate_config(
                                    a.capabilities.formats@,
                                    a.capabilities.alpha_modes@,
                                    d,
                                ),
                            ),
                            None => g.config is None,
                        }
                    })
                },
                Err(e) => {
                    &&& table_unchanged(old(self).table, final(self).table)
                    &&& if !is_daq_at(old(self).table, daq) {
                        e == lookup_error(old(self).table, daq)
                    } else if !is_adapter_at(
                        old(self).table,
                        daq_at(old(self).table, daq).adapter,
                    ) {
                        e == lookup_error(old(self).table, daq_at(old(self).table, daq).adapter)
                    } else {
                        &&& !is_context_at(old(self).table, context)
                        &&& e == lookup_error(old(self).table, context)
                    }
                },
            },
    {
        let adapter_h = match self.table.get(daq) {
            Some(e) => match &e.value {
                HostObject::DeviceAndQueue(dq) => dq.adapter,
                _ => {
                    return Err(GfxError::TypeMismatch);
                },
            },
            None => {
                return Err(GfxError::HandleNotFound);
            },
        };
        let (formats, alpha_modes) = match self.table.get(adapter_h) {
            Some(e) => match &e.value {
                HostObject::Adapter(a) => (
                    copy_vec(&a.capabilities.formats),
                    copy_vec(&a.capabilities.alpha_modes),
                ),
                _ => {
                    return Err(GfxError::TypeMismatch);
                },
            },
            None => {
                return Err(GfxError::HandleNotFound);
            },
        };
        let backend = GpuSurface {
            capabilities: SurfaceCapabilities { formats, alpha_modes },
            config: None,
            live: None,
        };
        self.connect_draw_backend(context, DrawApi::Webgpu(backend))
    }

    /// Create a render pipeline: wires the vertex and fragment entry points
    /// to the color target formats, as a child of the device. Fails — with
    /// the table untouched, so no failure can corrupt it — when a referenced
    /// shader-module handle is absent or of the wrong kind.
    pub fn create_render_pipeline(&mut self, daq: u32, desc: GpuRenderPipelineDescriptor) -> (r:
        Result<u32, GfxError>)
        requires
            old(self).wf(),
            old(self).table.spec_len() < u32::MAX,
        ensures
            final(self).wf(),
            match r {
                Ok(h) => {
                    &&& is_daq_at(old(self).table, daq)
                    &&& is_shader_at(old(self).table, desc.vertex.module)
                    &&& is_shader_at(old(self).table, desc.fragment.module)
                    &&& h == old(self).table.spec_len()
                    &&& final(self).table.spec_len() == old(self).table.spec_len() + 1
                    &&& unchanged_except(old(self).table, final(self).table, h)
                    &&& final(self).table.lookup(h) == Some(
                        (TableEntry {
                            parent: Some(daq),
                            value: HostObject::RenderPipeline(
                                (RenderPipeline {
                                    vertex_module: desc.vertex.module,
                                    vertex_entry_point: desc.vertex.entry_point,
                                    fragment_module: desc.fragment.module,
                                    fragment_entry_point: desc.fragment.entry_point,
                                    target_formats: desc.targets,
                                }),
                            ),
                        }),
                    )
                },
                Err(e) => {
                    &&& table_unchanged(old(self).table, final(self).table)
                    &&& if !is_daq_at(old(self).table, daq) {
                        e == lookup_error(old(self).table, daq)
                    } else if !is_shader_at(old(self).table, desc.vertex.module) {
                        e == lookup_error(old(self).table, desc.vertex.module)
                    } else {
                        &&& !is_shader_at(old(self).table, desc.fragment.module)
                        &&& e == lookup_error(old(self).table, desc.fragment.module)
                    }
                },
            },
    {
        match self.table.get(daq) {
            Some(e) => match &e.value {
                HostObject::DeviceAndQueue(_) => {},
                _ => {
                    return Err(GfxError::TypeMismatch);
                },
            },
            None => {
                return Err(GfxError::HandleNotFound);
            },
        }
        match self.table.get(desc.vertex.module) {
            Some(e) => match &e.value {
                HostObject::ShaderModule(_) => {},
                _ => {
                    return Err(GfxError::TypeMismatch);
                },
            },
            None => {
                return Err(GfxError::HandleNotFound);
            },
        }
        match self.table.get(desc.fragment.module) {
            Some(e) => match &e.value {
                HostObject::ShaderModule(_) => {},
                _ => {
                    return Err(GfxError::TypeMismatch);
                },
            },
            None => {
                return Err(GfxError::HandleNotFound);
            },
        }
        let GpuRenderPipelineDescriptor { vertex, fragment, targets } = desc;
        let pipeline = RenderPipeline {
            vertex_module: vertex.module,
            vertex_entry_point: vertex.entry_point,
            fragment_module: fragment.module,
            fragment_entry_point: fragment.entry_point,
            target_formats: targets,
        };
        let h = self.table.push_child(HostObject::RenderPipeline(pipeline), daq);
        Ok(h)
    }

    /// Submit command buffers to a device's queue. Each buffer handle is
    /// consumed — it can be submitted exactly once, and reusing it afterwards
    /// fails like any stale handle — and the buffers append to the queue's
    /// submission record in the order given. On any failure the table is
    /// untouched.
    pub fn submit(&mut self, daq: u32, buffers: &Vec<u32>) -> (r: Result<(), GfxError>)
        requires
            old(self).wf(),
        ensures
            final(self).wf(),
            final(self).table.spec_len() == old(self).table.spec_len(),
            match r {
                Ok(()) => {
                    &&& is_daq_at(old(self).table, daq)
                    &&& old(self).table.spec_resolvable(buffers@)
                    &&& forall|i: int|
                        0 <= i < buffers@.len() ==> is_command_buffer_at(
                            old(self).table,
                            #[trigger] buffers@[i],
                        )
                    &&& forall|i: int|
                        0 <= i < buffers@.len() ==> final(self).table.lookup(
                            #[trigger] buffers@[i],
                        ) is None
                    &&& ({
                        &&& final(self).table.lookup(daq) matches Some(e2)
                        &&& e2.parent == parent_at(old(self).table, daq)
                        &&& e2.value matches HostObject::DeviceAndQueue(dq2)
                        &&& dq2.adapter == daq_at(old(self).table, daq).adapter
                        &&& dq2.submitted@ == daq_at(old(self).table, daq).submitted@
                            + command_buffers_at(old(self).table, buffers@)
                    })
                    &&& forall|g: u32|
                        g != daq && !buffers@.contains(g) ==> final(self).table.lookup(g) == old(
                            self,
                        ).table.lookup(g)
                },
                Err(e) => {
                    &&& table_unchanged(old(self).table, final(self).table)
                    &&& if !is_daq_at(old(self).table, daq) {
                        e == lookup_error(old(self).table, daq)
                    } else if !old(self).table.spec_resolvable(buffers@) {
                        e == GfxError::HandleNotFound
                    } else {
                        &&& !(forall|i: int|
                            0 <= i < buffers@.len() ==> is_command_buffer_at(
                                old(self).table,
                                #[trigger] buffers@[i],
                            ))
                        &&& e == GfxError::TypeMismatch
                    }
                },
            },
    {
        match self.table.get(daq) {
            Some(e) => match &e.value {
                HostObject::DeviceAndQueue(_) => {},
                _ => {
                    return Err(GfxError::TypeMismatch);
                },
            },
            None => {
                return Err(GfxError::HandleNotFound);
            },
        }
        let mut es = match self.table.take_entries(buffers) {
            Ok(es) => es,
            Err(e) => {
                return Err(e);
            },
        };
        let ghost mid = self.table;
        let ghost es0 = es@;
        let n = es.len();
        let mut j: usize = 0;
        while j < n
            invariant
                j <= n,
                n == buffers@.len(),
                n == es0.len(),
                self.table == mid,
                es@ == es0,
                old(self).wf(),
                mid.wf(),
                mid.spec_len() == old(self).table.spec_len(),
                is_daq_at(old(self).table, daq),
                old(self).table.spec_resolvable(buffers@),
                forall|i: int|
                    0 <= i < n ==> old(self).table.lookup(#[trigger] buffers@[i]) == Some(es0[i]),
                forall|i: int| 0 <= i < n ==> mid.lookup(#[trigger] buffers@[i]) is None,
                forall|g: u32| !buffers@.contains(g) ==> mid.lookup(g) == old(self).table.lookup(g),
                forall|k: int| 0 <= k < j ==> (#[trigger] es0[k]).value is CommandBuffer,
            decreases n - j,
        {
            match &es[j].value {
                HostObject::CommandBuffer(_) => {},
                _ => {
                    proof {
                        assert(old(self).table.lookup(buffers@[j as int]) == Some(es0[j as int]));
                        assert(!is_command_buffer_at(old(self).table, buffers@[j as int]));
                    }
                    self.table.restore_entries(buffers, es);
                    proof {
                        lemma_take_restore_unchanged(
                            old(self).table,
                            mid,
                            self.table,
                            buffers@,
                            es0,
                        );
                    }
                    return Err(GfxError::TypeMismatch);
                },
            }
            j = j + 1;
        }
        proof {
            assert(!buffers@.contains(daq)) by {
                if buffers@.contains(daq) {
                    let i = choose|i: int| 0 <= i < buffers@.len() && buffers@[i] == daq;
                    assert(old(self).table.lookup(buffers@[i]) == Some(es0[i]));
                }
            }
        }
        let entry = self.table.remove(daq).unwrap();
        let ghost mid2 = self.table;
        let mut dq = match entry.value {
            HostObject::DeviceAndQueue(dq) => dq,
            // The kind was checked before anything was taken.
            _ => unreached(),
        };
        let mut k: usize = 0;
        while k < n
            invariant
                k <= n,
                n == buffers@.len(),
                n == es0.len(),
                self.table == mid2,
                old(self).wf(),
                mid2.wf(),
                mid2.spec_len() == old(self).table.spec_len(),
                is_daq_at(old(self).table, daq),
                old(self).table.spec_resolvable(buffers@),
                entry.parent == parent_at(old(self).table, daq),
                dq.adapter == daq_at(old(self).table, daq).adapter,
                mid2.lookup(daq) is None,
                daq < mid2.spec_len(),
                forall|i: int|
                    0 <= i < n ==> old(self).table.lookup(#[trigger] buffers@[i]) == Some(es0[i]),
                forall|i: int| 0 <= i < n ==> mid2.lookup(#[trigger] buffers@[i]) is None,
                forall|g: u32|
                    g != daq && !buffers@.contains(g) ==> mid2.lookup(g) == old(
                        self,
                    ).table.lookup(g),
                forall|m: int| 0 <= m < n ==> (#[trigger] es0[m]).value is CommandBuffer,
                es@ == es0.skip(k as int),
                dq.submitted@ == daq_at(old(self).table, daq).submitted@ + Seq::new(
                    k as nat,
                    |i: int| es0[i].value->CommandBuffer_0,
                ),
            decreases n - k,
        {
            let e = es.remove(0);
            match e.value {
                HostObject::CommandBuffer(cb) => {
                    dq.submitted.push(cb);
                },
                // Every checked-out entry passed the kind check above.
                _ => unreached(),
            }
            k = k + 1;
            proof {
                assert(es@ =~= es0.skip(k as int));
                assert(dq.submitted@ =~= daq_at(old(self).table, daq).submitted@ + Seq::new(
                    k as nat,
                    |i: int| es0[i].value->CommandBuffer_0,
                ));
            }
        }
        self.table.put(
            daq,
            TableEntry { parent: entry.parent, value: HostObject::DeviceAndQueue(dq) },
        );
        proof {
            assert(command_buffers_at(old(self).table, buffers@) =~= Seq::new(
                n as nat,
                |i: int| es0[i].value->CommandBuffer_0,
            ));
        }
        Ok(())
    }

    /// Open a render pass on an encoder over the given color-attachment
    /// texture views. The encoder and every view are resolved together in
    /// one batched lookup — simultaneous access no sequence of single
    /// borrows could grant — and the pass records into the encoder's slot.
    ///
    /// The handle returned is the encoder's own: encoder and open pass live
    /// behind one handle. At most one pass may be open per encoder; the
    /// caller must end (or drop) it before opening another, anything else
    /// being a host programming error rather than a guest-visible failure.
    pub fn begin_render_pass(&mut self, cwr: u32, views: &Vec<u32>) -> (r: Result<u32, GfxError>)
        requires
            old(self).wf(),
            is_encoder_at(old(self).table, cwr) ==> !encoder_at(
                old(self).table,
                cwr,
            ).has_render_pass(),
        ensures
            final(self).wf(),
            final(self).table.spec_len() == old(self).table.spec_len(),
            match r {
                Ok(h) => {
                    &&& h == cwr
                    &&& old(self).table.spec_resolvable(seq![cwr] + views@)
                    &&& is_encoder_at(old(self).table, cwr)
                    &&& forall|i: int|
                        0 <= i < views@.len() ==> is_view_at(old(self).table, #[trigger] views@[i])
                    &&& unchanged_except(old(self).table, final(self).table, cwr)
                    &&& ({
                        &&& final(self).table.lookup(cwr) matches Some(e2)
                        &&& e2.parent == parent_at(old(self).table, cwr)
                        &&& e2.value matches HostObject::CommandEncoder(c2)
                        &&& c2.command_encoder == encoder_at(old(self).table, cwr).command_encoder
                        &&& c2.render_pass matches Some(p)
                        &&& p.color_attachments@ == views@
                        &&& p.commands@ == Seq::<PassCommand>::empty()
                    })
                },
                Err(e) => {
                    &&& table_unchanged(old(self).table, final(self).table)
                    &&& if !old(self).table.spec_resolvable(seq![cwr] + views@) {
                        e == GfxError::HandleNotFound
                    } else {
                        &&& e == GfxError::TypeMismatch
                        &&& !(is_encoder_at(old(self).table, cwr) && (forall|i: int|
                            0 <= i < views@.len() ==> is_view_at(
                                old(self).table,
                                #[trigger] views@[i],
                            )))
                    }
                },
            },
    {
        let mut handles: Vec<u32> = Vec::new();
        handles.push(cwr);
        let vn = views.len();
        let mut i: usize = 0;
        while i < vn
            invariant
                i <= vn,
                vn == views@.len(),
                handles@ == seq![cwr] + views@.take(i as int),
            decreases vn - i,
        {
            handles.push(views[i]);
            i = i + 1;
            proof {
                assert(handles@ =~= seq![cwr] + views@.take(i as int));
            }
        }
        proof {
            assert(handles@ =~= seq![cwr] + views@);
        }
        let mut es = match self.table.take_entries(&handles) {
            Ok(es) => es,
            Err(e) => {
                return Err(e);
            },
        };
        let ghost mid = self.table;
        let ghost es0 = es@;
        let n = es.len();
        match &es[0].value {
            HostObject::CommandEncoder(_) => {},
            _ => {
                proof {
                    assert(old(self).table.lookup(handles@[0]) == Some(es0[0]));
                    assert(!is_encoder_at(old(self).table, cwr));
                }
                self.table.restore_entries(&handles, es);
                proof {
                    lemma_take_restore_unchanged(old(self).table, mid, self.table, handles@, es0);
                }
                return Err(GfxError::TypeMismatch);
            },
        }
        let mut j: usize = 1;
        while j < n
            invariant
                1 <= j <= n,
                n == handles@.len(),
                n == es0.len(),
                handles@ == seq![cwr] + views@,
                self.table == mid,
                es@ == es0,
                old(self).wf(),
                mid.wf(),
                mid.spec_len() == old(self).table.spec_len(),
                old(self).table.spec_resolvable(handles@),
                es0[0].value is CommandEncoder,
                forall|k: int|
                    0 <= k < n ==> old(self).table.lookup(#[trigger] handles@[k]) == Some(es0[k]),
                forall|k: int| 0 <= k < n ==> mid.lookup(#[trigger] handles@[k]) is None,
                forall|g: u32| !handles@.contains(g) ==> mid.lookup(g) == old(self).table.lookup(g),
                forall|k: int| 1 <= k < j ==> (#[trigger] es0[k]).value is TextureView,
            decreases n - j,
        {
            match &es[j].value {
                HostObject::TextureView(_) => {},
                _ => {
                    proof {
                        assert(old(self).table.lookup(handles@[j as int]) == Some(es0[j as int]));
                        assert(handles@[j as int] == views@[j - 1]);
                        assert(!is_view_at(old(self).table, views@[j - 1]));
                    }
                    self.table.restore_entries(&handles, es);
                    proof {
                        lemma_take_restore_unchanged(
                            old(self).table,
                            mid,
                            self.table,
                            handles@,
                            es0,
                        );
                    }
                    return Err(GfxError::TypeMismatch);
                },
            }
            j = j + 1;
        }
        let first = es.remove(0);
        let mut enc = match first.value {
            HostObject::CommandEncoder(c) => c,
            // The kind was checked before anything was taken.
            _ => unreached(),
        };
        proof {
            assert(old(self).table.lookup(handles@[0]) == Some(es0[0]));
            assert(handles@[0] == cwr);
        }
        enc.begin_render_pass(copy_vec(views));
        es.insert(0, TableEntry { parent: first.parent, value: HostObject::CommandEncoder(enc) });
        let ghost es1 = es@;
        proof {
            assert(es1 =~= es0.update(
                0,
                (TableEntry { parent: es0[0].parent, value: HostObject::CommandEncoder(enc) }),
            ));
        }
        self.table.restore_entries(&handles, es);
        proof {
            assert forall|g: u32| g != cwr implies self.table.lookup(g) == old(
                self,
            ).table.lookup(g) by {
                if handles@.contains(g) {
                    let i = choose|i: int| 0 <= i < handles@.len() && handles@[i] == g;
                    assert(old(self).table.lookup(handles@[i]) == Some(es0[i]));
                    assert(self.table.lookup(handles@[i]) == Some(es1[i]));
                    assert(i != 0);
                    assert(es1[i] == es0[i]);
                }
            }
            assert(self.table.lookup(handles@[0]) == Some(es1[0]));
            assert forall|i: int| 0 <= i < views@.len() implies is_view_at(
                old(self).table,
                #[trigger] views@[i],
            ) by {
                assert(old(self).table.lookup(handles@[i + 1]) == Some(es0[i + 1]));
                assert(handles@[i + 1] == views@[i]);
            }
        }
        Ok(cwr)
    }

    /// Record a pipeline selection into an encoder's open render pass. The
    /// encoder and the pipeline are resolved together in one batched lookup.
    ///
    /// Fails with `AlreadyReleased`, changing nothing, when no pass is open
    /// on the encoder any more.
    pub fn set_pipeline(&mut self, cwr: u32, pipeline: u32) -> (r: Result<(), GfxError>)
        requires
            old(self).wf(),
        ensures
            final(self).wf(),
            final(self).table.spec_len() == old(self).table.spec_len(),
            match r {
                Ok(()) => {
                    &&& old(self).table.spec_resolvable(seq![cwr, pipeline])
                    &&& is_encoder_at(old(self).table, cwr)
                    &&& is_pipeline_at(old(self).table, pipeline)
                    &&& encoder_at(old(self).table, cwr).has_render_pass()
                    &&& unchanged_except(old(self).table, final(self).table, cwr)
                    &&& ({
                        let c = encoder_at(old(self).table, cwr);
                        &&& final(self).table.lookup(cwr) matches Some(e2)
                        &&& e2.parent == parent_at(old(self).table, cwr)
                        &&& e2.value matches HostObject::CommandEncoder(c2)
                        &&& c2.command_encoder == c.command_encoder
                        &&& c2.render_pass matches Some(p)
                        &&& p.color_attachments == c.render_pass->0.color_attachments
                        &&& p.commands@ == c.render_pass->0.commands@.push(
                            PassCommand::SetPipeline(pipeline),
                        )
                    })
                },
                Err(e) => {
                    &&& table_unchanged(old(self).table, final(self).table)
                    &&& if !old(self).table.spec_resolvable(seq![cwr, pipeline]) {
                        e == GfxError::HandleNotFound
                    } else if !(is_encoder_at(old(self).table, cwr) && is_pipeline_at(
                        old(self).table,
                        pipeline,
                    )) {
                        e == GfxError::TypeMismatch
                    } else {
                        &&& e == GfxError::AlreadyReleased
                        &&& !encoder_at(old(self).table, cwr).has_render_pass()
                    }
                },
            },
    {
        let mut handles: Vec<u32> = Vec::new();
        handles.push(cwr);
        handles.push(pipeline);
        proof {
            assert(handles@ =~= seq![cwr, pipeline]);
        }
        let mut es = match self.table.take_entries(&handles) {
            Ok(es) => es,
            Err(e) => {
                return Err(e);
            },
        };
        let ghost mid = self.table;
        let ghost es0 = es@;
        let enc_ok = match &es[0].value {
            HostObject::CommandEncoder(_) => true,
            _ => false,
        };
        let pipe_ok = match &es[1].value {
            HostObject::RenderPipeline(_) => true,
            _ => false,
        };
        if !enc_ok || !pipe_ok {
            proof {
                assert(old(self).table.lookup(handles@[0]) == Some(es0[0]));
                assert(old(self).table.lookup(handles@[1]) == Some(es0[1]));
            }
            self.table.restore_entries(&handles, es);
            proof {
                lemma_take_restore_unchanged(old(self).table, mid, self.table, handles@, es0);
            }
            return Err(GfxError::TypeMismatch);
        }
        let first = es.remove(0);
        let mut enc = match first.value {
            HostObject::CommandEncoder(c) => c,
            // The kind was checked before anything was taken.
            _ => unreached(),
        };
        let res = enc.set_pipeline(pipeline);
        es.insert(0, TableEntry { parent: first.parent, value: HostObject::CommandEncoder(enc) });
        let ghost es1 = es@;
        proof {
            assert(old(self).table.lookup(handles@[0]) == Some(es0[0]));
            assert(old(self).table.lookup(handles@[1]) == Some(es0[1]));
            assert(es1 =~= es0.update(
                0,
                (TableEntry { parent: es0[0].parent, value: HostObject::CommandEncoder(enc) }),
            ));
        }
        self.table.restore_entries(&handles, es);
        proof {
            assert forall|g: u32| g != cwr implies self.table.lookup(g) == old(
                self,
            ).table.lookup(g) by {
                if handles@.contains(g) {
                    let i = choose|i: int| 0 <= i < handles@.len() && handles@[i] == g;
                    assert(old(self).table.lookup(handles@[i]) == Some(es0[i]));
                    assert(self.table.lookup(handles@[i]) == Some(es1[i]));
                    assert(i != 0);
                    assert(es1[i] == es0[i]);
                }
            }
            assert(self.table.lookup(handles@[0]) == Some(es1[0]));
        }
        match res {
            Ok(()) => Ok(()),
            Err(e) => {
                proof {
                    lemma_take_restore_unchanged(old(self).table, mid, self.table, handles@, es0);
                }
                Err(e)
            },
        }
    }

    /// Record a draw of `count` vertices (one instance) into an encoder's
    /// open render pass. Fails with `AlreadyReleased`, changing nothing,
    /// when no pass is open any more.
    pub fn draw(&mut self, cwr: u32, count: u32) -> (r: Result<(), GfxError>)
        requires
            old(self).wf(),
        ensures
            final(self).wf(),
            final(self).table.spec_len() == old(self).table.spec_len(),
            unchanged_except(old(self).table, final(self).table, cwr),
            match r {
                Ok(()) => {
                    &&& is_encoder_at(old(self).table, cwr)
                    &&& encoder_at(old(self).table, cwr).has_render_pass()
                    &&& ({
                        let c = encoder_at(old(self).table, cwr);
                        &&& final(self).table.lookup(cwr) matches Some(e2)
                        &&& e2.parent == parent_at(old(self).table, cwr)
                        &&& e2.value matches HostObject::CommandEncoder(c2)
                        &&& c2.command_encoder == c.command_encoder
                        &&& c2.render_pass matches Some(p)
                        &&& p.color_attachments == c.render_pass->0.color_attachments
                        &&& p.commands@ == c.render_pass->0.commands@.push(PassCommand::Draw(count))
                    })
                },
                Err(e) => {
                    &&& table_unchanged(old(self).table, final(self).table)
                    &&& if !is_encoder_at(old(self).table, cwr) {
                        e == lookup_error(old(self).table, cwr)
                    } else {
                        &&& e == GfxError::AlreadyReleased
                        &&& !encoder_at(old(self).table, cwr).has_render_pass()
                    }
                },
            },
    {
        let entry = match self.table.remove(cwr) {
            Some(e) => e,
            None => {
                return Err(GfxError::HandleNotFound);
            },
        };
        match entry.value {
            HostObject::CommandEncoder(mut enc) => {
                let r = enc.draw(count);
                self.table.put(
                    cwr,
                    TableEntry { parent: entry.parent, value: HostObject::CommandEncoder(enc) },
                );
                r
            },
            value => {
                self.table.put(cwr, TableEntry { parent: entry.parent, value });
                Err(GfxError::TypeMismatch)
            },
        }
    }

    /// End an encoder's open render pass: the pass detaches from the
    /// encoder and its recording is kept, without finishing the encoder.
    /// Ending when no pass is open fails with `AlreadyReleased` and changes
    /// nothing — ending twice is safe.
    pub fn end(&mut self, cwr: u32) -> (r: Result<(), GfxError>)
        requires
            old(self).wf(),
        ensures
            final(self).wf(),
            final(self).table.spec_len() == old(self).table.spec_len(),
            unchanged_except(old(self).table, final(self).table, cwr),
            match r {
                Ok(()) => {
                    &&& is_encoder_at(old(self).table, cwr)
                    &&& encoder_at(old(self).table, cwr).has_render_pass()
                    &&& ({
                        let c = encoder_at(old(self).table, cwr);
                        &&& final(self).table.lookup(cwr) matches Some(e2)
                        &&& e2.parent == parent_at(old(self).table, cwr)
                        &&& e2.value matches HostObject::CommandEncoder(c2)
                        &&& !c2.has_render_pass()
                        &&& c2.command_encoder.recorded@ == c.command_encoder.recorded@.push(
                            c.render_pass->0,
                        )
                    })
                },
                Err(e) => {
                    &&& table_unchanged(old(self).table, final(self).table)
                    &&& if !is_encoder_at(old(self).table, cwr) {
                        e == lookup_error(old(self).table, cwr)
                    } else {
                        &&& e == GfxError::AlreadyReleased
                        &&& !encoder_at(old(self).table, cwr).has_render_pass()
                    }
                },
            },
    {
        let entry = match self.table.remove(cwr) {
            Some(e) => e,
            None => {
                return Err(GfxError::HandleNotFound);
            },
        };
        match entry.value {
            HostObject::CommandEncoder(mut enc) => {
                let r = enc.end_render_pass();
                self.table.put(
                    cwr,
                    TableEntry { parent: entry.parent, value: HostObject::CommandEncoder(enc) },
                );
                r
            },
            value => {
                self.table.put(cwr, TableEntry { parent: entry.parent, value });
                Err(GfxError::TypeMismatch)
            },
        }
    }

    /// The guest's release of a render pass: the open pass, if any, detaches
    /// from the encoder and its recording is kept — releasing with no open
    /// pass is a no-op, never a failure.
    pub fn drop_render_pass(&mut self, cwr: u32) -> (r: Result<(), GfxError>)
        requires
            old(self).wf(),
        ensures
            final(self).wf(),
            final(self).table.spec_len() == old(self).table.spec_len(),
            unchanged_except(old(self).table, final(self).table, cwr),
            match r {
                Ok(()) => {
                    &&& is_encoder_at(old(self).table, cwr)
                    &&& ({
                        let c = encoder_at(old(self).table, cwr);
                        &&& final(self).table.lookup(cwr) matches Some(e2)
                        &&& e2.parent == parent_at(old(self).table, cwr)
                        &&& e2.value matches HostObject::CommandEncoder(c2)
                        &&& !c2.has_render_pass()
                        &&& c2.command_encoder.recorded@ == (if c.has_render_pass() {
                            c.command_encoder.recorded@.push(c.render_pass->0)
                        } else {
                            c.command_encoder.recorded@
                        })
                    })
                },
                Err(e) => {
                    &&& table_unchanged(old(self).table, final(self).table)
                    &&& !is_encoder_at(old(self).table, cwr)
                    &&& e == lookup_error(old(self).table, cwr)
                },
            },
    {
        let entry = match self.table.remove(cwr) {
            Some(e) => e,
            None => {
                return Err(GfxError::HandleNotFound);
            },
        };
        match entry.value {
            HostObject::CommandEncoder(mut enc) => {
                let _ = enc.end_render_pass();
                self.table.put(
                    cwr,
                    TableEntry { parent: entry.parent, value: HostObject::CommandEncoder(enc) },
                );
                Ok(())
            },
            value => {
                self.table.put(cwr, TableEntry { parent: entry.parent, value });
                Err(GfxError::TypeMismatch)
            },
        }
    }

    /// Finish an encoder: its handle is consumed and everything recorded
    /// becomes a command buffer under a fresh handle.
    ///
    /// The render pass must already have been ended or dropped — finishing
    /// under an open pass would invalidate the pass's borrow of the native
    /// encoder, a fatal host programming error rather than a guest-visible
    /// failure.
    pub fn finish(&mut self, cwr: u32) -> (r: Result<u32, GfxError>)
        requires
            old(self).wf(),
            old(self).table.spec_len() < u32::MAX,
            is_encoder_at(old(self).table, cwr) ==> !encoder_at(
                old(self).table,
                cwr,
            ).has_render_pass(),
        ensures
            final(self).wf(),
            match r {
                Ok(h) => {
                    &&& is_encoder_at(old(self).table, cwr)
                    &&& h == old(self).table.spec_len()
                    &&& final(self).table.spec_len() == old(self).table.spec_len() + 1
                    &&& unchanged_except2(old(self).table, final(self).table, cwr, h)
                    &&& final(self).table.lookup(cwr) is None
                    &&& final(self).table.lookup(h) == Some(
                        (TableEntry {
                            parent: None,
                            value: HostObject::CommandBuffer(
                                (CommandBuffer {
                                    passes: encoder_at(
                                        old(self).table,
                                        cwr,
                                    ).command_encoder.recorded,
                                }),
                            ),
                        }),
                    )
                },
                Err(e) => {
                    &&& table_unchanged(old(self).table, final(self).table)
                    &&& !is_encoder_at(old(self).table, cwr)
                    &&& e == lookup_error(old(self).table, cwr)
                },
            },
    {
        let entry = match self.table.remove(cwr) {
            Some(e) => e,
            None => {
                return Err(GfxError::HandleNotFound);
            },
        };
        match entry.value {
            HostObject::CommandEncoder(enc) => {
                let cb = enc.take_command_encoder();
                let h = self.table.push(HostObject::CommandBuffer(cb));
                Ok(h)
            },
            value => {
                self.table.put(cwr, TableEntry { parent: entry.parent, value });
                Err(GfxError::TypeMismatch)
            },
        }
    }

    /// Create a listener for key releases, retaining only the most recent
    /// unread event, and hand out its handle.
    pub fn up_listener(&mut self) -> (h: u32)
        requires
            old(self).wf(),
            old(self).table.spec_len() < u32::MAX,
        ensures
            final(self).wf(),
            h == old(self).table.spec_len(),
            final(self).table.spec_len() == old(self).table.spec_len() + 1,
            unchanged_except(old(self).table, final(self).table, h),
            final(self).table.lookup(h) == Some(
                (TableEntry {
                    parent: None,
                    value: HostObject::KeyUpListener((KeyUpListener { latest: None })),
                }),
            ),
    {
        self.table.push(HostObject::KeyUpListener(KeyUpListener::new()))
    }

    /// Create a listener for key presses, retaining only the most recent
    /// unread event, and hand out its handle.
    pub fn down_listener(&mut self) -> (h: u32)
        requires
            old(self).wf(),
            old(self).table.spec_len() < u32::MAX,
        ensures
            final(self).wf(),
            h == old(self).table.spec_len(),
            final(self).table.spec_len() == old(self).table.spec_len() + 1,
            unchanged_except(old(self).table, final(self).table, h),
            final(self).table.lookup(h) == Some(
                (TableEntry {
                    parent: None,
                    value: HostObject::KeyDownListener((KeyDownListener { latest: None })),
                }),
            ),
    {
        self.table.push(HostObject::KeyDownListener(KeyDownListener::new()))
    }

    /// Deliver a key-release event the broadcast stream produced: the
    /// listener keeps it as its latest, dropping any unread predecessor.
    pub fn key_up_ready(&mut self, listener: u32, event: KeyEvent) -> (r: Result<(), GfxError>)
        requires
            old(self).wf(),
        ensures
            final(self).wf(),
            final(self).table.spec_len() == old(self).table.spec_len(),
            unchanged_except(old(self).table, final(self).table, listener),
            match r {
                Ok(()) => {
                    &&& old(self).table.lookup(listener) matches Some(e)
                    &&& e.value is KeyUpListener
                    &&& final(self).table.lookup(listener) == Some(
                        (TableEntry {
                            parent: e.parent,
                            value: HostObject::KeyUpListener((KeyUpListener { latest: Some(event) })),
                        }),
                    )
                },
                Err(e) => {
                    &&& table_unchanged(old(self).table, final(self).table)
                    &&& !(old(self).table.lookup(listener) matches Some(en) && en.value is KeyUpListener)
                    &&& e == lookup_error(old(self).table, listener)
                },
            },
    {
        let entry = match self.table.remove(listener) {
            Some(e) => e,
            None => {
                return Err(GfxError::HandleNotFound);
            },
        };
        match entry.value {
            HostObject::KeyUpListener(mut l) => {
                l.ready(event);
                self.table.put(
                    listener,
                    TableEntry { parent: entry.parent, value: HostObject::KeyUpListener(l) },
                );
                Ok(())
            },
            value => {
                self.table.put(listener, TableEntry { parent: entry.parent, value });
                Err(GfxError::TypeMismatch)
            },
        }
    }

    /// Deliver a key-press event the broadcast stream produced: the listener
    /// keeps it as its latest, dropping any unread predecessor.
    pub fn key_down_ready(&mut self, listener: u32, event: KeyEvent) -> (r: Result<(), GfxError>)
        requires
            old(self).wf(),
        ensures
            final(self).wf(),
            final(self).table.spec_len() == old(self).table.spec_len(),
            unchanged_except(old(self).table, final(self).table, listener),
            match r {
                Ok(()) => {
                    &&& old(self).table.lookup(listener) matches Some(e)
                    &&& e.value is KeyDownListener
                    &&& final(self).table.lookup(listener) == Some(
                        (TableEntry {
                            parent: e.parent,
                            value: HostObject::KeyDownListener(
                                (KeyDownListener { latest: Some(event) }),
                            ),
                        }),
                    )
                },
                Err(e) => {
                    &&& table_unchanged(old(self).table, final(self).table)
                    &&& !(old(self).table.lookup(listener) matches Some(en)
                        && en.value is KeyDownListener)
                    &&& e == lookup_error(old(self).table, listener)
                },
            },
    {
        let entry = match self.table.remove(listener) {
            Some(e) => e,
            None => {
                return Err(GfxError::HandleNotFound);
            },
        };
        match entry.value {
            HostObject::KeyDownListener(mut l) => {
                l.ready(event);
                self.table.put(
                    listener,
                    TableEntry { parent: entry.parent, value: HostObject::KeyDownListener(l) },
                );
                Ok(())
            },
            value => {
                self.table.put(listener, TableEntry { parent: entry.parent, value });
                Err(GfxError::TypeMismatch)
            },
        }
    }

    /// Hand over a key-release listener's latest unread event, leaving it
    /// with none: an event is observed at most once, and events that were
    /// never polled are simply gone.
    pub fn key_up_get(&mut self, listener: u32) -> (r: Result<Option<KeyEvent>, GfxError>)
        requires
            old(self).wf(),
        ensures
            final(self).wf(),
            final(self).table.spec_len() == old(self).table.spec_len(),
            unchanged_except(old(self).table, final(self).table, listener),
            match r {
                Ok(ev) => {
                    &&& old(self).table.lookup(listener) matches Some(e)
                    &&& e.value matches HostObject::KeyUpListener(l)
                    &&& ev == l.latest
                    &&& final(self).table.lookup(listener) == Some(
                        (TableEntry {
                            parent: e.parent,
                            value: HostObject::KeyUpListener((KeyUpListener { latest: None })),
                        }),
                    )
                },
                Err(e) => {
                    &&& table_unchanged(old(self).table, final(self).table)
                    &&& !(old(self).table.lookup(listener) matches Some(en) && en.value is KeyUpListener)
                    &&& e == lookup_error(old(self).table, listener)
                },
            },
    {
        let entry = match self.table.remove(listener) {
            Some(e) => e,
            None => {
                return Err(GfxError::HandleNotFound);
            },
        };
        match entry.value {
            HostObject::KeyUpListener(mut l) => {
                let ev = l.get();
                self.table.put(
                    listener,
                    TableEntry { parent: entry.parent, value: HostObject::KeyUpListener(l) },
                );
                Ok(ev)
            },
            value => {
                self.table.put(listener, TableEntry { parent: entry.parent, value });
                Err(GfxError::TypeMismatch)
            },
        }
    }

    /// Hand over a key-press listener's latest unread event, leaving it with
    /// none — the mirror of `key_up_get`.
    pub fn key_down_get(&mut self, listener: u32) -> (r: Result<Option<KeyEvent>, GfxError>)
        requires
            old(self).wf(),
        ensures
            final(self).wf(),
            final(self).table.spec_len() == old(self).table.spec_len(),
            unchanged_except(old(self).table, final(self).table, listener),
            match r {
                Ok(ev) => {
                    &&& old(self).table.lookup(listener) matches Some(e)
                    &&& e.value matches HostObject::KeyDownListener(l)
                    &&& ev == l.latest
                    &&& final(self).table.lookup(listener) == Some(
                        (TableEntry {
                            parent: e.parent,
                            value: HostObject::KeyDownListener((KeyDownListener { latest: None })),
                        }),
                    )
                },
                Err(e) => {
                    &&& table_unchanged(old(self).table, final(self).table)
                    &&& !(old(self).table.lookup(listener) matches Some(en)
                        && en.value is KeyDownListener)
                    &&& e == lookup_error(old(self).table, listener)
                },
            },
    {
        let entry = match self.table.remove(listener) {
            Some(e) => e,
            None => {
                return Err(GfxError::HandleNotFound);
            },
        };
        match entry.value {
            HostObject::KeyDownListener(mut l) => {
                let ev = l.get();
                self.table.put(
                    listener,
                    TableEntry { parent: entry.parent, value: HostObject::KeyDownListener(l) },
                );
                Ok(ev)
            },
            value => {
                self.table.put(listener, TableEntry { parent: entry.parent, value });
                Err(GfxError::TypeMismatch)
            },
        }
    }
}

} // verus!
