//! The GPU draw backend model: adapters, devices, shader modules, pipelines,
//! command encoders with their render passes, and surface textures.
//!
//! The native driver owns the real objects; the core tracks what it decides
//! about them — negotiated configurations, parent links, recorded commands —
//! as plain values.

use vstd::prelude::*;

use crate::display::{spec_clamp_dim, clamp_dim, DisplayApi};

verus! {

/// A texture format the presentation surface can use.
#[derive(Clone, Copy, Debug, PartialEq, Eq, Structural)]
pub enum GpuTextureFormat {
    Bgra8UnormSrgb,
    Rgba8UnormSrgb,
}

/// How the surface's alpha channel composites with the windowing system.
#[derive(Clone, Copy, Debug, PartialEq, Eq, Structural)]
pub enum AlphaMode {
    Auto,
    Opaque,
    PreMultiplied,
    PostMultiplied,
    Inherit,
}

/// When a presented frame reaches the screen.
#[derive(Clone, Copy, Debug, PartialEq, Eq, Structural)]
pub enum PresentMode {
    Fifo,
    Immediate,
    Mailbox,
}

/// What a surface texture may be used for.
#[derive(Clone, Copy, Debug, PartialEq, Eq, Structural)]
pub enum TextureUsage {
    RenderAttachment,
}

/// What the driver reports a surface/adapter pair supports.
///
/// The driver lists the supported formats and alpha modes in preference
/// order; for an adapter compatible with the surface both lists are
/// non-empty.
pub struct SurfaceCapabilities {
    pub formats: Vec<GpuTextureFormat>,
    pub alpha_modes: Vec<AlphaMode>,
}

impl SurfaceCapabilities {
    /// A compatible adapter reports at least one format and one alpha mode.
    pub open spec fn wf(&self) -> bool {
        self.formats@.len() >= 1 && self.alpha_modes@.len() >= 1
    }
}

/// An adapter: a handle to one physical GPU, remembered together with the
/// capabilities the driver reported for the presentation surface.
pub struct Adapter {
    pub capabilities: SurfaceCapabilities,
}

impl Adapter {
    pub open spec fn wf(&self) -> bool {
        self.capabilities.wf()
    }
}

/// The presentation configuration negotiated from the surface capabilities.
#[derive(Clone, Copy, Debug, PartialEq, Eq, Structural)]
pub struct SurfaceConfiguration {
    pub usage: TextureUsage,
    pub format: GpuTextureFormat,
    pub width: u32,
    pub height: u32,
    pub present_mode: PresentMode,
    pub alpha_mode: AlphaMode,
}

/// The negotiation rule: first reported format, first reported alpha mode,
/// `Fifo` presentation, render-attachment usage, size clamped to at least
/// one on each axis.
pub open spec fn spec_negotiate_config(
    formats: Seq<GpuTextureFormat>,
    alpha_modes: Seq<AlphaMode>,
    display: DisplayApi,
) -> SurfaceConfiguration
    recommends
        formats.len() >= 1,
        alpha_modes.len() >= 1,
{
    SurfaceConfiguration {
        usage: TextureUsage::RenderAttachment,
        format: formats[0],
        width: spec_clamp_dim(display.spec_width()),
        height: spec_clamp_dim(display.spec_height()),
        present_mode: PresentMode::Fifo,
        alpha_mode: alpha_modes[0],
    }
}

/// The GPU presentation surface held by a context's draw backend.
///
/// Unconfigured until the display capability arrives; `live` remembers the
/// handle of the surface texture lent out this cycle.
pub struct GpuSurface {
    pub capabilities: SurfaceCapabilities,
    pub config: Option<SurfaceConfiguration>,
    pub live: Option<u32>,
}

impl GpuSurface {
    pub open spec fn wf(&self) -> bool {
        self.capabilities.wf()
    }

    /// The surface state after attaching to `display`: negotiated
    /// configuration, new cycle.
    pub open spec fn spec_display_api_ready(self, display: DisplayApi) -> GpuSurface {
        GpuSurface {
            capabilities: self.capabilities,
            config: Some(
                spec_negotiate_config(
                    self.capabilities.formats@,
                    self.capabilities.alpha_modes@,
                    display,
                ),
            ),
            live: None,
        }
    }

    /// Bind to a presentation target by negotiating a configuration from
    /// the reported capabilities. Never fails: sizes clamp to at least one.
    pub fn display_api_ready(&mut self, display: &DisplayApi)
        requires
            old(self).wf(),
        ensures
            *final(self) == old(self).spec_display_api_ready(*display),
            final(self).wf(),
            final(self).config is Some,
    {
        let format = self.capabilities.formats[0];
        let alpha_mode = self.capabilities.alpha_modes[0];
        self.config = Some(
            SurfaceConfiguration {
                usage: TextureUsage::RenderAttachment,
                format,
                width: clamp_dim(display.width()),
                height: clamp_dim(display.height()),
                present_mode: PresentMode::Fifo,
                alpha_mode,
            },
        );
        self.live = None;
    }
}

/// A device together with its queue, derived from an adapter.
///
/// The adapter handle is kept only so capability lookups can reach the
/// adapter through the device; it carries no lifetime meaning. `submitted`
/// records every command buffer the queue has consumed, in order.
pub struct DeviceAndQueue {
    pub adapter: u32,
    pub submitted: Vec<CommandBuffer>,
}

/// A compiled shader module: the source as handed over by the guest.
/// The driver judges validity; the table only stores the module.
pub struct ShaderModule {
    pub label: Option<String>,
    pub code: String,
}

/// A render pipeline: the wiring of shader stage entry points to color
/// target formats.
pub struct RenderPipeline {
    pub vertex_module: u32,
    pub vertex_entry_point: String,
    pub fragment_module: u32,
    pub fragment_entry_point: String,
    pub target_formats: Vec<GpuTextureFormat>,
}

/// One command recorded into an open render pass.
#[derive(Clone, Copy, Debug, PartialEq, Eq, Structural)]
pub enum PassCommand {
    /// Use the pipeline behind this handle for subsequent draws.
    SetPipeline(u32),
    /// Draw this many vertices, one instance.
    Draw(u32),
}

/// An open or recorded render pass: the texture-view handles of its color
/// attachments and the commands recorded into it, in order.
pub struct RenderPass {
    pub color_attachments: Vec<u32>,
    pub commands: Vec<PassCommand>,
}

/// A finished recording, ready for one submission.
pub struct CommandBuffer {
    pub passes: Vec<RenderPass>,
}

/// A command encoder holding the passes recorded so far.
pub struct CommandEncoder {
    pub recorded: Vec<RenderPass>,
}

/// One table slot exposing both a command encoder and its open render pass.
///
/// The native pass borrows from the native encoder; storing both behind one
/// handle as plain values removes the need for lifetime erasure or pinning:
/// the pass is reconstituted from the recorded state at each use.
pub struct CommandEncoderWithRenderPass {
    pub command_encoder: CommandEncoder,
    pub render_pass: Option<RenderPass>,
}

impl CommandEncoderWithRenderPass {
    /// A render pass is currently open on the encoder.
    pub open spec fn has_render_pass(&self) -> bool {
        self.render_pass is Some
    }

    /// Whether a render pass is currently open, decidable at run time.
    pub fn has_render_pass_exec(&self) -> (r: bool)
        ensures
            r == self.has_render_pass(),
    {
        match &self.render_pass {
            Some(_) => true,
            None => false,
        }
    }

    /// Wrap a fresh encoder with no open pass and nothing recorded.
    pub fn new() -> (r: CommandEncoderWithRenderPass)
        ensures
            !r.has_render_pass(),
            r.command_encoder.recorded@ =~= Seq::<RenderPass>::empty(),
    {
        CommandEncoderWithRenderPass {
            command_encoder: CommandEncoder { recorded: Vec::new() },
            render_pass: None,
        }
    }

    /// Open a render pass over the given color-attachment view handles.
    ///
    /// At most one pass can be open per encoder; opening a second without
    /// ending the first would violate the encoder's self-reference
    /// discipline, which the host treats as a programming error.
    pub fn begin_render_pass(&mut self, color_attachments: Vec<u32>)
        requires
            !old(self).has_render_pass(),
        ensures
            final(self).command_encoder == old(self).command_encoder,
            final(self).render_pass matches Some(p) && p.color_attachments == color_attachments
                && p.commands@ =~= Seq::<PassCommand>::empty(),
    {
        self.render_pass = Some(RenderPass { color_attachments, commands: Vec::new() });
    }

    /// Record a pipeline selection into the open pass.
    ///
    /// Fails exactly when no pass is open any more.
    pub fn set_pipeline(&mut self, pipeline: u32) -> (r: Result<(), crate::error::GfxError>)
        ensures
            match r {
                Ok(()) => {
                    &&& old(self).has_render_pass()
                    &&& final(self).command_encoder == old(self).command_encoder
                    &&& final(self).render_pass matches Some(p)
                        && p.color_attachments == old(self).render_pass->0.color_attachments
                        && p.commands@ == old(self).render_pass->0.commands@.push(
                        PassCommand::SetPipeline(pipeline),
                    )
                },
                Err(e) => {
                    &&& !old(self).has_render_pass()
                    &&& e == crate::error::GfxError::AlreadyReleased
                    &&& *final(self) == *old(self)
                },
            },
    {
        match &mut self.render_pass {
            Some(p) => {
                p.commands.push(PassCommand::SetPipeline(pipeline));
                Ok(())
            },
            None => Err(crate::error::GfxError::AlreadyReleased),
        }
    }

    /// Record a draw of `count` vertices into the open pass.
    ///
    /// Fails exactly when no pass is open any more.
    pub fn draw(&mut self, count: u32) -> (r: Result<(), crate::error::GfxError>)
        ensures
            match r {
                Ok(()) => {
                    &&& old(self).has_render_pass()
                    &&& final(self).command_encoder == old(self).command_encoder
                    &&& final(self).render_pass matches Some(p)
                        && p.color_attachments == old(self).render_pass->0.color_attachments
                        && p.commands@ == old(self).render_pass->0.commands@.push(
                        PassCommand::Draw(count),
                    )
                },
                Err(e) => {
                    &&& !old(self).has_render_pass()
                    &&& e == crate::error::GfxError::AlreadyReleased
                    &&& *final(self) == *old(self)
                },
            },
    {
        match &mut self.render_pass {
            Some(p) => {
                p.commands.push(PassCommand::Draw(count));
                Ok(())
            },
            None => Err(crate::error::GfxError::AlreadyReleased),
        }
    }

    /// Detach the open pass from the encoder and record it, without
    /// finishing the encoder.
    ///
    /// Fails exactly when no pass is open; a second end of the same pass
    /// reports `AlreadyReleased` and changes nothing.
    pub fn end_render_pass(&mut self) -> (r: Result<(), crate::error::GfxError>)
        ensures
            !final(self).has_render_pass(),
            match r {
                Ok(()) => {
                    &&& old(self).has_render_pass()
                    &&& final(self).command_encoder.recorded@ == old(
                        self,
                    ).command_encoder.recorded@.push(old(self).render_pass->0)
                },
                Err(e) => {
                    &&& !old(self).has_render_pass()
                    &&& e == crate::error::GfxError::AlreadyReleased
                    &&& *final(self) == *old(self)
                },
            },
    {
        match self.render_pass.take() {
            Some(p) => {
                self.command_encoder.recorded.push(p);
                Ok(())
            },
            None => Err(crate::error::GfxError::AlreadyReleased),
        }
    }

    /// Finish the encoder, yielding a command buffer of everything recorded.
    ///
    /// The render pass must already have been ended or dropped: finishing
    /// under an open pass would invalidate the pass's borrow of the native
    /// encoder, a fatal host programming error rather than a guest-visible
    /// failure.
    pub fn take_command_encoder(self) -> (r: CommandBuffer)
        requires
            !self.has_render_pass(),
        ensures
            r.passes == self.command_encoder.recorded,
    {
        CommandBuffer { passes: self.command_encoder.recorded }
    }
}

/// What the guest hands over to compile a shader module.
pub struct GpuShaderModuleDescriptor {
    pub label: Option<String>,
    pub code: String,
}

/// One programmable stage: the module handle and its entry point.
pub struct GpuStageDescriptor {
    pub module: u32,
    pub entry_point: String,
}

/// What the guest hands over to create a render pipeline: a vertex stage, a
/// fragment stage, and the fragment's color target formats.
pub struct GpuRenderPipelineDescriptor {
    pub vertex: GpuStageDescriptor,
    pub fragment: GpuStageDescriptor,
    pub targets: Vec<GpuTextureFormat>,
}

/// Copy a vector of plain values.
pub fn copy_vec<T: Copy>(v: &Vec<T>) -> (r: Vec<T>)
    ensures
        r@ == v@,
{
    let mut r: Vec<T> = Vec::new();
    let mut i: usize = 0;
    while i < v.len()
        invariant
            i <= v@.len(),
            r@ == v@.take(i as int),
        decreases v@.len() - i,
    {
        r.push(v[i]);
        i = i + 1;
        proof {
            assert(r@ =~= v@.take(i as int));
        }
    }
    proof {
        assert(r@ =~= v@);
    }
    r
}

/// A texture acquired from the presentation surface for one frame, known to
/// the core by the configuration it was created under.
#[derive(Clone, Copy, Debug, PartialEq, Eq, Structural)]
pub struct SurfaceTexture {
    pub width: u32,
    pub height: u32,
    pub format: GpuTextureFormat,
}

/// A view onto a surface texture, as used by a render pass attachment.
#[derive(Clone, Copy, Debug, PartialEq, Eq, Structural)]
pub struct TextureView {
    pub width: u32,
    pub height: u32,
    pub format: GpuTextureFormat,
}

} // verus!
