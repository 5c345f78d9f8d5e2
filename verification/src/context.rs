//! The graphics context: the backend-agnostic hand-off point that wires a
//! draw backend and a display capability together in either order.

use vstd::prelude::*;

use crate::display::DisplayApi;
use crate::error::GfxError;
use crate::frame_buffer::FrameBuffer;
use crate::gpu::{GpuSurface, SurfaceTexture};
use crate::surface::Surface;

verus! {

/// A draw backend: one of the interchangeable implementations of the draw
/// contract, tagged by kind so conversions stay statically exhaustive.
pub enum DrawApi {
    /// The software surface backend.
    FrameBuffer(Surface),
    /// The GPU presentation surface backend.
    Webgpu(GpuSurface),
}

impl DrawApi {
    pub open spec fn wf(&self) -> bool {
        match *self {
            DrawApi::FrameBuffer(s) => s.wf(),
            DrawApi::Webgpu(g) => g.wf(),
        }
    }

    /// The backend has bound to a presentation target and can serve frames.
    pub open spec fn spec_is_bound(&self) -> bool {
        match *self {
            DrawApi::FrameBuffer(s) => s.is_bound(),
            DrawApi::Webgpu(g) => g.config is Some,
        }
    }

    /// The backend state after the display capability arrives.
    pub open spec fn spec_display_api_ready(self, display: DisplayApi) -> DrawApi {
        match self {
            DrawApi::FrameBuffer(s) => DrawApi::FrameBuffer(s.spec_display_api_ready(display)),
            DrawApi::Webgpu(g) => DrawApi::Webgpu(g.spec_display_api_ready(display)),
        }
    }

    /// Notify the backend that its presentation target is known; it binds
    /// to the target and starts a fresh frame cycle. Never fails.
    pub fn display_api_ready(&mut self, display: &DisplayApi)
        requires
            old(self).wf(),
            display.area_fits(),
        ensures
            *final(self) == old(self).spec_display_api_ready(*display),
            final(self).wf(),
            final(self).spec_is_bound(),
    {
        match self {
            DrawApi::FrameBuffer(s) => s.display_api_ready(display),
            DrawApi::Webgpu(g) => g.display_api_ready(display),
        }
    }

    /// The handle of the frame lent out this cycle, if any.
    pub open spec fn spec_live(&self) -> Option<u32> {
        match *self {
            DrawApi::FrameBuffer(s) => if s.is_bound() {
                s.spec_bound()->0.live
            } else {
                None
            },
            DrawApi::Webgpu(g) => g.live,
        }
    }

    /// The backend with its live-frame record replaced.
    pub open spec fn spec_set_live(self, l: Option<u32>) -> DrawApi
        recommends
            self.spec_is_bound(),
    {
        match self {
            DrawApi::FrameBuffer(s) => DrawApi::FrameBuffer(
                (Surface { bound: Some((crate::surface::BoundSurface { live: l, ..s.bound->0 })) }),
            ),
            DrawApi::Webgpu(g) => DrawApi::Webgpu((GpuSurface { live: l, ..g })),
        }
    }

    /// Remember the table handle of the frame lent out this cycle.
    pub fn record_live(&mut self, handle: u32)
        requires
            old(self).spec_is_bound(),
        ensures
            *final(self) == old(self).spec_set_live(Some(handle)),
            final(self).wf() == old(self).wf(),
            final(self).spec_is_bound(),
    {
        match self {
            DrawApi::FrameBuffer(s) => s.set_live(handle),
            DrawApi::Webgpu(g) => g.live = Some(handle),
        }
    }

    /// End the cycle, yielding the handle of the outstanding frame, if any.
    pub fn take_live(&mut self) -> (r: Option<u32>)
        requires
            old(self).spec_is_bound(),
        ensures
            r == old(self).spec_live(),
            *final(self) == old(self).spec_set_live(None),
            final(self).wf() == old(self).wf(),
            final(self).spec_is_bound(),
    {
        match self {
            DrawApi::FrameBuffer(s) => s.take_live(),
            DrawApi::Webgpu(g) => {
                let l = g.live;
                g.live = None;
                l
            },
        }
    }
}

/// The configuration hook's descriptor. Reserved for future format and size
/// negotiation; every value a guest can construct is accepted.
#[derive(Clone, Copy, Debug, PartialEq, Eq, Structural)]
pub struct ConfigureContextDesc {
    /// A size hint, currently unused.
    pub desired_width: Option<u32>,
    /// A size hint, currently unused.
    pub desired_height: Option<u32>,
}

/// Which backend a context buffer came from.
#[derive(Clone, Copy, Debug, PartialEq, Eq, Structural)]
pub enum BufferKind {
    /// Produced by the software surface backend.
    FrameBuffer,
    /// Produced by the GPU backend.
    Webgpu,
}

/// A frame handed out by whichever backend is attached, behind one generic
/// surface. The two origins are not interchangeable: converting against the
/// wrong backend fails with [`GfxError::BackendMismatch`].
pub enum GraphicsContextBuffer {
    /// A software pixel buffer.
    FrameBuffer(FrameBuffer),
    /// A GPU-owned surface texture.
    Webgpu(SurfaceTexture),
}

impl GraphicsContextBuffer {
    pub open spec fn wf(&self) -> bool {
        match *self {
            GraphicsContextBuffer::FrameBuffer(fb) => fb.wf(),
            GraphicsContextBuffer::Webgpu(_) => true,
        }
    }

    /// Which backend the wrapped buffer came from.
    pub fn inner_type(&self) -> (k: BufferKind)
        ensures
            k == (match *self {
                GraphicsContextBuffer::FrameBuffer(_) => BufferKind::FrameBuffer,
                GraphicsContextBuffer::Webgpu(_) => BufferKind::Webgpu,
            }),
    {
        match self {
            GraphicsContextBuffer::FrameBuffer(_) => BufferKind::FrameBuffer,
            GraphicsContextBuffer::Webgpu(_) => BufferKind::Webgpu,
        }
    }

    /// Unwrap a software-origin buffer; a GPU-origin buffer is the wrong
    /// backend's and is returned untouched with `BackendMismatch`.
    pub fn into_frame_buffer(self) -> (r: Result<FrameBuffer, (GraphicsContextBuffer, GfxError)>)
        ensures
            match r {
                Ok(fb) => self == GraphicsContextBuffer::FrameBuffer(fb),
                Err((b, e)) => self is Webgpu && b == self && e == GfxError::BackendMismatch,
            },
    {
        match self {
            GraphicsContextBuffer::FrameBuffer(fb) => Ok(fb),
            GraphicsContextBuffer::Webgpu(t) => Err(
                (GraphicsContextBuffer::Webgpu(t), GfxError::BackendMismatch),
            ),
        }
    }

    /// Unwrap a GPU-origin buffer; a software-origin buffer is the wrong
    /// backend's and is returned untouched with `BackendMismatch`.
    pub fn into_texture(self) -> (r: Result<SurfaceTexture, (GraphicsContextBuffer, GfxError)>)
        ensures
            match r {
                Ok(t) => self == GraphicsContextBuffer::Webgpu(t),
                Err((b, e)) => self is FrameBuffer && b == self && e == GfxError::BackendMismatch,
            },
    {
        match self {
            GraphicsContextBuffer::Webgpu(t) => Ok(t),
            GraphicsContextBuffer::FrameBuffer(fb) => Err(
                (GraphicsContextBuffer::FrameBuffer(fb), GfxError::BackendMismatch),
            ),
        }
    }
}

/// The mediator: holds at most one draw backend and at most one display
/// capability, wires them together regardless of arrival order, and routes
/// frame traffic to whichever backend is attached.
pub struct GraphicsContext {
    pub draw_api: Option<DrawApi>,
    pub display_api: Option<DisplayApi>,
}

impl GraphicsContext {
    pub open spec fn wf(&self) -> bool {
        &&& (self.draw_api matches Some(d) ==> d.wf())
        &&& (self.display_api matches Some(d) ==> d.area_fits())
    }

    /// A backend is attached and bound, so frame calls can be served.
    pub open spec fn spec_can_draw(&self) -> bool {
        self.draw_api matches Some(d) && d.spec_is_bound()
    }

    /// The empty context.
    pub open spec fn spec_empty() -> GraphicsContext {
        GraphicsContext { draw_api: None, display_api: None }
    }

    /// Create an empty context: no backend, no display.
    pub fn new() -> (r: GraphicsContext)
        ensures
            r == GraphicsContext::spec_empty(),
            r.wf(),
    {
        GraphicsContext { draw_api: None, display_api: None }
    }

    /// The configuration hook. A reserved no-op: it succeeds for every
    /// descriptor and changes nothing.
    pub fn configure(&mut self, desc: ConfigureContextDesc) -> (r: Result<(), GfxError>)
        ensures
            r is Ok,
            *final(self) == *old(self),
    {
        let _ = desc;
        Ok(())
    }

    /// The context after a backend attaches: if a display is already there,
    /// the new backend is bound to it immediately.
    pub open spec fn spec_connect_draw_api(self, draw: DrawApi) -> GraphicsContext {
        GraphicsContext {
            draw_api: Some(
                match self.display_api {
                    Some(d) => draw.spec_display_api_ready(d),
                    None => draw,
                },
            ),
            display_api: self.display_api,
        }
    }

    /// The context after a display attaches: if a backend is already there,
    /// it is bound to the new display immediately.
    pub open spec fn spec_connect_display_api(self, display: DisplayApi) -> GraphicsContext {
        GraphicsContext {
            draw_api: match self.draw_api {
                Some(d) => Some(d.spec_display_api_ready(display)),
                None => None,
            },
            display_api: Some(display),
        }
    }

    /// Attach (or replace) the draw backend. If a display is already
    /// attached, the backend's ready notification fires before this call
    /// returns, so frame calls route to the new backend at once.
    pub fn connect_draw_api(&mut self, draw: DrawApi)
        requires
            old(self).wf(),
            draw.wf(),
        ensures
            *final(self) == old(self).spec_connect_draw_api(draw),
            final(self).wf(),
    {
        let mut draw = draw;
        match &self.display_api {
            Some(display) => {
                draw.display_api_ready(display);
            },
            None => {},
        }
        self.draw_api = Some(draw);
    }

    /// Attach (or replace) the display capability. If a backend is already
    /// attached, its ready notification fires before this call returns —
    /// symmetric with `connect_draw_api`, so attachment order is not
    /// observable.
    pub fn connect_display_api(&mut self, display: DisplayApi)
        requires
            old(self).wf(),
            display.area_fits(),
        ensures
            *final(self) == old(self).spec_connect_display_api(display),
            final(self).wf(),
    {
        match &mut self.draw_api {
            Some(draw) => {
                draw.display_api_ready(&display);
            },
            None => {},
        }
        self.display_api = Some(display);
    }

    /// Borrow the next frame from the attached backend.
    ///
    /// Fails with `BackendNotAttached` exactly when no bound backend is
    /// attached; otherwise yields a fresh zeroed software frame covering the
    /// surface, or a surface texture under the negotiated configuration.
    pub fn get_current_buffer(&mut self) -> (r: Result<GraphicsContextBuffer, GfxError>)
        requires
            old(self).wf(),
        ensures
            *final(self) == *old(self),
            match r {
                Ok(b) => {
                    &&& old(self).spec_can_draw()
                    &&& b.wf()
                    &&& match old(self).draw_api->0 {
                        DrawApi::FrameBuffer(s) => b matches GraphicsContextBuffer::FrameBuffer(fb)
                            && fb.is_live() && fb.spec_pixels() == Seq::new(
                            (s.spec_bound()->0.width * s.spec_bound()->0.height) as nat,
                            |i: int| 0u32,
                        ),
                        DrawApi::Webgpu(g) => b == GraphicsContextBuffer::Webgpu(
                            (SurfaceTexture {
                                width: g.config->0.width,
                                height: g.config->0.height,
                                format: g.config->0.format,
                            }),
                        ),
                    }
                },
                Err(e) => !old(self).spec_can_draw() && e == GfxError::BackendNotAttached,
            },
    {
        match &mut self.draw_api {
            Some(DrawApi::FrameBuffer(s)) => {
                if s.is_bound_exec() {
                    let fb = s.buffer_mut();
                    Ok(GraphicsContextBuffer::FrameBuffer(fb))
                } else {
                    Err(GfxError::BackendNotAttached)
                }
            },
            Some(DrawApi::Webgpu(g)) => {
                match &g.config {
                    Some(c) => Ok(
                        GraphicsContextBuffer::Webgpu(
                            SurfaceTexture { width: c.width, height: c.height, format: c.format },
                        ),
                    ),
                    None => Err(GfxError::BackendNotAttached),
                }
            },
            None => Err(GfxError::BackendNotAttached),
        }
    }
}

impl GraphicsContext {
    /// Whether a bound backend is attached, decidable at run time.
    pub fn can_draw(&self) -> (r: bool)
        ensures
            r == self.spec_can_draw(),
    {
        match &self.draw_api {
            Some(DrawApi::FrameBuffer(s)) => s.is_bound_exec(),
            Some(DrawApi::Webgpu(g)) => match &g.config {
                Some(_) => true,
                None => false,
            },
            None => false,
        }
    }

    /// The handle of the frame the attached backend lent out this cycle.
    pub fn live_handle(&self) -> (r: Option<u32>)
        ensures
            r == (match self.draw_api {
                Some(d) => d.spec_live(),
                None => None::<u32>,
            }),
    {
        match &self.draw_api {
            Some(DrawApi::FrameBuffer(s)) => match &s.bound {
                Some(b) => b.live,
                None => None,
            },
            Some(DrawApi::Webgpu(g)) => g.live,
            None => None,
        }
    }

    /// The context with the attached backend's live-frame record replaced.
    pub open spec fn spec_record_live(self, l: Option<u32>) -> GraphicsContext
        recommends
            self.spec_can_draw(),
    {
        GraphicsContext {
            draw_api: Some(self.draw_api->0.spec_set_live(l)),
            display_api: self.display_api,
        }
    }

    /// Remember the table handle of the frame lent out this cycle.
    pub fn record_live(&mut self, handle: u32)
        requires
            old(self).spec_can_draw(),
        ensures
            *final(self) == old(self).spec_record_live(Some(handle)),
            final(self).wf() == old(self).wf(),
            final(self).spec_can_draw(),
    {
        match &mut self.draw_api {
            Some(d) => d.record_live(handle),
            None => {},
        }
    }

    /// End the cycle, yielding the handle of the outstanding frame, if any.
    pub fn take_live(&mut self) -> (r: Option<u32>)
        requires
            old(self).spec_can_draw(),
        ensures
            r == old(self).draw_api->0.spec_live(),
            *final(self) == old(self).spec_record_live(None),
            final(self).wf() == old(self).wf(),
            final(self).spec_can_draw(),
    {
        match &mut self.draw_api {
            Some(d) => d.take_live(),
            None => None,
        }
    }
}

/// Attachment order is not observable: starting from an empty context,
/// connecting the draw backend and then the display yields exactly the same
/// context as the reverse order, and in that context frame calls are served
/// (the backend is attached and bound).
pub proof fn lemma_connect_order_symmetric(draw: DrawApi, display: DisplayApi)
    ensures
        GraphicsContext::spec_empty().spec_connect_draw_api(draw).spec_connect_display_api(display)
            == GraphicsContext::spec_empty().spec_connect_display_api(display).spec_connect_draw_api(
            draw,
        ),
        GraphicsContext::spec_empty().spec_connect_draw_api(draw).spec_connect_display_api(
            display,
        ).spec_can_draw(),
{
}

} // verus!
