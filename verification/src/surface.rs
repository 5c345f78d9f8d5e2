//! The software draw backend: a resizeable surface that lends out
//! software-rendered pixel buffers.

use vstd::prelude::*;

use crate::display::{spec_clamp_dim, clamp_dim, DisplayApi};
use crate::frame_buffer::FrameBuffer;

verus! {

/// The bound half of the surface state machine.
///
/// `width` and `height` are the size the next acquired frame will have; a
/// resize arriving between an acquire and a present only changes these, so
/// the in-flight frame is never corrupted. `live` remembers the handle of
/// the frame buffer lent out this cycle, if any.
#[derive(Clone, Copy, Debug, PartialEq, Eq, Structural)]
pub struct BoundSurface {
    pub width: u32,
    pub height: u32,
    pub live: Option<u32>,
}

/// A software presentation surface.
///
/// It starts unbound; `display_api_ready` binds it to a presentation target,
/// clamping each dimension to at least one so a zero-sized window never
/// fails the bind.
pub struct Surface {
    pub bound: Option<BoundSurface>,
}

/// Fill a vector with `n` zero words.
pub fn zero_vec(n: usize) -> (r: Vec<u32>)
    ensures
        r@ == Seq::new(n as nat, |i: int| 0u32),
{
    let mut r: Vec<u32> = Vec::new();
    let mut k: usize = 0;
    while k < n
        invariant
            k <= n,
            r@ == Seq::new(k as nat, |i: int| 0u32),
        decreases n - k,
    {
        r.push(0);
        k = k + 1;
        proof {
            assert(r@ =~= Seq::new(k as nat, |i: int| 0u32));
        }
    }
    r
}

impl Surface {
    /// The bound state, `None` while unbound.
    pub open spec fn spec_bound(&self) -> Option<BoundSurface> {
        self.bound
    }

    /// The surface has been bound to a presentation target.
    pub open spec fn is_bound(&self) -> bool {
        self.spec_bound() is Some
    }

    /// Dimensions are clamped and the frame area fits a 32-bit word offset.
    pub open spec fn wf(&self) -> bool {
        self.spec_bound() matches Some(b) ==> {
            &&& 1 <= b.width
            &&& 1 <= b.height
            &&& b.width * b.height <= u32::MAX
        }
    }

    /// Whether the surface has been bound to a presentation target.
    pub fn is_bound_exec(&self) -> (r: bool)
        ensures
            r == self.is_bound(),
    {
        match &self.bound {
            Some(_) => true,
            None => false,
        }
    }

    /// A fresh, unbound surface.
    pub fn new() -> (r: Surface)
        ensures
            r.spec_bound() is None,
            r.wf(),
    {
        Surface { bound: None }
    }

    /// The bound state after attaching to `display`: clamped size, new cycle.
    pub open spec fn spec_display_api_ready(self, display: DisplayApi) -> Surface {
        Surface {
            bound: Some(
                BoundSurface {
                    width: spec_clamp_dim(display.spec_width()),
                    height: spec_clamp_dim(display.spec_height()),
                    live: None,
                },
            ),
        }
    }

    /// Bind to a presentation target.
    ///
    /// Sizes the surface to `max(1, width) x max(1, height)`; binding never
    /// fails. Rebinding starts a new frame cycle.
    pub fn display_api_ready(&mut self, display: &DisplayApi)
        requires
            display.area_fits(),
        ensures
            *final(self) == old(self).spec_display_api_ready(*display),
            final(self).wf(),
            final(self).is_bound(),
    {
        let w = clamp_dim(display.width());
        let h = clamp_dim(display.height());
        self.bound = Some(BoundSurface { width: w, height: h, live: None });
    }

    /// Apply a resize request from the window layer.
    ///
    /// Takes effect at the next acquire; an in-flight frame keeps its size.
    /// The bounds mirror the platform surface's demands: non-zero
    /// dimensions whose product fits a 32-bit word offset.
    pub fn resize(&mut self, width: u32, height: u32)
        requires
            old(self).is_bound(),
            1 <= width,
            1 <= height,
            width * height <= u32::MAX,
        ensures
            final(self).wf(),
            final(self).spec_bound() == Some(
                (BoundSurface { width, height, live: old(self).spec_bound()->0.live }),
            ),
    {
        let live = match &self.bound {
            Some(b) => b.live,
            None => None,
        };
        self.bound = Some(BoundSurface { width, height, live });
    }

    /// Lend out this cycle's pixel buffer: a zeroed frame covering the
    /// current size, one 32-bit word per pixel.
    pub fn buffer_mut(&mut self) -> (r: FrameBuffer)
        requires
            old(self).is_bound(),
            old(self).wf(),
        ensures
            *final(self) == *old(self),
            r.wf(),
            r.is_live(),
            r.spec_pixels() == Seq::new(
                (old(self).spec_bound()->0.width * old(self).spec_bound()->0.height) as nat,
                |i: int| 0u32,
            ),
    {
        let (w, h) = match &self.bound {
            Some(b) => (b.width, b.height),
            None => (1, 1),
        };
        let pixels = zero_vec((w as usize) * (h as usize));
        FrameBuffer::new(pixels)
    }

    /// Record the table handle of the frame lent out this cycle.
    pub fn set_live(&mut self, handle: u32)
        requires
            old(self).is_bound(),
        ensures
            final(self).spec_bound() == Some(
                (BoundSurface { live: Some(handle), ..old(self).spec_bound()->0 }),
            ),
            final(self).wf() == old(self).wf(),
    {
        let (w, h) = match &self.bound {
            Some(b) => (b.width, b.height),
            None => (1, 1),
        };
        self.bound = Some(BoundSurface { width: w, height: h, live: Some(handle) });
    }

    /// End the cycle, yielding the handle of the outstanding frame, if any.
    pub fn take_live(&mut self) -> (r: Option<u32>)
        requires
            old(self).is_bound(),
        ensures
            r == old(self).spec_bound()->0.live,
            final(self).spec_bound() == Some(
                (BoundSurface { live: None, ..old(self).spec_bound()->0 }),
            ),
            final(self).wf() == old(self).wf(),
    {
        let (w, h, live) = match &self.bound {
            Some(b) => (b.width, b.height, b.live),
            None => (1, 1, None),
        };
        self.bound = Some(BoundSurface { width: w, height: h, live: None });
        live
    }
}

} // verus!
