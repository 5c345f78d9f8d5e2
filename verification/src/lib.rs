//! A backend-agnostic graphics mediation layer for guest programs that draw
//! pixels through opaque, resource-tracked handles.
//!
//! The crate models the host side of a guest-facing drawing interface:
//! a [`context::GraphicsContext`] wires a display capability and a draw
//! backend together in either order; a software backend hands out frame
//! buffers of 32-bit pixel words; a GPU backend negotiates a presentation
//! configuration and records render passes; and a resource table maps
//! guest-visible integer handles to host objects, with parent links and a
//! batched multi-entry lookup.
//!
//! Platform work (binding a real window surface, driving a GPU) is the
//! collaborators' job: callers perform it outside and feed the results in as
//! plain values, so everything here is verified.

pub mod context;
pub mod display;
pub mod error;
pub mod frame_buffer;
pub mod gpu;
pub mod host;
pub mod key_events;
pub mod surface;
pub mod table;
