//! The display capability: a read-only description of a presentation target.

use vstd::prelude::*;

verus! {

/// An opaque platform token naming a display connection.
#[derive(Clone, Copy, Debug, PartialEq, Eq, Structural)]
pub struct DisplayHandle {
    token: u64,
}

impl DisplayHandle {
    /// Wrap a platform display token.
    pub fn new(token: u64) -> (r: DisplayHandle)
        ensures
            r.get_spec() == token,
    {
        DisplayHandle { token }
    }

    /// The raw platform token.
    pub closed spec fn get_spec(&self) -> u64 {
        self.token
    }

    /// The raw platform token.
    pub fn get(self) -> (r: u64)
        ensures
            r == self.get_spec(),
    {
        self.token
    }
}

/// An opaque platform token naming a window or surface.
#[derive(Clone, Copy, Debug, PartialEq, Eq, Structural)]
pub struct WindowHandle {
    token: u64,
}

impl WindowHandle {
    /// Wrap a platform window token.
    pub fn new(token: u64) -> (r: WindowHandle)
        ensures
            r.get_spec() == token,
    {
        WindowHandle { token }
    }

    /// The raw platform token.
    pub closed spec fn get_spec(&self) -> u64 {
        self.token
    }

    /// The raw platform token.
    pub fn get(self) -> (r: u64)
        ensures
            r == self.get_spec(),
    {
        self.token
    }
}

/// A presentation target: its size and the two platform tokens a backend
/// needs to attach to the physical surface.
///
/// The window layer supplies these values; the core only reads them.
#[derive(Clone, Copy, Debug, PartialEq, Eq, Structural)]
pub struct DisplayApi {
    width: u32,
    height: u32,
    display: DisplayHandle,
    window: WindowHandle,
}

/// A dimension clamped to at least one, so zero-sized windows still bind.
pub open spec fn spec_clamp_dim(x: u32) -> u32 {
    if x == 0 {
        1
    } else {
        x
    }
}

/// Exec counterpart of [`spec_clamp_dim`].
pub fn clamp_dim(x: u32) -> (r: u32)
    ensures
        r == spec_clamp_dim(x),
{
    if x == 0 {
        1
    } else {
        x
    }
}

impl DisplayApi {
    /// The clamped pixel area fits the 32-bit length the frame-buffer
    /// interface reports.
    pub open spec fn area_fits(&self) -> bool {
        spec_clamp_dim(self.spec_width()) * spec_clamp_dim(self.spec_height()) <= u32::MAX
    }

    /// Describe a presentation target.
    ///
    /// The area bound is a machine limit: a software frame covering the
    /// target must index with a 32-bit word offset.
    pub fn new(width: u32, height: u32, display: DisplayHandle, window: WindowHandle) -> (r:
        DisplayApi)
        requires
            spec_clamp_dim(width) * spec_clamp_dim(height) <= u32::MAX,
        ensures
            r.spec_width() == width,
            r.spec_height() == height,
            r.spec_display_handle() == display,
            r.spec_window_handle() == window,
            r.area_fits(),
    {
        DisplayApi { width, height, display, window }
    }

    pub closed spec fn spec_width(&self) -> u32 {
        self.width
    }

    pub closed spec fn spec_height(&self) -> u32 {
        self.height
    }

    pub closed spec fn spec_display_handle(&self) -> DisplayHandle {
        self.display
    }

    pub closed spec fn spec_window_handle(&self) -> WindowHandle {
        self.window
    }

    /// The target's width in pixels.
    pub fn width(&self) -> (r: u32)
        ensures
            r == self.spec_width(),
    {
        self.width
    }

    /// The target's height in pixels.
    pub fn height(&self) -> (r: u32)
        ensures
            r == self.spec_height(),
    {
        self.height
    }

    /// The platform display token.
    pub fn display_handle(&self) -> (r: DisplayHandle)
        ensures
            r == self.spec_display_handle(),
    {
        self.display
    }

    /// The platform window token.
    pub fn window_handle(&self) -> (r: WindowHandle)
        ensures
            r == self.spec_window_handle(),
    {
        self.window
    }
}

} // verus!
