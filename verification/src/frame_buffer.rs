//! The erased frame buffer: one frame's worth of 32-bit pixel words, borrowed
//! from a backend and exposed to the guest behind a generic handle.

use vstd::prelude::*;

use crate::error::GfxError;

verus! {

/// A mutable pixel buffer that a backend lends to the guest for one frame.
///
/// The slot is never empty while the buffer is live; `release` empties it,
/// after which every access fails with [`GfxError::AlreadyReleased`].
/// Indexing is by 32-bit pixel word; out-of-range access fails with
/// [`GfxError::IndexOutOfRange`] rather than clamping.
pub struct FrameBuffer {
    pixels: Option<Vec<u32>>,
}

impl FrameBuffer {
    /// The buffer still holds its pixels; `release` has not been called.
    pub closed spec fn is_live(&self) -> bool {
        self.pixels is Some
    }

    /// The pixel words, meaningful only while the buffer is live.
    pub closed spec fn spec_pixels(&self) -> Seq<u32>
        recommends
            self.is_live(),
    {
        self.pixels->0@
    }

    /// The element count fits the 32-bit length the guest interface reports.
    pub closed spec fn wf(&self) -> bool {
        self.is_live() ==> self.spec_pixels().len() <= u32::MAX
    }

    /// Wrap one frame's pixels in a live buffer.
    pub fn new(pixels: Vec<u32>) -> (r: FrameBuffer)
        requires
            pixels@.len() <= u32::MAX,
        ensures
            r.wf(),
            r.is_live(),
            r.spec_pixels() == pixels@,
    {
        FrameBuffer { pixels: Some(pixels) }
    }

    /// Whether the buffer still holds its pixels, decidable at run time.
    pub fn is_live_exec(&self) -> (r: bool)
        ensures
            r == self.is_live(),
    {
        match &self.pixels {
            Some(_) => true,
            None => false,
        }
    }

    /// The element count, or `AlreadyReleased` once the slot is empty.
    pub fn length(&self) -> (r: Result<u32, GfxError>)
        requires
            self.wf(),
        ensures
            match r {
                Ok(n) => self.is_live() && n == self.spec_pixels().len(),
                Err(e) => !self.is_live() && e == GfxError::AlreadyReleased,
            },
    {
        match &self.pixels {
            Some(p) => Ok(p.len() as u32),
            None => Err(GfxError::AlreadyReleased),
        }
    }

    /// Read the pixel word at `i`.
    ///
    /// Fails with `AlreadyReleased` once released, and with `IndexOutOfRange`
    /// for every `i >= length()`.
    pub fn get(&self, i: u32) -> (r: Result<u32, GfxError>)
        requires
            self.wf(),
        ensures
            match r {
                Ok(v) => self.is_live() && i < self.spec_pixels().len() && v == self.spec_pixels()[i as int],
                Err(e) => if !self.is_live() {
                    e == GfxError::AlreadyReleased
                } else {
                    i >= self.spec_pixels().len() && e == GfxError::IndexOutOfRange
                },
            },
    {
        match &self.pixels {
            Some(p) => {
                if (i as usize) < p.len() {
                    Ok(p[i as usize])
                } else {
                    Err(GfxError::IndexOutOfRange)
                }
            },
            None => Err(GfxError::AlreadyReleased),
        }
    }

    /// Write `v` at `i`.
    ///
    /// On success only the word at `i` changes; on failure the buffer is
    /// untouched, with the same failure kinds as `get`.
    pub fn set(&mut self, i: u32, v: u32) -> (r: Result<(), GfxError>)
        requires
            old(self).wf(),
        ensures
            final(self).wf(),
            match r {
                Ok(()) => {
                    &&& old(self).is_live()
                    &&& i < old(self).spec_pixels().len()
                    &&& final(self).is_live()
                    &&& final(self).spec_pixels() == old(self).spec_pixels().update(i as int, v)
                },
                Err(e) => {
                    &&& *final(self) == *old(self)
                    &&& if !old(self).is_live() {
                        e == GfxError::AlreadyReleased
                    } else {
                        i >= old(self).spec_pixels().len() && e == GfxError::IndexOutOfRange
                    }
                },
            },
    {
        match &mut self.pixels {
            Some(p) => {
                if (i as usize) < p.len() {
                    p.set(i as usize, v);
                    Ok(())
                } else {
                    Err(GfxError::IndexOutOfRange)
                }
            },
            None => Err(GfxError::AlreadyReleased),
        }
    }

    /// Empty the slot and hand its pixels over — what a flush sends to the
    /// screen. Yields `None`, changing nothing, once already released.
    pub fn take_pixels(&mut self) -> (r: Option<Vec<u32>>)
        requires
            old(self).wf(),
        ensures
            final(self).wf(),
            !final(self).is_live(),
            match r {
                Some(p) => old(self).is_live() && p@ == old(self).spec_pixels(),
                None => !old(self).is_live() && *final(self) == *old(self),
            },
    {
        self.pixels.take()
    }

    /// Empty the slot, ending the guest's access.
    ///
    /// Releasing an already-released buffer is safe: it reports
    /// `AlreadyReleased` and changes nothing, so a double release never
    /// aborts the host.
    pub fn release(&mut self) -> (r: Result<(), GfxError>)
        requires
            old(self).wf(),
        ensures
            final(self).wf(),
            !final(self).is_live(),
            match r {
                Ok(()) => old(self).is_live(),
                Err(e) => {
                    &&& !old(self).is_live()
                    &&& e == GfxError::AlreadyReleased
                    &&& *final(self) == *old(self)
                },
            },
    {
        match self.pixels.take() {
            Some(_) => Ok(()),
            None => Err(GfxError::AlreadyReleased),
        }
    }
}

/// The round trip of one frame: writing `v` at `i` (which, by `set`'s
/// contract, updates exactly that word) leaves a buffer whose word at `i`
/// reads back as `v` — what `get(i)` then returns — and every other word
/// unchanged. Once a buffer is released, `get`, `set` and `length` all fail
/// with `AlreadyReleased` by their contracts, so the round trip holds
/// precisely until an intervening release.
pub proof fn lemma_set_get_round_trip(pre: FrameBuffer, post: FrameBuffer, i: u32, v: u32)
    requires
        pre.is_live(),
        post.is_live(),
        i < pre.spec_pixels().len(),
        post.spec_pixels() == pre.spec_pixels().update(i as int, v),
    ensures
        post.spec_pixels()[i as int] == v,
        post.spec_pixels().len() == pre.spec_pixels().len(),
        forall|j: int|
            0 <= j < pre.spec_pixels().len() && j != i ==> post.spec_pixels()[j]
                == pre.spec_pixels()[j],
{
}

} // verus!
