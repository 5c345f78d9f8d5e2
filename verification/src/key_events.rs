//! Key-event listeners: each retains only the most recent unread event.
//!
//! The window layer publishes events on a broadcast stream outside this
//! core; the host hands each received event to the listener it belongs to.
//! Events are dropped, not queued: a listener that does not poll in time
//! loses older events, which is intentional for frame-paced guests.

use vstd::prelude::*;

verus! {

/// One key event as the window layer reports it.
#[derive(Clone, Copy, Debug, PartialEq, Eq, Structural)]
pub struct KeyEvent {
    /// The platform's token for the key.
    pub code: u32,
    /// Whether a modifier was held.
    pub modifier: bool,
}

/// A listener for key releases, retaining the latest unread event.
pub struct KeyUpListener {
    pub latest: Option<KeyEvent>,
}

impl KeyUpListener {
    /// A fresh listener with nothing pending.
    pub fn new() -> (r: KeyUpListener)
        ensures
            r.latest is None,
    {
        KeyUpListener { latest: None }
    }

    /// Store a newly received event, replacing any unread one.
    pub fn ready(&mut self, event: KeyEvent)
        ensures
            final(self).latest == Some(event),
    {
        self.latest = Some(event);
    }

    /// Hand over the latest unread event, leaving the slot empty.
    pub fn get(&mut self) -> (r: Option<KeyEvent>)
        ensures
            r == old(self).latest,
            final(self).latest is None,
    {
        self.latest.take()
    }
}

/// A listener for key presses, retaining the latest unread event.
pub struct KeyDownListener {
    pub latest: Option<KeyEvent>,
}

impl KeyDownListener {
    /// A fresh listener with nothing pending.
    pub fn new() -> (r: KeyDownListener)
        ensures
            r.latest is None,
    {
        KeyDownListener { latest: None }
    }

    /// Store a newly received event, replacing any unread one.
    pub fn ready(&mut self, event: KeyEvent)
        ensures
            final(self).latest == Some(event),
    {
        self.latest = Some(event);
    }

    /// Hand over the latest unread event, leaving the slot empty.
    pub fn get(&mut self) -> (r: Option<KeyEvent>)
        ensures
            r == old(self).latest,
            final(self).latest is None,
    {
        self.latest.take()
    }
}

} // verus!
