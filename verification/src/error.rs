//! Error kinds shared by every guest-facing operation.

use vstd::prelude::*;

verus! {

/// A local, recoverable failure surfaced to the guest as a call result.
///
/// These are the only failure kinds the core reports; none of them aborts
/// the host.
#[derive(Clone, Copy, Debug, PartialEq, Eq, Structural)]
pub enum GfxError {
    /// A handle that is stale, foreign, or was never issued.
    HandleNotFound,
    /// A table entry resolved to a different kind of host object than the
    /// caller expected.
    TypeMismatch,
    /// A context operation arrived before a draw backend (or its display)
    /// was wired up.
    BackendNotAttached,
    /// A buffer was converted with the wrong backend's conversion.
    BackendMismatch,
    /// A pixel access past the end of a frame buffer.
    IndexOutOfRange,
    /// Use of a buffer or render pass after its release.
    AlreadyReleased,
}

} // verus!
