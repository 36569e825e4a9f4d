//! One image-load tracker.
//!
//! A tracker follows one image resource owned by the host's asset subsystem,
//! named by an opaque identifier. It starts pending and becomes loaded the
//! first time a completion notification carrying its own identifier arrives;
//! it never leaves the loaded state. The same identifier may legitimately be
//! shared by several trackers (placeholder configurations alias one
//! resource), so matching is a plain identity comparison with no side effect
//! beyond the pending-to-loaded transition.

use vstd::prelude::*;

verus! {

/// Opaque identifier of an image resource owned by the host's asset
/// subsystem. The tracker only ever compares identifiers for equality.
pub type ImageHandle = u128;

/// The loading state of one image resource: its handle and whether a
/// matching completion notification has arrived.
#[derive(Clone, Copy, Debug, PartialEq, Eq, Structural)]
pub struct LoadingImage {
    pub handle: ImageHandle,
    pub loaded: bool,
}

impl LoadingImage {
    /// A fresh tracker for a just-requested load: pending.
    pub fn new(handle: ImageHandle) -> (r: LoadingImage)
        ensures
            r.handle == handle,
            !r.loaded,
    {
        LoadingImage { handle, loaded: false }
    }

    /// Delivers one completion notification. Reports whether it matched this
    /// tracker's handle; on a match the tracker is loaded from now on, and a
    /// non-match changes nothing.
    pub fn notify(&mut self, completed_id: ImageHandle) -> (matched: bool)
        ensures
            matched == (old(self).handle == completed_id),
            final(self).handle == old(self).handle,
            final(self).loaded == (old(self).loaded || matched),
    {
        if completed_id == self.handle {
            self.loaded = true;
            true
        } else {
            false
        }
    }
}

} // verus!
