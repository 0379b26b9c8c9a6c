//! Surface-size coordination.
//!
//! The decode pipeline's requested output size and the presentation
//! surface's allocation must change together.  The caller performs both
//! outside operations for a size that differs from the current one and
//! reports their combined outcome; the coordinator commits the descriptor
//! only on success, so a later render never observes a half-updated size.

use vstd::prelude::*;

verus! {

/// Pixel dimensions of the target surface.
#[derive(Clone, Copy, PartialEq, Eq, Structural, Debug)]
pub struct SurfaceDescriptor {
    pub width: u32,
    pub height: u32,
}

/// A rejected resize.
#[derive(Debug)]
pub enum ResizeError {
    /// The presentation backend or the decode pipeline refused the size
    /// (for instance a zero width or height at the moment of a minimize);
    /// the description is the backend's.
    Rejected(String),
    /// The update forced after a committed resize surfaced a playback
    /// failure.
    Playback(crate::playback::PlaybackError),
}

/// The descriptor after a resize request: unchanged when the request
/// repeats the current size or when the outside work failed, the new size
/// when it succeeded.
pub open spec fn resize_spec(
    cur: SurfaceDescriptor,
    new: SurfaceDescriptor,
    applied: bool,
) -> SurfaceDescriptor {
    if new == cur {
        cur
    } else if applied {
        new
    } else {
        cur
    }
}

/// Serializes updates to the target surface dimensions.  It exclusively owns
/// the descriptor: the decode pipeline's output size and the presentation
/// allocation are changed only through it, in request order.
pub struct SurfaceSizeCoordinator {
    current: SurfaceDescriptor,
}

impl View for SurfaceSizeCoordinator {
    type V = SurfaceDescriptor;

    closed spec fn view(&self) -> SurfaceDescriptor {
        self.current
    }
}

impl SurfaceSizeCoordinator {
    /// A coordinator holding the initial surface size.
    pub fn new(initial: SurfaceDescriptor) -> (r: SurfaceSizeCoordinator)
        ensures
            r@ == initial,
    {
        SurfaceSizeCoordinator { current: initial }
    }

    /// The last consistently applied size.
    pub fn size(&self) -> (r: SurfaceDescriptor)
        ensures
            r == self@,
    {
        self.current
    }

    /// Applies a resize request whose outside work (pipeline caps and
    /// presentation allocation together) ended with `outcome`.  Repeating
    /// the current size is a no-op that always succeeds; otherwise the
    /// descriptor moves to `new` exactly when the outside work succeeded,
    /// and a failure is surfaced with the descriptor left at its
    /// last-known-consistent value — never partially applied.
    pub fn apply(&mut self, new: SurfaceDescriptor, outcome: Result<(), String>) -> (r: Result<
        (),
        ResizeError,
    >)
        ensures
            final(self)@ == resize_spec(old(self)@, new, outcome is Ok),
            new == old(self)@ ==> r is Ok && final(self)@ == old(self)@,
            new != old(self)@ && outcome is Ok ==> r is Ok && final(self)@ == new,
            new != old(self)@ ==> (outcome matches Err(m) ==> (final(self)@ == old(self)@
                && (r matches Err(ResizeError::Rejected(c)) && c@ == m@))),
    {
        if new == self.current {
            return Ok(());
        }
        match outcome {
            Ok(()) => {
                self.current = new;
                Ok(())
            },
            Err(m) => Err(ResizeError::Rejected(m)),
        }
    }
}

/// Resizing twice to one size is idempotent: once a resize to `s` has been
/// applied, a second request for `s` changes nothing, whatever the outside
/// outcome reported for it.
pub proof fn lemma_resize_idempotent(cur: SurfaceDescriptor, s: SurfaceDescriptor, applied2: bool)
    ensures
        resize_spec(resize_spec(cur, s, true), s, applied2) == resize_spec(cur, s, true),
{
}

} // verus!
