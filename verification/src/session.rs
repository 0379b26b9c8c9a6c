//! A currently playing, loop-aware, resizable video source that can be asked
//! to update and to render into an external byte buffer.
//!
//! [`VideoSession`] composes the frame bridge, the playback controller and
//! the surface-size coordinator.  The caller feeds it what the outside world
//! produced — bus messages, decoded frames, rewind and resize outcomes — and
//! drives it through [`VideoSession::update`] and [`VideoSession::render`].

use vstd::prelude::*;

use crate::frame_bridge::BridgeView;
use crate::frame_bridge::FrameBridge;
use crate::playback::BusMessage;
use crate::playback::ControllerView;
use crate::playback::ErrorView;
use crate::playback::MessageView;
use crate::playback::PlaybackController;
use crate::playback::PlaybackError;
use crate::playback::StateView;
use crate::playback::owed_rewinds;
use crate::playback::pump;
use crate::surface::ResizeError;
use crate::surface::SurfaceDescriptor;
use crate::surface::SurfaceSizeCoordinator;

verus! {

/// Mathematical view of a [`VideoSession`].
pub struct SessionView {
    /// The frame hand-off slot.
    pub bridge: BridgeView,
    /// Playback state and repeat policy.
    pub ctrl: ControllerView,
    /// The last consistently applied surface size.
    pub size: SurfaceDescriptor,
    /// Bus messages received from the engine and not yet drained, oldest
    /// first.
    pub inbox: Seq<MessageView>,
}

/// One playing video source: frame bridge, playback controller, surface-size
/// coordinator, and the not-yet-drained bus messages.
pub struct VideoSession {
    bridge: FrameBridge,
    ctrl: PlaybackController,
    coord: SurfaceSizeCoordinator,
    inbox: Vec<BusMessage>,
}

impl View for VideoSession {
    type V = SessionView;

    closed spec fn view(&self) -> SessionView {
        SessionView {
            bridge: self.bridge@,
            ctrl: self.ctrl@,
            size: self.coord@,
            inbox: self.inbox@.map_values(|m: BusMessage| m@),
        }
    }
}

impl VideoSession {
    /// A fresh session: playing, no frame pending, no messages queued.
    pub fn new(initial: SurfaceDescriptor, repeat: bool) -> (r: VideoSession)
        ensures
            r@.bridge.latest is None,
            !r@.bridge.dirty,
            r@.ctrl.state is Playing,
            r@.ctrl.repeat == repeat,
            r@.size == initial,
            r@.inbox.len() == 0,
    {
        VideoSession {
            bridge: FrameBridge::new(),
            ctrl: PlaybackController::new(repeat),
            coord: SurfaceSizeCoordinator::new(initial),
            inbox: Vec::new(),
        }
    }

    /// Queues one message fetched from the engine's bus; the next update
    /// drains it.
    pub fn push_message(&mut self, m: BusMessage)
        ensures
            final(self)@.inbox == old(self)@.inbox.push(m@),
            final(self)@.bridge == old(self)@.bridge,
            final(self)@.ctrl == old(self)@.ctrl,
            final(self)@.size == old(self)@.size,
    {
        self.inbox.push(m);
    }

    /// Accepts a decoded frame from the engine's sample callback: it
    /// replaces any unconsumed one and marks the bridge dirty.
    pub fn store_frame(&mut self, frame: Vec<u8>)
        ensures
            final(self)@.bridge == old(self)@.bridge.store_spec(frame@),
            final(self)@.ctrl == old(self)@.ctrl,
            final(self)@.size == old(self)@.size,
            final(self)@.inbox == old(self)@.inbox,
    {
        self.bridge.store(frame);
    }

    /// Drains every queued bus message and applies the playback transitions
    /// they call for.  This is the only place playback state transitions
    /// occur, apart from the rewind outcome report.  Returns the fatal cause
    /// exactly when playback ends (or already stood) in the `Error` state.
    pub fn update(&mut self) -> (r: Result<(), PlaybackError>)
        ensures
            final(self)@.ctrl == pump(old(self)@.ctrl, old(self)@.inbox),
            final(self)@.inbox.len() == 0,
            final(self)@.bridge == old(self)@.bridge,
            final(self)@.size == old(self)@.size,
            r is Err <==> final(self)@.ctrl.state is Error,
            r matches Err(e) ==> (final(self)@.ctrl.state matches StateView::Error(c)
                && e@ == ErrorView::Fatal(c)),
    {
        let r = self.ctrl.pump_events(&self.inbox);
        self.inbox = Vec::new();
        r
    }

    /// Reports the outcome of one flushing seek performed for an owed
    /// rewind: success settles one, resuming play once none is left;
    /// failure is fatal.
    pub fn rewind_completed(&mut self, outcome: Result<(), String>) -> (r: Result<
        (),
        PlaybackError,
    >)
        requires
            old(self)@.ctrl.state is PendingRewind,
        ensures
            final(self)@.ctrl.repeat == old(self)@.ctrl.repeat,
            outcome is Ok ==> (r is Ok && (if owed_rewinds(old(self)@.ctrl) <= 1 {
                final(self)@.ctrl.state is Playing
            } else {
                final(self)@.ctrl.state == StateView::PendingRewind(
                    (owed_rewinds(old(self)@.ctrl) - 1) as nat,
                )
            })),
            outcome matches Err(m) ==> (final(self)@.ctrl.state == StateView::Error(m@)
                && (r matches Err(e) && e@ == ErrorView::RewindFailed(m@))),
            final(self)@.bridge == old(self)@.bridge,
            final(self)@.size == old(self)@.size,
            final(self)@.inbox == old(self)@.inbox,
    {
        self.ctrl.rewind_completed(outcome)
    }

    /// Renders the freshest frame, if any, into `dest`.  Returns `true`
    /// exactly when `dest` was overwritten with one whole frame of matching
    /// length — the signal that a presentation submit is warranted.  On
    /// `false`, `dest` is untouched: there was no new frame, or the pending
    /// frame's length disagrees with `dest` because a resize raced it, and a
    /// partial write is never performed.
    pub fn render(&mut self, dest: &mut Vec<u8>) -> (r: bool)
        ensures
            r == old(self)@.bridge.takeable(old(dest)@.len()),
            final(self)@.bridge == old(self)@.bridge.take_bridge(old(dest)@.len()),
            r ==> (old(self)@.bridge.latest matches Some(f) && final(dest)@ == f),
            !r ==> final(dest)@ == old(dest)@,
            final(dest)@.len() == old(dest)@.len(),
            final(self)@.ctrl == old(self)@.ctrl,
            final(self)@.size == old(self)@.size,
            final(self)@.inbox == old(self)@.inbox,
    {
        match self.bridge.take_if_dirty(dest.len()) {
            Some(f) => {
                *dest = f;
                true
            },
            None => false,
        }
    }

    /// Applies a resize request whose outside work ended with `outcome`,
    /// then forces an update so messages queued during the resize are
    /// drained at once rather than on the next natural tick.  Repeating the
    /// current size leaves the descriptor alone — the outside outcome is
    /// not even consulted — but the forced update still runs; a rejected
    /// new size is surfaced with nothing changed.
    pub fn resize(&mut self, new: SurfaceDescriptor, outcome: Result<(), String>) -> (r: Result<
        (),
        ResizeError,
    >)
        ensures
            new != old(self)@.size ==> (outcome matches Err(m) ==> (final(self)@ == old(self)@
                && (r matches Err(ResizeError::Rejected(c)) && c@ == m@))),
            new == old(self)@.size || outcome is Ok ==> ({
                &&& final(self)@.size == new
                &&& final(self)@.ctrl == pump(old(self)@.ctrl, old(self)@.inbox)
                &&& final(self)@.inbox.len() == 0
                &&& final(self)@.bridge == old(self)@.bridge
                &&& (r is Err <==> final(self)@.ctrl.state is Error)
                &&& (r matches Err(ResizeError::Playback(e)) ==> (
                    final(self)@.ctrl.state matches StateView::Error(c) && e@ == ErrorView::Fatal(
                        c,
                    )))
                &&& (r is Err ==> r matches Err(ResizeError::Playback(_)))
            }),
    {
        let applied: Result<(), ResizeError> = if new == self.coord.size() {
            Ok(())
        } else {
            self.coord.apply(new, outcome)
        };
        match applied {
            Err(e) => Err(e),
            Ok(()) => {
                match self.update() {
                    Ok(()) => Ok(()),
                    Err(e) => Err(ResizeError::Playback(e)),
                }
            },
        }
    }

    /// The last consistently applied surface size.
    pub fn size(&self) -> (r: SurfaceDescriptor)
        ensures
            r == self@.size,
    {
        self.coord.size()
    }

    /// How many bus messages are queued and not yet drained.
    pub fn pending_messages(&self) -> (r: usize)
        ensures
            r == self@.inbox.len(),
    {
        self.inbox.len()
    }

    /// Whether a frame newer than the last-consumed one is pending, so the
    /// next render with a matching destination would draw.
    pub fn needs_render(&self) -> (r: bool)
        ensures
            r == self@.bridge.dirty,
    {
        self.bridge.is_dirty()
    }

    /// Whether at least one rewind is owed and awaits the caller's seek.
    pub fn needs_rewind(&self) -> (r: bool)
        ensures
            r == (self@.ctrl.state is PendingRewind),
    {
        self.ctrl.needs_rewind()
    }

    /// How many rewinds are owed, one per end-of-stream event seen.
    pub fn pending_rewinds(&self) -> (r: u64)
        ensures
            r == owed_rewinds(self@.ctrl),
    {
        self.ctrl.pending_rewinds()
    }

    /// Whether playback ended without repeat.
    pub fn is_stopped(&self) -> (r: bool)
        ensures
            r == (self@.ctrl.state is Stopped),
    {
        self.ctrl.is_stopped()
    }

    /// Whether playback stands in the terminal fatal state.
    pub fn is_error(&self) -> (r: bool)
        ensures
            r == (self@.ctrl.state is Error),
    {
        self.ctrl.is_error()
    }

    /// Whether the engine is decoding.
    pub fn is_playing(&self) -> (r: bool)
        ensures
            r == (self@.ctrl.state is Playing),
    {
        self.ctrl.is_playing()
    }
}

} // verus!
