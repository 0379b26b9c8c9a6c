//! Top-level owner of one playing session.
//!
//! [`PlaybackHost`] holds the [`VideoSession`] and its cadence driver,
//! receives the window layer's notifications (resize, scale factor, ticks)
//! and fans them out.  Its policy is fail-fast: a fatal playback or resize
//! error halts the host, and a halted host accepts no further work — a
//! frozen or corrupted background is worse than stopping.

use vstd::prelude::*;

use crate::frame_mgr::FrameManager;
use crate::frame_mgr::ManagerView;
use crate::frame_mgr::TickOutcome;
use crate::frame_mgr::due_updates;
use crate::frame_mgr::remaining_after;
use crate::playback::BusMessage;
use crate::playback::ErrorView;
use crate::playback::PlaybackError;
use crate::playback::StateView;
use crate::playback::owed_rewinds;
use crate::playback::pump;
use crate::session::SessionView;
use crate::session::VideoSession;
use crate::surface::ResizeError;
use crate::surface::SurfaceDescriptor;

verus! {

/// Mathematical view of a [`PlaybackHost`].
pub struct HostView {
    pub session: SessionView,
    pub manager: ManagerView,
    /// Whether a fatal error has stopped this host for good.
    pub halted: bool,
    /// The last reported window scale factor, in thousandths.
    pub scale_milli: nat,
}

/// Owns one [`VideoSession`] and drives it from window-level notifications.
/// All mutation of frames and playback state flows through the session's
/// `update`, `render` and `resize`; outside callers get no other handle.
pub struct PlaybackHost {
    session: VideoSession,
    manager: FrameManager,
    halted: bool,
    scale_milli: u32,
}

impl View for PlaybackHost {
    type V = HostView;

    closed spec fn view(&self) -> HostView {
        HostView {
            session: self.session@,
            manager: self.manager@,
            halted: self.halted,
            scale_milli: self.scale_milli as nat,
        }
    }
}

impl PlaybackHost {
    /// A host for a fresh session at the given initial surface size, update
    /// interval and window scale factor.
    pub fn new(
        initial: SurfaceDescriptor,
        repeat: bool,
        target_ns: u64,
        scale_milli: u32,
    ) -> (r: PlaybackHost)
        requires
            target_ns > 0,
        ensures
            r@.session.bridge.latest is None,
            !r@.session.bridge.dirty,
            r@.session.ctrl.state is Playing,
            r@.session.ctrl.repeat == repeat,
            r@.session.size == initial,
            r@.session.inbox.len() == 0,
            r@.manager.target == target_ns,
            r@.manager.accumulated == 0,
            r@.manager.wf(),
            !r@.halted,
            r@.scale_milli == scale_milli,
    {
        PlaybackHost {
            session: VideoSession::new(initial, repeat),
            manager: FrameManager::new(target_ns),
            halted: false,
            scale_milli,
        }
    }

    /// Read-only access to the session, for inspection only.
    pub fn session(&self) -> (r: &VideoSession)
        ensures
            r@ == self@.session,
    {
        &self.session
    }

    /// Whether a fatal error has stopped this host for good.
    pub fn is_halted(&self) -> (r: bool)
        ensures
            r == self@.halted,
    {
        self.halted
    }

    /// Elapsed time not yet consumed by updates, in nanoseconds.
    pub fn accumulated_ns(&self) -> (r: u64)
        ensures
            r == self@.manager.accumulated,
    {
        self.manager.accumulated_ns()
    }

    /// Queues one message fetched from the engine's bus.
    pub fn push_message(&mut self, m: BusMessage)
        ensures
            final(self)@.session.inbox == old(self)@.session.inbox.push(m@),
            final(self)@.session.bridge == old(self)@.session.bridge,
            final(self)@.session.ctrl == old(self)@.session.ctrl,
            final(self)@.session.size == old(self)@.session.size,
            final(self)@.manager == old(self)@.manager,
            final(self)@.halted == old(self)@.halted,
            final(self)@.scale_milli == old(self)@.scale_milli,
    {
        self.session.push_message(m);
    }

    /// Accepts a decoded frame from the engine's sample callback.
    pub fn store_frame(&mut self, frame: Vec<u8>)
        ensures
            final(self)@.session.bridge == old(self)@.session.bridge.store_spec(frame@),
            final(self)@.session.ctrl == old(self)@.session.ctrl,
            final(self)@.session.size == old(self)@.session.size,
            final(self)@.session.inbox == old(self)@.session.inbox,
            final(self)@.manager == old(self)@.manager,
            final(self)@.halted == old(self)@.halted,
            final(self)@.scale_milli == old(self)@.scale_milli,
    {
        self.session.store_frame(frame);
    }

    /// Records a scale-factor-change notification, in thousandths.  The
    /// value is recorded only; it does not affect buffer layout.
    pub fn set_scale_factor(&mut self, scale_milli: u32)
        ensures
            final(self)@.scale_milli == scale_milli,
            final(self)@.session == old(self)@.session,
            final(self)@.manager == old(self)@.manager,
            final(self)@.halted == old(self)@.halted,
    {
        self.scale_milli = scale_milli;
    }

    /// Reports the outcome of one flushing seek performed for an owed
    /// rewind.  A failed rewind is fatal and halts the host.
    pub fn rewind_completed(&mut self, outcome: Result<(), String>) -> (r: Result<
        (),
        PlaybackError,
    >)
        requires
            !old(self)@.halted,
            old(self)@.session.ctrl.state is PendingRewind,
        ensures
            final(self)@.session.ctrl.repeat == old(self)@.session.ctrl.repeat,
            outcome is Ok ==> (r is Ok && !final(self)@.halted && (if owed_rewinds(
                old(self)@.session.ctrl,
            ) <= 1 {
                final(self)@.session.ctrl.state is Playing
            } else {
                final(self)@.session.ctrl.state == StateView::PendingRewind(
                    (owed_rewinds(old(self)@.session.ctrl) - 1) as nat,
                )
            })),
            outcome matches Err(m) ==> (final(self)@.session.ctrl.state == StateView::Error(m@)
                && (r matches Err(e) && e@ == ErrorView::RewindFailed(m@)) && final(self)@.halted),
            final(self)@.session.bridge == old(self)@.session.bridge,
            final(self)@.session.size == old(self)@.session.size,
            final(self)@.session.inbox == old(self)@.session.inbox,
            final(self)@.manager == old(self)@.manager,
            final(self)@.scale_milli == old(self)@.scale_milli,
    {
        let r = self.session.rewind_completed(outcome);
        if r.is_err() {
            self.halted = true;
        }
        r
    }

    /// Handles a window resize notification whose outside work ended with
    /// `outcome`, forcing an update either way so messages queued during
    /// the resize drain at once.  A failed resize or a fatal cause surfaced
    /// by that update is unrecoverable for this design — there is no
    /// fallback renderer — so on failure the host halts.
    pub fn on_resize(&mut self, new: SurfaceDescriptor, outcome: Result<(), String>) -> (r: Result<
        (),
        ResizeError,
    >)
        requires
            !old(self)@.halted,
        ensures
            final(self)@.manager == old(self)@.manager,
            final(self)@.scale_milli == old(self)@.scale_milli,
            final(self)@.halted == (r is Err),
            new != old(self)@.session.size ==> (outcome matches Err(m) ==> (final(self)@.session
                == old(self)@.session && (r matches Err(ResizeError::Rejected(c)) && c@ == m@))),
            new == old(self)@.session.size || outcome is Ok ==> ({
                &&& final(self)@.session.size == new
                &&& final(self)@.session.ctrl == pump(
                    old(self)@.session.ctrl,
                    old(self)@.session.inbox,
                )
                &&& final(self)@.session.inbox.len() == 0
                &&& final(self)@.session.bridge == old(self)@.session.bridge
                &&& (r is Err <==> final(self)@.session.ctrl.state is Error)
                &&& (r matches Err(ResizeError::Playback(e)) ==> (
                    final(self)@.session.ctrl.state matches StateView::Error(c) && e@
                    == ErrorView::Fatal(c)))
                &&& (r is Err ==> r matches Err(ResizeError::Playback(_)))
            }),
    {
        let r = self.session.resize(new, outcome);
        if r.is_err() {
            self.halted = true;
        }
        r
    }

    /// An unscheduled update, outside the tick cadence: drains every queued
    /// bus message at once (the window layer's input path asks for this).
    /// A fatal cause halts the host and is returned.
    pub fn update(&mut self) -> (r: Result<(), PlaybackError>)
        requires
            !old(self)@.halted,
        ensures
            final(self)@.session.ctrl == pump(old(self)@.session.ctrl, old(self)@.session.inbox),
            final(self)@.session.inbox.len() == 0,
            final(self)@.session.bridge == old(self)@.session.bridge,
            final(self)@.session.size == old(self)@.session.size,
            final(self)@.manager == old(self)@.manager,
            final(self)@.scale_milli == old(self)@.scale_milli,
            final(self)@.halted == (r is Err),
            r is Err <==> final(self)@.session.ctrl.state is Error,
            r matches Err(e) ==> (final(self)@.session.ctrl.state matches StateView::Error(c)
                && e@ == ErrorView::Fatal(c)),
    {
        let r = self.session.update();
        if r.is_err() {
            self.halted = true;
        }
        r
    }

    /// One scheduled tick, driven externally at the configured framerate:
    /// runs the updates that are due and renders once into `dest`.  A fatal
    /// playback error halts the host and is returned; the caller should
    /// stop the loop.
    pub fn on_tick(&mut self, elapsed_ns: u64, dest: &mut Vec<u8>) -> (r: Result<
        TickOutcome,
        PlaybackError,
    >)
        requires
            !old(self)@.halted,
            old(self)@.manager.wf(),
            old(self)@.manager.accumulated + elapsed_ns <= u64::MAX,
        ensures
            final(self)@.manager.target == old(self)@.manager.target,
            final(self)@.manager.accumulated == remaining_after(
                old(self)@.manager,
                elapsed_ns as nat,
            ),
            final(self)@.manager.wf(),
            final(self)@.scale_milli == old(self)@.scale_milli,
            final(self)@.halted == (r is Err),
            ({
                let k = due_updates(old(self)@.manager, elapsed_ns as nat);
                let c1 = if k == 0 {
                    old(self)@.session.ctrl
                } else {
                    pump(old(self)@.session.ctrl, old(self)@.session.inbox)
                };
                let b = old(self)@.session.bridge;
                let dl = old(dest)@.len();
                &&& final(self)@.session.ctrl == c1
                &&& (k == 0 ==> final(self)@.session.inbox == old(self)@.session.inbox)
                &&& (k > 0 ==> final(self)@.session.inbox.len() == 0)
                &&& final(self)@.session.size == old(self)@.session.size
                &&& final(self)@.session.bridge == b.take_bridge(dl)
                &&& (b.takeable(dl) ==> (b.latest matches Some(f) && final(dest)@ == f))
                &&& (!b.takeable(dl) ==> final(dest)@ == old(dest)@)
                &&& final(dest)@.len() == dl
                &&& (r is Err <==> (k > 0 && c1.state is Error))
                &&& (r matches Err(e) ==> (c1.state matches StateView::Error(c) && e@
                    == ErrorView::Fatal(c)))
                &&& (r matches Ok(t) ==> t.updates_run == k && t.drew == b.takeable(dl))
            }),
    {
        let r = self.manager.tick(&mut self.session, elapsed_ns, dest);
        if r.is_err() {
            self.halted = true;
        }
        r
    }
}

} // verus!
