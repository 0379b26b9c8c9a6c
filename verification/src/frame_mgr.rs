//! Fixed-timestep cadence driver.
//!
//! [`FrameManager`] accumulates real elapsed time and decides, once per
//! tick, how many fixed-size update steps are due: if real time drifted by
//! several target intervals, that many updates run before the single render
//! of the tick, so lag never accumulates.  Time itself comes from the
//! caller, as elapsed nanoseconds since the previous tick.

use vstd::prelude::*;

use crate::playback::ErrorView;
use crate::playback::PlaybackError;
use crate::playback::StateView;
use crate::playback::pump;
use crate::session::VideoSession;

verus! {

/// Mathematical view of a [`FrameManager`].
pub struct ManagerView {
    /// Elapsed time not yet consumed by updates, in nanoseconds.
    pub accumulated: nat,
    /// The target interval between updates, in nanoseconds.
    pub target: nat,
}

impl ManagerView {
    /// The target is positive and the accumulator always stays below it.
    pub open spec fn wf(self) -> bool {
        0 < self.target && self.accumulated < self.target
    }
}

/// How many updates a tick owes after `elapsed` more nanoseconds.
pub open spec fn due_updates(m: ManagerView, elapsed: nat) -> nat
    recommends
        m.target > 0,
{
    (((m.accumulated + elapsed) as int) / (m.target as int)) as nat
}

/// What remains in the accumulator after those updates.
pub open spec fn remaining_after(m: ManagerView, elapsed: nat) -> nat
    recommends
        m.target > 0,
{
    (((m.accumulated + elapsed) as int) % (m.target as int)) as nat
}

/// What a tick reports when no fatal error surfaced.
#[derive(Debug)]
pub struct TickOutcome {
    /// How many update steps ran this tick.
    pub updates_run: u64,
    /// Whether the render overwrote the destination with a fresh frame, so
    /// a presentation submit is warranted.  When `false` the caller should
    /// skip the submit: nothing changed.
    pub drew: bool,
}

/// Fixed-timestep accumulator: tracks time owed against a target interval.
pub struct FrameManager {
    accumulated_ns: u64,
    target_ns: u64,
}

impl View for FrameManager {
    type V = ManagerView;

    closed spec fn view(&self) -> ManagerView {
        ManagerView { accumulated: self.accumulated_ns as nat, target: self.target_ns as nat }
    }
}

impl FrameManager {
    /// A manager with the given target interval between updates.
    pub fn new(target_ns: u64) -> (r: FrameManager)
        requires
            target_ns > 0,
        ensures
            r@.target == target_ns,
            r@.accumulated == 0,
            r@.wf(),
    {
        FrameManager { accumulated_ns: 0, target_ns }
    }

    /// A manager paced at `fps` updates per second.
    pub fn from_framerate(fps: u32) -> (r: FrameManager)
        requires
            0 < fps <= 1_000_000_000,
        ensures
            r@.target == 1_000_000_000 as nat / fps as nat,
            r@.accumulated == 0,
            r@.wf(),
    {
        let target = 1_000_000_000u64 / (fps as u64);
        proof {
            vstd::arithmetic::div_mod::lemma_div_non_zero(1_000_000_000, fps as int);
        }
        FrameManager::new(target)
    }

    /// Elapsed time not yet consumed by updates, in nanoseconds.
    pub fn accumulated_ns(&self) -> (r: u64)
        ensures
            r == self@.accumulated,
    {
        self.accumulated_ns
    }

    /// The target interval between updates, in nanoseconds.
    pub fn target_ns(&self) -> (r: u64)
        ensures
            r == self@.target,
    {
        self.target_ns
    }

    /// Adds `elapsed_ns` to the accumulator and consumes as many whole
    /// target intervals as now fit, returning how many: the number of
    /// update steps due before this tick's render.
    pub fn advance(&mut self, elapsed_ns: u64) -> (n: u64)
        requires
            old(self)@.wf(),
            old(self)@.accumulated + elapsed_ns <= u64::MAX,
        ensures
            final(self)@.target == old(self)@.target,
            n == due_updates(old(self)@, elapsed_ns as nat),
            final(self)@.accumulated == remaining_after(old(self)@, elapsed_ns as nat),
            final(self)@.wf(),
    {
        let total = self.accumulated_ns + elapsed_ns;
        let n = total / self.target_ns;
        self.accumulated_ns = total % self.target_ns;
        n
    }

    /// One tick of the render loop: runs every update step that is due —
    /// the first drains the session's queued messages, later ones find the
    /// queue empty — then unconditionally asks the session to render into
    /// `dest`, exactly once.  Returns the fatal cause when an update
    /// surfaced one (the caller should stop the loop); otherwise reports
    /// how many updates ran and whether the render drew.
    pub fn tick(
        &mut self,
        session: &mut VideoSession,
        elapsed_ns: u64,
        dest: &mut Vec<u8>,
    ) -> (r: Result<TickOutcome, PlaybackError>)
        requires
            old(self)@.wf(),
            old(self)@.accumulated + elapsed_ns <= u64::MAX,
        ensures
            final(self)@.target == old(self)@.target,
            final(self)@.accumulated == remaining_after(old(self)@, elapsed_ns as nat),
            final(self)@.wf(),
            ({
                let k = due_updates(old(self)@, elapsed_ns as nat);
                let c1 = if k == 0 {
                    old(session)@.ctrl
                } else {
                    pump(old(session)@.ctrl, old(session)@.inbox)
                };
                let b = old(session)@.bridge;
                let dl = old(dest)@.len();
                &&& final(session)@.ctrl == c1
                &&& (k == 0 ==> final(session)@.inbox == old(session)@.inbox)
                &&& (k > 0 ==> final(session)@.inbox.len() == 0)
                &&& final(session)@.size == old(session)@.size
                &&& final(session)@.bridge == b.take_bridge(dl)
                &&& (b.takeable(dl) ==> (b.latest matches Some(f) && final(dest)@ == f))
                &&& (!b.takeable(dl) ==> final(dest)@ == old(dest)@)
                &&& final(dest)@.len() == dl
                &&& (r is Err <==> (k > 0 && c1.state is Error))
                &&& (r matches Err(e) ==> (c1.state matches StateView::Error(c) && e@
                    == ErrorView::Fatal(c)))
                &&& (r matches Ok(t) ==> t.updates_run == k && t.drew == b.takeable(dl))
            }),
    {
        let n = self.advance(elapsed_ns);
        let mut failure: Option<PlaybackError> = None;
        let mut i: u64 = 0;
        while i < n
            invariant
                i <= n,
                i == 0 ==> session@.ctrl == old(session)@.ctrl && session@.inbox == old(
                    session,
                )@.inbox,
                i > 0 ==> session@.ctrl == pump(old(session)@.ctrl, old(session)@.inbox)
                    && session@.inbox.len() == 0,
                session@.bridge == old(session)@.bridge,
                session@.size == old(session)@.size,
                failure is Some <==> (i > 0 && pump(old(session)@.ctrl, old(session)@.inbox).state
                    is Error),
                failure matches Some(e) ==> (pump(old(session)@.ctrl, old(session)@.inbox).state
                    matches StateView::Error(c) && e@ == ErrorView::Fatal(c)),
            decreases n - i,
        {
            match session.update() {
                Ok(()) => {},
                Err(e) => {
                    failure = Some(e);
                },
            }
            i = i + 1;
        }
        let drew = session.render(dest);
        match failure {
            None => Ok(TickOutcome { updates_run: n, drew }),
            Some(e) => Err(e),
        }
    }
}

} // verus!
