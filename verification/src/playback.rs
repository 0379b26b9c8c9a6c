//! Playback control: turns the decode engine's bus messages into playback
//! state transitions and engine-facing decisions.
//!
//! The engine itself (its bus, its seek operation) lives outside this crate.
//! The caller drains the bus and hands the messages in; every end-of-stream
//! seen with repeat enabled adds one owed rewind to
//! [`PlaybackState::PendingRewind`], and the caller performs one flushing
//! seek per owed rewind, reporting each outcome through
//! [`PlaybackController::rewind_completed`].

use vstd::prelude::*;

verus! {

/// A message drained from the decode engine's event bus.
#[derive(Debug)]
pub enum BusMessage {
    /// The source has played to its end.
    EndOfStream,
    /// A fatal engine error with its description.
    FatalError(String),
    /// Any other message kind; ignored.
    Other,
}

/// Mathematical view of a [`BusMessage`].
pub enum MessageView {
    EndOfStream,
    FatalError(Seq<char>),
    Other,
}

impl View for BusMessage {
    type V = MessageView;

    open spec fn view(&self) -> MessageView {
        match self {
            BusMessage::EndOfStream => MessageView::EndOfStream,
            BusMessage::FatalError(c) => MessageView::FatalError(c@),
            BusMessage::Other => MessageView::Other,
        }
    }
}

/// Where playback stands.
#[derive(Debug)]
pub enum PlaybackState {
    /// The engine is decoding; frames may arrive.
    Playing,
    /// End-of-stream was seen with repeat enabled; the count says how many
    /// flushing seeks to zero are owed — one per end-of-stream event — and
    /// each outcome is awaited in turn.
    PendingRewind(u64),
    /// End-of-stream was seen with repeat disabled; decoding is over.
    Stopped,
    /// A fatal error, with its cause.  Terminal: it is surfaced on every
    /// later call and never silently retried.
    Error(String),
}

/// Mathematical view of a [`PlaybackState`].
pub enum StateView {
    Playing,
    PendingRewind(nat),
    Stopped,
    Error(Seq<char>),
}

impl View for PlaybackState {
    type V = StateView;

    open spec fn view(&self) -> StateView {
        match self {
            PlaybackState::Playing => StateView::Playing,
            PlaybackState::PendingRewind(k) => StateView::PendingRewind(*k as nat),
            PlaybackState::Stopped => StateView::Stopped,
            PlaybackState::Error(c) => StateView::Error(c@),
        }
    }
}

/// An error surfaced by playback control.
#[derive(Debug)]
pub enum PlaybackError {
    /// The engine reported a fatal error, or playback already stands in a
    /// fatal state from one.
    Fatal(String),
    /// The flushing seek issued to loop the source failed.
    RewindFailed(String),
}

/// Mathematical view of a [`PlaybackError`].
pub enum ErrorView {
    Fatal(Seq<char>),
    RewindFailed(Seq<char>),
}

impl View for PlaybackError {
    type V = ErrorView;

    open spec fn view(&self) -> ErrorView {
        match self {
            PlaybackError::Fatal(c) => ErrorView::Fatal(c@),
            PlaybackError::RewindFailed(c) => ErrorView::RewindFailed(c@),
        }
    }
}

impl PlaybackError {
    /// The error's description, for reporting.
    pub fn message(&self) -> (r: &String)
        ensures
            self@ matches ErrorView::Fatal(c) ==> r@ == c,
            self@ matches ErrorView::RewindFailed(c) ==> r@ == c,
    {
        match self {
            PlaybackError::Fatal(c) => c,
            PlaybackError::RewindFailed(c) => c,
        }
    }
}

/// Mathematical view of a [`PlaybackController`].
pub struct ControllerView {
    pub state: StateView,
    pub repeat: bool,
}

/// How many rewinds the controller owes the engine.
pub open spec fn owed_rewinds(s: ControllerView) -> nat {
    match s.state {
        StateView::PendingRewind(k) => k,
        _ => 0,
    }
}

/// How one bus message moves the controller.
///
/// `Stopped` and `Error` are terminal: once reached, further messages are
/// ignored.  Each end-of-stream seen with repeat enabled adds one owed
/// rewind; the count lives in a machine word and stops growing at its bound,
/// which no physical run reaches.
pub open spec fn step(s: ControllerView, m: MessageView) -> ControllerView {
    match s.state {
        StateView::Stopped => s,
        StateView::Error(_) => s,
        _ => match m {
            MessageView::FatalError(c) => ControllerView { state: StateView::Error(c), repeat: s.repeat },
            MessageView::EndOfStream => {
                match s.state {
                    StateView::PendingRewind(k) => ControllerView {
                        state: StateView::PendingRewind(if k < u64::MAX { k + 1 } else { k }),
                        repeat: s.repeat,
                    },
                    _ => {
                        if s.repeat {
                            ControllerView { state: StateView::PendingRewind(1), repeat: s.repeat }
                        } else {
                            ControllerView { state: StateView::Stopped, repeat: s.repeat }
                        }
                    },
                }
            },
            MessageView::Other => s,
        },
    }
}

/// The controller after draining a whole message sequence, oldest first.
pub open spec fn pump(s: ControllerView, ms: Seq<MessageView>) -> ControllerView
    decreases ms.len(),
{
    if ms.len() == 0 {
        s
    } else {
        step(pump(s, ms.drop_last()), ms.last())
    }
}

/// Owns the playback side of the session: the current [`PlaybackState`] and
/// the repeat policy.  State transitions happen only here.
pub struct PlaybackController {
    state: PlaybackState,
    repeat: bool,
}

impl View for PlaybackController {
    type V = ControllerView;

    closed spec fn view(&self) -> ControllerView {
        ControllerView { state: self.state@, repeat: self.repeat }
    }
}

impl PlaybackController {
    /// A fresh controller: playing, with the given repeat policy.
    pub fn new(repeat: bool) -> (r: PlaybackController)
        ensures
            r@.state is Playing,
            r@.repeat == repeat,
    {
        PlaybackController { state: PlaybackState::Playing, repeat }
    }

    /// Drains a batch of already-fetched bus messages, oldest first, and
    /// applies every transition they call for.  Returns the fatal cause
    /// exactly when the controller ends (or already stood) in the `Error`
    /// state, so a fatal condition is surfaced on every call, never
    /// swallowed.  A rewind decided here is not performed here: each
    /// end-of-stream adds one owed rewind and `rewind_completed` settles
    /// them one by one.
    pub fn pump_events(&mut self, msgs: &Vec<BusMessage>) -> (r: Result<(), PlaybackError>)
        ensures
            final(self)@ == pump(old(self)@, msgs@.map_values(|m: BusMessage| m@)),
            r is Err <==> final(self)@.state is Error,
            r matches Err(e) ==> (final(self)@.state matches StateView::Error(c)
                && e@ == ErrorView::Fatal(c)),
    {
        let ghost ms = msgs@.map_values(|m: BusMessage| m@);
        let mut i: usize = 0;
        while i < msgs.len()
            invariant
                i <= msgs.len(),
                ms == msgs@.map_values(|m: BusMessage| m@),
                self@ == pump(old(self)@, ms.take(i as int)),
                self@.repeat == old(self)@.repeat,
            decreases msgs.len() - i,
        {
            let stop = match &self.state {
                PlaybackState::Stopped => true,
                PlaybackState::Error(_) => true,
                _ => false,
            };
            if !stop {
                match &msgs[i] {
                    BusMessage::FatalError(c) => {
                        self.state = PlaybackState::Error(c.clone());
                    },
                    BusMessage::EndOfStream => {
                        let next = match &self.state {
                            PlaybackState::PendingRewind(k) => {
                                if *k < u64::MAX {
                                    PlaybackState::PendingRewind(*k + 1)
                                } else {
                                    PlaybackState::PendingRewind(*k)
                                }
                            },
                            _ => {
                                if self.repeat {
                                    PlaybackState::PendingRewind(1)
                                } else {
                                    PlaybackState::Stopped
                                }
                            },
                        };
                        self.state = next;
                    },
                    BusMessage::Other => {},
                }
            }
            proof {
                assert(ms.take(i + 1).drop_last() =~= ms.take(i as int));
                assert(ms.take(i + 1).last() == ms[i as int]);
            }
            i = i + 1;
        }
        proof {
            assert(ms.take(msgs.len() as int) =~= ms);
        }
        match &self.state {
            PlaybackState::Error(c) => Err(PlaybackError::Fatal(c.clone())),
            _ => Ok(()),
        }
    }

    /// Reports the outcome of one flushing seek that the caller performed
    /// for an owed rewind.  Success settles one owed rewind, resuming play
    /// once none is left; failure is itself fatal and is never retried, so a
    /// broken source cannot cause an endless rewind loop.
    pub fn rewind_completed(&mut self, outcome: Result<(), String>) -> (r: Result<(), PlaybackError>)
        requires
            old(self)@.state is PendingRewind,
        ensures
            final(self)@.repeat == old(self)@.repeat,
            outcome is Ok ==> (r is Ok && (if owed_rewinds(old(self)@) <= 1 {
                final(self)@.state is Playing
            } else {
                final(self)@.state == StateView::PendingRewind((owed_rewinds(old(self)@) - 1) as nat)
            })),
            outcome matches Err(m) ==> (final(self)@.state == StateView::Error(m@)
                && (r matches Err(e) && e@ == ErrorView::RewindFailed(m@))),
    {
        match outcome {
            Ok(()) => {
                let next = match &self.state {
                    PlaybackState::PendingRewind(k) => {
                        if *k <= 1 {
                            PlaybackState::Playing
                        } else {
                            PlaybackState::PendingRewind(*k - 1)
                        }
                    },
                    _ => PlaybackState::Playing,
                };
                self.state = next;
                Ok(())
            },
            Err(m) => {
                self.state = PlaybackState::Error(m.clone());
                Err(PlaybackError::RewindFailed(m))
            },
        }
    }

    /// Whether at least one rewind is owed and awaits the caller's seek.
    pub fn needs_rewind(&self) -> (r: bool)
        ensures
            r == (self@.state is PendingRewind),
    {
        matches!(self.state, PlaybackState::PendingRewind(_))
    }

    /// How many rewinds are owed, one per end-of-stream event seen.
    pub fn pending_rewinds(&self) -> (r: u64)
        ensures
            r == owed_rewinds(self@),
    {
        match &self.state {
            PlaybackState::PendingRewind(k) => *k,
            _ => 0,
        }
    }

    /// Whether playback ended without repeat.
    pub fn is_stopped(&self) -> (r: bool)
        ensures
            r == (self@.state is Stopped),
    {
        matches!(self.state, PlaybackState::Stopped)
    }

    /// Whether playback stands in the terminal fatal state.
    pub fn is_error(&self) -> (r: bool)
        ensures
            r == (self@.state is Error),
    {
        matches!(self.state, PlaybackState::Error(_))
    }

    /// Whether the engine is decoding.
    pub fn is_playing(&self) -> (r: bool)
        ensures
            r == (self@.state is Playing),
    {
        matches!(self.state, PlaybackState::Playing)
    }
}

/// Draining a batch that carries no fatal error never reaches the `Error`
/// state: end-of-stream, with or without repeat, is an expected event, not a
/// failure.
pub proof fn lemma_pump_no_fatal_no_error(s: ControllerView, ms: Seq<MessageView>)
    requires
        !(s.state is Error),
        forall|i: int| 0 <= i < ms.len() ==> !(ms[i] is FatalError),
    ensures
        !(pump(s, ms).state is Error),
    decreases ms.len(),
{
    if ms.len() > 0 {
        lemma_pump_no_fatal_no_error(s, ms.drop_last());
    }
}

/// Batching does not matter: draining messages in two batches leaves the
/// controller exactly where draining them in one batch would, so the caller
/// may hand the bus's backlog over in any grouping.
pub proof fn lemma_pump_batching(s: ControllerView, a: Seq<MessageView>, b: Seq<MessageView>)
    ensures
        pump(s, a + b) == pump(pump(s, a), b),
    decreases b.len(),
{
    if b.len() == 0 {
        assert(a + b =~= a);
    } else {
        lemma_pump_batching(s, a, b.drop_last());
        assert((a + b).drop_last() =~= a + b.drop_last());
        assert((a + b).last() == b.last());
    }
}

/// How many end-of-stream messages a sequence holds.
pub open spec fn eos_count(ms: Seq<MessageView>) -> nat
    decreases ms.len(),
{
    if ms.len() == 0 {
        0
    } else if ms.last() is EndOfStream {
        eos_count(ms.drop_last()) + 1
    } else {
        eos_count(ms.drop_last())
    }
}

/// Exactly one rewind per end-of-stream event: over any batch free of fatal
/// errors, with repeat enabled and playback neither stopped nor failed, the
/// number of rewinds owed grows by exactly the number of end-of-stream
/// messages — never more, never fewer — and playback reaches no terminal
/// state.  (The count lives in a machine word; the law is stated below that
/// bound, which no physical run reaches.)
pub proof fn lemma_one_rewind_per_end_of_stream(s: ControllerView, ms: Seq<MessageView>)
    requires
        s.state is Playing || s.state is PendingRewind,
        s.repeat,
        forall|i: int| 0 <= i < ms.len() ==> !(ms[i] is FatalError),
        owed_rewinds(s) + eos_count(ms) <= u64::MAX,
    ensures
        pump(s, ms).state is Playing || pump(s, ms).state is PendingRewind,
        pump(s, ms).repeat == s.repeat,
        owed_rewinds(pump(s, ms)) == owed_rewinds(s) + eos_count(ms),
    decreases ms.len(),
{
    if ms.len() > 0 {
        lemma_one_rewind_per_end_of_stream(s, ms.drop_last());
    }
}

/// `Stopped` and `Error` are terminal: no later message moves the
/// controller out of them, so a fatal cause is never silently dropped and a
/// stopped source never restarts by itself.
pub proof fn lemma_terminal_states(s: ControllerView, ms: Seq<MessageView>)
    requires
        s.state is Error || s.state is Stopped,
    ensures
        pump(s, ms) == s,
    decreases ms.len(),
{
    if ms.len() > 0 {
        lemma_terminal_states(s, ms.drop_last());
    }
}

/// A rewind is decided only by an end-of-stream message seen while playing
/// with repeat enabled: no other message, and no message in any other state,
/// newly requests one.
pub proof fn lemma_rewind_only_on_end_of_stream(s: ControllerView, m: MessageView)
    ensures
        step(s, m).state is PendingRewind ==> (s.state is PendingRewind
            || (m is EndOfStream && s.state is Playing && s.repeat)),
{
}

} // verus!
