//! Single-slot hand-off buffer between the decode engine (producer) and the
//! render loop (consumer).
//!
//! Delivery is freshness-biased: a new frame replaces any unconsumed one, so
//! the consumer always sees the most recent frame and never sees a frame
//! twice.  A frame whose length does not match the consumer's destination
//! buffer (a resize raced a frame in flight) is left in place and nothing is
//! handed out for that tick.

use vstd::prelude::*;

verus! {

/// Mathematical view of a [`FrameBridge`]: the bytes of the most recently
/// stored frame, if any, and whether that frame is still unconsumed.
pub struct BridgeView {
    pub latest: Option<Seq<u8>>,
    pub dirty: bool,
}

impl BridgeView {
    /// A dirty bridge always holds a frame.
    pub open spec fn wf(self) -> bool {
        self.dirty ==> self.latest is Some
    }

    /// Effect of storing a frame: it replaces whatever was there and marks
    /// the bridge dirty.
    pub open spec fn store_spec(self, frame: Seq<u8>) -> BridgeView {
        BridgeView { latest: Some(frame), dirty: true }
    }

    /// A take against a destination of length `dest_len` hands a frame out
    /// exactly when one is pending and its length matches.
    pub open spec fn takeable(self, dest_len: nat) -> bool {
        &&& self.dirty
        &&& self.latest matches Some(f) && f.len() == dest_len
    }

    /// The bridge after a take: consumed if the take handed a frame out,
    /// untouched otherwise.
    pub open spec fn take_bridge(self, dest_len: nat) -> BridgeView {
        if self.takeable(dest_len) {
            BridgeView { latest: None, dirty: false }
        } else {
            self
        }
    }

    /// What a take hands out.
    pub open spec fn take_frame(self, dest_len: nat) -> Option<Seq<u8>> {
        if self.takeable(dest_len) {
            self.latest
        } else {
            None
        }
    }
}

/// Thread-safe single-slot buffer carrying the most recently decoded frame
/// plus a dirty flag.  The caller serializes access (the producer's store and
/// the consumer's take are never concurrent on the same `&mut FrameBridge`);
/// this type supplies the single-slot, last-write-wins semantics.
pub struct FrameBridge {
    latest: Option<Vec<u8>>,
    dirty: bool,
}

impl View for FrameBridge {
    type V = BridgeView;

    closed spec fn view(&self) -> BridgeView {
        BridgeView {
            latest: match self.latest {
                Some(f) => Some(f@),
                None => None,
            },
            dirty: self.dirty,
        }
    }
}

impl FrameBridge {
    /// A fresh bridge holds nothing and is clean.
    pub fn new() -> (r: FrameBridge)
        ensures
            r@.latest is None,
            !r@.dirty,
            r@.wf(),
    {
        FrameBridge { latest: None, dirty: false }
    }

    /// Called from the decode engine's execution context whenever a sample is
    /// ready.  Replaces any previously stored, unconsumed frame and sets the
    /// dirty flag; older frames are silently dropped.
    pub fn store(&mut self, frame: Vec<u8>)
        ensures
            final(self)@ == old(self)@.store_spec(frame@),
            final(self)@.wf(),
    {
        self.latest = Some(frame);
        self.dirty = true;
    }

    /// Called once per render tick.  Hands the pending frame out and clears
    /// the dirty flag exactly when a frame is pending and its length equals
    /// `dest_len`; otherwise returns nothing and changes nothing, so a
    /// mismatched frame is skipped rather than partially copied.
    pub fn take_if_dirty(&mut self, dest_len: usize) -> (r: Option<Vec<u8>>)
        ensures
            final(self)@ == old(self)@.take_bridge(dest_len as nat),
            (r matches Some(f) && old(self)@.take_frame(dest_len as nat) == Some(f@))
                || (r is None && old(self)@.take_frame(dest_len as nat) is None),
            r is Some <==> old(self)@.takeable(dest_len as nat),
            old(self)@.wf() ==> final(self)@.wf(),
    {
        if self.dirty {
            let matches_len = match &self.latest {
                Some(f) => f.len() == dest_len,
                None => false,
            };
            if matches_len {
                self.dirty = false;
                let f = self.latest.take();
                f
            } else {
                None
            }
        } else {
            None
        }
    }

    /// Whether a frame newer than the last-consumed one is pending.
    pub fn is_dirty(&self) -> (r: bool)
        ensures
            r == self@.dirty,
    {
        self.dirty
    }
}

/// A successful take hands out exactly the bytes of the most recent store,
/// whole: the consumer never sees a torn mixture of two frames, and a frame
/// stored over an unconsumed one wins in full.
pub proof fn lemma_take_returns_last_store(b: BridgeView, g: Seq<u8>, dest_len: nat)
    ensures
        b.store_spec(g).takeable(dest_len) ==> b.store_spec(g).take_frame(dest_len) == Some(g),
        g.len() == dest_len ==> b.store_spec(g).takeable(dest_len),
{
}

/// One operation on the bridge, for stating laws about whole interleavings
/// of producer stores and consumer takes.
pub enum BridgeOp {
    /// The producer stored a frame with these bytes.
    Store(Seq<u8>),
    /// The consumer attempted a take against a destination of this length.
    Take(nat),
}

/// The bridge after one operation.
pub open spec fn apply_op(b: BridgeView, op: BridgeOp) -> BridgeView {
    match op {
        BridgeOp::Store(f) => b.store_spec(f),
        BridgeOp::Take(len) => b.take_bridge(len),
    }
}

/// The bridge after a whole sequence of operations, oldest first.
pub open spec fn apply_ops(b: BridgeView, ops: Seq<BridgeOp>) -> BridgeView
    decreases ops.len(),
{
    if ops.len() == 0 {
        b
    } else {
        apply_op(apply_ops(b, ops.drop_last()), ops.last())
    }
}

/// The bytes of the most recent store in a sequence of operations, if any.
pub open spec fn last_store(ops: Seq<BridgeOp>) -> Option<Seq<u8>>
    decreases ops.len(),
{
    if ops.len() == 0 {
        None
    } else {
        match ops.last() {
            BridgeOp::Store(f) => Some(f),
            BridgeOp::Take(_) => last_store(ops.drop_last()),
        }
    }
}

/// Whenever the bridge is dirty, the frame it holds is exactly the most
/// recently stored one — or, if the run stored nothing, the frame the
/// bridge began with.
pub proof fn lemma_dirty_frame_is_last_store(b: BridgeView, ops: Seq<BridgeOp>)
    ensures
        apply_ops(b, ops).dirty ==> (match last_store(ops) {
            Some(f) => apply_ops(b, ops).latest == Some(f),
            None => apply_ops(b, ops).latest == b.latest && b.dirty,
        }),
    decreases ops.len(),
{
    if ops.len() > 0 {
        lemma_dirty_frame_is_last_store(b, ops.drop_last());
    }
}

/// Across any interleaving of stores and takes, a take that hands a frame
/// out hands out exactly the bytes of the most recent store, whole: the
/// consumer never re-sees a consumed frame's bytes once a store intervened,
/// and never sees a torn mixture of two frames.
pub proof fn lemma_take_is_freshest(b: BridgeView, ops: Seq<BridgeOp>, dest_len: nat)
    requires
        last_store(ops) is Some,
    ensures
        apply_ops(b, ops).takeable(dest_len) ==> apply_ops(b, ops).take_frame(dest_len)
            == last_store(ops),
{
    lemma_dirty_frame_is_last_store(b, ops);
}

/// A take never redelivers: after any take, another take with the same
/// destination length reports no update, and after a take that handed a
/// frame out, no take at any length yields one until the next store.
pub proof fn lemma_take_twice_no_update(b: BridgeView, len1: nat, len2: nat)
    ensures
        !b.take_bridge(len1).takeable(len1),
        b.takeable(len1) ==> !b.take_bridge(len1).takeable(len2),
{
}

} // verus!
