//! The cache store between producer and consumer.
//!
//! The cache is logically an append-only log of already-formatted
//! sample lines: the producer appends one closed batch per second, and
//! a drain atomically takes everything accumulated and leaves the store
//! empty.  [`CacheBuffer`] is that store over memory; the on-disk
//! incarnation (append to a file, drain by renaming it aside) is the
//! caller's, and owes its callers exactly the same two contracts.
//!
//! [`lemma_no_loss`] proves the property the whole hand-off rests on:
//! however appends and drains interleave — provided each append
//! completes before or after a given drain, which the rename-first
//! drain enforces on disk — the drains together with what still pends
//! carry every appended character exactly once, in order.

use vstd::prelude::*;
use vstd::string::StringExecFns;

verus! {

/// An in-memory cache store: an append-only text log with an atomic
/// drain.
pub struct CacheBuffer {
    text: String,
}

impl View for CacheBuffer {
    type V = Seq<char>;

    closed spec fn view(&self) -> Seq<char> {
        self.text@
    }
}

impl CacheBuffer {
    /// An empty store, as before the producer's first append.
    pub fn new() -> (r: Self)
        ensures
            r@ == Seq::<char>::empty(),
    {
        CacheBuffer { text: String::new() }
    }

    /// Append one completed sample batch.
    pub fn append(&mut self, sample: &str)
        ensures
            final(self)@ == old(self)@ + sample@,
    {
        self.text.append(sample);
    }

    /// Take everything accumulated and leave the store empty.  Draining
    /// an empty store yields empty text and is not an error.
    pub fn drain(&mut self) -> (r: String)
        ensures
            r@ == old(self)@,
            final(self)@ == Seq::<char>::empty(),
    {
        let r = self.text.clone();
        self.text = String::new();
        r
    }
}

/// One completed interaction at the cache boundary: a producer append
/// of one sample batch, or a consumer drain.
pub enum CacheOp {
    /// The producer appended this text.
    Append(Seq<char>),
    /// The consumer drained everything accumulated.
    Drain,
}

/// What the store holds after this sequence of interactions.
pub open spec fn pending_after(ops: Seq<CacheOp>) -> Seq<char>
    decreases ops.len(),
{
    if ops.len() == 0 {
        Seq::<char>::empty()
    } else {
        match ops.last() {
            CacheOp::Append(s) => pending_after(ops.drop_last()) + s,
            CacheOp::Drain => Seq::<char>::empty(),
        }
    }
}

/// The concatenation, in drain order, of everything the drains in this
/// sequence of interactions handed out.
pub open spec fn drained_after(ops: Seq<CacheOp>) -> Seq<char>
    decreases ops.len(),
{
    if ops.len() == 0 {
        Seq::<char>::empty()
    } else {
        match ops.last() {
            CacheOp::Append(_) => drained_after(ops.drop_last()),
            CacheOp::Drain => drained_after(ops.drop_last()) + pending_after(ops.drop_last()),
        }
    }
}

/// The concatenation, in append order, of everything the producer
/// appended in this sequence of interactions.
pub open spec fn appended_all(ops: Seq<CacheOp>) -> Seq<char>
    decreases ops.len(),
{
    if ops.len() == 0 {
        Seq::<char>::empty()
    } else {
        match ops.last() {
            CacheOp::Append(s) => appended_all(ops.drop_last()) + s,
            CacheOp::Drain => appended_all(ops.drop_last()),
        }
    }
}

/// No loss: for any sequence of appends interleaved with drains, the
/// concatenation of all drain outputs, followed by what still pends in
/// the store, equals the concatenation of all appended text — nothing
/// duplicated, nothing dropped, order kept.  In particular, once a
/// final drain empties the store, the drains alone carry exactly the
/// appends.
pub proof fn lemma_no_loss(ops: Seq<CacheOp>)
    ensures
        drained_after(ops) + pending_after(ops) == appended_all(ops),
    decreases ops.len(),
{
    if ops.len() == 0 {
        assert(drained_after(ops) + pending_after(ops) =~= appended_all(ops));
    } else {
        lemma_no_loss(ops.drop_last());
        match ops.last() {
            CacheOp::Append(s) => {
                assert(drained_after(ops) + pending_after(ops) =~= (drained_after(ops.drop_last())
                    + pending_after(ops.drop_last())) + s);
                assert(appended_all(ops) =~= (drained_after(ops.drop_last()) + pending_after(
                    ops.drop_last(),
                )) + s);
            },
            CacheOp::Drain => {
                assert(drained_after(ops) + pending_after(ops) =~= drained_after(ops.drop_last())
                    + pending_after(ops.drop_last()));
            },
        }
    }
}

/// The no-loss property for a run whose store ends empty — as after a
/// final drain: the drain outputs alone are exactly the appends.
pub proof fn lemma_no_loss_drained(ops: Seq<CacheOp>)
    requires
        pending_after(ops) == Seq::<char>::empty(),
    ensures
        drained_after(ops) == appended_all(ops),
{
    lemma_no_loss(ops);
    assert(drained_after(ops) =~= drained_after(ops) + Seq::<char>::empty());
}

} // verus!
