//! Fan-out of change events to a dynamic set of delivery endpoints.
//!
//! An endpoint is the sending half of a bounded tokio channel; delivering to
//! it may suspend, so the sends themselves are driven by an unverified
//! dispatcher outside this crate. The bus owns everything that can be
//! verified: the registered endpoints, the queue of events that completed
//! mutations have produced, and the pruning of endpoints whose receiving
//! side is gone.

use vstd::prelude::*;
use crate::events::TextBufferChangedEvent;

verus! {

#[verifier::external_type_specification]
#[verifier::external_body]
#[verifier::reject_recursive_types(T)]
pub struct ExSender<T>(tokio::sync::mpsc::Sender<T>);

/// The subsequence of `s` at the positions where `keep` is true.
pub open spec fn filter_by<T>(s: Seq<T>, keep: Seq<bool>) -> Seq<T>
    recommends
        s.len() == keep.len(),
    decreases s.len(),
{
    if s.len() == 0 {
        Seq::empty()
    } else {
        (if keep[0] {
            seq![s[0]]
        } else {
            Seq::empty()
        }) + filter_by(s.drop_first(), keep.drop_first())
    }
}

/// How many entries of `keep` are true.
pub open spec fn count_true(keep: Seq<bool>) -> nat
    decreases keep.len(),
{
    if keep.len() == 0 {
        0
    } else {
        (if keep[0] {
            1nat
        } else {
            0nat
        }) + count_true(keep.drop_first())
    }
}

/// Law: pruning keeps exactly the endpoints whose flag is true, so the
/// endpoint count after a prune is the number of true flags; one dead
/// endpoint means the count drops by exactly one.
pub proof fn lemma_filter_by_len<T>(s: Seq<T>, keep: Seq<bool>)
    requires
        s.len() == keep.len(),
    ensures
        filter_by(s, keep).len() == count_true(keep),
    decreases s.len(),
{
    if s.len() > 0 {
        lemma_filter_by_len(s.drop_first(), keep.drop_first());
    }
}

/// Holds the delivery endpoints and the queue of not-yet-dispatched events.
///
/// Registration only grows the endpoint set; only [`ChangeBus::prune`]
/// shrinks it, and only the dispatcher that detected the dead receivers
/// calls that.
pub struct ChangeBus {
    observers: Vec<tokio::sync::mpsc::Sender<TextBufferChangedEvent>>,
    pending: Vec<TextBufferChangedEvent>,
}

impl ChangeBus {
    /// The registered delivery endpoints, in registration order.
    pub closed spec fn endpoints(self) -> Seq<tokio::sync::mpsc::Sender<TextBufferChangedEvent>> {
        self.observers@
    }

    /// The events queued for dispatch, oldest first.
    pub closed spec fn queued(self) -> Seq<TextBufferChangedEvent> {
        self.pending@
    }

    /// A bus with no endpoints and nothing queued.
    pub fn new() -> (bus: Self)
        ensures
            bus.endpoints() == Seq::<tokio::sync::mpsc::Sender<TextBufferChangedEvent>>::empty(),
            bus.queued() == Seq::<TextBufferChangedEvent>::empty(),
    {
        let bus = ChangeBus { observers: Vec::new(), pending: Vec::new() };
        proof {
            assert(bus.endpoints() =~= Seq::<
                tokio::sync::mpsc::Sender<TextBufferChangedEvent>,
            >::empty());
            assert(bus.queued() =~= Seq::<TextBufferChangedEvent>::empty());
        }
        bus
    }

    /// Adds one delivery endpoint; never fails and removes nothing.
    pub fn register(&mut self, sender: tokio::sync::mpsc::Sender<TextBufferChangedEvent>)
        ensures
            final(self).endpoints() == old(self).endpoints().push(sender),
            final(self).queued() == old(self).queued(),
    {
        self.observers.push(sender);
    }

    /// Appends one event to the dispatch queue; the endpoints are untouched.
    pub fn dispatch(&mut self, event: TextBufferChangedEvent)
        ensures
            final(self).queued() == old(self).queued().push(event),
            final(self).endpoints() == old(self).endpoints(),
    {
        self.pending.push(event);
    }

    /// The number of registered endpoints.
    pub fn endpoint_count(&self) -> (n: usize)
        ensures
            n == self.endpoints().len(),
    {
        self.observers.len()
    }

    /// Read access to the endpoints, for the dispatcher that performs the
    /// actual sends.
    pub fn senders(&self) -> (v: &Vec<tokio::sync::mpsc::Sender<TextBufferChangedEvent>>)
        ensures
            v@ == self.endpoints(),
    {
        &self.observers
    }

    /// Hands out the queued events, oldest first, leaving the queue empty.
    pub fn take_pending(&mut self) -> (events: Vec<TextBufferChangedEvent>)
        ensures
            events@ == old(self).queued(),
            final(self).queued() == Seq::<TextBufferChangedEvent>::empty(),
            final(self).endpoints() == old(self).endpoints(),
    {
        let mut events: Vec<TextBufferChangedEvent> = Vec::new();
        core::mem::swap(&mut events, &mut self.pending);
        proof {
            assert(self.queued() =~= Seq::<TextBufferChangedEvent>::empty());
        }
        events
    }

    /// Removes every endpoint whose flag is false, keeping the rest in
    /// order. The dispatcher sets an endpoint's flag to false exactly when a
    /// delivery to it failed because the receiving side is gone.
    pub fn prune(&mut self, keep: &Vec<bool>)
        requires
            keep@.len() == old(self).endpoints().len(),
        ensures
            final(self).endpoints() == filter_by(old(self).endpoints(), keep@),
            final(self).queued() == old(self).queued(),
    {
        let ghost orig = self.observers@;
        let n = self.observers.len();
        let mut kept: Vec<tokio::sync::mpsc::Sender<TextBufferChangedEvent>> = Vec::new();
        while self.observers.len() > 0
            invariant
                self.observers@ == orig.subrange(0, self.observers@.len() as int),
                self.observers@.len() <= n == orig.len() == keep@.len(),
                self.queued() == old(self).queued(),
                kept@ == filter_by(
                    orig.subrange(self.observers@.len() as int, n as int),
                    keep@.subrange(self.observers@.len() as int, n as int),
                ),
            decreases self.observers.len(),
        {
            let sender = self.observers.pop().unwrap();
            let i = self.observers.len();
            proof {
                assert(sender == orig[i as int]);
                let tail_s = orig.subrange(i as int, n as int);
                let tail_k = keep@.subrange(i as int, n as int);
                assert(tail_s.drop_first() =~= orig.subrange(i + 1, n as int));
                assert(tail_k.drop_first() =~= keep@.subrange(i + 1, n as int));
            }
            if keep[i] {
                kept.insert(0, sender);
            }
            proof {
                assert(self.observers@ =~= orig.subrange(0, i as int));
                if keep@[i as int] {
                    assert(kept@ =~= seq![orig[i as int]] + filter_by(
                        orig.subrange(i + 1, n as int),
                        keep@.subrange(i + 1, n as int),
                    ));
                }
            }
        }
        self.observers = kept;
        proof {
            assert(orig.subrange(0, n as int) =~= orig);
            assert(keep@.subrange(0, n as int) =~= keep@);
        }
    }
}

} // verus!
