//! The bounded queue between the call sites that report events and the
//! collector that consumes them.
//!
//! The queue itself is tokio's bounded multi-producer, single-consumer
//! channel. Verus does not look inside it: the declarations in this file say
//! what the rest of the library relies on, and each of them is taken on
//! trust from tokio's documentation and source.

use crate::event::Event;
use futures::FutureExt;
use tokio::sync::mpsc::error::TrySendError;
use tokio::sync::mpsc::{Permit, Receiver, Sender};
use vstd::prelude::*;

verus! {

/// `tokio::sync::mpsc::Sender`, the sending end of the queue, as an opaque
/// type.
#[verifier::external_type_specification]
#[verifier::external_body]
#[verifier::reject_recursive_types(T)]
pub struct ExSender<T>(tokio::sync::mpsc::Sender<T>);

/// `tokio::sync::mpsc::Receiver`, the receiving end of the queue, as an
/// opaque type.
#[verifier::external_type_specification]
#[verifier::external_body]
#[verifier::reject_recursive_types(T)]
pub struct ExReceiver<T>(tokio::sync::mpsc::Receiver<T>);

/// `tokio::sync::mpsc::Permit`, one reserved slot of the queue, as an opaque
/// type.
#[verifier::external_type_specification]
#[verifier::external_body]
#[verifier::reject_recursive_types(T)]
pub struct ExPermit<'a, T>(tokio::sync::mpsc::Permit<'a, T>);

/// Why the queue did not take an event.
#[derive(Clone, Copy, Debug, PartialEq, Eq, Structural)]
pub enum Refusal {
    /// Every slot of the queue is taken.
    Full,
    /// The consumer is gone: the receiving end was closed or dropped.
    Closed,
}

/// How loudly a dropped event is to be reported.
#[derive(Clone, Copy, Debug, PartialEq, Eq, Structural)]
pub enum Severity {
    Warning,
    Error,
}

impl Refusal {
    /// A full queue is worth a warning: it empties again. A closed one is an
    /// error: nothing sent from now on will arrive.
    pub open spec fn spec_severity(self) -> Severity {
        match self {
            Refusal::Full => Severity::Warning,
            Refusal::Closed => Severity::Error,
        }
    }

    /// How loudly an event dropped for this reason is to be reported.
    pub fn severity(&self) -> (level: Severity)
        ensures
            level == self.spec_severity(),
    {
        match self {
            Refusal::Full => Severity::Warning,
            Refusal::Closed => Severity::Error,
        }
    }
}

/// The number of slots that the queue behind `tx` was made with. It is fixed
/// when the queue is made.
pub uninterp spec fn queue_bound(tx: &Sender<Event>) -> usize;

/// Makes a queue of `bound` slots with `tokio::sync::mpsc::channel`.
///
/// Trusted: that the call returns for every `bound` from 1 to an eighth of
/// the largest `usize` (tokio panics on 0 and above that limit), and that the
/// queue it makes has `bound` slots.
#[verifier::external_body]
pub(crate) fn open_channel(bound: usize) -> (ends: (Sender<Event>, Receiver<Event>))
    requires
        0 < bound <= usize::MAX / 8,
    ensures
        queue_bound(&ends.0) == bound,
{
    tokio::sync::mpsc::channel(bound)
}

/// Asks `tokio::sync::mpsc::Sender::max_capacity` for the size of the queue.
///
/// Trusted: that the answer is the number of slots the queue was made with.
#[verifier::external_body]
pub(crate) fn max_capacity(tx: &Sender<Event>) -> (bound: usize)
    ensures
        bound == queue_bound(tx),
{
    tx.max_capacity()
}

/// Asks `tokio::sync::mpsc::Sender::try_reserve` for a slot, without
/// waiting.
///
/// Nothing is claimed of the answer. It depends on what producers and the
/// consumer have done so far: a permit where a slot was free, otherwise the
/// reason tokio gives, passed on unchanged.
#[verifier::external_body]
pub(crate) fn try_reserve<'a>(tx: &'a Sender<Event>) -> (slot: Result<Permit<'a, Event>, Refusal>) {
    match tx.try_reserve() {
        Ok(permit) => Ok(permit),
        Err(TrySendError::Full(())) => Err(Refusal::Full),
        Err(TrySendError::Closed(())) => Err(Refusal::Closed),
    }
}

/// Puts `event` into the reserved slot with `tokio::sync::mpsc::Permit::send`.
///
/// Trusted: only that the call returns. It has no result, and what the
/// queue then holds is not modelled.
#[verifier::external_body]
pub(crate) fn commit(permit: Permit<'_, Event>, event: Event) {
    permit.send(event)
}

/// An event that the queue did not take: why, and how loudly that is to be
/// reported.
#[derive(Clone, Copy, Debug, PartialEq, Eq, Structural)]
pub struct Dropped {
    pub reason: Refusal,
    /// A warning for a full queue, an error for a closed one.
    pub level: Severity,
}

impl Dropped {
    /// The account of an event dropped for `reason`: the level is the one
    /// that goes with the reason.
    pub open spec fn spec_for(reason: Refusal) -> Dropped {
        Dropped { reason, level: reason.spec_severity() }
    }

    /// The account of an event dropped for `reason`.
    pub fn for_reason(reason: Refusal) -> (dropped: Dropped)
        ensures
            dropped == Dropped::spec_for(reason),
    {
        Dropped { reason, level: reason.severity() }
    }
}

/// Acts on the queue's answer to a request for a slot: where a slot was
/// granted, `event` goes into it; where the queue refused, `event` is dropped
/// and the reason passed on, with the level at which to report it. The
/// answer alone decides which.
pub fn deliver(slot: Result<Permit<'_, Event>, Refusal>, event: Event) -> (sent: Result<
    (),
    Dropped,
>)
    ensures
        slot is Ok ==> sent is Ok,
        slot matches Err(refusal) ==> sent == Err::<(), Dropped>(Dropped::spec_for(refusal)),
{
    match slot {
        Ok(permit) => {
            commit(permit, event);
            Ok(())
        },
        Err(refusal) => Err(Dropped::for_reason(refusal)),
    }
}

/// Polls `tokio::sync::mpsc::Receiver::recv` once, through
/// `futures::FutureExt::now_or_never`, so that the call never waits.
///
/// Nothing is claimed of the answer. It depends on what the producers have
/// sent: `Some(Some(event))` is the next event of the queue, `Some(None)`
/// says that the queue is closed and empty, and `None` that the poll was
/// pending: no event was ready, or the calling task had used up its share of
/// the scheduler's time.
#[verifier::external_body]
pub(crate) fn poll_recv(rx: &mut Receiver<Event>) -> (polled: Option<Option<Event>>) {
    rx.recv().now_or_never()
}

} // verus!
