//! The producer side: where instrumented call sites hand in their events.

use crate::channel::{deliver, max_capacity, open_channel, queue_bound, try_reserve, Dropped};
use crate::collector::Collector;
use crate::event::Event;
use crate::stats::TaskView;
use crate::time::{Duration, NANOS_PER_SEC};
use tokio::sync::mpsc::{Receiver, Sender};
use vstd::prelude::*;

verus! {

/// The number of events the queue holds at most.
pub const QUEUE_CAPACITY: usize = 100;

/// The seconds between two ticks of the collector.
pub const TICK_INTERVAL_SECS: u64 = 1;

/// The hook that call sites report to. It owns the sending end of the queue
/// and, until it is taken out, the collector at the receiving end.
pub struct BeeLayer {
    event_sender: Sender<Event>,
    collector: Option<Collector>,
}

impl BeeLayer {
    /// The sending end of the queue that this hook writes to.
    pub closed spec fn spec_sender(&self) -> Sender<Event> {
        self.event_sender
    }

    /// The number of events the queue was made to hold.
    pub open spec fn spec_capacity(&self) -> usize {
        queue_bound(&self.spec_sender())
    }

    /// The collector, while it has not been taken out.
    pub closed spec fn spec_collector(&self) -> Option<Collector> {
        self.collector
    }

    /// A hook on the queue whose two ends are `event_sender` and `events`:
    /// the hook sends into the one, and its collector, which has no task on
    /// record and ticks every `tick_interval`, reads the other.
    pub fn with_queue(
        event_sender: Sender<Event>,
        events: Receiver<Event>,
        tick_interval: Duration,
    ) -> (layer: BeeLayer)
        ensures
            layer.spec_sender() == event_sender,
            layer.spec_collector() is Some,
            layer.spec_collector()->0.spec_events() == events,
            layer.spec_collector()->0@ == Map::<u64, TaskView>::empty(),
            layer.spec_collector()->0.spec_tick_interval() == tick_interval,
    {
        let collector = Collector::new(events, tick_interval);
        BeeLayer { event_sender, collector: Some(collector) }
    }

    /// A hook on a new queue of [`QUEUE_CAPACITY`] slots: the hook holds the
    /// sending end, and its collector, which has no task on record and ticks
    /// every [`TICK_INTERVAL_SECS`] seconds, the receiving end.
    pub fn new() -> (layer: BeeLayer)
        ensures
            layer.spec_capacity() == QUEUE_CAPACITY,
            layer.spec_collector() is Some,
            layer.spec_collector()->0@ == Map::<u64, TaskView>::empty(),
            layer.spec_collector()->0.spec_tick_interval().nanos == TICK_INTERVAL_SECS
                * NANOS_PER_SEC,
    {
        let (event_sender, events) = open_channel(QUEUE_CAPACITY);
        BeeLayer::with_queue(event_sender, events, Duration::from_secs(TICK_INTERVAL_SECS))
    }

    /// The number of events the queue was made to hold.
    pub fn capacity(&self) -> (bound: usize)
        ensures
            bound == self.spec_capacity(),
    {
        max_capacity(&self.event_sender)
    }

    /// Takes the collector out, to be run. It is there once.
    pub fn take_collector(&mut self) -> (collector: Option<Collector>)
        ensures
            collector == old(self).spec_collector(),
            final(self).spec_collector() is None,
            final(self).spec_sender() == old(self).spec_sender(),
    {
        self.collector.take()
    }

    /// Offers `event` to the queue without ever waiting. Where a slot is
    /// free the event is enqueued; where the queue is full or closed the
    /// event is dropped. Which of these happens is up to the queue. A drop
    /// comes back with its reason and with the level at which it is to be
    /// reported: a warning for a full queue, an error for a closed one.
    pub fn send(&self, event: Event) -> (sent: Result<(), Dropped>)
        ensures
            sent matches Err(dropped) ==> dropped.level == dropped.reason.spec_severity(),
    {
        deliver(try_reserve(&self.event_sender), event)
    }

    /// Reports that task `id` was created, described by `fields`. A drop
    /// comes back as from [`BeeLayer::send`].
    pub fn new_span(&self, id: u64, fields: String) -> (sent: Result<(), Dropped>)
        ensures
            sent matches Err(dropped) ==> dropped.level == dropped.reason.spec_severity(),
    {
        self.send(Event::spawn(id, fields))
    }

    /// Reports that task `id` was scheduled onto a worker. A drop comes back
    /// as from [`BeeLayer::send`].
    pub fn on_enter(&self, id: u64) -> (sent: Result<(), Dropped>)
        ensures
            sent matches Err(dropped) ==> dropped.level == dropped.reason.spec_severity(),
    {
        self.send(Event::enter(id))
    }

    /// Reports that task `id` was descheduled. A drop comes back as from
    /// [`BeeLayer::send`].
    pub fn on_exit(&self, id: u64) -> (sent: Result<(), Dropped>)
        ensures
            sent matches Err(dropped) ==> dropped.level == dropped.reason.spec_severity(),
    {
        self.send(Event::exit(id))
    }

    /// Reports that task `id` completed. A drop comes back as from
    /// [`BeeLayer::send`].
    pub fn on_close(&self, id: u64) -> (sent: Result<(), Dropped>)
        ensures
            sent matches Err(dropped) ==> dropped.level == dropped.reason.spec_severity(),
    {
        self.send(Event::close(id))
    }
}

} // verus!
