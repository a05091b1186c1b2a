//! The collector: the one owner of the task table.

use crate::channel::poll_recv;
use crate::event::{Event, EventView};
use crate::model::{
    is_report_of, spec_anomalies, spec_outcome, spec_record, spec_report, spec_update,
    spec_update_all, Anomaly, Outcome, Record, Tasks,
};
use crate::stats::{Stats, Task, TaskView};
use crate::time::Duration;
use std::collections::HashMap;
use tokio::sync::mpsc::Receiver;
use vstd::prelude::*;
use vstd::std_specs::hash::spec_hash_map_iter;
use vstd::std_specs::iter::IteratorSpec;

verus! {

/// Consumes the events of one queue and keeps the statistics of every task
/// they mention. Records are never removed.
pub struct Collector {
    events: Receiver<Event>,
    tasks: HashMap<u64, Task>,
    tick_interval: Duration,
}

/// What one pass over the queue took from it.
#[derive(Debug)]
pub struct Drained {
    /// The number of events received.
    pub received: usize,
    /// The received events that were not simply applied, in the order
    /// received.
    pub anomalies: Vec<Anomaly>,
    /// Whether the queue is closed and empty, so that no event can follow.
    pub closed: bool,
}

impl Drained {
    /// Whether this is the account of receiving exactly `events`, in that
    /// order, on the table `before`, which left the table `after`.
    pub open spec fn accounts_for(self, before: Tasks, events: Seq<EventView>, after: Tasks) -> bool {
        &&& after == spec_update_all(before, events)
        &&& self.received == events.len()
        &&& self.anomalies@ == spec_anomalies(before, events)
    }
}

/// What one tick did: the pass over the queue, then the report.
#[derive(Debug)]
pub struct Tick {
    pub drained: Drained,
    /// One record for each task on record after the pass.
    pub records: Vec<Record>,
}

impl Tick {
    /// Whether the collector is done: the queue is closed and nothing is
    /// left in it.
    pub open spec fn spec_finished(self) -> bool {
        self.drained.closed
    }

    /// Whether the collector is done: the queue is closed and nothing is
    /// left in it.
    pub fn finished(&self) -> (done: bool)
        ensures
            done == self.spec_finished(),
    {
        self.drained.closed
    }
}

impl View for Collector {
    type V = Tasks;

    /// The task table.
    closed spec fn view(&self) -> Tasks {
        self.tasks@.map_values(|task: Task| task@)
    }
}

impl Collector {
    /// The time between two ticks, as given at construction.
    pub closed spec fn spec_tick_interval(&self) -> Duration {
        self.tick_interval
    }

    /// The receiving end of the queue that this collector reads.
    pub closed spec fn spec_events(&self) -> Receiver<Event> {
        self.events
    }

    /// A collector that reads the queue ending in `events`, with no task on
    /// record. Nothing is received yet.
    pub fn new(events: Receiver<Event>, tick_interval: Duration) -> (collector: Collector)
        ensures
            collector@ == Map::<u64, TaskView>::empty(),
            collector.spec_events() == events,
            collector.spec_tick_interval() == tick_interval,
    {
        let collector = Collector { events, tasks: HashMap::new(), tick_interval };
        assert(collector@ =~= Map::<u64, TaskView>::empty());
        collector
    }

    /// The time between two ticks.
    pub fn tick_interval(&self) -> (interval: Duration)
        ensures
            interval == self.spec_tick_interval(),
    {
        self.tick_interval
    }

    /// Applies one event to the task table and says how it was dealt with.
    ///
    /// An event for a task that is not on record, other than its creation, is
    /// skipped: the table stays as it was.
    pub fn update(&mut self, event: Event) -> (outcome: Outcome)
        ensures
            final(self)@ == spec_update(old(self)@, event@),
            outcome == spec_outcome(old(self)@, event@),
            !(event@ is Spawn) && !old(self)@.contains_key(event@.id()) ==> final(self)@ == old(
                self,
            )@ && outcome == Outcome::UnknownTask,
            final(self).spec_events() == old(self).spec_events(),
            final(self).spec_tick_interval() == old(self).spec_tick_interval(),
    {
        match event {
            Event::Spawn { id, time, fields } => {
                let mut task = match self.tasks.remove(&id) {
                    Some(task) => task,
                    None => Task::new(),
                };
                task.fields = fields;
                task.stats.record_spawn(time);
                self.tasks.insert(id, task);
                assert(self@ =~= spec_update(old(self)@, event@));
                Outcome::Applied
            },
            Event::Enter { id, time } => match self.tasks.remove(&id) {
                Some(mut task) => {
                    task.stats.record_enter(time);
                    self.tasks.insert(id, task);
                    assert(self@ =~= spec_update(old(self)@, event@));
                    Outcome::Applied
                },
                None => {
                    assert(self@ =~= old(self)@);
                    Outcome::UnknownTask
                },
            },
            Event::Exit { id, time } => match self.tasks.remove(&id) {
                Some(mut task) => {
                    let backwards = match task.stats.last_poll_started_at {
                        Some(started) => task.stats.poll_depth == 1 && !started.is_at_or_before(
                            &time,
                        ),
                        None => false,
                    };
                    let matched = task.stats.record_exit(time);
                    self.tasks.insert(id, task);
                    assert(self@ =~= spec_update(old(self)@, event@));
                    if !matched {
                        Outcome::UnmatchedExit
                    } else if backwards {
                        Outcome::ClockAnomaly
                    } else {
                        Outcome::Applied
                    }
                },
                None => {
                    assert(self@ =~= old(self)@);
                    Outcome::UnknownTask
                },
            },
            Event::Close { id, time } => match self.tasks.remove(&id) {
                Some(mut task) => {
                    let backwards = match task.stats.created_at {
                        Some(created) => !created.is_at_or_before(&time),
                        None => false,
                    };
                    task.stats.record_close(time);
                    self.tasks.insert(id, task);
                    assert(self@ =~= spec_update(old(self)@, event@));
                    if backwards {
                        Outcome::ClockAnomaly
                    } else {
                        Outcome::Applied
                    }
                },
                None => {
                    assert(self@ =~= old(self)@);
                    Outcome::UnknownTask
                },
            },
        }
    }

    /// Acts on one answer of the queue and enters it in the account of the
    /// pass. The answer alone decides what happens:
    ///
    /// - an event is applied to the table and counted, and listed where it
    ///   was not simply applied; the pass goes on;
    /// - a queue that is closed and empty is recorded as closed, and the pass
    ///   ends;
    /// - a queue with nothing ready ends the pass and nothing else: it is not
    ///   recorded as closed, so the collector lives on.
    ///
    /// Returns whether the pass goes on.
    pub fn absorb(&mut self, polled: Option<Option<Event>>, drained: &mut Drained) -> (more: bool)
        requires
            old(drained).received < usize::MAX,
        ensures
            final(self).spec_events() == old(self).spec_events(),
            final(self).spec_tick_interval() == old(self).spec_tick_interval(),
            polled matches Some(Some(event)) ==> {
                &&& more
                &&& final(self)@ == spec_update(old(self)@, event@)
                &&& final(drained).received == old(drained).received + 1
                &&& final(drained).closed == old(drained).closed
                &&& final(drained).anomalies@ == (if spec_outcome(old(self)@, event@)
                    == Outcome::Applied {
                    old(drained).anomalies@
                } else {
                    old(drained).anomalies@.push(
                        Anomaly {
                            task_id: event@.id(),
                            outcome: spec_outcome(old(self)@, event@),
                        },
                    )
                })
            },
            polled matches Some(None) ==> {
                &&& !more
                &&& final(self)@ == old(self)@
                &&& final(drained).closed
                &&& final(drained).received == old(drained).received
                &&& final(drained).anomalies@ == old(drained).anomalies@
            },
            polled is None ==> {
                &&& !more
                &&& final(self)@ == old(self)@
                &&& final(drained).closed == old(drained).closed
                &&& final(drained).received == old(drained).received
                &&& final(drained).anomalies@ == old(drained).anomalies@
            },
    {
        match polled {
            Some(Some(event)) => {
                let task_id = event.task_id();
                let outcome = self.update(event);
                match outcome {
                    Outcome::Applied => {},
                    _ => {
                        drained.anomalies.push(Anomaly { task_id, outcome });
                    },
                }
                drained.received = drained.received + 1;
                true
            },
            Some(None) => {
                drained.closed = true;
                false
            },
            None => false,
        }
    }

    /// One pass over the queue: polls it, without ever waiting, and acts on
    /// each answer as [`Collector::absorb`] says, until an answer ends the
    /// pass. Events are applied in the order received.
    ///
    /// A pass ends when the queue is closed and empty, or when a poll finds
    /// nothing ready. The latter is also what a poll answers once the task
    /// that runs the collector has used up its share of the scheduler's
    /// time, though events may still be queued; they wait for the next pass.
    /// So does what is left after `usize::MAX` events in one pass.
    ///
    /// Which events arrive is up to the producers. Whatever they were, the
    /// table afterwards is the table before with exactly those events
    /// applied, and every one of them that was not simply applied is listed.
    pub fn drain(&mut self) -> (drained: Drained)
        ensures
            exists|events: Seq<EventView>| #[trigger]
                drained.accounts_for(old(self)@, events, final(self)@),
            final(self).spec_tick_interval() == old(self).spec_tick_interval(),
    {
        let mut drained = Drained { received: 0, anomalies: Vec::new(), closed: false };
        let mut more = true;
        let ghost mut events: Seq<EventView> = Seq::empty();
        while more && drained.received < usize::MAX
            invariant
                drained.accounts_for(old(self)@, events, self@),
                self.spec_tick_interval() == old(self).spec_tick_interval(),
            decreases usize::MAX - drained.received, more as int,
        {
            let polled = poll_recv(&mut self.events);
            proof {
                if polled is Some && polled->0 is Some {
                    let received = polled->0->0@;
                    assert(events.push(received).drop_last() =~= events);
                    events = events.push(received);
                }
            }
            more = self.absorb(polled, &mut drained);
        }
        drained
    }

    /// One tick: a pass over the queue, then a report of every task on
    /// record after it.
    pub fn tick(&mut self) -> (tick: Tick)
        ensures
            exists|events: Seq<EventView>| #[trigger]
                tick.drained.accounts_for(old(self)@, events, final(self)@),
            is_report_of(tick.records@, final(self)@),
            final(self).spec_tick_interval() == old(self).spec_tick_interval(),
    {
        let drained = self.drain();
        let ghost events = choose|events: Seq<EventView>| #[trigger]
            drained.accounts_for(old(self)@, events, self@);
        let records = self.produce_metrics();
        let tick = Tick { drained, records };
        assert(tick.drained.accounts_for(old(self)@, events, self@));
        tick
    }

    /// Lists one record for each task on record. Reading the table changes
    /// nothing in it.
    pub fn produce_metrics(&self) -> (records: Vec<Record>)
        ensures
            is_report_of(records@, self@),
            records@.len() == self@.len(),
    {
        let mut records: Vec<Record> = Vec::new();
        let ghost entries = spec_hash_map_iter(&self.tasks).remaining();
        for entry in it: self.tasks.iter()
            invariant
                it.seq() == entries,
                entries.no_duplicates(),
                records@.len() == it.index(),
                forall|i: int|
                    0 <= i < records@.len() ==> records@[i] == spec_record(
                        *entries[i].0,
                        entries[i].1.stats,
                    ),
        {
            let (id, task) = entry;
            records.push(Record::of(*id, &task.stats));
        }
        proof {
            let table = self.tasks@;
            assert(self@.dom() =~= table.dom());
            assert(records@.len() == entries.len());
            assert forall|i: int, j: int|
                0 <= i < records@.len() && 0 <= j < records@.len() && i != j implies records@[i]
                != records@[j] by {
                if records@[i] == records@[j] {
                    assert(*entries[i].0 == *entries[j].0);
                    assert(table[*entries[i].0] == *entries[i].1);
                    assert(table[*entries[j].0] == *entries[j].1);
                    assert(entries[i] == entries[j]);
                }
            }
            assert forall|record: Record| records@.to_set().contains(record) implies spec_report(
                self@,
            ).contains(record) by {
                let i = choose|i: int| 0 <= i < records@.len() && records@[i] == record;
                assert(table.contains_key(*entries[i].0));
                assert(table[*entries[i].0] == *entries[i].1);
            }
            assert forall|record: Record| spec_report(self@).contains(
                record,
            ) implies records@.to_set().contains(record) by {
                let id = record.task_id;
                assert(table.contains_key(id));
                assert(entries.contains((&id, &table[id])));
                let i = choose|i: int| 0 <= i < entries.len() && entries[i] == (&id, &table[id]);
                assert(records@[i] == record);
            }
            assert(records@.to_set() =~= spec_report(self@));
        }
        records
    }

    /// The statistics on record for task `id`, if it is on record.
    pub fn stats(&self, id: u64) -> (stats: Option<Stats>)
        ensures
            stats == (if self@.contains_key(id) {
                Some(self@[id].stats)
            } else {
                None
            }),
    {
        match self.tasks.get(&id) {
            Some(task) => Some(task.stats),
            None => None,
        }
    }

    /// The text captured at the creation of task `id`, if it is on record.
    pub fn fields(&self, id: u64) -> (fields: Option<String>)
        ensures
            fields is Some <==> self@.contains_key(id),
            fields matches Some(text) ==> text@ == self@[id].fields,
    {
        match self.tasks.get(&id) {
            Some(task) => Some(task.fields.clone()),
            None => None,
        }
    }

    /// The number of tasks on record.
    pub fn task_count(&self) -> (count: usize)
        ensures
            count == self@.len(),
    {
        assert(self@.dom() =~= self.tasks@.dom());
        self.tasks.len()
    }
}

} // verus!
