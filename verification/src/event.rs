//! Lifecycle events: the four transitions a task reports.

use crate::time::{now, Timestamp};
use vstd::prelude::*;

verus! {

/// One lifecycle transition of one task. An event is an immutable record: it
/// names the task and carries the instant at which the transition was seen.
#[derive(Debug, PartialEq, Eq)]
pub enum Event {
    /// The task was created. `fields` is descriptive text captured once, at
    /// creation.
    Spawn { id: u64, time: Timestamp, fields: String },
    /// The task was scheduled onto a worker.
    Enter { id: u64, time: Timestamp },
    /// The task was descheduled.
    Exit { id: u64, time: Timestamp },
    /// The task completed.
    Close { id: u64, time: Timestamp },
}

/// The mathematical content of an [`Event`]: the same four kinds, with the
/// creation text as a sequence of characters.
pub enum EventView {
    Spawn { id: u64, time: Timestamp, fields: Seq<char> },
    Enter { id: u64, time: Timestamp },
    Exit { id: u64, time: Timestamp },
    Close { id: u64, time: Timestamp },
}

impl EventView {
    /// The task the event is about.
    pub open spec fn id(self) -> u64 {
        match self {
            EventView::Spawn { id, .. } => id,
            EventView::Enter { id, .. } => id,
            EventView::Exit { id, .. } => id,
            EventView::Close { id, .. } => id,
        }
    }

    /// The instant stamped on the event.
    pub open spec fn time(self) -> Timestamp {
        match self {
            EventView::Spawn { time, .. } => time,
            EventView::Enter { time, .. } => time,
            EventView::Exit { time, .. } => time,
            EventView::Close { time, .. } => time,
        }
    }
}

impl View for Event {
    type V = EventView;

    open spec fn view(&self) -> EventView {
        match *self {
            Event::Spawn { id, time, fields } => EventView::Spawn { id, time, fields: fields@ },
            Event::Enter { id, time } => EventView::Enter { id, time },
            Event::Exit { id, time } => EventView::Exit { id, time },
            Event::Close { id, time } => EventView::Close { id, time },
        }
    }
}

impl Event {
    /// A creation event for task `id`, stamped with the current time.
    pub fn spawn(id: u64, fields: String) -> (event: Event)
        ensures
            event@ == (EventView::Spawn { id, time: event@.time(), fields: fields@ }),
    {
        Event::Spawn { id, time: now(), fields }
    }

    /// A scheduling event for task `id`, stamped with the current time.
    pub fn enter(id: u64) -> (event: Event)
        ensures
            event@ == (EventView::Enter { id, time: event@.time() }),
    {
        Event::Enter { id, time: now() }
    }

    /// A descheduling event for task `id`, stamped with the current time.
    pub fn exit(id: u64) -> (event: Event)
        ensures
            event@ == (EventView::Exit { id, time: event@.time() }),
    {
        Event::Exit { id, time: now() }
    }

    /// A completion event for task `id`, stamped with the current time.
    pub fn close(id: u64) -> (event: Event)
        ensures
            event@ == (EventView::Close { id, time: event@.time() }),
    {
        Event::Close { id, time: now() }
    }

    /// The task the event is about.
    pub fn task_id(&self) -> (id: u64)
        ensures
            id == self@.id(),
    {
        match self {
            Event::Spawn { id, .. } => *id,
            Event::Enter { id, .. } => *id,
            Event::Exit { id, .. } => *id,
            Event::Close { id, .. } => *id,
        }
    }

    /// The instant stamped on the event.
    pub fn time(&self) -> (time: Timestamp)
        ensures
            time == self@.time(),
    {
        match self {
            Event::Spawn { time, .. } => *time,
            Event::Enter { time, .. } => *time,
            Event::Exit { time, .. } => *time,
            Event::Close { time, .. } => *time,
        }
    }
}

} // verus!
