//! The collector as mathematics: a table from task identifier to task
//! record, and the function that one event applies to it.

use crate::event::EventView;
use crate::stats::{Stats, TaskView};
use crate::time::Duration;
use vstd::prelude::*;

verus! {

/// The table of tracked tasks.
pub type Tasks = Map<u64, TaskView>;

/// How the collector dealt with one event.
#[derive(Clone, Copy, Debug, PartialEq, Eq, Structural)]
pub enum Outcome {
    /// The event changed the task's record as its rule says.
    Applied,
    /// The event was applied, but an interval it closes is negative by the
    /// clock and counts as zero.
    ClockAnomaly,
    /// The event names a task that was never created here; it was skipped.
    UnknownTask,
    /// The exit matches no entry; it was skipped.
    UnmatchedExit,
}

/// The statistics that a creation event for `id` starts from: those on
/// record, or fresh ones for a task not seen before.
pub open spec fn spec_stats_or_new(tasks: Tasks, id: u64) -> Stats {
    if tasks.contains_key(id) {
        tasks[id].stats
    } else {
        Stats::spec_new()
    }
}

/// The table after `event`.
///
/// A creation event makes the record if there is none, replaces the text and
/// the creation time, and marks the task active. Each of the other kinds
/// changes the statistics of a task on record and leaves the table alone if
/// the task is not on record.
pub open spec fn spec_update(tasks: Tasks, event: EventView) -> Tasks {
    match event {
        EventView::Spawn { id, time, fields } => tasks.insert(
            id,
            TaskView { fields, stats: spec_stats_or_new(tasks, id).spec_spawn(time) },
        ),
        EventView::Enter { id, time } => if tasks.contains_key(id) {
            tasks.insert(
                id,
                TaskView { fields: tasks[id].fields, stats: tasks[id].stats.spec_enter(time) },
            )
        } else {
            tasks
        },
        EventView::Exit { id, time } => if tasks.contains_key(id) {
            tasks.insert(
                id,
                TaskView { fields: tasks[id].fields, stats: tasks[id].stats.spec_exit(time) },
            )
        } else {
            tasks
        },
        EventView::Close { id, time } => if tasks.contains_key(id) {
            tasks.insert(
                id,
                TaskView { fields: tasks[id].fields, stats: tasks[id].stats.spec_close(time) },
            )
        } else {
            tasks
        },
    }
}

/// How `event` is dealt with when it meets the table `tasks`.
pub open spec fn spec_outcome(tasks: Tasks, event: EventView) -> Outcome {
    match event {
        EventView::Spawn { .. } => Outcome::Applied,
        EventView::Enter { id, .. } => if tasks.contains_key(id) {
            Outcome::Applied
        } else {
            Outcome::UnknownTask
        },
        EventView::Exit { id, time } => if !tasks.contains_key(id) {
            Outcome::UnknownTask
        } else if !tasks[id].stats.spec_running() {
            Outcome::UnmatchedExit
        } else if tasks[id].stats.spec_clock_ran_backwards(time) {
            Outcome::ClockAnomaly
        } else {
            Outcome::Applied
        },
        EventView::Close { id, time } => if !tasks.contains_key(id) {
            Outcome::UnknownTask
        } else if tasks[id].stats.created_at matches Some(created) && time.nanos
            < created.nanos {
            Outcome::ClockAnomaly
        } else {
            Outcome::Applied
        },
    }
}

/// The table after the events of `events`, applied first to last.
pub open spec fn spec_update_all(tasks: Tasks, events: Seq<EventView>) -> Tasks
    decreases events.len(),
{
    if events.len() == 0 {
        tasks
    } else {
        spec_update(spec_update_all(tasks, events.drop_last()), events.last())
    }
}

/// An event that was not simply applied, and why.
#[derive(Clone, Copy, Debug, PartialEq, Eq, Structural)]
pub struct Anomaly {
    /// The task the event is about.
    pub task_id: u64,
    /// How the event was dealt with; never [`Outcome::Applied`].
    pub outcome: Outcome,
}

/// The anomalies met while the events of `events` are applied to `tasks`,
/// first to last: one for each event whose outcome is not
/// [`Outcome::Applied`], in the order of the events.
pub open spec fn spec_anomalies(tasks: Tasks, events: Seq<EventView>) -> Seq<Anomaly>
    decreases events.len(),
{
    if events.len() == 0 {
        Seq::empty()
    } else {
        let earlier = spec_anomalies(tasks, events.drop_last());
        let outcome = spec_outcome(spec_update_all(tasks, events.drop_last()), events.last());
        if outcome == Outcome::Applied {
            earlier
        } else {
            earlier.push(Anomaly { task_id: events.last().id(), outcome })
        }
    }
}

/// What a tick says of one task.
#[derive(Clone, Copy, Debug, PartialEq, Eq, Structural)]
pub struct Record {
    pub task_id: u64,
    /// Whether the task is still running its course.
    pub active: bool,
    /// The lifetime of a task that is no longer active, where both its ends
    /// are known. An active task has none yet.
    pub total_time: Option<Duration>,
}

/// The record of task `id` with statistics `stats`.
pub open spec fn spec_record(id: u64, stats: Stats) -> Record {
    Record {
        task_id: id,
        active: stats.active,
        total_time: if stats.active {
            None
        } else {
            stats.spec_total_time()
        },
    }
}

/// The records of a table: one for each task on record.
pub open spec fn spec_report(tasks: Tasks) -> Set<Record> {
    Set::new(
        |record: Record|
            tasks.contains_key(record.task_id) && record == spec_record(
                record.task_id,
                tasks[record.task_id].stats,
            ),
    )
}

/// Whether `records` lists the records of `tasks`: each of them once, and
/// nothing else. The order is left open.
pub open spec fn is_report_of(records: Seq<Record>, tasks: Tasks) -> bool {
    &&& records.no_duplicates()
    &&& records.to_set() == spec_report(tasks)
}

impl Record {
    /// The record of task `id` with statistics `stats`.
    pub fn of(id: u64, stats: &Stats) -> (record: Record)
        ensures
            record == spec_record(id, *stats),
    {
        Record {
            task_id: id,
            active: stats.active,
            total_time: if stats.active {
                None
            } else {
                stats.total_time()
            },
        }
    }
}

} // verus!
