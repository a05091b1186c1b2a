//! What holds of the transition rules, whatever the events are.

use crate::event::EventView;
use crate::model::{
    is_report_of, spec_anomalies, spec_outcome, spec_update, spec_update_all, Outcome, Record,
    Tasks,
};
use crate::stats::Stats;
use crate::time::{spec_accumulate, spec_elapsed, Timestamp};
use vstd::prelude::*;

verus! {

/// An event never removes a record, and touches no record but that of the
/// task it names.
pub proof fn lemma_update_keeps_other_records(tasks: Tasks, event: EventView, id: u64)
    requires
        tasks.contains_key(id),
    ensures
        spec_update(tasks, event).contains_key(id),
        event.id() != id ==> spec_update(tasks, event)[id] == tasks[id],
        !tasks.contains_key(event.id()) && !(event is Spawn) ==> spec_update(tasks, event)
            == tasks,
{
}

/// An event other than a creation, for a task that is not on record, is
/// skipped: the table stays as it was, no record is made for the task, and
/// the outcome says so.
pub proof fn lemma_unknown_task_is_skipped(tasks: Tasks, event: EventView)
    requires
        !(event is Spawn),
        !tasks.contains_key(event.id()),
    ensures
        spec_update(tasks, event) == tasks,
        !spec_update(tasks, event).contains_key(event.id()),
        spec_outcome(tasks, event) == Outcome::UnknownTask,
{
}

/// The busy time of a task on record never shrinks, whatever the event.
pub proof fn lemma_busy_time_never_shrinks(tasks: Tasks, event: EventView, id: u64)
    requires
        tasks.contains_key(id),
    ensures
        spec_update(tasks, event)[id].stats.busy_time.nanos >= tasks[id].stats.busy_time.nanos,
{
}

/// The busy time of a task on record never shrinks, however many events
/// follow, and the task stays on record.
pub proof fn lemma_busy_time_is_monotonic(tasks: Tasks, events: Seq<EventView>, id: u64)
    requires
        tasks.contains_key(id),
    ensures
        spec_update_all(tasks, events).contains_key(id),
        spec_update_all(tasks, events)[id].stats.busy_time.nanos
            >= tasks[id].stats.busy_time.nanos,
    decreases events.len(),
{
    if events.len() > 0 {
        lemma_busy_time_is_monotonic(tasks, events.drop_last(), id);
        lemma_busy_time_never_shrinks(
            spec_update_all(tasks, events.drop_last()),
            events.last(),
            id,
        );
    }
}

/// Applying two runs of events one after the other is applying them all in
/// one go: what two passes over the queue leave behind is what all their
/// events leave behind.
pub proof fn lemma_passes_compose(tasks: Tasks, first: Seq<EventView>, second: Seq<EventView>)
    ensures
        spec_update_all(tasks, first + second) == spec_update_all(
            spec_update_all(tasks, first),
            second,
        ),
    decreases second.len(),
{
    if second.len() == 0 {
        assert(first + second =~= first);
    } else {
        assert((first + second).drop_last() =~= first + second.drop_last());
        assert((first + second).last() == second.last());
        lemma_passes_compose(tasks, first, second.drop_last());
    }
}

/// The list of anomalies holds no event that was simply applied, and at most
/// one entry for each event.
pub proof fn lemma_anomalies_are_not_applied(tasks: Tasks, events: Seq<EventView>)
    ensures
        spec_anomalies(tasks, events).len() <= events.len(),
        forall|i: int|
            0 <= i < spec_anomalies(tasks, events).len() ==> (#[trigger] spec_anomalies(
                tasks,
                events,
            )[i]).outcome != Outcome::Applied,
    decreases events.len(),
{
    if events.len() > 0 {
        lemma_anomalies_are_not_applied(tasks, events.drop_last());
    }
}

/// The events of `events` that are about task `id`, in their order.
pub open spec fn spec_history_of(id: u64, events: Seq<EventView>) -> Seq<EventView>
    decreases events.len(),
{
    if events.len() == 0 {
        Seq::empty()
    } else if events.last().id() == id {
        spec_history_of(id, events.drop_last()).push(events.last())
    } else {
        spec_history_of(id, events.drop_last())
    }
}

/// The record of a task depends on the events about that task alone: the
/// events of other tasks, mixed into the stream in any way, change nothing
/// in it.
pub proof fn lemma_record_depends_on_own_history(tasks: Tasks, id: u64, events: Seq<EventView>)
    ensures
        spec_update_all(tasks, events).contains_key(id) == spec_update_all(
            tasks,
            spec_history_of(id, events),
        ).contains_key(id),
        spec_update_all(tasks, events).contains_key(id) ==> spec_update_all(tasks, events)[id]
            == spec_update_all(tasks, spec_history_of(id, events))[id],
    decreases events.len(),
{
    if events.len() > 0 {
        let earlier = events.drop_last();
        lemma_record_depends_on_own_history(tasks, id, earlier);
        if events.last().id() == id {
            let own = spec_history_of(id, earlier);
            assert(own.push(events.last()).drop_last() =~= own);
        }
    }
}

/// The run count grows by one on an entry from idle and on nothing else: not
/// on an entry while running, and not on an exit, a completion or a second
/// creation. (At the largest `u64` it stays.)
pub proof fn lemma_poll_count_counts_runs(stats: Stats, time: Timestamp)
    ensures
        stats.poll_depth == 0 && stats.poll_count < u64::MAX ==> stats.spec_enter(time).poll_count
            == stats.poll_count + 1,
        stats.poll_depth > 0 ==> stats.spec_enter(time).poll_count == stats.poll_count,
        stats.spec_exit(time).poll_count == stats.poll_count,
        stats.spec_close(time).poll_count == stats.poll_count,
        stats.spec_spawn(time).poll_count == stats.poll_count,
{
}

/// Two entries followed by two exits, on an idle task: the depth goes to 1,
/// to 2, back to 1 and back to 0. The busy time stays as it was until the
/// last exit, which adds the whole span from the first entry to itself.
pub proof fn lemma_nested_runs_count_once(
    stats: Stats,
    outer_in: Timestamp,
    inner_in: Timestamp,
    inner_out: Timestamp,
    outer_out: Timestamp,
)
    requires
        stats.poll_depth == 0,
    ensures
        ({
            let first = stats.spec_enter(outer_in);
            let second = first.spec_enter(inner_in);
            let third = second.spec_exit(inner_out);
            let fourth = third.spec_exit(outer_out);
            &&& first.poll_depth == 1
            &&& second.poll_depth == 2
            &&& third.poll_depth == 1
            &&& fourth.poll_depth == 0
            &&& first.busy_time == stats.busy_time
            &&& second.busy_time == stats.busy_time
            &&& third.busy_time == stats.busy_time
            &&& fourth.busy_time == spec_accumulate(
                stats.busy_time,
                spec_elapsed(outer_in, outer_out),
            )
            &&& second.poll_count == first.poll_count
        }),
{
}

/// A tick that receives nothing reports what the tick before it reported:
/// the same records, as many of them.
pub proof fn lemma_idle_tick_repeats_report(tasks: Tasks, first: Seq<Record>, second: Seq<Record>)
    requires
        is_report_of(first, tasks),
        is_report_of(second, spec_update_all(tasks, Seq::empty())),
    ensures
        spec_update_all(tasks, Seq::empty()) == tasks,
        second.to_set() == first.to_set(),
        second.len() == first.len(),
{
    first.unique_seq_to_set();
    second.unique_seq_to_set();
}

/// Whether `events` is the orderly history of task `id` alone: it opens with
/// the creation of the task, which is its only creation; every event is about
/// `id`; a completion, if there is one, is the last event; and the timestamps
/// never go back. How entries and exits nest is left open.
pub open spec fn spec_orderly_history(id: u64, events: Seq<EventView>) -> bool {
    &&& events.len() > 0
    &&& events[0] is Spawn
    &&& forall|i: int| 0 <= i < events.len() ==> (#[trigger] events[i]).id() == id
    &&& forall|i: int| 1 <= i < events.len() ==> !(#[trigger] events[i] is Spawn)
    &&& forall|i: int| 0 <= i < events.len() - 1 ==> !(#[trigger] events[i] is Close)
    &&& forall|i: int, j: int|
        0 <= i <= j < events.len() ==> (#[trigger] events[i]).time().nanos <= (
        #[trigger] events[j]).time().nanos
}

/// Whether the times in `stats` are in the order of a life that has reached
/// `now`: created, then first run, then latest run, none of them after `now`.
pub open spec fn spec_times_in_order(stats: Stats, now: Timestamp) -> bool {
    &&& stats.created_at matches Some(created)
    &&& created.nanos <= now.nanos
    &&& stats.first_poll_at matches Some(first) ==> created.nanos <= first.nanos && first.nanos
        <= now.nanos
    &&& stats.last_poll_started_at matches Some(started) ==> (stats.first_poll_at matches Some(
        first,
    ) && first.nanos <= started.nanos && started.nanos <= now.nanos)
    &&& stats.poll_depth > 0 ==> stats.last_poll_started_at is Some
    &&& stats.closed_at matches Some(closed) ==> closed == now
}

/// Whether the busy time in `stats` fits into the part of the task's life
/// that lies behind it: before the start of the run that is under way, or
/// before `now` where the task is idle.
pub open spec fn spec_busy_time_fits(stats: Stats, now: Timestamp) -> bool {
    &&& stats.created_at matches Some(created)
    &&& if stats.poll_depth > 0 {
        stats.last_poll_started_at matches Some(started) && stats.busy_time.nanos
            <= started.nanos - created.nanos
    } else {
        stats.busy_time.nanos <= now.nanos - created.nanos
    }
}

/// After an orderly history the task is on record, its times are in order,
/// and its busy time fits into the life behind it.
pub proof fn lemma_orderly_history_keeps_account(tasks: Tasks, id: u64, events: Seq<EventView>)
    requires
        !tasks.contains_key(id),
        spec_orderly_history(id, events),
    ensures
        spec_update_all(tasks, events).contains_key(id),
        spec_times_in_order(spec_update_all(tasks, events)[id].stats, events.last().time()),
        spec_busy_time_fits(spec_update_all(tasks, events)[id].stats, events.last().time()),
        spec_update_all(tasks, events)[id].stats.closed_at is Some <==> events.last() is Close,
    decreases events.len(),
{
    let earlier = events.drop_last();
    if events.len() == 1 {
        assert(spec_update_all(tasks, earlier) == tasks);
    } else {
        assert forall|i: int| 0 <= i < earlier.len() implies #[trigger] earlier[i] == events[i] by {}
        assert(spec_orderly_history(id, earlier));
        lemma_orderly_history_keeps_account(tasks, id, earlier);
        assert(earlier.last() == events[events.len() - 2]);
        assert(events.last() == events[events.len() - 1]);
    }
}

/// The timestamps of a task with an orderly history are in the order of its
/// life: creation, first run, latest run, completion, as far as they are
/// known.
pub proof fn lemma_timestamps_in_order(tasks: Tasks, id: u64, events: Seq<EventView>)
    requires
        !tasks.contains_key(id),
        spec_orderly_history(id, events),
    ensures
        ({
            let stats = spec_update_all(tasks, events)[id].stats;
            &&& stats.created_at is Some
            &&& stats.first_poll_at matches Some(first) ==> stats.created_at->0.nanos
                <= first.nanos
            &&& stats.last_poll_started_at matches Some(started) ==> stats.first_poll_at is Some
                && stats.first_poll_at->0.nanos <= started.nanos
            &&& stats.closed_at matches Some(closed) ==> (stats.created_at->0.nanos <= closed.nanos
                && (stats.last_poll_started_at matches Some(started) ==> started.nanos
                <= closed.nanos))
        }),
{
    lemma_orderly_history_keeps_account(tasks, id, events);
}

/// A task with an orderly history has not been busy for longer than it has
/// lived: once it is closed, its total time is known and its busy time is at
/// most that.
pub proof fn lemma_busy_time_within_total_time(tasks: Tasks, id: u64, events: Seq<EventView>)
    requires
        !tasks.contains_key(id),
        spec_orderly_history(id, events),
    ensures
        ({
            let stats = spec_update_all(tasks, events)[id].stats;
            &&& spec_update_all(tasks, events).contains_key(id)
            &&& stats.busy_time.nanos >= 0
            &&& stats.closed_at is Some ==> (stats.spec_total_time() matches Some(total)
                && stats.busy_time.nanos <= total.nanos && total.nanos == stats.closed_at->0.nanos
                - stats.created_at->0.nanos)
        }),
{
    lemma_orderly_history_keeps_account(tasks, id, events);
}

/// The same holds in a stream that mixes the events of many tasks: where the
/// events about task `id` form an orderly history, the task, once closed, has
/// a known total time and a busy time of at most that.
pub proof fn lemma_busy_time_within_total_time_in_stream(
    tasks: Tasks,
    id: u64,
    events: Seq<EventView>,
)
    requires
        !tasks.contains_key(id),
        spec_orderly_history(id, spec_history_of(id, events)),
    ensures
        ({
            let stats = spec_update_all(tasks, events)[id].stats;
            &&& spec_update_all(tasks, events).contains_key(id)
            &&& stats.closed_at is Some ==> (stats.spec_total_time() matches Some(total)
                && stats.busy_time.nanos <= total.nanos)
        }),
{
    lemma_record_depends_on_own_history(tasks, id, events);
    lemma_busy_time_within_total_time(tasks, id, spec_history_of(id, events));
}

} // verus!
