//! The running statistics of one task and the rules by which each kind of
//! event changes them.

use crate::time::{spec_accumulate, spec_elapsed, Duration, Timestamp};
use vstd::prelude::*;

verus! {

/// What has been observed of one task so far.
#[derive(Clone, Copy, Debug, PartialEq, Eq, Structural)]
pub struct Stats {
    /// True from creation until completion.
    pub active: bool,
    /// The number of entries that no exit has matched yet. The task is
    /// running while this is above zero.
    pub poll_depth: u64,
    /// How often the task went from idle to running.
    pub poll_count: u64,
    /// When the task was created.
    pub created_at: Option<Timestamp>,
    /// When the task first went from idle to running.
    pub first_poll_at: Option<Timestamp>,
    /// When the task last went from idle to running.
    pub last_poll_started_at: Option<Timestamp>,
    /// When the task completed.
    pub closed_at: Option<Timestamp>,
    /// The time spent running, summed over the completed runs.
    pub busy_time: Duration,
}

/// `count + 1`, held at the largest `u64` where that does not fit.
pub open spec fn spec_bump(count: u64) -> u64 {
    if count < u64::MAX {
        (count + 1) as u64
    } else {
        count
    }
}

impl Stats {
    /// The statistics of a task of which nothing has been seen yet.
    pub open spec fn spec_new() -> Stats {
        Stats {
            active: false,
            poll_depth: 0,
            poll_count: 0,
            created_at: None,
            first_poll_at: None,
            last_poll_started_at: None,
            closed_at: None,
            busy_time: Duration { nanos: 0 },
        }
    }

    /// The statistics after the task was created at `time`: the creation time
    /// is replaced and the task is active; what has accumulated stays.
    pub open spec fn spec_spawn(self, time: Timestamp) -> Stats {
        Stats { active: true, created_at: Some(time), ..self }
    }

    /// The statistics after an entry at `time`. An entry from idle starts a
    /// run: it is counted, and its time becomes the start of the current run
    /// and, if there was none before, of the first. Every entry deepens the
    /// nesting by one.
    pub open spec fn spec_enter(self, time: Timestamp) -> Stats {
        if self.poll_depth == 0 {
            Stats {
                poll_depth: 1,
                poll_count: spec_bump(self.poll_count),
                first_poll_at: if self.first_poll_at is None {
                    Some(time)
                } else {
                    self.first_poll_at
                },
                last_poll_started_at: Some(time),
                ..self
            }
        } else {
            Stats { poll_depth: spec_bump(self.poll_depth), ..self }
        }
    }

    /// Whether an exit would find an entry to match.
    pub open spec fn spec_running(self) -> bool {
        self.poll_depth > 0
    }

    /// The time that an exit at `time` adds to the busy time: the length of
    /// the run it ends, zero where it ends none or the clock ran backwards.
    pub open spec fn spec_run_length(self, time: Timestamp) -> Duration {
        match self.last_poll_started_at {
            Some(started) if self.poll_depth == 1 => spec_elapsed(started, time),
            _ => Duration { nanos: 0 },
        }
    }

    /// The statistics after an exit at `time`. An exit that matches no entry
    /// changes nothing. Otherwise the nesting becomes one shallower, and the
    /// exit that brings it back to zero adds the length of the run to the
    /// busy time.
    pub open spec fn spec_exit(self, time: Timestamp) -> Stats {
        if self.poll_depth == 0 {
            self
        } else {
            Stats {
                poll_depth: (self.poll_depth - 1) as u64,
                busy_time: spec_accumulate(self.busy_time, self.spec_run_length(time)),
                ..self
            }
        }
    }

    /// Whether an exit at `time` would end a run that, by the clock, started
    /// after `time`.
    pub open spec fn spec_clock_ran_backwards(self, time: Timestamp) -> bool {
        self.poll_depth == 1 && (self.last_poll_started_at matches Some(started) && time.nanos
            < started.nanos)
    }

    /// The statistics after the task completed at `time`.
    pub open spec fn spec_close(self, time: Timestamp) -> Stats {
        Stats { active: false, closed_at: Some(time), ..self }
    }

    /// The lifetime of the task: from creation to completion, once both are
    /// known. A completion stamped before the creation gives zero.
    pub open spec fn spec_total_time(self) -> Option<Duration> {
        match (self.created_at, self.closed_at) {
            (Some(created), Some(closed)) => Some(spec_elapsed(created, closed)),
            _ => None,
        }
    }

    /// The statistics of a task of which nothing has been seen yet.
    pub fn new() -> (stats: Stats)
        ensures
            stats == Stats::spec_new(),
    {
        Stats {
            active: false,
            poll_depth: 0,
            poll_count: 0,
            created_at: None,
            first_poll_at: None,
            last_poll_started_at: None,
            closed_at: None,
            busy_time: Duration::zero(),
        }
    }

    /// Records that the task was created at `time`.
    pub fn record_spawn(&mut self, time: Timestamp)
        ensures
            *final(self) == old(self).spec_spawn(time),
    {
        self.created_at = Some(time);
        self.active = true;
    }

    /// Records an entry at `time`. The run count grows only when the task
    /// was idle.
    pub fn record_enter(&mut self, time: Timestamp)
        ensures
            *final(self) == old(self).spec_enter(time),
            old(self).poll_depth > 0 ==> final(self).poll_count == old(self).poll_count,
            old(self).poll_depth == 0 && old(self).poll_count < u64::MAX ==> final(self).poll_count
                == old(self).poll_count + 1,
    {
        if self.poll_depth == 0 {
            self.last_poll_started_at = Some(time);
            if self.first_poll_at.is_none() {
                self.first_poll_at = Some(time);
            }
            if self.poll_count < u64::MAX {
                self.poll_count = self.poll_count + 1;
            }
        }
        if self.poll_depth < u64::MAX {
            self.poll_depth = self.poll_depth + 1;
        }
    }

    /// Records an exit at `time` and says whether it matched an entry. An
    /// unmatched exit leaves the statistics as they were.
    pub fn record_exit(&mut self, time: Timestamp) -> (matched: bool)
        ensures
            matched == old(self).spec_running(),
            *final(self) == old(self).spec_exit(time),
            final(self).busy_time.nanos >= old(self).busy_time.nanos,
    {
        if self.poll_depth == 0 {
            return false;
        }
        self.poll_depth = self.poll_depth - 1;
        if self.poll_depth == 0 {
            if let Some(started) = self.last_poll_started_at {
                let run = time.saturating_since(&started);
                self.busy_time = self.busy_time.saturating_add(&run);
            }
        }
        true
    }

    /// Records that the task completed at `time`.
    pub fn record_close(&mut self, time: Timestamp)
        ensures
            *final(self) == old(self).spec_close(time),
    {
        self.active = false;
        self.closed_at = Some(time);
    }

    /// The lifetime of the task. It is known exactly when both the creation
    /// and the completion have been seen, and is then the time from the one
    /// to the other, zero where the completion is stamped before the
    /// creation.
    pub fn total_time(&self) -> (total: Option<Duration>)
        ensures
            total == self.spec_total_time(),
            total is Some <==> self.created_at is Some && self.closed_at is Some,
            total matches Some(d) ==> (self.created_at->0.nanos <= self.closed_at->0.nanos
                ==> d.nanos == self.closed_at->0.nanos - self.created_at->0.nanos),
            total matches Some(d) ==> (self.created_at->0.nanos > self.closed_at->0.nanos
                ==> d.nanos == 0),
    {
        match self.closed_at {
            Some(closed) => match self.created_at {
                Some(created) => Some(closed.saturating_since(&created)),
                None => None,
            },
            None => None,
        }
    }
}

impl Default for Stats {
    fn default() -> (stats: Stats)
        ensures
            stats == Stats::spec_new(),
    {
        Stats::new()
    }
}

/// The record kept for one task: the text captured at its creation and its
/// statistics.
#[derive(Debug, PartialEq, Eq)]
pub struct Task {
    pub fields: String,
    pub stats: Stats,
}

/// The mathematical content of a [`Task`].
pub struct TaskView {
    pub fields: Seq<char>,
    pub stats: Stats,
}

impl TaskView {
    /// The record of a task of which nothing has been seen yet.
    pub open spec fn spec_new() -> TaskView {
        TaskView { fields: Seq::empty(), stats: Stats::spec_new() }
    }
}

impl View for Task {
    type V = TaskView;

    open spec fn view(&self) -> TaskView {
        TaskView { fields: self.fields@, stats: self.stats }
    }
}

impl Task {
    /// The record of a task of which nothing has been seen yet.
    pub fn new() -> (task: Task)
        ensures
            task@ == TaskView::spec_new(),
    {
        Task { fields: String::new(), stats: Stats::new() }
    }
}

impl Default for Task {
    fn default() -> (task: Task)
        ensures
            task@ == TaskView::spec_new(),
    {
        Task::new()
    }
}

} // verus!
