//! The aggregator: single consumer of the batches that all workers send.
//!
//! Each batch carries data points and a lifecycle tag. The recorder merges
//! batches into running counters; on each timer tick it produces a progress
//! snapshot. The channel and the timer live outside; the state transitions
//! are here.

use vstd::prelude::*;

verus! {

/// Reporting period of the aggregator and of the workers, in milliseconds.
pub const REPORT_PERIOD_MS: u64 = 1000;

/// One measurement, taken by a worker right after a query executed.
#[derive(Debug, Clone, Copy, PartialEq, Eq, Structural)]
pub struct DataPoint {
    /// When the query finished, in milliseconds since the run's epoch.
    pub timestamp_ms: u64,
    /// How long the query took, in milliseconds.
    pub response_time_ms: u64,
}

/// Lifecycle tag attached to every batch a worker sends: the last batch of a
/// worker, and only that one, is tagged `AgentStopped`.
#[derive(Debug, Clone, Copy, PartialEq, Eq, Structural)]
pub enum AgentState {
    AgentRunning,
    AgentStopped,
}

/// Terminal report of a run: the token minted when the run started.
#[derive(Debug)]
pub struct Report {
    pub token: String,
}

/// Progress snapshot handed to the progress callback once per period.
#[derive(Debug, Clone, Copy, PartialEq, Eq, Structural)]
pub struct Snapshot {
    /// Data points merged so far, over the whole run.
    pub total_count: u64,
    /// Data points merged since the previous tick.
    pub interval_count: u64,
    /// Workers that have not yet sent their `AgentStopped` batch.
    pub active_agents: u32,
}

/// Aggregation state: summary counters rather than the raw points, so the
/// state stays bounded however long the run is.
#[derive(Debug, Clone, Copy)]
pub struct Recorder {
    /// Data points merged so far.
    pub total_count: u64,
    /// Value of `total_count` at the previous tick.
    pub prev_total_count: u64,
    /// Number of workers feeding this recorder.
    pub nagents: u32,
    /// `AgentStopped` batches received so far, capped at `nagents`.
    pub stopped_nagents: u32,
}

impl Recorder {
    /// Internal invariant: the previous tick's count never exceeds the current
    /// one, and no more workers have stopped than exist.
    pub open spec fn wf(self) -> bool {
        self.prev_total_count <= self.total_count
            && self.stopped_nagents <= self.nagents
    }

    /// Workers that have not stopped yet.
    pub open spec fn active_agents(self) -> int {
        self.nagents - self.stopped_nagents
    }

    pub fn new(nagents: u32) -> (r: Recorder)
        ensures
            r.total_count == 0,
            r.prev_total_count == 0,
            r.nagents == nagents,
            r.stopped_nagents == 0,
            r.wf(),
    {
        Recorder { total_count: 0, prev_total_count: 0, nagents, stopped_nagents: 0 }
    }

    /// Merge one received batch: the points are counted into the running
    /// total, and a stopped tag retires one worker. The stopped counter is
    /// defensive against a worker that would send more than one terminal
    /// batch: it never exceeds `nagents`, so the active count never goes
    /// negative.
    pub fn on_batch(&mut self, points: &Vec<DataPoint>, state: AgentState)
        requires
            old(self).wf(),
            old(self).total_count + points@.len() <= u64::MAX,
        ensures
            final(self).wf(),
            final(self).total_count == old(self).total_count + points@.len(),
            final(self).prev_total_count == old(self).prev_total_count,
            final(self).nagents == old(self).nagents,
            final(self).stopped_nagents == if state == AgentState::AgentStopped
                && old(self).stopped_nagents < old(self).nagents {
                old(self).stopped_nagents + 1
            } else {
                old(self).stopped_nagents as int
            },
    {
        self.total_count = self.total_count + points.len() as u64;
        if state == AgentState::AgentStopped && self.stopped_nagents < self.nagents {
            self.stopped_nagents = self.stopped_nagents + 1;
        }
    }

    /// One timer tick: report the cumulative count, the count of the elapsed
    /// interval, and how many workers are still active, then remember the
    /// cumulative count for the next tick.
    pub fn on_tick(&mut self) -> (s: Snapshot)
        requires
            old(self).wf(),
        ensures
            final(self).wf(),
            s.total_count == old(self).total_count,
            s.interval_count == old(self).total_count - old(self).prev_total_count,
            s.active_agents == old(self).active_agents(),
            final(self).total_count == old(self).total_count,
            final(self).prev_total_count == old(self).total_count,
            final(self).nagents == old(self).nagents,
            final(self).stopped_nagents == old(self).stopped_nagents,
    {
        let total = self.total_count;
        let interval = total - self.prev_total_count;
        self.prev_total_count = total;
        Snapshot {
            total_count: total,
            interval_count: interval,
            active_agents: self.nagents - self.stopped_nagents,
        }
    }

    /// Terminal report, retrievable once the batch channel has closed.
    pub fn report(&self, token: &str) -> (r: Report)
        ensures
            r.token@ == token@,
    {
        Report { token: token.to_owned() }
    }
}

// What the recorder has seen is modelled as the sequence of received batches,
// each reduced to its size and whether it carried the stopped tag.

/// Sum of the batch sizes: the number of data points merged after the whole
/// sequence has been received.
pub open spec fn merged_total(batches: Seq<(int, bool)>) -> int
    decreases batches.len(),
{
    if batches.len() == 0 {
        0
    } else {
        merged_total(batches.drop_last()) + batches.last().0
    }
}

/// Number of stopped-tagged batches in the sequence.
pub open spec fn stopped_total(batches: Seq<(int, bool)>) -> int
    decreases batches.len(),
{
    if batches.len() == 0 {
        0
    } else {
        stopped_total(batches.drop_last()) + if batches.last().1 {
            1int
        } else {
            0int
        }
    }
}

/// A batch never holds a negative number of points.
pub open spec fn batch_sizes_ok(batches: Seq<(int, bool)>) -> bool {
    forall|i: int| 0 <= i < batches.len() ==> (#[trigger] batches[i]).0 >= 0
}

/// The recorder's counters agree with a sequence of received batches.
pub open spec fn recorder_matches(r: Recorder, batches: Seq<(int, bool)>) -> bool {
    r.total_count == merged_total(batches) && r.stopped_nagents == stopped_total(batches)
}

proof fn lemma_take_step(batches: Seq<(int, bool)>, i: int)
    requires
        0 <= i < batches.len(),
    ensures
        merged_total(batches.take(i + 1)) == merged_total(batches.take(i)) + batches[i].0,
        stopped_total(batches.take(i + 1)) == stopped_total(batches.take(i)) + if batches[i].1 {
            1int
        } else {
            0int
        },
{
    assert(batches.take(i + 1).drop_last() =~= batches.take(i));
    assert(batches.take(i + 1).last() == batches[i]);
}

/// The cumulative count reported at each tick is monotonically non-decreasing:
/// after any further batches have been merged, the total is at least what it
/// was before them.
pub proof fn lemma_cumulative_monotone(batches: Seq<(int, bool)>, i: int, j: int)
    requires
        batch_sizes_ok(batches),
        0 <= i <= j <= batches.len(),
    ensures
        merged_total(batches.take(i)) <= merged_total(batches.take(j)),
    decreases j - i,
{
    if i < j {
        lemma_cumulative_monotone(batches, i, j - 1);
        lemma_take_step(batches, j - 1);
    }
}

/// The count of stopped batches only grows as batches arrive.
pub proof fn lemma_stopped_monotone(batches: Seq<(int, bool)>, i: int, j: int)
    requires
        0 <= i <= j <= batches.len(),
    ensures
        stopped_total(batches.take(i)) <= stopped_total(batches.take(j)),
        stopped_total(batches.take(i)) >= 0,
    decreases j - i,
{
    if i == j {
        lemma_stopped_monotone_base(batches, i);
    } else {
        lemma_stopped_monotone(batches, i, j - 1);
        lemma_take_step(batches, j - 1);
    }
}

proof fn lemma_stopped_monotone_base(batches: Seq<(int, bool)>, i: int)
    requires
        0 <= i <= batches.len(),
    ensures
        stopped_total(batches.take(i)) >= 0,
    decreases i,
{
    if i > 0 {
        lemma_stopped_monotone_base(batches, i - 1);
        lemma_take_step(batches, i - 1);
    } else {
        assert(batches.take(0) =~= Seq::<(int, bool)>::empty());
    }
}

/// The active worker count starts at `nagents`, decreases by exactly one per
/// stopped-tagged batch and is unchanged by the others, never goes below
/// zero, and reaches zero exactly when every worker's terminal batch is in.
/// The hypothesis that at most `nagents` stopped batches arrive is the system
/// invariant: each worker sends exactly one.
pub proof fn lemma_active_agents(batches: Seq<(int, bool)>, nagents: int, i: int)
    requires
        0 <= i <= batches.len(),
        stopped_total(batches) <= nagents,
    ensures
        nagents - stopped_total(batches.take(0)) == nagents,
        nagents - stopped_total(batches.take(i)) >= 0,
        i < batches.len() ==> nagents - stopped_total(batches.take(i + 1))
            == nagents - stopped_total(batches.take(i)) - (if batches[i].1 {
            1int
        } else {
            0int
        }),
        nagents - stopped_total(batches.take(batches.len() as int)) == 0
            <==> stopped_total(batches) == nagents,
{
    assert(batches.take(0) =~= Seq::<(int, bool)>::empty());
    lemma_stopped_monotone(batches, i, batches.len() as int);
    assert(batches.take(batches.len() as int) =~= batches);
    if i < batches.len() {
        lemma_take_step(batches, i);
    }
}

/// Merging one batch keeps the recorder's counters in step with the model:
/// if the recorder matched the batches received so far and at most `nagents`
/// of all batches carry the stopped tag, then after `on_batch` it matches the
/// sequence extended by the new batch.
pub proof fn lemma_on_batch_matches(
    pre: Recorder,
    post: Recorder,
    batches: Seq<(int, bool)>,
    n: int,
    stopped: bool,
)
    requires
        n >= 0,
        recorder_matches(pre, batches),
        stopped_total(batches.push((n, stopped))) <= pre.nagents,
        post.total_count == pre.total_count + n,
        post.nagents == pre.nagents,
        post.stopped_nagents == if stopped && pre.stopped_nagents < pre.nagents {
            pre.stopped_nagents + 1
        } else {
            pre.stopped_nagents as int
        },
    ensures
        recorder_matches(post, batches.push((n, stopped))),
{
    let extended = batches.push((n, stopped));
    assert(extended.drop_last() =~= batches);
    assert(extended.last() == (n, stopped));
}

} // verus!
