//! A worker: replays one input file of query records against one database
//! connection.
//!
//! The replay loop's I/O — reading lines, executing queries, sending batches
//! — happens outside; every decision the loop takes is a method here. A
//! worker buffers one data point per executed query, flushes the buffer as a
//! running-tagged batch once per reporting period, paces itself to the
//! configured rate, and on exit hands over exactly one stopped-tagged batch.

use vstd::prelude::*;
use crate::document::extract_query;
use crate::document::parses_as_document;
use crate::document::string_field_of;
use crate::recorder::AgentState;
use crate::recorder::DataPoint;
use crate::recorder::REPORT_PERIOD_MS;
use crate::logger::QueryLog;

verus! {

/// What can go wrong while a worker replays its file. Connection failures
/// happen before a worker runs, at the I/O edge, and are not replayed
/// decisions, so they are not listed here.
#[derive(Debug, Clone, Copy, PartialEq, Eq, Structural)]
pub enum AgentError {
    /// The input line is not well-formed JSON.
    Parse,
    /// The line is well-formed but the configured key is absent or not a
    /// string.
    Schema,
    /// The database rejected the query.
    QueryExecution,
}

/// What the worker does with one input line.
#[derive(Debug)]
pub enum LineAction {
    /// The line yielded this query text: execute it.
    Execute(String),
    /// The line is bad but errors are ignored: skip it and go on.
    Skip(AgentError),
    /// The line is bad and errors are fatal: stop replaying with this error.
    Abort(AgentError),
}

/// A worker's configuration. The database connection it drives is owned by
/// the replay loop outside.
#[derive(Debug)]
pub struct Agent {
    pub id: u32,
    /// Connection target handed to the database executor.
    pub url: String,
    /// Path of the input file this worker replays.
    pub file: String,
    /// Queries per second this worker may issue; 0 means unlimited.
    pub rate: u32,
    /// Key under which each input document holds the query text.
    pub key: String,
    /// Replay the file again from the start after its end.
    pub loop_data: bool,
    /// Skip bad lines and failed queries instead of aborting.
    pub force: bool,
}

/// The state a worker carries across its replay loop.
#[derive(Debug)]
pub struct AgentRunState {
    /// Data points not yet flushed into a batch.
    pub buffer: Vec<DataPoint>,
    /// Elapsed run time, in milliseconds, after which the next periodic
    /// flush is due.
    pub next_tick_ms: u64,
    /// Earliest time the next query may start, for pacing.
    pub next_allowed_ms: u64,
    /// Whether the terminal stopped-tagged batch has been handed out.
    pub stopped_sent: bool,
}

/// Inter-arrival interval enforcing `rate` queries per second, in
/// milliseconds; 0 when the rate is unlimited.
pub open spec fn pacing_interval_ms(rate: u32) -> int {
    if rate == 0 {
        0
    } else {
        1000int / rate as int
    }
}

impl Agent {
    pub fn new(
        id: u32,
        url: &str,
        file: &str,
        rate: u32,
        key: &str,
        loop_data: bool,
        force: bool,
    ) -> (a: Agent)
        ensures
            a.id == id,
            a.url@ == url@,
            a.file@ == file@,
            a.rate == rate,
            a.key@ == key@,
            a.loop_data == loop_data,
            a.force == force,
    {
        Agent {
            id,
            url: url.to_owned(),
            file: file.to_owned(),
            rate,
            key: key.to_owned(),
            loop_data,
            force,
        }
    }

    /// Fresh loop state: empty buffer, first flush due one reporting period
    /// after the loop starts, no pacing debt, terminal batch still owed.
    pub fn begin_run(&self) -> (st: AgentRunState)
        ensures
            st.buffer@ == Seq::<DataPoint>::empty(),
            st.next_tick_ms == REPORT_PERIOD_MS,
            st.next_allowed_ms == 0,
            !st.stopped_sent,
    {
        AgentRunState {
            buffer: Vec::new(),
            next_tick_ms: REPORT_PERIOD_MS,
            next_allowed_ms: 0,
            stopped_sent: false,
        }
    }

    /// Decide what to do with one input line: execute exactly the query the
    /// document holds under the configured key, or — for a parse or schema
    /// error — skip the line when errors are ignored and abort when they are
    /// not. A worker in ignore mode never aborts on a bad line.
    pub fn classify_line(&self, line: &str) -> (r: LineAction)
        ensures
            !parses_as_document(line@) ==> if self.force {
                r == LineAction::Skip(AgentError::Parse)
            } else {
                r == LineAction::Abort(AgentError::Parse)
            },
            parses_as_document(line@) ==> match string_field_of(line@, self.key@) {
                Some(q) => r matches LineAction::Execute(s) && s@ == q,
                None => if self.force {
                    r == LineAction::Skip(AgentError::Schema)
                } else {
                    r == LineAction::Abort(AgentError::Schema)
                },
            },
            r matches LineAction::Skip(e) ==> self.force,
            r matches LineAction::Abort(e) ==> !self.force,
    {
        match extract_query(line, self.key.as_str()) {
            Ok(q) => LineAction::Execute(q),
            Err(e) => if self.force {
                LineAction::Skip(e)
            } else {
                LineAction::Abort(e)
            },
        }
    }

    /// Decide what a failed query execution means: nothing when errors are
    /// ignored, the run-ending error otherwise.
    pub fn on_query_error(&self) -> (r: Option<AgentError>)
        ensures
            r == if self.force {
                Option::<AgentError>::None
            } else {
                Option::<AgentError>::Some(AgentError::QueryExecution)
            },
    {
        if self.force {
            None
        } else {
            Some(AgentError::QueryExecution)
        }
    }

    /// Record one successfully executed query: buffer its data point and
    /// produce the log entry that is sent out immediately.
    pub fn record_query(
        &self,
        st: &mut AgentRunState,
        query: &str,
        timestamp_ms: u64,
        response_time_ms: u64,
    ) -> (log: QueryLog)
        ensures
            final(st).buffer@ == old(st).buffer@.push(
                DataPoint { timestamp_ms, response_time_ms },
            ),
            final(st).next_tick_ms == old(st).next_tick_ms,
            final(st).next_allowed_ms == old(st).next_allowed_ms,
            final(st).stopped_sent == old(st).stopped_sent,
            log.query@ == query@,
            log.response_time_ms == response_time_ms,
    {
        st.buffer.push(DataPoint { timestamp_ms, response_time_ms });
        QueryLog { query: query.to_owned(), response_time_ms }
    }

    /// Whether the periodic flush is due, given the run time elapsed so far.
    pub fn flush_due(&self, st: &AgentRunState, elapsed_ms: u64) -> (r: bool)
        ensures
            r == (elapsed_ms > st.next_tick_ms),
    {
        elapsed_ms > st.next_tick_ms
    }

    /// Drain the buffer into a running-tagged batch and schedule the next
    /// periodic flush.
    pub fn flush(&self, st: &mut AgentRunState) -> (batch: (Vec<DataPoint>, AgentState))
        requires
            old(st).next_tick_ms + REPORT_PERIOD_MS <= u64::MAX,
        ensures
            batch.0@ == old(st).buffer@,
            batch.1 == AgentState::AgentRunning,
            final(st).buffer@ == Seq::<DataPoint>::empty(),
            final(st).next_tick_ms == old(st).next_tick_ms + REPORT_PERIOD_MS,
            final(st).next_allowed_ms == old(st).next_allowed_ms,
            final(st).stopped_sent == old(st).stopped_sent,
    {
        let mut points: Vec<DataPoint> = Vec::new();
        core::mem::swap(&mut points, &mut st.buffer);
        st.next_tick_ms = st.next_tick_ms + REPORT_PERIOD_MS;
        (points, AgentState::AgentRunning)
    }

    /// Pace the next query: how long to wait before it may start, measured
    /// from `now_ms`, and when the one after it becomes due. With an
    /// unlimited rate the wait is never extended.
    pub fn pace(&self, st: &mut AgentRunState, now_ms: u64) -> (wait_ms: u64)
        requires
            now_ms <= u64::MAX - 1000,
            old(st).next_allowed_ms <= u64::MAX - 1000,
        ensures
            wait_ms == if old(st).next_allowed_ms > now_ms {
                old(st).next_allowed_ms - now_ms
            } else {
                0int
            },
            final(st).next_allowed_ms == (if old(st).next_allowed_ms > now_ms {
                old(st).next_allowed_ms as int
            } else {
                now_ms as int
            }) + pacing_interval_ms(self.rate),
            final(st).buffer@ == old(st).buffer@,
            final(st).next_tick_ms == old(st).next_tick_ms,
            final(st).stopped_sent == old(st).stopped_sent,
    {
        let interval: u64 = if self.rate == 0 {
            0
        } else {
            1000 / (self.rate as u64)
        };
        let wait: u64 = if st.next_allowed_ms > now_ms {
            st.next_allowed_ms - now_ms
        } else {
            0
        };
        let base: u64 = if st.next_allowed_ms > now_ms {
            st.next_allowed_ms
        } else {
            now_ms
        };
        st.next_allowed_ms = base + interval;
        wait
    }

    /// Whether the worker replays the file again after reaching its end.
    pub fn continue_after_eof(&self) -> (r: bool)
        ensures
            r == self.loop_data,
    {
        self.loop_data
    }

    /// Hand over the terminal batch: whatever is still buffered, tagged
    /// stopped — even when the buffer is empty. Each worker does this
    /// exactly once, so the aggregator's stopped count reaches the worker
    /// count exactly at natural completion.
    pub fn finish(&self, st: &mut AgentRunState) -> (batch: (Vec<DataPoint>, AgentState))
        requires
            !old(st).stopped_sent,
        ensures
            batch.0@ == old(st).buffer@,
            batch.1 == AgentState::AgentStopped,
            final(st).buffer@ == Seq::<DataPoint>::empty(),
            final(st).stopped_sent,
            final(st).next_tick_ms == old(st).next_tick_ms,
            final(st).next_allowed_ms == old(st).next_allowed_ms,
    {
        let mut points: Vec<DataPoint> = Vec::new();
        core::mem::swap(&mut points, &mut st.buffer);
        st.stopped_sent = true;
        (points, AgentState::AgentStopped)
    }
}

/// Whether one input line yields a query to execute: it parses as a
/// document that holds a string under the key. This is exactly the case in
/// which `classify_line` answers `Execute`.
pub open spec fn line_executes(line: Seq<char>, key: Seq<char>) -> bool {
    parses_as_document(line) && string_field_of(line, key) is Some
}

/// How many lines of a file yield a query — and so, since every executed
/// query is logged, how many log entries one error-free pass emits.
pub open spec fn executed_line_count(lines: Seq<Seq<char>>, key: Seq<char>) -> int
    decreases lines.len(),
{
    if lines.len() == 0 {
        0
    } else {
        executed_line_count(lines.drop_last(), key) + if line_executes(lines.last(), key) {
            1int
        } else {
            0int
        }
    }
}

proof fn lemma_all_execute_count(lines: Seq<Seq<char>>, key: Seq<char>)
    requires
        forall|i: int| 0 <= i < lines.len() ==> #[trigger] line_executes(lines[i], key),
    ensures
        executed_line_count(lines, key) == lines.len(),
    decreases lines.len(),
{
    if lines.len() > 0 {
        lemma_all_execute_count(lines.drop_last(), key);
    }
}

/// With errors ignored, a file with exactly one bad line among its lines
/// yields one query — and so one log entry — per other line: n lines give
/// n - 1 entries. That no line aborts the worker in this mode is
/// `classify_line`'s own contract.
pub proof fn lemma_one_bad_line_count(lines: Seq<Seq<char>>, key: Seq<char>, k: int)
    requires
        0 <= k < lines.len(),
        !line_executes(lines[k], key),
        forall|i: int|
            0 <= i < lines.len() && i != k ==> #[trigger] line_executes(lines[i], key),
    ensures
        executed_line_count(lines, key) == lines.len() - 1,
    decreases lines.len(),
{
    if k == lines.len() - 1 {
        lemma_all_execute_count(lines.drop_last(), key);
    } else {
        lemma_one_bad_line_count(lines.drop_last(), key, k);
    }
}

/// In strict mode a pass ends at the first bad line: every line before it
/// yields its query, so a first bad line at position k leaves exactly k log
/// entries behind. That the bad line itself aborts the worker, and nothing
/// after it runs, is `classify_line`'s own contract and the loop around it.
pub proof fn lemma_strict_prefix_count(lines: Seq<Seq<char>>, key: Seq<char>, k: int)
    requires
        0 <= k <= lines.len(),
        forall|i: int| 0 <= i < k ==> #[trigger] line_executes(lines[i], key),
    ensures
        executed_line_count(lines.take(k), key) == k,
{
    lemma_all_execute_count(lines.take(k), key);
}

/// Where a replay pass starts: at a drawn random line offset when the
/// randomized start is enabled and the file has lines, at the first line
/// otherwise. The draw itself comes from outside; any drawn value lands on a
/// valid line.
pub fn start_offset(random: bool, draw: u64, nlines: u64) -> (r: u64)
    ensures
        (!random || nlines == 0) ==> r == 0,
        (random && nlines > 0) ==> r == draw % nlines,
        nlines > 0 ==> r < nlines,
{
    if random && nlines > 0 {
        draw % nlines
    } else {
        0
    }
}

} // verus!
