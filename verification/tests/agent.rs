use qrn::agent::Agent;
use qrn::agent::AgentError;
use qrn::agent::AgentRunState;
use qrn::agent::LineAction;
use qrn::agent::start_offset;
use qrn::logger::QueryLog;
use qrn::recorder::AgentState;

fn agent(force: bool, loop_data: bool) -> Agent {
    Agent::new(0, "mysql://root@localhost", "queries.jsonl", 0, "query", loop_data, force)
}

#[test]
fn valid_line_yields_its_query() {
    let a = agent(false, false);
    match a.classify_line("{\"query\":\"SELECT 1\"}") {
        LineAction::Execute(q) => assert_eq!(q, "SELECT 1"),
        _ => panic!("expected an executed query"),
    }
}

#[test]
fn the_configured_key_selects_the_field() {
    let a = Agent::new(0, "mysql://h", "f", 0, "statement", false, false);
    match a.classify_line("{\"query\":\"SELECT 1\",\"statement\":\"SELECT 2\"}") {
        LineAction::Execute(q) => assert_eq!(q, "SELECT 2"),
        _ => panic!("expected an executed query"),
    }
}

#[test]
fn malformed_line_aborts_in_strict_mode() {
    let a = agent(false, false);
    match a.classify_line("this is not json") {
        LineAction::Abort(e) => assert_eq!(e, AgentError::Parse),
        _ => panic!("expected an abort"),
    }
}

#[test]
fn malformed_line_is_skipped_in_ignore_mode() {
    let a = agent(true, false);
    match a.classify_line("this is not json") {
        LineAction::Skip(e) => assert_eq!(e, AgentError::Parse),
        _ => panic!("expected a skip"),
    }
}

#[test]
fn missing_key_is_a_schema_error() {
    let a = agent(false, false);
    match a.classify_line("{\"statement\":\"SELECT 1\"}") {
        LineAction::Abort(e) => assert_eq!(e, AgentError::Schema),
        _ => panic!("expected an abort"),
    }
}

#[test]
fn non_string_value_is_a_schema_error() {
    let a = agent(true, false);
    match a.classify_line("{\"query\":42}") {
        LineAction::Skip(e) => assert_eq!(e, AgentError::Schema),
        _ => panic!("expected a skip"),
    }
}

#[test]
fn query_error_is_fatal_only_in_strict_mode() {
    assert_eq!(agent(false, false).on_query_error(), Some(AgentError::QueryExecution));
    assert_eq!(agent(true, false).on_query_error(), None);
}

// Replay the given lines once, as the worker's loop does: classify each
// line, "execute" queries instantly, and record their data points. Returns
// the emitted log entries and the error that ended the pass, if any.
fn replay_pass(
    a: &Agent,
    st: &mut AgentRunState,
    lines: &[&str],
) -> (Vec<QueryLog>, Option<AgentError>) {
    let mut logs = Vec::new();
    for line in lines {
        match a.classify_line(line) {
            LineAction::Execute(q) => {
                logs.push(a.record_query(st, &q, 0, 1));
            }
            LineAction::Skip(_) => continue,
            LineAction::Abort(e) => return (logs, Some(e)),
        }
    }
    (logs, None)
}

#[test]
fn ignore_mode_continues_past_a_malformed_line() {
    // One malformed line in a four-line file: every other line still yields
    // a log entry.
    let a = agent(true, false);
    let mut st = a.begin_run();
    let lines = [
        "{\"query\":\"SELECT 1\"}",
        "{broken",
        "{\"query\":\"SELECT 2\"}",
        "{\"query\":\"SELECT 3\"}",
    ];
    let (logs, err) = replay_pass(&a, &mut st, &lines);
    assert_eq!(err, None);
    assert_eq!(logs.len(), 3);
    assert_eq!(logs[0].query, "SELECT 1");
    assert_eq!(logs[1].query, "SELECT 2");
    assert_eq!(logs[2].query, "SELECT 3");
}

#[test]
fn strict_mode_stops_at_the_malformed_line() {
    // The same file in strict mode: the pass ends with a parse error and no
    // entry is emitted for the lines after the malformed one.
    let a = agent(false, false);
    let mut st = a.begin_run();
    let lines = [
        "{\"query\":\"SELECT 1\"}",
        "{broken",
        "{\"query\":\"SELECT 2\"}",
        "{\"query\":\"SELECT 3\"}",
    ];
    let (logs, err) = replay_pass(&a, &mut st, &lines);
    assert_eq!(err, Some(AgentError::Parse));
    assert_eq!(logs.len(), 1);
    assert_eq!(logs[0].query, "SELECT 1");
}

#[test]
fn looping_replays_the_file_again() {
    // A three-line file replayed for more than one full pass buffers
    // strictly more than three data points.
    let a = agent(false, true);
    let mut st = a.begin_run();
    let lines = ["{\"query\":\"A\"}", "{\"query\":\"B\"}", "{\"query\":\"C\"}"];
    let (logs, err) = replay_pass(&a, &mut st, &lines);
    assert_eq!(err, None);
    assert_eq!(logs.len(), 3);
    assert!(a.continue_after_eof());
    let (logs, err) = replay_pass(&a, &mut st, &lines);
    assert_eq!(err, None);
    assert_eq!(logs.len(), 3);
    assert!(st.buffer.len() > 3);
    assert_eq!(st.buffer.len(), 6);
}

#[test]
fn no_loop_ends_after_one_pass() {
    let a = agent(false, false);
    assert!(!a.continue_after_eof());
}

#[test]
fn periodic_flush_drains_the_buffer_as_a_running_batch() {
    let a = agent(false, false);
    let mut st = a.begin_run();
    a.record_query(&mut st, "SELECT 1", 10, 2);
    a.record_query(&mut st, "SELECT 2", 20, 3);

    assert!(!a.flush_due(&st, 1000));
    assert!(a.flush_due(&st, 1001));

    let (points, tag) = a.flush(&mut st);
    assert_eq!(points.len(), 2);
    assert_eq!(points[0].timestamp_ms, 10);
    assert_eq!(points[0].response_time_ms, 2);
    assert_eq!(tag, AgentState::AgentRunning);
    assert_eq!(st.buffer.len(), 0);
    assert_eq!(st.next_tick_ms, 2000);
}

#[test]
fn finish_always_hands_over_one_stopped_batch() {
    let a = agent(false, false);
    let mut st = a.begin_run();
    let (points, tag) = a.finish(&mut st);
    assert_eq!(points.len(), 0);
    assert_eq!(tag, AgentState::AgentStopped);
    assert!(st.stopped_sent);
}

#[test]
fn pacing_is_disabled_at_rate_zero() {
    let a = agent(false, false);
    let mut st = a.begin_run();
    assert_eq!(a.pace(&mut st, 500), 0);
    assert_eq!(st.next_allowed_ms, 500);
    assert_eq!(a.pace(&mut st, 500), 0);
}

#[test]
fn pacing_spaces_queries_at_the_configured_rate() {
    let a = Agent::new(1, "mysql://h", "f", 10, "query", false, false);
    let mut st = a.begin_run();
    // 10 queries per second: one every 100 ms.
    assert_eq!(a.pace(&mut st, 0), 0);
    assert_eq!(st.next_allowed_ms, 100);
    assert_eq!(a.pace(&mut st, 0), 100);
    assert_eq!(st.next_allowed_ms, 200);
    // A slow query leaves no debt: pacing restarts from now.
    assert_eq!(a.pace(&mut st, 1000), 0);
    assert_eq!(st.next_allowed_ms, 1100);
}

#[test]
fn random_start_offset_stays_within_the_file() {
    assert_eq!(start_offset(false, 7, 3), 0);
    assert_eq!(start_offset(true, 7, 3), 1);
    assert_eq!(start_offset(true, 6, 3), 0);
    assert_eq!(start_offset(true, 5, 0), 0);
}
