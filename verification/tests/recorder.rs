use qrn::recorder::AgentState;
use qrn::recorder::DataPoint;
use qrn::recorder::Recorder;

fn points(n: u64) -> Vec<DataPoint> {
    let mut v = Vec::new();
    let mut i: u64 = 0;
    while i < n {
        v.push(DataPoint { timestamp_ms: i, response_time_ms: 5 });
        i += 1;
    }
    v
}

#[test]
fn tick_reports_cumulative_and_interval() {
    let mut rec = Recorder::new(2);
    rec.on_batch(&points(3), AgentState::AgentRunning);
    let s = rec.on_tick();
    assert_eq!(s.total_count, 3);
    assert_eq!(s.interval_count, 3);
    assert_eq!(s.active_agents, 2);

    rec.on_batch(&points(4), AgentState::AgentRunning);
    rec.on_batch(&points(1), AgentState::AgentRunning);
    let s = rec.on_tick();
    assert_eq!(s.total_count, 8);
    assert_eq!(s.interval_count, 5);
    assert_eq!(s.active_agents, 2);
}

#[test]
fn cumulative_count_is_monotone_across_ticks() {
    let mut rec = Recorder::new(3);
    let mut last_total = 0;
    let sizes = [0u64, 2, 5, 0, 1, 7];
    for n in sizes {
        rec.on_batch(&points(n), AgentState::AgentRunning);
        let s = rec.on_tick();
        assert!(s.total_count >= last_total);
        last_total = s.total_count;
    }
    assert_eq!(last_total, 15);
}

#[test]
fn stopped_batches_retire_workers_one_by_one() {
    let mut rec = Recorder::new(2);
    let s = rec.on_tick();
    assert_eq!(s.active_agents, 2);

    rec.on_batch(&points(0), AgentState::AgentStopped);
    let s = rec.on_tick();
    assert_eq!(s.active_agents, 1);

    rec.on_batch(&points(2), AgentState::AgentStopped);
    let s = rec.on_tick();
    assert_eq!(s.active_agents, 0);
    assert_eq!(s.total_count, 2);
}

#[test]
fn active_count_never_goes_below_zero() {
    let mut rec = Recorder::new(1);
    rec.on_batch(&points(0), AgentState::AgentStopped);
    rec.on_batch(&points(0), AgentState::AgentStopped);
    let s = rec.on_tick();
    assert_eq!(s.active_agents, 0);
}

#[test]
fn empty_stopped_batch_counts_no_points() {
    let mut rec = Recorder::new(1);
    rec.on_batch(&points(0), AgentState::AgentStopped);
    let s = rec.on_tick();
    assert_eq!(s.total_count, 0);
    assert_eq!(s.interval_count, 0);
    assert_eq!(s.active_agents, 0);
}

#[test]
fn report_carries_the_token() {
    let rec = Recorder::new(4);
    let report = rec.report("0123456789abcdef0123456789abcdef");
    assert_eq!(report.token, "0123456789abcdef0123456789abcdef");
}
