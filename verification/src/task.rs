//! The orchestrator: builds the workers, sets up a run, and decides when the
//! run's deadline has elapsed.
//!
//! Workers are assigned their input files round-robin. Opening the database
//! connections, driving the three concurrent loops and enforcing the
//! deadline on a timer happen outside; the construction, the run setup and
//! the deadline decision are here.

use vstd::prelude::*;
use crate::agent::Agent;
use crate::recorder::Recorder;

verus! {

/// The whole run: its workers and where the query log goes.
#[derive(Debug)]
pub struct Task {
    pub nagents: u32,
    pub agents: Vec<Agent>,
    pub log: Option<String>,
}

/// Relies on uuid::Uuid::new_v4 and its simple formatting: a fresh random
/// identifier rendered as exactly 32 hexadecimal digits. Nothing is assumed
/// about which identifier comes back. new_v4 aborts only if the operating
/// system's random source fails — an environment failure, like running out
/// of memory, that no input can exclude.
#[verifier::external_body]
fn mint_run_token() -> (r: String)
    ensures
        r@.len() == 32,
{
    uuid::Uuid::new_v4().simple().to_string()
}

impl Task {
    /// Build the run's workers: worker `i` replays `files[i mod file_count]`,
    /// and every worker shares the same target, rate, key and flags.
    pub fn new(
        url: &str,
        nagents: u32,
        files: &Vec<String>,
        log: &Option<String>,
        rate: u32,
        key: &str,
        loop_data: bool,
        force: bool,
    ) -> (t: Task)
        requires
            files@.len() >= 1,
        ensures
            t.nagents == nagents,
            t.agents@.len() == nagents,
            forall|i: int|
                0 <= i < nagents ==> {
                    let a = #[trigger] t.agents@[i];
                    a.id == i && a.url@ == url@ && a.file@ == files@[i % files@.len() as int]@
                        && a.rate == rate && a.key@ == key@ && a.loop_data == loop_data
                        && a.force == force
                },
            log is None ==> t.log is None,
            log matches Some(d) ==> t.log matches Some(d2) && d2@ == d@,
    {
        let nfiles = files.len();
        let mut agents: Vec<Agent> = Vec::new();
        let mut i: u32 = 0;
        while i < nagents
            invariant
                i <= nagents,
                nfiles == files@.len(),
                nfiles >= 1,
                agents@.len() == i,
                forall|j: int|
                    0 <= j < i ==> {
                        let a = #[trigger] agents@[j];
                        a.id == j && a.url@ == url@ && a.file@ == files@[j % files@.len() as int]@
                            && a.rate == rate && a.key@ == key@ && a.loop_data == loop_data
                            && a.force == force
                    },
            decreases nagents - i,
        {
            let idx = (i as usize) % nfiles;
            let a = Agent::new(i, url, &files[idx], rate, key, loop_data, force);
            agents.push(a);
            i = i + 1;
        }
        Task {
            nagents,
            agents,
            log: match log {
                Some(d) => Some(d.clone()),
                None => None,
            },
        }
    }

    /// Set up one run: mint its token and a fresh recorder watching all of
    /// the run's workers.
    pub fn run_setup(&self) -> (r: (String, Recorder))
        ensures
            r.0@.len() == 32,
            r.1.total_count == 0,
            r.1.prev_total_count == 0,
            r.1.nagents == self.nagents,
            r.1.stopped_nagents == 0,
            r.1.wf(),
    {
        let token = mint_run_token();
        let rec = Recorder::new(self.nagents);
        (token, rec)
    }
}

/// Whether a run with a total duration of `total_ms` milliseconds is
/// bounded by a deadline at all: a zero duration means the run is
/// unbounded.
pub fn run_is_bounded(total_ms: u64) -> (r: bool)
    ensures
        r == (total_ms > 0),
{
    total_ms > 0
}

/// Whether the run's deadline has elapsed at `now_ms`, for a run that
/// started at `start_ms` with a total duration of `total_ms` milliseconds.
/// A zero duration means the run is unbounded and never expires.
pub fn deadline_expired(start_ms: u64, total_ms: u64, now_ms: u64) -> (r: bool)
    requires
        now_ms >= start_ms,
    ensures
        r == (total_ms > 0 && now_ms - start_ms >= total_ms),
{
    total_ms > 0 && now_ms - start_ms >= total_ms
}

} // verus!
