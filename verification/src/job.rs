//! From what a cluster reports of a job to the state the decision reads.

use crate::model::{Elapsed, JobState};
use vstd::prelude::*;

verus! {

/// What a cluster reports of a job that exists.
#[derive(Clone, Copy, Debug, PartialEq, Eq)]
pub struct JobReport {
    /// Containers of the job that run.
    pub active: u32,
    /// Containers of the job that ended without an error.
    pub succeeded: u32,
    /// Containers of the job that ended with an error.
    pub failed: u32,
    /// When the job started, where the cluster says so.
    pub started: Option<Elapsed>,
}

/// The time a job has run at `now`, both points in time counted from one
/// origin; unknown where the start is, and where the span has more whole
/// seconds than an `i64` holds.
pub open spec fn running_for(report: JobReport, now: Elapsed) -> Option<Elapsed> {
    match report.started {
        Some(started) => {
            let span = now.as_nanos() - started.as_nanos();
            if i64::MIN * 1_000_000_000 <= span < (i64::MAX + 1) * 1_000_000_000 {
                Some(
                    Elapsed {
                        secs: (span / 1_000_000_000) as i64,
                        nanos: (span % 1_000_000_000) as u32,
                    },
                )
            } else {
                None
            }
        },
        None => None,
    }
}

/// The state of a job as the decision reads it. A job that does not
/// exist is absent. Of one that exists: it runs while a container of it
/// runs; else it has failed where one ended with an error; else it has
/// exited where one ended without; else nothing is known of it.
pub open spec fn job_state_of(report: Option<JobReport>, now: Elapsed) -> JobState {
    match report {
        None => JobState::Absent,
        Some(report) => if report.active > 0 {
            JobState::Running(running_for(report, now))
        } else if report.failed > 0 {
            JobState::Failed
        } else if report.succeeded > 0 {
            JobState::Exited
        } else {
            JobState::Unknown
        },
    }
}

/// The state of the job that `report` describes, `None` standing for a
/// job that does not exist, as seen at the time `now`.
pub fn observe_job(report: Option<JobReport>, now: Elapsed) -> (state: JobState)
    ensures
        state == job_state_of(report, now),
{
    let report = match report {
        Some(report) => report,
        None => {
            return JobState::Absent;
        },
    };
    if report.active > 0 {
        let elapsed = match report.started {
            Some(started) => {
                let span = now.minus(&started);
                proof {
                    let d = now.as_nanos() - started.as_nanos();
                    if let Some(e) = span {
                        assert(e.secs == d / 1_000_000_000 && e.nanos == d % 1_000_000_000)
                            by (nonlinear_arith)
                            requires
                                e.secs * 1_000_000_000 + e.nanos == d,
                                0 <= e.nanos < 1_000_000_000,
                        ;
                    }
                }
                span
            },
            None => None,
        };
        JobState::Running(elapsed)
    } else if report.failed > 0 {
        JobState::Failed
    } else if report.succeeded > 0 {
        JobState::Exited
    } else {
        JobState::Unknown
    }
}

} // verus!
