use test_controller::decide::timeout_usable;
use test_controller::job::{observe_job, JobReport};
use test_controller::model::{AgentSpec, Elapsed, JobState, Test, TestSpec};

fn report(active: u32, succeeded: u32, failed: u32) -> JobReport {
    JobReport { active, succeeded, failed, started: None }
}

fn at(secs: i64, nanos: u32) -> Elapsed {
    Elapsed { secs, nanos }
}

#[test]
fn no_job_is_absent() {
    assert_eq!(observe_job(None, at(100, 0)), JobState::Absent);
}

#[test]
fn job_without_containers_is_unknown() {
    assert_eq!(observe_job(Some(report(0, 0, 0)), at(100, 0)), JobState::Unknown);
    let started = JobReport { started: Some(at(90, 0)), ..report(0, 0, 0) };
    assert_eq!(observe_job(Some(started), at(100, 0)), JobState::Unknown);
}

#[test]
fn job_with_a_running_container_runs() {
    assert_eq!(observe_job(Some(report(1, 0, 0)), at(100, 0)), JobState::Running(None));
    assert_eq!(observe_job(Some(report(2, 1, 1)), at(100, 0)), JobState::Running(None));
}

#[test]
fn running_time_is_now_less_the_start() {
    let job = JobReport { started: Some(at(1000, 250_000_000)), ..report(1, 0, 0) };
    assert_eq!(
        observe_job(Some(job), at(3700, 750_000_000)),
        JobState::Running(Some(at(2700, 500_000_000)))
    );
    assert_eq!(
        observe_job(Some(job), at(1001, 0)),
        JobState::Running(Some(at(0, 750_000_000)))
    );
    assert_eq!(
        observe_job(Some(job), at(1000, 0)),
        JobState::Running(Some(at(-1, 750_000_000)))
    );
}

#[test]
fn failure_comes_before_exit() {
    assert_eq!(observe_job(Some(report(0, 0, 1)), at(0, 0)), JobState::Failed);
    assert_eq!(observe_job(Some(report(0, 3, 1)), at(0, 0)), JobState::Failed);
    assert_eq!(observe_job(Some(report(0, 1, 0)), at(0, 0)), JobState::Exited);
}

#[test]
fn spans_are_subtracted_exactly() {
    assert_eq!(at(10, 0).minus(&at(4, 0)), Some(at(6, 0)));
    assert_eq!(at(10, 1).minus(&at(4, 2)), Some(at(5, 999_999_999)));
    assert_eq!(at(4, 0).minus(&at(10, 0)), Some(at(-6, 0)));
    assert_eq!(at(4, 0).minus(&at(10, 1)), Some(at(-7, 999_999_999)));
    assert_eq!(at(0, 0).minus(&at(0, 0)), Some(at(0, 0)));
}

#[test]
fn spans_come_out_with_less_than_a_second_of_nanoseconds() {
    assert_eq!(at(0, 4_000_000_000).minus(&at(0, 0)), Some(at(4, 0)));
    assert_eq!(at(0, u32::MAX).minus(&at(0, 0)), Some(at(4, 294_967_295)));
    assert_eq!(at(0, 0).minus(&at(0, u32::MAX)), Some(at(-5, 705_032_705)));
    assert_eq!(at(7, 1_500_000_000).minus(&at(2, 2_700_000_000)), Some(at(3, 800_000_000)));
}

#[test]
fn spans_that_do_not_fit_are_none() {
    assert_eq!(at(i64::MAX, 0).minus(&at(-1, 0)), None);
    assert_eq!(at(i64::MAX, 0).minus(&at(0, 0)), Some(at(i64::MAX, 0)));
    assert_eq!(at(i64::MAX, 999_999_999).minus(&at(0, 0)), Some(at(i64::MAX, 999_999_999)));
    assert_eq!(at(i64::MAX, 1_000_000_000).minus(&at(0, 0)), None);
    assert_eq!(at(i64::MIN, 0).minus(&at(0, 0)), Some(at(i64::MIN, 0)));
    assert_eq!(at(i64::MIN, 0).minus(&at(0, 1)), None);
    assert_eq!(at(i64::MIN, 0).minus(&at(i64::MAX, 0)), None);
    assert_eq!(at(i64::MAX, 0).minus(&at(i64::MIN, 0)), None);
}

#[test]
fn a_job_that_ran_too_long_to_say_runs_for_an_unknown_time() {
    let job = JobReport { started: Some(at(i64::MIN, 0)), ..report(1, 0, 0) };
    assert_eq!(observe_job(Some(job), at(i64::MAX, 0)), JobState::Running(None));
}

#[test]
fn comparisons_of_spans() {
    assert!(at(1800, 1).exceeds(1800));
    assert!(!at(1800, 0).exceeds(1800));
    assert!(!at(-1, 999_999_999).exceeds(0));
    assert!(at(0, 1).exceeds(0));
    assert!(!at(5, 0).exceeds(u64::MAX));
    assert!(at(300, 0).at_least(300));
    assert!(!at(299, 999_999_999).at_least(300));
    assert!(at(299, 1_000_000_000).at_least(300));
    assert!(at(0, 0).at_least(0));
    assert!(!at(-1, 0).at_least(0));
    assert_eq!(Elapsed::from_secs(-7), at(-7, 0));
}

fn with_timeout(timeout: Option<&str>) -> Test {
    Test {
        name: "a".to_string(),
        spec: TestSpec {
            resources: vec![],
            depends_on: None,
            agent: AgentSpec { timeout: timeout.map(|t| t.to_string()) },
        },
        status: None,
        finalizers: vec![],
        deletion_requested: false,
    }
}

#[test]
fn a_time_limit_is_usable_if_absent_or_readable() {
    assert!(timeout_usable(&with_timeout(None)));
    assert!(timeout_usable(&with_timeout(Some("30m"))));
    assert!(!timeout_usable(&with_timeout(Some(""))));
    assert!(!timeout_usable(&with_timeout(Some("soon"))));
    assert!(!timeout_usable(&with_timeout(Some("18446744073709551616s"))));
}
