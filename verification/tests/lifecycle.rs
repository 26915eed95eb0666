use test_controller::action::{Action, ErrorState};
use test_controller::decide::{determine_action, determine_delete_action, task_not_done_action};
use test_controller::model::{
    AgentSpec, AgentStatus, Elapsed, JobState, Outcome, Resource, ResourcePhase, TaskState, Test,
    TestSpec, TestStatus, FINALIZER_MAIN, FINALIZER_TEST_JOB,
};
use test_controller::observation::{
    JobLookup, Query, ResourceLookup, TestInterface, TestLookup, Undecided,
};

/// A cluster that answers each question the same way every time.
struct Cluster {
    job: JobLookup,
    resources: Vec<ResourceLookup>,
    tests: Vec<TestLookup>,
}

/// Decides for `test`, reading from `cluster` what is asked for and nothing
/// else. Returns the decision and the questions in the order asked.
fn reconcile(test: Test, cluster: &Cluster) -> (Result<Action, Undecided>, Vec<Query>) {
    let mut seen = TestInterface::new(test);
    let mut asked = vec![];
    loop {
        match determine_action(&seen) {
            Err(Undecided::Unobserved(query)) => {
                asked.push(query);
                match query {
                    Query::JobState => seen.record_job(cluster.job),
                    Query::Resource(i) => seen.record_resource(cluster.resources[i].clone()),
                    Query::Dependency(i) => seen.record_dependency(cluster.tests[i].clone()),
                }
            }
            decided => return (decided, asked),
        }
    }
}

fn complete() -> ResourceLookup {
    ResourceLookup::Found(Resource {
        creation: ResourcePhase { task_state: TaskState::Completed, error: None },
        destruction: ResourcePhase { task_state: TaskState::Unknown, error: None },
    })
}

fn plain(name: &str) -> Test {
    Test {
        name: name.to_string(),
        spec: TestSpec { resources: vec![], depends_on: None, agent: AgentSpec { timeout: None } },
        status: None,
        finalizers: vec![],
        deletion_requested: false,
    }
}

fn passed(name: &str) -> TestLookup {
    let mut t = plain(name);
    t.status = Some(TestStatus {
        agent: AgentStatus {
            task_state: TaskState::Completed,
            results: vec![Outcome::Pass],
            error: None,
        },
        resource_error: None,
    });
    TestLookup::Found(t)
}

fn with_needs() -> Test {
    let mut t = plain("a");
    t.spec.resources = vec!["r1".to_string(), "r2".to_string()];
    t.spec.depends_on = Some(vec!["t0".to_string()]);
    t
}

#[test]
fn nothing_is_read_that_is_not_needed() {
    let cluster = Cluster {
        job: JobLookup::Seen(JobState::Absent),
        resources: vec![complete(), complete()],
        tests: vec![passed("t0")],
    };
    let mut t = with_needs();
    assert_eq!(reconcile(t.clone(), &cluster), (Ok(Action::Initialize), vec![]));
    t.apply(&Action::Initialize);
    assert_eq!(reconcile(t.clone(), &cluster), (Ok(Action::AddMainFinalizer), vec![]));
    t.apply(&Action::AddMainFinalizer);
    assert_eq!(reconcile(t.clone(), &cluster), (Ok(Action::AddJobFinalizer), vec![]));
    t.apply(&Action::AddJobFinalizer);
    assert_eq!(
        reconcile(t, &cluster),
        (
            Ok(Action::StartTest),
            vec![Query::JobState, Query::Resource(0), Query::Resource(1), Query::Dependency(0)]
        )
    );
}

#[test]
fn reading_stops_at_what_decides() {
    let mut t = with_needs();
    t.apply(&Action::Initialize);
    t.apply(&Action::AddMainFinalizer);
    t.apply(&Action::AddJobFinalizer);
    let cluster = Cluster {
        job: JobLookup::Seen(JobState::Absent),
        resources: vec![ResourceLookup::NotFound, ResourceLookup::Unavailable],
        tests: vec![TestLookup::Unavailable],
    };
    assert_eq!(
        reconcile(t.clone(), &cluster),
        (
            Ok(Action::RegisterResourceCreationError("Resource 'r1' not found".to_string())),
            vec![Query::JobState, Query::Resource(0)]
        )
    );
    let cluster = Cluster {
        job: JobLookup::Seen(JobState::Unknown),
        resources: vec![],
        tests: vec![],
    };
    assert_eq!(reconcile(t, &cluster), (Ok(Action::WaitForTest), vec![Query::JobState]));
}

#[test]
fn failure_to_read_fails_the_attempt() {
    let mut t = with_needs();
    t.apply(&Action::Initialize);
    t.apply(&Action::AddMainFinalizer);
    t.apply(&Action::AddJobFinalizer);
    let cluster = Cluster {
        job: JobLookup::Seen(JobState::Absent),
        resources: vec![complete(), ResourceLookup::Unavailable],
        tests: vec![passed("t0")],
    };
    assert_eq!(
        reconcile(t.clone(), &cluster),
        (
            Err(Undecided::Unavailable(Query::Resource(1))),
            vec![Query::JobState, Query::Resource(0), Query::Resource(1)]
        )
    );
    let cluster = Cluster { job: JobLookup::Unavailable, resources: vec![], tests: vec![] };
    assert_eq!(
        reconcile(t, &cluster),
        (Err(Undecided::Unavailable(Query::JobState)), vec![Query::JobState])
    );
}

#[test]
fn more_answers_do_not_change_a_decision() {
    let mut t = with_needs();
    t.apply(&Action::Initialize);
    t.apply(&Action::AddMainFinalizer);
    let mut seen = TestInterface::new(t);
    assert_eq!(determine_action(&seen), Ok(Action::AddJobFinalizer));
    seen.record_job(JobLookup::Unavailable);
    seen.record_resource(ResourceLookup::Unavailable);
    seen.record_resource(ResourceLookup::NotFound);
    seen.record_dependency(TestLookup::Unavailable);
    assert_eq!(determine_action(&seen), Ok(Action::AddJobFinalizer));
}

#[test]
fn the_controller_never_goes_back() {
    let mut t = with_needs();
    t.spec.agent.timeout = Some("1h".to_string());
    let mut seen = TestInterface::new(t);
    seen.record_job(JobLookup::Seen(JobState::Absent));
    seen.record_resource(complete());
    seen.record_resource(complete());
    seen.record_dependency(passed("t0"));
    let mut chosen = vec![];
    loop {
        let action = determine_action(&seen).unwrap();
        if let Some(last) = chosen.last() {
            let last: &Action = last;
            assert!(action.phase() > last.phase());
        }
        chosen.push(action.clone());
        if action.is_wait() || action.is_terminal() {
            seen.apply(&action);
            assert_eq!(determine_action(&seen), Ok(action));
            break;
        }
        seen.apply(&action);
    }
    assert_eq!(
        chosen,
        vec![
            Action::Initialize,
            Action::AddMainFinalizer,
            Action::AddJobFinalizer,
            Action::StartTest,
            Action::WaitForTest
        ]
    );
}

#[test]
fn a_registered_resource_error_ends_in_a_stable_error() {
    let mut t = plain("a");
    t.spec.resources = vec!["r1".to_string()];
    t.apply(&Action::Initialize);
    t.apply(&Action::AddMainFinalizer);
    t.apply(&Action::AddJobFinalizer);
    let mut seen = TestInterface::new(t);
    seen.record_job(JobLookup::Seen(JobState::Absent));
    seen.record_resource(ResourceLookup::NotFound);
    let first = determine_action(&seen).unwrap();
    assert_eq!(
        first,
        Action::RegisterResourceCreationError("Resource 'r1' not found".to_string())
    );
    seen.apply(&first);
    let second = determine_action(&seen).unwrap();
    assert_eq!(
        second,
        Action::Error(ErrorState::ResourceErrorExists("Resource 'r1' not found".to_string()))
    );
    seen.apply(&second);
    assert_eq!(determine_action(&seen), Ok(second));
}

#[test]
fn deletion_removes_the_finalizers_in_order() {
    let mut t = plain("a");
    t.apply(&Action::Initialize);
    t.apply(&Action::AddMainFinalizer);
    t.apply(&Action::AddJobFinalizer);
    t.deletion_requested = true;
    let mut seen = TestInterface::new(t);
    seen.record_job(JobLookup::Seen(JobState::Running(Some(Elapsed::from_secs(10)))));
    let mut chosen = vec![];
    loop {
        let action = determine_action(&seen).unwrap();
        let had_main = seen.test.has_finalizer(FINALIZER_MAIN);
        let had_job = seen.test.has_finalizer(FINALIZER_TEST_JOB);
        let job_before = seen.job;
        seen.apply(&action);
        if had_main && !seen.test.has_finalizer(FINALIZER_MAIN) {
            assert!(!had_job);
            assert_eq!(job_before, Some(JobLookup::Seen(JobState::Absent)));
        }
        if had_job && !seen.test.has_finalizer(FINALIZER_TEST_JOB) {
            assert_eq!(job_before, Some(JobLookup::Seen(JobState::Absent)));
        }
        let ends = action.is_terminal();
        chosen.push(action);
        if ends {
            break;
        }
    }
    assert_eq!(
        chosen,
        vec![
            Action::DeleteJob,
            Action::RemoveJobFinalizer,
            Action::RemoveMainFinalizer,
            Action::Error(ErrorState::Zombie)
        ]
    );
}

#[test]
fn a_test_that_is_deleted_gets_one_of_four_actions() {
    let jobs = [
        JobState::Absent,
        JobState::Unknown,
        JobState::Running(None),
        JobState::Running(Some(Elapsed::from_secs(100000))),
        JobState::Failed,
        JobState::Exited,
    ];
    let finalizer_sets: [&[&str]; 4] =
        [&[], &[FINALIZER_MAIN], &[FINALIZER_TEST_JOB], &[FINALIZER_MAIN, FINALIZER_TEST_JOB]];
    let states =
        [None, Some(TaskState::Unknown), Some(TaskState::Running), Some(TaskState::Completed), Some(TaskState::Error)];
    for job in jobs {
        for finalizers in finalizer_sets {
            for state in states {
                let mut t = with_needs();
                t.deletion_requested = true;
                t.finalizers = finalizers.iter().map(|f| f.to_string()).collect();
                t.status = state.map(|task_state| TestStatus {
                    agent: AgentStatus { task_state, results: vec![], error: None },
                    resource_error: None,
                });
                let mut seen = TestInterface::new(t);
                seen.record_job(JobLookup::Seen(job));
                let action = determine_action(&seen).unwrap();
                assert!(matches!(
                    action,
                    Action::DeleteJob
                        | Action::RemoveJobFinalizer
                        | Action::RemoveMainFinalizer
                        | Action::Error(ErrorState::Zombie)
                ));
                assert_eq!(determine_delete_action(&seen), Ok(action));
            }
        }
    }
}

#[test]
fn a_test_is_not_started_before_its_dependencies_passed() {
    let verdicts = [
        None,
        Some(vec![]),
        Some(vec![Outcome::Fail]),
        Some(vec![Outcome::Timeout]),
        Some(vec![Outcome::Pass, Outcome::Fail]),
    ];
    for results in verdicts {
        let mut t = with_needs();
        t.apply(&Action::Initialize);
        t.apply(&Action::AddMainFinalizer);
        t.apply(&Action::AddJobFinalizer);
        let mut upstream = plain("t0");
        upstream.status = results.map(|results| TestStatus {
            agent: AgentStatus { task_state: TaskState::Completed, results, error: None },
            resource_error: None,
        });
        let cluster = Cluster {
            job: JobLookup::Seen(JobState::Absent),
            resources: vec![complete(), complete()],
            tests: vec![TestLookup::Found(upstream)],
        };
        let (decision, _) = reconcile(t, &cluster);
        assert_eq!(decision, Ok(Action::WaitForDependency("t0".to_string())));
    }
}

#[test]
fn a_longer_run_has_timed_out_too() {
    let mut t = plain("a");
    t.spec.agent.timeout = Some("30m".to_string());
    t.apply(&Action::Initialize);
    t.apply(&Action::AddMainFinalizer);
    t.apply(&Action::AddJobFinalizer);
    for secs in [1801, 2700, 360000, i64::MAX] {
        let mut seen = TestInterface::new(t.clone());
        seen.record_job(JobLookup::Seen(JobState::Running(Some(Elapsed::from_secs(secs)))));
        assert_eq!(determine_action(&seen), Ok(Action::Error(ErrorState::JobTimeout)));
    }
}

#[test]
fn the_job_finalizer_comes_before_the_job_state() {
    let mut t = plain("a");
    t.apply(&Action::Initialize);
    t.apply(&Action::AddMainFinalizer);
    let seen = TestInterface::new(t);
    assert_eq!(task_not_done_action(&seen, false), Ok(Action::AddJobFinalizer));
    assert_eq!(
        task_not_done_action(&seen, true),
        Err(Undecided::Unobserved(Query::JobState))
    );
}

#[test]
fn decisions_are_repeatable() {
    let cluster = Cluster {
        job: JobLookup::Seen(JobState::Absent),
        resources: vec![complete(), ResourceLookup::NotFound],
        tests: vec![passed("t0")],
    };
    let mut t = with_needs();
    t.apply(&Action::Initialize);
    t.apply(&Action::AddMainFinalizer);
    t.apply(&Action::AddJobFinalizer);
    assert_eq!(reconcile(t.clone(), &cluster), reconcile(t, &cluster));
}
