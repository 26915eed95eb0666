//! The decision procedure: which action the controller takes next for a
//! test, given what was read of the cluster.

use crate::action::{Action, ActionView, ErrorState, ErrorStateView, Resources, ResourcesView};
use crate::dependency::{dependency_wait, dependency_wait_action};
use crate::duration::{parse_duration, timeout_seconds};
use crate::model::{
    Elapsed, JobState, TaskState, Test, TestView, FINALIZER_MAIN, FINALIZER_TEST_JOB,
    TEST_START_TIME_LIMIT,
};
use crate::observation::{outcome_view, TestInterface, TestInterfaceView, Undecided};
use crate::readiness::{readiness, resource_readiness};
use vstd::prelude::*;

verus! {

/// The characters of the main finalizer's name.
pub open spec fn main_finalizer() -> Seq<char> {
    FINALIZER_MAIN@
}

/// The characters of the job finalizer's name.
pub open spec fn job_finalizer() -> Seq<char> {
    FINALIZER_TEST_JOB@
}

/// Whether a job that has run for `elapsed` has run longer than the time
/// limit written in `timeout`. Without a limit, and with text that is no
/// limit, no job has.
pub open spec fn timed_out(timeout: Option<Seq<char>>, elapsed: Elapsed) -> bool {
    match timeout {
        Some(text) => match timeout_seconds(text) {
            Some(limit) => elapsed.as_nanos() > limit * 1_000_000_000,
            None => false,
        },
        None => false,
    }
}

/// Whether the time limit of the test can be used: there is none, or it
/// is written as a limit of no more than `u64::MAX` seconds.
pub open spec fn timeout_is_usable(test: TestView) -> bool {
    match test.spec.agent.timeout {
        Some(text) => timeout_seconds(text) is Some,
        None => true,
    }
}

/// Whether a job that has run for `elapsed` has used up the time that an
/// agent has to report that it is alive.
pub open spec fn start_overdue(elapsed: Elapsed) -> bool {
    elapsed.as_nanos() >= TEST_START_TIME_LIMIT * 1_000_000_000
}

/// The action for a test whose job runs.
pub open spec fn running_job_action(test: TestView, elapsed: Option<Elapsed>) -> ActionView {
    match elapsed {
        None => ActionView::WaitForTest,
        Some(elapsed) => if timed_out(test.spec.agent.timeout, elapsed) {
            ActionView::Error(ErrorStateView::JobTimeout)
        } else if test.task_state() == TaskState::Unknown && start_overdue(elapsed) {
            ActionView::Error(ErrorStateView::JobStart)
        } else {
            ActionView::WaitForTest
        },
    }
}

/// The action for a test that has no job and whose agent has not begun:
/// wait for its resources, report their failure, wait for the tests it
/// depends on, or start.
pub open spec fn launch_action(t: TestInterfaceView) -> Result<ActionView, Undecided> {
    match readiness(t) {
        Err(e) => Err(e),
        Ok(ResourcesView::NotReady) => Ok(ActionView::WaitForResources),
        Ok(ResourcesView::Error(message)) => if t.test.resource_error() is None {
            Ok(ActionView::RegisterResourceCreationError(message))
        } else {
            Ok(ActionView::Error(ErrorStateView::ResourceErrorExists(message)))
        },
        Ok(ResourcesView::Ready) => match dependency_wait(t) {
            Err(e) => Err(e),
            Ok(Some(name)) => Ok(ActionView::WaitForDependency(name)),
            Ok(None) => Ok(ActionView::StartTest),
        },
    }
}

/// The action for a test whose agent is not done, `running` saying
/// whether the agent has reported that it runs.
pub open spec fn not_done_action(t: TestInterfaceView, running: bool) -> Result<
    ActionView,
    Undecided,
> {
    if !running && !t.test.has_finalizer(job_finalizer()) {
        Ok(ActionView::AddJobFinalizer)
    } else {
        match t.job_state() {
            Err(e) => Err(e),
            Ok(JobState::Absent) => if running {
                Ok(ActionView::Error(ErrorStateView::HandleJobRemovedBeforeDone))
            } else {
                launch_action(t)
            },
            Ok(JobState::Unknown) => Ok(ActionView::WaitForTest),
            Ok(JobState::Running(elapsed)) => Ok(running_job_action(t.test, elapsed)),
            Ok(JobState::Failed) => Ok(ActionView::Error(ErrorStateView::JobFailure)),
            Ok(JobState::Exited) => Ok(ActionView::Error(ErrorStateView::JobExitBeforeDone)),
        }
    }
}

/// The action for a test whose deletion was requested.
pub open spec fn delete_action(t: TestInterfaceView) -> Result<ActionView, Undecided> {
    match t.job_state() {
        Err(e) => Err(e),
        Ok(state) => Ok(
            if state != JobState::Absent {
                ActionView::DeleteJob
            } else if t.test.has_finalizer(job_finalizer()) {
                ActionView::RemoveJobFinalizer
            } else if t.test.has_finalizer(main_finalizer()) {
                ActionView::RemoveMainFinalizer
            } else {
                ActionView::Error(ErrorStateView::Zombie)
            },
        ),
    }
}

/// The message of a test whose agent ended in the error state.
pub open spec fn test_error_message(test: TestView) -> Seq<char> {
    match test.agent_error() {
        Some(message) => message,
        None => "Unknown error"@,
    }
}

/// The action for a test: the first rule that applies, from deletion
/// through initialization and the main finalizer to the agent's state.
pub open spec fn decide(t: TestInterfaceView) -> Result<ActionView, Undecided> {
    if t.test.deletion_requested {
        delete_action(t)
    } else if t.test.status is None {
        Ok(ActionView::Initialize)
    } else if !t.test.has_finalizer(main_finalizer()) {
        Ok(ActionView::AddMainFinalizer)
    } else {
        match t.test.task_state() {
            TaskState::Unknown => not_done_action(t, false),
            TaskState::Running => not_done_action(t, true),
            TaskState::Completed => Ok(ActionView::TestDone),
            TaskState::Error => Ok(
                ActionView::Error(ErrorStateView::TestError(test_error_message(t.test))),
            ),
        }
    }
}

/// Whether the time limit of the test can be used. One that cannot is
/// taken as no limit when an action is chosen, so it is to be reported
/// when the test is first looked at.
pub fn timeout_usable(test: &Test) -> (usable: bool)
    ensures
        usable == timeout_is_usable(test@),
{
    match &test.spec.agent.timeout {
        Some(text) => parse_duration(text.as_str()).is_some(),
        None => true,
    }
}

/// The action for a test whose job runs for `elapsed`, where that is
/// known: the job has timed out where the test's time limit can be read
/// and `elapsed` is longer; else it has failed to start where the agent
/// has reported nothing and the time to do so is used up; else the test
/// is waited for.
pub fn running_job(t: &TestInterface, elapsed: Option<Elapsed>) -> (action: Action)
    ensures
        action@ == running_job_action(t@.test, elapsed),
{
    let elapsed = match elapsed {
        Some(elapsed) => elapsed,
        None => {
            return Action::WaitForTest;
        },
    };
    if let Some(text) = &t.test.spec.agent.timeout {
        if let Some(limit) = parse_duration(text.as_str()) {
            if elapsed.exceeds(limit) {
                return Action::Error(ErrorState::JobTimeout);
            }
        }
    }
    if matches!(t.test.task_state(), TaskState::Unknown) && elapsed.at_least(
        TEST_START_TIME_LIMIT,
    ) {
        return Action::Error(ErrorState::JobStart);
    }
    Action::WaitForTest
}

/// The action for a test whose agent is not done. Without the job
/// finalizer, and before the agent runs, the finalizer is added first.
/// Then the job decides: none, before the agent runs, leaves the choice
/// to the resources and the dependencies of the test; none, once it
/// runs, is an error; one that has not started or runs is waited for
/// within its time limits; one that failed or ended is an error.
pub fn task_not_done_action(t: &TestInterface, is_task_state_running: bool) -> (r: Result<
    Action,
    Undecided,
>)
    ensures
        outcome_view(r) == not_done_action(t@, is_task_state_running),
{
    if !is_task_state_running && !t.test.has_finalizer(FINALIZER_TEST_JOB) {
        return Ok(Action::AddJobFinalizer);
    }
    let job_state = match t.get_job_state() {
        Ok(state) => state,
        Err(e) => {
            return Err(e);
        },
    };
    match job_state {
        JobState::Absent => {
            if is_task_state_running {
                return Ok(Action::Error(ErrorState::HandleJobRemovedBeforeDone));
            }
            match resource_readiness(t) {
                Err(e) => Err(e),
                Ok(Resources::NotReady) => Ok(Action::WaitForResources),
                Ok(Resources::Error(message)) => {
                    if t.test.resource_error().is_none() {
                        Ok(Action::RegisterResourceCreationError(message))
                    } else {
                        Ok(Action::Error(ErrorState::ResourceErrorExists(message)))
                    }
                },
                Ok(Resources::Ready) => match dependency_wait_action(t) {
                    Err(e) => Err(e),
                    Ok(Some(wait)) => Ok(wait),
                    Ok(None) => Ok(Action::StartTest),
                },
            }
        },
        JobState::Unknown => Ok(Action::WaitForTest),
        JobState::Running(elapsed) => Ok(running_job(t, elapsed)),
        JobState::Failed => Ok(Action::Error(ErrorState::JobFailure)),
        JobState::Exited => Ok(Action::Error(ErrorState::JobExitBeforeDone)),
    }
}

/// The action for a test whose deletion was requested: delete the job
/// while there is one, then remove the job finalizer, then the main
/// finalizer. A test that holds neither and is still there is a zombie.
pub fn determine_delete_action(t: &TestInterface) -> (r: Result<Action, Undecided>)
    ensures
        outcome_view(r) == delete_action(t@),
{
    let job_state = match t.get_job_state() {
        Ok(state) => state,
        Err(e) => {
            return Err(e);
        },
    };
    if !matches!(job_state, JobState::Absent) {
        Ok(Action::DeleteJob)
    } else if t.test.has_finalizer(FINALIZER_TEST_JOB) {
        Ok(Action::RemoveJobFinalizer)
    } else if t.test.has_finalizer(FINALIZER_MAIN) {
        Ok(Action::RemoveMainFinalizer)
    } else {
        Ok(Action::Error(ErrorState::Zombie))
    }
}

/// The action that the controller takes next for the test. It is an
/// error only where something that decides was not read yet, or could
/// not be read; the error names it.
pub fn determine_action(t: &TestInterface) -> (r: Result<Action, Undecided>)
    ensures
        outcome_view(r) == decide(t@),
{
    if t.test.is_delete_requested() {
        return determine_delete_action(t);
    }
    if t.test.status.is_none() {
        return Ok(Action::Initialize);
    }
    if !t.test.has_finalizer(FINALIZER_MAIN) {
        return Ok(Action::AddMainFinalizer);
    }
    match t.test.task_state() {
        TaskState::Unknown => task_not_done_action(t, false),
        TaskState::Running => task_not_done_action(t, true),
        TaskState::Completed => Ok(Action::TestDone),
        TaskState::Error => {
            let message = match t.test.agent_error() {
                Some(message) => message.clone(),
                None => String::from_str("Unknown error"),
            };
            Ok(Action::Error(ErrorState::TestError(message)))
        },
    }
}

} // verus!
