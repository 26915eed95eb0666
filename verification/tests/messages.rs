use test_controller::action::{Action, ErrorState};

#[test]
fn errors_with_a_message_show_it() {
    assert_eq!(ErrorState::ResourceErrorExists("no such pool".to_string()).message(), "no such pool");
    assert_eq!(ErrorState::TestError("exit 3".to_string()).message(), "exit 3");
    assert_eq!(ErrorState::TestError(String::new()).message(), "");
}

#[test]
fn errors_without_a_message_show_a_sentence() {
    assert_eq!(
        ErrorState::Zombie.message(),
        "The main finalizer has been removed but the object still exists"
    );
    assert_eq!(ErrorState::JobFailure.message(), "The job failed");
    assert_eq!(ErrorState::JobStart.message(), "The job failed to start in time");
    assert_eq!(
        ErrorState::JobExitBeforeDone.message(),
        "The test agent exited before marking the test complete"
    );
    assert_eq!(
        ErrorState::JobTimeout.message(),
        "The test agent did not finish within the specified time"
    );
    assert_eq!(
        ErrorState::HandleJobRemovedBeforeDone.message(),
        "The job was removed before the test completed"
    );
}

fn all_actions() -> Vec<Action> {
    vec![
        Action::Initialize,
        Action::AddMainFinalizer,
        Action::WaitForResources,
        Action::RegisterResourceCreationError("e".to_string()),
        Action::WaitForDependency("t0".to_string()),
        Action::AddJobFinalizer,
        Action::StartTest,
        Action::WaitForTest,
        Action::DeleteJob,
        Action::RemoveJobFinalizer,
        Action::RemoveMainFinalizer,
        Action::TestDone,
        Action::Error(ErrorState::Zombie),
        Action::Error(ErrorState::JobTimeout),
    ]
}

#[test]
fn done_and_errors_end_the_work() {
    for action in all_actions() {
        let ends = matches!(action, Action::TestDone | Action::Error(_));
        assert_eq!(action.is_terminal(), ends);
    }
}

#[test]
fn waits_are_the_three_waits() {
    for action in all_actions() {
        let waits = matches!(
            action,
            Action::WaitForResources | Action::WaitForDependency(_) | Action::WaitForTest
        );
        assert_eq!(action.is_wait(), waits);
    }
}

#[test]
fn phases_follow_the_life_of_a_test() {
    let life = [
        Action::Initialize,
        Action::AddMainFinalizer,
        Action::AddJobFinalizer,
        Action::WaitForResources,
        Action::WaitForDependency("t0".to_string()),
        Action::StartTest,
        Action::WaitForTest,
        Action::DeleteJob,
        Action::RemoveJobFinalizer,
        Action::RemoveMainFinalizer,
        Action::TestDone,
    ];
    for (i, action) in life.iter().enumerate() {
        assert_eq!(action.phase() as usize, i);
    }
    assert_eq!(Action::RegisterResourceCreationError(String::new()).phase(), 3);
    assert_eq!(Action::Error(ErrorState::JobFailure).phase(), 10);
}
