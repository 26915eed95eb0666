//! The output alphabet of the decision procedure.

use vstd::prelude::*;

verus! {

/// Why a test ended without a verdict.
#[derive(Clone, Debug, PartialEq, Eq)]
pub enum ErrorState {
    /// A resource failed, and the failure was already recorded on the test.
    ResourceErrorExists(String),
    /// The test is being deleted, holds no finalizer, and is still there.
    Zombie,
    /// The agent reported an error.
    TestError(String),
    JobFailure,
    JobStart,
    JobExitBeforeDone,
    JobTimeout,
    HandleJobRemovedBeforeDone,
}

/// The one thing the controller does next for a test.
#[derive(Clone, Debug, PartialEq, Eq)]
pub enum Action {
    Initialize,
    AddMainFinalizer,
    WaitForResources,
    RegisterResourceCreationError(String),
    WaitForDependency(String),
    AddJobFinalizer,
    StartTest,
    WaitForTest,
    DeleteJob,
    RemoveJobFinalizer,
    RemoveMainFinalizer,
    TestDone,
    Error(ErrorState),
}

/// Whether the resources of a test are there.
#[derive(Clone, Debug, PartialEq, Eq)]
pub enum Resources {
    NotReady,
    Ready,
    Error(String),
}

/// What an `ErrorState` holds, its text as characters.
pub enum ErrorStateView {
    ResourceErrorExists(Seq<char>),
    Zombie,
    TestError(Seq<char>),
    JobFailure,
    JobStart,
    JobExitBeforeDone,
    JobTimeout,
    HandleJobRemovedBeforeDone,
}

/// What an `Action` holds, its text as characters.
pub enum ActionView {
    Initialize,
    AddMainFinalizer,
    WaitForResources,
    RegisterResourceCreationError(Seq<char>),
    WaitForDependency(Seq<char>),
    AddJobFinalizer,
    StartTest,
    WaitForTest,
    DeleteJob,
    RemoveJobFinalizer,
    RemoveMainFinalizer,
    TestDone,
    Error(ErrorStateView),
}

/// What a `Resources` holds, its text as characters.
pub enum ResourcesView {
    NotReady,
    Ready,
    Error(Seq<char>),
}

impl View for ErrorState {
    type V = ErrorStateView;

    open spec fn view(&self) -> ErrorStateView {
        match self {
            ErrorState::ResourceErrorExists(e) => ErrorStateView::ResourceErrorExists(e@),
            ErrorState::Zombie => ErrorStateView::Zombie,
            ErrorState::TestError(e) => ErrorStateView::TestError(e@),
            ErrorState::JobFailure => ErrorStateView::JobFailure,
            ErrorState::JobStart => ErrorStateView::JobStart,
            ErrorState::JobExitBeforeDone => ErrorStateView::JobExitBeforeDone,
            ErrorState::JobTimeout => ErrorStateView::JobTimeout,
            ErrorState::HandleJobRemovedBeforeDone => ErrorStateView::HandleJobRemovedBeforeDone,
        }
    }
}

impl View for Action {
    type V = ActionView;

    open spec fn view(&self) -> ActionView {
        match self {
            Action::Initialize => ActionView::Initialize,
            Action::AddMainFinalizer => ActionView::AddMainFinalizer,
            Action::WaitForResources => ActionView::WaitForResources,
            Action::RegisterResourceCreationError(e) => ActionView::RegisterResourceCreationError(
                e@,
            ),
            Action::WaitForDependency(name) => ActionView::WaitForDependency(name@),
            Action::AddJobFinalizer => ActionView::AddJobFinalizer,
            Action::StartTest => ActionView::StartTest,
            Action::WaitForTest => ActionView::WaitForTest,
            Action::DeleteJob => ActionView::DeleteJob,
            Action::RemoveJobFinalizer => ActionView::RemoveJobFinalizer,
            Action::RemoveMainFinalizer => ActionView::RemoveMainFinalizer,
            Action::TestDone => ActionView::TestDone,
            Action::Error(state) => ActionView::Error(state@),
        }
    }
}

impl View for Resources {
    type V = ResourcesView;

    open spec fn view(&self) -> ResourcesView {
        match self {
            Resources::NotReady => ResourcesView::NotReady,
            Resources::Ready => ResourcesView::Ready,
            Resources::Error(e) => ResourcesView::Error(e@),
        }
    }
}

impl ErrorStateView {
    /// The text shown to the user for this error.
    pub open spec fn message(self) -> Seq<char> {
        match self {
            ErrorStateView::ResourceErrorExists(e) => e,
            ErrorStateView::Zombie =>
                "The main finalizer has been removed but the object still exists"@,
            ErrorStateView::TestError(e) => e,
            ErrorStateView::JobFailure => "The job failed"@,
            ErrorStateView::JobStart => "The job failed to start in time"@,
            ErrorStateView::JobExitBeforeDone =>
                "The test agent exited before marking the test complete"@,
            ErrorStateView::JobTimeout =>
                "The test agent did not finish within the specified time"@,
            ErrorStateView::HandleJobRemovedBeforeDone =>
                "The job was removed before the test completed"@,
        }
    }
}

impl ErrorState {
    /// The text shown to the user for this error: the carried message where
    /// there is one, a fixed sentence otherwise.
    pub fn message(&self) -> (text: String)
        ensures
            text@ == self@.message(),
    {
        match self {
            ErrorState::ResourceErrorExists(e) => e.clone(),
            ErrorState::Zombie => String::from_str(
                "The main finalizer has been removed but the object still exists",
            ),
            ErrorState::TestError(e) => e.clone(),
            ErrorState::JobFailure => String::from_str("The job failed"),
            ErrorState::JobStart => String::from_str("The job failed to start in time"),
            ErrorState::JobExitBeforeDone => String::from_str(
                "The test agent exited before marking the test complete",
            ),
            ErrorState::JobTimeout => String::from_str(
                "The test agent did not finish within the specified time",
            ),
            ErrorState::HandleJobRemovedBeforeDone => String::from_str(
                "The job was removed before the test completed",
            ),
        }
    }
}

impl ActionView {
    /// Whether the action ends the work on a test: nothing follows it.
    pub open spec fn is_terminal(self) -> bool {
        self is TestDone || self is Error
    }

    /// Whether the action only waits for the cluster to change.
    pub open spec fn is_wait(self) -> bool {
        self is WaitForResources || self is WaitForDependency || self is WaitForTest
    }

    /// How far the work on a test has come when this action is chosen.
    /// The actions of a test that lives come first, in the order in which
    /// a test passes through them; those of a test that is deleted follow;
    /// the actions that end the work come last.
    pub open spec fn phase(self) -> nat {
        match self {
            ActionView::Initialize => 0,
            ActionView::AddMainFinalizer => 1,
            ActionView::AddJobFinalizer => 2,
            ActionView::WaitForResources => 3,
            ActionView::RegisterResourceCreationError(_) => 3,
            ActionView::WaitForDependency(_) => 4,
            ActionView::StartTest => 5,
            ActionView::WaitForTest => 6,
            ActionView::DeleteJob => 7,
            ActionView::RemoveJobFinalizer => 8,
            ActionView::RemoveMainFinalizer => 9,
            ActionView::TestDone => 10,
            ActionView::Error(_) => 10,
        }
    }
}

impl Action {
    /// Whether the action ends the work on a test, so that the test is not
    /// looked at again until it changes.
    pub fn is_terminal(&self) -> (b: bool)
        ensures
            b == self@.is_terminal(),
    {
        match self {
            Action::TestDone => true,
            Action::Error(_) => true,
            _ => false,
        }
    }

    /// How far the work on a test has come when this action is chosen.
    pub fn phase(&self) -> (phase: u8)
        ensures
            phase == self@.phase(),
    {
        match self {
            Action::Initialize => 0,
            Action::AddMainFinalizer => 1,
            Action::AddJobFinalizer => 2,
            Action::WaitForResources => 3,
            Action::RegisterResourceCreationError(_) => 3,
            Action::WaitForDependency(_) => 4,
            Action::StartTest => 5,
            Action::WaitForTest => 6,
            Action::DeleteJob => 7,
            Action::RemoveJobFinalizer => 8,
            Action::RemoveMainFinalizer => 9,
            Action::TestDone => 10,
            Action::Error(_) => 10,
        }
    }

    /// Whether the action only waits for the cluster to change.
    pub fn is_wait(&self) -> (b: bool)
        ensures
            b == self@.is_wait(),
    {
        match self {
            Action::WaitForResources => true,
            Action::WaitForDependency(_) => true,
            Action::WaitForTest => true,
            _ => false,
        }
    }
}

} // verus!
