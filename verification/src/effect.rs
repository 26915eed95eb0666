//! What carrying out an action changes: the finalizers and the status of
//! the test, and whether its job exists.

use crate::action::{Action, ActionView};
use crate::model::{
    AgentStatus, AgentStatusView, JobState, TaskState, Test, TestStatus, TestStatusView, TestView,
    FINALIZER_MAIN, FINALIZER_TEST_JOB,
};
use crate::observation::{JobLookup, TestInterface, TestInterfaceView};
use crate::text::same_text;
use vstd::prelude::*;

verus! {

/// The names of `names` that differ from `name`, in their order.
pub open spec fn without(names: Seq<Seq<char>>, name: Seq<char>) -> Seq<Seq<char>>
    decreases names.len(),
{
    if names.len() == 0 {
        names
    } else {
        let kept = without(names.drop_last(), name);
        if names.last() != name {
            kept.push(names.last())
        } else {
            kept
        }
    }
}

/// The status of a test on which nothing has happened yet.
pub open spec fn fresh_status() -> TestStatusView {
    TestStatusView {
        agent: AgentStatusView { task_state: TaskState::Unknown, results: Seq::empty(), error: None },
        resource_error: None,
    }
}

impl TestView {
    /// The test with the finalizer `name` on it.
    pub open spec fn with_finalizer(self, name: Seq<char>) -> TestView {
        if self.has_finalizer(name) {
            self
        } else {
            TestView { finalizers: self.finalizers.push(name), ..self }
        }
    }

    /// The test with no finalizer `name` on it.
    pub open spec fn without_finalizer(self, name: Seq<char>) -> TestView {
        TestView { finalizers: without(self.finalizers, name), ..self }
    }

    /// The test with a status, a fresh one where it had none.
    pub open spec fn initialized(self) -> TestView {
        match self.status {
            Some(_) => self,
            None => TestView { status: Some(fresh_status()), ..self },
        }
    }

    /// The test with the failure of a resource recorded on it.
    pub open spec fn with_resource_error(self, message: Seq<char>) -> TestView {
        let status = match self.status {
            Some(status) => status,
            None => fresh_status(),
        };
        TestView {
            status: Some(TestStatusView { resource_error: Some(message), ..status }),
            ..self
        }
    }
}

/// The test after `action` was carried out. Waiting changes nothing, and
/// neither does an action that ends the work on the test.
pub open spec fn effect_on_test(test: TestView, action: ActionView) -> TestView {
    match action {
        ActionView::Initialize => test.initialized(),
        ActionView::AddMainFinalizer => test.with_finalizer(FINALIZER_MAIN@),
        ActionView::AddJobFinalizer => test.with_finalizer(FINALIZER_TEST_JOB@),
        ActionView::RegisterResourceCreationError(message) => test.with_resource_error(message),
        ActionView::RemoveJobFinalizer => test.without_finalizer(FINALIZER_TEST_JOB@),
        ActionView::RemoveMainFinalizer => test.without_finalizer(FINALIZER_MAIN@),
        _ => test,
    }
}

/// What is seen of the job after `action` was carried out: starting
/// creates a job where none is known to exist, deleting removes it.
pub open spec fn effect_on_job(job: Option<JobLookup>, action: ActionView) -> Option<JobLookup> {
    match action {
        ActionView::StartTest => match job {
            Some(JobLookup::Seen(JobState::Absent)) => Some(JobLookup::Seen(JobState::Unknown)),
            Some(JobLookup::Seen(_)) => job,
            _ => Some(JobLookup::Seen(JobState::Unknown)),
        },
        ActionView::DeleteJob => Some(JobLookup::Seen(JobState::Absent)),
        _ => job,
    }
}

/// The test and what is seen of the cluster after `action` was carried
/// out and nothing else has changed.
pub open spec fn effect(t: TestInterfaceView, action: ActionView) -> TestInterfaceView {
    TestInterfaceView {
        test: effect_on_test(t.test, action),
        job: effect_on_job(t.job, action),
        ..t
    }
}

/// A sequence with one more item holds what it held before and that item.
pub proof fn lemma_push_contains<A>(s: Seq<A>, last: A, x: A)
    ensures
        s.push(last).contains(x) <==> s.contains(x) || x == last,
{
    let longer = s.push(last);
    if s.contains(x) {
        let i = choose|i: int| 0 <= i < s.len() && s[i] == x;
        assert(longer[i] == x);
    }
    if x == last {
        assert(longer[s.len() as int] == x);
    }
    if longer.contains(x) {
        let i = choose|i: int| 0 <= i < longer.len() && longer[i] == x;
        if i < s.len() {
            assert(s[i] == x);
        }
    }
}

/// A name is among those left by `without` exactly when it was there and
/// is not the one taken out.
pub proof fn lemma_without_contains(names: Seq<Seq<char>>, name: Seq<char>, other: Seq<char>)
    ensures
        without(names, name).contains(other) <==> names.contains(other) && other != name,
    decreases names.len(),
{
    if names.len() > 0 {
        let shorter = names.drop_last();
        lemma_without_contains(shorter, name, other);
        assert(names =~= shorter.push(names.last()));
        lemma_push_contains(shorter, names.last(), other);
        lemma_push_contains(without(shorter, name), names.last(), other);
    }
}

/// Taking a name out of names that do not hold it changes nothing.
pub proof fn lemma_without_absent(names: Seq<Seq<char>>, name: Seq<char>)
    requires
        !names.contains(name),
    ensures
        without(names, name) == names,
    decreases names.len(),
{
    if names.len() > 0 {
        let shorter = names.drop_last();
        assert(names =~= shorter.push(names.last()));
        lemma_push_contains(shorter, names.last(), name);
        lemma_without_absent(shorter, name);
    }
}

impl Test {
    /// Puts the finalizer `name` on the test, unless it is there.
    pub fn add_finalizer(&mut self, name: &str)
        ensures
            final(self)@ == old(self)@.with_finalizer(name@),
    {
        if !self.has_finalizer(name) {
            self.finalizers.push(String::from_str(name));
            assert(self@.finalizers =~= old(self)@.finalizers.push(name@));
        }
    }

    /// Takes the finalizer `name` off the test, wherever it stands.
    pub fn remove_finalizer(&mut self, name: &str)
        ensures
            final(self)@ == old(self)@.without_finalizer(name@),
    {
        let ghost before = self@.finalizers;
        let mut kept: Vec<String> = Vec::new();
        let mut i: usize = 0;
        assert(before.take(0) =~= Seq::<Seq<char>>::empty());
        while i < self.finalizers.len()
            invariant
                i <= self.finalizers.len(),
                *self == *old(self),
                before == self@.finalizers,
                kept.deep_view() == without(before.take(i as int), name@),
            decreases self.finalizers.len() - i,
        {
            assert(before.take(i + 1).drop_last() =~= before.take(i as int));
            assert(before.take(i + 1).last() == self.finalizers[i as int]@);
            if !same_text(self.finalizers[i].as_str(), name) {
                kept.push(self.finalizers[i].clone());
                assert(kept.deep_view() =~= without(before.take(i as int), name@).push(
                    self.finalizers[i as int]@,
                ));
            }
            i += 1;
        }
        assert(before.take(i as int) =~= before);
        self.finalizers = kept;
    }

    /// Gives the test a fresh status, unless it has one.
    pub fn initialize(&mut self)
        ensures
            final(self)@ == old(self)@.initialized(),
    {
        if self.status.is_none() {
            self.status = Some(
                TestStatus {
                    agent: AgentStatus {
                        task_state: TaskState::Unknown,
                        results: Vec::new(),
                        error: None,
                    },
                    resource_error: None,
                },
            );
            assert(self@.status->0.agent.results =~= Seq::<crate::model::Outcome>::empty());
        }
    }

    /// Records the failure of a resource on the test.
    pub fn register_resource_error(&mut self, message: &str)
        ensures
            final(self)@ == old(self)@.with_resource_error(message@),
    {
        self.initialize();
        let status = self.status.take();
        match status {
            Some(status) => {
                self.status = Some(
                    TestStatus {
                        agent: status.agent,
                        resource_error: Some(String::from_str(message)),
                    },
                );
            },
            None => {},
        }
    }

    /// Changes the test as carrying out `action` does.
    pub fn apply(&mut self, action: &Action)
        ensures
            final(self)@ == effect_on_test(old(self)@, action@),
    {
        match action {
            Action::Initialize => self.initialize(),
            Action::AddMainFinalizer => self.add_finalizer(FINALIZER_MAIN),
            Action::AddJobFinalizer => self.add_finalizer(FINALIZER_TEST_JOB),
            Action::RegisterResourceCreationError(message) => self.register_resource_error(
                message.as_str(),
            ),
            Action::RemoveJobFinalizer => self.remove_finalizer(FINALIZER_TEST_JOB),
            Action::RemoveMainFinalizer => self.remove_finalizer(FINALIZER_MAIN),
            _ => {},
        }
    }
}

impl TestInterface {
    /// Changes the test, and what is seen of its job, as carrying out
    /// `action` does where the cluster does as it is asked.
    pub fn apply(&mut self, action: &Action)
        ensures
            final(self)@ == effect(old(self)@, action@),
    {
        self.test.apply(action);
        match action {
            Action::StartTest => {
                match self.job {
                    Some(JobLookup::Seen(JobState::Absent)) => {
                        self.job = Some(JobLookup::Seen(JobState::Unknown));
                    },
                    Some(JobLookup::Seen(_)) => {},
                    _ => {
                        self.job = Some(JobLookup::Seen(JobState::Unknown));
                    },
                }
            },
            Action::DeleteJob => {
                self.job = Some(JobLookup::Seen(JobState::Absent));
            },
            _ => {},
        }
    }
}

} // verus!
