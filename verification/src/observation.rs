//! A test together with what has been seen of the cluster on its behalf.
//!
//! Reading the cluster is not done here. The caller reads, records what
//! came back, and asks for a decision; where the decision needs something
//! that was not read yet, it names it.

use crate::model::{JobState, Resource, ResourceView, Test, TestView};
use vstd::prelude::*;

verus! {

/// One thing that can be read from the cluster for a test.
#[derive(Clone, Copy, Debug, PartialEq, Eq)]
pub enum Query {
    /// The state of the test's job.
    JobState,
    /// The resource named at this index of the test's `resources`.
    Resource(usize),
    /// The test named at this index of the test's `depends_on`.
    Dependency(usize),
}

/// Why no action could be chosen.
#[derive(Clone, Copy, Debug, PartialEq, Eq)]
pub enum Undecided {
    /// The decision depends on something that was not read yet.
    Unobserved(Query),
    /// The decision depends on something that could not be read.
    Unavailable(Query),
}

/// The view of a result that is an action or the like, or the reason why
/// there is none.
pub open spec fn outcome_view<T: View>(r: Result<T, Undecided>) -> Result<T::V, Undecided> {
    match r {
        Ok(v) => Ok(v@),
        Err(e) => Err(e),
    }
}

/// Result of reading the state of a job.
#[derive(Clone, Copy, Debug, PartialEq, Eq)]
pub enum JobLookup {
    Seen(JobState),
    Unavailable,
}

/// Result of reading a resource by name.
#[derive(Clone, Debug, PartialEq, Eq)]
pub enum ResourceLookup {
    Found(Resource),
    NotFound,
    Unavailable,
}

/// Result of reading a test by name.
#[derive(Clone, Debug, PartialEq, Eq)]
pub enum TestLookup {
    Found(Test),
    Unavailable,
}

/// What a `ResourceLookup` holds, its text as characters.
pub enum ResourceLookupView {
    Found(ResourceView),
    NotFound,
    Unavailable,
}

/// What a `TestLookup` holds, its text as characters.
pub enum TestLookupView {
    Found(TestView),
    Unavailable,
}

impl View for ResourceLookup {
    type V = ResourceLookupView;

    open spec fn view(&self) -> ResourceLookupView {
        match self {
            ResourceLookup::Found(resource) => ResourceLookupView::Found(resource@),
            ResourceLookup::NotFound => ResourceLookupView::NotFound,
            ResourceLookup::Unavailable => ResourceLookupView::Unavailable,
        }
    }
}

impl View for TestLookup {
    type V = TestLookupView;

    open spec fn view(&self) -> TestLookupView {
        match self {
            TestLookup::Found(test) => TestLookupView::Found(test@),
            TestLookup::Unavailable => TestLookupView::Unavailable,
        }
    }
}

/// A test and what has been read for it so far.
#[derive(Clone, Debug, PartialEq, Eq)]
pub struct TestInterface {
    pub test: Test,
    /// The job's state, once read.
    pub job: Option<JobLookup>,
    /// What was read for the first names of the test's `resources`, in
    /// their order.
    pub resources: Vec<ResourceLookup>,
    /// What was read for the first names of the test's `depends_on`, in
    /// their order.
    pub dependencies: Vec<TestLookup>,
}

/// What a `TestInterface` holds, its text as characters.
pub struct TestInterfaceView {
    pub test: TestView,
    pub job: Option<JobLookup>,
    pub resources: Seq<ResourceLookupView>,
    pub dependencies: Seq<TestLookupView>,
}

impl View for TestInterface {
    type V = TestInterfaceView;

    open spec fn view(&self) -> TestInterfaceView {
        TestInterfaceView {
            test: self.test@,
            job: self.job,
            resources: self.resources@.map_values(|r: ResourceLookup| r@),
            dependencies: self.dependencies@.map_values(|t: TestLookup| t@),
        }
    }
}

impl TestInterfaceView {
    /// The state of the job, where it was read.
    pub open spec fn job_state(self) -> Result<JobState, Undecided> {
        match self.job {
            Some(JobLookup::Seen(state)) => Ok(state),
            Some(JobLookup::Unavailable) => Err(Undecided::Unavailable(Query::JobState)),
            None => Err(Undecided::Unobserved(Query::JobState)),
        }
    }

    /// The names the test depends on; none where the field is absent.
    pub open spec fn depends_on(self) -> Seq<Seq<char>> {
        match self.test.spec.depends_on {
            Some(names) => names,
            None => Seq::empty(),
        }
    }

    /// Whether `query` names the first thing of its kind that was not
    /// read yet.
    pub open spec fn is_next(self, query: Query) -> bool {
        match query {
            Query::JobState => self.job is None,
            Query::Resource(i) => i == self.resources.len() && i < self.test.spec.resources.len(),
            Query::Dependency(i) => i == self.dependencies.len() && i < self.depends_on().len(),
        }
    }

    /// Whether `later` holds all that `self` holds, and possibly more
    /// answers.
    pub open spec fn extended_by(self, later: TestInterfaceView) -> bool {
        &&& later.test == self.test
        &&& self.job is Some ==> later.job == self.job
        &&& self.resources.is_prefix_of(later.resources)
        &&& self.dependencies.is_prefix_of(later.dependencies)
    }

    /// Whether everything a decision may depend on was read.
    pub open spec fn fully_observed(self) -> bool {
        &&& self.job matches Some(JobLookup::Seen(_))
        &&& self.resources.len() >= self.test.spec.resources.len()
        &&& self.dependencies.len() >= self.depends_on().len()
        &&& forall|i: int|
            0 <= i < self.resources.len() ==> !(#[trigger] self.resources[i]
                is Unavailable)
    }
}

impl TestInterface {
    /// The test with nothing read for it yet.
    pub fn new(test: Test) -> (t: TestInterface)
        ensures
            t@.test == test@,
            t@.job is None,
            t@.resources.len() == 0,
            t@.dependencies.len() == 0,
    {
        TestInterface { test, job: None, resources: Vec::new(), dependencies: Vec::new() }
    }

    /// The test itself.
    pub fn test(&self) -> (test: &Test)
        ensures
            test@ == self@.test,
    {
        &self.test
    }

    /// The state of the job, where it was read.
    pub fn get_job_state(&self) -> (r: Result<JobState, Undecided>)
        ensures
            r == self@.job_state(),
    {
        match self.job {
            Some(JobLookup::Seen(state)) => Ok(state),
            Some(JobLookup::Unavailable) => Err(Undecided::Unavailable(Query::JobState)),
            None => Err(Undecided::Unobserved(Query::JobState)),
        }
    }

    /// Records the state of the job, in place of an earlier answer.
    pub fn record_job(&mut self, job: JobLookup)
        ensures
            final(self)@ == (TestInterfaceView { job: Some(job), ..old(self)@ }),
    {
        self.job = Some(job);
    }

    /// Records the answer for the next name of the test's `resources`.
    pub fn record_resource(&mut self, answer: ResourceLookup)
        ensures
            final(self)@ == (TestInterfaceView {
                resources: old(self)@.resources.push(answer@),
                ..old(self)@
            }),
    {
        self.resources.push(answer);
        assert(self@.resources =~= old(self)@.resources.push(answer@));
    }

    /// Records the answer for the next name of the test's `depends_on`.
    pub fn record_dependency(&mut self, answer: TestLookup)
        ensures
            final(self)@ == (TestInterfaceView {
                dependencies: old(self)@.dependencies.push(answer@),
                ..old(self)@
            }),
    {
        self.dependencies.push(answer);
        assert(self@.dependencies =~= old(self)@.dependencies.push(answer@));
    }
}

} // verus!
