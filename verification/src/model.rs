//! The objects the controller reads: a test, a resource, and the job that
//! runs a test's agent. Each type holds as plain values what a decision
//! depends on; types that own strings have a view over `Seq<char>`.

use crate::text::same_text;
use vstd::prelude::*;

verus! {

/// Name of the finalizer that marks a test as managed by the controller.
pub const FINALIZER_MAIN: &'static str = "testsys.bottlerocket.aws/main";

/// Name of the finalizer that is held while the job of a test may exist.
pub const FINALIZER_TEST_JOB: &'static str = "testsys.bottlerocket.aws/test-job";

/// Seconds a job may run before its agent has reported that it is alive.
pub const TEST_START_TIME_LIMIT: u64 = 300;

/// How far an agent has come with its task.
#[derive(Clone, Copy, Debug, PartialEq, Eq, Structural)]
pub enum TaskState {
    Unknown,
    Running,
    Completed,
    Error,
}

/// Verdict of one run of a test.
#[derive(Clone, Copy, Debug, PartialEq, Eq, Structural)]
pub enum Outcome {
    Pass,
    Fail,
    Timeout,
}

/// A signed span of time: `secs` whole seconds plus `nanos` nanoseconds.
#[derive(Clone, Copy, Debug, PartialEq, Eq)]
pub struct Elapsed {
    pub secs: i64,
    pub nanos: u32,
}

impl Elapsed {
    /// The span in nanoseconds.
    pub open spec fn as_nanos(self) -> int {
        self.secs * 1_000_000_000 + self.nanos
    }

    /// A span of whole seconds.
    pub fn from_secs(secs: i64) -> (e: Elapsed)
        ensures
            e.secs == secs,
            e.nanos == 0,
            e.as_nanos() == secs * 1_000_000_000,
    {
        Elapsed { secs, nanos: 0 }
    }

    /// Whether the span could be the result of `minus`: its nanoseconds
    /// are less than a second.
    pub open spec fn is_normal(self) -> bool {
        self.nanos < 1_000_000_000
    }

    /// The span from `earlier` to `self`, both taken as points in time
    /// counted from one origin. It is `None` where the span has more
    /// whole seconds than an `i64` holds.
    pub fn minus(&self, earlier: &Elapsed) -> (span: Option<Elapsed>)
        ensures
            span is Some <==> i64::MIN * 1_000_000_000 <= self.as_nanos() - earlier.as_nanos() < (
            i64::MAX + 1) * 1_000_000_000,
            span matches Some(e) ==> e.is_normal() && e.as_nanos() == self.as_nanos()
                - earlier.as_nanos(),
    {
        let mut secs: i128 = (self.secs as i128) - (earlier.secs as i128);
        let mut nanos: i64 = (self.nanos as i64) - (earlier.nanos as i64);
        while nanos < 0
            invariant
                -5_000_000_000 < nanos < 5_000_000_000,
                -i64::MAX * 2 - 8 < secs < i64::MAX * 2 + 8,
                secs * 1_000_000_000 + nanos == self.as_nanos() - earlier.as_nanos(),
            decreases 5_000_000_000 - nanos,
        {
            nanos = nanos + 1_000_000_000;
            secs = secs - 1;
        }
        while nanos >= 1_000_000_000
            invariant
                0 <= nanos < 5_000_000_000,
                -i64::MAX * 2 - 8 < secs < i64::MAX * 2 + 16,
                secs * 1_000_000_000 + nanos == self.as_nanos() - earlier.as_nanos(),
            decreases nanos,
        {
            nanos = nanos - 1_000_000_000;
            secs = secs + 1;
        }
        if secs < i64::MIN as i128 || secs > i64::MAX as i128 {
            None
        } else {
            Some(Elapsed { secs: secs as i64, nanos: nanos as u32 })
        }
    }

    /// Whether the span is strictly longer than `secs` seconds.
    pub fn exceeds(&self, secs: u64) -> (b: bool)
        ensures
            b == (self.as_nanos() > secs * 1_000_000_000),
    {
        let own: i128 = (self.secs as i128) * 1_000_000_000 + (self.nanos as i128);
        let other: i128 = (secs as i128) * 1_000_000_000;
        own > other
    }

    /// Whether the span is `secs` seconds or longer.
    pub fn at_least(&self, secs: u64) -> (b: bool)
        ensures
            b == (self.as_nanos() >= secs * 1_000_000_000),
    {
        let own: i128 = (self.secs as i128) * 1_000_000_000 + (self.nanos as i128);
        let other: i128 = (secs as i128) * 1_000_000_000;
        own >= other
    }
}

/// What is seen of the job that runs a test's agent.
#[derive(Clone, Copy, Debug, PartialEq, Eq)]
pub enum JobState {
    /// There is no job.
    Absent,
    /// The job exists, its container has not started.
    Unknown,
    /// The container runs, for the given time where that is known.
    Running(Option<Elapsed>),
    /// The container failed.
    Failed,
    /// The container ended and the agent had not marked its task as done.
    Exited,
}

/// The part of a test's specification that concerns its agent.
#[derive(Clone, Debug, PartialEq, Eq)]
pub struct AgentSpec {
    /// Longest time the agent may run, as text such as `30m`.
    pub timeout: Option<String>,
}

/// What the user asked for.
#[derive(Clone, Debug, PartialEq, Eq)]
pub struct TestSpec {
    /// Names of the resources the test needs, in the order given.
    pub resources: Vec<String>,
    /// Names of the tests that must have passed before this one starts.
    pub depends_on: Option<Vec<String>>,
    pub agent: AgentSpec,
}

/// What the agent of a test has reported.
#[derive(Clone, Debug, PartialEq, Eq)]
pub struct AgentStatus {
    pub task_state: TaskState,
    /// Verdicts of the runs so far, oldest first.
    pub results: Vec<Outcome>,
    pub error: Option<String>,
}

/// What the controller and the agent have recorded on a test.
#[derive(Clone, Debug, PartialEq, Eq)]
pub struct TestStatus {
    pub agent: AgentStatus,
    /// Set once a resource of the test was seen to have failed.
    pub resource_error: Option<String>,
}

/// A test as read from the cluster.
#[derive(Clone, Debug, PartialEq, Eq)]
pub struct Test {
    pub name: String,
    pub spec: TestSpec,
    pub status: Option<TestStatus>,
    pub finalizers: Vec<String>,
    pub deletion_requested: bool,
}

/// One phase, creation or destruction, of a resource.
#[derive(Clone, Debug, PartialEq, Eq)]
pub struct ResourcePhase {
    pub task_state: TaskState,
    /// Set exactly when the provider reported a failure.
    pub error: Option<String>,
}

/// A resource as read from the cluster.
#[derive(Clone, Debug, PartialEq, Eq)]
pub struct Resource {
    pub creation: ResourcePhase,
    pub destruction: ResourcePhase,
}

/// The characters of an optional string.
pub open spec fn text_of(s: Option<String>) -> Option<Seq<char>> {
    match s {
        Some(t) => Some(t@),
        None => None,
    }
}

/// What an `AgentSpec` holds, its text as characters.
pub struct AgentSpecView {
    pub timeout: Option<Seq<char>>,
}

/// What a `TestSpec` holds, its text as characters.
pub struct TestSpecView {
    pub resources: Seq<Seq<char>>,
    pub depends_on: Option<Seq<Seq<char>>>,
    pub agent: AgentSpecView,
}

/// What an `AgentStatus` holds, its text as characters.
pub struct AgentStatusView {
    pub task_state: TaskState,
    pub results: Seq<Outcome>,
    pub error: Option<Seq<char>>,
}

/// What a `TestStatus` holds, its text as characters.
pub struct TestStatusView {
    pub agent: AgentStatusView,
    pub resource_error: Option<Seq<char>>,
}

/// What a `Test` holds, its text as characters.
pub struct TestView {
    pub name: Seq<char>,
    pub spec: TestSpecView,
    pub status: Option<TestStatusView>,
    pub finalizers: Seq<Seq<char>>,
    pub deletion_requested: bool,
}

/// What a `ResourcePhase` holds, its text as characters.
pub struct ResourcePhaseView {
    pub task_state: TaskState,
    pub error: Option<Seq<char>>,
}

/// What a `Resource` holds, its text as characters.
pub struct ResourceView {
    pub creation: ResourcePhaseView,
    pub destruction: ResourcePhaseView,
}

impl View for AgentSpec {
    type V = AgentSpecView;

    open spec fn view(&self) -> AgentSpecView {
        AgentSpecView { timeout: text_of(self.timeout) }
    }
}

impl View for TestSpec {
    type V = TestSpecView;

    open spec fn view(&self) -> TestSpecView {
        TestSpecView {
            resources: self.resources.deep_view(),
            depends_on: match self.depends_on {
                Some(names) => Some(names.deep_view()),
                None => None,
            },
            agent: self.agent@,
        }
    }
}

impl View for AgentStatus {
    type V = AgentStatusView;

    open spec fn view(&self) -> AgentStatusView {
        AgentStatusView {
            task_state: self.task_state,
            results: self.results@,
            error: text_of(self.error),
        }
    }
}

impl View for TestStatus {
    type V = TestStatusView;

    open spec fn view(&self) -> TestStatusView {
        TestStatusView { agent: self.agent@, resource_error: text_of(self.resource_error) }
    }
}

impl View for Test {
    type V = TestView;

    open spec fn view(&self) -> TestView {
        TestView {
            name: self.name@,
            spec: self.spec@,
            status: match self.status {
                Some(status) => Some(status@),
                None => None,
            },
            finalizers: self.finalizers.deep_view(),
            deletion_requested: self.deletion_requested,
        }
    }
}

impl View for ResourcePhase {
    type V = ResourcePhaseView;

    open spec fn view(&self) -> ResourcePhaseView {
        ResourcePhaseView { task_state: self.task_state, error: text_of(self.error) }
    }
}

impl View for Resource {
    type V = ResourceView;

    open spec fn view(&self) -> ResourceView {
        ResourceView { creation: self.creation@, destruction: self.destruction@ }
    }
}

impl TestView {
    /// Whether the finalizer named `finalizer` is on the test.
    pub open spec fn has_finalizer(self, finalizer: Seq<char>) -> bool {
        self.finalizers.contains(finalizer)
    }

    /// The agent's task state; `Unknown` while the test has no status.
    pub open spec fn task_state(self) -> TaskState {
        match self.status {
            Some(status) => status.agent.task_state,
            None => TaskState::Unknown,
        }
    }

    /// The verdicts recorded so far; none while the test has no status.
    pub open spec fn results(self) -> Seq<Outcome> {
        match self.status {
            Some(status) => status.agent.results,
            None => Seq::empty(),
        }
    }

    /// The error the agent reported, if any.
    pub open spec fn agent_error(self) -> Option<Seq<char>> {
        match self.status {
            Some(status) => status.agent.error,
            None => None,
        }
    }

    /// The resource failure recorded on the test, if any.
    pub open spec fn resource_error(self) -> Option<Seq<char>> {
        match self.status {
            Some(status) => status.resource_error,
            None => None,
        }
    }

    /// Whether the latest verdict exists and is `Pass`.
    pub open spec fn passed(self) -> bool {
        self.results().len() > 0 && self.results().last() == Outcome::Pass
    }
}

impl Test {
    /// Whether deletion of the test was requested.
    pub fn is_delete_requested(&self) -> (b: bool)
        ensures
            b == self@.deletion_requested,
    {
        self.deletion_requested
    }

    /// Whether the finalizer named `finalizer` is on the test.
    pub fn has_finalizer(&self, finalizer: &str) -> (b: bool)
        ensures
            b == self@.has_finalizer(finalizer@),
    {
        let mut i: usize = 0;
        while i < self.finalizers.len()
            invariant
                i <= self.finalizers.len(),
                forall|j: int| 0 <= j < i ==> self.finalizers.deep_view()[j] != finalizer@,
            decreases self.finalizers.len() - i,
        {
            if same_text(self.finalizers[i].as_str(), finalizer) {
                assert(self.finalizers.deep_view()[i as int] == finalizer@);
                return true;
            }
            i += 1;
        }
        false
    }

    /// The agent's task state; `Unknown` while the test has no status.
    pub fn task_state(&self) -> (state: TaskState)
        ensures
            state == self@.task_state(),
    {
        match &self.status {
            Some(status) => status.agent.task_state,
            None => TaskState::Unknown,
        }
    }

    /// The error the agent reported, if any.
    pub fn agent_error(&self) -> (error: Option<&String>)
        ensures
            self@.agent_error() == match error {
                Some(e) => Some(e@),
                None => None,
            },
    {
        match &self.status {
            Some(status) => status.agent.error.as_ref(),
            None => None,
        }
    }

    /// The resource failure recorded on the test, if any.
    pub fn resource_error(&self) -> (error: Option<&String>)
        ensures
            self@.resource_error() == match error {
                Some(e) => Some(e@),
                None => None,
            },
    {
        match &self.status {
            Some(status) => status.resource_error.as_ref(),
            None => None,
        }
    }

    /// Whether the latest verdict exists and is `Pass`.
    pub fn passed(&self) -> (b: bool)
        ensures
            b == self@.passed(),
    {
        match &self.status {
            Some(status) => {
                let n = status.agent.results.len();
                n > 0 && matches!(status.agent.results[n - 1], Outcome::Pass)
            },
            None => false,
        }
    }
}

} // verus!
