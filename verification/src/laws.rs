//! What holds of every decision, proved from the definitions.

use crate::action::{ActionView, ErrorStateView, ResourcesView};
use crate::decide::{decide, job_finalizer, main_finalizer};
use crate::dependency::dependency_wait_from;
use crate::effect::{
    effect, effect_on_test, lemma_push_contains, lemma_without_absent, lemma_without_contains,
    without,
};
use crate::model::{Elapsed, JobState, TaskState};
use crate::observation::{
    JobLookup, Query, ResourceLookupView, TestInterfaceView, TestLookupView, Undecided,
};
use crate::readiness::readiness_from;
use vstd::prelude::*;

verus! {

/// The two finalizers have different names.
pub proof fn lemma_finalizers_differ()
    ensures
        main_finalizer() != job_finalizer(),
{
    reveal_strlit("testsys.bottlerocket.aws/main");
    reveal_strlit("testsys.bottlerocket.aws/test-job");
    assert(main_finalizer().len() != job_finalizer().len());
}

/// Readiness depends on the names of the resources and on what was read
/// for them, and on nothing else.
pub proof fn lemma_readiness_reads(a: TestInterfaceView, b: TestInterfaceView, i: int)
    requires
        a.test.spec.resources == b.test.spec.resources,
        a.resources == b.resources,
    ensures
        readiness_from(a, i) == readiness_from(b, i),
    decreases a.test.spec.resources.len() - i,
{
    if i < a.test.spec.resources.len() && i < a.resources.len() {
        lemma_readiness_reads(a, b, i + 1);
    }
}

/// The wait for dependencies depends on their names and on what was read
/// for them, and on nothing else.
pub proof fn lemma_dependency_reads(a: TestInterfaceView, b: TestInterfaceView, i: int)
    requires
        a.depends_on() == b.depends_on(),
        a.dependencies == b.dependencies,
    ensures
        dependency_wait_from(a, i) == dependency_wait_from(b, i),
    decreases a.depends_on().len() - i,
{
    if i < a.depends_on().len() && i < a.dependencies.len() {
        lemma_dependency_reads(a, b, i + 1);
    }
}

/// Where every resource from index `i` on was read, readiness is known
/// from there on.
pub proof fn lemma_readiness_known(t: TestInterfaceView, i: int)
    requires
        0 <= i,
        t.resources.len() >= t.test.spec.resources.len(),
        forall|k: int| 0 <= k < t.resources.len() ==> !(#[trigger] t.resources[k] is Unavailable),
    ensures
        readiness_from(t, i) is Ok,
    decreases t.test.spec.resources.len() - i,
{
    if i < t.test.spec.resources.len() {
        lemma_readiness_known(t, i + 1);
    }
}

/// Where every dependency from index `i` on was read, the wait for them
/// is known from there on.
pub proof fn lemma_dependency_known(t: TestInterfaceView, i: int)
    requires
        0 <= i,
        t.dependencies.len() >= t.depends_on().len(),
    ensures
        dependency_wait_from(t, i) is Ok,
    decreases t.depends_on().len() - i,
{
    if i < t.depends_on().len() {
        lemma_dependency_known(t, i + 1);
    }
}

/// The decision is total: for a test of which all was read that a
/// decision may depend on, an action is chosen. That the choice is a
/// function of what was read is what `determine_action` ensures.
pub proof fn law_total(t: TestInterfaceView)
    requires
        t.fully_observed(),
    ensures
        decide(t) is Ok,
{
    lemma_readiness_known(t, 0);
    lemma_dependency_known(t, 0);
}

/// Readiness that is left open from index `i` on is left open by the
/// first resource that was not read, or by one that could not be read.
pub proof fn lemma_readiness_asks(t: TestInterfaceView, i: int)
    requires
        0 <= i <= t.resources.len() || i == 0,
        t.test.spec.resources.len() <= usize::MAX,
    ensures
        readiness_from(t, i) matches Err(Undecided::Unobserved(q)) ==> t.is_next(q),
        readiness_from(t, i) matches Err(Undecided::Unavailable(q)) ==> (q matches Query::Resource(
            k,
        ) && k < t.resources.len() && t.resources[k as int] is Unavailable),
    decreases t.test.spec.resources.len() - i,
{
    if i < t.test.spec.resources.len() && i < t.resources.len() {
        lemma_readiness_asks(t, i + 1);
    }
}

/// The wait for dependencies that is left open from index `i` on is left
/// open by the first dependency that was not read.
pub proof fn lemma_dependency_asks(t: TestInterfaceView, i: int)
    requires
        0 <= i <= t.dependencies.len() || i == 0,
        t.depends_on().len() <= usize::MAX,
    ensures
        dependency_wait_from(t, i) matches Err(e) ==> (e matches Undecided::Unobserved(q)
            && t.is_next(q)),
    decreases t.depends_on().len() - i,
{
    if i < t.depends_on().len() && i < t.dependencies.len() {
        lemma_dependency_asks(t, i + 1);
    }
}

/// Where no action is chosen because something was not read, the error
/// names the first thing of its kind that was not read: once the answer
/// is recorded, the decision gets further. Where something could not be
/// read, the error names the job or a resource for which that was
/// recorded.
pub proof fn law_asks_for_the_next(t: TestInterfaceView)
    requires
        t.test.spec.resources.len() <= usize::MAX,
        t.depends_on().len() <= usize::MAX,
    ensures
        decide(t) matches Err(Undecided::Unobserved(q)) ==> t.is_next(q),
        decide(t) matches Err(Undecided::Unavailable(q)) ==> match q {
            Query::JobState => t.job == Some(JobLookup::Unavailable),
            Query::Resource(k) => k < t.resources.len() && t.resources[k as int] is Unavailable,
            Query::Dependency(_) => false,
        },
{
    lemma_readiness_asks(t, 0);
    lemma_dependency_asks(t, 0);
}

/// Readiness that is known stays what it is when more is read.
pub proof fn lemma_readiness_stands(t: TestInterfaceView, later: TestInterfaceView, i: int)
    requires
        0 <= i,
        t.extended_by(later),
        readiness_from(t, i) is Ok,
    ensures
        readiness_from(later, i) == readiness_from(t, i),
    decreases t.test.spec.resources.len() - i,
{
    if i < t.test.spec.resources.len() {
        assert(later.resources[i] == later.resources.subrange(0, t.resources.len() as int)[i]);
        if readiness_from(t, i) == readiness_from(t, i + 1) {
            lemma_readiness_stands(t, later, i + 1);
        }
    }
}

/// A wait for dependencies that is known stays what it is when more is
/// read.
pub proof fn lemma_dependency_stands(t: TestInterfaceView, later: TestInterfaceView, i: int)
    requires
        0 <= i,
        t.extended_by(later),
        dependency_wait_from(t, i) is Ok,
    ensures
        dependency_wait_from(later, i) == dependency_wait_from(t, i),
    decreases t.depends_on().len() - i,
{
    if i < t.depends_on().len() {
        assert(later.dependencies[i] == later.dependencies.subrange(
            0,
            t.dependencies.len() as int,
        )[i]);
        if dependency_wait_from(t, i) == dependency_wait_from(t, i + 1) {
            lemma_dependency_stands(t, later, i + 1);
        }
    }
}

/// An action that was chosen stays the choice when more is read and
/// nothing that was read changes: nothing is read in vain, and nothing
/// need be read before it is asked for.
pub proof fn law_answers_stand(t: TestInterfaceView, later: TestInterfaceView)
    requires
        t.extended_by(later),
        decide(t) is Ok,
    ensures
        decide(later) == decide(t),
{
    if readiness_from(t, 0) is Ok {
        lemma_readiness_stands(t, later, 0);
    }
    if dependency_wait_from(t, 0) is Ok {
        lemma_dependency_stands(t, later, 0);
    }
}

/// For a test whose deletion was requested, the action is to delete the
/// job, to remove one of the two finalizers, or the zombie error.
pub proof fn law_deletion_actions(t: TestInterfaceView)
    requires
        t.test.deletion_requested,
    ensures
        decide(t) matches Ok(action) ==> {
            ||| action is DeleteJob
            ||| action is RemoveJobFinalizer
            ||| action is RemoveMainFinalizer
            ||| action == ActionView::Error(ErrorStateView::Zombie)
        },
{
}

/// While a test that is being deleted holds the job finalizer, its job
/// is deleted or the job finalizer is removed: the finalizer is not left
/// behind without a job.
pub proof fn law_job_finalizer_is_released(t: TestInterfaceView)
    requires
        t.test.deletion_requested,
        t.test.has_finalizer(job_finalizer()),
    ensures
        decide(t) matches Ok(action) ==> (action is DeleteJob && t.job != Some(
            JobLookup::Seen(JobState::Absent),
        )) || (action is RemoveJobFinalizer && t.job == Some(JobLookup::Seen(JobState::Absent))),
{
}

/// Carrying out an action changes neither what the user asked for, nor
/// the name of the test, nor whether its deletion was requested, nor what
/// its agent has reported: the task state of the agent is never set back.
pub proof fn law_effect_keeps_what_others_wrote(t: TestInterfaceView, action: ActionView)
    ensures
        effect(t, action).test.spec == t.test.spec,
        effect(t, action).test.name == t.test.name,
        effect(t, action).test.deletion_requested == t.test.deletion_requested,
        effect(t, action).test.task_state() == t.test.task_state(),
        effect(t, action).test.results() == t.test.results(),
        effect(t, action).test.agent_error() == t.test.agent_error(),
        effect(t, action).resources == t.resources,
        effect(t, action).dependencies == t.dependencies,
{
}

/// Carrying out an action twice leaves what carrying it out once leaves,
/// so an action may be tried again after a failure.
pub proof fn law_actions_are_idempotent(t: TestInterfaceView, action: ActionView)
    ensures
        effect(effect(t, action), action) == effect(t, action),
{
    let names = t.test.finalizers;
    lemma_push_contains(names, main_finalizer(), main_finalizer());
    lemma_push_contains(names, job_finalizer(), job_finalizer());
    lemma_without_contains(names, main_finalizer(), main_finalizer());
    lemma_without_contains(names, job_finalizer(), job_finalizer());
    lemma_without_absent(without(names, main_finalizer()), main_finalizer());
    lemma_without_absent(without(names, job_finalizer()), job_finalizer());
}

/// A finalizer is removed only from a test that is being deleted and has
/// no job, and the main finalizer only from one that does not hold the
/// job finalizer.
pub proof fn law_removal_is_guarded(t: TestInterfaceView)
    ensures
        decide(t) == Ok::<ActionView, Undecided>(ActionView::RemoveJobFinalizer) ==> {
            &&& t.test.deletion_requested
            &&& t.job == Some(JobLookup::Seen(JobState::Absent))
        },
        decide(t) == Ok::<ActionView, Undecided>(ActionView::RemoveMainFinalizer) ==> {
            &&& t.test.deletion_requested
            &&& t.job == Some(JobLookup::Seen(JobState::Absent))
            &&& !t.test.has_finalizer(job_finalizer())
        },
{
}

/// Whether, from `before` to `after`, the finalizers of the test have
/// changed as the action chosen for `before` changes them, and not at
/// all where none was chosen. Everything else may have changed in any
/// way.
pub open spec fn finalizers_follow(before: TestInterfaceView, after: TestInterfaceView) -> bool {
    after.test.finalizers == match decide(before) {
        Ok(action) => effect_on_test(before.test, action).finalizers,
        Err(_) => before.test.finalizers,
    }
}

/// Whether `trace` is a course of events in which nobody but the
/// controller changes the finalizers of the test.
pub open spec fn is_trace(trace: Seq<TestInterfaceView>) -> bool {
    forall|i: int|
        0 <= i < trace.len() - 1 ==> finalizers_follow(#[trigger] trace[i], trace[i + 1])
}

/// In no course of events is the main finalizer removed while the job
/// finalizer is on the test, nor the job finalizer while a job is seen,
/// or while it is not known whether there is one.
pub proof fn law_finalizer_order(trace: Seq<TestInterfaceView>, i: int)
    requires
        is_trace(trace),
        0 <= i < trace.len() - 1,
    ensures
        trace[i].test.has_finalizer(main_finalizer()) && !trace[i + 1].test.has_finalizer(
            main_finalizer(),
        ) ==> {
            &&& !trace[i].test.has_finalizer(job_finalizer())
            &&& trace[i].job == Some(JobLookup::Seen(JobState::Absent))
        },
        trace[i].test.has_finalizer(job_finalizer()) && !trace[i + 1].test.has_finalizer(
            job_finalizer(),
        ) ==> trace[i].job == Some(JobLookup::Seen(JobState::Absent)),
{
    let before = trace[i];
    assert(finalizers_follow(before, trace[i + 1]));
    lemma_finalizers_differ();
    let names = before.test.finalizers;
    lemma_push_contains(names, main_finalizer(), job_finalizer());
    lemma_push_contains(names, job_finalizer(), main_finalizer());
    lemma_push_contains(names, main_finalizer(), main_finalizer());
    lemma_push_contains(names, job_finalizer(), job_finalizer());
    lemma_without_contains(names, main_finalizer(), job_finalizer());
    lemma_without_contains(names, job_finalizer(), main_finalizer());
    law_removal_is_guarded(before);
}

/// No side effect but a change of the status comes before the main
/// finalizer is on the test: a test that lives gets its job finalizer
/// and its job only while it holds the main finalizer.
pub proof fn law_main_finalizer_first(t: TestInterfaceView)
    requires
        !t.test.deletion_requested,
    ensures
        decide(t) matches Ok(action) ==> (action is AddJobFinalizer || action is StartTest
            || action is DeleteJob) ==> t.test.has_finalizer(main_finalizer()),
{
}

/// Where no wait is called for from index `i` on, each dependency from
/// there on was read and has passed.
pub proof fn lemma_no_wait_means_passed(t: TestInterfaceView, i: int, k: int)
    requires
        0 <= i <= k < t.depends_on().len(),
        dependency_wait_from(t, i) == Ok::<Option<Seq<char>>, Undecided>(None),
    ensures
        k < t.dependencies.len(),
        t.dependencies[k] matches TestLookupView::Found(upstream) && upstream.passed(),
    decreases k - i,
{
    if i < k {
        lemma_no_wait_means_passed(t, i + 1, k);
    }
}

/// Where the resources are ready from index `i` on, each resource from
/// there on was read, reported no failure, and is complete.
pub proof fn lemma_ready_means_complete(t: TestInterfaceView, i: int, k: int)
    requires
        0 <= i <= k < t.test.spec.resources.len(),
        readiness_from(t, i) == Ok::<ResourcesView, Undecided>(ResourcesView::Ready),
    ensures
        k < t.resources.len(),
        t.resources[k] matches ResourceLookupView::Found(resource) && resource.creation.error
            is None && resource.creation.task_state == TaskState::Completed,
    decreases k - i,
{
    if i < k {
        lemma_ready_means_complete(t, i + 1, k);
    }
}

/// A test is started only when each test that it depends on was read,
/// has a latest verdict, and that verdict is a pass.
pub proof fn law_dependency_gating(t: TestInterfaceView, k: int)
    requires
        decide(t) == Ok::<ActionView, Undecided>(ActionView::StartTest),
        0 <= k < t.depends_on().len(),
    ensures
        k < t.dependencies.len(),
        t.dependencies[k] matches TestLookupView::Found(upstream) && upstream.passed(),
{
    lemma_no_wait_means_passed(t, 0, k);
}

/// A test is started only when each resource that it names was read,
/// reported no failure, and is complete; and only when it holds both
/// finalizers and has no job.
pub proof fn law_resource_gating(t: TestInterfaceView, k: int)
    requires
        decide(t) == Ok::<ActionView, Undecided>(ActionView::StartTest),
        0 <= k < t.test.spec.resources.len(),
    ensures
        k < t.resources.len(),
        t.resources[k] matches ResourceLookupView::Found(resource) && resource.creation.error
            is None && resource.creation.task_state == TaskState::Completed,
        t.test.has_finalizer(main_finalizer()),
        t.test.has_finalizer(job_finalizer()),
        t.job == Some(JobLookup::Seen(JobState::Absent)),
{
    lemma_ready_means_complete(t, 0, k);
}

/// Once a job has timed out, it has timed out for every longer time it
/// is seen to have run, all else being the same.
pub proof fn law_timeout_monotone(t: TestInterfaceView, shorter: Elapsed, longer: Elapsed)
    requires
        t.job == Some(JobLookup::Seen(JobState::Running(Some(shorter)))),
        decide(t) == Ok::<ActionView, Undecided>(ActionView::Error(ErrorStateView::JobTimeout)),
        longer.as_nanos() >= shorter.as_nanos(),
    ensures
        decide(
            TestInterfaceView { job: Some(JobLookup::Seen(JobState::Running(Some(longer)))), ..t },
        ) == Ok::<ActionView, Undecided>(ActionView::Error(ErrorStateView::JobTimeout)),
{
}

/// The controller never goes back. Let an action be chosen, let it be
/// carried out, and let an action be chosen again with nothing else
/// changed. An action that waits or that ends the work is then chosen
/// again; every other action is followed by one of a later phase.
pub proof fn law_never_reverts(t: TestInterfaceView)
    requires
        decide(t) is Ok,
        decide(effect(t, decide(t)->Ok_0)) is Ok,
    ensures
        ({
            let first = decide(t)->Ok_0;
            let second = decide(effect(t, first))->Ok_0;
            &&& second.phase() >= first.phase()
            &&& first.is_wait() || first.is_terminal() ==> second == first
            &&& !first.is_wait() && !first.is_terminal() ==> second.phase() > first.phase()
        }),
{
    let first = decide(t)->Ok_0;
    let after = effect(t, first);
    lemma_finalizers_differ();
    lemma_readiness_reads(t, after, 0);
    lemma_dependency_reads(t, after, 0);
    let names = t.test.finalizers;
    lemma_push_contains(names, main_finalizer(), job_finalizer());
    lemma_push_contains(names, job_finalizer(), main_finalizer());
    lemma_push_contains(names, main_finalizer(), main_finalizer());
    lemma_push_contains(names, job_finalizer(), job_finalizer());
    lemma_without_contains(names, main_finalizer(), job_finalizer());
    lemma_without_contains(names, job_finalizer(), main_finalizer());
    lemma_without_contains(names, main_finalizer(), main_finalizer());
    lemma_without_contains(names, job_finalizer(), job_finalizer());
    if first.is_wait() || first.is_terminal() {
        assert(after == t);
    }
}

} // verus!
