//! Whether the resources that a test names are there.

use crate::action::{Resources, ResourcesView};
use crate::model::{ResourceView, TaskState};
use crate::observation::{
    outcome_view, Query, ResourceLookup, ResourceLookupView, TestInterface, TestInterfaceView,
    Undecided,
};
use crate::text::join3;
use vstd::prelude::*;

verus! {

/// The message for a resource that does not exist.
pub open spec fn not_found_message(name: Seq<char>) -> Seq<char> {
    "Resource '"@ + name + "' not found"@
}

/// The message for a resource whose provider reported `error`.
pub open spec fn creation_error_message(name: Seq<char>, error: Seq<char>) -> Seq<char> {
    "Error creating resource '"@ + name + "': "@ + error
}

/// The message for a resource whose creation ended in the error state.
pub open spec fn creation_failed_message(name: Seq<char>) -> Seq<char> {
    "Creation of resource '"@ + name + "' failed"@
}

/// What one resource that exists says about readiness; `None` where its
/// creation is complete, so that the next resource decides.
pub open spec fn resource_verdict(name: Seq<char>, resource: ResourceView) -> Option<
    ResourcesView,
> {
    match resource.creation.error {
        Some(error) => Some(ResourcesView::Error(creation_error_message(name, error))),
        None => match resource.creation.task_state {
            TaskState::Unknown => Some(ResourcesView::NotReady),
            TaskState::Running => Some(ResourcesView::NotReady),
            TaskState::Completed => None,
            TaskState::Error => Some(ResourcesView::Error(creation_failed_message(name))),
        },
    }
}

/// Readiness as decided by the resources named from index `i` on: the
/// first of them that is not complete decides, and where all are
/// complete the resources are ready.
pub open spec fn readiness_from(t: TestInterfaceView, i: int) -> Result<ResourcesView, Undecided>
    decreases t.test.spec.resources.len() - i,
{
    let names = t.test.spec.resources;
    if i >= names.len() {
        Ok(ResourcesView::Ready)
    } else if i >= t.resources.len() {
        Err(Undecided::Unobserved(Query::Resource(i as usize)))
    } else {
        match t.resources[i] {
            ResourceLookupView::NotFound => Ok(ResourcesView::Error(not_found_message(names[i]))),
            ResourceLookupView::Unavailable => Err(
                Undecided::Unavailable(Query::Resource(i as usize)),
            ),
            ResourceLookupView::Found(resource) => match resource_verdict(names[i], resource) {
                Some(verdict) => Ok(verdict),
                None => readiness_from(t, i + 1),
            },
        }
    }
}

/// Readiness of the resources of a test, taken in the order in which the
/// test names them.
pub open spec fn readiness(t: TestInterfaceView) -> Result<ResourcesView, Undecided> {
    readiness_from(t, 0)
}

/// Whether the resources of the test are there. The first resource, in
/// the order of the test's `resources`, that is missing, failed or not
/// yet created decides; with no such resource, and with no resources at
/// all, they are ready. Where the deciding resource was not read yet or
/// could not be read, the result names it.
pub fn resource_readiness(t: &TestInterface) -> (r: Result<Resources, Undecided>)
    ensures
        outcome_view(r) == readiness(t@),
{
    let names = &t.test.spec.resources;
    let mut i: usize = 0;
    while i < names.len()
        invariant
            i <= names.len(),
            names == &t.test.spec.resources,
            readiness_from(t@, i as int) == readiness(t@),
        decreases names.len() - i,
    {
        assert(t@.test.spec.resources[i as int] == names[i as int]@);
        if i >= t.resources.len() {
            return Err(Undecided::Unobserved(Query::Resource(i)));
        }
        assert(t@.resources[i as int] == t.resources[i as int]@);
        let name = names[i].as_str();
        match &t.resources[i] {
            ResourceLookup::NotFound => {
                return Ok(Resources::Error(join3("Resource '", name, "' not found")));
            },
            ResourceLookup::Unavailable => {
                return Err(Undecided::Unavailable(Query::Resource(i)));
            },
            ResourceLookup::Found(resource) => {
                if let Some(error) = &resource.creation.error {
                    let message = join3("Error creating resource '", name, "': ").concat(
                        error.as_str(),
                    );
                    return Ok(Resources::Error(message));
                }
                match resource.creation.task_state {
                    TaskState::Unknown => {
                        return Ok(Resources::NotReady);
                    },
                    TaskState::Running => {
                        return Ok(Resources::NotReady);
                    },
                    TaskState::Completed => {},
                    TaskState::Error => {
                        return Ok(
                            Resources::Error(join3("Creation of resource '", name, "' failed")),
                        );
                    },
                }
            },
        }
        i += 1;
    }
    Ok(Resources::Ready)
}

} // verus!
