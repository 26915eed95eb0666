//! Whether the tests that a test depends on have passed.

use crate::action::{Action, ActionView};
use crate::observation::{
    Query, TestInterface, TestInterfaceView, TestLookup, TestLookupView, Undecided,
};
use vstd::prelude::*;

verus! {

/// The name of the test, if any, that is waited for among those named
/// from index `i` on: the first of them that could not be read, or whose
/// latest verdict is missing or is not a pass.
pub open spec fn dependency_wait_from(t: TestInterfaceView, i: int) -> Result<
    Option<Seq<char>>,
    Undecided,
>
    decreases t.depends_on().len() - i,
{
    let names = t.depends_on();
    if i >= names.len() {
        Ok(None)
    } else if i >= t.dependencies.len() {
        Err(Undecided::Unobserved(Query::Dependency(i as usize)))
    } else {
        match t.dependencies[i] {
            TestLookupView::Unavailable => Ok(Some(names[i])),
            TestLookupView::Found(upstream) => if upstream.passed() {
                dependency_wait_from(t, i + 1)
            } else {
                Ok(Some(upstream.name))
            },
        }
    }
}

/// The name of the test, if any, that a test waits for, its dependencies
/// taken in the order in which the test names them.
pub open spec fn dependency_wait(t: TestInterfaceView) -> Result<Option<Seq<char>>, Undecided> {
    dependency_wait_from(t, 0)
}

/// The action that waits for the test of the given name, if one is given.
pub open spec fn wait_for(name: Option<Seq<char>>) -> Option<ActionView> {
    match name {
        Some(name) => Some(ActionView::WaitForDependency(name)),
        None => None,
    }
}

/// The view of what `dependency_wait_action` returns.
pub open spec fn wait_view(r: Result<Option<Action>, Undecided>) -> Result<
    Option<ActionView>,
    Undecided,
> {
    match r {
        Ok(Some(action)) => Ok(Some(action@)),
        Ok(None) => Ok(None),
        Err(e) => Err(e),
    }
}

/// The wait that the dependencies of the test call for: `None` where the
/// test names none or each has passed, else the wait for the first, in
/// the order of `depends_on`, that has not. A dependency that could not
/// be read is waited for under the name the test gives it. Where the
/// deciding dependency was not read yet, the result names it.
pub fn dependency_wait_action(t: &TestInterface) -> (r: Result<Option<Action>, Undecided>)
    ensures
        wait_view(r) == match dependency_wait(t@) {
            Ok(name) => Ok::<Option<ActionView>, Undecided>(wait_for(name)),
            Err(e) => Err(e),
        },
{
    let names = match &t.test.spec.depends_on {
        Some(names) => names,
        None => {
            return Ok(None);
        },
    };
    let mut i: usize = 0;
    while i < names.len()
        invariant
            i <= names.len(),
            t.test.spec.depends_on == Some(*names),
            dependency_wait_from(t@, i as int) == dependency_wait(t@),
        decreases names.len() - i,
    {
        assert(t@.depends_on()[i as int] == names[i as int]@);
        if i >= t.dependencies.len() {
            return Err(Undecided::Unobserved(Query::Dependency(i)));
        }
        assert(t@.dependencies[i as int] == t.dependencies[i as int]@);
        match &t.dependencies[i] {
            TestLookup::Unavailable => {
                return Ok(Some(Action::WaitForDependency(names[i].clone())));
            },
            TestLookup::Found(upstream) => {
                if !upstream.passed() {
                    return Ok(Some(Action::WaitForDependency(upstream.name.clone())));
                }
            },
        }
        i += 1;
    }
    Ok(None)
}

} // verus!
