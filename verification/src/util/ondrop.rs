//! An action that is due once, until it is given up.
use vstd::prelude::*;

verus! {

/// Holds an action for the end of a scope. `fire` runs it; `defuse` gives it
/// up. Whoever holds the guard ends the scope by one of the two.
pub struct OnDrop<F: FnOnce()> {
    f: Option<F>,
}

impl<F: FnOnce()> OnDrop<F> {
    /// The action that the guard holds.
    pub closed spec fn action(&self) -> Option<F> {
        self.f
    }

    #[verifier::type_invariant]
    spec fn runnable(&self) -> bool {
        self.f matches Some(f) ==> f.requires(())
    }

    /// A guard that holds `f`.
    pub fn new(f: F) -> (guard: Self)
        requires
            f.requires(()),
        ensures
            guard.action() == Some(f),
    {
        Self { f: Some(f) }
    }

    /// Gives the action up: it is handed back and has not run.
    pub fn defuse(self) -> (f: Option<F>)
        ensures
            f == self.action(),
    {
        self.f
    }

    /// Runs the action.
    pub fn fire(self)
        ensures
            self.action() matches Some(f) ==> f.ensures((), ()),
    {
        proof {
            use_type_invariant(&self);
        }
        if let Some(f) = self.f {
            f();
        }
    }
}

} // verus!
