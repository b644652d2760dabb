//! The one-shot body of a spawned thread.

use vstd::prelude::*;

verus! {

/// A thread body waiting to be run. It is taken out when it runs, so it runs
/// at most once and is never reachable afterwards.
pub struct ThreadBody<F> {
    body: Option<F>,
}

impl<F: FnOnce() -> i32> ThreadBody<F> {
    /// The body still waiting to run, if any.
    pub closed spec fn pending(&self) -> Option<F> {
        self.body
    }

    /// Wraps `f` as the body of a thread that has not run yet.
    pub fn new(f: F) -> (r: ThreadBody<F>)
        ensures
            r.pending() == Some(f),
    {
        ThreadBody { body: Some(f) }
    }

    /// Whether the body has already been run.
    pub fn has_run(&self) -> (r: bool)
        ensures
            r <==> self.pending() is None,
    {
        self.body.is_none()
    }

    /// Runs the body, once: the first call takes it out, calls it and returns
    /// its exit code; every later call finds nothing and returns `None`.
    pub fn run(&mut self) -> (r: Option<i32>)
        requires
            old(self).pending() matches Some(f) ==> f.requires(()),
        ensures
            final(self).pending() is None,
            old(self).pending() is None ==> r is None,
            old(self).pending() matches Some(f) ==> (r matches Some(c) && f.ensures((), c)),
    {
        match self.body.take() {
            Some(f) => Some(f()),
            None => None,
        }
    }
}

} // verus!
