//! Shared teardown of a spawned thread's OS object.
//!
//! A spawned thread's OS object has exactly two owners: the application's join
//! handle and the context handed to the OS state callback. Each releases its
//! share once; the object is freed by whichever release finds that it held the
//! last share, so the free happens exactly once and only after both are done.

use vstd::prelude::*;

verus! {

/// Number of shares a freshly spawned thread object starts with.
pub const SPAWN_SHARES: usize = 2;

/// Raw OS thread state: the thread body has returned and it will not run again.
pub const THREAD_STATE_STOPPED: u8 = 0;

/// Raw OS thread state: the thread is being stopped.
pub const THREAD_STATE_STOPPING: u8 = 1;

/// Raw OS thread state: the thread is starting.
pub const THREAD_STATE_STARTING: u8 = 2;

/// Raw OS thread state: the thread is running.
pub const THREAD_STATE_RUNNING: u8 = 3;

/// What the side that just released its share must do with the OS object.
#[derive(Clone, Copy, Debug, PartialEq, Eq, Structural)]
pub enum Release {
    /// This was the last share: free the OS object now.
    Free,
    /// Another owner still holds a share: leave the object alone.
    Keep,
}

/// The two owners of a spawned thread's OS object.
#[derive(Clone, Copy, Debug, PartialEq, Eq, Structural)]
pub enum Owner {
    /// The application's join handle.
    Handle,
    /// The context registered with the OS state callback.
    Notifier,
}

/// Decision for a release through an atomic share count: `previous` is the
/// count that the decrement observed before it took effect.
pub fn release_share(previous: usize) -> (r: Release)
    requires
        previous >= 1,
    ensures
        r == Release::Free <==> previous == 1,
{
    if previous == 1 {
        Release::Free
    } else {
        Release::Keep
    }
}

/// Whether the OS reporting `state` means the notifier gives up its share:
/// only the stopped state, which comes once and last, does.
pub fn releases_share(state: u8) -> (r: bool)
    ensures
        r <==> state == THREAD_STATE_STOPPED,
{
    state == THREAD_STATE_STOPPED
}

/// The owners' shares of one spawned thread's OS object: the verified model
/// of the teardown protocol. At run time the same protocol runs on an atomic
/// share count, with `releases_share` deciding which state releases the
/// notifier's share and `release_share` deciding who frees the object.
pub struct Teardown {
    handle: bool,
    notifier: bool,
    freed: bool,
}

impl Teardown {
    /// Whether `owner` still holds its share.
    pub closed spec fn holds(self, owner: Owner) -> bool {
        match owner {
            Owner::Handle => self.handle,
            Owner::Notifier => self.notifier,
        }
    }

    /// Whether the OS object has been freed.
    pub closed spec fn is_freed(self) -> bool {
        self.freed
    }

    /// Number of shares still held.
    pub open spec fn shares(self) -> nat {
        (if self.holds(Owner::Handle) { 1nat } else { 0nat }) + (if self.holds(
            Owner::Notifier,
        ) {
            1nat
        } else {
            0nat
        })
    }

    /// The object is freed exactly when no share is left.
    pub open spec fn wf(self) -> bool {
        self.is_freed() <==> self.shares() == 0
    }

    /// The state right after spawning: both owners hold a share.
    pub open spec fn spawned(self) -> bool {
        self.holds(Owner::Handle) && self.holds(Owner::Notifier) && !self.is_freed()
    }

    /// The state after `owner` gives up its share.
    pub closed spec fn released(self, owner: Owner) -> Teardown {
        let handle = self.handle && owner != Owner::Handle;
        let notifier = self.notifier && owner != Owner::Notifier;
        Teardown { handle, notifier, freed: self.freed || (!handle && !notifier) }
    }

    /// What `owner` must do when it gives up its share.
    pub open spec fn release_outcome(self, owner: Owner) -> Release {
        if self.released(owner).shares() == 0 {
            Release::Free
        } else {
            Release::Keep
        }
    }

    /// The effect of giving up a share, as seen through the owners.
    pub proof fn lemma_released(self, owner: Owner)
        ensures
            !self.released(owner).holds(owner),
            forall|o: Owner| o != owner ==> self.released(owner).holds(o) == self.holds(o),
            self.wf() ==> self.released(owner).wf(),
            self.wf() && self.holds(owner) ==> self.released(owner).shares() + 1
                == self.shares(),
            self.released(owner).is_freed() <==> (self.is_freed()
                || self.released(owner).shares() == 0),
    {
    }

    /// Shares of a freshly spawned thread: the join handle's and the notifier's.
    pub fn new() -> (r: Teardown)
        ensures
            r.spawned(),
            r.wf(),
            r.shares() == SPAWN_SHARES,
    {
        Teardown { handle: true, notifier: true, freed: false }
    }

    /// Whether `owner` still holds its share.
    pub fn is_held_by(&self, owner: Owner) -> (r: bool)
        ensures
            r == self.holds(owner),
    {
        match owner {
            Owner::Handle => self.handle,
            Owner::Notifier => self.notifier,
        }
    }

    /// Whether the OS object has been freed.
    pub fn freed(&self) -> (r: bool)
        ensures
            r == self.is_freed(),
    {
        self.freed
    }

    /// Number of shares still held.
    pub fn share_count(&self) -> (r: usize)
        ensures
            r == self.shares(),
    {
        let a: usize = if self.handle { 1 } else { 0 };
        let b: usize = if self.notifier { 1 } else { 0 };
        a + b
    }

    /// `owner` gives up its share; the result says whether it must free the
    /// OS object, which it must exactly when its share was the last one.
    pub fn release(&mut self, owner: Owner) -> (r: Release)
        requires
            old(self).wf(),
            old(self).holds(owner),
        ensures
            *final(self) == old(self).released(owner),
            final(self).wf(),
            !final(self).holds(owner),
            r == old(self).release_outcome(owner),
            r == Release::Free <==> old(self).shares() == 1,
            r == Release::Free <==> final(self).is_freed(),
    {
        proof {
            self.lemma_released(owner);
        }
        let previous = self.share_count();
        match owner {
            Owner::Handle => {
                self.handle = false;
            },
            Owner::Notifier => {
                self.notifier = false;
            },
        }
        let r = release_share(previous);
        if r == Release::Free {
            self.freed = true;
        }
        r
    }

    /// The OS reports a state change of the thread: only the stopped state
    /// releases the notifier's share; every other state leaves all as it is.
    pub fn on_state_change(&mut self, state: u8) -> (r: Release)
        requires
            old(self).wf(),
            state == THREAD_STATE_STOPPED ==> old(self).holds(Owner::Notifier),
        ensures
            final(self).wf(),
            state == THREAD_STATE_STOPPED ==> *final(self) == old(self).released(Owner::Notifier)
                && r == old(self).release_outcome(Owner::Notifier),
            state != THREAD_STATE_STOPPED ==> *final(self) == *old(self) && r == Release::Keep,
    {
        if releases_share(state) {
            self.release(Owner::Notifier)
        } else {
            Release::Keep
        }
    }
}

/// Whichever order the join handle and the OS notifier release in, the first
/// release keeps the OS object and the second frees it: the object is freed
/// exactly once, and never while either owner still holds it.
pub proof fn lemma_freed_once_in_either_order(s: Teardown, first: Owner, second: Owner)
    requires
        s.spawned(),
        first != second,
    ensures
        s.release_outcome(first) == Release::Keep,
        !s.released(first).is_freed(),
        s.released(first).holds(second),
        s.released(first).release_outcome(second) == Release::Free,
        s.released(first).released(second).is_freed(),
        s.released(first).released(second).shares() == 0,
{
    s.lemma_released(first);
    s.released(first).lemma_released(second);
}

} // verus!
