//! A single-invocation cleanup action.
//!
//! The collector decides *when* a retired action may run, not *what* it
//! does.  A [`Deferred`] therefore carries an identifier naming the action
//! to its owner; running the action means consuming the token through
//! [`Deferred::call`], so the type system enforces that no action is
//! executed more than once.

use vstd::prelude::*;

verus! {

/// A one-shot action token, runnable exactly once.
pub struct Deferred {
    /// The identifier of the cleanup action this token stands for.
    pub action: u64,
    /// The generation during which the token was retired; recorded by the
    /// collector when the token enters a reclamation queue.
    pub retired_at: Ghost<u64>,
}

impl Deferred {
    /// Wraps a cleanup action, named by its identifier, for later retiring.
    pub fn new(action: u64) -> (d: Deferred)
        ensures
            d.action == action,
    {
        Deferred { action, retired_at: Ghost(0) }
    }

    /// Consumes the token and yields the action identifier for the caller
    /// to execute.  Consuming `self` is what makes a second invocation
    /// impossible.
    pub fn call(self) -> (action: u64)
        ensures
            action == self.action,
    {
        self.action
    }
}

} // verus!
