//! The one-shot finalizer: a deferred deregistration that runs at most once.

use vstd::prelude::*;

verus! {

/// A one-shot finalizer.
///
/// It holds the data its deferred action consumes — the opaque handle that
/// the caller's deregister adapter accepts — until the finalizer is forced
/// for the first time. Forcing hands that data out exactly once; every later
/// forcing is a no-op. A scope and a registration token may therefore both
/// force the same registration's finalizer without the deregistration ever
/// running twice.
pub struct Finalizer<H> {
    action: Option<H>,
}

impl<H> Finalizer<H> {
    /// The deferred deregistration data still pending, or `None` once the
    /// finalizer has been forced.
    pub closed spec fn pending(self) -> Option<H> {
        self.action
    }

    /// Whether the finalizer has already been forced.
    pub open spec fn is_forced(self) -> bool {
        self.pending() is None
    }

    /// How one forcing changes a finalizer: it hands out exactly the pending
    /// action, and leaves nothing pending behind.
    pub open spec fn force_step(pre: Self, post: Self, action: Option<H>) -> bool {
        &&& action == pre.pending()
        &&& post.is_forced()
    }

    /// Wraps the deferred deregistration data into a fresh, unforced
    /// finalizer.
    pub fn new(action: H) -> (f: Finalizer<H>)
        ensures
            f.pending() == Some(action),
            !f.is_forced(),
    {
        Finalizer { action: Some(action) }
    }

    /// Forces the finalizer. The first forcing returns the deferred
    /// deregistration data, which the caller must now run; any later forcing
    /// returns `None` and changes nothing.
    pub fn force(&mut self) -> (action: Option<H>)
        ensures
            Self::force_step(*old(self), *final(self), action),
    {
        self.action.take()
    }
}

/// However the two owners of a finalizer interleave their forcing, the
/// deferred deregistration runs exactly once: the first forcing of an
/// unforced finalizer hands the action out, and whatever is forced after
/// that — in particular a second forcing — hands out nothing.
pub proof fn lemma_forcing_is_idempotent<H>(
    f0: Finalizer<H>,
    f1: Finalizer<H>,
    f2: Finalizer<H>,
    first: Option<H>,
    second: Option<H>,
)
    requires
        Finalizer::force_step(f0, f1, first),
        Finalizer::force_step(f1, f2, second),
    ensures
        first == f0.pending(),
        !f0.is_forced() ==> first is Some,
        second is None,
{
}

} // verus!
