//! The guard slot: the runtime-checked holder of the live callback.

use vstd::prelude::*;

verus! {

/// The fatal outcome of invoking a trampoline after its guard slot has been
/// cleared. It signals a programming error in the surrounding registration
/// machinery — a callback called after its deregistration — and is never to
/// be recovered from.
#[derive(Debug, Clone, Copy, PartialEq, Eq, Structural)]
pub struct MisuseError;

/// A guard slot.
///
/// While the slot is populated the stored callback may legally be invoked;
/// once the slot has been cleared — which happens no later than the end of
/// the callback's validity window — every invocation attempt reports
/// [`MisuseError`] instead of touching the callback.
pub struct GuardSlot<F> {
    callback: Option<F>,
}

impl<F> GuardSlot<F> {
    /// The stored callback, or `None` once the slot has been cleared.
    pub closed spec fn callback(self) -> Option<F> {
        self.callback
    }

    /// Whether the slot still holds its callback.
    pub open spec fn is_populated(self) -> bool {
        self.callback() is Some
    }

    /// The callback a populated slot holds.
    pub open spec fn stored(self) -> F
        recommends
            self.is_populated(),
    {
        self.callback()->Some_0
    }

    /// Populates a fresh slot with the given callback.
    pub fn new(callback: F) -> (s: GuardSlot<F>)
        ensures
            s.callback() == Some(callback),
            s.is_populated(),
    {
        GuardSlot { callback: Some(callback) }
    }

    /// Clears the slot, dropping the stored callback. From this point on the
    /// callback can no longer be reached through the slot.
    pub fn clear(&mut self)
        ensures
            !final(self).is_populated(),
            final(self).callback() is None,
    {
        self.callback = None;
    }

    /// Invokes the stored callback with `arg`, as the trampoline does on
    /// every call: a populated slot delegates to the callback and returns
    /// its result, a cleared slot reports the misuse loudly.
    pub fn invoke<A, R>(&self, arg: A) -> (r: Result<R, MisuseError>) where F: Fn(A) -> R
        requires
            self.is_populated() ==> call_requires(self.stored(), (arg,)),
        ensures
            r is Ok <==> self.is_populated(),
            r matches Ok(v) ==> call_ensures(self.stored(), (arg,), v),
    {
        match &self.callback {
            Some(f) => Ok(f(arg)),
            None => Err(MisuseError),
        }
    }
}

} // verus!
