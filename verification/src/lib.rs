//! Register callbacks that borrow from a bounded context with APIs that
//! expect callbacks of unbounded lifetime.
//!
//! The crate models the mechanism as an arena: a `Scope` owns one record per
//! registration, each record holding a guard slot (the live callback) and a
//! one-shot `Finalizer` (the pending deregistration). A `Registered` token
//! and the scope itself are the two owners that may force a finalizer;
//! forcing is idempotent, clears the guard slot first, and then runs the
//! caller's deregister adapter exactly once. Invoking a `Trampoline` whose
//! guard slot has been cleared is a loud misuse failure, never a silent
//! no-op.

pub mod finalizer;
pub mod laws;
pub mod scope;
pub mod slot;

pub use crate::finalizer::Finalizer;
pub use crate::scope::Registered;
pub use crate::scope::Scope;
pub use crate::scope::Trampoline;
pub use crate::scope::scope;
pub use crate::slot::GuardSlot;
pub use crate::slot::MisuseError;
